use std::cell::Cell;

use wew::runtime::{
    LogLevel, ProcessGuard, Runtime, RuntimeAttributesBuilder, RuntimeHandler,
    RuntimeTeardownStep,
};
use wew::{
    is_subprocess, Error, LoopAction, LoopStrategy, MainThreadMessageLoop, MessageLoopAbstract,
    MessagePumpLoop, MultiThreadMessageLoop, NativeWindowWebView, RenderMode, WebViewAbstract,
    WindowlessRenderWebView,
};

struct CountingObserver {
    initialized_calls: Cell<u32>,
}

impl RuntimeHandler for CountingObserver {
    fn on_context_initialized(&self) {
        self.initialized_calls.set(self.initialized_calls.get() + 1);
    }
}

fn built_attributes(
    strategy: LoopStrategy,
    mode: RenderMode,
) -> wew::runtime::RuntimeAttributes {
    RuntimeAttributesBuilder::new(strategy, mode).build()
}

#[test]
fn second_runtime_is_refused_and_first_unaffected() {
    let mut guard = ProcessGuard::new();

    let first = built_attributes(LoopStrategy::MainThread, RenderMode::NativeWindow)
        .create_runtime(&mut guard, true)
        .unwrap();
    let mut first = Runtime::from_launch(first, true, &mut guard).unwrap();
    assert!(guard.runtime_alive);

    let second = built_attributes(LoopStrategy::MainThread, RenderMode::NativeWindow)
        .create_runtime(&mut guard, true);
    assert!(matches!(second, Err(Error::RuntimeAlreadyExists)));

    // The first runtime is untouched and still becomes fully functional.
    assert!(guard.runtime_alive);
    assert!(!first.is_initialized());
    let observer = CountingObserver { initialized_calls: Cell::new(0) };
    first.handle_context_initialized(&observer);
    assert!(first.is_initialized());
}

#[test]
fn creation_off_main_thread_is_refused_and_flag_stays_clear() {
    let mut guard = ProcessGuard::new();

    let attempt = built_attributes(LoopStrategy::MainThread, RenderMode::NativeWindow)
        .create_runtime(&mut guard, false);

    assert!(matches!(attempt, Err(Error::NonUIThread)));
    assert!(!guard.runtime_alive);
}

#[test]
fn uniqueness_is_checked_before_thread_affinity() {
    let mut guard = ProcessGuard::new();
    let launch = built_attributes(LoopStrategy::MainThread, RenderMode::NativeWindow)
        .create_runtime(&mut guard, true)
        .unwrap();
    let _runtime = Runtime::from_launch(launch, true, &mut guard).unwrap();

    // With a runtime alive, even an off-thread attempt reports uniqueness.
    let attempt = built_attributes(LoopStrategy::MainThread, RenderMode::NativeWindow)
        .create_runtime(&mut guard, false);
    assert!(matches!(attempt, Err(Error::RuntimeAlreadyExists)));
}

#[test]
fn failed_native_creation_releases_the_flag() {
    let mut guard = ProcessGuard::new();
    let launch = built_attributes(LoopStrategy::MainThread, RenderMode::NativeWindow)
        .create_runtime(&mut guard, true)
        .unwrap();
    assert!(guard.runtime_alive);

    let outcome = Runtime::from_launch(launch, false, &mut guard);
    assert!(matches!(outcome, Err(Error::FailedToCreateRuntime)));
    assert!(!guard.runtime_alive);

    // After the failure the process can try again.
    let retry = built_attributes(LoopStrategy::MainThread, RenderMode::NativeWindow)
        .create_runtime(&mut guard, true);
    assert!(retry.is_ok());
}

#[test]
fn background_strategy_initializes_flag_before_hook() {
    let mut guard = ProcessGuard::new();

    let launch = built_attributes(LoopStrategy::MultiThread, RenderMode::NativeWindow)
        .create_runtime(&mut guard, true)
        .unwrap();
    // The background-thread strategy drives the loop elsewhere: creation
    // itself returns at once, telling the shell to spawn.
    assert!(launch.spawn_thread);

    let mut runtime = Runtime::from_launch(launch, true, &mut guard).unwrap();
    assert!(!runtime.is_initialized());

    // Simulate the engine's context-initialized callback.
    let observer = CountingObserver { initialized_calls: Cell::new(0) };
    runtime.handle_context_initialized(&observer);

    assert!(runtime.is_initialized());
    assert_eq!(observer.initialized_calls.get(), 1);
}

#[test]
fn builder_produces_exact_settings_record() {
    let mut guard = ProcessGuard::new();
    let attributes = RuntimeAttributesBuilder::new(
        LoopStrategy::MainThread,
        RenderMode::NativeWindow,
    )
        .with_cache_path("/tmp/cache")
        .with_log_severity(LogLevel::Info)
        .build();

    let launch = attributes.create_runtime(&mut guard, true).unwrap();
    assert_eq!(launch.settings.cache_path, Some("/tmp/cache".to_string()));
    assert_eq!(launch.settings.log_severity, LogLevel::Info.native_code());
    assert_eq!(launch.settings.root_cache_path, None);
    assert!(!launch.settings.windowless_rendering_enabled);
    assert!(!launch.settings.multi_threaded_message_loop);
    assert!(!launch.settings.external_message_pump);
    assert!(launch.settings.custom_scheme.is_none());
}

#[test]
fn builder_carries_every_option_into_the_record() {
    let mut guard = ProcessGuard::new();
    let attributes = RuntimeAttributesBuilder::new(LoopStrategy::Pump, RenderMode::Windowless)
        .with_root_cache_path("/tmp/root")
        .with_browser_subprocess_path("/bin/helper")
        .with_framework_dir_path("/fw")
        .with_main_bundle_path("/bundle")
        .with_user_agent("agent")
        .with_user_agent_product("product")
        .with_locale("en-US")
        .with_log_file("/tmp/log")
        .with_javascript_flags("--expose-gc")
        .with_resources_dir_path("/res")
        .with_locales_dir_path("/locales")
        .with_background_color(0x11223344)
        .with_disable_signal_handlers(true)
        .with_command_line_args_disabled(true)
        .with_persist_session_cookies(true)
        .build();

    // The thread-model flags come from the strategy and rendering mode alone.
    assert!(attributes.windowless_rendering_enabled);
    assert!(attributes.external_message_pump);
    assert!(!attributes.multi_threaded_message_loop);

    let launch = attributes.create_runtime(&mut guard, true).unwrap();
    let s = &launch.settings;
    assert_eq!(s.root_cache_path, Some("/tmp/root".to_string()));
    assert_eq!(s.browser_subprocess_path, Some("/bin/helper".to_string()));
    assert_eq!(s.framework_dir_path, Some("/fw".to_string()));
    assert_eq!(s.main_bundle_path, Some("/bundle".to_string()));
    assert_eq!(s.user_agent, Some("agent".to_string()));
    assert_eq!(s.user_agent_product, Some("product".to_string()));
    assert_eq!(s.locale, Some("en-US".to_string()));
    assert_eq!(s.log_file, Some("/tmp/log".to_string()));
    assert_eq!(s.javascript_flags, Some("--expose-gc".to_string()));
    assert_eq!(s.resources_dir_path, Some("/res".to_string()));
    assert_eq!(s.locales_dir_path, Some("/locales".to_string()));
    assert_eq!(s.background_color, 0x11223344);
    assert!(s.disable_signal_handlers);
    assert!(s.command_line_args_disabled);
    assert!(s.persist_session_cookies);
    assert!(s.windowless_rendering_enabled);
    assert!(s.external_message_pump);
    // An unset severity travels as the "off" discriminant.
    assert_eq!(s.log_severity, LogLevel::Off.native_code());
}

#[test]
fn strategy_markers_build_matching_configurations() {
    let builder = MainThreadMessageLoop::default()
        .create_runtime_attributes_builder(&NativeWindowWebView::default());
    let attributes = builder.build();
    assert!(!attributes.multi_threaded_message_loop);
    assert!(!attributes.external_message_pump);
    assert!(!attributes.windowless_rendering_enabled);

    let builder = MultiThreadMessageLoop::default()
        .create_runtime_attributes_builder(&WindowlessRenderWebView::default());
    let attributes = builder.build();
    assert!(attributes.multi_threaded_message_loop);
    assert!(!attributes.external_message_pump);
    assert!(attributes.windowless_rendering_enabled);

    let builder = MessagePumpLoop::default()
        .create_runtime_attributes_builder(&NativeWindowWebView::default());
    let attributes = builder.build();
    assert!(!attributes.multi_threaded_message_loop);
    assert!(attributes.external_message_pump);
    assert!(!attributes.windowless_rendering_enabled);
}

#[test]
fn teardown_orders_quit_before_close_for_background_loop() {
    let mut guard = ProcessGuard::new();
    let launch = built_attributes(LoopStrategy::MultiThread, RenderMode::NativeWindow)
        .create_runtime(&mut guard, true)
        .unwrap();
    let runtime = Runtime::from_launch(launch, true, &mut guard).unwrap();

    let steps = runtime.close(&mut guard);
    assert!(!guard.runtime_alive);
    assert_eq!(
        steps,
        vec![
            RuntimeTeardownStep::QuitMessageLoop,
            RuntimeTeardownStep::ClearProcessFlag,
            RuntimeTeardownStep::CloseNativeHandle,
            RuntimeTeardownStep::FreeCallbackContext,
        ]
    );
}

#[test]
fn teardown_skips_quit_for_foreground_loops() {
    let mut guard = ProcessGuard::new();
    let launch = built_attributes(LoopStrategy::MainThread, RenderMode::NativeWindow)
        .create_runtime(&mut guard, true)
        .unwrap();
    let runtime = Runtime::from_launch(launch, true, &mut guard).unwrap();

    let steps = runtime.close(&mut guard);
    assert!(!guard.runtime_alive);
    assert_eq!(
        steps,
        vec![
            RuntimeTeardownStep::ClearProcessFlag,
            RuntimeTeardownStep::CloseNativeHandle,
            RuntimeTeardownStep::FreeCallbackContext,
        ]
    );
}

#[test]
fn loop_calls_decide_misuse_skip_and_run() {
    let main_loop = MainThreadMessageLoop::default();
    assert_eq!(main_loop.block_run(true), LoopAction::Run);
    assert_eq!(main_loop.block_run(false), LoopAction::Misuse);
    assert_eq!(main_loop.quit(), LoopAction::Run);

    let pump = MessagePumpLoop::default();
    let mut guard = ProcessGuard::new();
    assert_eq!(pump.poll(&guard, false), LoopAction::Misuse);
    assert_eq!(pump.poll(&guard, true), LoopAction::Skip);
    guard.runtime_alive = true;
    assert_eq!(pump.poll(&guard, true), LoopAction::Run);
}

#[test]
fn subprocess_flag_is_detected_in_arguments() {
    let helper = vec![
        "app".to_string(),
        "--type=renderer".to_string(),
        "--lang=en".to_string(),
    ];
    assert!(is_subprocess(&helper));

    let host = vec!["app".to_string(), "--flag".to_string()];
    assert!(!is_subprocess(&host));

    let empty: Vec<String> = Vec::new();
    assert!(!is_subprocess(&empty));
}
