//! Runtime lifecycle: the process-wide singleton that owns the engine's
//! execution context.
//!
//! Creating a runtime is split into two steps around the one native call the
//! engine makes for it. [`RuntimeAttributes::create_runtime`] performs the
//! checks and the translation into the flat settings record, reserving the
//! process-wide flag; the host shell then invokes the engine's creation entry
//! point and hands the outcome to [`Runtime::from_launch`], which either
//! yields the runtime or releases the flag again. All four creation-time
//! errors are returned, never retried.

use vstd::prelude::*;

use crate::Error;
use crate::LoopStrategy;
use crate::RenderMode;
use crate::request::CustomRequestHandlerFactory;
use crate::request::CustomSchemeAttributes;
use crate::utils::clone_opt_string;
use crate::utils::has_nul;
use crate::utils::opt_str_view;
use crate::webview::WebViewAttributes;
use crate::webview::WebViewLaunch;
use crate::webview::font_sizes_fit;
use crate::webview::webview_settings_match;

verus! {

/// Log severity used to filter the engine's logs.
#[derive(Debug, Clone, Copy, PartialEq, Eq, Hash, Structural)]
pub enum LogLevel {
    Off,
    Info,
    Error,
    Warn,
    Debug,
    Trace,
}

/// The discriminant the engine's ABI uses for each log severity.
pub open spec fn log_level_spec_code(l: LogLevel) -> u32 {
    match l {
        LogLevel::Off => 0,
        LogLevel::Info => 1,
        LogLevel::Warn => 2,
        LogLevel::Error => 3,
        LogLevel::Debug => 4,
        LogLevel::Trace => 5,
    }
}

impl LogLevel {
    /// The discriminant the engine's ABI uses for this severity.
    pub fn native_code(self) -> (r: u32)
        ensures
            r == log_level_spec_code(self),
    {
        match self {
            LogLevel::Off => 0,
            LogLevel::Info => 1,
            LogLevel::Warn => 2,
            LogLevel::Error => 3,
            LogLevel::Debug => 4,
            LogLevel::Trace => 5,
        }
    }
}

/// The process-wide "a runtime is alive" flag. The host owns exactly one
/// value of this type for the whole process and threads every runtime
/// creation and teardown through it; that makes the single-instance check an
/// explicit, testable guard.
pub struct ProcessGuard {
    pub runtime_alive: bool,
}

impl ProcessGuard {
    /// A fresh process state: no runtime alive.
    pub fn new() -> (r: Self)
        ensures
            !r.runtime_alive,
    {
        ProcessGuard { runtime_alive: false }
    }
}

/// Runtime configuration attributes, fixed once built. The thread-model
/// flags (`multi_threaded_message_loop`, `external_message_pump`,
/// `windowless_rendering_enabled`) are set by [`RuntimeAttributesBuilder::build`]
/// from the loop strategy and rendering mode the builder was created with,
/// which keeps them mutually exclusive.
pub struct RuntimeAttributes {
    /// The loop model chosen at builder-construction time.
    pub strategy: LoopStrategy,
    /// The rendering mode chosen at builder-construction time.
    pub render_mode: RenderMode,
    /// Custom scheme registration: scheme name, domain and handler factory.
    pub custom_scheme: Option<CustomSchemeAttributes>,
    /// Whether windowless (off-screen) rendering is enabled.
    pub windowless_rendering_enabled: bool,
    /// The directory holding the global browser cache.
    pub cache_path: Option<String>,
    /// The root directory for installation-specific data.
    pub root_cache_path: Option<String>,
    /// The separate executable launched for the engine's subprocesses.
    pub browser_subprocess_path: Option<String>,
    /// The engine framework directory (used on one platform's app bundles).
    pub framework_dir_path: Option<String>,
    /// The main bundle path (used on one platform's app bundles).
    pub main_bundle_path: Option<String>,
    /// Whether the host pumps the message loop itself.
    pub external_message_pump: bool,
    /// Whether a dedicated thread drives the message loop.
    pub multi_threaded_message_loop: bool,
    /// Whether command line arguments are ignored by the engine.
    pub command_line_args_disabled: bool,
    /// Whether session cookies are persisted.
    pub persist_session_cookies: bool,
    /// The user agent.
    pub user_agent: Option<String>,
    /// The user agent product.
    pub user_agent_product: Option<String>,
    /// The locale.
    pub locale: Option<String>,
    /// The log file.
    pub log_file: Option<String>,
    /// The log severity.
    pub log_severity: Option<LogLevel>,
    /// The javascript flags.
    pub javascript_flags: Option<String>,
    /// The resources directory.
    pub resources_dir_path: Option<String>,
    /// The locales directory.
    pub locales_dir_path: Option<String>,
    /// The background color.
    pub background_color: u32,
    /// Whether the engine's signal handlers are disabled.
    pub disable_signal_handlers: bool,
}

impl RuntimeAttributes {
    /// The attributes a fresh builder starts from: everything unset, bound to
    /// the given loop strategy and rendering mode.
    pub open spec fn spec_empty(strategy: LoopStrategy, render_mode: RenderMode) -> RuntimeAttributes {
        RuntimeAttributes {
            strategy,
            render_mode,
            custom_scheme: None,
            windowless_rendering_enabled: false,
            cache_path: None,
            root_cache_path: None,
            browser_subprocess_path: None,
            framework_dir_path: None,
            main_bundle_path: None,
            external_message_pump: false,
            multi_threaded_message_loop: false,
            command_line_args_disabled: false,
            persist_session_cookies: false,
            user_agent: None,
            user_agent_product: None,
            locale: None,
            log_file: None,
            log_severity: None,
            javascript_flags: None,
            resources_dir_path: None,
            locales_dir_path: None,
            background_color: 0,
            disable_signal_handlers: false,
        }
    }
}

/// The flat, fixed-layout settings record handed to the engine's runtime
/// creation entry point. String options are carried as NUL-free text; the
/// shell turns each into a NUL-terminated C string at the boundary, and an
/// unset option becomes a null pointer.
#[derive(Debug, Clone, PartialEq, Eq)]
pub struct RuntimeSettingsRecord {
    pub cache_path: Option<String>,
    pub root_cache_path: Option<String>,
    pub background_color: u32,
    pub command_line_args_disabled: bool,
    pub disable_signal_handlers: bool,
    pub javascript_flags: Option<String>,
    pub persist_session_cookies: bool,
    pub user_agent: Option<String>,
    pub user_agent_product: Option<String>,
    pub locale: Option<String>,
    pub log_file: Option<String>,
    pub resources_dir_path: Option<String>,
    pub locales_dir_path: Option<String>,
    pub browser_subprocess_path: Option<String>,
    pub windowless_rendering_enabled: bool,
    pub main_bundle_path: Option<String>,
    pub framework_dir_path: Option<String>,
    pub external_message_pump: bool,
    pub multi_threaded_message_loop: bool,
    /// The engine discriminant of the configured log severity (`Off` when
    /// none was set).
    pub log_severity: u32,
    /// The registered custom scheme, if any.
    pub custom_scheme: Option<CustomSchemeRecord>,
}

/// The custom scheme part of the settings record: name and domain; the
/// factory itself travels separately so the runtime can keep it alive.
#[derive(Debug, Clone, PartialEq, Eq)]
pub struct CustomSchemeRecord {
    pub name: String,
    pub domain: String,
}

/// The settings record carries exactly the built attributes: every option is
/// copied, the severity is encoded, and the thread-model flags are taken as
/// they stand.
pub open spec fn settings_match(a: RuntimeAttributes, s: RuntimeSettingsRecord) -> bool {
    &&& opt_str_view(s.cache_path) == opt_str_view(a.cache_path)
    &&& opt_str_view(s.root_cache_path) == opt_str_view(a.root_cache_path)
    &&& opt_str_view(s.browser_subprocess_path) == opt_str_view(a.browser_subprocess_path)
    &&& opt_str_view(s.framework_dir_path) == opt_str_view(a.framework_dir_path)
    &&& opt_str_view(s.main_bundle_path) == opt_str_view(a.main_bundle_path)
    &&& opt_str_view(s.user_agent) == opt_str_view(a.user_agent)
    &&& opt_str_view(s.user_agent_product) == opt_str_view(a.user_agent_product)
    &&& opt_str_view(s.locale) == opt_str_view(a.locale)
    &&& opt_str_view(s.log_file) == opt_str_view(a.log_file)
    &&& opt_str_view(s.javascript_flags) == opt_str_view(a.javascript_flags)
    &&& opt_str_view(s.resources_dir_path) == opt_str_view(a.resources_dir_path)
    &&& opt_str_view(s.locales_dir_path) == opt_str_view(a.locales_dir_path)
    &&& s.background_color == a.background_color
    &&& s.command_line_args_disabled == a.command_line_args_disabled
    &&& s.disable_signal_handlers == a.disable_signal_handlers
    &&& s.persist_session_cookies == a.persist_session_cookies
    &&& s.windowless_rendering_enabled == a.windowless_rendering_enabled
    &&& s.external_message_pump == a.external_message_pump
    &&& s.multi_threaded_message_loop == a.multi_threaded_message_loop
    &&& s.log_severity == log_level_spec_code(
        match a.log_severity {
            Some(l) => l,
            None => LogLevel::Off,
        },
    )
    &&& match (a.custom_scheme, s.custom_scheme) {
        (Some(cs), Some(r)) => r.name@ == cs.name@ && r.domain@ == cs.domain@,
        (None, None) => true,
        _ => false,
    }
}

impl RuntimeAttributes {
    /// Translate the built attributes into the engine's settings record.
    fn to_native_settings(&self) -> (s: RuntimeSettingsRecord)
        ensures
            settings_match(*self, s),
    {
        let log_severity = match self.log_severity {
            Some(l) => l,
            None => LogLevel::Off,
        }.native_code();
        let custom_scheme = match &self.custom_scheme {
            Some(cs) => Some(
                CustomSchemeRecord { name: cs.name.clone(), domain: cs.domain.clone() },
            ),
            None => None,
        };
        RuntimeSettingsRecord {
            cache_path: clone_opt_string(&self.cache_path),
            root_cache_path: clone_opt_string(&self.root_cache_path),
            background_color: self.background_color,
            command_line_args_disabled: self.command_line_args_disabled,
            disable_signal_handlers: self.disable_signal_handlers,
            javascript_flags: clone_opt_string(&self.javascript_flags),
            persist_session_cookies: self.persist_session_cookies,
            user_agent: clone_opt_string(&self.user_agent),
            user_agent_product: clone_opt_string(&self.user_agent_product),
            locale: clone_opt_string(&self.locale),
            log_file: clone_opt_string(&self.log_file),
            resources_dir_path: clone_opt_string(&self.resources_dir_path),
            locales_dir_path: clone_opt_string(&self.locales_dir_path),
            browser_subprocess_path: clone_opt_string(&self.browser_subprocess_path),
            windowless_rendering_enabled: self.windowless_rendering_enabled,
            main_bundle_path: clone_opt_string(&self.main_bundle_path),
            framework_dir_path: clone_opt_string(&self.framework_dir_path),
            external_message_pump: self.external_message_pump,
            multi_threaded_message_loop: self.multi_threaded_message_loop,
            log_severity,
            custom_scheme,
        }
    }

    /// Begin runtime creation: the guarded, translation-only step before the
    /// engine is called.
    ///
    /// At most one runtime may be alive per process, and creation must happen
    /// on the designated main thread; each violation is reported by its own
    /// error and leaves the process state untouched, so an alive runtime is
    /// unaffected by later attempts and a refused attempt leaves the
    /// process-wide flag clear. When both checks pass, the flag is taken and
    /// the returned launch record carries the translated settings, the loop
    /// strategy and the custom-scheme factory for [`Runtime::from_launch`].
    pub fn create_runtime(self, guard: &mut ProcessGuard, on_main_thread: bool) -> (r: Result<
        RuntimeLaunch,
        Error,
    >)
        ensures
            old(guard).runtime_alive ==> (r matches Err(e) && e == Error::RuntimeAlreadyExists
                && *final(guard) == *old(guard)),
            !old(guard).runtime_alive && !on_main_thread ==> (r matches Err(e)
                && e == Error::NonUIThread && *final(guard) == *old(guard)),
            !old(guard).runtime_alive && on_main_thread ==> (r matches Ok(l)
                && final(guard).runtime_alive && settings_match(self, l.settings)
                && l.strategy == self.strategy && l.render_mode == self.render_mode
                && l.spawn_thread == (self.strategy is MultiThread)
                && (match self.custom_scheme {
                    Some(cs) => l.request_handler_factory == Some(cs.handler),
                    None => l.request_handler_factory is None,
                })),
    {
        if guard.runtime_alive {
            return Err(Error::RuntimeAlreadyExists);
        }
        if !on_main_thread {
            return Err(Error::NonUIThread);
        }
        let settings = self.to_native_settings();
        let spawn_thread = match self.strategy {
            LoopStrategy::MultiThread => true,
            _ => false,
        };
        let request_handler_factory = match self.custom_scheme {
            Some(cs) => Some(cs.handler),
            None => None,
        };
        guard.runtime_alive = true;
        Ok(
            RuntimeLaunch {
                settings,
                strategy: self.strategy,
                render_mode: self.render_mode,
                spawn_thread,
                request_handler_factory,
            },
        )
    }
}

/// Everything the shell needs to perform the native side of runtime
/// creation: the settings record for the creation entry point, and the
/// decision whether the loop-driving call runs on a spawned thread.
pub struct RuntimeLaunch {
    pub settings: RuntimeSettingsRecord,
    pub strategy: LoopStrategy,
    pub render_mode: RenderMode,
    /// True exactly for the multi-threaded strategy: the engine-driving call
    /// then runs on a dedicated thread instead of the caller's.
    pub spawn_thread: bool,
    /// The custom-scheme factory, carried through so the runtime keeps it
    /// alive while the engine retains a pointer to it.
    pub request_handler_factory: Option<CustomRequestHandlerFactory>,
}

/// Runtime handler: observer of runtime lifecycle events, implemented by the
/// host.
pub trait RuntimeHandler {
    /// Called when the engine's context is initialized. When this observer
    /// runs, the runtime's initialized flag is already set, so calls against
    /// the runtime made from here are not refused as not-ready.
    fn on_context_initialized(&self);
}

/// Runtime handler for the message-pump strategy: additionally receives the
/// engine's scheduling hints.
pub trait MessagePumpRuntimeHandler: RuntimeHandler {
    /// Called when the engine suggests waiting `delay` milliseconds before
    /// the next poll. Honoring it is recommended, not required.
    fn on_schedule_message_pump_work(&self, delay: u64);
}

/// One step of runtime teardown, to be performed by the shell in the order
/// [`Runtime::close`] returns them.
#[derive(Debug, Clone, Copy, PartialEq, Eq, Structural)]
pub enum RuntimeTeardownStep {
    /// Ask the message loop to quit (multi-threaded strategy only: the native
    /// close call must not race an active driving thread).
    QuitMessageLoop,
    /// Clear the process-wide "runtime alive" flag.
    ClearProcessFlag,
    /// Close the native runtime handle.
    CloseNativeHandle,
    /// Reconstitute and free the boxed callback context, exactly once.
    FreeCallbackContext,
}

/// The process-wide runtime: owner of the engine's execution context.
pub struct Runtime {
    /// Set exactly when the engine has reported context initialization.
    pub initialized: bool,
    /// The loop model this runtime was created under.
    pub strategy: LoopStrategy,
    /// The rendering mode this runtime was created under.
    pub render_mode: RenderMode,
    /// The custom-scheme factory kept alive for the engine's retained
    /// pointer.
    pub request_handler_factory: Option<CustomRequestHandlerFactory>,
}

/// One strong reference to the runtime, as a webview holds it: evidence that
/// the runtime must stay alive. Webviews release theirs exactly once, on the
/// terminal close state.
pub struct RuntimeRef {
    keepalive: (),
}

impl Runtime {
    /// Finish runtime creation from the engine's outcome. A null native
    /// handle means the creation failed: the error is returned, the
    /// process-wide flag is released again (the settings and context the
    /// shell prepared were never adopted by the engine and must be freed by
    /// it). Otherwise the runtime starts in the not-initialized state and the
    /// flag stays taken.
    pub fn from_launch(launch: RuntimeLaunch, native_created: bool, guard: &mut ProcessGuard) -> (r:
        Result<Runtime, Error>)
        requires
            old(guard).runtime_alive,
        ensures
            !native_created ==> (r matches Err(e) && e == Error::FailedToCreateRuntime
                && !final(guard).runtime_alive),
            native_created ==> (r matches Ok(rt) && final(guard).runtime_alive && !rt.initialized
                && rt.strategy == launch.strategy && rt.render_mode == launch.render_mode
                && rt.request_handler_factory == launch.request_handler_factory),
    {
        if !native_created {
            guard.runtime_alive = false;
            return Err(Error::FailedToCreateRuntime);
        }
        Ok(
            Runtime {
                initialized: false,
                strategy: launch.strategy,
                render_mode: launch.render_mode,
                request_handler_factory: launch.request_handler_factory,
            },
        )
    }

    /// Whether the engine has reported context initialization.
    pub fn is_initialized(&self) -> (r: bool)
        ensures
            r == self.initialized,
    {
        self.initialized
    }

    /// Mint one strong reference to this runtime, for a dependent (a webview
    /// callback context) to keep it alive.
    pub fn get_shared_ref(&self) -> RuntimeRef {
        RuntimeRef { keepalive: () }
    }

    /// Handle the engine's context-initialized callback: the initialized
    /// flag is set first, then the observer is notified, so observer code can
    /// already rely on the runtime being ready.
    pub fn handle_context_initialized<T: RuntimeHandler>(&mut self, handler: &T)
        ensures
            *final(self) == (Runtime { initialized: true, ..*old(self) }),
    {
        self.initialized = true;
        handler.on_context_initialized();
    }

    /// Handle the engine's schedule-pump-work callback: the suggested delay
    /// (milliseconds) is forwarded verbatim to a pump-aware observer.
    /// Observers without the pump extension never see this signal.
    pub fn handle_schedule_pump_work<T: MessagePumpRuntimeHandler>(&self, handler: &T, delay: u64) {
        handler.on_schedule_message_pump_work(delay);
    }

    /// Begin webview creation: the gated, translation-only step before the
    /// engine is called.
    ///
    /// Until this runtime's initialized flag is set, the attempt is refused
    /// as not-ready, and nothing native is allocated. Once initialized, the
    /// returned launch record carries the page URL, the translated settings
    /// and the per-webview factory for [`crate::webview::WebView::from_launch`].
    /// The URL crosses the engine's C string boundary, so it must hold no
    /// NUL, and the font sizes must fit the ABI's signed fields.
    pub fn create_webview(&self, url: &str, attr: WebViewAttributes) -> (r: Result<
        WebViewLaunch,
        Error,
    >)
        requires
            !has_nul(url@),
            font_sizes_fit(attr),
        ensures
            !self.initialized ==> (r matches Err(e) && e == Error::RuntimeNotInitialization),
            self.initialized ==> (r matches Ok(l) && l.url@ == url@ && webview_settings_match(
                attr,
                l.settings,
            ) && l.request_handler_factory == attr.request_handler_factory),
    {
        if !self.is_initialized() {
            return Err(Error::RuntimeNotInitialization);
        }
        let settings = attr.to_native_settings();
        Ok(
            WebViewLaunch {
                url: url.to_owned(),
                settings,
                request_handler_factory: attr.request_handler_factory,
            },
        )
    }

    /// Tear the runtime down. The returned steps must be performed in order:
    /// for the multi-threaded strategy the loop is asked to quit first, then
    /// the process-wide flag is cleared (done here as well), the native
    /// handle is closed, and the callback context is freed, exactly once.
    pub fn close(self, guard: &mut ProcessGuard) -> (steps: Vec<RuntimeTeardownStep>)
        ensures
            !final(guard).runtime_alive,
            self.strategy is MultiThread ==> steps@ == seq![
                RuntimeTeardownStep::QuitMessageLoop,
                RuntimeTeardownStep::ClearProcessFlag,
                RuntimeTeardownStep::CloseNativeHandle,
                RuntimeTeardownStep::FreeCallbackContext,
            ],
            !(self.strategy is MultiThread) ==> steps@ == seq![
                RuntimeTeardownStep::ClearProcessFlag,
                RuntimeTeardownStep::CloseNativeHandle,
                RuntimeTeardownStep::FreeCallbackContext,
            ],
    {
        let mut steps: Vec<RuntimeTeardownStep> = Vec::new();
        let multi = match self.strategy {
            LoopStrategy::MultiThread => true,
            _ => false,
        };
        if multi {
            steps.push(RuntimeTeardownStep::QuitMessageLoop);
        }
        steps.push(RuntimeTeardownStep::ClearProcessFlag);
        guard.runtime_alive = false;
        steps.push(RuntimeTeardownStep::CloseNativeHandle);
        steps.push(RuntimeTeardownStep::FreeCallbackContext);
        proof {
            if multi {
                assert(steps@ =~= seq![
                    RuntimeTeardownStep::QuitMessageLoop,
                    RuntimeTeardownStep::ClearProcessFlag,
                    RuntimeTeardownStep::CloseNativeHandle,
                    RuntimeTeardownStep::FreeCallbackContext,
                ]);
            } else {
                assert(steps@ =~= seq![
                    RuntimeTeardownStep::ClearProcessFlag,
                    RuntimeTeardownStep::CloseNativeHandle,
                    RuntimeTeardownStep::FreeCallbackContext,
                ]);
            }
        }
        steps
    }
}

/// Runtime configuration attributes builder. String options are checked to
/// be NUL-free as they are set; the thread-model flags are derived at
/// [`RuntimeAttributesBuilder::build`] time from the loop strategy and
/// rendering mode the builder was created with.
pub struct RuntimeAttributesBuilder(pub RuntimeAttributes);

impl RuntimeAttributesBuilder {
    /// A fresh builder for the given loop strategy and rendering mode.
    pub fn new(strategy: LoopStrategy, render_mode: RenderMode) -> (r: Self)
        ensures
            r.0 == RuntimeAttributes::spec_empty(strategy, render_mode),
    {
        RuntimeAttributesBuilder(
            RuntimeAttributes {
                strategy,
                render_mode,
                custom_scheme: None,
                windowless_rendering_enabled: false,
                cache_path: None,
                root_cache_path: None,
                browser_subprocess_path: None,
                framework_dir_path: None,
                main_bundle_path: None,
                external_message_pump: false,
                multi_threaded_message_loop: false,
                command_line_args_disabled: false,
                persist_session_cookies: false,
                user_agent: None,
                user_agent_product: None,
                locale: None,
                log_file: None,
                log_severity: None,
                javascript_flags: None,
                resources_dir_path: None,
                locales_dir_path: None,
                background_color: 0,
                disable_signal_handlers: false,
            },
        )
    }

    /// Register a custom scheme handled by the host.
    pub fn with_custom_scheme(self, scheme: CustomSchemeAttributes) -> (r: Self)
        ensures
            r.0.custom_scheme == Some(scheme),
            r.0 == (RuntimeAttributes { custom_scheme: r.0.custom_scheme, ..self.0 }),
    {
        let mut a = self.0;
        a.custom_scheme = Some(scheme);
        RuntimeAttributesBuilder(a)
    }

    /// Set the directory holding the global browser cache.
    pub fn with_cache_path(self, value: &str) -> (r: Self)
        requires
            !has_nul(value@),
        ensures
            r.0.cache_path matches Some(s) && s@ == value@,
            r.0 == (RuntimeAttributes { cache_path: r.0.cache_path, ..self.0 }),
    {
        let mut a = self.0;
        a.cache_path = Some(value.to_owned());
        RuntimeAttributesBuilder(a)
    }

    /// Set the root directory for installation-specific data.
    pub fn with_root_cache_path(self, value: &str) -> (r: Self)
        requires
            !has_nul(value@),
        ensures
            r.0.root_cache_path matches Some(s) && s@ == value@,
            r.0 == (RuntimeAttributes { root_cache_path: r.0.root_cache_path, ..self.0 }),
    {
        let mut a = self.0;
        a.root_cache_path = Some(value.to_owned());
        RuntimeAttributesBuilder(a)
    }

    /// Set the separate executable launched for the engine's subprocesses.
    pub fn with_browser_subprocess_path(self, value: &str) -> (r: Self)
        requires
            !has_nul(value@),
        ensures
            r.0.browser_subprocess_path matches Some(s) && s@ == value@,
            r.0 == (RuntimeAttributes {
                browser_subprocess_path: r.0.browser_subprocess_path,
                ..self.0
            }),
    {
        let mut a = self.0;
        a.browser_subprocess_path = Some(value.to_owned());
        RuntimeAttributesBuilder(a)
    }

    /// Set the engine framework directory.
    pub fn with_framework_dir_path(self, value: &str) -> (r: Self)
        requires
            !has_nul(value@),
        ensures
            r.0.framework_dir_path matches Some(s) && s@ == value@,
            r.0 == (RuntimeAttributes { framework_dir_path: r.0.framework_dir_path, ..self.0 }),
    {
        let mut a = self.0;
        a.framework_dir_path = Some(value.to_owned());
        RuntimeAttributesBuilder(a)
    }

    /// Set the main bundle path.
    pub fn with_main_bundle_path(self, value: &str) -> (r: Self)
        requires
            !has_nul(value@),
        ensures
            r.0.main_bundle_path matches Some(s) && s@ == value@,
            r.0 == (RuntimeAttributes { main_bundle_path: r.0.main_bundle_path, ..self.0 }),
    {
        let mut a = self.0;
        a.main_bundle_path = Some(value.to_owned());
        RuntimeAttributesBuilder(a)
    }

    /// Set the user agent.
    pub fn with_user_agent(self, value: &str) -> (r: Self)
        requires
            !has_nul(value@),
        ensures
            r.0.user_agent matches Some(s) && s@ == value@,
            r.0 == (RuntimeAttributes { user_agent: r.0.user_agent, ..self.0 }),
    {
        let mut a = self.0;
        a.user_agent = Some(value.to_owned());
        RuntimeAttributesBuilder(a)
    }

    /// Set the user agent product.
    pub fn with_user_agent_product(self, value: &str) -> (r: Self)
        requires
            !has_nul(value@),
        ensures
            r.0.user_agent_product matches Some(s) && s@ == value@,
            r.0 == (RuntimeAttributes { user_agent_product: r.0.user_agent_product, ..self.0 }),
    {
        let mut a = self.0;
        a.user_agent_product = Some(value.to_owned());
        RuntimeAttributesBuilder(a)
    }

    /// Set the locale.
    pub fn with_locale(self, value: &str) -> (r: Self)
        requires
            !has_nul(value@),
        ensures
            r.0.locale matches Some(s) && s@ == value@,
            r.0 == (RuntimeAttributes { locale: r.0.locale, ..self.0 }),
    {
        let mut a = self.0;
        a.locale = Some(value.to_owned());
        RuntimeAttributesBuilder(a)
    }

    /// Set the log file.
    pub fn with_log_file(self, value: &str) -> (r: Self)
        requires
            !has_nul(value@),
        ensures
            r.0.log_file matches Some(s) && s@ == value@,
            r.0 == (RuntimeAttributes { log_file: r.0.log_file, ..self.0 }),
    {
        let mut a = self.0;
        a.log_file = Some(value.to_owned());
        RuntimeAttributesBuilder(a)
    }

    /// Set the log severity.
    pub fn with_log_severity(self, value: LogLevel) -> (r: Self)
        ensures
            r.0 == (RuntimeAttributes { log_severity: Some(value), ..self.0 }),
    {
        let mut a = self.0;
        a.log_severity = Some(value);
        RuntimeAttributesBuilder(a)
    }

    /// Set the javascript flags.
    pub fn with_javascript_flags(self, value: &str) -> (r: Self)
        requires
            !has_nul(value@),
        ensures
            r.0.javascript_flags matches Some(s) && s@ == value@,
            r.0 == (RuntimeAttributes { javascript_flags: r.0.javascript_flags, ..self.0 }),
    {
        let mut a = self.0;
        a.javascript_flags = Some(value.to_owned());
        RuntimeAttributesBuilder(a)
    }

    /// Set the resources directory.
    pub fn with_resources_dir_path(self, value: &str) -> (r: Self)
        requires
            !has_nul(value@),
        ensures
            r.0.resources_dir_path matches Some(s) && s@ == value@,
            r.0 == (RuntimeAttributes { resources_dir_path: r.0.resources_dir_path, ..self.0 }),
    {
        let mut a = self.0;
        a.resources_dir_path = Some(value.to_owned());
        RuntimeAttributesBuilder(a)
    }

    /// Set the locales directory.
    pub fn with_locales_dir_path(self, value: &str) -> (r: Self)
        requires
            !has_nul(value@),
        ensures
            r.0.locales_dir_path matches Some(s) && s@ == value@,
            r.0 == (RuntimeAttributes { locales_dir_path: r.0.locales_dir_path, ..self.0 }),
    {
        let mut a = self.0;
        a.locales_dir_path = Some(value.to_owned());
        RuntimeAttributesBuilder(a)
    }

    /// Set the background color.
    pub fn with_background_color(self, value: u32) -> (r: Self)
        ensures
            r.0 == (RuntimeAttributes { background_color: value, ..self.0 }),
    {
        let mut a = self.0;
        a.background_color = value;
        RuntimeAttributesBuilder(a)
    }

    /// Set whether the engine's signal handlers are disabled.
    pub fn with_disable_signal_handlers(self, value: bool) -> (r: Self)
        ensures
            r.0 == (RuntimeAttributes { disable_signal_handlers: value, ..self.0 }),
    {
        let mut a = self.0;
        a.disable_signal_handlers = value;
        RuntimeAttributesBuilder(a)
    }

    /// Set whether command line arguments are ignored.
    pub fn with_command_line_args_disabled(self, value: bool) -> (r: Self)
        ensures
            r.0 == (RuntimeAttributes { command_line_args_disabled: value, ..self.0 }),
    {
        let mut a = self.0;
        a.command_line_args_disabled = value;
        RuntimeAttributesBuilder(a)
    }

    /// Set whether session cookies are persisted.
    pub fn with_persist_session_cookies(self, value: bool) -> (r: Self)
        ensures
            r.0 == (RuntimeAttributes { persist_session_cookies: value, ..self.0 }),
    {
        let mut a = self.0;
        a.persist_session_cookies = value;
        RuntimeAttributesBuilder(a)
    }

    /// Finalize the configuration. The thread-model flags are derived from
    /// the loop strategy and rendering mode, which makes them mutually
    /// exclusive by construction.
    pub fn build(self) -> (r: RuntimeAttributes)
        ensures
            r == (RuntimeAttributes {
                windowless_rendering_enabled: self.0.render_mode is Windowless,
                multi_threaded_message_loop: self.0.strategy is MultiThread,
                external_message_pump: self.0.strategy is Pump,
                ..self.0
            }),
            !(r.multi_threaded_message_loop && r.external_message_pump),
    {
        let mut a = self.0;
        a.windowless_rendering_enabled = match a.render_mode {
            RenderMode::Windowless => true,
            RenderMode::NativeWindow => false,
        };
        a.multi_threaded_message_loop = match a.strategy {
            LoopStrategy::MultiThread => true,
            _ => false,
        };
        a.external_message_pump = match a.strategy {
            LoopStrategy::Pump => true,
            _ => false,
        };
        a
    }
}

} // verus!
