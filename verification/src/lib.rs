//! A safety-oriented binding layer over an embedded, Chromium-derived
//! rendering engine.
//!
//! The engine itself is an opaque collaborator reached through a fixed set of
//! C entry points. This crate holds the coordination logic that surrounds
//! those entry points: the process-wide runtime lifecycle, webview creation
//! and teardown, translation of configuration into the flat records the
//! engine's ABI expects, and the state handling of the asynchronous engine
//! callbacks. Every decision is a function from plain values to plain values
//! with a proved contract; the host shell performs the native calls and feeds
//! the outcomes back in.
//!
//! Exactly one runtime may be alive in a process, it must be created on the
//! designated main/UI thread, and webviews can be created only after the
//! engine has reported that its context is initialized. Those rules are the
//! contracts of [`runtime::RuntimeAttributes::create_runtime`] and
//! [`runtime::Runtime::create_webview`].

use vstd::prelude::*;

pub mod cookie;
pub mod events;
pub mod request;
pub mod runtime;
pub mod utils;
pub mod webview;

use crate::runtime::ProcessGuard;
use crate::utils::contains_substr;
use crate::utils::contains_seq;

verus! {

/// Errors returned by runtime and webview construction.
#[derive(Debug, Clone, Copy, PartialEq, Eq, Structural)]
pub enum Error {
    /// The calling thread is not the designated main/UI thread.
    NonUIThread,
    /// The engine returned no runtime handle.
    FailedToCreateRuntime,
    /// Only one runtime can be alive in a process; a second creation attempt
    /// is refused with this error.
    RuntimeAlreadyExists,
    /// Webview creation and similar operations are refused until the engine
    /// reports that its context is initialized.
    RuntimeNotInitialization,
    /// The engine returned no webview handle.
    FailedToCreateWebView,
}

/// A rectangular area, in pixels.
#[derive(Debug, Clone, Copy, PartialEq, Eq, Structural)]
pub struct Rect {
    pub x: u32,
    pub y: u32,
    pub width: u32,
    pub height: u32,
}

impl Default for Rect {
    fn default() -> (r: Self)
        ensures
            r == (Rect { x: 0, y: 0, width: 0, height: 0 }),
    {
        Rect { x: 0, y: 0, width: 0, height: 0 }
    }
}

/// The three models under which the engine's message loop can be driven.
/// They are mutually exclusive and fixed for the runtime's lifetime.
#[derive(Debug, Clone, Copy, PartialEq, Eq, Structural)]
pub enum LoopStrategy {
    /// The loop runs on the caller's (main) thread and blocks it.
    MainThread,
    /// A dedicated background thread drives the loop.
    MultiThread,
    /// The host pumps the loop itself with explicit poll calls.
    Pump,
}

/// Whether a webview renders into a native window or delivers pixel buffers
/// to the host (off-screen rendering).
#[derive(Debug, Clone, Copy, PartialEq, Eq, Structural)]
pub enum RenderMode {
    NativeWindow,
    Windowless,
}

/// What a message-loop entry point must do for a given call, decided from the
/// calling thread and the process state. `Misuse` is a fatal error: the
/// engine's thread-affinity assumptions would be violated, so the shell must
/// abort rather than continue.
#[derive(Debug, Clone, Copy, PartialEq, Eq, Structural)]
pub enum LoopAction {
    /// Fatal misuse: the call came from a thread that may not drive the loop.
    Misuse,
    /// Nothing to do (no runtime is alive).
    Skip,
    /// Forward the call to the engine.
    Run,
}

/// Message loop abstraction: each strategy type names the loop model it
/// stands for and can start a runtime configuration builder.
pub trait MessageLoopAbstract: Sized {
    /// The loop model this strategy drives.
    spec fn spec_strategy() -> LoopStrategy;

    /// The loop model this strategy drives.
    fn strategy(&self) -> (r: LoopStrategy)
        ensures
            r == Self::spec_strategy(),
    ;

    /// Create a runtime attributes builder bound to this loop strategy and
    /// the given rendering mode.
    fn create_runtime_attributes_builder<W: WebViewAbstract>(&self, webview: &W) -> (r:
        runtime::RuntimeAttributesBuilder)
        ensures
            r.0 == runtime::RuntimeAttributes::spec_empty(
                Self::spec_strategy(),
                W::spec_render_mode(),
            ),
    {
        runtime::RuntimeAttributesBuilder::new(self.strategy(), webview.render_mode())
    }
}

/// WebView abstraction: each webview type names its rendering mode.
pub trait WebViewAbstract: Sized {
    /// The rendering mode this webview type uses.
    spec fn spec_render_mode() -> RenderMode;

    /// The rendering mode this webview type uses.
    fn render_mode(&self) -> (r: RenderMode)
        ensures
            r == Self::spec_render_mode(),
    ;
}

/// Multi-threaded message loop: the runtime spawns a dedicated thread that
/// drives the loop for the runtime's lifetime. Unsupported on platforms whose
/// UI frameworks require the loop on the real main thread; the shell refuses
/// construction there.
#[derive(Debug, Clone, Copy, PartialEq, Eq, Structural)]
pub struct MultiThreadMessageLoop;

impl MessageLoopAbstract for MultiThreadMessageLoop {
    open spec fn spec_strategy() -> LoopStrategy {
        LoopStrategy::MultiThread
    }

    fn strategy(&self) -> (r: LoopStrategy)
        ensures
            r == Self::spec_strategy(),
    {
        LoopStrategy::MultiThread
    }
}

/// Main thread message loop: the host runs the loop on the process's main
/// thread and it blocks until quit is requested.
#[derive(Debug, Clone, Copy, PartialEq, Eq, Structural)]
pub struct MainThreadMessageLoop;

impl MessageLoopAbstract for MainThreadMessageLoop {
    open spec fn spec_strategy() -> LoopStrategy {
        LoopStrategy::MainThread
    }

    fn strategy(&self) -> (r: LoopStrategy)
        ensures
            r == Self::spec_strategy(),
    {
        LoopStrategy::MainThread
    }
}

impl Default for MainThreadMessageLoop {
    fn default() -> (r: Self)
        ensures
            r == MainThreadMessageLoop,
    {
        MainThreadMessageLoop
    }
}

impl MainThreadMessageLoop {
    /// Decide what a blocking `run` call may do. Running the loop from any
    /// thread but the designated main thread is fatal misuse: the engine
    /// binds its UI work to that thread.
    pub fn block_run(&self, on_main_thread: bool) -> (r: LoopAction)
        ensures
            r == (if on_main_thread {
                LoopAction::Run
            } else {
                LoopAction::Misuse
            }),
    {
        if on_main_thread {
            LoopAction::Run
        } else {
            LoopAction::Misuse
        }
    }

    /// Decide what a `quit` call may do: quitting is safe from any thread,
    /// even when no loop is running.
    pub fn quit(&self) -> (r: LoopAction)
        ensures
            r == LoopAction::Run,
    {
        LoopAction::Run
    }
}

/// Message loop pump: the host drives the engine's pending work itself with
/// non-blocking poll calls.
#[derive(Debug, Clone, Copy, PartialEq, Eq, Structural)]
pub struct MessagePumpLoop;

impl MessageLoopAbstract for MessagePumpLoop {
    open spec fn spec_strategy() -> LoopStrategy {
        LoopStrategy::Pump
    }

    fn strategy(&self) -> (r: LoopStrategy)
        ensures
            r == Self::spec_strategy(),
    {
        LoopStrategy::Pump
    }
}

impl Default for MessagePumpLoop {
    fn default() -> (r: Self)
        ensures
            r == MessagePumpLoop,
    {
        MessagePumpLoop
    }
}

impl Default for MultiThreadMessageLoop {
    fn default() -> (r: Self)
        ensures
            r == MultiThreadMessageLoop,
    {
        MultiThreadMessageLoop
    }
}

impl MessagePumpLoop {
    /// Decide what a `poll` call may do: from a thread other than the main
    /// thread it is fatal misuse; while no runtime is alive it is a no-op;
    /// otherwise one non-blocking iteration of engine work runs.
    pub fn poll(&self, guard: &ProcessGuard, on_main_thread: bool) -> (r: LoopAction)
        ensures
            !on_main_thread ==> r == LoopAction::Misuse,
            on_main_thread && !guard.runtime_alive ==> r == LoopAction::Skip,
            on_main_thread && guard.runtime_alive ==> r == LoopAction::Run,
    {
        if !on_main_thread {
            LoopAction::Misuse
        } else if guard.runtime_alive {
            LoopAction::Run
        } else {
            LoopAction::Skip
        }
    }
}

/// Off-screen rendering mode: the webview creates no window; rendered frames
/// are delivered through the windowless handler's frame callback, and input
/// events must be injected by the host.
#[derive(Debug, Clone, Copy, PartialEq, Eq, Structural)]
pub struct WindowlessRenderWebView;

impl WebViewAbstract for WindowlessRenderWebView {
    open spec fn spec_render_mode() -> RenderMode {
        RenderMode::Windowless
    }

    fn render_mode(&self) -> (r: RenderMode)
        ensures
            r == Self::spec_render_mode(),
    {
        RenderMode::Windowless
    }
}

impl Default for WindowlessRenderWebView {
    fn default() -> (r: Self)
        ensures
            r == WindowlessRenderWebView,
    {
        WindowlessRenderWebView
    }
}

/// Native window mode: the webview creates and manages an on-screen window.
#[derive(Debug, Clone, Copy, PartialEq, Eq, Structural)]
pub struct NativeWindowWebView;

impl WebViewAbstract for NativeWindowWebView {
    open spec fn spec_render_mode() -> RenderMode {
        RenderMode::NativeWindow
    }

    fn render_mode(&self) -> (r: RenderMode)
        ensures
            r == Self::spec_render_mode(),
    {
        RenderMode::NativeWindow
    }
}

impl Default for NativeWindowWebView {
    fn default() -> (r: Self)
        ensures
            r == NativeWindowWebView,
    {
        NativeWindowWebView
    }
}

/// A command line argument marks the process as one of the engine's helper
/// subprocesses when it carries this flag.
pub open spec fn subprocess_flag() -> Seq<char> {
    "--type="@
}

/// Check whether the given command line arguments identify the process as one
/// of the engine's helper subprocesses. The host must test this before any
/// other initialization and, if it holds, hand control to the engine's
/// subprocess entry point at once.
pub fn is_subprocess(args: &Vec<String>) -> (r: bool)
    ensures
        r == exists|i: int| 0 <= i < args@.len() && contains_seq(#[trigger] args@[i]@, subprocess_flag()),
{
    let n: usize = args.len();
    let mut i: usize = 0;
    while i < n
        invariant
            n == args@.len(),
            0 <= i <= n,
            forall|j: int| 0 <= j < i ==> !contains_seq(#[trigger] args@[j]@, subprocess_flag()),
        decreases n - i,
    {
        if contains_substr(args[i].as_str(), "--type=") {
            return true;
        }
        i = i + 1;
    }
    false
}

} // verus!
