//! A single web page instance: its configuration, its lifecycle states, and
//! the handling of the engine's asynchronous callbacks.
//!
//! A webview is created under an initialized runtime and holds one strong
//! reference to it, so the runtime cannot be torn down while the page is
//! open. The engine reports lifecycle states; exactly when the terminal
//! `Close` state arrives, the webview lets go of that reference — before the
//! observer is told, so observer code that shuts the process down already
//! sees an acyclic ownership graph.

use vstd::prelude::*;

use crate::Error;
use crate::Rect;
use crate::events::IMEAction;
use crate::events::KeyEventRecord;
use crate::events::KeyboardEvent;
use crate::events::MouseButton;
use crate::events::MouseEvent;
use crate::request::CustomRequestHandlerFactory;
use crate::runtime::Runtime;
use crate::runtime::RuntimeRef;
use crate::utils::has_nul;
use crate::utils::opt_str_view;

verus! {

/// The pointer style a page asks for.
#[derive(Debug, Copy, Clone, Hash, PartialEq, Eq, Structural)]
pub enum CursorType {
    Pointer,
    Cross,
    Hand,
    IBeam,
    Wait,
    Help,
    EastResize,
    NorthResize,
    NorthEastResize,
    NorthWestResize,
    SouthResize,
    SouthEastResize,
    SouthWestResize,
    WestResize,
    NorthSouthResize,
    EastWestResize,
    NorthEastSouthWestResize,
    NorthWestSouthEastResize,
    ColumnResize,
    RowResize,
    MiddlePanning,
    EastPanning,
    NorthPanning,
    NorthEastPanning,
    NorthWestPanning,
    SouthPanning,
    SouthEastPanning,
    SouthWestPanning,
    WestPanning,
    Move,
    VerticalText,
    Cell,
    ContextMenu,
    Alias,
    Progress,
    NoDrop,
    /// A copy will be made here (named to avoid the `Copy` trait's name).
    Copying,
    /// No cursor is shown (named to avoid `Option`'s `None`).
    NoneCursor,
    NotAllowed,
    ZoomIn,
    ZoomOut,
    Grab,
    Grabbing,
    MiddlePanningVertical,
    MiddlePanningHorizontal,
    Custom,
    DndNone,
    DndMove,
    DndCopy,
    DndLink,
    NumValues,
}

/// The discriminant the engine's ABI uses for each cursor type.
pub open spec fn cursor_spec_code(c: CursorType) -> u32 {
    match c {
        CursorType::Pointer => 0,
        CursorType::Cross => 1,
        CursorType::Hand => 2,
        CursorType::IBeam => 3,
        CursorType::Wait => 4,
        CursorType::Help => 5,
        CursorType::EastResize => 6,
        CursorType::NorthResize => 7,
        CursorType::NorthEastResize => 8,
        CursorType::NorthWestResize => 9,
        CursorType::SouthResize => 10,
        CursorType::SouthEastResize => 11,
        CursorType::SouthWestResize => 12,
        CursorType::WestResize => 13,
        CursorType::NorthSouthResize => 14,
        CursorType::EastWestResize => 15,
        CursorType::NorthEastSouthWestResize => 16,
        CursorType::NorthWestSouthEastResize => 17,
        CursorType::ColumnResize => 18,
        CursorType::RowResize => 19,
        CursorType::MiddlePanning => 20,
        CursorType::EastPanning => 21,
        CursorType::NorthPanning => 22,
        CursorType::NorthEastPanning => 23,
        CursorType::NorthWestPanning => 24,
        CursorType::SouthPanning => 25,
        CursorType::SouthEastPanning => 26,
        CursorType::SouthWestPanning => 27,
        CursorType::WestPanning => 28,
        CursorType::Move => 29,
        CursorType::VerticalText => 30,
        CursorType::Cell => 31,
        CursorType::ContextMenu => 32,
        CursorType::Alias => 33,
        CursorType::Progress => 34,
        CursorType::NoDrop => 35,
        CursorType::Copying => 36,
        CursorType::NoneCursor => 37,
        CursorType::NotAllowed => 38,
        CursorType::ZoomIn => 39,
        CursorType::ZoomOut => 40,
        CursorType::Grab => 41,
        CursorType::Grabbing => 42,
        CursorType::MiddlePanningVertical => 43,
        CursorType::MiddlePanningHorizontal => 44,
        CursorType::Custom => 45,
        CursorType::DndNone => 46,
        CursorType::DndMove => 47,
        CursorType::DndCopy => 48,
        CursorType::DndLink => 49,
        CursorType::NumValues => 50,
    }
}

/// The typed cursor a native discriminant stands for; `None` when it is not
/// recognized.
pub open spec fn cursor_from_spec(code: u32) -> Option<CursorType> {
    if code == 0 {
        Some(CursorType::Pointer)
    } else if code == 1 {
        Some(CursorType::Cross)
    } else if code == 2 {
        Some(CursorType::Hand)
    } else if code == 3 {
        Some(CursorType::IBeam)
    } else if code == 4 {
        Some(CursorType::Wait)
    } else if code == 5 {
        Some(CursorType::Help)
    } else if code == 6 {
        Some(CursorType::EastResize)
    } else if code == 7 {
        Some(CursorType::NorthResize)
    } else if code == 8 {
        Some(CursorType::NorthEastResize)
    } else if code == 9 {
        Some(CursorType::NorthWestResize)
    } else if code == 10 {
        Some(CursorType::SouthResize)
    } else if code == 11 {
        Some(CursorType::SouthEastResize)
    } else if code == 12 {
        Some(CursorType::SouthWestResize)
    } else if code == 13 {
        Some(CursorType::WestResize)
    } else if code == 14 {
        Some(CursorType::NorthSouthResize)
    } else if code == 15 {
        Some(CursorType::EastWestResize)
    } else if code == 16 {
        Some(CursorType::NorthEastSouthWestResize)
    } else if code == 17 {
        Some(CursorType::NorthWestSouthEastResize)
    } else if code == 18 {
        Some(CursorType::ColumnResize)
    } else if code == 19 {
        Some(CursorType::RowResize)
    } else if code == 20 {
        Some(CursorType::MiddlePanning)
    } else if code == 21 {
        Some(CursorType::EastPanning)
    } else if code == 22 {
        Some(CursorType::NorthPanning)
    } else if code == 23 {
        Some(CursorType::NorthEastPanning)
    } else if code == 24 {
        Some(CursorType::NorthWestPanning)
    } else if code == 25 {
        Some(CursorType::SouthPanning)
    } else if code == 26 {
        Some(CursorType::SouthEastPanning)
    } else if code == 27 {
        Some(CursorType::SouthWestPanning)
    } else if code == 28 {
        Some(CursorType::WestPanning)
    } else if code == 29 {
        Some(CursorType::Move)
    } else if code == 30 {
        Some(CursorType::VerticalText)
    } else if code == 31 {
        Some(CursorType::Cell)
    } else if code == 32 {
        Some(CursorType::ContextMenu)
    } else if code == 33 {
        Some(CursorType::Alias)
    } else if code == 34 {
        Some(CursorType::Progress)
    } else if code == 35 {
        Some(CursorType::NoDrop)
    } else if code == 36 {
        Some(CursorType::Copying)
    } else if code == 37 {
        Some(CursorType::NoneCursor)
    } else if code == 38 {
        Some(CursorType::NotAllowed)
    } else if code == 39 {
        Some(CursorType::ZoomIn)
    } else if code == 40 {
        Some(CursorType::ZoomOut)
    } else if code == 41 {
        Some(CursorType::Grab)
    } else if code == 42 {
        Some(CursorType::Grabbing)
    } else if code == 43 {
        Some(CursorType::MiddlePanningVertical)
    } else if code == 44 {
        Some(CursorType::MiddlePanningHorizontal)
    } else if code == 45 {
        Some(CursorType::Custom)
    } else if code == 46 {
        Some(CursorType::DndNone)
    } else if code == 47 {
        Some(CursorType::DndMove)
    } else if code == 48 {
        Some(CursorType::DndCopy)
    } else if code == 49 {
        Some(CursorType::DndLink)
    } else if code == 50 {
        Some(CursorType::NumValues)
    } else {
        None
    }
}

impl CursorType {
    /// The discriminant the engine's ABI uses for this cursor.
    pub fn native_code(self) -> (r: u32)
        ensures
            r == cursor_spec_code(self),
    {
        match self {
            CursorType::Pointer => 0,
            CursorType::Cross => 1,
            CursorType::Hand => 2,
            CursorType::IBeam => 3,
            CursorType::Wait => 4,
            CursorType::Help => 5,
            CursorType::EastResize => 6,
            CursorType::NorthResize => 7,
            CursorType::NorthEastResize => 8,
            CursorType::NorthWestResize => 9,
            CursorType::SouthResize => 10,
            CursorType::SouthEastResize => 11,
            CursorType::SouthWestResize => 12,
            CursorType::WestResize => 13,
            CursorType::NorthSouthResize => 14,
            CursorType::EastWestResize => 15,
            CursorType::NorthEastSouthWestResize => 16,
            CursorType::NorthWestSouthEastResize => 17,
            CursorType::ColumnResize => 18,
            CursorType::RowResize => 19,
            CursorType::MiddlePanning => 20,
            CursorType::EastPanning => 21,
            CursorType::NorthPanning => 22,
            CursorType::NorthEastPanning => 23,
            CursorType::NorthWestPanning => 24,
            CursorType::SouthPanning => 25,
            CursorType::SouthEastPanning => 26,
            CursorType::SouthWestPanning => 27,
            CursorType::WestPanning => 28,
            CursorType::Move => 29,
            CursorType::VerticalText => 30,
            CursorType::Cell => 31,
            CursorType::ContextMenu => 32,
            CursorType::Alias => 33,
            CursorType::Progress => 34,
            CursorType::NoDrop => 35,
            CursorType::Copying => 36,
            CursorType::NoneCursor => 37,
            CursorType::NotAllowed => 38,
            CursorType::ZoomIn => 39,
            CursorType::ZoomOut => 40,
            CursorType::Grab => 41,
            CursorType::Grabbing => 42,
            CursorType::MiddlePanningVertical => 43,
            CursorType::MiddlePanningHorizontal => 44,
            CursorType::Custom => 45,
            CursorType::DndNone => 46,
            CursorType::DndMove => 47,
            CursorType::DndCopy => 48,
            CursorType::DndLink => 49,
            CursorType::NumValues => 50,
        }
    }

    /// The typed cursor for a native discriminant, `None` when it is not
    /// recognized.
    pub fn from_native(code: u32) -> (r: Option<CursorType>)
        ensures
            r == cursor_from_spec(code),
    {
        if code == 0 {
            Some(CursorType::Pointer)
        } else if code == 1 {
            Some(CursorType::Cross)
        } else if code == 2 {
            Some(CursorType::Hand)
        } else if code == 3 {
            Some(CursorType::IBeam)
        } else if code == 4 {
            Some(CursorType::Wait)
        } else if code == 5 {
            Some(CursorType::Help)
        } else if code == 6 {
            Some(CursorType::EastResize)
        } else if code == 7 {
            Some(CursorType::NorthResize)
        } else if code == 8 {
            Some(CursorType::NorthEastResize)
        } else if code == 9 {
            Some(CursorType::NorthWestResize)
        } else if code == 10 {
            Some(CursorType::SouthResize)
        } else if code == 11 {
            Some(CursorType::SouthEastResize)
        } else if code == 12 {
            Some(CursorType::SouthWestResize)
        } else if code == 13 {
            Some(CursorType::WestResize)
        } else if code == 14 {
            Some(CursorType::NorthSouthResize)
        } else if code == 15 {
            Some(CursorType::EastWestResize)
        } else if code == 16 {
            Some(CursorType::NorthEastSouthWestResize)
        } else if code == 17 {
            Some(CursorType::NorthWestSouthEastResize)
        } else if code == 18 {
            Some(CursorType::ColumnResize)
        } else if code == 19 {
            Some(CursorType::RowResize)
        } else if code == 20 {
            Some(CursorType::MiddlePanning)
        } else if code == 21 {
            Some(CursorType::EastPanning)
        } else if code == 22 {
            Some(CursorType::NorthPanning)
        } else if code == 23 {
            Some(CursorType::NorthEastPanning)
        } else if code == 24 {
            Some(CursorType::NorthWestPanning)
        } else if code == 25 {
            Some(CursorType::SouthPanning)
        } else if code == 26 {
            Some(CursorType::SouthEastPanning)
        } else if code == 27 {
            Some(CursorType::SouthWestPanning)
        } else if code == 28 {
            Some(CursorType::WestPanning)
        } else if code == 29 {
            Some(CursorType::Move)
        } else if code == 30 {
            Some(CursorType::VerticalText)
        } else if code == 31 {
            Some(CursorType::Cell)
        } else if code == 32 {
            Some(CursorType::ContextMenu)
        } else if code == 33 {
            Some(CursorType::Alias)
        } else if code == 34 {
            Some(CursorType::Progress)
        } else if code == 35 {
            Some(CursorType::NoDrop)
        } else if code == 36 {
            Some(CursorType::Copying)
        } else if code == 37 {
            Some(CursorType::NoneCursor)
        } else if code == 38 {
            Some(CursorType::NotAllowed)
        } else if code == 39 {
            Some(CursorType::ZoomIn)
        } else if code == 40 {
            Some(CursorType::ZoomOut)
        } else if code == 41 {
            Some(CursorType::Grab)
        } else if code == 42 {
            Some(CursorType::Grabbing)
        } else if code == 43 {
            Some(CursorType::MiddlePanningVertical)
        } else if code == 44 {
            Some(CursorType::MiddlePanningHorizontal)
        } else if code == 45 {
            Some(CursorType::Custom)
        } else if code == 46 {
            Some(CursorType::DndNone)
        } else if code == 47 {
            Some(CursorType::DndMove)
        } else if code == 48 {
            Some(CursorType::DndCopy)
        } else if code == 49 {
            Some(CursorType::DndLink)
        } else if code == 50 {
            Some(CursorType::NumValues)
        } else {
            None
        }
    }
}

/// Every recognized cursor discriminant maps to exactly one typed cursor and
/// back without loss.
pub proof fn lemma_cursor_round_trip(c: CursorType, code: u32)
    ensures
        cursor_from_spec(cursor_spec_code(c)) == Some(c),
        cursor_from_spec(code) matches Some(x) ==> cursor_spec_code(x) == code,
{
}

/// Whether a delivered frame is the page itself or a popup overlay.
#[derive(Debug, Copy, Clone, Hash, PartialEq, Eq, Structural)]
pub enum FrameType {
    View,
    Popup,
}

/// A rendered frame of a web page: a tightly packed pixel buffer, four bytes
/// per pixel, no padding and no stride rounding, valid only while the
/// delivering callback runs. Observers must not retain the buffer.
#[derive(Clone, Copy)]
pub struct Frame<'a> {
    pub ty: FrameType,
    /// The pixel buffer.
    pub buffer: &'a [u8],
    /// The x coordinate of the frame.
    pub x: u32,
    /// The y coordinate of the frame.
    pub y: u32,
    /// The width of the frame, in pixels.
    pub width: u32,
    /// The height of the frame, in pixels.
    pub height: u32,
}

/// Bytes per pixel of a delivered frame.
pub open spec fn frame_bytes_per_pixel() -> nat {
    4
}

/// The byte length of a frame's buffer: width times height times four.
pub open spec fn frame_buffer_len(width: u32, height: u32) -> nat {
    (width as nat) * (height as nat) * frame_bytes_per_pixel()
}

/// Compute the byte length of a frame's pixel buffer.
pub fn required_frame_len(width: u32, height: u32) -> (r: usize)
    requires
        frame_buffer_len(width, height) <= usize::MAX,
    ensures
        r == frame_buffer_len(width, height),
{
    (width as usize) * (height as usize) * 4
}

/// Assemble a typed frame from the raw parts a frame-delivery callback
/// receives. The buffer must be exactly width times height pixels, four
/// bytes each; the view is zero-copy, so the frame lives only as long as the
/// buffer.
pub fn frame_from_parts<'a>(
    is_popup: bool,
    x: u32,
    y: u32,
    width: u32,
    height: u32,
    buffer: &'a [u8],
) -> (f: Frame<'a>)
    requires
        buffer@.len() == frame_buffer_len(width, height),
    ensures
        f.ty == (if is_popup {
            FrameType::Popup
        } else {
            FrameType::View
        }),
        f.x == x,
        f.y == y,
        f.width == width,
        f.height == height,
        f.buffer@ == buffer@,
        f.buffer@.len() == frame_buffer_len(width, height),
{
    Frame {
        ty: if is_popup {
            FrameType::Popup
        } else {
            FrameType::View
        },
        buffer,
        x,
        y,
        width,
        height,
    }
}

/// The lifecycle states of a web page, in the order the engine reports them:
/// `BeforeLoad`, then `Loaded` (after `LoadError` when loading failed), then
/// `RequestClose`, then the terminal `Close`.
#[derive(Debug, Copy, Clone, Hash, PartialEq, Eq, Structural)]
pub enum WebViewState {
    /// The web page is about to load.
    BeforeLoad,
    /// The web page finished loading.
    Loaded,
    /// The web page failed to load.
    LoadError,
    /// The web page asks to be closed.
    RequestClose,
    /// The web page is closed; no state follows this one.
    Close,
}

/// The discriminant the engine's ABI uses for each page state.
pub open spec fn webview_state_spec_code(s: WebViewState) -> u32 {
    match s {
        WebViewState::BeforeLoad => 1,
        WebViewState::Loaded => 2,
        WebViewState::LoadError => 3,
        WebViewState::RequestClose => 4,
        WebViewState::Close => 5,
    }
}

/// The typed state a native discriminant stands for; `None` when it is not
/// recognized.
pub open spec fn webview_state_from_spec(code: u32) -> Option<WebViewState> {
    if code == 1 {
        Some(WebViewState::BeforeLoad)
    } else if code == 2 {
        Some(WebViewState::Loaded)
    } else if code == 3 {
        Some(WebViewState::LoadError)
    } else if code == 4 {
        Some(WebViewState::RequestClose)
    } else if code == 5 {
        Some(WebViewState::Close)
    } else {
        None
    }
}

impl WebViewState {
    /// The discriminant the engine's ABI uses for this state.
    pub fn native_code(self) -> (r: u32)
        ensures
            r == webview_state_spec_code(self),
    {
        match self {
            WebViewState::BeforeLoad => 1,
            WebViewState::Loaded => 2,
            WebViewState::LoadError => 3,
            WebViewState::RequestClose => 4,
            WebViewState::Close => 5,
        }
    }

    /// The typed state for a native discriminant, `None` when it is not
    /// recognized.
    pub fn from_native(code: u32) -> (r: Option<WebViewState>)
        ensures
            r == webview_state_from_spec(code),
    {
        if code == 1 {
            Some(WebViewState::BeforeLoad)
        } else if code == 2 {
            Some(WebViewState::Loaded)
        } else if code == 3 {
            Some(WebViewState::LoadError)
        } else if code == 4 {
            Some(WebViewState::RequestClose)
        } else if code == 5 {
            Some(WebViewState::Close)
        } else {
            None
        }
    }
}

/// Every recognized page-state discriminant maps to exactly one typed state
/// and back without loss.
pub proof fn lemma_webview_state_round_trip(s: WebViewState, code: u32)
    ensures
        webview_state_from_spec(webview_state_spec_code(s)) == Some(s),
        webview_state_from_spec(code) matches Some(x) ==> webview_state_spec_code(x) == code,
{
}

/// WebView handler: observer of page events, implemented by the host.
pub trait WebViewHandler {
    /// Called when the page wants another pointer style, for instance over a
    /// link.
    fn on_cursor_change(&self, ty: CursorType);

    /// Called when the page's lifecycle state changes. When the terminal
    /// `Close` state is delivered, the webview has already released its
    /// reference to the runtime.
    fn on_state_change(&self, state: WebViewState);

    /// Called when the page title changes.
    fn on_title_change(&self, title: &str);

    /// Called when the page toggles fullscreen mode.
    fn on_fullscreen_change(&self, fullscreen: bool);

    /// Called when the page's script sends a message over the in-page
    /// transport.
    fn on_message(&self, message: &str);
}

/// Windowless render webview handler: observers of an off-screen webview
/// additionally receive rendering events.
pub trait WindowlessRenderWebViewHandler: WebViewHandler {
    /// Called when the input-method composition rectangle changes.
    fn on_ime_rect(&self, rect: Rect);

    /// Called with each rendered frame. The buffer is valid only for the
    /// duration of the call and must not be retained.
    fn on_frame(&self, frame: &Frame<'_>);
}

/// WebView configuration attributes. The device scale factor is carried in
/// thousandths (1000 stands for a factor of one); the shell divides by a
/// thousand at the boundary.
pub struct WebViewAttributes {
    /// Request handler factory intercepting this webview's requests.
    pub request_handler_factory: Option<CustomRequestHandlerFactory>,
    /// External native window handle.
    pub window_handle: Option<WindowHandle>,
    /// The maximum windowless rendering rate, in frames per second.
    pub windowless_frame_rate: u32,
    /// Window width, in pixels.
    pub width: u32,
    /// Window height, in pixels.
    pub height: u32,
    /// Device scale factor, in thousandths.
    pub device_scale_factor_milli: u32,
    /// Default font size.
    pub default_font_size: u32,
    /// Default fixed font size.
    pub default_fixed_font_size: u32,
    /// Minimum font size.
    pub minimum_font_size: u32,
    /// Minimum logical font size.
    pub minimum_logical_font_size: u32,
    /// Whether WebGL is enabled.
    pub webgl: bool,
    /// Whether databases are enabled.
    pub databases: bool,
    /// Whether JavaScript can run.
    pub javascript: bool,
    /// Whether JavaScript can access the clipboard.
    pub javascript_access_clipboard: bool,
    /// Whether JavaScript can close windows it did not open.
    pub javascript_close_windows: bool,
    /// Whether DOM pasting is supported in the editor.
    pub javascript_dom_paste: bool,
    /// Whether local storage can be used.
    pub local_storage: bool,
    /// The background color.
    pub background_color: u32,
}

/// A platform window handle, carried as the integer value the windowing
/// system names the window by; the shell converts it to and from the
/// platform's own handle type bit for bit.
#[derive(Debug, Clone, Copy, PartialEq, Eq, Structural)]
pub enum WindowHandle {
    /// An X11 window identifier.
    Xlib(u64),
    /// A Win32 window handle value.
    Win32(u64),
    /// An AppKit view pointer value.
    AppKit(u64),
}

impl Default for WebViewAttributes {
    fn default() -> (r: Self)
        ensures
            r.request_handler_factory is None,
            r.window_handle is None,
            r == (WebViewAttributes {
                request_handler_factory: r.request_handler_factory,
                window_handle: None,
                windowless_frame_rate: 30,
                width: 800,
                height: 600,
                device_scale_factor_milli: 1000,
                default_font_size: 12,
                default_fixed_font_size: 12,
                minimum_font_size: 12,
                minimum_logical_font_size: 12,
                webgl: false,
                databases: false,
                javascript: true,
                javascript_access_clipboard: false,
                javascript_close_windows: false,
                javascript_dom_paste: false,
                local_storage: true,
                background_color: 0xFFFFFFFF,
            }),
    {
        WebViewAttributes {
            request_handler_factory: None,
            window_handle: None,
            windowless_frame_rate: 30,
            width: 800,
            height: 600,
            device_scale_factor_milli: 1000,
            default_font_size: 12,
            default_fixed_font_size: 12,
            minimum_font_size: 12,
            minimum_logical_font_size: 12,
            webgl: false,
            databases: false,
            javascript: true,
            javascript_access_clipboard: false,
            javascript_close_windows: false,
            javascript_dom_paste: false,
            local_storage: true,
            background_color: 0xFFFFFFFF,
        }
    }
}

/// WebView configuration attributes builder.
pub struct WebViewAttributesBuilder(pub WebViewAttributes);

impl Default for WebViewAttributesBuilder {
    fn default() -> (r: Self)
        ensures
            WebViewAttributes::default.ensures((), r.0),
    {
        WebViewAttributesBuilder(WebViewAttributes::default())
    }
}

impl WebViewAttributesBuilder {
    /// Set the request handler factory intercepting this webview's requests.
    pub fn with_request_handler_factory(self, value: CustomRequestHandlerFactory) -> (r: Self)
        ensures
            r.0.request_handler_factory == Some(value),
            r.0 == (WebViewAttributes {
                request_handler_factory: r.0.request_handler_factory,
                ..self.0
            }),
    {
        let mut a = self.0;
        a.request_handler_factory = Some(value);
        WebViewAttributesBuilder(a)
    }

    /// Set the window handle: in windowed mode the webview becomes a child of
    /// it; in windowless mode it identifies the monitor and parents dialogs.
    pub fn with_window_handle(self, value: WindowHandle) -> (r: Self)
        ensures
            r.0 == (WebViewAttributes { window_handle: Some(value), ..self.0 }),
    {
        let mut a = self.0;
        a.window_handle = Some(value);
        WebViewAttributesBuilder(a)
    }

    /// Set the maximum windowless rendering rate, in frames per second.
    pub fn with_windowless_frame_rate(self, value: u32) -> (r: Self)
        ensures
            r.0 == (WebViewAttributes { windowless_frame_rate: value, ..self.0 }),
    {
        let mut a = self.0;
        a.windowless_frame_rate = value;
        WebViewAttributesBuilder(a)
    }

    /// Set the window width.
    pub fn with_width(self, value: u32) -> (r: Self)
        ensures
            r.0 == (WebViewAttributes { width: value, ..self.0 }),
    {
        let mut a = self.0;
        a.width = value;
        WebViewAttributesBuilder(a)
    }

    /// Set the window height.
    pub fn with_height(self, value: u32) -> (r: Self)
        ensures
            r.0 == (WebViewAttributes { height: value, ..self.0 }),
    {
        let mut a = self.0;
        a.height = value;
        WebViewAttributesBuilder(a)
    }

    /// Set the device scale factor, in thousandths (1000 is a factor of one).
    pub fn with_device_scale_factor(self, value_milli: u32) -> (r: Self)
        ensures
            r.0 == (WebViewAttributes { device_scale_factor_milli: value_milli, ..self.0 }),
    {
        let mut a = self.0;
        a.device_scale_factor_milli = value_milli;
        WebViewAttributesBuilder(a)
    }

    /// Set the default font size.
    pub fn with_default_font_size(self, value: u32) -> (r: Self)
        ensures
            r.0 == (WebViewAttributes { default_font_size: value, ..self.0 }),
    {
        let mut a = self.0;
        a.default_font_size = value;
        WebViewAttributesBuilder(a)
    }

    /// Set the default fixed font size.
    pub fn with_default_fixed_font_size(self, value: u32) -> (r: Self)
        ensures
            r.0 == (WebViewAttributes { default_fixed_font_size: value, ..self.0 }),
    {
        let mut a = self.0;
        a.default_fixed_font_size = value;
        WebViewAttributesBuilder(a)
    }

    /// Set the minimum font size.
    pub fn with_minimum_font_size(self, value: u32) -> (r: Self)
        ensures
            r.0 == (WebViewAttributes { minimum_font_size: value, ..self.0 }),
    {
        let mut a = self.0;
        a.minimum_font_size = value;
        WebViewAttributesBuilder(a)
    }

    /// Set the minimum logical font size.
    pub fn with_minimum_logical_font_size(self, value: u32) -> (r: Self)
        ensures
            r.0 == (WebViewAttributes { minimum_logical_font_size: value, ..self.0 }),
    {
        let mut a = self.0;
        a.minimum_logical_font_size = value;
        WebViewAttributesBuilder(a)
    }

    /// Set whether local storage can be used.
    pub fn with_local_storage(self, value: bool) -> (r: Self)
        ensures
            r.0 == (WebViewAttributes { local_storage: value, ..self.0 }),
    {
        let mut a = self.0;
        a.local_storage = value;
        WebViewAttributesBuilder(a)
    }

    /// Set whether WebGL is enabled.
    pub fn with_webgl(self, value: bool) -> (r: Self)
        ensures
            r.0 == (WebViewAttributes { webgl: value, ..self.0 }),
    {
        let mut a = self.0;
        a.webgl = value;
        WebViewAttributesBuilder(a)
    }

    /// Set whether databases are enabled.
    pub fn with_databases(self, value: bool) -> (r: Self)
        ensures
            r.0 == (WebViewAttributes { databases: value, ..self.0 }),
    {
        let mut a = self.0;
        a.databases = value;
        WebViewAttributesBuilder(a)
    }

    /// Set whether JavaScript can run.
    pub fn with_javascript(self, value: bool) -> (r: Self)
        ensures
            r.0 == (WebViewAttributes { javascript: value, ..self.0 }),
    {
        let mut a = self.0;
        a.javascript = value;
        WebViewAttributesBuilder(a)
    }

    /// Set whether JavaScript can access the clipboard.
    pub fn with_javascript_access_clipboard(self, value: bool) -> (r: Self)
        ensures
            r.0 == (WebViewAttributes { javascript_access_clipboard: value, ..self.0 }),
    {
        let mut a = self.0;
        a.javascript_access_clipboard = value;
        WebViewAttributesBuilder(a)
    }

    /// Set whether JavaScript can close windows it did not open.
    pub fn with_javascript_close_windows(self, value: bool) -> (r: Self)
        ensures
            r.0 == (WebViewAttributes { javascript_close_windows: value, ..self.0 }),
    {
        let mut a = self.0;
        a.javascript_close_windows = value;
        WebViewAttributesBuilder(a)
    }

    /// Set whether DOM pasting is supported in the editor.
    pub fn with_javascript_dom_paste(self, value: bool) -> (r: Self)
        ensures
            r.0 == (WebViewAttributes { javascript_dom_paste: value, ..self.0 }),
    {
        let mut a = self.0;
        a.javascript_dom_paste = value;
        WebViewAttributesBuilder(a)
    }

    /// Set the background color.
    pub fn with_background_color(self, value: u32) -> (r: Self)
        ensures
            r.0 == (WebViewAttributes { background_color: value, ..self.0 }),
    {
        let mut a = self.0;
        a.background_color = value;
        WebViewAttributesBuilder(a)
    }

    /// Finalize the attributes.
    pub fn build(self) -> (r: WebViewAttributes)
        ensures
            r == self.0,
    {
        self.0
    }
}

/// The flat webview-settings record the engine's creation entry point takes.
/// The window handle travels as its integer value (zero when absent, as the
/// engine reads an unset handle), and the scale factor still in thousandths:
/// the shell divides at the boundary.
#[derive(Debug, Clone, Copy, PartialEq, Eq, Structural)]
pub struct WebViewSettingsRecord {
    pub width: u32,
    pub height: u32,
    pub webgl: bool,
    pub databases: bool,
    pub local_storage: bool,
    pub background_color: u32,
    pub javascript: bool,
    pub javascript_access_clipboard: bool,
    pub javascript_close_windows: bool,
    pub javascript_dom_paste: bool,
    pub minimum_font_size: i32,
    pub minimum_logical_font_size: i32,
    pub device_scale_factor_milli: u32,
    pub windowless_frame_rate: u32,
    pub default_fixed_font_size: i32,
    pub default_font_size: i32,
    /// The window's integer value; zero when no handle was given.
    pub window_handle: u64,
    /// Whether a request-handler factory pointer is registered.
    pub has_request_handler_factory: bool,
}

/// Decode the engine's window-handle query result: zero means the webview
/// has no window (not yet created, or windowless mode); any other value is
/// the window the engine names — an X11 id on the platform this binding's
/// shell drives, converted further by shells for other windowing systems.
pub fn window_handle_from_native(value: u64) -> (r: Option<WindowHandle>)
    ensures
        value == 0 ==> r is None,
        value != 0 ==> r == Some(WindowHandle::Xlib(value)),
{
    if value == 0 {
        None
    } else {
        Some(WindowHandle::Xlib(value))
    }
}

/// The integer value of an optional window handle; zero stands for "none".
pub open spec fn window_handle_value(h: Option<WindowHandle>) -> u64 {
    match h {
        Some(WindowHandle::Xlib(v)) => v,
        Some(WindowHandle::Win32(v)) => v,
        Some(WindowHandle::AppKit(v)) => v,
        None => 0,
    }
}

/// The settings record carries exactly the attributes: sizes and toggles
/// copied, font sizes widened to the signed fields the ABI has, the handle
/// flattened to its integer value.
pub open spec fn webview_settings_match(a: WebViewAttributes, s: WebViewSettingsRecord) -> bool {
    &&& s.width == a.width
    &&& s.height == a.height
    &&& s.webgl == a.webgl
    &&& s.databases == a.databases
    &&& s.local_storage == a.local_storage
    &&& s.background_color == a.background_color
    &&& s.javascript == a.javascript
    &&& s.javascript_access_clipboard == a.javascript_access_clipboard
    &&& s.javascript_close_windows == a.javascript_close_windows
    &&& s.javascript_dom_paste == a.javascript_dom_paste
    &&& s.minimum_font_size == a.minimum_font_size as int
    &&& s.minimum_logical_font_size == a.minimum_logical_font_size as int
    &&& s.device_scale_factor_milli == a.device_scale_factor_milli
    &&& s.windowless_frame_rate == a.windowless_frame_rate
    &&& s.default_fixed_font_size == a.default_fixed_font_size as int
    &&& s.default_font_size == a.default_font_size as int
    &&& s.window_handle == window_handle_value(a.window_handle)
    &&& s.has_request_handler_factory == (a.request_handler_factory is Some)
}

/// The font sizes an attribute set carries all fit the signed fields of the
/// engine's ABI record.
pub open spec fn font_sizes_fit(a: WebViewAttributes) -> bool {
    &&& a.minimum_font_size <= i32::MAX
    &&& a.minimum_logical_font_size <= i32::MAX
    &&& a.default_font_size <= i32::MAX
    &&& a.default_fixed_font_size <= i32::MAX
}

impl WebViewAttributes {
    /// Translate the attributes into the engine's settings record. The
    /// factory is reported as present or absent; its pointer is wired by the
    /// shell, which keeps the factory itself alive through the webview.
    pub fn to_native_settings(&self) -> (s: WebViewSettingsRecord)
        requires
            font_sizes_fit(*self),
        ensures
            webview_settings_match(*self, s),
    {
        WebViewSettingsRecord {
            width: self.width,
            height: self.height,
            webgl: self.webgl,
            databases: self.databases,
            local_storage: self.local_storage,
            background_color: self.background_color,
            javascript: self.javascript,
            javascript_access_clipboard: self.javascript_access_clipboard,
            javascript_close_windows: self.javascript_close_windows,
            javascript_dom_paste: self.javascript_dom_paste,
            minimum_font_size: self.minimum_font_size as i32,
            minimum_logical_font_size: self.minimum_logical_font_size as i32,
            device_scale_factor_milli: self.device_scale_factor_milli,
            windowless_frame_rate: self.windowless_frame_rate,
            default_fixed_font_size: self.default_fixed_font_size as i32,
            default_font_size: self.default_font_size as i32,
            window_handle: match self.window_handle {
                Some(WindowHandle::Xlib(v)) => v,
                Some(WindowHandle::Win32(v)) => v,
                Some(WindowHandle::AppKit(v)) => v,
                None => 0,
            },
            has_request_handler_factory: match &self.request_handler_factory {
                Some(_) => true,
                None => false,
            },
        }
    }
}

/// The scratch mouse state a webview keeps between injected events: the last
/// pointer position and the held-button modifier bits, reused so that move,
/// click and wheel events share positional context as the engine expects.
#[derive(Debug, Clone, Copy, PartialEq, Eq, Structural)]
pub struct MouseState {
    pub x: i32,
    pub y: i32,
    pub modifiers: u32,
}

impl MouseState {
    /// The state before any event: origin position, no held buttons.
    pub fn zeroed() -> (r: Self)
        ensures
            r == (MouseState { x: 0, y: 0, modifiers: 0 }),
    {
        MouseState { x: 0, y: 0, modifiers: 0 }
    }
}

/// The scratch state after an injected mouse event: a move updates the
/// position; a wheel leaves it unchanged; a click updates the position when
/// one is given, then either adds the button's held bit (press) or clears all
/// held bits (release).
pub open spec fn mouse_state_after(s: MouseState, a: MouseEvent) -> MouseState {
    match a {
        MouseEvent::Move(p) => MouseState { x: p.x, y: p.y, ..s },
        MouseEvent::Wheel(_) => s,
        MouseEvent::Click(b, pressed, po) => {
            let moved = match po {
                Some(p) => MouseState { x: p.x, y: p.y, ..s },
                None => s,
            };
            MouseState {
                modifiers: if pressed {
                    moved.modifiers | crate::events::mouse_button_spec_flag(b)
                } else {
                    0
                },
                ..moved
            }
        },
    }
}

/// A call the shell must forward to one of the engine's webview entry
/// points, with every argument already translated.
#[derive(Debug, Clone, PartialEq, Eq)]
pub enum WebViewCommand {
    /// Enqueue a UTF-8 message to the page's in-page transport object.
    SendMessage { text: String },
    /// Toggle the auxiliary developer-tools browser.
    SetDevtools { open: bool },
    /// Tell the engine the windowless view was resized.
    Resize { width: i32, height: i32 },
    /// Set the windowless view's focus state.
    SetFocus { focus: bool },
    /// Inject a pointer move carrying the updated scratch state.
    MouseMove { event: MouseState },
    /// Inject a wheel turn at the last seen position.
    MouseWheel { event: MouseState, delta_x: i32, delta_y: i32 },
    /// Inject a button press or release.
    MouseClick { event: MouseState, button: MouseButton, pressed: bool },
    /// Inject a key event.
    Keyboard { event: KeyEventRecord },
    /// Complete the input-method composition with this text.
    ImeCommit { text: String },
    /// Begin or update the input-method composition at a caret position.
    ImeSetComposition { text: String, x: i32, y: i32 },
}

/// The command an injected mouse event turns into, given the scratch state
/// after the event.
pub open spec fn mouse_command_of(after: MouseState, a: MouseEvent) -> WebViewCommand {
    match a {
        MouseEvent::Move(_) => WebViewCommand::MouseMove { event: after },
        MouseEvent::Wheel(p) => WebViewCommand::MouseWheel {
            event: after,
            delta_x: p.x,
            delta_y: p.y,
        },
        MouseEvent::Click(b, pressed, _) => WebViewCommand::MouseClick {
            event: after,
            button: b,
            pressed,
        },
    }
}

/// An open web page. It keeps the scratch mouse state and, until the engine
/// reports the terminal close, one strong reference to its runtime.
pub struct WebView {
    /// The reused mouse scratch state.
    pub mouse_state: MouseState,
    /// The held runtime reference; taken and released exactly once, on the
    /// terminal `Close` state.
    pub runtime_ref: Option<RuntimeRef>,
    /// The per-webview request-handler factory kept alive for the engine's
    /// retained pointer.
    pub request_handler_factory: Option<CustomRequestHandlerFactory>,
}

/// Everything the shell needs to perform the native side of webview
/// creation.
pub struct WebViewLaunch {
    /// The page URL, NUL-free.
    pub url: String,
    /// The translated settings record.
    pub settings: WebViewSettingsRecord,
    /// The per-webview request-handler factory, carried through so the
    /// webview keeps it alive.
    pub request_handler_factory: Option<CustomRequestHandlerFactory>,
}

/// What one state delivery does to the held runtime reference: the terminal
/// `Close` takes it out for release, every other state leaves it in place.
/// The result pairs the reference still held with the one released.
pub open spec fn release_on_state(held: Option<RuntimeRef>, state: WebViewState) -> (
    Option<RuntimeRef>,
    Option<RuntimeRef>,
) {
    if state is Close {
        (None, held)
    } else {
        (held, None)
    }
}

/// Reaching `Close` releases the held runtime reference exactly once: the
/// first delivery hands out whatever was held, and any later delivery —
/// another `Close` included — finds nothing left and releases nothing.
pub proof fn lemma_close_releases_exactly_once(held: Option<RuntimeRef>, later: WebViewState)
    ensures
        release_on_state(held, WebViewState::Close).1 == held,
        release_on_state(held, WebViewState::Close).0 is None,
        release_on_state(release_on_state(held, WebViewState::Close).0, later).1 is None,
        release_on_state(release_on_state(held, WebViewState::Close).0, later).0 is None,
{
}

impl WebView {
    /// Finish webview creation from the engine's outcome. A null native
    /// handle means the creation failed: the error is returned and the
    /// prepared callback context never existed as far as the engine is
    /// concerned. On success the webview takes one strong reference to its
    /// runtime and starts with zeroed mouse state.
    pub fn from_launch(launch: WebViewLaunch, native_created: bool, runtime: &Runtime) -> (r:
        Result<WebView, Error>)
        ensures
            !native_created ==> (r matches Err(e) && e == Error::FailedToCreateWebView),
            native_created ==> (r matches Ok(w) && w.runtime_ref is Some && w.mouse_state
                == (MouseState { x: 0, y: 0, modifiers: 0 }) && w.request_handler_factory
                == launch.request_handler_factory),
    {
        if !native_created {
            return Err(Error::FailedToCreateWebView);
        }
        Ok(
            WebView {
                mouse_state: MouseState::zeroed(),
                runtime_ref: Some(runtime.get_shared_ref()),
                request_handler_factory: launch.request_handler_factory,
            },
        )
    }

    /// Handle the engine's state-change callback. Exactly when the delivered
    /// state is the terminal `Close`, the held runtime reference is taken out
    /// and returned for release — before the observer is notified, so
    /// observer code already sees the reference graph acyclic. Any other
    /// state leaves the webview untouched. A second `Close` finds the
    /// reference already gone and releases nothing.
    pub fn handle_state_change<T: WebViewHandler>(&mut self, state: WebViewState, handler: &T) -> (
        released: Option<RuntimeRef>)
        ensures
            final(self).runtime_ref == release_on_state(old(self).runtime_ref, state).0,
            released == release_on_state(old(self).runtime_ref, state).1,
            *final(self) == (WebView { runtime_ref: final(self).runtime_ref, ..*old(self) }),
    {
        let released: Option<RuntimeRef> = if matches!(state, WebViewState::Close) {
            self.runtime_ref.take()
        } else {
            None
        };
        handler.on_state_change(state);
        released
    }

    /// Handle a raw state-change callback: decode the native discriminant,
    /// then forward. A malformed discriminant is dropped defensively — no
    /// observer call, no state change — since there is no caller to report
    /// it to.
    pub fn handle_native_state_change<T: WebViewHandler>(
        &mut self,
        code: u32,
        handler: &T,
    ) -> (r: (Option<WebViewState>, Option<RuntimeRef>))
        ensures
            r.0 == webview_state_from_spec(code),
            webview_state_from_spec(code) matches Some(s) ==> (s is Close ==> (r.1 == old(
                self,
            ).runtime_ref && *final(self) == (WebView { runtime_ref: None, ..*old(self) }))) && (!(s
                is Close) ==> (r.1 is None && *final(self) == *old(self))),
            webview_state_from_spec(code) is None ==> (r.1 is None && *final(self) == *old(self)),
    {
        match WebViewState::from_native(code) {
            Some(state) => {
                let released = self.handle_state_change(state, handler);
                (Some(state), released)
            },
            None => (None, None),
        }
    }

    /// Handle the engine's frame-delivery callback: the raw buffer and
    /// rectangle become a typed frame, handed to the observer for the
    /// duration of the call only.
    pub fn handle_frame<T: WindowlessRenderWebViewHandler>(
        &self,
        is_popup: bool,
        x: u32,
        y: u32,
        width: u32,
        height: u32,
        buffer: &[u8],
        handler: &T,
    )
        requires
            buffer@.len() == frame_buffer_len(width, height),
    {
        let frame = frame_from_parts(is_popup, x, y, width, height, buffer);
        handler.on_frame(&frame);
    }

    /// Handle the engine's IME-rectangle callback.
    pub fn handle_ime_rect<T: WindowlessRenderWebViewHandler>(&self, rect: Rect, handler: &T) {
        handler.on_ime_rect(rect);
    }

    /// Handle the engine's title-change callback.
    pub fn handle_title_change<T: WebViewHandler>(&self, title: &str, handler: &T) {
        handler.on_title_change(title);
    }

    /// Handle the engine's fullscreen-change callback.
    pub fn handle_fullscreen_change<T: WebViewHandler>(&self, fullscreen: bool, handler: &T) {
        handler.on_fullscreen_change(fullscreen);
    }

    /// Handle the engine's message callback.
    pub fn handle_message<T: WebViewHandler>(&self, message: &str, handler: &T) {
        handler.on_message(message);
    }

    /// Handle a raw cursor-change callback: decode the native discriminant,
    /// then forward; a malformed discriminant is dropped defensively.
    pub fn handle_native_cursor_change<T: WebViewHandler>(&self, code: u32, handler: &T) -> (r:
        Option<CursorType>)
        ensures
            r == cursor_from_spec(code),
    {
        match CursorType::from_native(code) {
            Some(ty) => {
                handler.on_cursor_change(ty);
                Some(ty)
            },
            None => None,
        }
    }

    /// Enqueue a UTF-8 message to the page's in-page transport object;
    /// fire-and-forget, no acknowledgement.
    pub fn send_message(&self, message: &str) -> (c: WebViewCommand)
        requires
            !has_nul(message@),
        ensures
            c matches WebViewCommand::SendMessage { text } && text@ == message@,
    {
        WebViewCommand::SendMessage { text: message.to_owned() }
    }

    /// Toggle the auxiliary developer-tools browser.
    pub fn devtools_enabled(&self, enable: bool) -> (c: WebViewCommand)
        ensures
            c == (WebViewCommand::SetDevtools { open: enable }),
    {
        WebViewCommand::SetDevtools { open: enable }
    }

    /// Inject a mouse event (windowless rendering only): the scratch state is
    /// updated as the event dictates and the resulting call carries its new
    /// value.
    pub fn mouse(&mut self, action: &MouseEvent) -> (c: WebViewCommand)
        ensures
            final(self).mouse_state == mouse_state_after(old(self).mouse_state, *action),
            *final(self) == (WebView { mouse_state: final(self).mouse_state, ..*old(self) }),
            c == mouse_command_of(final(self).mouse_state, *action),
    {
        match action {
            MouseEvent::Move(pos) => {
                self.mouse_state.x = pos.x;
                self.mouse_state.y = pos.y;
                WebViewCommand::MouseMove { event: self.mouse_state }
            },
            MouseEvent::Wheel(pos) => WebViewCommand::MouseWheel {
                event: self.mouse_state,
                delta_x: pos.x,
                delta_y: pos.y,
            },
            MouseEvent::Click(button, pressed, pos) => {
                if let Some(p) = pos {
                    self.mouse_state.x = p.x;
                    self.mouse_state.y = p.y;
                }
                if *pressed {
                    self.mouse_state.modifiers = self.mouse_state.modifiers
                        | button.native_flag();
                } else {
                    self.mouse_state.modifiers = 0;
                }
                WebViewCommand::MouseClick {
                    event: self.mouse_state,
                    button: *button,
                    pressed: *pressed,
                }
            },
        }
    }

    /// Inject a keyboard event (windowless rendering only).
    pub fn keyboard(&self, event: &KeyboardEvent) -> (c: WebViewCommand)
        ensures
            c == (WebViewCommand::Keyboard { event: crate::events::key_event_record_of(*event) }),
    {
        WebViewCommand::Keyboard { event: event.to_native() }
    }

    /// Inject an input-method action (windowless rendering only). The text
    /// crosses the engine's C string boundary, so it must hold no NUL.
    pub fn ime(&self, action: &IMEAction<'_>) -> (c: WebViewCommand)
        requires
            match *action {
                IMEAction::Composition(t) => !has_nul(t@),
                IMEAction::Pre(t, _, _) => !has_nul(t@),
            },
        ensures
            match *action {
                IMEAction::Composition(t) => c matches WebViewCommand::ImeCommit { text } && text@
                    == t@,
                IMEAction::Pre(t, x, y) => c matches WebViewCommand::ImeSetComposition {
                    text,
                    x: cx,
                    y: cy,
                } && text@ == t@ && cx == x && cy == y,
            },
    {
        match action {
            IMEAction::Composition(t) => WebViewCommand::ImeCommit { text: (*t).to_owned() },
            IMEAction::Pre(t, x, y) => WebViewCommand::ImeSetComposition {
                text: (*t).to_owned(),
                x: *x,
                y: *y,
            },
        }
    }

    /// Tell the engine the windowless view was resized. The ABI carries the
    /// sizes as signed integers, so they must fit.
    pub fn resize(&self, width: u32, height: u32) -> (c: WebViewCommand)
        requires
            width <= i32::MAX,
            height <= i32::MAX,
        ensures
            c == (WebViewCommand::Resize { width: width as i32, height: height as i32 }),
    {
        WebViewCommand::Resize { width: width as i32, height: height as i32 }
    }

    /// Set the windowless view's focus state.
    pub fn focus(&self, state: bool) -> (c: WebViewCommand)
        ensures
            c == (WebViewCommand::SetFocus { focus: state }),
    {
        WebViewCommand::SetFocus { focus: state }
    }

    /// Close the webview. The shell then closes the native handle and frees
    /// the boxed callback context, exactly once — this consumes the webview,
    /// so neither can happen twice. The still-held runtime reference, if the
    /// terminal close never arrived, is returned for release: the runtime is
    /// not leaked even on irregular teardown.
    pub fn close(self) -> (released: Option<RuntimeRef>)
        ensures
            released == self.runtime_ref,
    {
        self.runtime_ref
    }
}

} // verus!
