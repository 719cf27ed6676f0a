//! Persisted size and open/closed state of the editor window, together with
//! the pure transition functions of the resize-negotiation protocol.
//!
//! Sizes are logical pixels, pre DPI scaling, held as whole pixels. The size is
//! mutated only through the resize negotiation: a resize first takes effect,
//! the host is then asked to approve it, and on refusal the old size is rolled
//! back, so the record never holds a partial update.

use vstd::prelude::*;

verus! {

/// Logical size of the editor window in whole logical pixels, before the DPI
/// scale factor is applied.
#[derive(Debug, Clone, Copy, PartialEq, Eq, Structural)]
pub struct EditorSize {
    /// Width in logical pixels.
    pub width: u32,
    /// Height in logical pixels.
    pub height: u32,
}

/// The editor state that outlives a single window: the current window size
/// (persisted between sessions), whether a resize is deferred to the next
/// frame tick, and whether a panel window is currently attached.
#[derive(Debug, Clone, Copy, PartialEq, Eq, Structural)]
pub struct WebViewState {
    /// The window's size in logical pixels before applying the scale factor.
    pub window_size: EditorSize,
    /// True while a resize, requested from a scale-factor change, waits for
    /// the next frame tick. Not persisted.
    pub resize_pending: bool,
    /// Whether the editor's window is currently open. Not persisted.
    pub open: bool,
}

/// The resize negotiation: if the host approved, the size is exactly the
/// requested pair and the call reports success; if the host refused, the state
/// is rolled back unchanged and the call reports failure.
pub open spec fn spec_resize(s: WebViewState, width: u32, height: u32, approved: bool) -> (
    WebViewState,
    bool,
) {
    if approved {
        (WebViewState { window_size: EditorSize { width, height }, ..s }, true)
    } else {
        (s, false)
    }
}

/// A scale-factor change: refused outright while the window is open; otherwise
/// the resize is deferred to the next frame tick rather than applied here.
pub open spec fn spec_set_scale_factor(s: WebViewState) -> (WebViewState, bool) {
    if s.open {
        (s, false)
    } else {
        (WebViewState { resize_pending: true, ..s }, true)
    }
}

/// The deferred-resize half of a frame tick: a pending resize is performed now
/// (to the already-stored size, so the size itself does not change) and the
/// pending flag is cleared; without a pending resize the tick changes nothing.
/// The returned flag says whether a resize call was made.
pub open spec fn spec_frame_tick(s: WebViewState) -> (WebViewState, bool) {
    (WebViewState { resize_pending: false, ..s }, s.resize_pending)
}

impl WebViewState {
    /// Initialize the editor state. The window size is in logical pixels,
    /// before it is multiplied by the DPI scaling factor.
    pub fn new(width: u32, height: u32) -> (s: WebViewState)
        ensures
            s == (WebViewState {
                window_size: EditorSize { width, height },
                resize_pending: false,
                open: false,
            }),
    {
        WebViewState {
            window_size: EditorSize { width, height },
            resize_pending: false,
            open: false,
        }
    }

    /// Returns a `(width, height)` pair for the current size of the editor in
    /// logical pixels.
    pub fn window_size(&self) -> (r: (u32, u32))
        ensures
            r == (self.window_size.width, self.window_size.height),
    {
        (self.window_size.width, self.window_size.height)
    }

    /// Whether the editor window is currently open.
    pub fn is_open(&self) -> (r: bool)
        ensures
            r == self.open,
    {
        self.open
    }

    /// Take over a state restored from persistence: only the window size is
    /// persisted, so only it is adopted; whether the window is open and
    /// whether a resize is pending are session-local and keep their values.
    pub fn restore_from(&mut self, restored: &WebViewState)
        ensures
            *final(self) == (WebViewState { window_size: restored.window_size, ..*old(self) }),
    {
        self.window_size = restored.window_size;
    }
}

/// A resize is all or nothing: it either leaves the whole state unchanged and
/// reports failure, or sets the size to exactly the requested pair, touching
/// nothing else, and reports success. A partial update is impossible.
pub proof fn lemma_resize_all_or_nothing(s: WebViewState, width: u32, height: u32, approved: bool)
    ensures
        ({
            let (s2, ok) = spec_resize(s, width, height, approved);
            &&& ok ==> s2 == (WebViewState { window_size: EditorSize { width, height }, ..s })
            &&& !ok ==> s2 == s
        }),
{
}

/// A frame tick before any resize request changes nothing and makes no resize
/// call; a resize deferred before the first tick is applied exactly once, on
/// the first subsequent tick, and the tick after that makes no further call.
pub proof fn lemma_deferred_resize_applied_once(s: WebViewState)
    ensures
        !s.resize_pending ==> spec_frame_tick(s) == ((s, false)),
        ({
            let (s1, did) = spec_frame_tick(s);
            s.resize_pending ==> did && !s1.resize_pending && s1.window_size == s.window_size
                && s1.open == s.open && spec_frame_tick(s1) == ((s1, false))
        }),
{
}

} // verus!
