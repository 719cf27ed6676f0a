//! The bridge between host, panel and user logic: the host-side capability
//! trait, the context handed to user callbacks, and the dispatch of inbound
//! wire strings.
//!
//! All of this runs on the host's UI thread, driven by the host's own event
//! loop; nothing here blocks or suspends. The host and the panel are outside
//! collaborators reached only through [`PanelHost`], so the contracts promise
//! nothing about their behaviour — only about what this library does with
//! every answer they may give.

use crate::codec::{classify, message_script, Inbound, InboundKind, Message};
use crate::codec::parse_inbound;
use crate::state::{spec_frame_tick, spec_resize, EditorSize, WebViewState};
use vstd::prelude::*;

verus! {

/// A normalized parameter value or modulation offset as the host hands it
/// over, carried as an uninterpreted bit pattern: the library never reads it,
/// it only passes it between host and user logic.
#[derive(Debug, Clone, Copy, PartialEq, Eq, Structural)]
pub struct ParamValue {
    /// The host's value, bit for bit.
    pub bits: u32,
}

/// The capability the editor calls into: resize approval, panel bounds and
/// script delivery, and parameter automation. Implementations live outside
/// the library — the host application and the panel — so nothing is assumed
/// of any method beyond its signature.
pub trait PanelHost {
    /// Ask the host to approve a resize to the size currently stored in the
    /// editor state. The host may refuse; refusal is a normal outcome, not an
    /// error.
    fn request_resize(&mut self) -> bool;

    /// Move the panel's occupied bounds to the given logical size. Failure
    /// here is a cosmetic degradation to be reported, never escalated.
    fn set_panel_bounds(&mut self, width: u32, height: u32) -> bool;

    /// Evaluate a script inside the panel's script context.
    fn eval_script(&mut self, script: &str) -> bool;

    /// Read a parameter's current value.
    fn get_parameter_value(&mut self, id: &str) -> ParamValue;

    /// Write a parameter's value; call it between [`PanelHost::begin_gesture`]
    /// and [`PanelHost::end_gesture`].
    fn set_parameter_value(&mut self, id: &str, value: ParamValue);

    /// Open an automation gesture for a parameter.
    fn begin_gesture(&mut self, id: &str);

    /// Close an automation gesture for a parameter.
    fn end_gesture(&mut self, id: &str);
}

/// What a user callback sees: the editor state and the host capability.
pub struct Context<H: PanelHost> {
    /// The editor state the resize protocol negotiates over.
    pub state: WebViewState,
    /// The host-side capability.
    pub host: H,
}

impl<H: PanelHost> Context<H> {
    /// Pair the editor state with the host capability for one dispatch.
    pub fn new(state: WebViewState, host: H) -> (cx: Context<H>)
        ensures
            cx.state == state,
            cx.host == host,
    {
        Context { state, host }
    }

    /// Send a message to the panel by evaluating its delivery script — the
    /// text payload backtick-escaped into a template string, a byte payload
    /// base64-encoded — in the panel's script context. Whether the panel
    /// accepted the script changes nothing here.
    pub fn send_message(&mut self, message: &Message)
        ensures
            final(self).state == old(self).state,
    {
        let script = message_script(message);
        let _delivered = self.host.eval_script(script.as_str());
    }

    /// Resize the window to the given size in logical pixels.
    ///
    /// The new size is stored first, so the host reads it while deciding; if
    /// the host refuses — which many hosts do mid-session, and which is a
    /// normal outcome — the old size is rolled back and `false` comes back.
    /// On approval the panel's bounds are moved to match; if the panel
    /// refuses the bounds the mismatch is cosmetic and changes nothing of the
    /// outcome. The state is never left partially updated.
    pub fn resize_window(&mut self, width: u32, height: u32) -> (ok: bool)
        ensures
            final(self).state == spec_resize(old(self).state, width, height, ok).0,
            ok == spec_resize(old(self).state, width, height, ok).1,
    {
        let old_size = self.state.window_size;
        self.state.window_size = EditorSize { width, height };
        if !self.host.request_resize() {
            self.state.window_size = old_size;
            return false;
        }
        let _bounds_ok = self.host.set_panel_bounds(width, height);
        true
    }

    /// Perform the deferred half of a scale-factor change: if a resize was
    /// requested while no tick had yet occurred, perform it now, once, to the
    /// size already stored; otherwise make no resize call at all. Returns
    /// whether a resize call was made.
    pub fn apply_deferred_resize(&mut self) -> (did: bool)
        ensures
            final(self).state == spec_frame_tick(old(self).state).0,
            did == spec_frame_tick(old(self).state).1,
    {
        if self.state.resize_pending {
            self.state.resize_pending = false;
            let (width, height) = self.state.window_size();
            let _approved = self.resize_window(width, height);
            true
        } else {
            false
        }
    }

    /// Open an automation gesture for a parameter, as when the user starts
    /// dragging a control.
    pub fn set_param_begin(&mut self, id: &str)
        ensures
            final(self).state == old(self).state,
    {
        self.host.begin_gesture(id);
    }

    /// Set a parameter's value, between [`Context::set_param_begin`] and
    /// [`Context::set_param_end`].
    pub fn set_param(&mut self, id: &str, value: ParamValue)
        ensures
            final(self).state == old(self).state,
    {
        self.host.set_parameter_value(id, value);
    }

    /// Close an automation gesture for a parameter, as when the user releases
    /// a control.
    pub fn set_param_end(&mut self, id: &str)
        ensures
            final(self).state == old(self).state,
    {
        self.host.end_gesture(id);
    }
}

/// User logic behind the editor: the fixed callback set the lifecycle state
/// machine dispatches into.
pub trait EditorHandler<H: PanelHost> {
    /// Called exactly once per construction of the panel instance — not once
    /// per attach, since an attach can reuse the parked instance — when the
    /// panel is ready to receive messages.
    fn init(&mut self, cx: &mut Context<H>);

    /// Called once per frame tick, after any deferred resize for that tick
    /// was performed.
    fn on_frame(&mut self, cx: &mut Context<H>);

    /// Called once per decoded inbound message.
    fn on_message(&mut self, cx: &mut Context<H>, message: Message);

    /// Called when one or more parameters change out of band, as under
    /// automation playback or a preset load.
    fn on_params_changed(&mut self, cx: &mut Context<H>);

    /// Called when a single parameter's value changes; delegates to
    /// [`EditorHandler::on_params_changed`] unless overridden.
    fn on_param_value_changed(&mut self, cx: &mut Context<H>, _id: &str, _value: ParamValue) {
        self.on_params_changed(cx);
    }

    /// Called when a single parameter's modulation changes; delegates to
    /// [`EditorHandler::on_params_changed`] unless overridden.
    fn on_param_modulation_changed(&mut self, cx: &mut Context<H>, _id: &str, _offset: ParamValue) {
        self.on_params_changed(cx);
    }
}

/// Dispatch one inbound wire string, exactly as [`classify`] reads it: a
/// frame tick first performs any deferred resize and then reaches user logic
/// as `on_frame`; a text or binary payload reaches it as `on_message`; a
/// protocol violation is discarded — state, host and user logic untouched —
/// and is never fatal.
pub fn handle_inbound<E: EditorHandler<H>, H: PanelHost>(
    editor: &mut E,
    cx: &mut Context<H>,
    raw: &str,
) -> (k: InboundKind)
    ensures
        k == classify(raw@),
        k == InboundKind::Malformed ==> *final(cx) == *old(cx) && *final(editor) == *old(editor),
{
    match parse_inbound(raw) {
        Inbound::Frame => {
            let _did = cx.apply_deferred_resize();
            editor.on_frame(cx);
            InboundKind::Frame
        },
        Inbound::Text(t) => {
            editor.on_message(cx, Message::Text(t));
            InboundKind::Text
        },
        Inbound::Binary(b) => {
            editor.on_message(cx, Message::Binary(b));
            InboundKind::Binary
        },
        Inbound::Malformed => InboundKind::Malformed,
    }
}

} // verus!
