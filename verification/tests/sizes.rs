use webview_editor::codec::InboundKind;
use webview_editor::handler::{handle_inbound, Context, EditorHandler, PanelHost, ParamValue};
use webview_editor::state::WebViewState;
use webview_editor::{WebViewConfig, WebViewEditor, WebViewSource};

struct CountingHost {
    approve_resize: bool,
    resize_calls: u32,
    bounds_calls: u32,
}

impl CountingHost {
    fn new(approve_resize: bool) -> CountingHost {
        CountingHost { approve_resize, resize_calls: 0, bounds_calls: 0 }
    }
}

impl PanelHost for CountingHost {
    fn request_resize(&mut self) -> bool {
        self.resize_calls += 1;
        self.approve_resize
    }

    fn set_panel_bounds(&mut self, _width: u32, _height: u32) -> bool {
        self.bounds_calls += 1;
        true
    }

    fn eval_script(&mut self, _script: &str) -> bool {
        true
    }

    fn get_parameter_value(&mut self, _id: &str) -> ParamValue {
        ParamValue { bits: 0 }
    }

    fn set_parameter_value(&mut self, _id: &str, _value: ParamValue) {}

    fn begin_gesture(&mut self, _id: &str) {}

    fn end_gesture(&mut self, _id: &str) {}
}

struct IdleEditor;

impl EditorHandler<CountingHost> for IdleEditor {
    fn init(&mut self, _cx: &mut Context<CountingHost>) {}

    fn on_frame(&mut self, _cx: &mut Context<CountingHost>) {}

    fn on_message(&mut self, _cx: &mut Context<CountingHost>, _message: webview_editor::codec::Message) {}

    fn on_params_changed(&mut self, _cx: &mut Context<CountingHost>) {}
}

fn test_config() -> WebViewConfig {
    WebViewConfig {
        title: "editor".to_string(),
        source: WebViewSource::HTML("<h1>hi</h1>".to_string()),
        workdir: "/tmp/panel".to_string(),
    }
}

#[test]
fn new_state_initial() {
    let s = WebViewState::new(350, 250);
    assert_eq!(s.window_size(), (350, 250));
    assert!(!s.is_open());
}

#[test]
fn resize_approved_sets_exact_size() {
    let mut cx = Context::new(WebViewState::new(350, 250), CountingHost::new(true));
    assert!(cx.resize_window(500, 400));
    assert_eq!(cx.state.window_size(), (500, 400));
    assert_eq!(cx.host.resize_calls, 1);
    assert_eq!(cx.host.bounds_calls, 1);
}

#[test]
fn resize_refused_rolls_back() {
    let mut cx = Context::new(WebViewState::new(350, 250), CountingHost::new(true));
    assert!(cx.resize_window(500, 400));
    assert_eq!(cx.state.window_size(), (500, 400));
    cx.host.approve_resize = false;
    assert!(!cx.resize_window(800, 600));
    assert_eq!(cx.state.window_size(), (500, 400));
    assert_eq!(cx.host.bounds_calls, 1);
}

#[test]
fn editor_size_reports_state() {
    let e = WebViewEditor::new(WebViewState::new(350, 250), test_config());
    assert_eq!(e.size(), (350, 250));
}

#[test]
fn scale_factor_refused_while_open() {
    let mut e = WebViewEditor::new(WebViewState::new(350, 250), test_config());
    e.attach_fresh();
    assert!(!e.set_scale_factor());
    assert!(!e.state.resize_pending);
}

#[test]
fn deferred_resize_waits_for_tick() {
    let mut editor = IdleEditor;
    let mut cx = Context::new(WebViewState::new(350, 250), CountingHost::new(true));
    let k = handle_inbound(&mut editor, &mut cx, "frame");
    assert_eq!(k, InboundKind::Frame);
    assert_eq!(cx.host.resize_calls, 0);
    assert_eq!(cx.state.window_size(), (350, 250));
}

#[test]
fn deferred_resize_applied_once() {
    let mut e = WebViewEditor::new(WebViewState::new(350, 250), test_config());
    assert!(e.set_scale_factor());
    assert!(e.state.resize_pending);

    let mut editor = IdleEditor;
    let mut cx = Context::new(e.state, CountingHost::new(true));
    handle_inbound(&mut editor, &mut cx, "frame");
    assert_eq!(cx.host.resize_calls, 1);
    assert!(!cx.state.resize_pending);
    assert_eq!(cx.state.window_size(), (350, 250));

    handle_inbound(&mut editor, &mut cx, "frame");
    assert_eq!(cx.host.resize_calls, 1);
}

#[test]
fn deferred_resize_refusal_keeps_size() {
    let mut cx = Context::new(WebViewState::new(350, 250), CountingHost::new(false));
    cx.state.resize_pending = true;
    assert!(cx.apply_deferred_resize());
    assert_eq!(cx.host.resize_calls, 1);
    assert_eq!(cx.state.window_size(), (350, 250));
    assert!(!cx.state.resize_pending);
    assert!(!cx.apply_deferred_resize());
    assert_eq!(cx.host.resize_calls, 1);
}

#[test]
fn restore_keeps_session_fields() {
    let mut s = WebViewState::new(350, 250);
    s.resize_pending = true;
    let restored = WebViewState::new(500, 400);
    s.restore_from(&restored);
    assert_eq!(s.window_size(), (500, 400));
    assert!(s.resize_pending);
    assert!(!s.is_open());
}
