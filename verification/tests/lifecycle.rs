use webview_editor::codec::Message;
use webview_editor::codec::InboundKind;
use webview_editor::handler::{handle_inbound, Context, EditorHandler, PanelHost, ParamValue};
use webview_editor::state::WebViewState;
use webview_editor::{WebViewConfig, WebViewEditor, WebViewSource};

struct QuietHost;

impl PanelHost for QuietHost {
    fn request_resize(&mut self) -> bool {
        true
    }

    fn set_panel_bounds(&mut self, _width: u32, _height: u32) -> bool {
        true
    }

    fn eval_script(&mut self, _script: &str) -> bool {
        true
    }

    fn get_parameter_value(&mut self, _id: &str) -> ParamValue {
        ParamValue { bits: 0 }
    }

    fn set_parameter_value(&mut self, _id: &str, _value: ParamValue) {}

    fn begin_gesture(&mut self, _id: &str) {}

    fn end_gesture(&mut self, _id: &str) {}
}

struct RecordingEditor {
    inits: u32,
    frames: u32,
    messages: Vec<Message>,
    params_changed: u32,
}

impl RecordingEditor {
    fn new() -> RecordingEditor {
        RecordingEditor { inits: 0, frames: 0, messages: Vec::new(), params_changed: 0 }
    }
}

impl EditorHandler<QuietHost> for RecordingEditor {
    fn init(&mut self, _cx: &mut Context<QuietHost>) {
        self.inits += 1;
    }

    fn on_frame(&mut self, _cx: &mut Context<QuietHost>) {
        self.frames += 1;
    }

    fn on_message(&mut self, _cx: &mut Context<QuietHost>, message: Message) {
        self.messages.push(message);
    }

    fn on_params_changed(&mut self, _cx: &mut Context<QuietHost>) {
        self.params_changed += 1;
    }
}

fn test_editor() -> WebViewEditor {
    WebViewEditor::new(
        WebViewState::new(350, 250),
        WebViewConfig {
            title: "editor".to_string(),
            source: WebViewSource::URL("https://example.com".to_string()),
            workdir: "/tmp/panel".to_string(),
        },
    )
}

#[test]
fn first_attach_constructs() {
    let mut e = test_editor();
    assert!(!e.can_reuse());
    e.attach_fresh();
    assert!(e.state.is_open());
    assert_eq!(e.manager.init_count, 1);
    assert_eq!(e.manager.instance, Some(0));
}

#[test]
fn reattach_reuses_instance() {
    let mut e = test_editor();
    e.attach_fresh();
    let first_instance = e.manager.instance;
    e.detach();
    assert!(e.can_reuse());
    e.attach_reused();
    assert_eq!(e.manager.instance, first_instance);
    assert_eq!(e.manager.init_count, 1);
    assert!(e.state.is_open());
}

#[test]
fn reattach_without_reparent_constructs() {
    let mut e = test_editor();
    e.attach_fresh();
    let first_instance = e.manager.instance;
    e.detach();
    e.attach_fresh();
    assert_eq!(e.manager.init_count, 2);
    assert!(e.manager.instance.is_some());
    assert_ne!(e.manager.instance, first_instance);
}

#[test]
fn detach_parks_instance() {
    let mut e = test_editor();
    e.attach_fresh();
    e.detach();
    assert!(!e.state.is_open());
    assert_eq!(e.manager.instance, Some(0));
    assert_eq!(e.manager.init_count, 1);
}

#[test]
fn dispose_clears_instance() {
    let mut e = test_editor();
    e.attach_fresh();
    e.manager.dispose();
    assert_eq!(e.manager.instance, None);
}

#[test]
fn frame_tick_reaches_on_frame() {
    let mut editor = RecordingEditor::new();
    let mut cx = Context::new(WebViewState::new(350, 250), QuietHost);
    let k = handle_inbound(&mut editor, &mut cx, "frame");
    assert_eq!(k, InboundKind::Frame);
    assert_eq!(editor.frames, 1);
    assert!(editor.messages.is_empty());
}

#[test]
fn text_reaches_on_message() {
    let mut editor = RecordingEditor::new();
    let mut cx = Context::new(WebViewState::new(350, 250), QuietHost);
    let k = handle_inbound(&mut editor, &mut cx, "text,hello");
    assert_eq!(k, InboundKind::Text);
    assert_eq!(editor.messages, vec![Message::Text("hello".to_string())]);
    assert_eq!(editor.frames, 0);
}

#[test]
fn binary_reaches_on_message() {
    let mut editor = RecordingEditor::new();
    let mut cx = Context::new(WebViewState::new(350, 250), QuietHost);
    let k = handle_inbound(&mut editor, &mut cx, "binary,aGVsbG8=");
    assert_eq!(k, InboundKind::Binary);
    assert_eq!(
        editor.messages,
        vec![Message::Binary(vec![104, 101, 108, 108, 111])]
    );
}

#[test]
fn malformed_touches_nothing() {
    let mut editor = RecordingEditor::new();
    let mut cx = Context::new(WebViewState::new(350, 250), QuietHost);
    let k = handle_inbound(&mut editor, &mut cx, "junk");
    assert_eq!(k, InboundKind::Malformed);
    assert_eq!(editor.frames, 0);
    assert!(editor.messages.is_empty());
    assert_eq!(cx.state.window_size(), (350, 250));
}

#[test]
fn param_change_delegates_to_bulk_handler() {
    let mut editor = RecordingEditor::new();
    let mut cx = Context::new(WebViewState::new(350, 250), QuietHost);
    editor.on_param_value_changed(&mut cx, "gain", ParamValue { bits: 42 });
    assert_eq!(editor.params_changed, 1);
    editor.on_param_modulation_changed(&mut cx, "gain", ParamValue { bits: 7 });
    assert_eq!(editor.params_changed, 2);
}

#[test]
fn source_locations() {
    let url = WebViewSource::URL("https://example.com".to_string());
    assert_eq!(url.initial_location(), Some("https://example.com".to_string()));
    let html = WebViewSource::HTML("<h1>hi</h1>".to_string());
    assert_eq!(html.initial_location(), None);
    let custom = WebViewSource::CustomProtocol {
        protocol: "assets".to_string(),
        url: "index.html".to_string(),
    };
    assert_eq!(
        custom.initial_location(),
        Some("assets://localhost/index.html".to_string())
    );
}
