use webview_editor::codec::{escape_text, message_script, parse_inbound, unescape_text, Inbound,
    Message};
use webview_editor::handler::{Context, PanelHost, ParamValue};
use webview_editor::state::WebViewState;

struct ScriptHost {
    scripts: Vec<String>,
}

impl PanelHost for ScriptHost {
    fn request_resize(&mut self) -> bool {
        true
    }

    fn set_panel_bounds(&mut self, _width: u32, _height: u32) -> bool {
        true
    }

    fn eval_script(&mut self, script: &str) -> bool {
        self.scripts.push(script.to_string());
        true
    }

    fn get_parameter_value(&mut self, _id: &str) -> ParamValue {
        ParamValue { bits: 0 }
    }

    fn set_parameter_value(&mut self, _id: &str, _value: ParamValue) {}

    fn begin_gesture(&mut self, _id: &str) {}

    fn end_gesture(&mut self, _id: &str) {}
}

#[test]
fn parse_text_payload() {
    let r = parse_inbound("text,hello");
    assert_eq!(r, Inbound::Text("hello".to_string()));
}

#[test]
fn parse_binary_payload() {
    let r = parse_inbound("binary,aGVsbG8=");
    assert_eq!(r, Inbound::Binary(vec![104, 101, 108, 108, 111]));
}

#[test]
fn parse_frame_tick() {
    assert_eq!(parse_inbound("frame"), Inbound::Frame);
}

#[test]
fn parse_empty_text_payload() {
    assert_eq!(parse_inbound("text,"), Inbound::Text(String::new()));
}

#[test]
fn parse_unknown_prefix_discarded() {
    assert_eq!(parse_inbound("bogus,payload"), Inbound::Malformed);
    assert_eq!(parse_inbound(""), Inbound::Malformed);
    assert_eq!(parse_inbound("frames"), Inbound::Malformed);
    assert_eq!(parse_inbound("fram"), Inbound::Malformed);
}

#[test]
fn parse_binary_invalid_base64_discarded() {
    assert_eq!(parse_inbound("binary,!!!"), Inbound::Malformed);
    assert_eq!(parse_inbound("binary,abc"), Inbound::Malformed);
}

#[test]
fn escape_backticks_on_wire() {
    assert_eq!(escape_text("send `cmd` now"), "send \\`cmd\\` now");
    assert_eq!(escape_text("no ticks"), "no ticks");
    assert_eq!(escape_text("``"), "\\`\\`");
}

#[test]
fn escape_round_trip_concrete() {
    let cases = ["plain", "with `tick`", "back\\slash", "\\`already`", "`", "\\", ""];
    for case in cases {
        let escaped = escape_text(case);
        assert_eq!(unescape_text(&escaped), case);
    }
}

#[test]
fn text_script_exact() {
    let script = message_script(&Message::Text("hi `there`".to_string()));
    assert_eq!(script, "window.plugin.__onmessage(`hi \\`there\\``);");
}

#[test]
fn binary_script_exact() {
    let script = message_script(&Message::Binary(vec![1, 2, 3]));
    assert_eq!(
        script,
        "window.plugin.__onmessage(window.plugin.__frombase64(`AQID`));"
    );
}

#[test]
fn send_message_delivers_script() {
    let host = ScriptHost { scripts: Vec::new() };
    let mut cx = Context::new(WebViewState::new(100, 100), host);
    cx.send_message(&Message::Text("ready`".to_string()));
    assert_eq!(cx.host.scripts.len(), 1);
    assert_eq!(cx.host.scripts[0], "window.plugin.__onmessage(`ready\\``);");
}
