//! The wire codec: one string channel in each direction, multiplexed by
//! prefix.
//!
//! Inbound, each received string is classified by a cheap prefix check: the
//! exact string `frame` is a per-tick notification with no payload, a `text,`
//! prefix carries a text payload, a `binary,` prefix carries base64-encoded
//! bytes, and anything else is a protocol violation to be discarded. Outbound,
//! a payload is delivered by invoking a fixed receive function inside the
//! panel's script context; text rides inside a backtick-delimited template
//! string, so every literal backtick in it is backslash-escaped first, and
//! binary payloads go through a companion base64 decode helper in the same
//! call.

use crate::base64::{decode_b64, decode_base64, encode_b64, encode_base64, lemma_b64_char_val};
use crate::strutil::push_char;
use vstd::prelude::*;

verus! {

/// A message crossing the bridge between panel and host logic.
#[derive(Debug, Clone, PartialEq, Eq)]
pub enum Message {
    /// A UTF-8 text payload.
    Text(String),
    /// An arbitrary byte payload.
    Binary(Vec<u8>),
}

/// The mathematical shape of a [`Message`].
pub enum MessageView {
    /// A text payload.
    Text(Seq<char>),
    /// A byte payload.
    Binary(Seq<u8>),
}

impl View for Message {
    type V = MessageView;

    open spec fn view(&self) -> MessageView {
        match self {
            Message::Text(t) => MessageView::Text(t@),
            Message::Binary(b) => MessageView::Binary(b@),
        }
    }
}

/// What one inbound wire string decoded to.
#[derive(Debug, Clone, PartialEq, Eq)]
pub enum Inbound {
    /// The per-tick notification; carries no payload.
    Frame,
    /// A text payload.
    Text(String),
    /// A byte payload, already base64-decoded.
    Binary(Vec<u8>),
    /// A protocol violation: the string is discarded, never fatal.
    Malformed,
}

/// The variant of an [`Inbound`], without its payload.
#[derive(Debug, Clone, Copy, PartialEq, Eq, Structural)]
pub enum InboundKind {
    /// A per-tick notification.
    Frame,
    /// A text payload.
    Text,
    /// A byte payload.
    Binary,
    /// A discarded protocol violation.
    Malformed,
}

impl Inbound {
    /// The variant of this message.
    pub open spec fn kind(&self) -> InboundKind {
        match self {
            Inbound::Frame => InboundKind::Frame,
            Inbound::Text(_) => InboundKind::Text,
            Inbound::Binary(_) => InboundKind::Binary,
            Inbound::Malformed => InboundKind::Malformed,
        }
    }
}

/// The exact wire string of a tick notification.
pub open spec fn frame_wire() -> Seq<char> {
    seq!['f', 'r', 'a', 'm', 'e']
}

/// The wire prefix of a text payload.
pub open spec fn text_prefix() -> Seq<char> {
    seq!['t', 'e', 'x', 't', ',']
}

/// The wire prefix of a base64-encoded byte payload.
pub open spec fn binary_prefix() -> Seq<char> {
    seq!['b', 'i', 'n', 'a', 'r', 'y', ',']
}

/// How an inbound wire string is dispatched: the exact string `frame` is a
/// tick; a `text,` prefix is a text payload; a `binary,` prefix whose
/// remainder is valid base64 is a byte payload; everything else is discarded.
pub open spec fn classify(s: Seq<char>) -> InboundKind {
    if s == frame_wire() {
        InboundKind::Frame
    } else if s.len() >= 5 && s.take(5) == text_prefix() {
        InboundKind::Text
    } else if s.len() >= 7 && s.take(7) == binary_prefix() && decode_b64(s.skip(7)) is Some {
        InboundKind::Binary
    } else {
        InboundKind::Malformed
    }
}

/// Decode one inbound wire string: dispatched exactly as [`classify`] says,
/// with the text payload being everything after the `text,` prefix and the
/// byte payload the base64 decoding of everything after the `binary,` prefix.
pub fn parse_inbound(raw: &str) -> (r: Inbound)
    ensures
        r.kind() == classify(raw@),
        r matches Inbound::Text(t) ==> t@ == raw@.skip(5),
        r matches Inbound::Binary(b) ==> Some(b@) == decode_b64(raw@.skip(7)),
{
    let n = raw.unicode_len();
    if n == 5 && raw.get_char(0) == 'f' && raw.get_char(1) == 'r' && raw.get_char(2) == 'a'
        && raw.get_char(3) == 'm' && raw.get_char(4) == 'e' {
        proof {
            assert(raw@ =~= frame_wire());
        }
        return Inbound::Frame;
    }
    if n >= 5 && raw.get_char(0) == 't' && raw.get_char(1) == 'e' && raw.get_char(2) == 'x'
        && raw.get_char(3) == 't' && raw.get_char(4) == ',' {
        proof {
            assert(raw@.take(5) =~= text_prefix());
            assert(raw@ != frame_wire());
        }
        let t = raw.substring_char(5, n);
        proof {
            assert(t@ =~= raw@.skip(5));
        }
        return Inbound::Text(t.to_owned());
    }
    if n >= 7 && raw.get_char(0) == 'b' && raw.get_char(1) == 'i' && raw.get_char(2) == 'n'
        && raw.get_char(3) == 'a' && raw.get_char(4) == 'r' && raw.get_char(5) == 'y'
        && raw.get_char(6) == ',' {
        proof {
            assert(raw@.take(7) =~= binary_prefix());
            assert(raw@ != frame_wire());
            assert(raw@.take(5) != text_prefix());
        }
        let b64part = raw.substring_char(7, n);
        proof {
            assert(b64part@ =~= raw@.skip(7));
        }
        return match decode_base64(b64part) {
            Some(bytes) => Inbound::Binary(bytes),
            None => Inbound::Malformed,
        };
    }
    proof {
        assert(raw@ != frame_wire());
        assert(raw@.len() >= 5 ==> raw@.take(5) != text_prefix());
        assert(raw@.len() >= 7 ==> raw@.take(7) != binary_prefix());
    }
    Inbound::Malformed
}

/// Backtick escaping for a payload that will sit inside a backtick-delimited
/// template string: a backslash is inserted before every backtick; every
/// other character is kept as it is.
pub open spec fn escape_spec(s: Seq<char>) -> Seq<char>
    decreases s.len(),
{
    if s.len() == 0 {
        Seq::empty()
    } else if s[0] == '`' {
        seq!['\\', '`'] + escape_spec(s.skip(1))
    } else {
        seq![s[0]] + escape_spec(s.skip(1))
    }
}

/// The inverse reading: a backslash immediately followed by a backtick stands
/// for that backtick; every other character stands for itself.
pub open spec fn unescape_spec(s: Seq<char>) -> Seq<char>
    decreases s.len(),
{
    if s.len() == 0 {
        Seq::empty()
    } else if s.len() >= 2 && s[0] == '\\' && s[1] == '`' {
        seq!['`'] + unescape_spec(s.skip(2))
    } else {
        seq![s[0]] + unescape_spec(s.skip(1))
    }
}

/// Every backtick in the sequence sits right after a backslash.
pub open spec fn well_escaped(t: Seq<char>) -> bool {
    forall|i: int| 0 <= i < t.len() && #[trigger] t[i] == '`' ==> i > 0 && t[i - 1] == '\\'
}

/// The escaped form of any payload has every one of its backticks escaped:
/// none of them is left bare for the template-string quoting to misread.
pub proof fn lemma_escape_well_escaped(s: Seq<char>)
    ensures
        well_escaped(escape_spec(s)),
    decreases s.len(),
{
    if s.len() != 0 {
        let rest = s.skip(1);
        lemma_escape_well_escaped(rest);
        let e = escape_spec(s);
        let er = escape_spec(rest);
        let hl: int = if s[0] == '`' {
            2
        } else {
            1
        };
        assert forall|i: int| 0 <= i < e.len() && #[trigger] e[i] == '`' implies i > 0 && e[i - 1]
            == '\\' by {
            if i >= hl {
                assert(e[i] == er[i - hl]);
                if i - hl > 0 {
                    assert(e[i - 1] == er[i - hl - 1]);
                }
            }
        }
    }
}

/// Escaping never swallows information: reading the escaped form back yields
/// the original payload exactly, whatever backticks or backslashes it held.
pub proof fn lemma_escape_round_trip(s: Seq<char>)
    ensures
        unescape_spec(escape_spec(s)) == s,
    decreases s.len(),
{
    if s.len() == 0 {
        assert(unescape_spec(escape_spec(s)) =~= s);
    } else {
        let rest = s.skip(1);
        lemma_escape_round_trip(rest);
        let e = escape_spec(s);
        let er = escape_spec(rest);
        if s[0] == '`' {
            assert(e.skip(2) =~= er);
            assert(seq!['`'] + rest =~= s);
        } else {
            assert(e.skip(1) =~= er);
            if rest.len() != 0 {
                // the next character of the escaped form is never a bare
                // backtick, so the pair branch cannot fire on a backslash
                assert(er[0] == (if rest[0] == '`' {
                    '\\'
                } else {
                    rest[0]
                }));
                assert(er[0] != '`');
            }
            assert(seq![s[0]] + rest =~= s);
        }
    }
}

/// Nothing in the sequence interferes with a backtick-delimited script
/// literal: no backtick and no backslash.
pub open spec fn template_safe(t: Seq<char>) -> bool {
    forall|i: int| 0 <= i < t.len() ==> #[trigger] t[i] != '`' && t[i] != '\\'
}

/// A base64 encoding may sit bare inside a template string: none of its
/// characters is a backtick or a backslash, so binary payloads, unlike text
/// payloads, ride the script channel without any escaping.
pub proof fn lemma_base64_template_safe(s: Seq<u8>)
    ensures
        template_safe(encode_b64(s)),
    decreases s.len(),
{
    let e = encode_b64(s);
    if s.len() == 0 {
    } else if s.len() == 1 {
        let b0 = s[0] as int;
        lemma_b64_char_val(b0 / 4);
        lemma_b64_char_val((b0 % 4) * 16);
    } else if s.len() == 2 {
        let b0 = s[0] as int;
        let b1 = s[1] as int;
        lemma_b64_char_val(b0 / 4);
        lemma_b64_char_val((b0 % 4) * 16 + b1 / 16);
        lemma_b64_char_val((b1 % 16) * 4);
    } else {
        let b0 = s[0] as int;
        let b1 = s[1] as int;
        let b2 = s[2] as int;
        lemma_b64_char_val(b0 / 4);
        lemma_b64_char_val((b0 % 4) * 16 + b1 / 16);
        lemma_b64_char_val((b1 % 16) * 4 + b2 / 64);
        lemma_b64_char_val(b2 % 64);
        lemma_base64_template_safe(s.skip(3));
        let er = encode_b64(s.skip(3));
        assert forall|i: int| 0 <= i < e.len() implies #[trigger] e[i] != '`' && e[i]
            != '\\' by {
            if i >= 4 {
                assert(e[i] == er[i - 4]);
            }
        }
    }
}

/// The script evaluated in the panel to deliver a text payload: the fixed
/// receive function applied to the escaped payload inside a template string.
pub open spec fn text_script_spec(payload: Seq<char>) -> Seq<char> {
    "window.plugin.__onmessage(`"@ + escape_spec(payload) + "`);"@
}

/// The script evaluated in the panel to deliver a byte payload: the fixed
/// receive function applied to the base64 decoding, by the companion helper,
/// of the encoded payload.
pub open spec fn binary_script_spec(payload: Seq<u8>) -> Seq<char> {
    "window.plugin.__onmessage(window.plugin.__frombase64(`"@ + encode_b64(payload) + "`));"@
}

/// The delivery script of an outbound message.
pub open spec fn message_script_spec(m: MessageView) -> Seq<char> {
    match m {
        MessageView::Text(t) => text_script_spec(t),
        MessageView::Binary(b) => binary_script_spec(b),
    }
}

/// Escape a text payload for delivery inside a template string.
pub fn escape_text(s: &str) -> (r: String)
    ensures
        r@ == escape_spec(s@),
{
    let n = s.unicode_len();
    let mut r = String::new();
    let mut i: usize = 0;
    proof {
        assert(s@.skip(0) =~= s@);
        assert(Seq::<char>::empty() + escape_spec(s@) =~= escape_spec(s@));
    }
    while i < n
        invariant
            i <= n,
            n == s@.len(),
            escape_spec(s@) == r@ + escape_spec(s@.skip(i as int)),
        decreases n - i,
    {
        let c = s.get_char(i);
        proof {
            assert(s@.skip(i as int).skip(1) =~= s@.skip(i + 1));
        }
        if c == '`' {
            push_char(&mut r, '\\');
            push_char(&mut r, '`');
        } else {
            push_char(&mut r, c);
        }
        i = i + 1;
    }
    proof {
        assert(r@ + escape_spec(s@.skip(n as int)) =~= r@);
    }
    r
}

/// Read an escaped payload back, undoing [`escape_text`].
pub fn unescape_text(s: &str) -> (r: String)
    ensures
        r@ == unescape_spec(s@),
{
    let n = s.unicode_len();
    let mut r = String::new();
    let mut i: usize = 0;
    proof {
        assert(s@.skip(0) =~= s@);
        assert(Seq::<char>::empty() + unescape_spec(s@) =~= unescape_spec(s@));
    }
    while i < n
        invariant
            i <= n,
            n == s@.len(),
            unescape_spec(s@) == r@ + unescape_spec(s@.skip(i as int)),
        decreases n - i,
    {
        let c = s.get_char(i);
        if c == '\\' && i + 1 < n && s.get_char(i + 1) == '`' {
            proof {
                assert(s@.skip(i as int).skip(2) =~= s@.skip(i + 2));
            }
            push_char(&mut r, '`');
            i = i + 2;
        } else {
            proof {
                assert(s@.skip(i as int).skip(1) =~= s@.skip(i + 1));
            }
            push_char(&mut r, c);
            i = i + 1;
        }
    }
    proof {
        assert(r@ + unescape_spec(s@.skip(n as int)) =~= r@);
    }
    r
}

/// Build the delivery script of an outbound message.
pub fn message_script(m: &Message) -> (r: String)
    ensures
        r@ == message_script_spec(m@),
{
    match m {
        Message::Text(t) => {
            let mut s = String::from_str("window.plugin.__onmessage(`");
            let esc = escape_text(t.as_str());
            s.append(esc.as_str());
            s.append("`);");
            s
        },
        Message::Binary(b) => {
            let mut s = String::from_str(
                "window.plugin.__onmessage(window.plugin.__frombase64(`",
            );
            let enc = encode_base64(b);
            s.append(enc.as_str());
            s.append("`));");
            s
        },
    }
}

} // verus!
