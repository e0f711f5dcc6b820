//! The wire form of a message: one JSON object per frame, with the five
//! fields always present and always in the same order.

use vstd::prelude::*;
use vstd::string::StringExecFns;

use crate::message::{ChatMessage, MessageType, MessageView};

verus! {

/// The lower-case hexadecimal digit for `n` in `0..16`.
pub open spec fn hex_digit(n: int) -> char {
    if n < 10 {
        (48 + n) as u8 as char
    } else {
        (87 + n) as u8 as char
    }
}

/// How one character stands inside a JSON string: the quote, the backslash
/// and the control characters below U+0020 are escaped, every other
/// character stands for itself.
pub open spec fn escaped(c: char) -> Seq<char> {
    if c == '"' {
        seq!['\\', '"']
    } else if c == '\\' {
        seq!['\\', '\\']
    } else if c == '\u{8}' {
        seq!['\\', 'b']
    } else if c == '\t' {
        seq!['\\', 't']
    } else if c == '\n' {
        seq!['\\', 'n']
    } else if c == '\u{c}' {
        seq!['\\', 'f']
    } else if c == '\r' {
        seq!['\\', 'r']
    } else if (c as u32) < 0x20 {
        seq!['\\', 'u', '0', '0', hex_digit((c as u32) as int / 16), hex_digit((c as u32) as int % 16)]
    } else {
        seq![c]
    }
}

/// The characters of `s`, each escaped, in order.
pub open spec fn escaped_text(s: Seq<char>) -> Seq<char>
    decreases s.len(),
{
    if s.len() == 0 {
        Seq::empty()
    } else {
        escaped_text(s.drop_last()) + escaped(s.last())
    }
}

/// `s` as a JSON string: escaped and between double quotes.
pub open spec fn json_text(s: Seq<char>) -> Seq<char> {
    seq!['"'] + escaped_text(s) + seq!['"']
}

/// An optional string on the wire: `null` where there is none.
pub open spec fn json_optional(field: Option<Seq<char>>) -> Seq<char> {
    match field {
        Some(s) => json_text(s),
        None => "null"@,
    }
}

/// The name of a kind on the wire, quotes included.
pub open spec fn kind_text(kind: MessageType) -> Seq<char> {
    match kind {
        MessageType::System => "\"System\""@,
        MessageType::User => "\"User\""@,
        MessageType::Init => "\"Init\""@,
        MessageType::File => "\"File\""@,
    }
}

/// The frame that carries `m`.
pub open spec fn wire_text(m: MessageView) -> Seq<char> {
    "{\"kind\":"@ + kind_text(m.kind) + ",\"content\":"@ + json_text(m.content)
        + ",\"sender_username\":"@ + json_optional(m.sender_username) + ",\"filename\":"@
        + json_optional(m.filename) + ",\"file_id\":"@ + json_optional(m.file_id) + "}"@
}

/// Calls `serde_json::to_string` on a string slice. The contract claims that
/// the call succeeds and returns the slice as a JSON string: a double quote,
/// the characters with `"`, `\` and the controls below U+0020 escaped as
/// [`escaped`] says, and a double quote.
#[verifier::external_body]
fn json_string(text: &str) -> (quoted: String)
    ensures
        quoted@ == json_text(text@),
{
    serde_json::to_string(text).unwrap_or_default()
}

fn push_optional(out: &mut String, field: &Option<String>)
    ensures
        final(out)@ == old(out)@ + json_optional(crate::message::text_of(*field)),
{
    match field {
        Some(s) => {
            let quoted = json_string(s.as_str());
            out.append(quoted.as_str());
        },
        None => {
            out.append("null");
        },
    }
}

/// The frame for `msg`.
pub fn encode(msg: &ChatMessage) -> (text: String)
    ensures
        text@ == wire_text(msg@),
{
    let mut out = String::from_str("{\"kind\":");
    let kind = match msg.message_type {
        MessageType::System => "\"System\"",
        MessageType::User => "\"User\"",
        MessageType::Init => "\"Init\"",
        MessageType::File => "\"File\"",
    };
    out.append(kind);
    out.append(",\"content\":");
    let content = json_string(msg.content.as_str());
    out.append(content.as_str());
    out.append(",\"sender_username\":");
    push_optional(&mut out, &msg.sender_username);
    out.append(",\"filename\":");
    push_optional(&mut out, &msg.filename);
    out.append(",\"file_id\":");
    push_optional(&mut out, &msg.file_id);
    out.append("}");
    out
}

/// The escaped text of a sequence is the escaped first character and then
/// the escaped text of the rest.
proof fn lemma_escaped_text_unfolds_in_front(s: Seq<char>)
    requires
        s.len() > 0,
    ensures
        escaped_text(s) == escaped(s[0]) + escaped_text(s.drop_first()),
    decreases s.len(),
{
    if s.len() == 1 {
        assert(s.drop_last() =~= Seq::<char>::empty());
        assert(s.drop_first() =~= Seq::<char>::empty());
        assert(escaped_text(s) =~= escaped(s[0]) + escaped_text(s.drop_first()));
    } else {
        lemma_escaped_text_unfolds_in_front(s.drop_last());
        assert(s.drop_last().drop_first() =~= s.drop_first().drop_last());
        assert(s.drop_last()[0] == s[0]);
        assert(s.drop_first().last() == s.last());
        assert(escaped_text(s) =~= escaped(s[0]) + escaped_text(s.drop_first()));
    }
}

/// What follows a common prefix is the same on both sides.
proof fn lemma_cancel_prefix(p: Seq<char>, x: Seq<char>, y: Seq<char>)
    requires
        p + x == p + y,
    ensures
        x == y,
{
    assert(x =~= (p + x).subrange(p.len() as int, (p + x).len() as int));
    assert(y =~= (p + y).subrange(p.len() as int, (p + y).len() as int));
}

/// No escaped character begins with a double quote, and none is empty.
proof fn lemma_escaped_head(c: char)
    ensures
        escaped(c).len() >= 1,
        escaped(c)[0] != '"',
        escaped(c)[0] == '\\' || (escaped(c) == seq![c] && c != '\\'),
{
}

/// An escaped character can be told from what follows it: the escapes are
/// a prefix-free code.
proof fn lemma_escaped_is_prefix_free(c: char, d: char, x: Seq<char>, y: Seq<char>)
    requires
        escaped(c) + x == escaped(d) + y,
    ensures
        c == d,
        x == y,
{
    let e = escaped(c) + x;
    let f = escaped(d) + y;
    lemma_escaped_head(c);
    lemma_escaped_head(d);
    assert(e[0] == escaped(c)[0]);
    assert(f[0] == escaped(d)[0]);
    if escaped(c)[0] == '\\' && escaped(d)[0] == '\\' {
        assert(escaped(c).len() >= 2 && escaped(d).len() >= 2);
        assert(e[1] == escaped(c)[1]);
        assert(f[1] == escaped(d)[1]);
        if escaped(c)[1] == 'u' {
            assert(escaped(d)[1] == 'u');
            assert(escaped(c).len() == 6 && escaped(d).len() == 6);
            assert(e[4] == escaped(c)[4] && e[5] == escaped(c)[5]);
            assert(f[4] == escaped(d)[4] && f[5] == escaped(d)[5]);
            let m = (c as u32) as int;
            let n = (d as u32) as int;
            assert(hex_digit(m / 16) == hex_digit(n / 16));
            assert(hex_digit(m % 16) == hex_digit(n % 16));
            assert(m / 16 == n / 16);
            assert(m % 16 == n % 16);
            assert(m == n);
        }
    }
    assert(c == d);
    lemma_cancel_prefix(escaped(c), x, y);
}

/// An escaped text can be told from what follows its closing quote.
proof fn lemma_escaped_text_is_prefix_free(s: Seq<char>, t: Seq<char>, x: Seq<char>, y: Seq<char>)
    requires
        escaped_text(s) + (seq!['"'] + x) == escaped_text(t) + (seq!['"'] + y),
    ensures
        s == t,
        x == y,
    decreases s.len(),
{
    let quote = seq!['"'];
    if s.len() == 0 {
        assert(escaped_text(s) + (quote + x) =~= quote + x);
        if t.len() > 0 {
            lemma_escaped_text_unfolds_in_front(t);
            lemma_escaped_head(t[0]);
            assert((escaped_text(t) + (quote + y))[0] == escaped(t[0])[0]);
            assert((quote + x)[0] == '"');
            assert(false);
        }
        assert(escaped_text(t) + (quote + y) =~= quote + y);
        lemma_cancel_prefix(quote, x, y);
        assert(s =~= t);
    } else {
        lemma_escaped_text_unfolds_in_front(s);
        lemma_escaped_head(s[0]);
        if t.len() == 0 {
            assert(escaped_text(t) + (quote + y) =~= quote + y);
            assert((escaped_text(s) + (quote + x))[0] == escaped(s[0])[0]);
            assert((quote + y)[0] == '"');
            assert(false);
        }
        lemma_escaped_text_unfolds_in_front(t);
        let rest_s = escaped_text(s.drop_first()) + (quote + x);
        let rest_t = escaped_text(t.drop_first()) + (quote + y);
        assert(escaped_text(s) + (quote + x) =~= escaped(s[0]) + rest_s);
        assert(escaped_text(t) + (quote + y) =~= escaped(t[0]) + rest_t);
        lemma_escaped_is_prefix_free(s[0], t[0], rest_s, rest_t);
        lemma_escaped_text_is_prefix_free(s.drop_first(), t.drop_first(), x, y);
        assert(s =~= seq![s[0]] + s.drop_first());
        assert(t =~= seq![t[0]] + t.drop_first());
    }
}

/// A JSON string can be told from what follows it.
proof fn lemma_json_text_is_prefix_free(s: Seq<char>, t: Seq<char>, x: Seq<char>, y: Seq<char>)
    requires
        json_text(s) + x == json_text(t) + y,
    ensures
        s == t,
        x == y,
{
    let quote = seq!['"'];
    assert(json_text(s) + x =~= quote + (escaped_text(s) + (quote + x)));
    assert(json_text(t) + y =~= quote + (escaped_text(t) + (quote + y)));
    lemma_cancel_prefix(quote, escaped_text(s) + (quote + x), escaped_text(t) + (quote + y));
    lemma_escaped_text_is_prefix_free(s, t, x, y);
}

/// An optional string on the wire can be told from what follows it.
proof fn lemma_json_optional_is_prefix_free(
    a: Option<Seq<char>>,
    b: Option<Seq<char>>,
    x: Seq<char>,
    y: Seq<char>,
)
    requires
        json_optional(a) + x == json_optional(b) + y,
    ensures
        a == b,
        x == y,
{
    reveal_strlit("null");
    let quote = seq!['"'];
    assert forall|s: Seq<char>| (#[trigger] json_text(s))[0] == '"' by {
        assert(json_text(s) =~= quote + (escaped_text(s) + quote));
    }
    assert((json_optional(a) + x)[0] == json_optional(a)[0]);
    assert((json_optional(b) + y)[0] == json_optional(b)[0]);
    match (a, b) {
        (Some(s), Some(t)) => {
            lemma_json_text_is_prefix_free(s, t, x, y);
        },
        (None, None) => {
            lemma_cancel_prefix("null"@, x, y);
        },
        (Some(s), None) => {
            assert(json_text(s)[0] == '"');
            assert("null"@[0] == 'n');
            assert(false);
        },
        (None, Some(t)) => {
            assert(json_text(t)[0] == '"');
            assert("null"@[0] == 'n');
            assert(false);
        },
    }
}

/// The name of a kind can be told from what follows it.
proof fn lemma_kind_text_is_prefix_free(a: MessageType, b: MessageType, x: Seq<char>, y: Seq<char>)
    requires
        kind_text(a) + x == kind_text(b) + y,
    ensures
        a == b,
        x == y,
{
    reveal_strlit("\"System\"");
    reveal_strlit("\"User\"");
    reveal_strlit("\"Init\"");
    reveal_strlit("\"File\"");
    assert((kind_text(a) + x)[1] == kind_text(a)[1]);
    assert((kind_text(b) + y)[1] == kind_text(b)[1]);
    assert(a == b);
    lemma_cancel_prefix(kind_text(a), x, y);
}

/// The frame of a message, its parts grouped from the right.
spec fn wire_text_from_right(m: MessageView) -> Seq<char> {
    "{\"kind\":"@ + (kind_text(m.kind) + (",\"content\":"@ + (json_text(m.content) + (
    ",\"sender_username\":"@ + (json_optional(m.sender_username) + (",\"filename\":"@ + (
    json_optional(m.filename) + (",\"file_id\":"@ + (json_optional(m.file_id) + "}"@)))))))))
}

/// Joining can be grouped either way.
proof fn lemma_regroup(a: Seq<char>, b: Seq<char>, c: Seq<char>)
    ensures
        (a + b) + c == a + (b + c),
{
    assert((a + b) + c =~= a + (b + c));
}

proof fn lemma_wire_text_from_right(m: MessageView)
    ensures
        wire_text(m) == wire_text_from_right(m),
{
    let p0 = "{\"kind\":"@;
    let p1 = kind_text(m.kind);
    let p2 = ",\"content\":"@;
    let p3 = json_text(m.content);
    let p4 = ",\"sender_username\":"@;
    let p5 = json_optional(m.sender_username);
    let p6 = ",\"filename\":"@;
    let p7 = json_optional(m.filename);
    let p8 = ",\"file_id\":"@;
    let p9 = json_optional(m.file_id);
    let p10 = "}"@;
    let s1 = p0 + p1;
    let s2 = s1 + p2;
    let s3 = s2 + p3;
    let s4 = s3 + p4;
    let s5 = s4 + p5;
    let s6 = s5 + p6;
    let s7 = s6 + p7;
    let s8 = s7 + p8;
    let s9 = s8 + p9;
    let t9 = p9 + p10;
    let t8 = p8 + t9;
    let t7 = p7 + t8;
    let t6 = p6 + t7;
    let t5 = p5 + t6;
    let t4 = p4 + t5;
    let t3 = p3 + t4;
    let t2 = p2 + t3;
    let t1 = p1 + t2;
    lemma_regroup(s8, p9, p10);
    lemma_regroup(s7, p8, t9);
    lemma_regroup(s6, p7, t8);
    lemma_regroup(s5, p6, t7);
    lemma_regroup(s4, p5, t6);
    lemma_regroup(s3, p4, t5);
    lemma_regroup(s2, p3, t4);
    lemma_regroup(s1, p2, t3);
    lemma_regroup(p0, p1, t2);
    assert(wire_text(m) == s9 + p10);
    assert(wire_text_from_right(m) == p0 + t1);
}

/// A frame determines its message: two messages with the same frame agree
/// in every field. So a message read back from its own frame is that
/// message, unchanged, and encoding it again gives the same frame.
pub proof fn law_frame_determines_message(a: MessageView, b: MessageView)
    requires
        wire_text(a) == wire_text(b),
    ensures
        a.kind == b.kind,
        a.content == b.content,
        a.sender_username == b.sender_username,
        a.filename == b.filename,
        a.file_id == b.file_id,
        a == b,
{
    lemma_wire_text_from_right(a);
    lemma_wire_text_from_right(b);
    let a5 = json_optional(a.file_id) + "}"@;
    let b5 = json_optional(b.file_id) + "}"@;
    let a4 = json_optional(a.filename) + (",\"file_id\":"@ + a5);
    let b4 = json_optional(b.filename) + (",\"file_id\":"@ + b5);
    let a3 = json_optional(a.sender_username) + (",\"filename\":"@ + a4);
    let b3 = json_optional(b.sender_username) + (",\"filename\":"@ + b4);
    let a2 = json_text(a.content) + (",\"sender_username\":"@ + a3);
    let b2 = json_text(b.content) + (",\"sender_username\":"@ + b3);
    let a1 = kind_text(a.kind) + (",\"content\":"@ + a2);
    let b1 = kind_text(b.kind) + (",\"content\":"@ + b2);
    lemma_cancel_prefix("{\"kind\":"@, a1, b1);
    lemma_kind_text_is_prefix_free(a.kind, b.kind, ",\"content\":"@ + a2, ",\"content\":"@ + b2);
    lemma_cancel_prefix(",\"content\":"@, a2, b2);
    lemma_json_text_is_prefix_free(
        a.content,
        b.content,
        ",\"sender_username\":"@ + a3,
        ",\"sender_username\":"@ + b3,
    );
    lemma_cancel_prefix(",\"sender_username\":"@, a3, b3);
    lemma_json_optional_is_prefix_free(
        a.sender_username,
        b.sender_username,
        ",\"filename\":"@ + a4,
        ",\"filename\":"@ + b4,
    );
    lemma_cancel_prefix(",\"filename\":"@, a4, b4);
    lemma_json_optional_is_prefix_free(
        a.filename,
        b.filename,
        ",\"file_id\":"@ + a5,
        ",\"file_id\":"@ + b5,
    );
    lemma_cancel_prefix(",\"file_id\":"@, a5, b5);
    lemma_json_optional_is_prefix_free(a.file_id, b.file_id, "}"@, "}"@);
}

} // verus!
