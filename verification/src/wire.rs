//! Encodings that leave the process: base64 for the clipboard escape sequence
//! and the JSON form of a user turn with images.

use crate::chars;
use crate::llm;
use crate::llm::ImageBlock;
use vstd::prelude::*;

verus! {

// ---------------------------------------------------------------------------
// Base64
// ---------------------------------------------------------------------------

/// The base64 digit of a six-bit value.
pub open spec fn sextet(v: int) -> char {
    if v < 26 {
        (65 + v) as char
    } else if v < 52 {
        (71 + v) as char
    } else if v < 62 {
        (v - 4) as char
    } else if v == 62 {
        '+'
    } else {
        '/'
    }
}

/// The six-bit value of a base64 digit.
pub open spec fn sextet_value(c: char) -> int {
    if 'A' <= c <= 'Z' {
        c as int - 65
    } else if 'a' <= c <= 'z' {
        c as int - 71
    } else if '0' <= c <= '9' {
        c as int + 4
    } else if c == '+' {
        62
    } else {
        63
    }
}

/// The padded base64 notation of a byte string.
pub open spec fn base64(data: Seq<u8>) -> Seq<char>
    decreases data.len(),
{
    if data.len() == 0 {
        seq![]
    } else if data.len() == 1 {
        let n = data[0] * 65536;
        seq![sextet(n / 262144), sextet(n / 4096 % 64), '=', '=']
    } else if data.len() == 2 {
        let n = data[0] * 65536 + data[1] * 256;
        seq![sextet(n / 262144), sextet(n / 4096 % 64), sextet(n / 64 % 64), '=']
    } else {
        let n = data[0] * 65536 + data[1] * 256 + data[2];
        seq![sextet(n / 262144), sextet(n / 4096 % 64), sextet(n / 64 % 64), sextet(n % 64)]
            + base64(data.skip(3))
    }
}

/// The byte string that a padded base64 notation stands for.
pub open spec fn unbase64(s: Seq<char>) -> Seq<u8>
    decreases s.len(),
{
    if s.len() < 4 {
        seq![]
    } else {
        let n = sextet_value(s[0]) * 262144 + sextet_value(s[1]) * 4096 + (if s[2] == '=' {
            0
        } else {
            sextet_value(s[2]) * 64
        }) + (if s[3] == '=' {
            0
        } else {
            sextet_value(s[3])
        });
        if s[2] == '=' {
            seq![(n / 65536) as u8]
        } else if s[3] == '=' {
            seq![(n / 65536) as u8, (n / 256 % 256) as u8]
        } else {
            seq![(n / 65536) as u8, (n / 256 % 256) as u8, (n % 256) as u8] + unbase64(s.skip(4))
        }
    }
}

fn digit64(v: u32) -> (c: char)
    requires
        v < 64,
    ensures
        c == sextet(v as int),
{
    if v < 26 {
        (65 + v as u8) as char
    } else if v < 52 {
        (71 + v as u8) as char
    } else if v < 62 {
        (v as u8 - 4) as char
    } else if v == 62 {
        '+'
    } else {
        '/'
    }
}

pub fn base64_encode(data: &[u8]) -> (out: String)
    ensures
        out@ == base64(data@),
{
    let mut out = String::new();
    let mut i: usize = 0;
    assert(data@.skip(0) =~= data@);
    while data.len() - i >= 3
        invariant
            0 <= i <= data@.len(),
            out@ + base64(data@.skip(i as int)) == base64(data@),
        decreases data@.len() - i,
    {
        let n = (data[i] as u32) * 65536 + (data[i + 1] as u32) * 256 + (data[i + 2] as u32);
        let ghost before = out@;
        let ghost rest = data@.skip(i as int);
        out.push(digit64(n / 262144));
        out.push(digit64(n / 4096 % 64));
        out.push(digit64(n / 64 % 64));
        out.push(digit64(n % 64));
        proof {
            assert(rest.skip(3) =~= data@.skip(i + 3));
            let head = seq![
                sextet(n as int / 262144),
                sextet(n as int / 4096 % 64),
                sextet(n as int / 64 % 64),
                sextet(n as int % 64),
            ];
            assert(out@ + base64(rest.skip(3)) =~= before + (head + base64(rest.skip(3))));
        }
        i = i + 3;
    }
    let ghost before = out@;
    let ghost rest = data@.skip(i as int);
    let left = data.len() - i;
    if left == 1 {
        let n = (data[i] as u32) * 65536;
        out.push(digit64(n / 262144));
        out.push(digit64(n / 4096 % 64));
        out.push('=');
        out.push('=');
        assert(out@ =~= before + base64(rest));
    } else if left == 2 {
        let n = (data[i] as u32) * 65536 + (data[i + 1] as u32) * 256;
        out.push(digit64(n / 262144));
        out.push(digit64(n / 4096 % 64));
        out.push(digit64(n / 64 % 64));
        out.push('=');
        assert(out@ =~= before + base64(rest));
    } else {
        assert(out@ =~= before + base64(rest));
    }
    out
}

proof fn lemma_sextet(v: int)
    requires
        0 <= v < 64,
    ensures
        sextet_value(sextet(v)) == v,
        sextet(v) != '=',
{
}

proof fn lemma_regroup(a: u32, b: u32, c: u32)
    by (bit_vector)
    requires
        a < 256,
        b < 256,
        c < 256,
    ensures
        (a * 65536 + b * 256 + c) / 262144 < 64,
        (a * 65536 + b * 256 + c) / 262144 * 262144 + (a * 65536 + b * 256 + c) / 4096 % 64 * 4096 + (
        a * 65536 + b * 256 + c) / 64 % 64 * 64 + (a * 65536 + b * 256 + c) % 64 == a * 65536 + b
            * 256 + c,
        (a * 65536 + b * 256 + c) / 65536 == a,
        (a * 65536 + b * 256 + c) / 256 % 256 == b,
        (a * 65536 + b * 256 + c) % 256 == c,
        c == 0 ==> (a * 65536 + b * 256 + c) % 64 == 0,
        b == 0 && c == 0 ==> (a * 65536 + b * 256 + c) / 64 % 64 == 0,
{
}

/// Decoding gives back what was encoded.
pub proof fn law_base64_round_trip(data: Seq<u8>)
    ensures
        unbase64(base64(data)) == data,
    decreases data.len(),
{
    if data.len() == 0 {
        assert(unbase64(base64(data)) =~= data);
    } else {
        let b = if data.len() >= 2 {
            data[1] as int
        } else {
            0
        };
        let c = if data.len() >= 3 {
            data[2] as int
        } else {
            0
        };
        let n = data[0] * 65536 + b * 256 + c;
        lemma_regroup(data[0] as u32, b as u32, c as u32);
        lemma_sextet(n / 262144);
        lemma_sextet(n / 4096 % 64);
        lemma_sextet(n / 64 % 64);
        lemma_sextet(n % 64);
        let s = base64(data);
        if data.len() == 1 {
            assert(s[0] == sextet(n / 262144) && s[1] == sextet(n / 4096 % 64) && s[2] == '='
                && s[3] == '=');
            assert(unbase64(s) =~= data);
        } else if data.len() == 2 {
            assert(s[0] == sextet(n / 262144) && s[1] == sextet(n / 4096 % 64) && s[2] == sextet(
                n / 64 % 64,
            ) && s[3] == '=');
            assert(unbase64(s) =~= data);
        } else {
            let rest = base64(data.skip(3));
            law_base64_round_trip(data.skip(3));
            assert(s.skip(4) =~= rest);
            assert(s[0] == sextet(n / 262144) && s[1] == sextet(n / 4096 % 64) && s[2] == sextet(
                n / 64 % 64,
            ) && s[3] == sextet(n % 64));
            assert(unbase64(s) =~= seq![data[0], data[1], data[2]] + data.skip(3));
            assert(seq![data[0], data[1], data[2]] + data.skip(3) =~= data);
        }
    }
}

/// Base64 takes four characters for every three bytes begun.
pub proof fn law_base64_length(data: Seq<u8>)
    ensures
        base64(data).len() == (data.len() + 2) / 3 * 4,
    decreases data.len(),
{
    if data.len() >= 3 {
        law_base64_length(data.skip(3));
    }
}

/// The OSC 52 sequence that puts `text` on the clipboard.
pub open spec fn osc52(text: Seq<char>) -> Seq<char> {
    "\x1b]52;c;"@ + base64(vstd::utf8::encode_utf8(text)) + "\x07"@
}

/// OSC 52 clipboard write with a base64 payload, in the widely supported
/// BEL-terminated form.
pub fn copy_text_osc52(text: &str) -> (seq: String)
    ensures
        seq@ == osc52(text@),
{
    let b64 = base64_encode(text.as_bytes());
    chars::cat3("\x1b]52;c;", b64.as_str(), "\x07")
}

// ---------------------------------------------------------------------------
// JSON user turns
// ---------------------------------------------------------------------------

/// One lower-case hexadecimal digit.
pub open spec fn hex_digit(v: int) -> char {
    if v < 10 {
        (48 + v) as char
    } else {
        (87 + v) as char
    }
}

/// A character as it stands inside a JSON string.
pub open spec fn json_char(c: char) -> Seq<char> {
    if c == '"' {
        seq!['\\', '"']
    } else if c == '\\' {
        seq!['\\', '\\']
    } else if c == '\n' {
        seq!['\\', 'n']
    } else if c == '\r' {
        seq!['\\', 'r']
    } else if c == '\t' {
        seq!['\\', 't']
    } else if (c as u32) < 0x20 {
        seq!['\\', 'u', '0', '0', hex_digit(c as u32 as int / 16), hex_digit(c as u32 as int % 16)]
    } else {
        seq![c]
    }
}

/// A text as it stands inside a JSON string.
pub open spec fn json_escaped(s: Seq<char>) -> Seq<char>
    decreases s.len(),
{
    if s.len() == 0 {
        seq![]
    } else {
        json_char(s[0]) + json_escaped(s.drop_first())
    }
}

/// The value of a hexadecimal digit.
pub open spec fn hex_value(c: char) -> int {
    if '0' <= c <= '9' {
        c as int - 48
    } else {
        c as int - 87
    }
}

/// The text that the inside of a JSON string stands for, for the escapes that
/// [`json_escaped`] uses.
pub open spec fn json_unescaped(s: Seq<char>) -> Seq<char>
    decreases s.len(),
{
    if s.len() == 0 {
        seq![]
    } else if s[0] != '\\' {
        seq![s[0]] + json_unescaped(s.skip(1))
    } else if s.len() >= 6 && s[1] == 'u' {
        seq![(hex_value(s[4]) * 16 + hex_value(s[5])) as char] + json_unescaped(s.skip(6))
    } else if s.len() >= 2 {
        seq![
            if s[1] == 'n' {
                '\n'
            } else if s[1] == 'r' {
                '\r'
            } else if s[1] == 't' {
                '\t'
            } else {
                s[1]
            },
        ] + json_unescaped(s.skip(2))
    } else {
        seq![]
    }
}

fn hex_char(v: u8) -> (c: char)
    requires
        v < 16,
    ensures
        c == hex_digit(v as int),
{
    if v < 10 {
        (48 + v) as char
    } else {
        (87 + v) as char
    }
}

pub fn escape_json_simple(s: &str) -> (out: String)
    ensures
        out@ == json_escaped(s@),
{
    let v = chars::to_chars(s);
    let mut out = String::new();
    let mut i: usize = 0;
    assert(v@.skip(0) =~= v@);
    while i < v.len()
        invariant
            v@ == s@,
            0 <= i <= v@.len(),
            out@ + json_escaped(v@.skip(i as int)) == json_escaped(s@),
        decreases v@.len() - i,
    {
        let c = v[i];
        let code = c as u32;
        let ghost before = out@;
        let ghost rest = v@.skip(i as int);
        if c == '"' || c == '\\' {
            out.push('\\');
            out.push(c);
        } else if c == '\n' {
            out.push('\\');
            out.push('n');
        } else if c == '\r' {
            out.push('\\');
            out.push('r');
        } else if c == '\t' {
            out.push('\\');
            out.push('t');
        } else if code < 0x20 {
            out.push('\\');
            out.push('u');
            out.push('0');
            out.push('0');
            out.push(hex_char((code / 16) as u8));
            out.push(hex_char((code % 16) as u8));
        } else {
            out.push(c);
        }
        proof {
            assert(rest.drop_first() =~= v@.skip(i + 1));
            assert(out@ =~= before + json_char(c));
            let tail = json_escaped(v@.skip(i + 1));
            assert(out@ + tail =~= before + (json_char(c) + tail));
        }
        i = i + 1;
    }
    assert(out@ + json_escaped(v@.skip(i as int)) =~= out@);
    out
}

proof fn lemma_json_char(c: char)
    ensures
        json_char(c).len() > 0,
        forall|i: int| 0 <= i < json_char(c).len() ==> #[trigger] json_char(c)[i] >= ' ',
        forall|i: int|
            0 <= i < json_char(c).len() && #[trigger] json_char(c)[i] == '"' ==> i == 1
                && json_char(c)[0] == '\\',
        json_char(c).len() == 6 ==> (hex_value(json_char(c)[4]) * 16 + hex_value(
            json_char(c)[5],
        )) as char == c,
{
    let j = json_char(c);
    assert forall|i: int| 0 <= i < j.len() implies #[trigger] j[i] >= ' ' && (j[i] == '"' ==> i == 1
        && j[0] == '\\') by {
        if i == 0 {
        } else if i == 1 {
        } else if i == 2 {
        } else if i == 3 {
        } else if i == 4 {
        } else {
            assert(i == 5);
        }
    }
}

/// Unescaping gives back the escaped text.
pub proof fn law_json_escape_round_trip(s: Seq<char>)
    ensures
        json_unescaped(json_escaped(s)) == s,
    decreases s.len(),
{
    if s.len() > 0 {
        let c = s[0];
        let t = s.drop_first();
        let rest = json_escaped(t);
        let all = json_escaped(s);
        let k = json_char(c).len() as int;
        law_json_escape_round_trip(t);
        lemma_json_char(c);
        assert(all.skip(k) =~= rest);
        assert(forall|i: int| 0 <= i < k ==> all[i] == json_char(c)[i]);
        assert(all[0] == json_char(c)[0]);
        assert(k >= 2 ==> all[1] == json_char(c)[1]);
        assert(k == 6 ==> all[4] == json_char(c)[4] && all[5] == json_char(c)[5]);
        assert(json_unescaped(all) =~= seq![c] + t);
        assert(seq![c] + t =~= s);
    }
}

/// Escaped text holds no control character and can stand between quotes: every
/// quote in it follows a backslash.
pub proof fn law_json_escape_is_safe(s: Seq<char>)
    ensures
        forall|i: int| 0 <= i < json_escaped(s).len() ==> #[trigger] json_escaped(s)[i] >= ' ',
        forall|i: int|
            0 <= i < json_escaped(s).len() && #[trigger] json_escaped(s)[i] == '"' ==> i > 0
                && json_escaped(s)[i - 1] == '\\',
    decreases s.len(),
{
    if s.len() > 0 {
        let t = s.drop_first();
        let head = json_char(s[0]);
        let k = head.len() as int;
        let rest = json_escaped(t);
        let all = json_escaped(s);
        law_json_escape_is_safe(t);
        lemma_json_char(s[0]);
        assert forall|i: int| 0 <= i < all.len() implies #[trigger] all[i] >= ' ' by {
            if i < k {
                assert(all[i] == head[i]);
            } else {
                assert(all[i] == rest[i - k]);
            }
        }
        assert forall|i: int| 0 <= i < all.len() && #[trigger] all[i] == '"' implies i > 0
            && all[i - 1] == '\\' by {
            if i < k {
                assert(all[i] == head[i]);
                assert(i == 1);
                assert(all[0] == head[0]);
            } else {
                assert(all[i] == rest[i - k]);
                assert(all[i - 1] == rest[i - k - 1]);
            }
        }
    }
}

/// An image as an object of the wire format.
pub open spec fn image_json(img: llm::ImageView) -> Seq<char> {
    "{\"media_type\":\""@ + json_escaped(img.media_type) + "\",\"data\":\""@ + json_escaped(
        img.data_base64,
    ) + "\"}"@
}

/// The images of a turn as JSON objects.
pub open spec fn images_json(images: Seq<llm::ImageView>) -> Seq<Seq<char>> {
    Seq::new(images.len(), |i: int| image_json(images[i]))
}

/// The agent command that carries a user turn with images.
pub open spec fn user_json_cmd(text: Seq<char>, images: Seq<llm::ImageView>) -> Seq<char> {
    "__user_json__:{\"text\":\""@ + json_escaped(text) + "\",\"images\":["@ + chars::joined(
        images_json(images),
        ","@,
    ) + "]}"@
}

/// Wire format for multimodal user turns on the agent command channel.
pub fn encode_user_json_cmd(text: &str, images: &[ImageBlock]) -> (r: String)
    ensures
        r@ == user_json_cmd(text@, llm::images(images@)),
{
    let ghost all = images_json(llm::images(images@));
    let mut parts: Vec<String> = Vec::new();
    let mut i: usize = 0;
    assert(chars::strs(parts@) =~= all.take(0));
    while i < images.len()
        invariant
            0 <= i <= images@.len(),
            all == images_json(llm::images(images@)),
            chars::strs(parts@) == all.take(i as int),
        decreases images@.len() - i,
    {
        let part = chars::cat5(
            "{\"media_type\":\"",
            escape_json_simple(images[i].media_type.as_str()).as_str(),
            "\",\"data\":\"",
            escape_json_simple(images[i].data_base64.as_str()).as_str(),
            "\"}",
        );
        proof {
            chars::lemma_strs_push(parts@, part);
            assert(llm::images(images@)[i as int] == images@[i as int]@);
            assert(all.take(i + 1) =~= all.take(i as int).push(part@));
        }
        parts.push(part);
        i = i + 1;
    }
    assert(all.take(i as int) =~= all);
    chars::cat5(
        "__user_json__:{\"text\":\"",
        escape_json_simple(text).as_str(),
        "\",\"images\":[",
        chars::join(&parts, ",").as_str(),
        "]}",
    )
}

// ---------------------------------------------------------------------------
// Reading a JSON user turn back
// ---------------------------------------------------------------------------

/// What follows `prefix` in `s`, if `s` starts with it.
pub open spec fn after(s: Seq<char>, prefix: Seq<char>) -> Option<Seq<char>> {
    if s.len() >= prefix.len() && s.take(prefix.len() as int) == prefix {
        Some(s.skip(prefix.len() as int))
    } else {
        None
    }
}

/// Where a JSON string ends: at the first quote that no backslash escapes.
pub open spec fn quote_at(s: Seq<char>) -> int
    decreases s.len(),
{
    if s.len() == 0 || s[0] == '"' {
        0
    } else if s[0] == '\\' && s.len() >= 2 {
        2 + quote_at(s.skip(2))
    } else {
        1 + quote_at(s.skip(1))
    }
}

/// The text of a JSON string, read from right behind its opening quote, and
/// the rest from its closing quote on.
#[verifier::opaque]
pub open spec fn read_string(s: Seq<char>) -> (Seq<char>, Seq<char>) {
    (json_unescaped(s.take(quote_at(s))), s.skip(quote_at(s)))
}

/// Reads one image, and gives the rest.
#[verifier::opaque]
pub open spec fn read_image(s: Seq<char>) -> Option<(llm::ImageView, Seq<char>)> {
    match after(s, "{\"media_type\":\""@) {
        Some(t) => {
            let (media_type, u) = read_string(t);
            match after(u, "\",\"data\":\""@) {
                Some(v) => {
                    let (data_base64, w) = read_string(v);
                    match after(w, "\"}"@) {
                        Some(rest) => Some((llm::ImageView { media_type, data_base64 }, rest)),
                        None => None,
                    }
                },
                None => None,
            }
        },
        None => None,
    }
}

/// Reads the images that are left, each behind a comma, and the end of the
/// command.
pub open spec fn read_more(s: Seq<char>) -> Option<Seq<llm::ImageView>>
    decreases s.len(),
{
    if s == "]}"@ {
        Some(seq![])
    } else {
        match after(s, ","@) {
            Some(t) => match read_image(t) {
                Some((img, rest)) => if rest.len() < s.len() {
                    match read_more(rest) {
                        Some(images) => Some(seq![img] + images),
                        None => None,
                    }
                } else {
                    None
                },
                None => None,
            },
            None => None,
        }
    }
}

/// Reads the images of a command and its end.
pub open spec fn read_images(s: Seq<char>) -> Option<Seq<llm::ImageView>> {
    if s == "]}"@ {
        Some(seq![])
    } else {
        match read_image(s) {
            Some((img, rest)) => match read_more(rest) {
                Some(images) => Some(seq![img] + images),
                None => None,
            },
            None => None,
        }
    }
}

/// Reads an agent command that carries a user turn: its text and its images.
pub open spec fn read_user_json_cmd(s: Seq<char>) -> Option<(Seq<char>, Seq<llm::ImageView>)> {
    match after(s, "__user_json__:{\"text\":\""@) {
        Some(t) => {
            let (text, u) = read_string(t);
            match after(u, "\",\"images\":["@) {
                Some(v) => match read_images(v) {
                    Some(images) => Some((text, images)),
                    None => None,
                },
                None => None,
            }
        },
        None => None,
    }
}

proof fn lemma_after(prefix: Seq<char>, rest: Seq<char>)
    ensures
        after(prefix + rest, prefix) == Some(rest),
{
    assert((prefix + rest).take(prefix.len() as int) =~= prefix);
    assert((prefix + rest).skip(prefix.len() as int) =~= rest);
}

/// The quotes of an escaped text do not end the string it stands in.
proof fn lemma_quote_at(t: Seq<char>, rest: Seq<char>)
    requires
        rest.len() > 0,
        rest[0] == '"',
    ensures
        quote_at(json_escaped(t) + rest) == json_escaped(t).len(),
    decreases t.len(),
{
    let s = json_escaped(t) + rest;
    if t.len() == 0 {
        assert(s[0] == '"');
    } else {
        let head = json_char(t[0]);
        let k = head.len() as int;
        let tail = json_escaped(t.drop_first()) + rest;
        lemma_quote_at(t.drop_first(), rest);
        lemma_json_char(t[0]);
        assert(s.skip(k) =~= tail);
        assert(forall|i: int| 0 <= i < k ==> s[i] == head[i]);
        assert(s[0] == head[0]);
        if k == 6 {
            assert(s[2] == head[2] && s[3] == head[3] && s[4] == head[4] && s[5] == head[5]);
            assert(s.skip(2).skip(1) =~= s.skip(3));
            assert(s.skip(3).skip(1) =~= s.skip(4));
            assert(s.skip(4).skip(1) =~= s.skip(5));
            assert(s.skip(5).skip(1) =~= s.skip(6));
            assert(quote_at(s.skip(5)) == 1 + quote_at(s.skip(6)));
            assert(quote_at(s.skip(4)) == 1 + quote_at(s.skip(5)));
            assert(quote_at(s.skip(3)) == 1 + quote_at(s.skip(4)));
            assert(quote_at(s.skip(2)) == 1 + quote_at(s.skip(3)));
        }
    }
}

/// An escaped text between quotes reads back.
proof fn lemma_read_string(t: Seq<char>, rest: Seq<char>)
    requires
        rest.len() > 0,
        rest[0] == '"',
    ensures
        read_string(json_escaped(t) + rest) == (t, rest),
{
    reveal(read_string);
    let s = json_escaped(t) + rest;
    lemma_quote_at(t, rest);
    law_json_escape_round_trip(t);
    assert(s.take(quote_at(s)) =~= json_escaped(t));
    assert(s.skip(quote_at(s)) =~= rest);
}

proof fn lemma_read_image(img: llm::ImageView, rest: Seq<char>)
    ensures
        read_image(image_json(img) + rest) == Some((img, rest)),
        rest.len() < (image_json(img) + rest).len(),
{
    reveal(read_image);
    let open = "{\"media_type\":\""@;
    let mid = "\",\"data\":\""@;
    let close = "\"}"@;
    reveal_strlit("\",\"data\":\"");
    reveal_strlit("\"}");
    let w = close + rest;
    let u = mid + (json_escaped(img.data_base64) + w);
    assert(image_json(img) + rest =~= open + (json_escaped(img.media_type) + u));
    lemma_after(open, json_escaped(img.media_type) + u);
    lemma_read_string(img.media_type, u);
    lemma_after(mid, json_escaped(img.data_base64) + w);
    lemma_read_string(img.data_base64, w);
    lemma_after(close, rest);
}

proof fn lemma_image_opens(img: llm::ImageView, rest: Seq<char>)
    ensures
        image_json(img) + rest != "]}"@,
{
    reveal_strlit("]}");
    reveal_strlit("{\"media_type\":\"");
    assert((image_json(img) + rest)[0] == '{');
    assert("]}"@[0] == ']');
}

proof fn lemma_concat(a: Seq<char>, b: Seq<char>, c: Seq<char>)
    ensures
        (a + b) + c == a + (b + c),
{
    assert((a + b) + c =~= a + (b + c));
}

/// The parts one after another, each behind `sep`.
pub open spec fn led(parts: Seq<Seq<char>>, sep: Seq<char>) -> Seq<char>
    decreases parts.len(),
{
    if parts.len() == 0 {
        seq![]
    } else {
        sep + parts[0] + led(parts.drop_first(), sep)
    }
}

proof fn lemma_led_push(parts: Seq<Seq<char>>, part: Seq<char>, sep: Seq<char>)
    ensures
        led(parts.push(part), sep) == led(parts, sep) + sep + part,
    decreases parts.len(),
{
    let all = parts.push(part);
    if parts.len() == 0 {
        assert(all.drop_first() =~= parts);
        assert(led(all, sep) =~= led(parts, sep) + sep + part);
    } else {
        lemma_led_push(parts.drop_first(), part, sep);
        assert(all.drop_first() =~= parts.drop_first().push(part));
        assert(led(all, sep) =~= led(parts, sep) + sep + part);
    }
}

/// Joined parts start with the first one.
pub proof fn lemma_joined_from_the_front(parts: Seq<Seq<char>>, sep: Seq<char>)
    requires
        parts.len() > 0,
    ensures
        chars::joined(parts, sep) == parts[0] + led(parts.drop_first(), sep),
    decreases parts.len(),
{
    let rest = parts.drop_first();
    if parts.len() == 1 {
        assert(chars::joined(parts, sep) =~= parts[0] + led(rest, sep));
    } else {
        let init = parts.drop_last();
        lemma_joined_from_the_front(init, sep);
        lemma_led_push(init.drop_first(), parts.last(), sep);
        assert(rest =~= init.drop_first().push(parts.last()));
        assert(chars::joined(parts, sep) =~= parts[0] + led(rest, sep));
    }
}

proof fn lemma_read_more(images: Seq<llm::ImageView>)
    ensures
        read_more(led(images_json(images), ","@) + "]}"@) == Some(images),
    decreases images.len(),
{
    let parts = images_json(images);
    let s = led(parts, ","@) + "]}"@;
    reveal_strlit(",");
    reveal_strlit("]}");
    if images.len() == 0 {
        assert(s =~= "]}"@);
        assert(images =~= seq![]);
    } else {
        let tail = led(images_json(images.drop_first()), ","@) + "]}"@;
        lemma_read_more(images.drop_first());
        lemma_read_image(images[0], tail);
        assert(parts.drop_first() =~= images_json(images.drop_first()));
        lemma_concat(","@ + image_json(images[0]), led(parts.drop_first(), ","@), "]}"@);
        lemma_concat(","@, image_json(images[0]), tail);
        assert(s[0] == ',');
        lemma_after(","@, image_json(images[0]) + tail);
        assert(seq![images[0]] + images.drop_first() =~= images);
    }
}

proof fn lemma_read_images(images: Seq<llm::ImageView>)
    ensures
        read_images(chars::joined(images_json(images), ","@) + "]}"@) == Some(images),
{
    let parts = images_json(images);
    if images.len() == 0 {
        assert(chars::joined(parts, ","@) + "]}"@ =~= "]}"@);
        assert(images =~= seq![]);
    } else {
        let rest = images.drop_first();
        let more = led(images_json(rest), ","@);
        lemma_joined_from_the_front(parts, ","@);
        assert(parts.drop_first() =~= images_json(rest));
        lemma_concat(image_json(images[0]), more, "]}"@);
        lemma_read_more(rest);
        lemma_read_image(images[0], more + "]}"@);
        lemma_image_opens(images[0], more + "]}"@);
        assert(seq![images[0]] + rest =~= images);
    }
}

/// The command of a user turn reads back as the turn's text and its images, in
/// order.
pub proof fn law_user_json_cmd_reads_back(text: Seq<char>, images: Seq<llm::ImageView>)
    ensures
        read_user_json_cmd(user_json_cmd(text, images)) == Some((text, images)),
{
    let open = "__user_json__:{\"text\":\""@;
    let mid = "\",\"images\":["@;
    let v = chars::joined(images_json(images), ","@) + "]}"@;
    reveal_strlit("\",\"images\":[");
    assert(user_json_cmd(text, images) =~= open + (json_escaped(text) + (mid + v)));
    lemma_after(open, json_escaped(text) + (mid + v));
    lemma_read_string(text, mid + v);
    lemma_after(mid, v);
    lemma_read_images(images);
}

/// Turns that differ in their text or in an image have different commands.
pub proof fn law_user_json_cmd_is_unambiguous(
    text: Seq<char>,
    images: Seq<llm::ImageView>,
    other: Seq<char>,
    others: Seq<llm::ImageView>,
)
    requires
        user_json_cmd(text, images) == user_json_cmd(other, others),
    ensures
        text == other,
        images == others,
{
    law_user_json_cmd_reads_back(text, images);
    law_user_json_cmd_reads_back(other, others);
}

/// The alphabet of the encoding: capitals, small letters, digits, plus, slash.
pub proof fn law_base64_alphabet(v: int)
    requires
        0 <= v < 64,
    ensures
        v < 26 ==> sextet(v) as int == 'A' as int + v,
        26 <= v < 52 ==> sextet(v) as int == 'a' as int + (v - 26),
        52 <= v < 62 ==> sextet(v) as int == '0' as int + (v - 52),
        v == 62 ==> sextet(v) == '+',
        v == 63 ==> sextet(v) == '/',
{
}

/// Text without quotes, backslashes and control characters is its own JSON
/// text; a quote or a backslash gets one backslash before it, and a line feed
/// is written as one.
pub proof fn law_json_escapes_only_what_it_must(a: Seq<char>, c: char, b: Seq<char>)
    requires
        forall|i: int|
            0 <= i < a.len() ==> #[trigger] a[i] != '"' && a[i] != '\\' && a[i] >= '\u{20}',
    ensures
        json_escaped(a) == a,
        c == '"' || c == '\\' ==> json_escaped(a + seq![c] + b) == a + seq!['\\', c]
            + json_escaped(b),
        c == '\n' ==> json_escaped(a + seq![c] + b) == a + seq!['\\', 'n'] + json_escaped(b),
{
    lemma_plain_json(a, Seq::empty());
    lemma_plain_json(a, seq![c] + b);
    assert(a + Seq::<char>::empty() =~= a);
    assert(a + json_escaped(Seq::empty()) =~= a);
    assert(a + seq![c] + b =~= a + (seq![c] + b));
    assert((seq![c] + b).drop_first() =~= b);
    assert((seq![c] + b)[0] == c);
    let rest = json_escaped(b);
    assert(a + (json_char(c) + rest) =~= a + json_char(c) + rest);
}

proof fn lemma_plain_char(c: char)
    requires
        c != '"',
        c != '\\',
        c >= '\u{20}',
    ensures
        json_char(c) == seq![c],
{
}

proof fn lemma_plain_json(a: Seq<char>, s: Seq<char>)
    requires
        forall|i: int|
            0 <= i < a.len() ==> #[trigger] a[i] != '"' && a[i] != '\\' && a[i] >= '\u{20}',
    ensures
        json_escaped(a + s) == a + json_escaped(s),
    decreases a.len(),
{
    if a.len() == 0 {
        assert(a + s =~= s);
        assert(a + json_escaped(s) =~= json_escaped(s));
    } else {
        let t = a.drop_first();
        assert forall|i: int| 0 <= i < t.len() implies #[trigger] t[i] != '"' && t[i] != '\\'
            && t[i] >= '\u{20}' by {
            assert(t[i] == a[i + 1]);
        }
        lemma_plain_json(t, s);
        assert((a + s)[0] == a[0]);
        assert((a + s).drop_first() =~= t + s);
        assert(a[0] >= '\u{20}');
        lemma_plain_char(a[0]);
        assert(seq![a[0]] + (t + json_escaped(s)) =~= a + json_escaped(s));
    }
}

/// The command that copies a text through the terminal carries the text's bytes
/// and nothing else.
pub proof fn law_copies_carry_the_text(text: Seq<char>)
    ensures
        ({
            let s = osc52(text);
            let lead = "\x1b]52;c;"@;
            let n = s.len();
            &&& chars::begins(s, lead)
            &&& s[n - 1] == '\u{7}'
            &&& unbase64(s.subrange(lead.len() as int, n - 1)) == vstd::utf8::encode_utf8(text)
        }),
{
    let s = osc52(text);
    let lead = "\x1b]52;c;"@;
    let body = base64(vstd::utf8::encode_utf8(text));
    reveal_strlit("\x07");
    assert(s.take(lead.len() as int) =~= lead);
    assert(s.subrange(lead.len() as int, s.len() - 1) =~= body);
    law_base64_round_trip(vstd::utf8::encode_utf8(text));
}

} // verus!
