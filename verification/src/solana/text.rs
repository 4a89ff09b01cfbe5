//! Text helpers that the transports share: decimal numbers, prefixes, lossy
//! decoding, trimming, and the header block of a response.

use vstd::prelude::*;
use vstd::string::*;
use vstd::utf8::*;

verus! {

/// The ten decimal digits, in order.
pub open spec fn digits() -> Seq<char> {
    "0123456789"@
}

/// The decimal digit that stands for `d`.
pub open spec fn digit_char(d: int) -> char
    recommends
        0 <= d < 10,
{
    digits()[d]
}

/// The decimal numeral of `n`, without sign or leading zeros.
pub open spec fn decimal(n: nat) -> Seq<char>
    decreases n,
{
    if n < 10 {
        seq![digit_char(n as int)]
    } else {
        decimal(n / 10).push(digit_char((n % 10) as int))
    }
}

/// The one-character text of a decimal digit.
fn digit_text(d: usize) -> (text: &'static str)
    requires
        d < 10,
    ensures
        text@ == seq![digit_char(d as int)],
{
    proof {
        reveal_strlit("0123456789");
    }
    let text = "0123456789".substring_char(d, d + 1);
    assert(text@ =~= seq![digit_char(d as int)]);
    text
}

/// Writes `n` as a decimal numeral.
pub fn decimal_text(n: usize) -> (text: String)
    ensures
        text@ == decimal(n as nat),
    decreases n,
{
    if n < 10 {
        String::from_str(digit_text(n))
    } else {
        let mut text = decimal_text(n / 10);
        text.append(digit_text(n % 10));
        assert(text@ =~= decimal(n as nat));
        text
    }
}

/// Whether `text` begins with `prefix`.
pub fn starts_with(text: &str, prefix: &str) -> (found: bool)
    ensures
        found == prefix@.is_prefix_of(text@),
{
    let wanted: usize = prefix.unicode_len();
    let given: usize = text.unicode_len();
    if given < wanted {
        return false;
    }
    let mut i: usize = 0;
    while i < wanted
        invariant
            i <= wanted,
            wanted == prefix@.len(),
            given == text@.len(),
            wanted <= given,
            forall|k: int| 0 <= k < i ==> text@[k] == prefix@[k],
        decreases wanted - i,
    {
        if text.get_char(i) != prefix.get_char(i) {
            assert(text@.subrange(0, wanted as int)[i as int] != prefix@[i as int]);
            return false;
        }
        i = i + 1;
    }
    assert(text@.subrange(0, wanted as int) =~= prefix@);
    true
}

/// What `String::from_utf8_lossy` makes of a byte sequence.
pub uninterp spec fn utf8_lossy(bytes: Seq<u8>) -> Seq<char>;

/// Decodes bytes as UTF-8 by `String::from_utf8_lossy`. The text is a
/// function of the bytes; well-formed UTF-8 decodes to the characters it
/// encodes, and each malformed part is replaced as the standard library
/// documents.
#[verifier::external_body]
pub(crate) fn decode_lossy(bytes: &[u8]) -> (text: String)
    ensures
        text@ == utf8_lossy(bytes@),
        valid_utf8(bytes@) ==> text@ == decode_utf8(bytes@),
{
    String::from_utf8_lossy(bytes).into_owned()
}

/// Whether a character has the Unicode property `White_Space`: the controls
/// from the tab to the carriage return, the space, the next line, the
/// no-break space, and the spaces and separators beyond.
pub open spec fn white_space(c: char) -> bool {
    let code = c as u32;
    ||| 0x09 <= code <= 0x0d
    ||| code == 0x20
    ||| code == 0x85
    ||| code == 0xa0
    ||| code == 0x1680
    ||| 0x2000 <= code <= 0x200a
    ||| code == 0x2028
    ||| code == 0x2029
    ||| code == 0x202f
    ||| code == 0x205f
    ||| code == 0x3000
}

/// Asks `char::is_whitespace`, which goes by the Unicode property
/// `White_Space`.
#[verifier::external_body]
pub(crate) fn is_white_space(c: char) -> (white: bool)
    ensures
        white == white_space(c),
{
    c.is_whitespace()
}

/// The length of `text` without its trailing whitespace.
pub open spec fn trimmed_len(text: Seq<char>) -> nat
    decreases text.len(),
{
    if text.len() == 0 || !white_space(text.last()) {
        text.len()
    } else {
        trimmed_len(text.drop_last())
    }
}

/// `text` without its trailing whitespace.
pub open spec fn trimmed_end(text: Seq<char>) -> Seq<char> {
    text.take(trimmed_len(text) as int)
}

/// Only whitespace is cut, and what is left does not end in whitespace.
pub proof fn lemma_trimmed_len(text: Seq<char>)
    ensures
        trimmed_len(text) <= text.len(),
        forall|k: int| trimmed_len(text) <= k < text.len() ==> white_space(#[trigger] text[k]),
        trimmed_len(text) > 0 ==> !white_space(text[trimmed_len(text) - 1]),
    decreases text.len(),
{
    if text.len() == 0 || !white_space(text.last()) {
    } else {
        let shorter = text.drop_last();
        lemma_trimmed_len(shorter);
        assert forall|k: int| trimmed_len(text) <= k < text.len() implies white_space(
            #[trigger] text[k],
        ) by {
            if k < shorter.len() {
                assert(shorter[k] == text[k]);
            }
        }
        if trimmed_len(text) > 0 {
            assert(shorter[trimmed_len(text) - 1] == text[trimmed_len(text) - 1]);
        }
    }
}

/// The trimmed length is the only cut after which only whitespace follows
/// and before which no whitespace stands.
pub proof fn lemma_trimmed_len_unique(text: Seq<char>, cut: int)
    requires
        0 <= cut <= text.len(),
        forall|k: int| cut <= k < text.len() ==> white_space(#[trigger] text[k]),
        cut > 0 ==> !white_space(text[cut - 1]),
    ensures
        trimmed_len(text) == cut,
    decreases text.len(),
{
    if text.len() == 0 || !white_space(text.last()) {
        if cut < text.len() {
            assert(white_space(text[text.len() - 1]));
        }
    } else {
        let shorter = text.drop_last();
        assert(cut < text.len());
        assert forall|k: int| cut <= k < shorter.len() implies white_space(
            #[trigger] shorter[k],
        ) by {
            assert(shorter[k] == text[k]);
        }
        lemma_trimmed_len_unique(shorter, cut);
    }
}

/// A trailing whitespace character is cut with the whitespace before it, and
/// text that ends in any other character is kept whole.
pub proof fn lemma_trimmed_end_of_push(text: Seq<char>, c: char)
    ensures
        white_space(c) ==> trimmed_end(text.push(c)) == trimmed_end(text),
        !white_space(c) ==> trimmed_end(text.push(c)) == text.push(c),
{
    let longer = text.push(c);
    assert(longer.last() == c);
    assert(longer.drop_last() =~= text);
    if white_space(c) {
        lemma_trimmed_len(text);
        assert(longer.take(trimmed_len(text) as int) =~= text.take(trimmed_len(text) as int));
    } else {
        assert(longer.take(longer.len() as int) =~= longer);
    }
}

/// Removes trailing whitespace.
pub fn trim_end(text: &str) -> (trimmed: String)
    ensures
        trimmed@ == trimmed_end(text@),
{
    let mut end: usize = text.unicode_len();
    while end > 0 && is_white_space(text.get_char(end - 1))
        invariant
            end <= text@.len(),
            forall|k: int| end <= k < text@.len() ==> white_space(#[trigger] text@[k]),
        decreases end,
    {
        end = end - 1;
    }
    proof {
        lemma_trimmed_len_unique(text@, end as int);
    }
    String::from_str(text.substring_char(0, end))
}

/// Whether the blank line that ends a header block, CR LF CR LF, stands at
/// `at` in `bytes`.
pub open spec fn blank_line_at(bytes: Seq<u8>, at: int) -> bool {
    &&& 0 <= at
    &&& at + 4 <= bytes.len()
    &&& bytes[at] == 13
    &&& bytes[at + 1] == 10
    &&& bytes[at + 2] == 13
    &&& bytes[at + 3] == 10
}

/// Where the first blank line at or after `from` stands, if there is one.
pub open spec fn find_blank_line(bytes: Seq<u8>, from: int) -> Option<int>
    decreases bytes.len() - from,
{
    if from < 0 || from + 4 > bytes.len() {
        None
    } else if blank_line_at(bytes, from) {
        Some(from)
    } else {
        find_blank_line(bytes, from + 1)
    }
}

/// What follows the first blank line of `bytes`; all of `bytes` where there
/// is none.
pub open spec fn after_blank_line(bytes: Seq<u8>) -> Seq<u8> {
    match find_blank_line(bytes, 0) {
        Some(at) => bytes.skip(at + 4),
        None => bytes,
    }
}

/// The text of a response without its header block: what the bytes after the
/// first blank line decode to.
pub open spec fn body_text(frame: Seq<char>) -> Seq<char> {
    decode_utf8(after_blank_line(encode_utf8(frame)))
}

/// `find_blank_line` gives the first blank line, and none only where no
/// blank line stands at or after `from`.
pub proof fn lemma_find_blank_line(bytes: Seq<u8>, from: int)
    requires
        0 <= from,
    ensures
        match find_blank_line(bytes, from) {
            Some(at) => from <= at && blank_line_at(bytes, at) && forall|k: int|
                from <= k < at ==> !blank_line_at(bytes, k),
            None => forall|k: int| from <= k ==> !blank_line_at(bytes, k),
        },
    decreases bytes.len() - from,
{
    if from + 4 > bytes.len() {
    } else if blank_line_at(bytes, from) {
    } else {
        lemma_find_blank_line(bytes, from + 1);
    }
}

/// In well-formed UTF-8 a character starts right after every ASCII byte.
proof fn lemma_boundary_after_ascii(bytes: Seq<u8>, at: int)
    requires
        valid_utf8(bytes),
        0 <= at < bytes.len(),
        bytes[at] < 0x80,
    ensures
        is_char_boundary(bytes, at + 1),
{
    is_char_boundary_iff_not_is_continuation_byte(bytes, at);
    if at + 1 == bytes.len() {
        is_char_boundary_start_end_of_seq(bytes);
    } else {
        valid_utf8_split(bytes, at);
        let tail = bytes.subrange(at, bytes.len() as int);
        assert(tail[0] == bytes[at]);
        assert(valid_first_scalar(tail));
        assert(length_of_first_scalar(tail) == 1);
        let rest = pop_first_scalar(tail);
        assert(valid_utf8(rest));
        assert(rest.len() > 0);
        assert(rest[0] == bytes[at + 1]);
        assert(valid_first_scalar(rest));
        is_char_boundary_iff_not_is_continuation_byte(bytes, at + 1);
    }
}

/// Takes the header block off a response: what follows the first blank line
/// of `frame`, and the whole of `frame` where it holds no blank line.
pub fn strip_headers(frame: &str) -> (body: String)
    ensures
        encode_utf8(body@) == after_blank_line(encode_utf8(frame@)),
        body@ == body_text(frame@),
        find_blank_line(encode_utf8(frame@), 0) is None ==> body@ == frame@,
{
    let bytes = frame.as_bytes();
    let len: usize = bytes.len();
    let mut at: usize = 0;
    while at < len && len - at >= 4
        invariant
            len == bytes@.len(),
            bytes@ == encode_utf8(frame@),
            at <= len,
            find_blank_line(bytes@, 0) == find_blank_line(bytes@, at as int),
        decreases len - at,
    {
        if bytes[at] == 13 && bytes[at + 1] == 10 && bytes[at + 2] == 13 && bytes[at + 3] == 10 {
            proof {
                assert(blank_line_at(bytes@, at as int));
                encode_utf8_valid_utf8(frame@);
                lemma_boundary_after_ascii(bytes@, at + 3);
            }
            let (_, rest) = frame.split_at(at + 4);
            let body = rest.to_owned();
            assert(bytes@.skip(at + 4) =~= bytes@.subrange(at + 4, len as int));
            proof {
                encode_utf8_decode_utf8(body@);
            }
            return body;
        }
        at = at + 1;
    }
    proof {
        encode_utf8_decode_utf8(frame@);
    }
    frame.to_owned()
}

} // verus!
