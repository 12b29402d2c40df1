//! Line framing: where the payload of a sensor line or of a recorded log line
//! starts and ends. Decoding the payload is left to the caller.

use vstd::prelude::*;

verus! {

/// The characters with the Unicode property `White_Space`.
pub open spec fn is_white_space(c: char) -> bool {
    let code = c as u32;
    ||| 0x09 <= code <= 0x0D
    ||| code == 0x20
    ||| code == 0x85
    ||| code == 0xA0
    ||| code == 0x1680
    ||| 0x2000 <= code <= 0x200A
    ||| code == 0x2028
    ||| code == 0x2029
    ||| code == 0x202F
    ||| code == 0x205F
    ||| code == 0x3000
}

/// The text without its leading white space.
pub open spec fn trim_start(text: Seq<char>) -> Seq<char>
    decreases text.len(),
{
    if text.len() > 0 && is_white_space(text.first()) {
        trim_start(text.drop_first())
    } else {
        text
    }
}

/// The text without its trailing white space.
pub open spec fn trim_end(text: Seq<char>) -> Seq<char>
    decreases text.len(),
{
    if text.len() > 0 && is_white_space(text.last()) {
        trim_end(text.drop_last())
    } else {
        text
    }
}

/// The text without leading and trailing white space.
pub open spec fn trimmed(text: Seq<char>) -> Seq<char> {
    trim_end(trim_start(text))
}

/// Number of characters before the first `{`; the length of the text where it
/// holds none.
pub open spec fn brace_offset(text: Seq<char>) -> nat
    decreases text.len(),
{
    if text.len() == 0 || text.first() == '{' {
        0
    } else {
        1 + brace_offset(text.drop_first())
    }
}

/// The payload of a line from the sensor: the trimmed line, provided that it
/// opens with `{`.
pub open spec fn sensor_payload_of(line: Seq<char>) -> Option<Seq<char>> {
    let text = trimmed(line);
    if text.len() > 0 && text.first() == '{' {
        Some(text)
    } else {
        None
    }
}

/// The payload of a recorded line: the trimmed line from its first `{` on,
/// whatever stands before it; `None` where the line holds no `{`.
pub open spec fn recorded_payload_of(line: Seq<char>) -> Option<Seq<char>> {
    let text = trimmed(line);
    let offset = brace_offset(text) as int;
    if offset < text.len() {
        Some(text.skip(offset))
    } else {
        None
    }
}

/// `str::trim`: the slice without its leading and trailing white space, where
/// white space is what Unicode gives the property `White_Space`.
#[verifier::external_body]
fn trim(line: &str) -> (text: &str)
    ensures
        text@ == trimmed(line@),
{
    line.trim()
}

/// `brace_offset` counts up to the first `{` and no further.
pub proof fn lemma_brace_offset(text: Seq<char>)
    ensures
        brace_offset(text) <= text.len(),
        forall|i: int| 0 <= i < brace_offset(text) ==> text[i] != '{',
        brace_offset(text) < text.len() ==> text[brace_offset(text) as int] == '{',
    decreases text.len(),
{
    if text.len() > 0 && text.first() != '{' {
        let rest = text.drop_first();
        lemma_brace_offset(rest);
        assert forall|i: int| 0 <= i < brace_offset(text) implies text[i] != '{' by {
            if i > 0 {
                assert(text[i] == rest[i - 1]);
            }
        }
        if brace_offset(text) < text.len() {
            assert(text[brace_offset(text) as int] == rest[brace_offset(rest) as int]);
        }
    }
}

/// An index that holds `{` and has none before it is the brace offset.
pub proof fn lemma_brace_offset_unique(text: Seq<char>, at: int)
    requires
        0 <= at <= text.len(),
        forall|i: int| 0 <= i < at ==> text[i] != '{',
        at < text.len() ==> text[at] == '{',
    ensures
        brace_offset(text) == at,
{
    lemma_brace_offset(text);
    let offset = brace_offset(text) as int;
    if offset < at {
        assert(text[offset] != '{');
    } else if at < offset {
        assert(text[at] == '{');
    }
}

/// The payload of a line from the sensor, if the line carries one.
pub fn sensor_payload(line: &str) -> (payload: Option<&str>)
    ensures
        match payload {
            Some(text) => sensor_payload_of(line@) == Some(text@),
            None => sensor_payload_of(line@) is None,
        },
{
    let text = trim(line);
    if !text.is_empty() && text.get_char(0) == '{' {
        Some(text)
    } else {
        None
    }
}

/// The payload of a recorded line, if the line carries one. A prefix before
/// the first `{`, such as a bracketed date, is dropped.
pub fn recorded_payload(line: &str) -> (payload: Option<&str>)
    ensures
        match payload {
            Some(text) => recorded_payload_of(line@) == Some(text@),
            None => recorded_payload_of(line@) is None,
        },
{
    let text = trim(line);
    let len = text.unicode_len();
    let mut offset: usize = 0;
    let mut found = false;
    for c in it: text.chars()
        invariant
            it.seq() == text@,
            len == text@.len(),
            offset <= it.index(),
            !found ==> offset == it.index(),
            found ==> offset < len && text@[offset as int] == '{',
            forall|i: int| 0 <= i < offset ==> text@[i] != '{',
    {
        if !found {
            if c == '{' {
                found = true;
            } else {
                offset = offset + 1;
            }
        }
    }
    proof {
        lemma_brace_offset_unique(text@, offset as int);
    }
    if found {
        Some(text.substring_char(offset, len))
    } else {
        None
    }
}

} // verus!
