//! The clock, fresh stream identifiers, and the text clean-up that turns the
//! output of a system command into an identifier.

use vstd::prelude::*;
use vstd::string::{StrSliceExecFns, StringExecFns};
use vstd::utf8::{decode_utf8, valid_utf8};

verus! {

/// Whether a character has the Unicode property `White_Space`: the
/// controls from tab to carriage return and next line, the space and the
/// no-break space, the Ogham space mark, the spaces from en quad to hair
/// space, the line and paragraph separators, the narrow no-break space, the
/// medium mathematical space and the ideographic space.
pub open spec fn char_is_whitespace(c: char) -> bool {
    let code = c as u32;
    ||| 0x0009 <= code <= 0x000D
    ||| code == 0x0020
    ||| code == 0x0085
    ||| code == 0x00A0
    ||| code == 0x1680
    ||| 0x2000 <= code <= 0x200A
    ||| code == 0x2028
    ||| code == 0x2029
    ||| code == 0x202F
    ||| code == 0x205F
    ||| code == 0x3000
}

/// `std::time::SystemTime::elapsed` on the Unix epoch: the time that has
/// passed since then by the system clock, and `None` where the clock stands
/// before the epoch. Nothing is claimed of the value.
#[verifier::external_body]
fn elapsed_since_epoch() -> (elapsed: Option<core::time::Duration>) {
    match std::time::UNIX_EPOCH.elapsed() {
        Ok(elapsed) => Some(elapsed),
        Err(_) => None,
    }
}

/// `core::time::Duration::as_secs`: the whole seconds of a duration.
/// Nothing is claimed of the value.
#[verifier::external_body]
fn duration_secs(duration: &core::time::Duration) -> (secs: u64) {
    duration.as_secs()
}

/// `core::time::Duration::subsec_nanos`: the part of a duration beyond its
/// whole seconds, in nanoseconds. Nothing is claimed of the value.
#[verifier::external_body]
fn duration_subsec_nanos(duration: &core::time::Duration) -> (nanos: u32) {
    duration.subsec_nanos()
}

/// `uuid::Uuid::new_v4` written out by the `Display` of `Uuid`: a random
/// identifier in hyphenated form, which is 36 characters in groups of 8, 4,
/// 4, 4 and 12 with a hyphen between two groups.
#[verifier::external_body]
fn fresh_uuid() -> (id: String)
    ensures
        id@.len() == 36,
        id@[8] == '-',
        id@[13] == '-',
        id@[18] == '-',
        id@[23] == '-',
{
    uuid::Uuid::new_v4().to_string()
}

/// Whether a character has the Unicode property `White_Space`.
pub fn is_whitespace(c: char) -> (b: bool)
    ensures
        b == char_is_whitespace(c),
{
    let code: u32 = c as u32;
    (0x0009 <= code && code <= 0x000D) || code == 0x0020 || code == 0x0085 || code == 0x00A0
        || code == 0x1680 || (0x2000 <= code && code <= 0x200A) || code == 0x2028 || code
        == 0x2029 || code == 0x202F || code == 0x205F || code == 0x3000
}

/// `String::push`: appends one character.
#[verifier::external_body]
fn push_char(s: &mut String, c: char)
    ensures
        final(s)@ == old(s)@.push(c),
{
    s.push(c)
}

/// `String::from_utf8`: the text that the bytes encode in UTF-8, and `None`
/// where they are no valid UTF-8.
#[verifier::external_body]
fn string_from_utf8(bytes: Vec<u8>) -> (text: Option<String>)
    ensures
        text.is_some() == valid_utf8(bytes@),
        text matches Some(s) ==> s@ == decode_utf8(bytes@),
{
    match String::from_utf8(bytes) {
        Ok(s) => Some(s),
        Err(_) => None,
    }
}

/// Why the clock gave no timestamp.
#[derive(Clone, Copy, Debug, PartialEq, Eq)]
pub enum ClockError {
    /// The system clock stands before the Unix epoch.
    BeforeEpoch,
    /// The milliseconds since the Unix epoch do not fit in 64 bits.
    OutOfRange,
}

/// The whole milliseconds in a time of `secs` seconds and `nanos`
/// nanoseconds; what is less than a millisecond is cut off.
pub open spec fn whole_millis(secs: u64, nanos: u32) -> int {
    secs * 1000 + nanos / 1_000_000
}

/// The timestamp for a reading of the clock, given as the seconds and the
/// further nanoseconds that have passed since the Unix epoch: their whole
/// milliseconds, where the clock gave a reading and they fit in 64 bits.
pub open spec fn timestamp_spec(elapsed: Option<(u64, u32)>) -> Result<u64, ClockError> {
    match elapsed {
        None => Err(ClockError::BeforeEpoch),
        Some((secs, nanos)) => if whole_millis(secs, nanos) <= u64::MAX {
            Ok(whole_millis(secs, nanos) as u64)
        } else {
            Err(ClockError::OutOfRange)
        },
    }
}

/// The timestamp for a reading of the clock.
pub fn timestamp_of(elapsed: Option<(u64, u32)>) -> (out: Result<u64, ClockError>)
    ensures
        out == timestamp_spec(elapsed),
{
    match elapsed {
        None => Err(ClockError::BeforeEpoch),
        Some((secs, nanos)) => {
            let millis: u128 = (secs as u128) * 1000 + ((nanos / 1_000_000) as u128);
            if millis <= 0xffff_ffff_ffff_ffffu128 {
                Ok(millis as u64)
            } else {
                Err(ClockError::OutOfRange)
            }
        },
    }
}

/// Milliseconds since 00:00:00 UTC on 1 January 1970 by the system clock.
pub fn now() -> Result<u64, ClockError> {
    let elapsed = match elapsed_since_epoch() {
        Some(elapsed) => Some((duration_secs(&elapsed), duration_subsec_nanos(&elapsed))),
        None => None,
    };
    timestamp_of(elapsed)
}

/// A random identifier for the stream of one run: 36 characters in groups
/// of 8, 4, 4, 4 and 12 with a hyphen between two groups.
pub fn new_stream_id() -> (id: String)
    ensures
        id@.len() == 36,
        id@[8] == '-',
        id@[13] == '-',
        id@[18] == '-',
        id@[23] == '-',
{
    fresh_uuid()
}

/// The characters that are no whitespace.
pub open spec fn visible() -> spec_fn(char) -> bool {
    |c: char| !char_is_whitespace(c)
}

/// `start..end` is the part of `s` that is left when the whitespace at both
/// ends is taken away.
pub open spec fn trims_to(s: Seq<char>, start: int, end: int) -> bool {
    &&& 0 <= start <= end <= s.len()
    &&& forall|i: int| 0 <= i < start ==> char_is_whitespace(#[trigger] s[i])
    &&& forall|i: int| end <= i < s.len() ==> char_is_whitespace(#[trigger] s[i])
    &&& start < end ==> !char_is_whitespace(s[start]) && !char_is_whitespace(s[end - 1])
    &&& start == end ==> start == s.len()
}

/// The text without any of its whitespace characters.
pub fn strip_whitespace(text: &str) -> (out: String)
    ensures
        out@ == text@.filter(visible()),
{
    let n: usize = text.unicode_len();
    let mut out = String::new();
    let mut i: usize = 0;
    proof {
        reveal(Seq::filter);
        assert(text@.take(0) =~= Seq::<char>::empty());
    }
    while i < n
        invariant
            n == text@.len(),
            i <= n,
            out@ == text@.take(i as int).filter(visible()),
        decreases n - i,
    {
        let c = text.get_char(i);
        proof {
            reveal(Seq::filter);
            assert(text@.take(i + 1).drop_last() =~= text@.take(i as int));
            assert(text@.take(i + 1).last() == c);
        }
        if !is_whitespace(c) {
            push_char(&mut out, c);
        }
        i = i + 1;
    }
    proof {
        assert(text@.take(n as int) =~= text@);
    }
    out
}

/// The text without the whitespace at its start and at its end.
pub fn trim(text: &str) -> (out: String)
    ensures
        exists|start: int, end: int|
            trims_to(text@, start, end) && out@ == text@.subrange(start, end),
{
    let n: usize = text.unicode_len();
    let mut start: usize = 0;
    while start < n && is_whitespace(text.get_char(start))
        invariant
            n == text@.len(),
            start <= n,
            forall|i: int| 0 <= i < start ==> char_is_whitespace(#[trigger] text@[i]),
        decreases n - start,
    {
        start = start + 1;
    }
    let mut end: usize = n;
    while end > start && is_whitespace(text.get_char(end - 1))
        invariant
            n == text@.len(),
            start <= end <= n,
            forall|i: int| end <= i < n ==> char_is_whitespace(#[trigger] text@[i]),
        decreases end - start,
    {
        end = end - 1;
    }
    let out = String::from_str(text.substring_char(start, end));
    proof {
        assert(trims_to(text@, start as int, end as int));
    }
    out
}

/// The identifier of the desktop session: the output of the session
/// listing, decoded as UTF-8, without any whitespace. `None` where the
/// output is no valid UTF-8.
pub fn get_session_id(output: Vec<u8>) -> (id: Option<String>)
    ensures
        id.is_some() == valid_utf8(output@),
        id matches Some(s) ==> s@ == decode_utf8(output@).filter(visible()),
{
    match string_from_utf8(output) {
        Some(text) => Some(strip_whitespace(text.as_str())),
        None => None,
    }
}

/// The identifier of the host: the content of the machine-id file, decoded
/// as UTF-8, without the whitespace at its ends. Empty where the content is
/// no valid UTF-8.
pub fn get_host_id(output: Vec<u8>) -> (id: String)
    ensures
        !valid_utf8(output@) ==> id@.len() == 0,
        valid_utf8(output@) ==> exists|start: int, end: int|
            trims_to(decode_utf8(output@), start, end) && id@ == decode_utf8(output@).subrange(
                start,
                end,
            ),
{
    match string_from_utf8(output) {
        Some(text) => trim(text.as_str()),
        None => String::new(),
    }
}

} // verus!
