//! What the library takes on trust from code outside it.
use vstd::prelude::*;
use vstd::utf8::{decode_utf8, valid_utf8};
use crate::duration::in_range;
use crate::portal::is_object_path;

verus! {

/// `String::push` appends one character at the end.
pub assume_specification[ String::push ](s: &mut String, c: char)
    ensures
        final(s)@ == old(s)@.push(c),
;

/// The text that `String::from_utf8_lossy` makes of `bytes`.
pub uninterp spec fn lossy_text(bytes: Seq<u8>) -> Seq<char>;

/// `String::from_utf8_lossy` makes a text of the bytes alone, which is what
/// they decode to wherever they are well-formed UTF-8. What stands for
/// malformed bytes is left to the name.
#[verifier::external_body]
pub(crate) fn from_utf8_lossy(bytes: &[u8]) -> (text: String)
    ensures
        text@ == lossy_text(bytes@),
        valid_utf8(bytes@) ==> text@ == decode_utf8(bytes@),
{
    String::from_utf8_lossy(bytes).into_owned()
}

/// `std::str::from_utf8` decodes well-formed UTF-8 and refuses all else.
#[verifier::external_body]
pub(crate) fn from_utf8(bytes: &[u8]) -> (text: Option<String>)
    ensures
        match text {
            Some(t) => valid_utf8(bytes@) && t@ == decode_utf8(bytes@),
            None => !valid_utf8(bytes@),
        },
{
    match std::str::from_utf8(bytes) {
        Ok(text) => Some(text.to_owned()),
        Err(_) => None,
    }
}

/// The duration that humantime reads from a text: seconds and nanoseconds.
pub uninterp spec fn humantime_reading(text: Seq<char>) -> Option<(u64, u32)>;

/// Parsing a text as a `humantime::Duration` depends on the text alone, and
/// gives fewer nanoseconds than make a second. Where the spans of a text add
/// up to the very largest number of seconds and exactly a thousand million
/// nanoseconds, humantime panics instead of refusing the text. The spans of a
/// text in range never add up to that much.
#[verifier::external_body]
pub(crate) fn humantime_parse(text: &str) -> (reading: Option<(u64, u32)>)
    requires
        in_range(text@),
    ensures
        reading == humantime_reading(text@),
        reading matches Some(r) ==> r.1 < 1_000_000_000,
{
    match text.parse::<humantime::Duration>() {
        Ok(duration) => Some((duration.as_secs(), duration.subsec_nanos())),
        Err(_) => None,
    }
}

/// How humantime writes a duration of `secs` seconds and `nanos` nanoseconds.
pub uninterp spec fn humantime_text(secs: u64, nanos: u32) -> Seq<char>;

/// Displaying a `humantime::Duration` gives a text that depends on the
/// duration alone, that humantime reads as the same duration, and whose spans
/// add up to just that.
#[verifier::external_body]
pub(crate) fn humantime_format(secs: u64, nanos: u32) -> (text: String)
    requires
        nanos < 1_000_000_000,
    ensures
        text@ == humantime_text(secs, nanos),
        humantime_reading(text@) == Some((secs, nanos)),
        in_range(text@),
{
    humantime::Duration::from(std::time::Duration::new(secs, nanos)).to_string()
}

/// `zvariant::OwnedObjectPath::try_from` accepts exactly the texts that
/// follow D-Bus's rules for object paths.
#[verifier::external_body]
pub(crate) fn object_path_accepts(path: &str) -> (accepted: bool)
    ensures
        accepted == is_object_path(path@),
{
    zbus::zvariant::OwnedObjectPath::try_from(path).is_ok()
}

} // verus!
