use vstd::prelude::*;

verus! {

/// Whether `c` is an ASCII decimal digit.
pub open spec fn is_ascii_digit(c: char) -> bool {
    ('0' as u32) <= (c as u32) <= ('9' as u32)
}

/// Whether `s` begins as an RFC 3339 date and time does:
/// `YYYY-MM-DDTHH:MM:SS` (four, two, two, two, two and two digits), followed
/// by at least one more character (the offset, `Z` or `+HH:MM`/`-HH:MM`,
/// possibly after a fraction of a second).
pub open spec fn rfc3339_shaped(s: Seq<char>) -> bool {
    &&& s.len() >= 20
    &&& s[4] == '-' && s[7] == '-' && s[10] == 'T' && s[13] == ':' && s[16] == ':'
    &&& forall|i: int|
        0 <= i < 19 && i != 4 && i != 7 && i != 10 && i != 13 && i != 16 ==> #[trigger] is_ascii_digit(s[i])
}

/// The earliest instant that RFC 3339 can show, 0000-01-01T00:00:00Z, in
/// nanoseconds since the Unix epoch.
pub const RFC3339_MIN_NANOS: i128 = -62167219200000000000;

/// The latest instant that RFC 3339 can show, 9999-12-31T23:59:59.999999999Z,
/// in nanoseconds since the Unix epoch.
pub const RFC3339_MAX_NANOS: i128 = 253402300799999999999;

/// What the `time` crate writes, in RFC 3339 format, for the UTC instant
/// `nanos` nanoseconds after the Unix epoch.
pub uninterp spec fn rfc3339_text_of(nanos: i128) -> Seq<char>;

/// Calls `time::OffsetDateTime::format` with the RFC 3339 description on
/// the UTC instant `nanos` nanoseconds after the Unix epoch (the argument
/// converted by `OffsetDateTime::from_unix_timestamp_nanos`, whose result
/// is in UTC). The text is named by `rfc3339_text_of`. It is there exactly
/// for the instants of the years 0 to 9999: the conversion refuses instants
/// outside the years -9999 to 9999 and the formatter years below 0. On
/// success the text has the shape that the formatter writes: a zero-padded
/// four-digit year, then `-`, month, `-`, day, `T`, hour, `:`, minute, `:`,
/// second (two digits each), possibly a fraction, and `Z` for UTC.
#[verifier::external_body]
fn format_unix_nanos_rfc3339(nanos: i128) -> (r: Option<String>)
    ensures
        r is Some <==> RFC3339_MIN_NANOS <= nanos <= RFC3339_MAX_NANOS,
        r matches Some(s) ==> s@ == rfc3339_text_of(nanos) && rfc3339_shaped(s@) && s@.last() == 'Z',
{
    match time::OffsetDateTime::from_unix_timestamp_nanos(nanos) {
        Ok(t) => t.format(&time::format_description::well_known::Rfc3339).ok(),
        Err(_) => None,
    }
}

/// The text used as timestamp when the current time cannot be formatted.
pub open spec fn fallback_timestamp() -> Seq<char> {
    seq!['0', '0', '0', '0', '-', '0', '0', '-', '0', '0', ' ', '0', '0', ':', '0', '0', ':', '0', '0']
}

/// The timestamp of an entry: the formatted time where formatting
/// succeeded, else `0000-00-00 00:00:00`.
pub fn timestamp_or_fallback(formatted: Option<String>) -> (r: String)
    ensures
        r@ == match formatted {
            Some(s) => s@,
            None => fallback_timestamp(),
        },
{
    match formatted {
        Some(s) => s,
        None => {
            proof {
                reveal_strlit("0000-00-00 00:00:00");
            }
            let r = String::from_str("0000-00-00 00:00:00");
            assert(r@ =~= fallback_timestamp());
            r
        },
    }
}

/// The stamp for an entry made when the clock reads `nanos` nanoseconds
/// since the Unix epoch: the UTC time in RFC 3339 format, or
/// `0000-00-00 00:00:00` for a reading outside the years 0 to 9999.
pub open spec fn stamp_at(nanos: i128) -> Seq<char> {
    if RFC3339_MIN_NANOS <= nanos <= RFC3339_MAX_NANOS {
        rfc3339_text_of(nanos)
    } else {
        fallback_timestamp()
    }
}

/// The timestamp for the clock reading `now_nanos` (nanoseconds since the
/// Unix epoch, negative before it): the UTC time in RFC 3339 format (such as
/// `2026-09-13T13:35:56.6214121Z`), or `0000-00-00 00:00:00` where it cannot
/// be formatted.
pub fn get_timestamp(now_nanos: i128) -> (r: String)
    ensures
        r@ == stamp_at(now_nanos),
        RFC3339_MIN_NANOS <= now_nanos <= RFC3339_MAX_NANOS ==> r@ == rfc3339_text_of(now_nanos),
        !(RFC3339_MIN_NANOS <= now_nanos <= RFC3339_MAX_NANOS) ==> r@ == fallback_timestamp(),
        r@ == fallback_timestamp() || (rfc3339_shaped(r@) && r@.last() == 'Z'),
        RFC3339_MIN_NANOS <= now_nanos <= RFC3339_MAX_NANOS ==> rfc3339_shaped(r@) && r@.last() == 'Z'
            && r@ != fallback_timestamp(),
{
    timestamp_or_fallback(format_unix_nanos_rfc3339(now_nanos))
}

} // verus!
