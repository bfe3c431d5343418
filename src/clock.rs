use vstd::prelude::*;

verus! {

/// A decimal digit.
pub open spec fn is_digit(c: char) -> bool {
    '0' <= c && c <= '9'
}

/// What every UTC time in RFC 3339 form satisfies: at least 25 characters,
/// ending in the `+00:00` offset.
pub open spec fn is_utc_rfc3339(s: Seq<char>) -> bool {
    &&& s.len() >= 25
    &&& s.subrange(s.len() - 6, s.len() as int) == seq!['+', '0', '0', ':', '0', '0']
}

/// The shape every local time written as `%Y-%m-%d %H:%M:%S` has: a year, then
/// `-MM-DD HH:MM:SS` in digits.
pub open spec fn is_local_datetime(s: Seq<char>) -> bool {
    &&& s.len() > 15
    &&& forall|i: int| #![trigger s[i]] s.len() - 15 <= i < s.len() ==> {
        let j = i - (s.len() - 15);
        if j == 0 || j == 3 {
            s[i] == '-'
        } else if j == 6 {
            s[i] == ' '
        } else if j == 9 || j == 12 {
            s[i] == ':'
        } else {
            is_digit(s[i])
        }
    }
}

/// Relies on chrono's `Utc::now` and `DateTime::to_rfc3339`: the current time
/// in RFC 3339 form, whose UTC offset is written `+00:00`. It panics only if
/// the system clock reads before 1970.
#[verifier::external_body]
pub(crate) fn utc_now_rfc3339() -> (r: String)
    ensures
        is_utc_rfc3339(r@),
{
    chrono::Utc::now().to_rfc3339()
}

/// Relies on chrono's `Local::now` and `DateTime::format`: the local time as
/// `%Y-%m-%d %H:%M:%S`, every field after the year zero-padded to two digits.
/// It panics only if the system clock reads before 1970 or the local time
/// zone cannot be read.
#[verifier::external_body]
pub(crate) fn local_now_text() -> (r: String)
    ensures
        is_local_datetime(r@),
{
    chrono::Local::now().format("%Y-%m-%d %H:%M:%S").to_string()
}

} // verus!
