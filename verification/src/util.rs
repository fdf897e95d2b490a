//! Identifiers, timestamps and content hashes, from the crates that make them.

use vstd::prelude::*;

use sha2::{Digest, Sha256};

verus! {

/// The lower-case hexadecimal SHA-256 digest of the UTF-8 bytes of a text.
pub uninterp spec fn sha256_hex_of(content: Seq<char>) -> Seq<char>;

/// A fresh random identifier: `uuid::Uuid::new_v4` in its hyphenated text form.
/// Nothing is claimed of the value, which is random. It panics only when the operating
/// system gives no random bytes, which no argument can rule out.
#[verifier::external_body]
pub fn new_uuid() -> (res: String) {
    uuid::Uuid::new_v4().to_string()
}

/// A character of an RFC 3339 UTC time: a digit or one of `+ - : T Z`.
pub open spec fn timestamp_char(c: char) -> bool {
    ('0' <= c && c <= '9') || c == '-' || c == '+' || c == ':' || c == 'T' || c == 'Z'
}

/// The shape of an RFC 3339 UTC time with whole seconds, as chrono writes it: a year (four
/// digits, or a sign and more digits), then `-MM-DDTHH:MM:SSZ`; so at least twenty
/// characters, a `T` ten before the end, a final `Z`, and nothing but digits and `+ - : T Z`.
pub open spec fn utc_timestamp(s: Seq<char>) -> bool {
    &&& s.len() >= 20
    &&& s[s.len() - 1] == 'Z'
    &&& s[s.len() - 10] == 'T'
    &&& forall|i: int| 0 <= i < s.len() ==> timestamp_char(#[trigger] s[i])
}

/// The current UTC time in RFC 3339 form with whole seconds and a `Z` suffix:
/// `chrono::Utc::now().to_rfc3339_opts(SecondsFormat::Secs, true)`. Which time it is depends
/// on the clock and is left unsaid; every outcome has the shape `utc_timestamp` describes. It
/// panics only when the clock is set before 1970, which no argument can rule out.
#[verifier::external_body]
pub fn now_rfc3339() -> (res: String)
    ensures
        utc_timestamp(res@),
{
    chrono::Utc::now().to_rfc3339_opts(chrono::SecondsFormat::Secs, true)
}

/// The SHA-256 digest of `content` in lower-case hexadecimal (`sha2::Sha256` with
/// `{:x}` formatting); the result is the named function of the text.
#[verifier::external_body]
pub fn sha256_hex(content: &str) -> (res: String)
    ensures
        res@ == sha256_hex_of(content@),
{
    let mut hasher = Sha256::new();
    hasher.update(content.as_bytes());
    format!("{:x}", hasher.finalize())
}

} // verus!
