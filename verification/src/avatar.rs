//! Avatar references: derived from the email address alone, by way of the
//! `md5` crate.

use vstd::prelude::*;
use vstd::string::StringExecFns;

verus! {

/// The MD5 digest of a text's UTF-8 bytes in lower-case hexadecimal: what
/// `md5::compute` returns, written with `{:x}`.
pub uninterp spec fn md5_hex(text: Seq<char>) -> Seq<char>;

/// Whether `c` is a hexadecimal digit in lower case.
pub open spec fn is_lower_hex_digit(c: char) -> bool {
    ('0' <= c && c <= '9') || ('a' <= c && c <= 'f')
}

/// Whether a text is a digest as the crate writes it: thirty-two
/// hexadecimal digits in lower case.
pub open spec fn is_hex_digest(s: Seq<char>) -> bool {
    s.len() == 32 && forall|i: int| 0 <= i < s.len() ==> is_lower_hex_digit(#[trigger] s[i])
}

/// Calls `md5::compute` on the text's UTF-8 bytes and writes the digest
/// with `{:x}`. The result is a function of the text alone. The digest has
/// sixteen bytes and the crate writes each as two hexadecimal digits in
/// lower case.
#[verifier::external_body]
pub(crate) fn md5_digest_hex(text: &str) -> (hex: String)
    ensures
        hex@ == md5_hex(text@),
        is_hex_digest(hex@),
{
    format!("{:x}", md5::compute(text.as_bytes()))
}

/// Where avatars are served from.
pub open spec fn avatar_base() -> Seq<char> {
    "https://www.gravatar.com/avatar/"@
}

/// The avatar reference of an email address: the avatar base followed by
/// the digest of the address, thirty-two hexadecimal digits. The same
/// address always gives the same reference.
pub fn avatar_url(email: &str) -> (url: String)
    ensures
        url@ == avatar_base() + md5_hex(email@),
        is_hex_digest(md5_hex(email@)),
        url@.len() == avatar_base().len() + 32,
{
    let digest: String = md5_digest_hex(email);
    let mut url: String = String::from_str("https://www.gravatar.com/avatar/");
    url.append(digest.as_str());
    url
}

} // verus!
