//! Interaction identifiers: random fixed-length alphanumeric tokens that
//! tie a keyboard to the callbacks its buttons produce.

use vstd::prelude::*;
use crate::text::{count_char, lemma_count_char_zero};
use rand::Rng;

verus! {

/// A character drawn from the ASCII letters or digits.
pub open spec fn is_alphanumeric_char(c: char) -> bool {
    ('a' <= c && c <= 'z') || ('A' <= c && c <= 'Z') || ('0' <= c && c <= '9')
}

/// A well-formed interaction identifier: fixed length, letters and digits
/// only.
pub open spec fn is_token(s: Seq<char>) -> bool {
    s.len() == crate::TOKEN_LEN && (forall|i: int|
        0 <= i < s.len() ==> is_alphanumeric_char(#[trigger] s[i]))
}

/// An identifier never contains the payload delimiter: letters and digits
/// exclude the underscore.
pub proof fn lemma_token_free_of_delimiter(s: Seq<char>)
    requires
        is_token(s),
    ensures
        count_char(s, crate::DELIMITER) == 0,
{
    lemma_count_char_zero(s, crate::DELIMITER);
    assert forall|i: int| 0 <= i < s.len() implies s[i] != crate::DELIMITER by {
        assert(is_alphanumeric_char(s[i]));
    }
}

/// Relies on rand's `Alphanumeric` distribution: every sampled byte is one
/// of `A`-`Z`, `a`-`z` or `0`-`9`, so collecting `len` of them as chars
/// gives a string of exactly `len` ASCII letters or digits. Nothing is
/// assumed about which ones come out.
#[verifier::external_body]
pub(crate) fn random_alphanumeric(len: usize) -> (r: String)
    ensures
        r@.len() == len,
        forall|i: int| 0 <= i < r@.len() ==> is_alphanumeric_char(#[trigger] r@[i]),
{
    rand::thread_rng().sample_iter(&rand::distributions::Alphanumeric).take(len).map(
        char::from,
    ).collect()
}

} // verus!
