//! Tokens: the random names under which a bulk transfer is announced.

use vstd::prelude::*;
use vstd::string::*;
use rand::Rng;
use rand::distributions::Alphanumeric;

verus! {

/// The number of characters of a token.
pub const TOKEN_LENGTH: usize = 64;

/// Whether `c` is an ASCII letter or digit.
pub open spec fn is_alphanumeric(c: char) -> bool {
    ('0' <= c <= '9') || ('A' <= c <= 'Z') || ('a' <= c <= 'z')
}

/// Whether `text` has the form of a token: 64 ASCII letters and digits.
pub open spec fn is_token(text: Seq<char>) -> bool {
    &&& text.len() == TOKEN_LENGTH
    &&& forall|i: int| 0 <= i < text.len() ==> is_alphanumeric(#[trigger] text[i])
}

/// One sample of `rand::distributions::Alphanumeric` from the thread's
/// generator (`rand::thread_rng`, `Rng::sample`): whatever is drawn is one
/// of the ASCII letters and digits.
#[verifier::external_body]
fn random_alphanumeric() -> (c: char)
    ensures
        is_alphanumeric(c),
{
    char::from(rand::thread_rng().sample(Alphanumeric))
}

/// A fresh random token.
pub fn random_token() -> (token: String)
    ensures
        is_token(token@),
{
    let mut token = String::new();
    let mut i: usize = 0;
    while i < TOKEN_LENGTH
        invariant
            i <= TOKEN_LENGTH,
            token@.len() == i,
            forall|j: int| 0 <= j < token@.len() ==> is_alphanumeric(#[trigger] token@[j]),
        decreases TOKEN_LENGTH - i,
    {
        let c = random_alphanumeric();
        token.push(c);
        i += 1;
    }
    token
}

} // verus!
