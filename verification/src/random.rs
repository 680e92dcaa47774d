//! Keys drawn at random.
use rand::distributions::{Alphanumeric, DistString};
use vstd::prelude::*;

use crate::types::Key;

verus! {

/// The number of characters of an account's key.
pub const ACCOUNT_KEY_LENGTH: usize = 16;

/// The number of characters of the key that a project is created with.
pub const INITIAL_KEY_LENGTH: usize = 32;

/// `c` is one of the letters `A` to `Z` and `a` to `z` or the digits `0` to
/// `9`.
pub open spec fn alphanumeric(c: char) -> bool {
    ('A' <= c && c <= 'Z') || ('a' <= c && c <= 'z') || ('0' <= c && c <= '9')
}

/// `text` has `len` characters, letters and digits all of them.
pub open spec fn alphanumeric_text(text: Seq<char>, len: nat) -> bool {
    text.len() == len && forall|i: int| 0 <= i < text.len() ==> alphanumeric(#[trigger] text[i])
}

/// Calls `Alphanumeric.sample_string` with the thread's random number
/// generator. Claimed of every outcome: `len` characters, each of them an
/// ASCII letter or digit. Which ones they are is a matter of chance, and
/// nothing is claimed of it.
#[verifier::external_body]
pub(crate) fn sample_alphanumeric(len: usize) -> (text: String)
    requires
        len <= isize::MAX,
    ensures
        alphanumeric_text(text@, len as nat),
{
    Alphanumeric.sample_string(&mut rand::thread_rng(), len)
}

/// `text` was drawn: a call of [`sample_alphanumeric`] for `len` characters gave
/// it.
pub closed spec fn drawn(text: String, len: usize) -> bool {
    call_ensures(sample_alphanumeric, (len,), text)
}

/// What `source` gives for `len`.
fn obtain<F: Fn(usize) -> String>(source: F, len: usize) -> (text: String)
    requires
        call_requires(source, (len,)),
    ensures
        call_ensures(source, (len,), text),
{
    source(len)
}

/// A text of `len` letters and digits, drawn for the caller.
pub(crate) fn draw(len: usize) -> (text: String)
    requires
        len <= isize::MAX,
    ensures
        drawn(text, len),
        alphanumeric_text(text@, len as nat),
{
    obtain(sample_alphanumeric, len)
}

impl Key {
    /// A fresh key for an account.
    pub fn new_random() -> (key: Key)
        ensures
            drawn(key.0, ACCOUNT_KEY_LENGTH),
            alphanumeric_text(key@, ACCOUNT_KEY_LENGTH as nat),
    {
        Key(draw(ACCOUNT_KEY_LENGTH))
    }
}

/// What was drawn came from the random number generator, and has the length that
/// was asked for, letters and digits throughout.
pub(crate) proof fn drawn_texts_are_sampled(text: String, len: usize)
    requires
        drawn(text, len),
    ensures
        call_ensures(sample_alphanumeric, (len,), text),
        alphanumeric_text(text@, len as nat),
{
}

} // verus!
