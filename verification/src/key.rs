//! Generating a shared secret for a proxy that was configured without one.

use crate::encode::is_alphanumeric;
use vstd::prelude::*;
use vstd::utf8::*;

verus! {

/// Draws one ASCII letter or digit at random.
///
/// Calls `rand::Rng::sample` on the thread's generator, `rand::rng()`, with the
/// distribution `rand::distr::Alphanumeric`, which the crate documents as
/// uniform over `a-z`, `A-Z` and `0-9`. Which of them comes is left open.
#[verifier::external_body]
fn sample_alphanumeric() -> (b: u8)
    ensures
        is_alphanumeric(b),
{
    rand::Rng::sample(&mut rand::rng(), rand::distr::Alphanumeric)
}

/// Appends one character to a string, with `String::push`.
#[verifier::external_body]
fn push_char(text: &mut String, c: char)
    ensures
        final(text)@ == old(text)@.push(c),
{
    text.push(c)
}

/// An ASCII letter or digit, as a character.
pub open spec fn is_alphanumeric_char(c: char) -> bool {
    ('0' <= c <= '9') || ('A' <= c <= 'Z') || ('a' <= c <= 'z')
}

/// A text of the given length that holds only ASCII letters and digits.
pub open spec fn is_key_of(key: Seq<char>, len: nat) -> bool {
    &&& key.len() == len
    &&& forall|i: int| 0 <= i < key.len() ==> is_alphanumeric_char(#[trigger] key[i])
}

/// Generates a random key of `len` ASCII letters and digits. Which key comes
/// is left to chance; its length and its alphabet are not.
pub fn generate_key(len: usize) -> (key: String)
    ensures
        is_key_of(key@, len as nat),
        encode_utf8(key@).len() == len,
{
    let mut key = String::new();
    let mut i: usize = 0;
    while i < len
        invariant
            i <= len,
            is_key_of(key@, i as nat),
        decreases len - i,
    {
        let b = sample_alphanumeric();
        push_char(&mut key, b as char);
        i += 1;
    }
    proof {
        lemma_key_bytes(key@, len as nat);
    }
    key
}

/// A key takes as many bytes as it has characters.
pub proof fn lemma_key_bytes(key: Seq<char>, len: nat)
    requires
        is_key_of(key, len),
    ensures
        encode_utf8(key).len() == len,
{
    assert(is_ascii_chars(key)) by {
        assert forall|i: int| 0 <= i < key.len() implies '\0' <= #[trigger] key[i] <= '\u{7f}' by {
            assert(is_alphanumeric_char(key[i]));
        }
    }
    is_ascii_chars_encode_utf8(key);
}

} // verus!
