//! Short identifiers drawn from the alphanumeric alphabet.

use rand::rngs::ThreadRng;
use rand::Rng;
use vstd::prelude::*;

verus! {

/// Number of characters in every identifier that [`generate`] returns.
pub const ID_LEN: usize = 7;

/// The alphabet of identifiers: the ASCII digits and the ASCII letters of both cases.
pub open spec fn is_alphanumeric(c: char) -> bool {
    ||| '0' <= c <= '9'
    ||| 'A' <= c <= 'Z'
    ||| 'a' <= c <= 'z'
}

/// An identifier of length `len`: exactly `len` characters, each of the alphabet.
pub open spec fn is_identifier(s: Seq<char>, len: nat) -> bool {
    &&& s.len() == len
    &&& forall|i: int| 0 <= i < s.len() ==> is_alphanumeric(#[trigger] s[i])
}

/// The characters that a sequence of sampled bytes stands for, one per byte.
pub open spec fn chars_of(samples: Seq<u8>) -> Seq<char> {
    Seq::new(samples.len(), |i: int| samples[i] as char)
}

/// The thread-local generator of `rand`, carried through as an opaque value.
#[verifier::external_type_specification]
#[verifier::external_body]
pub struct ExThreadRng(ThreadRng);

/// `rand::rng` hands out a handle to the thread-local generator. Nothing is
/// claimed of the handle. The call takes no argument; it fails only where
/// the operating system cannot seed the generator on its first use.
pub assume_specification[ rand::rng ]() -> (rng: ThreadRng);

/// `String::push` appends one character to the end of the string.
pub assume_specification[ String::push ](s: &mut String, c: char)
    ensures
        final(s)@ == old(s)@.push(c),
;

/// One draw of `rand::distr::Alphanumeric` through `Rng::sample`. The
/// distribution picks its byte from a table of the ASCII letters and digits,
/// so whichever byte comes back is one of those; which one is left open, and
/// so is how the draws are distributed.
#[verifier::external_body]
fn sample_alphanumeric(rng: &mut ThreadRng) -> (b: u8)
    ensures
        is_alphanumeric(b as char),
{
    rng.sample(rand::distr::Alphanumeric)
}

/// Spells out sampled bytes as a string, one character per byte.
pub fn from_samples(samples: &Vec<u8>) -> (id: String)
    ensures
        id@ == chars_of(samples@),
{
    let mut id = String::new();
    let mut i: usize = 0;
    while i < samples.len()
        invariant
            i <= samples.len(),
            id@ == chars_of(samples@.take(i as int)),
        decreases samples.len() - i,
    {
        id.push(samples[i] as char);
        i += 1;
        assert(id@ =~= chars_of(samples@.take(i as int)));
    }
    assert(samples@.take(i as int) =~= samples@);
    id
}

/// Draws a fresh identifier of `len` characters from the thread-local generator.
pub fn generate_with_len(len: usize) -> (id: String)
    ensures
        is_identifier(id@, len as nat),
{
    let mut rng = rand::rng();
    let mut samples: Vec<u8> = Vec::new();
    let mut i: usize = 0;
    while i < len
        invariant
            i <= len,
            samples@.len() == i,
            forall|j: int| 0 <= j < samples@.len() ==> is_alphanumeric(#[trigger] samples@[j] as char),
        decreases len - i,
    {
        let b: u8 = sample_alphanumeric(&mut rng);
        samples.push(b);
        i += 1;
    }
    from_samples(&samples)
}

/// Draws a fresh identifier of [`ID_LEN`] characters.
pub fn generate() -> (id: String)
    ensures
        is_identifier(id@, ID_LEN as nat),
{
    generate_with_len(ID_LEN)
}

} // verus!
