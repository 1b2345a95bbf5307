//! Binary images: big-endian 16-bit words, the first of them the origin
//! address at which the rest is placed.
use vstd::prelude::*;

use crate::memory::Memory;
use crate::word::{add_wrapping, wrap_add};

verus! {

/// Why a byte string is not an image.
#[derive(Debug, Clone, Copy, PartialEq, Eq, Structural)]
pub enum ImageError {
    /// Fewer than two bytes: no origin word.
    MissingOrigin,
    /// An odd number of bytes: the last word is cut short.
    Truncated,
}

/// The big-endian word at word position `i` of `bytes`.
pub open spec fn be_word(bytes: Seq<u8>, i: int) -> u16 {
    (bytes[2 * i] as int * 256 + bytes[2 * i + 1] as int) as u16
}

/// The words of an image, two bytes each.
pub open spec fn image_words(bytes: Seq<u8>) -> Seq<u16> {
    Seq::new((bytes.len() / 2) as nat, |i: int| be_word(bytes, i))
}

/// Memory after `words` are written one after another from `addr` on,
/// wrapping at the end of the address space.
pub open spec fn placed(mem: Seq<u16>, addr: u16, words: Seq<u16>) -> Seq<u16>
    decreases words.len(),
{
    if words.len() == 0 {
        mem
    } else {
        placed(mem.update(addr as int, words[0]), wrap_add(addr, 1), words.drop_first())
    }
}

/// Loads the image `bytes` into `memory` and returns its origin: the
/// first word is the origin, each later word goes to the next address.
/// Nothing is written when the image is refused.
pub fn load_image(bytes: &Vec<u8>, memory: &mut Memory) -> (r: Result<u16, ImageError>)
    requires
        old(memory).wf(),
    ensures
        final(memory).wf(),
        bytes@.len() < 2 ==> r == Err::<u16, ImageError>(ImageError::MissingOrigin),
        bytes@.len() >= 2 && bytes@.len() % 2 == 1 ==> r == Err::<u16, ImageError>(
            ImageError::Truncated,
        ),
        r is Err ==> final(memory)@ == old(memory)@,
        bytes@.len() >= 2 && bytes@.len() % 2 == 0 ==> ({
            let words = image_words(bytes@);
            &&& r == Ok::<u16, ImageError>(words[0])
            &&& final(memory)@ == placed(old(memory)@, words[0], words.drop_first())
        }),
{
    let n = bytes.len();
    if n < 2 {
        return Err(ImageError::MissingOrigin);
    }
    if n % 2 == 1 {
        return Err(ImageError::Truncated);
    }
    let ghost words = image_words(bytes@);
    let ghost m0 = memory@;
    let origin = word_at(bytes, 0);
    let mut address: u16 = origin;
    let mut j: usize = 2;
    while j < n
        invariant
            n == bytes@.len(),
            n % 2 == 0,
            2 <= j <= n,
            j % 2 == 0,
            words == image_words(bytes@),
            origin == words[0],
            memory.wf(),
            placed(m0, origin, words.drop_first()) == placed(memory@, address, words.skip(j as int / 2)),
        decreases n - j,
    {
        let w = word_at(bytes, j);
        proof {
            assert(words.skip(j as int / 2).drop_first() =~= words.skip(j as int / 2 + 1));
            assert(words.skip(j as int / 2)[0] == w);
        }
        memory.write(address, w);
        address = add_wrapping(address, 1);
        j = j + 2;
    }
    assert(words.skip(j as int / 2) =~= Seq::<u16>::empty());
    assert(words.drop_first() =~= words.skip(1));
    Ok(origin)
}

/// The big-endian word at bytes `j` and `j + 1`.
fn word_at(bytes: &Vec<u8>, j: usize) -> (r: u16)
    requires
        j % 2 == 0,
        j + 1 < bytes@.len(),
    ensures
        r == be_word(bytes@, j as int / 2),
{
    let hi = bytes[j];
    let lo = bytes[j + 1];
    assert(((hi as u16) << 8u16) | (lo as u16) == (hi as u16) * 256 + (lo as u16)) by (bit_vector);
    ((hi as u16) << 8u16) | (lo as u16)
}

} // verus!
