//! The program image: a stream of big-endian 16-bit words, of which the
//! first is the address where the others go.

use crate::bits::{join_bytes, word_of_bytes};
use crate::machine::Machine;
use crate::register::MemMapReg;
use vstd::prelude::*;

verus! {

/// Why a byte stream is no image.
#[derive(Clone, Copy, Debug, PartialEq, Eq, Structural)]
pub enum LoadError {
    /// The stream is empty: there is no origin word.
    MissingOrigin,
    /// The stream ends in the middle of a word.
    TruncatedWord,
}

/// A parsed image.
#[derive(Debug)]
pub struct Image {
    /// The address of the first word.
    pub origin: u16,
    /// The words, in the order in which they are stored.
    pub words: Vec<u16>,
}

/// What is wrong with a byte stream, if anything.
pub open spec fn image_error(bytes: Seq<u8>) -> Option<LoadError> {
    if bytes.len() == 0 {
        Some(LoadError::MissingOrigin)
    } else if bytes.len() % 2 == 1 {
        Some(LoadError::TruncatedWord)
    } else {
        None
    }
}

/// The `i`-th big-endian word of a byte stream.
pub open spec fn word_in(bytes: Seq<u8>, i: int) -> u16 {
    word_of_bytes(bytes[2 * i], bytes[2 * i + 1])
}

/// The origin of an image: its first word.
pub open spec fn image_origin(bytes: Seq<u8>) -> u16 {
    word_in(bytes, 0)
}

/// The words of an image behind the origin.
pub open spec fn image_words(bytes: Seq<u8>) -> Seq<u16> {
    Seq::new((bytes.len() / 2 - 1) as nat, |i: int| word_in(bytes, i + 1))
}

/// The address of the `i`-th word of an image: addresses wrap around
/// at the end of memory.
pub open spec fn image_address(origin: u16, i: int) -> u16 {
    ((origin + i) % 0x1_0000) as u16
}

/// The machine after the words have been written one after the other,
/// starting at the origin.
pub open spec fn load_words(m: Machine, origin: u16, words: Seq<u16>) -> Machine
    decreases words.len(),
{
    if words.len() == 0 {
        m
    } else {
        load_words(m, origin, words.drop_last()).store(
            image_address(origin, words.len() - 1),
            words.last(),
        )
    }
}

/// Splits a byte stream into the origin and the words behind it. The
/// stream must hold a whole number of words, and at least one.
pub fn parse_image(bytes: &[u8]) -> (parsed: Result<Image, LoadError>)
    ensures
        match parsed {
            Ok(image) => {
                &&& image_error(bytes@) is None
                &&& image.origin == image_origin(bytes@)
                &&& image.words@ == image_words(bytes@)
            },
            Err(e) => image_error(bytes@) == Some(e),
        },
{
    let n: usize = bytes.len();
    if n == 0 {
        return Err(LoadError::MissingOrigin);
    }
    if n % 2 == 1 {
        return Err(LoadError::TruncatedWord);
    }
    let origin = join_bytes(bytes[0], bytes[1]);
    let count: usize = n / 2;
    let mut words: Vec<u16> = Vec::new();
    let mut i: usize = 1;
    while i < count
        invariant
            1 <= i <= count,
            count * 2 == bytes.len(),
            words@.len() == i - 1,
            forall|k: int| 0 <= k < i - 1 ==> words@[k] == word_in(bytes@, k + 1),
        decreases count - i,
    {
        words.push(join_bytes(bytes[2 * i], bytes[2 * i + 1]));
        i += 1;
    }
    assert(words@ == image_words(bytes@));
    Ok(Image { origin, words })
}

/// Loading changes memory only: the registers and the prompt mark stay.
pub proof fn lemma_load_keeps_registers(m: Machine, origin: u16, words: Seq<u16>)
    requires
        m.wf(),
    ensures
        load_words(m, origin, words).registers == m.registers,
        load_words(m, origin, words).prompted == m.prompted,
        load_words(m, origin, words).wf(),
    decreases words.len(),
{
    if words.len() > 0 {
        lemma_load_keeps_registers(m, origin, words.drop_last());
    }
}

/// An address that no word of the image goes to keeps its content, and
/// so does a device register.
pub proof fn lemma_load_keeps_other_words(m: Machine, origin: u16, words: Seq<u16>, addr: u16)
    requires
        m.wf(),
        MemMapReg::at(addr) is Some || forall|i: int|
            0 <= i < words.len() ==> image_address(origin, i) != addr,
    ensures
        load_words(m, origin, words).word_at(addr) == m.word_at(addr),
    decreases words.len(),
{
    if words.len() > 0 {
        lemma_load_keeps_registers(m, origin, words.drop_last());
        lemma_load_keeps_other_words(m, origin, words.drop_last(), addr);
    }
}

/// An image of at most 2^16 words is stored contiguously: its `i`-th
/// word is at the origin plus `i`, unless that is a device register.
pub proof fn lemma_load_places_words(m: Machine, origin: u16, words: Seq<u16>, i: int)
    requires
        m.wf(),
        words.len() <= 0x1_0000,
        0 <= i < words.len(),
        MemMapReg::at(image_address(origin, i)) is None,
    ensures
        load_words(m, origin, words).word_at(image_address(origin, i)) == words[i],
    decreases words.len(),
{
    let shorter = words.drop_last();
    lemma_load_keeps_registers(m, origin, shorter);
    if i < words.len() - 1 {
        lemma_load_places_words(m, origin, shorter, i);
        assert(image_address(origin, words.len() - 1) != image_address(origin, i));
    }
}

} // verus!
