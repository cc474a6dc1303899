//! Laying random words out as random bytes, for the source of randomness
//! that the device registers.

use vstd::prelude::*;

verus! {

/// The byte at `index` of the big-endian form of a word: index 0 is the
/// most significant byte.
pub open spec fn be_byte(word: u32, index: int) -> u8 {
    if index == 0 {
        (word / 0x100_0000) as u8
    } else if index == 1 {
        (word / 0x1_0000 % 0x100) as u8
    } else if index == 2 {
        (word / 0x100 % 0x100) as u8
    } else {
        (word % 0x100) as u8
    }
}

fn byte_of(word: u32, index: usize) -> (byte: u8)
    requires
        index < 4,
    ensures
        byte == be_byte(word, index as int),
{
    if index == 0 {
        (word / 0x100_0000) as u8
    } else if index == 1 {
        (word / 0x1_0000 % 0x100) as u8
    } else if index == 2 {
        (word / 0x100 % 0x100) as u8
    } else {
        (word % 0x100) as u8
    }
}

/// Fills `len` bytes from a row of words: each word gives four bytes, most
/// significant first, and of the last word only as many as are asked for.
pub fn fill_from_words(len: usize, words: &Vec<u32>) -> (bytes: Vec<u8>)
    requires
        words@.len() * 4 >= len,
    ensures
        bytes@.len() == len,
        forall|i: int| 0 <= i < len ==> bytes@[i] == be_byte(words@[i / 4], i % 4),
{
    let mut bytes: Vec<u8> = Vec::new();
    let mut i: usize = 0;
    while i < len
        invariant
            i <= len,
            words@.len() * 4 >= len,
            bytes@.len() == i,
            forall|k: int| 0 <= k < i ==> bytes@[k] == be_byte(words@[k / 4], k % 4),
        decreases len - i,
    {
        bytes.push(byte_of(words[i / 4], i % 4));
        i += 1;
    }
    bytes
}

/// The number of words that `len` bytes are filled from.
pub fn words_for(len: usize) -> (count: usize)
    ensures
        count * 4 >= len,
        count == (len + 3) / 4,
{
    len / 4 + if len % 4 == 0 {
        0
    } else {
        1
    }
}

} // verus!
