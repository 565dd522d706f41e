//! A buffer of bytes for transfer data, read and written as 32-bit words.
//!
//! Words are laid out in little-endian byte order, the order of the
//! platforms this controller sits on.

use vstd::prelude::*;

use super::err::FMempError;

verus! {

/// The word whose little-endian bytes are `bytes[4 * i .. 4 * i + 4]`.
pub open spec fn word_at(bytes: Seq<u8>, i: int) -> u32 {
    (bytes[4 * i] as u32) | ((bytes[4 * i + 1] as u32) << 8u32) | ((bytes[4 * i + 2] as u32) << 16u32)
        | ((bytes[4 * i + 3] as u32) << 24u32)
}

/// The `k`-th little-endian byte of `w`.
pub open spec fn byte_of(w: u32, k: int) -> u8 {
    ((w >> ((8 * k) as u32)) & 0xFFu32) as u8
}

/// The words that the first `4 * n` bytes hold.
pub open spec fn words_of(bytes: Seq<u8>, n: nat) -> Seq<u32> {
    Seq::new(n, |i: int| word_at(bytes, i))
}

/// A word's four little-endian bytes give it back.
pub proof fn lemma_word_bytes(w: u32)
    ensures
        ((byte_of(w, 0) as u32) | ((byte_of(w, 1) as u32) << 8u32) | ((byte_of(w, 2) as u32) << 16u32)
            | ((byte_of(w, 3) as u32) << 24u32)) == w,
{
    assert(((((w >> 0u32) & 0xFFu32) as u8) as u32 | (((((w >> 8u32) & 0xFFu32) as u8) as u32) << 8u32)
        | (((((w >> 16u32) & 0xFFu32) as u8) as u32) << 16u32) | (((((w >> 24u32) & 0xFFu32) as u8) as u32) << 24u32))
        == w) by (bit_vector);
}

/// A buffer for transfer data.
pub struct PoolBuffer {
    bytes: Vec<u8>,
    align: usize,
}

impl PoolBuffer {
    /// The buffer's bytes.
    pub closed spec fn contents(&self) -> Seq<u8> {
        self.bytes@
    }

    /// The alignment the buffer was asked for.
    pub closed spec fn alignment(&self) -> usize {
        self.align
    }

    /// A zeroed buffer of `size` bytes with alignment `align`.
    pub fn new(size: usize, align: usize) -> (r: Result<Self, &'static str>)
        ensures
            r matches Ok(b) && b.contents() == Seq::new(size as nat, |i: int| 0u8) && b.alignment() == align,
    {
        let bytes: Vec<u8> = vec![0u8; size];
        let b = PoolBuffer { bytes, align };
        assert(b.contents() =~= Seq::new(size as nat, |i: int| 0u8));
        Ok(b)
    }

    /// Copy the words of `src` to the start of the buffer (in little-endian
    /// byte order), leaving the rest. A buffer smaller than the words:
    /// an error, with nothing changed.
    pub fn copy_from_slice(&mut self, src: &[u32]) -> (r: Result<(), &'static str>)
        ensures
            old(self).contents().len() < 4 * src@.len() ==> r is Err && final(self).contents() == old(self).contents(),
            old(self).contents().len() >= 4 * src@.len() ==> r is Ok
                && final(self).contents().len() == old(self).contents().len()
                && (forall|i: int| 0 <= i < 4 * src@.len() ==> #[trigger] final(self).contents()[i] == byte_of(src@[i / 4], i % 4))
                && (forall|i: int| 4 * src@.len() <= i < old(self).contents().len() ==> #[trigger] final(self).contents()[i] == old(self).contents()[i]),
            final(self).alignment() == old(self).alignment(),
    {
        if self.bytes.len() / 4 < src.len() {
            return Err("Too small to receive data!");
        }
        let blen = self.bytes.len();
        let mut i: usize = 0;
        while i < src.len()
            invariant
                blen == self.bytes@.len(),
                i <= src@.len(),
                4 * src@.len() <= old(self).contents().len(),
                self.bytes@.len() == old(self).contents().len(),
                self.align == old(self).alignment(),
                forall|j: int| 0 <= j < 4 * i ==> #[trigger] self.bytes@[j] == byte_of(src@[j / 4], j % 4),
                forall|j: int| 4 * i <= j < old(self).contents().len() ==> #[trigger] self.bytes@[j] == old(self).contents()[j],
            decreases src@.len() - i,
        {
            let w = src[i];
            self.bytes.set(4 * i, (w & 0xFF) as u8);
            self.bytes.set(4 * i + 1, ((w >> 8) & 0xFF) as u8);
            self.bytes.set(4 * i + 2, ((w >> 16) & 0xFF) as u8);
            self.bytes.set(4 * i + 3, ((w >> 24) & 0xFF) as u8);
            proof {
                assert(w >> 0u32 == w) by (bit_vector);
                assert forall|j: int| 0 <= j < 4 * (i + 1) implies #[trigger] self.bytes@[j] == byte_of(src@[j / 4], j % 4) by {
                    if j >= 4 * i {
                        assert(j / 4 == i as int);
                    }
                }
            }
            i = i + 1;
        }
        Ok(())
    }

    /// All words of the buffer; `SizeNotAligned` when its size is not a
    /// multiple of 4 bytes.
    pub fn to_vec(&self) -> (r: Result<Vec<u32>, FMempError>)
        ensures
            self.contents().len() % 4 != 0 ==> r == Err::<Vec<u32>, FMempError>(FMempError::SizeNotAligned),
            self.contents().len() % 4 == 0 ==> (r matches Ok(v) && v@ == words_of(self.contents(), self.contents().len() / 4)),
    {
        if self.bytes.len() % 4 != 0 {
            return Err(FMempError::SizeNotAligned);
        }
        let v = self.words(self.bytes.len() / 4);
        Ok(v)
    }

    /// The first `len` words of the buffer; `NotEnoughSpace` when the buffer
    /// is shorter.
    pub fn to_vec_in_len(&self, len: usize) -> (r: Result<Vec<u32>, FMempError>)
        ensures
            4 * len > self.contents().len() ==> r == Err::<Vec<u32>, FMempError>(FMempError::NotEnoughSpace),
            4 * len <= self.contents().len() ==> (r matches Ok(v) && v@ == words_of(self.contents(), len as nat)),
    {
        if len > self.bytes.len() / 4 {
            return Err(FMempError::NotEnoughSpace);
        }
        let v = self.words(len);
        Ok(v)
    }

    fn words(&self, n: usize) -> (v: Vec<u32>)
        requires
            4 * n <= self.contents().len(),
        ensures
            v@ == words_of(self.contents(), n as nat),
    {
        let blen = self.bytes.len();
        let mut v: Vec<u32> = Vec::new();
        let mut i: usize = 0;
        while i < n
            invariant
                blen == self.bytes@.len(),
                i <= n,
                4 * n <= self.bytes@.len(),
                v@ == words_of(self.bytes@, i as nat),
            decreases n - i,
        {
            let w = (self.bytes[4 * i] as u32) | ((self.bytes[4 * i + 1] as u32) << 8) | ((self.bytes[4 * i + 2] as u32) << 16)
                | ((self.bytes[4 * i + 3] as u32) << 24);
            v.push(w);
            i = i + 1;
            assert(v@ =~= words_of(self.bytes@, i as nat));
        }
        v
    }

    /// Zero every byte.
    pub fn clear(&mut self)
        ensures
            final(self).contents() == Seq::new(old(self).contents().len(), |i: int| 0u8),
            final(self).alignment() == old(self).alignment(),
    {
        let mut i: usize = 0;
        while i < self.bytes.len()
            invariant
                i <= self.bytes@.len(),
                self.bytes@.len() == old(self).contents().len(),
                self.align == old(self).alignment(),
                forall|j: int| 0 <= j < i ==> #[trigger] self.bytes@[j] == 0u8,
            decreases self.bytes@.len() - i,
        {
            self.bytes.set(i, 0);
            i = i + 1;
        }
        assert(self.bytes@ =~= Seq::new(old(self).contents().len(), |i: int| 0u8));
    }

    /// The buffer's size in bytes.
    pub fn size(&self) -> (r: usize)
        ensures
            r == self.contents().len(),
    {
        self.bytes.len()
    }
}

/// Words copied into a large enough buffer are what its first words read
/// back.
pub proof fn lemma_copy_then_read(before: Seq<u8>, after: Seq<u8>, src: Seq<u32>)
    requires
        4 * src.len() <= before.len(),
        after.len() == before.len(),
        forall|i: int| 0 <= i < 4 * src.len() ==> #[trigger] after[i] == byte_of(src[i / 4], i % 4),
    ensures
        words_of(after, src.len()) == src,
{
    assert forall|k: int| 0 <= k < src.len() implies #[trigger] word_at(after, k) == src[k] by {
        assert(after[4 * k] == byte_of(src[k], 0));
        assert(after[4 * k + 1] == byte_of(src[k], 1));
        assert(after[4 * k + 2] == byte_of(src[k], 2));
        assert(after[4 * k + 3] == byte_of(src[k], 3));
        lemma_word_bytes(src[k]);
    }
    assert(words_of(after, src.len()) =~= src);
}

} // verus!
