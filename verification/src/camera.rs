//! The record of a camera that a shader reads.
//!
//! A shader reads single-precision numbers, so each field here is a word
//! that holds the bits of one. This crate computes none of them: whoever
//! builds the view-projection matrix from a camera snapshot hands the words
//! in, and the record lays them out.
use vstd::prelude::*;

verus! {

/// The bits of the single-precision number one.
pub const ONE: u32 = 0x3f80_0000;

/// The bits of the single-precision number zero.
pub const ZERO: u32 = 0;

/// Number of words in the record.
pub const WORDS: usize = 20;

/// Number of bytes in the record.
pub const BYTES: usize = 80;

/// Eye position and view-projection matrix, in the layout of the shader's
/// uniform block: twenty words, eighty bytes, no padding.
#[derive(Clone, Copy, Debug, PartialEq, Eq)]
pub struct CameraUniform {
    /// The eye in homogeneous coordinates. The fourth word completes the
    /// sixteen-byte alignment of the block.
    pub view_position: [u32; 4],
    /// The view-projection matrix, one inner array per column.
    pub view_proj: [[u32; 4]; 4],
}

/// The words of the identity matrix.
pub open spec fn identity() -> Seq<Seq<u32>> {
    seq![
        seq![ONE, ZERO, ZERO, ZERO],
        seq![ZERO, ONE, ZERO, ZERO],
        seq![ZERO, ZERO, ONE, ZERO],
        seq![ZERO, ZERO, ZERO, ONE],
    ]
}

/// The four bytes of a word, least significant first.
pub open spec fn word_bytes(w: u32) -> Seq<u8> {
    seq![
        (w % 0x100) as u8,
        (w / 0x100 % 0x100) as u8,
        (w / 0x1_0000 % 0x100) as u8,
        (w / 0x100_0000) as u8,
    ]
}

/// The bytes of a run of words: four for each word, in the order of the
/// words.
pub open spec fn bytes_of(words: Seq<u32>) -> Seq<u8>
    decreases words.len(),
{
    if words.len() == 0 {
        Seq::empty()
    } else {
        bytes_of(words.drop_last()) + word_bytes(words.last())
    }
}

impl CameraUniform {
    /// The matrix as a sequence of its columns.
    pub open spec fn columns(self) -> Seq<Seq<u32>> {
        Seq::new(4, |i: int| self.view_proj@[i]@)
    }

    /// The words of the record in the order of its layout: the eye, then the
    /// matrix column by column.
    pub open spec fn words(self) -> Seq<u32> {
        self.view_position@ + self.view_proj@[0]@ + self.view_proj@[1]@ + self.view_proj@[2]@
            + self.view_proj@[3]@
    }

    /// Overwrites the record with a camera's eye position and
    /// view-projection matrix. The eye becomes a point: its fourth
    /// coordinate is one.
    pub fn update_view_proj(&mut self, eye: [u32; 3], view_proj: [[u32; 4]; 4])
        ensures
            final(self).view_position@ == seq![eye@[0], eye@[1], eye@[2], ONE],
            final(self).view_proj == view_proj,
    {
        self.view_position = [eye[0], eye[1], eye[2], ONE];
        self.view_proj = view_proj;
        assert(self.view_position@ =~= seq![eye@[0], eye@[1], eye@[2], ONE]);
    }

    /// The record as the bytes that go to the shader: each word of
    /// [`Self::words`] in turn, least significant byte first.
    pub fn to_bytes(&self) -> (bytes: Vec<u8>)
        ensures
            bytes@ == bytes_of(self.words()),
            bytes@.len() == BYTES,
    {
        let mut bytes: Vec<u8> = Vec::new();
        assert(self.words().take(0) =~= Seq::<u32>::empty());
        let mut i: usize = 0;
        while i < WORDS
            invariant
                i <= WORDS,
                self.words().len() == WORDS,
                bytes@ == bytes_of(self.words().take(i as int)),
                bytes@.len() == 4 * i,
            decreases WORDS - i,
        {
            let w: u32 = if i < 4 {
                self.view_position[i]
            } else {
                self.view_proj[(i - 4) / 4][(i - 4) % 4]
            };
            assert(w == self.words()[i as int]);
            bytes.push((w % 0x100) as u8);
            bytes.push((w / 0x100 % 0x100) as u8);
            bytes.push((w / 0x1_0000 % 0x100) as u8);
            bytes.push((w / 0x100_0000) as u8);
            proof {
                let before = self.words().take(i as int);
                let after = self.words().take(i as int + 1);
                assert(after.drop_last() =~= before);
                assert(after.last() == w);
                assert(bytes@ =~= bytes_of(before) + word_bytes(w));
            }
            i = i + 1;
        }
        assert(self.words().take(WORDS as int) =~= self.words());
        bytes
    }
}

impl Default for CameraUniform {
    /// A record with the eye at the zero vector and the identity matrix.
    fn default() -> (uniform: Self)
        ensures
            uniform.view_position@ == seq![ZERO, ZERO, ZERO, ZERO],
            uniform.columns() == identity(),
    {
        let uniform = CameraUniform {
            view_position: [ZERO, ZERO, ZERO, ZERO],
            view_proj: [
                [ONE, ZERO, ZERO, ZERO],
                [ZERO, ONE, ZERO, ZERO],
                [ZERO, ZERO, ONE, ZERO],
                [ZERO, ZERO, ZERO, ONE],
            ],
        };
        assert(uniform.view_position@ =~= seq![ZERO, ZERO, ZERO, ZERO]);
        assert(uniform.columns() =~~= identity());
        uniform
    }
}

/// The byte at a place in the layout is the byte of the word it falls in:
/// byte `j` of word `k` stands at `4 * k + j`.
pub proof fn lemma_bytes_of_index(words: Seq<u32>, k: int, j: int)
    requires
        0 <= k < words.len(),
        0 <= j < 4,
    ensures
        bytes_of(words).len() == 4 * words.len(),
        bytes_of(words)[4 * k + j] == word_bytes(words[k])[j],
    decreases words.len(),
{
    lemma_bytes_of_len(words);
    lemma_bytes_of_len(words.drop_last());
    if k < words.len() - 1 {
        lemma_bytes_of_index(words.drop_last(), k, j);
    }
}

/// The layout has four bytes for each word.
pub proof fn lemma_bytes_of_len(words: Seq<u32>)
    ensures
        bytes_of(words).len() == 4 * words.len(),
    decreases words.len(),
{
    if words.len() > 0 {
        lemma_bytes_of_len(words.drop_last());
    }
}

} // verus!
