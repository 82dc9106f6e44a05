//! A byte buffer that collects formatted text.
//!
//! The writer owns a fixed buffer and an index past the bytes written
//! so far.  Writing appends the bytes of a string while at least one
//! spare byte would remain; otherwise it fails and leaves the buffer
//! untouched.

use vstd::prelude::*;
use vstd::slice::slice_subrange;
use vstd::std_specs::vec::vec_index_mut;
use vstd::string::StringSliceAdditionalSpecFns;

verus! {

/// The low byte of a character's scalar value: what the writer stores
/// for each character.
pub open spec fn char_low_byte(c: char) -> u8 {
    ((c as u32) % 256) as u8
}

/// A character encodes to at least one byte, so a string never has
/// more characters than bytes.
proof fn lemma_char_count_le_byte_count(chars: Seq<char>)
    ensures
        vstd::utf8::encode_utf8(chars).len() >= chars.len(),
    decreases chars.len(),
{
    if chars.len() > 0 {
        lemma_char_count_le_byte_count(chars.drop_first());
        assert(vstd::utf8::encode_scalar(chars[0] as u32).len() >= 1);
    }
}

/// Collects bytes into a fixed-size buffer.
pub struct BufWriter {
    data: Vec<u8>,
    next_buf_idx: usize,
}

impl BufWriter {
    /// The whole backing buffer.
    pub closed spec fn spec_data(self) -> Seq<u8> {
        self.data@
    }

    /// Index one past the last written byte.
    pub closed spec fn spec_next(self) -> int {
        self.next_buf_idx as int
    }

    /// The write index never leaves the buffer.
    pub open spec fn wf(self) -> bool {
        self.spec_next() <= self.spec_data().len()
    }

    /// Wraps a buffer; writing starts at its beginning.
    pub fn new(buf: Vec<u8>) -> (r: BufWriter)
        ensures
            r.wf(),
            r.spec_data() == buf@,
            r.spec_next() == 0,
    {
        BufWriter { data: buf, next_buf_idx: 0 }
    }

    /// The bytes written so far.
    pub fn get_bytes(&self) -> (r: &[u8])
        requires
            self.wf(),
        ensures
            r@ == self.spec_data().subrange(0, self.spec_next()),
    {
        slice_subrange(self.data.as_slice(), 0, self.next_buf_idx)
    }

    /// Replaces the backing buffer and rewinds the write index.
    pub fn re_init_buf(&mut self, buf: Vec<u8>)
        ensures
            final(self).wf(),
            final(self).spec_data() == buf@,
            final(self).spec_next() == 0,
    {
        self.data = buf;
        self.next_buf_idx = 0;
    }

    /// Rewinds the write index; the buffer's bytes stay as they are.
    pub fn clear_buf(&mut self)
        ensures
            final(self).wf(),
            final(self).spec_data() == old(self).spec_data(),
            final(self).spec_next() == 0,
    {
        self.next_buf_idx = 0;
    }

    /// Appends the characters of `s`, each truncated to its low byte,
    /// and advances the write index by the character count.  Fails,
    /// leaving the writer untouched, unless a write of the string's
    /// byte length would leave at least one spare byte at the
    /// buffer's end.
    pub fn write_str(&mut self, s: &str) -> (r: Result<(), ()>)
        requires
            old(self).wf(),
            old(self).spec_data().len() >= 1,
        ensures
            final(self).wf(),
            final(self).spec_data().len() == old(self).spec_data().len(),
            r is Err <==> old(self).spec_next() + s.spec_bytes().len() + 1 >= old(self).spec_data().len(),
            r is Err ==> *final(self) == *old(self),
            r is Ok ==> {
                &&& final(self).spec_next() == old(self).spec_next() + s@.len()
                &&& forall|k: int|
                    0 <= k < old(self).spec_next() ==> final(self).spec_data()[k] == old(self)
                        .spec_data()[k]
                &&& forall|k: int|
                    0 <= k < s@.len() ==> final(self).spec_data()[old(self).spec_next() + k]
                        == char_low_byte(s@[k])
                &&& forall|k: int|
                    old(self).spec_next() + s@.len() <= k < final(self).spec_data().len()
                        ==> final(self).spec_data()[k] == old(self).spec_data()[k]
            },
    {
        let blen = s.as_bytes().len();
        let total = self.next_buf_idx as u128 + blen as u128;
        if total >= self.data.len() as u128 - 1 {
            return Err(());
        }
        proof {
            lemma_char_count_le_byte_count(s@);
            vstd::string::axiom_spec_iter(s);
        }
        for c in it: s.chars()
            invariant
                it.seq() =~= s@,
                s@.len() <= blen,
                blen == s.spec_bytes().len(),
                self.next_buf_idx == old(self).spec_next() + it.index(),
                old(self).spec_next() + blen + 1 < old(self).spec_data().len(),
                self.spec_data().len() == old(self).spec_data().len(),
                forall|k: int|
                    0 <= k < old(self).spec_next() ==> self.spec_data()[k] == old(self).spec_data()[
                        k
                    ],
                forall|k: int|
                    0 <= k < it.index() ==> self.spec_data()[old(self).spec_next() + k]
                        == char_low_byte(s@[k]),
                forall|k: int|
                    old(self).spec_next() + it.index() <= k < self.spec_data().len()
                        ==> self.spec_data()[k] == old(self).spec_data()[k],
        {
            let dl = self.data.len();
            assert(self.next_buf_idx < dl);
            let b = ((c as u32) % 256) as u8;
            *vec_index_mut(&mut self.data, self.next_buf_idx) = b;
            self.next_buf_idx = self.next_buf_idx + 1;
        }
        Ok(())
    }
}

} // verus!
