//! A fixed-size string buffer for log output.

use vstd::prelude::*;

use vstd::string::StringSliceAdditionalSpecFns;
use vstd::utf8::is_char_boundary;
use vstd::utf8::valid_utf8;

use crate::fmt::Error;

verus! {

/// Relies on std's `str::from_utf8`: `Ok` exactly when the bytes are valid
/// UTF-8, and then the returned string's bytes are the input bytes.
#[verifier::external_body]
fn bytes_as_str(bytes: &[u8]) -> (r: Option<&str>)
    ensures
        r is Some <==> valid_utf8(bytes@),
        r matches Some(s) ==> s.spec_bytes() == bytes@,
{
    core::str::from_utf8(bytes).ok()
}

/// A fixed-size buffer holding the bytes of a string.
///
/// Writes that do not fit are silently truncated at a character boundary, so
/// the buffer always holds valid UTF-8: a whole-character prefix of everything
/// written into it.
pub struct FixedBuf<const N: usize> {
    buf: Vec<u8>,
}

impl<const N: usize> View for FixedBuf<N> {
    type V = Seq<u8>;

    closed spec fn view(&self) -> Seq<u8> {
        self.buf@
    }
}

impl<const N: usize> FixedBuf<N> {
    /// Well-formedness: the buffer never holds more than `N` bytes, and what
    /// it holds is valid UTF-8.
    pub closed spec fn wf(&self) -> bool {
        self.buf@.len() <= N && valid_utf8(self.buf@)
    }

    /// Creates an empty buffer.
    pub fn new() -> (r: Self)
        ensures
            r.wf(),
            r@ == Seq::<u8>::empty(),
    {
        FixedBuf { buf: Vec::new() }
    }

    /// Gets the buffer contents as a string.
    pub fn as_str(&self) -> (r: &str)
        requires
            self.wf(),
        ensures
            r.spec_bytes() == self@,
    {
        match bytes_as_str(self.buf.as_slice()) {
            Some(s) => s,
            None => unreached(),
        }
    }

    /// Resets the buffer state.
    pub fn clear(&mut self)
        ensures
            final(self).wf(),
            final(self)@ == Seq::<u8>::empty(),
    {
        self.buf.clear();
    }

    /// Gets the number of remaining bytes in the buffer.
    pub fn remaining(&self) -> (r: usize)
        requires
            self.wf(),
        ensures
            r == N - self@.len(),
    {
        N - self.buf.len()
    }

    /// Appends the longest prefix of `s` that both fits in the remaining space
    /// and ends on a character boundary. All of `s` is appended whenever all
    /// of it fits; overflow truncates silently and is never an error.
    pub fn write_str(&mut self, s: &str) -> (r: Result<(), Error>)
        requires
            old(self).wf(),
        ensures
            final(self).wf(),
            r is Ok,
            exists|k: int|
                0 <= k <= s.spec_bytes().len() && final(self)@ == old(self)@
                    + s.spec_bytes().subrange(0, k) && #[trigger] is_char_boundary(
                    s.spec_bytes(),
                    k,
                ) && (forall|j: int|
                    k < j <= s.spec_bytes().len() && old(self)@.len() + j <= N
                        ==> !is_char_boundary(s.spec_bytes(), j)),
            old(self)@.len() + s.spec_bytes().len() <= N ==> final(self)@ == old(self)@
                + s.spec_bytes(),
    {
        proof {
            vstd::utf8::encode_utf8_valid_utf8(s@);
            vstd::utf8::is_char_boundary_start_end_of_seq(s.spec_bytes());
        }
        let remaining = N - self.buf.len();
        let bytes = s.as_bytes();
        let mut end: usize = bytes.len();
        if end > remaining {
            end = remaining;
            while end > 0 && !s.is_char_boundary(end)
                invariant
                    end <= remaining <= N - old(self)@.len(),
                    end <= s.spec_bytes().len(),
                    forall|j: int|
                        end < j <= remaining && j <= s.spec_bytes().len()
                            ==> !is_char_boundary(s.spec_bytes(), j),
                decreases end,
            {
                end = end - 1;
            }
        }
        proof {
            if end == 0 {
                assert(is_char_boundary(s.spec_bytes(), 0));
            }
            assert(is_char_boundary(s.spec_bytes(), end as int));
        }
        let ghost appended = s.spec_bytes().subrange(0, end as int);
        let mut i: usize = 0;
        while i < end
            invariant
                i <= end,
                end <= s.spec_bytes().len(),
                end as nat <= N - old(self)@.len(),
                bytes@ == s.spec_bytes(),
                self.buf@ == old(self)@ + s.spec_bytes().subrange(0, i as int),
            decreases end - i,
        {
            self.buf.push(bytes[i]);
            proof {
                assert(self.buf@ =~= old(self)@ + s.spec_bytes().subrange(0, i + 1));
            }
            i = i + 1;
        }
        proof {
            vstd::utf8::valid_utf8_split(s.spec_bytes(), end as int);
            vstd::utf8::valid_utf8_concat(old(self)@, appended);
            assert(self.buf@ == old(self)@ + appended);
            if old(self)@.len() + s.spec_bytes().len() <= N {
                assert(self.buf@ =~= old(self)@ + s.spec_bytes());
            }
        }
        Ok(())
    }
}

impl<const N: usize> Default for FixedBuf<N> {
    /// An empty buffer.
    fn default() -> (r: Self)
        ensures
            r.wf(),
            r@ == Seq::<u8>::empty(),
    {
        FixedBuf::new()
    }
}

/// A string writer over a fixed-size buffer.
pub struct FixedBufWriter<const N: usize> {
    buf: FixedBuf<N>,
}

impl<const N: usize> View for FixedBufWriter<N> {
    type V = Seq<u8>;

    closed spec fn view(&self) -> Seq<u8> {
        self.buf@
    }
}

impl<const N: usize> FixedBufWriter<N> {
    /// Well-formedness of the underlying buffer.
    pub closed spec fn wf(&self) -> bool {
        self.buf.wf()
    }

    /// Creates a `FixedBufWriter` instance with an empty buffer.
    pub fn new() -> (r: Self)
        ensures
            r.wf(),
            r@ == Seq::<u8>::empty(),
    {
        FixedBufWriter { buf: FixedBuf::new() }
    }

    /// Gets the data from the buffer.
    pub fn get(&self) -> (r: &str)
        requires
            self.wf(),
        ensures
            r.spec_bytes() == self@,
    {
        self.buf.as_str()
    }

    /// Resets the buffer state.
    pub fn clear(&mut self)
        ensures
            final(self).wf(),
            final(self)@ == Seq::<u8>::empty(),
    {
        self.buf.clear();
    }

    /// Appends the longest prefix of `s` that both fits in the remaining space
    /// and ends on a character boundary; all of `s` whenever all of it fits.
    pub fn write_str(&mut self, s: &str) -> (r: Result<(), Error>)
        requires
            old(self).wf(),
        ensures
            final(self).wf(),
            r is Ok,
            exists|k: int|
                0 <= k <= s.spec_bytes().len() && final(self)@ == old(self)@
                    + s.spec_bytes().subrange(0, k) && #[trigger] is_char_boundary(
                    s.spec_bytes(),
                    k,
                ) && (forall|j: int|
                    k < j <= s.spec_bytes().len() && old(self)@.len() + j <= N
                        ==> !is_char_boundary(s.spec_bytes(), j)),
            old(self)@.len() + s.spec_bytes().len() <= N ==> final(self)@ == old(self)@
                + s.spec_bytes(),
    {
        self.buf.write_str(s)
    }
}

impl<const N: usize> Default for FixedBufWriter<N> {
    /// A writer over an empty buffer.
    fn default() -> (r: Self)
        ensures
            r.wf(),
            r@ == Seq::<u8>::empty(),
    {
        FixedBufWriter::new()
    }
}

} // verus!
