//! The input abstraction: a cursor over an in-memory buffer of bytes.

use crate::elements::Error;
use vstd::prelude::*;

verus! {

/// A reader over a buffer of bytes that remembers how far it has read.
///
/// A read that cannot deliver what was asked for is an end-of-input failure
/// and consumes nothing, so a decoder never stalls on an exhausted input and
/// never sees a partly filled buffer.
pub struct BufReader {
    data: Vec<u8>,
    pos: usize,
}

/// The number of bytes that a read into a buffer of `room` bytes delivers
/// when `left` bytes are left.
pub open spec fn spec_read_len(left: nat, room: nat) -> nat {
    if room < left {
        room
    } else {
        left
    }
}

impl BufReader {
    #[verifier::type_invariant]
    spec fn inv(self) -> bool {
        self.pos <= self.data@.len()
    }

    /// The whole input, read and unread.
    pub closed spec fn input(&self) -> Seq<u8> {
        self.data@
    }

    /// The number of bytes read so far.
    pub closed spec fn spec_position(&self) -> usize {
        self.pos
    }

    /// The bytes that have not been read yet.
    pub open spec fn remaining(&self) -> Seq<u8> {
        self.input().skip(self.position() as int)
    }

    /// A reader positioned at the start of `data`.
    pub fn new(data: Vec<u8>) -> (r: BufReader)
        ensures
            r.input() == data@,
            r.position() == 0,
    {
        BufReader { data, pos: 0 }
    }

    /// The number of bytes read so far.
    #[verifier::when_used_as_spec(spec_position)]
    pub fn position(&self) -> (p: usize)
        ensures
            p == self.position(),
            p <= self.input().len(),
    {
        proof {
            use_type_invariant(self);
        }
        self.pos
    }

    /// The length of the whole input.
    pub fn len(&self) -> (n: usize)
        ensures
            n == self.input().len(),
            self.position() <= n,
    {
        proof {
            use_type_invariant(self);
        }
        self.data.len()
    }

    /// The whole input, given back.
    pub fn into_inner(self) -> (data: Vec<u8>)
        ensures
            data@ == self.input(),
    {
        self.data
    }

    /// Whether every byte of the input has been read.
    pub fn is_at_end(&self) -> (b: bool)
        ensures
            b <==> self.position() >= self.input().len(),
            self.position() <= self.input().len(),
    {
        proof {
            use_type_invariant(self);
        }
        self.pos >= self.data.len()
    }

    /// Reads one byte, or fails with `UnexpectedEof` where none is left.
    pub fn read_u8(&mut self) -> (r: Result<u8, Error>)
        ensures
            final(self).input() == old(self).input(),
            old(self).position() <= old(self).input().len(),
            match r {
                Ok(b) => {
                    &&& old(self).position() < old(self).input().len()
                    &&& b == old(self).input()[old(self).position() as int]
                    &&& final(self).position() == old(self).position() + 1
                },
                Err(e) => {
                    &&& old(self).position() == old(self).input().len()
                    &&& e == Error::UnexpectedEof
                    &&& final(self).position() == old(self).position()
                },
            },
    {
        proof {
            use_type_invariant(&*self);
        }
        if self.pos < self.data.len() {
            let b = self.data[self.pos];
            self.pos = self.pos + 1;
            Ok(b)
        } else {
            Err(Error::UnexpectedEof)
        }
    }

    /// Fills the front of `buf` with the bytes that come next, as many as fit
    /// and are left, and returns their number.  Where that number is zero,
    /// because nothing is left or `buf` is empty, the read fails with
    /// `UnexpectedEof`.
    pub fn read(&mut self, buf: &mut [u8]) -> (r: Result<usize, Error>)
        ensures
            final(self).input() == old(self).input(),
            old(self).position() <= old(self).input().len(),
            final(buf)@.len() == old(buf)@.len(),
            match r {
                Ok(n) => {
                    &&& n > 0
                    &&& n == spec_read_len(old(self).remaining().len(), old(buf)@.len())
                    &&& final(self).position() == old(self).position() + n
                    &&& final(buf)@ == old(self).remaining().take(n as int) + old(buf)@.skip(
                        n as int,
                    )
                },
                Err(e) => {
                    &&& spec_read_len(old(self).remaining().len(), old(buf)@.len()) == 0
                    &&& e == Error::UnexpectedEof
                    &&& final(self).position() == old(self).position()
                    &&& final(buf)@ == old(buf)@
                },
            },
    {
        proof {
            use_type_invariant(&*self);
        }
        let left = self.data.len() - self.pos;
        let n = if buf.len() < left {
            buf.len()
        } else {
            left
        };
        if n == 0 {
            return Err(Error::UnexpectedEof);
        }
        let start = self.pos;
        let mut i: usize = 0;
        while i < n
            invariant
                i <= n,
                n <= buf@.len(),
                buf@.len() == old(buf)@.len(),
                start + n <= self.data@.len() <= usize::MAX,
                self.pos == start,
                self.data@ == old(self).data@,
                buf@ == self.data@.subrange(start as int, start + i) + old(buf)@.skip(i as int),
            decreases n - i,
        {
            buf[i] = self.data[start + i];
            i = i + 1;
            assert(buf@ =~= self.data@.subrange(start as int, start + i) + old(buf)@.skip(
                i as int,
            ));
        }
        self.pos = start + n;
        assert(old(self).remaining().take(n as int) =~= self.data@.subrange(
            start as int,
            start + n,
        ));
        Ok(n)
    }

    /// Reads exactly `len` bytes, or fails with `UnexpectedEof` where fewer
    /// are left.  Asking for no bytes always succeeds.
    pub fn read_exact(&mut self, len: usize) -> (r: Result<Vec<u8>, Error>)
        ensures
            final(self).input() == old(self).input(),
            old(self).position() <= old(self).input().len(),
            match r {
                Ok(bytes) => {
                    &&& old(self).position() + len <= old(self).input().len()
                    &&& bytes@ == old(self).input().subrange(
                        old(self).position() as int,
                        old(self).position() + len,
                    )
                    &&& final(self).position() == old(self).position() + len
                },
                Err(e) => {
                    &&& old(self).position() + len > old(self).input().len()
                    &&& e == Error::UnexpectedEof
                    &&& final(self).position() == old(self).position()
                },
            },
    {
        proof {
            use_type_invariant(&*self);
        }
        if len > self.data.len() - self.pos {
            return Err(Error::UnexpectedEof);
        }
        let start = self.pos;
        let mut bytes: Vec<u8> = Vec::new();
        let mut i: usize = 0;
        while i < len
            invariant
                i <= len,
                start + len <= self.data@.len() <= usize::MAX,
                self.pos == start,
                bytes@ == self.data@.subrange(start as int, start + i),
            decreases len - i,
        {
            bytes.push(self.data[start + i]);
            i = i + 1;
        }
        self.pos = start + len;
        Ok(bytes)
    }
}

} // verus!
