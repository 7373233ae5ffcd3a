//! The cursor of a stream over one file: how long the file is, how far the
//! response has got, and how much each read may take.

use vstd::prelude::*;

use crate::stream::error::StreamError;

verus! {

/// The most that one read hands to the response, in bytes.
pub const CHUNK_SIZE: u64 = 65536;

/// The position of one response in one file. It belongs to the request that
/// opened it.
#[derive(Clone, Copy, Debug, PartialEq, Eq)]
pub struct ByteStream {
    length: u64,
    position: u64,
}

/// The smaller of two numbers.
pub open spec fn min_nat(a: nat, b: nat) -> nat {
    if a <= b {
        a
    } else {
        b
    }
}

/// The sizes of the reads that deliver `remaining` bytes: full chunks, then
/// what is left.
pub open spec fn chunk_sizes(remaining: nat) -> Seq<nat>
    decreases remaining,
{
    if remaining == 0 {
        Seq::empty()
    } else {
        let first = min_nat(CHUNK_SIZE as nat, remaining);
        seq![first] + chunk_sizes((remaining - first) as nat)
    }
}

/// The sum of a sequence of sizes.
pub open spec fn total(sizes: Seq<nat>) -> nat
    decreases sizes.len(),
{
    if sizes.len() == 0 {
        0
    } else {
        sizes[0] + total(sizes.drop_first())
    }
}

impl ByteStream {
    #[verifier::type_invariant]
    spec fn inv(self) -> bool {
        self.position <= self.length
    }

    /// The length of the file.
    pub closed spec fn spec_len(self) -> u64 {
        self.length
    }

    /// How many bytes of the file lie before the cursor.
    pub closed spec fn spec_position(self) -> u64 {
        self.position
    }

    /// How many bytes of the file lie after the cursor.
    pub open spec fn spec_remaining(self) -> int {
        self.spec_len() - self.spec_position()
    }

    /// A stream at the beginning of a file of `length` bytes.
    pub fn new(length: u64) -> (stream: ByteStream)
        ensures
            stream.spec_len() == length,
            stream.spec_position() == 0,
    {
        ByteStream { length, position: 0 }
    }

    /// The length of the file.
    pub fn len(&self) -> (length: u64)
        ensures
            length == self.spec_len(),
    {
        self.length
    }

    /// How many bytes of the file lie before the cursor.
    pub fn position(&self) -> (position: u64)
        ensures
            position == self.spec_position(),
            position <= self.spec_len(),
    {
        proof {
            use_type_invariant(self);
        }
        self.position
    }

    /// How many bytes of the file lie after the cursor.
    pub fn remaining(&self) -> (remaining: u64)
        ensures
            remaining == self.spec_remaining(),
    {
        proof {
            use_type_invariant(self);
        }
        self.length - self.position
    }

    /// Moves the cursor to `offset` bytes from the beginning. An offset past
    /// the end of the file is refused, and the cursor stays where it is.
    pub fn seek(&mut self, offset: u64) -> (r: Result<(), StreamError>)
        ensures
            final(self).spec_len() == old(self).spec_len(),
            match r {
                Ok(()) => offset <= old(self).spec_len() && final(self).spec_position() == offset,
                Err(e) => {
                    &&& offset > old(self).spec_len()
                    &&& e == StreamError::StreamUnavailable
                    &&& final(self).spec_position() == old(self).spec_position()
                },
            },
    {
        if offset > self.length {
            return Err(StreamError::StreamUnavailable);
        }
        self.position = offset;
        Ok(())
    }

    /// How many bytes the next read may take: a full chunk, or what is left
    /// of the file when that is less.
    pub fn next_chunk_len(&self) -> (size: u64)
        ensures
            size == min_nat(CHUNK_SIZE as nat, self.spec_remaining() as nat),
    {
        let remaining = self.remaining();
        if remaining < CHUNK_SIZE {
            remaining
        } else {
            CHUNK_SIZE
        }
    }

    /// Moves the cursor past the `read` bytes that a read returned, and not
    /// past the end of the file.
    pub fn advance(&mut self, read: u64)
        ensures
            final(self).spec_len() == old(self).spec_len(),
            final(self).spec_position() == old(self).spec_position() + min_nat(
                read as nat,
                old(self).spec_remaining() as nat,
            ),
    {
        proof {
            use_type_invariant(&*self);
        }
        let remaining = self.length - self.position;
        if read < remaining {
            self.position = self.position + read;
        } else {
            self.position = self.length;
        }
    }

    /// True when the cursor stands at the end of the file.
    pub fn is_finished(&self) -> (finished: bool)
        ensures
            finished == (self.spec_remaining() == 0),
    {
        proof {
            use_type_invariant(self);
        }
        self.position == self.length
    }
}

/// Reads of [`ByteStream::next_chunk_len`] bytes, each followed by
/// [`ByteStream::advance`], deliver the rest of the file exactly: the reads
/// add up to what lay after the cursor, none is empty, none is larger than a
/// chunk, and all but the last are full chunks.
pub proof fn lemma_chunks_cover_body(remaining: nat)
    ensures
        total(chunk_sizes(remaining)) == remaining,
        forall|i: int|
            0 <= i < chunk_sizes(remaining).len() ==> 0 < #[trigger] chunk_sizes(remaining)[i]
                <= CHUNK_SIZE,
        forall|i: int|
            0 <= i < chunk_sizes(remaining).len() - 1 ==> #[trigger] chunk_sizes(remaining)[i]
                == CHUNK_SIZE,
    decreases remaining,
{
    if remaining > 0 {
        let first = min_nat(CHUNK_SIZE as nat, remaining);
        let rest = chunk_sizes((remaining - first) as nat);
        lemma_chunks_cover_body((remaining - first) as nat);
        let all = chunk_sizes(remaining);
        assert(all == seq![first] + rest);
        assert(all.drop_first() =~= rest);
        assert(all[0] == first);
        assert forall|i: int| 0 <= i < all.len() implies 0 < #[trigger] all[i] <= CHUNK_SIZE by {
            if i > 0 {
                assert(all[i] == rest[i - 1]);
            }
        }
        assert forall|i: int| 0 <= i < all.len() - 1 implies #[trigger] all[i] == CHUNK_SIZE by {
            if i > 0 {
                assert(all[i] == rest[i - 1]);
            } else {
                if first < CHUNK_SIZE {
                    assert(remaining - first == 0);
                    assert(rest.len() == 0);
                }
            }
        }
    }
}

/// The first read of a body takes what [`ByteStream::next_chunk_len`]
/// gives, and the reads after it are those of the rest of the body.
pub proof fn lemma_first_chunk(remaining: nat)
    requires
        remaining > 0,
    ensures
        chunk_sizes(remaining).len() > 0,
        chunk_sizes(remaining)[0] == min_nat(CHUNK_SIZE as nat, remaining),
        chunk_sizes(remaining).drop_first() == chunk_sizes(
            (remaining - min_nat(CHUNK_SIZE as nat, remaining)) as nat,
        ),
{
    let first = min_nat(CHUNK_SIZE as nat, remaining);
    let rest = chunk_sizes((remaining - first) as nat);
    assert((seq![first] + rest).drop_first() =~= rest);
}

} // verus!
