//! Seekable input streams.
//!
//! [`InputStream`] is the capability that a consumer of binary resources
//! reads through: a cursor over a linear run of bytes, with `read`, `seek`,
//! `tell` and `size`. [`MemoryInputStream`] is the backend over a borrowed
//! buffer. Every operation reports failure by returning `-1`.

use vstd::prelude::*;

verus! {

/// How many bytes a read of `requested` bytes yields on a stream of `length`
/// bytes whose cursor stands at `offset`: all of them while they fit before
/// the end, else what is left.
pub open spec fn available(length: int, offset: int, requested: int) -> int {
    if offset + requested <= length {
        requested
    } else {
        length - offset
    }
}

/// The destination after a read that yielded `count` bytes of `bytes`
/// starting at `offset`: those bytes in front, the rest of `dest` as it was.
pub open spec fn delivered(bytes: Seq<u8>, offset: int, count: int, dest: Seq<u8>) -> Seq<u8> {
    if count > 0 {
        bytes.subrange(offset, offset + count) + dest.subrange(count, dest.len() as int)
    } else {
        dest
    }
}

/// A readable, seekable source of bytes.
///
/// Implementations advance their cursor by the number of bytes a read
/// yields and answer `-1` where an operation cannot be carried out.
pub trait InputStream {
    /// Copies up to `size` bytes from the cursor on into the front of `data`
    /// and moves the cursor past them. Returns the number of bytes copied,
    /// or `-1` on failure. Bytes of `data` behind the copied ones stay.
    fn read(&mut self, data: &mut [u8], size: i64) -> (count: i64)
        requires
            size <= old(data)@.len(),
        ensures
            count == -1 || count <= size,
            final(data)@.len() == old(data)@.len(),
            forall|i: int|
                0 <= i < old(data)@.len() && count <= i ==> final(data)@[i] == old(data)@[i],
    ;

    /// Moves the cursor to `position`, counted from the start. Returns the
    /// position reached, or `-1` on failure.
    fn seek(&mut self, position: i64) -> (reached: i64)
        requires
            position >= 0,
        ensures
            reached >= -1,
    ;

    /// Returns the cursor's position, or `-1` on failure.
    fn tell(&mut self) -> (position: i64)
        ensures
            position >= -1,
    ;

    /// Returns the total number of bytes in the stream, or `-1` on failure.
    fn size(&mut self) -> (total: i64)
        ensures
            total >= -1,
    ;
}

/// A stream over a buffer in memory that the caller keeps alive.
///
/// The stream starts unbound; `open` binds it to a buffer and puts the
/// cursor at the start. The cursor never leaves the buffer.
#[derive(Debug)]
pub struct MemoryInputStream<'a> {
    data: Option<&'a [u8]>,
    size: i64,
    offset: i64,
}

impl<'a> MemoryInputStream<'a> {
    #[verifier::type_invariant]
    spec fn well_formed(&self) -> bool {
        match self.data {
            Some(buffer) => 0 <= self.offset <= self.size <= buffer@.len(),
            None => self.offset == 0 && self.size == 0,
        }
    }

    /// Whether the stream is bound to a buffer.
    pub closed spec fn is_open(&self) -> bool {
        self.data.is_some()
    }

    /// The bytes the stream ranges over; empty while unbound.
    pub closed spec fn bytes(&self) -> Seq<u8> {
        match self.data {
            Some(buffer) => buffer@.subrange(0, self.size as int),
            None => Seq::empty(),
        }
    }

    /// The cursor, as an offset from the first byte.
    pub closed spec fn position(&self) -> int {
        self.offset as int
    }

    /// Binds the stream to the first `size_in_bytes` bytes of `data` and
    /// puts the cursor at the start. The buffer is borrowed, not copied.
    /// A stream that was bound before is bound anew.
    pub fn open(&mut self, data: &'a [u8], size_in_bytes: usize)
        requires
            size_in_bytes <= data@.len(),
            size_in_bytes <= i64::MAX,
        ensures
            final(self).is_open(),
            final(self).bytes() == data@.subrange(0, size_in_bytes as int),
            final(self).bytes().len() == size_in_bytes,
            final(self).position() == 0,
    {
        *self = MemoryInputStream { data: Some(data), size: size_in_bytes as i64, offset: 0 };
    }
}

impl<'a> Default for MemoryInputStream<'a> {
    /// The unbound stream.
    fn default() -> (stream: Self)
        ensures
            !stream.is_open(),
            stream.bytes() == Seq::<u8>::empty(),
            stream.position() == 0,
    {
        MemoryInputStream { data: None, size: 0, offset: 0 }
    }
}

impl<'a> InputStream for MemoryInputStream<'a> {
    /// Yields `available(length, cursor, size)` bytes: a request that
    /// reaches past the end is cut short, which is no failure. Fails only
    /// while the stream is unbound, and then changes nothing.
    fn read(&mut self, data: &mut [u8], size: i64) -> (count: i64)
        ensures
            !old(self).is_open() ==> count == -1 && *final(self) == *old(self) && final(data)@
                == old(data)@,
            old(self).is_open() ==> {
                &&& count == available(
                    old(self).bytes().len() as int,
                    old(self).position(),
                    size as int,
                )
                &&& final(self).is_open()
                &&& final(self).bytes() == old(self).bytes()
                &&& final(self).position() == old(self).position() + if count > 0 {
                    count as int
                } else {
                    0
                }
                &&& 0 <= final(self).position() <= final(self).bytes().len()
                &&& final(data)@ == delivered(
                    old(self).bytes(),
                    old(self).position(),
                    count as int,
                    old(data)@,
                )
            },
    {
        proof {
            use_type_invariant(&*self);
        }
        let source: &[u8] = match self.data {
            Some(buffer) => buffer,
            None => {
                return -1;
            },
        };
        let remaining: i64 = self.size - self.offset;
        let count: i64 = if size <= remaining {
            size
        } else {
            remaining
        };
        if count > 0 {
            let capacity: usize = data.len();
            let length: usize = source.len();
            assert(count <= capacity && self.offset <= length);
            let start: usize = self.offset as usize;
            let wanted: usize = count as usize;
            let mut done: usize = 0;
            while done < wanted
                invariant
                    done <= wanted <= data@.len(),
                    start + wanted <= source@.len() <= usize::MAX,
                    wanted == count,
                    start == self.offset,
                    *self == *old(self),
                    self.data == Some(source),
                    self.offset + count <= self.size <= source@.len(),
                    data@.len() == old(data)@.len(),
                    forall|i: int| 0 <= i < done ==> data@[i] == source@[start + i],
                    forall|i: int| done <= i < data@.len() ==> data@[i] == old(data)@[i],
                decreases wanted - done,
            {
                data[done] = source[start + done];
                done += 1;
            }
            self.offset = self.offset + count;
            assert(data@ =~= delivered(
                old(self).bytes(),
                old(self).position(),
                count as int,
                old(data)@,
            ));
        }
        count
    }

    /// Puts the cursor at `position`, or at the end where `position` lies
    /// past it. Fails only while the stream is unbound.
    fn seek(&mut self, position: i64) -> (reached: i64)
        ensures
            !old(self).is_open() ==> reached == -1 && *final(self) == *old(self),
            old(self).is_open() ==> {
                &&& reached == if position < old(self).bytes().len() {
                    position as int
                } else {
                    old(self).bytes().len() as int
                }
                &&& final(self).is_open()
                &&& final(self).bytes() == old(self).bytes()
                &&& final(self).position() == reached
            },
    {
        proof {
            use_type_invariant(&*self);
        }
        if self.data.is_none() {
            return -1;
        }
        let target: i64 = if position < self.size {
            position
        } else {
            self.size
        };
        self.offset = target;
        target
    }

    /// The cursor's position; `-1` while the stream is unbound.
    fn tell(&mut self) -> (position: i64)
        ensures
            *final(self) == *old(self),
            old(self).is_open() ==> position == old(self).position()
                && 0 <= position <= old(self).bytes().len(),
            !old(self).is_open() ==> position == -1,
    {
        proof {
            use_type_invariant(&*self);
        }
        if self.data.is_none() {
            return -1;
        }
        self.offset
    }

    /// The number of bytes the stream ranges over; `-1` while it is unbound.
    fn size(&mut self) -> (total: i64)
        ensures
            *final(self) == *old(self),
            old(self).is_open() ==> total == old(self).bytes().len(),
            !old(self).is_open() ==> total == -1,
    {
        proof {
            use_type_invariant(&*self);
        }
        if self.data.is_none() {
            return -1;
        }
        self.size
    }
}

/// A read never reaches past the end: with the cursor inside the stream and
/// a request that is not negative, what is yielded is neither negative nor
/// more than was asked for, and the cursor stays inside the stream. At the
/// end nothing is yielded.
pub proof fn lemma_available_in_bounds(length: int, offset: int, requested: int)
    requires
        0 <= offset <= length,
        0 <= requested,
    ensures
        0 <= available(length, offset, requested) <= requested,
        offset + available(length, offset, requested) <= length,
        available(length, offset, requested) == requested <==> offset + requested <= length,
        available(length, length, requested) == 0,
{
}

/// What reading a stream over `bytes` to its end yields when every read asks
/// for `chunk` bytes and the cursor starts at `offset`: the bytes delivered,
/// in order, and the cursor after the last read that yielded any. Each read
/// yields `available` bytes, the ones that `delivered` puts in front of the
/// destination, and moves the cursor past them, as `read` does.
pub open spec fn chunked_read(bytes: Seq<u8>, offset: int, chunk: int) -> (Seq<u8>, int)
    decreases bytes.len() - offset,
{
    let count = available(bytes.len() as int, offset, chunk);
    if count > 0 && offset >= 0 {
        let rest = chunked_read(bytes, offset + count, chunk);
        (bytes.subrange(offset, offset + count) + rest.0, rest.1)
    } else {
        (Seq::empty(), offset)
    }
}

/// Reading from any cursor within the buffer to the end, in chunks of any
/// positive size, delivers exactly the bytes from the cursor on and leaves
/// the cursor at the end. From the start that is the whole buffer.
pub proof fn lemma_chunked_read_reproduces(bytes: Seq<u8>, offset: int, chunk: int)
    requires
        0 <= offset <= bytes.len(),
        0 < chunk,
    ensures
        chunked_read(bytes, offset, chunk).0 == bytes.subrange(offset, bytes.len() as int),
        chunked_read(bytes, offset, chunk).1 == bytes.len(),
        offset == 0 ==> chunked_read(bytes, offset, chunk).0 == bytes,
    decreases bytes.len() - offset,
{
    let count = available(bytes.len() as int, offset, chunk);
    if count > 0 {
        lemma_chunked_read_reproduces(bytes, offset + count, chunk);
        assert(bytes.subrange(offset, offset + count) + bytes.subrange(
            offset + count,
            bytes.len() as int,
        ) =~= bytes.subrange(offset, bytes.len() as int));
    } else {
        assert(bytes.subrange(offset, bytes.len() as int) =~= Seq::<u8>::empty());
    }
    assert(bytes.subrange(0, bytes.len() as int) =~= bytes);
}

} // verus!
