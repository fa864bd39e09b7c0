//! The file-backed stream, as a protocol.
//!
//! The stream never touches a file itself. Each operation answers with a
//! [`FileRequest`]: a call to make on the file or its handle, or the
//! operation's result. Whoever owns the handle makes the call and hands its outcome to
//! [`FileInputStream::resume`] as a [`FileReply`], until a result comes back.
//! Every decision of the backend (what counts as failure, which call
//! follows which, what is returned) is taken here.

use vstd::prelude::*;

verus! {

/// What the owner of the file handle is asked to do next.
#[derive(Debug, Clone, Copy, PartialEq, Eq, Structural)]
pub enum FileRequest {
    /// Read up to this many bytes into the front of the destination.
    Read(u64),
    /// Move the cursor to this offset from the start of the file.
    SeekStart(u64),
    /// Move the cursor to the end of the file.
    SeekEnd,
    /// Report the cursor's offset from the start of the file.
    Position,
    /// Close the handle that is held.
    Close,
    /// Open the file for reading.
    Open,
    /// The operation is over and this is its result.
    Finish(i64),
    /// The `open` is over; a handle is held now, or none is.
    Opened(bool),
}

/// How the call that a [`FileRequest`] asked for went.
#[derive(Debug, Clone, Copy, PartialEq, Eq, Structural)]
pub enum FileReply {
    /// A read put this many bytes into the destination.
    Transferred(u64),
    /// A seek succeeded.
    Moved,
    /// The cursor stands at this offset.
    At(u64),
    /// The handle was closed.
    Closed,
    /// The file was opened and its handle is held.
    Acquired,
    /// The call reported an error.
    Failed,
}

/// The call an operation is waiting on, with what it has to remember.
#[derive(Debug, Clone, Copy, PartialEq, Eq, Structural)]
pub enum Pending {
    /// No operation is under way.
    Idle,
    /// A read of at most `limit` bytes.
    Read { limit: u64 },
    /// The seek of a `seek`; the position is asked for next.
    Seek,
    /// The position that ends a `tell` or a `seek`.
    Tell,
    /// `size`: the position to come back to.
    SizeOrigin,
    /// `size`: the seek to the end.
    SizeEnd { origin: u64 },
    /// `size`: the position at the end, which is the file's length.
    SizeLength { origin: u64 },
    /// `size`: the seek back; `length` is what will be returned.
    SizeRestore { length: i64 },
    /// `open`: the closing of the handle held before; the file is opened
    /// next.
    Close,
    /// `open`: the opening of the file.
    Open,
}

/// An offset as the result of an operation: itself where it fits, else `-1`.
pub open spec fn offset_result(offset: u64) -> i64 {
    if offset <= i64::MAX {
        offset as i64
    } else {
        -1i64
    }
}

/// The protocol's transition: from the call waited on and its outcome to
/// what is waited on next and the next request.
///
/// A failed read counts as zero bytes; any other failure ends the operation
/// with `-1`, except that `size` still tries to put the cursor back once it
/// has moved it, and ignores how that goes, and that an `open` that fails
/// ends with `false`. Closing a handle cannot fail. An outcome that the
/// call waited on cannot have is taken as its failure.
pub open spec fn step(pending: Pending, reply: FileReply) -> (Pending, FileRequest) {
    match pending {
        Pending::Idle => (Pending::Idle, FileRequest::Finish(-1i64)),
        Pending::Read { limit } => match reply {
            FileReply::Transferred(n) if n <= limit => (
                Pending::Idle,
                FileRequest::Finish(offset_result(n)),
            ),
            _ => (Pending::Idle, FileRequest::Finish(0)),
        },
        Pending::Seek => match reply {
            FileReply::Moved => (Pending::Tell, FileRequest::Position),
            _ => (Pending::Idle, FileRequest::Finish(-1i64)),
        },
        Pending::Tell => match reply {
            FileReply::At(offset) => (Pending::Idle, FileRequest::Finish(offset_result(offset))),
            _ => (Pending::Idle, FileRequest::Finish(-1i64)),
        },
        Pending::SizeOrigin => match reply {
            FileReply::At(origin) => (Pending::SizeEnd { origin }, FileRequest::SeekEnd),
            _ => (Pending::Idle, FileRequest::Finish(-1i64)),
        },
        Pending::SizeEnd { origin } => match reply {
            FileReply::Moved => (Pending::SizeLength { origin }, FileRequest::Position),
            _ => (Pending::Idle, FileRequest::Finish(-1i64)),
        },
        Pending::SizeLength { origin } => match reply {
            FileReply::At(end) => (
                Pending::SizeRestore { length: offset_result(end) },
                FileRequest::SeekStart(origin),
            ),
            _ => (Pending::SizeRestore { length: -1i64 }, FileRequest::SeekStart(origin)),
        },
        Pending::SizeRestore { length } => (Pending::Idle, FileRequest::Finish(length)),
        Pending::Close => (Pending::Open, FileRequest::Open),
        Pending::Open => (Pending::Idle, FileRequest::Opened(reply == FileReply::Acquired)),
    }
}

/// Whether a handle is held once `reply` has come in: closing gives the
/// handle up, opening gains one where it succeeds, and no other call
/// changes what is held.
pub open spec fn holds_after(held: bool, pending: Pending, reply: FileReply) -> bool {
    match pending {
        Pending::Close => false,
        Pending::Open => reply == FileReply::Acquired,
        _ => held,
    }
}

/// How an `open` starts: by closing the handle that is held, if one is,
/// else by opening the file.
pub open spec fn begin_open(held: bool) -> (Pending, FileRequest) {
    if held {
        (Pending::Close, FileRequest::Close)
    } else {
        (Pending::Open, FileRequest::Open)
    }
}

/// A stream over a file whose handle somebody else holds.
///
/// It knows whether a handle is held and which call the operation under way
/// is waiting on. Without a handle every operation fails at once, with `-1`
/// and without a request to the file.
#[derive(Debug)]
pub struct FileInputStream {
    held: bool,
    pending: Pending,
}

impl FileInputStream {
    #[verifier::type_invariant]
    spec fn well_formed(&self) -> bool {
        !self.held ==> self.pending == Pending::Idle || self.pending == Pending::Open
    }

    /// Whether a file handle is held.
    pub closed spec fn has_handle(&self) -> bool {
        self.held
    }

    /// The call the operation under way is waiting on.
    pub closed spec fn pending(&self) -> Pending {
        self.pending
    }

    /// Whether a file handle is held.
    pub fn is_open(&self) -> (held: bool)
        ensures
            held == self.has_handle(),
    {
        self.held
    }

    /// Gives up the handle. Returns whether one was held, which the owner
    /// then has to close; an operation under way is abandoned.
    pub fn release(&mut self) -> (was_held: bool)
        ensures
            was_held == old(self).has_handle(),
            !final(self).has_handle(),
            final(self).pending() == Pending::Idle,
    {
        let was_held = self.held;
        *self = FileInputStream { held: false, pending: Pending::Idle };
        was_held
    }

    /// Starts an `open`: asks for the handle held to be closed, after
    /// which the opening of the file is asked for; or asks for the opening
    /// at once where no handle is held. The operation ends with
    /// `Opened(true)` where the file could be opened and with
    /// `Opened(false)` where not, and the stream then holds the new handle
    /// or none.
    pub fn open(&mut self) -> (request: FileRequest)
        ensures
            final(self).has_handle() == old(self).has_handle(),
            (final(self).pending(), request) == begin_open(old(self).has_handle()),
    {
        if self.held {
            self.pending = Pending::Close;
            FileRequest::Close
        } else {
            self.pending = Pending::Open;
            FileRequest::Open
        }
    }

    /// Starts a read of up to `size` bytes: asks for the read, or fails at
    /// once with `-1` where no handle is held.
    pub fn read(&mut self, size: i64) -> (request: FileRequest)
        requires
            size >= 0,
        ensures
            final(self).has_handle() == old(self).has_handle(),
            old(self).has_handle() ==> request == FileRequest::Read(size as u64)
                && final(self).pending() == (Pending::Read { limit: size as u64 }),
            !old(self).has_handle() ==> request == FileRequest::Finish(-1i64)
                && final(self).pending() == Pending::Idle,
    {
        proof {
            use_type_invariant(&*self);
        }
        if !self.held {
            self.pending = Pending::Idle;
            return FileRequest::Finish(-1i64);
        }
        let limit: u64 = size as u64;
        self.pending = Pending::Read { limit };
        FileRequest::Read(limit)
    }

    /// Starts a seek to `position`: asks for the seek, after which the
    /// position is asked for and returned; or fails at once with `-1`
    /// where no handle is held.
    pub fn seek(&mut self, position: i64) -> (request: FileRequest)
        requires
            position >= 0,
        ensures
            final(self).has_handle() == old(self).has_handle(),
            old(self).has_handle() ==> request == FileRequest::SeekStart(position as u64)
                && final(self).pending() == Pending::Seek,
            !old(self).has_handle() ==> request == FileRequest::Finish(-1i64)
                && final(self).pending() == Pending::Idle,
    {
        proof {
            use_type_invariant(&*self);
        }
        if !self.held {
            self.pending = Pending::Idle;
            return FileRequest::Finish(-1i64);
        }
        self.pending = Pending::Seek;
        FileRequest::SeekStart(position as u64)
    }

    /// Starts a `tell`: asks for the position, or fails at once with `-1`
    /// where no handle is held.
    pub fn tell(&mut self) -> (request: FileRequest)
        ensures
            final(self).has_handle() == old(self).has_handle(),
            old(self).has_handle() ==> request == FileRequest::Position
                && final(self).pending() == Pending::Tell,
            !old(self).has_handle() ==> request == FileRequest::Finish(-1i64)
                && final(self).pending() == Pending::Idle,
    {
        proof {
            use_type_invariant(&*self);
        }
        if !self.held {
            self.pending = Pending::Idle;
            return FileRequest::Finish(-1i64);
        }
        self.pending = Pending::Tell;
        FileRequest::Position
    }

    /// Starts a `size`: asks for the position, to come back to it once the
    /// end has been measured; or fails at once with `-1` where no handle is
    /// held.
    pub fn size(&mut self) -> (request: FileRequest)
        ensures
            final(self).has_handle() == old(self).has_handle(),
            old(self).has_handle() ==> request == FileRequest::Position
                && final(self).pending() == Pending::SizeOrigin,
            !old(self).has_handle() ==> request == FileRequest::Finish(-1i64)
                && final(self).pending() == Pending::Idle,
    {
        proof {
            use_type_invariant(&*self);
        }
        if !self.held {
            self.pending = Pending::Idle;
            return FileRequest::Finish(-1i64);
        }
        self.pending = Pending::SizeOrigin;
        FileRequest::Position
    }

    /// Takes the outcome of the call last asked for and answers with the
    /// next request, as [`step`] says; what is held afterwards is what
    /// [`holds_after`] says.
    pub fn resume(&mut self, reply: FileReply) -> (request: FileRequest)
        ensures
            final(self).has_handle() == holds_after(
                old(self).has_handle(),
                old(self).pending(),
                reply,
            ),
            (final(self).pending(), request) == step(old(self).pending(), reply),
    {
        proof {
            use_type_invariant(&*self);
        }
        let held: bool = match self.pending {
            Pending::Close => false,
            Pending::Open => match reply {
                FileReply::Acquired => true,
                _ => false,
            },
            _ => self.held,
        };
        let (next, request) = match self.pending {
            Pending::Idle => (Pending::Idle, FileRequest::Finish(-1i64)),
            Pending::Read { limit } => match reply {
                FileReply::Transferred(n) => if n <= limit {
                    (Pending::Idle, FileRequest::Finish(offset_to_result(n)))
                } else {
                    (Pending::Idle, FileRequest::Finish(0))
                },
                _ => (Pending::Idle, FileRequest::Finish(0)),
            },
            Pending::Seek => match reply {
                FileReply::Moved => (Pending::Tell, FileRequest::Position),
                _ => (Pending::Idle, FileRequest::Finish(-1i64)),
            },
            Pending::Tell => match reply {
                FileReply::At(offset) => (
                    Pending::Idle,
                    FileRequest::Finish(offset_to_result(offset)),
                ),
                _ => (Pending::Idle, FileRequest::Finish(-1i64)),
            },
            Pending::SizeOrigin => match reply {
                FileReply::At(origin) => (Pending::SizeEnd { origin }, FileRequest::SeekEnd),
                _ => (Pending::Idle, FileRequest::Finish(-1i64)),
            },
            Pending::SizeEnd { origin } => match reply {
                FileReply::Moved => (Pending::SizeLength { origin }, FileRequest::Position),
                _ => (Pending::Idle, FileRequest::Finish(-1i64)),
            },
            Pending::SizeLength { origin } => match reply {
                FileReply::At(end) => (
                    Pending::SizeRestore { length: offset_to_result(end) },
                    FileRequest::SeekStart(origin),
                ),
                _ => (Pending::SizeRestore { length: -1i64 }, FileRequest::SeekStart(origin)),
            },
            Pending::SizeRestore { length } => (Pending::Idle, FileRequest::Finish(length)),
            Pending::Close => (Pending::Open, FileRequest::Open),
            Pending::Open => (Pending::Idle, FileRequest::Opened(held)),
        };
        *self = FileInputStream { held, pending: next };
        request
    }
}

impl Default for FileInputStream {
    /// The stream that holds no handle.
    fn default() -> (stream: Self)
        ensures
            !stream.has_handle(),
            stream.pending() == Pending::Idle,
    {
        FileInputStream { held: false, pending: Pending::Idle }
    }
}

/// An offset as the result of an operation: itself where it fits, else `-1`.
fn offset_to_result(offset: u64) -> (result: i64)
    ensures
        result == offset_result(offset),
{
    if offset <= 0x7fff_ffff_ffff_ffff {
        offset as i64
    } else {
        -1
    }
}

/// How many more outcomes an operation can take in before it is over.
pub open spec fn calls_left(pending: Pending) -> nat {
    match pending {
        Pending::Idle => 0,
        Pending::Read { .. } => 1,
        Pending::Seek => 2,
        Pending::Tell => 1,
        Pending::SizeOrigin => 4,
        Pending::SizeEnd { .. } => 3,
        Pending::SizeLength { .. } => 2,
        Pending::SizeRestore { .. } => 1,
        Pending::Close => 2,
        Pending::Open => 1,
    }
}

/// Every operation ends: each outcome brings an operation under way at
/// least one call closer to its end, and a result is handed out exactly
/// when nothing is waited on any more.
pub proof fn lemma_step_progress(pending: Pending, reply: FileReply)
    ensures
        pending != Pending::Idle ==> calls_left(step(pending, reply).0) < calls_left(pending),
        step(pending, reply).0 == Pending::Idle <==> step(pending, reply).1 is Finish || step(
            pending,
            reply,
        ).1 is Opened,
{
}

/// A `size` leaves the cursor where it found it: once the position `origin`
/// has been reported and the seek to the end has succeeded, the last call
/// asked of the file is the seek back to `origin`, whether or not the end's
/// position could be told; and however that seek goes, the result is the
/// end's position, or `-1` where it could not be told.
pub proof fn lemma_size_restores_cursor(origin: u64, end: FileReply, restored: FileReply)
    ensures
        step(Pending::SizeOrigin, FileReply::At(origin)) == (
            Pending::SizeEnd { origin },
            FileRequest::SeekEnd,
        ),
        step(Pending::SizeEnd { origin }, FileReply::Moved) == (
            Pending::SizeLength { origin },
            FileRequest::Position,
        ),
        step(Pending::SizeLength { origin }, end).1 == FileRequest::SeekStart(origin),
        step(step(Pending::SizeLength { origin }, end).0, restored) == (
            Pending::Idle,
            FileRequest::Finish(
                match end {
                    FileReply::At(length) => offset_result(length),
                    _ => -1i64,
                },
            ),
        ),
{
}

/// An `open` lets go of the handle held before it reaches for a new one:
/// on a stream that holds a handle it first asks for that handle to be
/// closed, holds none once that is done, and only then asks for the file to
/// be opened. On a stream that holds none it asks for the opening at once.
/// Either way the stream ends up holding a handle exactly where the opening
/// succeeded, and says so in its result.
pub proof fn lemma_open_closes_first(held: bool, closed: FileReply, outcome: FileReply)
    ensures
        begin_open(true) == (Pending::Close, FileRequest::Close),
        step(Pending::Close, closed) == (Pending::Open, FileRequest::Open),
        !holds_after(true, Pending::Close, closed),
        begin_open(false) == (Pending::Open, FileRequest::Open),
        step(Pending::Open, outcome) == (
            Pending::Idle,
            FileRequest::Opened(outcome == FileReply::Acquired),
        ),
        holds_after(held, Pending::Open, outcome) == (outcome == FileReply::Acquired),
{
}

} // verus!
