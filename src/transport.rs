//! The byte-stream transport that the message stream runs on, and an
//! in-memory transport.
use vstd::prelude::*;

verus! {

/// Status of the channel
#[derive(Debug, PartialEq, Eq, Copy, Clone, Structural)]
pub enum Status {
    /// Remote disconnected or remote domain dead
    Disconnected,
    /// Connected
    Connected,
    /// Server initialized, waiting for client to connect
    Waiting,
}

/// Error on a channel
#[derive(Debug, PartialEq, Eq, Copy, Clone, Structural)]
pub enum Error {
    /// Failure allocating memory
    OutOfMemory,
    /// Read error
    Read,
    /// Write error
    Write,
    /// Cannot listen
    CannotListen,
    /// Cannot connect
    CannotConnect,
}

impl Error {
    /// A short description of the error.
    pub fn description(&self) -> (r: &'static str) {
        match self {
            Error::OutOfMemory => "Out of memory",
            Error::Read => "Error during vchan read",
            Error::Write => "Error during vchan write",
            Error::CannotListen => "Cannot listen on vchan",
            Error::CannotConnect => "Cannot connect to vchan",
        }
    }
}

/// A non-blocking, stream-oriented, bounded-buffer channel to a peer.
///
/// Its state is modelled by the bytes that can be read right now, the
/// number of bytes that can be written right now, and everything written
/// so far.
pub trait Transport: Sized {
    /// The internal consistency of the channel.
    spec fn inv(&self) -> bool;

    /// Status of the channel.
    spec fn spec_status(&self) -> Status;

    /// Bytes that can be read without blocking.
    spec fn incoming(&self) -> Seq<u8>;

    /// Number of bytes that can be written without blocking.
    spec fn space(&self) -> nat;

    /// Everything written to the channel so far.
    spec fn outgoing(&self) -> Seq<u8>;

    /// Whether the channel never fails: every send, receive and discard on
    /// it succeeds.
    spec fn reliable(&self) -> bool;

    /// Status of the channel.
    fn status(&self) -> (r: Status)
        requires
            self.inv(),
        ensures
            r == self.spec_status(),
    ;

    /// Number of bytes that can be read without blocking.
    fn data_ready(&self) -> (r: usize)
        requires
            self.inv(),
        ensures
            r == self.incoming().len(),
    ;

    /// Number of bytes that can be written without blocking.
    fn buffer_space(&self) -> (r: usize)
        requires
            self.inv(),
        ensures
            r == self.space(),
    ;

    /// Waits for an event and acknowledges it.  Nothing written is lost and
    /// nothing readable disappears.
    fn wait(&mut self)
        requires
            old(self).inv(),
        ensures
            final(self).inv(),
            final(self).reliable() == old(self).reliable(),
            final(self).outgoing() == old(self).outgoing(),
            old(self).incoming().is_prefix_of(final(self).incoming()),
    ;

    /// Writes all of `buf`, which fits in the free space.
    fn send(&mut self, buf: &[u8]) -> (r: Result<(), Error>)
        requires
            old(self).inv(),
            buf@.len() <= old(self).space(),
        ensures
            final(self).inv(),
            final(self).reliable() == old(self).reliable(),
            old(self).reliable() ==> r is Ok,
            r is Ok ==> final(self).outgoing() == old(self).outgoing() + buf@ && final(self).space()
                == old(self).space() - buf@.len() && final(self).incoming() == old(self).incoming()
                && final(self).spec_status() == old(self).spec_status(),
    ;

    /// Reads `n` readable bytes onto the end of `buf`.
    fn recv_into(&mut self, buf: &mut Vec<u8>, n: usize) -> (r: Result<(), Error>)
        requires
            old(self).inv(),
            n <= old(self).incoming().len(),
        ensures
            final(self).inv(),
            final(self).reliable() == old(self).reliable(),
            old(self).reliable() ==> r is Ok,
            r is Ok ==> final(buf)@ == old(buf)@ + old(self).incoming().take(n as int)
                && final(self).incoming() == old(self).incoming().skip(n as int)
                && final(self).outgoing() == old(self).outgoing() && final(self).space() == old(
                self,
            ).space() && final(self).spec_status() == old(self).spec_status(),
    ;

    /// Drops `n` readable bytes.
    fn discard(&mut self, n: usize) -> (r: Result<(), Error>)
        requires
            old(self).inv(),
            n <= old(self).incoming().len(),
        ensures
            final(self).inv(),
            final(self).reliable() == old(self).reliable(),
            old(self).reliable() ==> r is Ok,
            r is Ok ==> final(self).incoming() == old(self).incoming().skip(n as int)
                && final(self).outgoing() == old(self).outgoing() && final(self).space() == old(
                self,
            ).space() && final(self).spec_status() == old(self).spec_status(),
    ;
}

/// A transport held in memory: the peer's bytes are `read_buf`, of which
/// `data_ready` bytes from `cursor` on are readable; what is sent goes to
/// `write_buf`, at most `buffer_space` bytes at a time.
#[derive(Debug)]
pub struct MemoryChannel {
    /// Everything the peer has written
    pub read_buf: Vec<u8>,
    /// Everything written to the peer
    pub write_buf: Vec<u8>,
    /// Number of bytes that can be written now
    pub buffer_space: usize,
    /// Number of bytes that can be read now
    pub data_ready: usize,
    /// Position of the next byte to read in `read_buf`
    pub cursor: usize,
    /// Status of the channel
    pub status: Status,
}

impl MemoryChannel {
    /// An empty, connected channel with no free space.
    pub fn new() -> (r: MemoryChannel)
        ensures
            r.inv(),
            r.read_buf@ == Seq::<u8>::empty(),
            r.write_buf@ == Seq::<u8>::empty(),
            r.buffer_space == 0,
            r.data_ready == 0,
            r.cursor == 0,
            r.status == Status::Connected,
    {
        MemoryChannel {
            read_buf: Vec::new(),
            write_buf: Vec::new(),
            buffer_space: 0,
            data_ready: 0,
            cursor: 0,
            status: Status::Connected,
        }
    }
}

impl Transport for MemoryChannel {
    open spec fn inv(&self) -> bool {
        self.cursor + self.data_ready <= self.read_buf@.len()
    }

    open spec fn spec_status(&self) -> Status {
        self.status
    }

    open spec fn incoming(&self) -> Seq<u8> {
        self.read_buf@.subrange(self.cursor as int, self.cursor + self.data_ready)
    }

    open spec fn space(&self) -> nat {
        self.buffer_space as nat
    }

    open spec fn outgoing(&self) -> Seq<u8> {
        self.write_buf@
    }

    open spec fn reliable(&self) -> bool {
        true
    }

    fn status(&self) -> (r: Status) {
        self.status
    }

    fn data_ready(&self) -> (r: usize) {
        self.data_ready
    }

    fn buffer_space(&self) -> (r: usize) {
        self.buffer_space
    }

    fn wait(&mut self) {
    }

    fn send(&mut self, buf: &[u8]) -> (r: Result<(), Error>) {
        let mut i: usize = 0;
        while i < buf.len()
            invariant
                i <= buf@.len(),
                self.write_buf@ == old(self).write_buf@ + buf@.take(i as int),
                self.read_buf == old(self).read_buf,
                self.cursor == old(self).cursor,
                self.data_ready == old(self).data_ready,
                self.status == old(self).status,
                self.buffer_space == old(self).buffer_space,
            decreases buf@.len() - i,
        {
            self.write_buf.push(buf[i]);
            assert(buf@.take(i + 1) =~= buf@.take(i as int).push(buf@[i as int]));
            i = i + 1;
        }
        assert(buf@.take(buf@.len() as int) =~= buf@);
        self.buffer_space = self.buffer_space - buf.len();
        Ok(())
    }

    fn recv_into(&mut self, buf: &mut Vec<u8>, n: usize) -> (r: Result<(), Error>) {
        let total = self.read_buf.len();
        let start = self.cursor;
        let mut i: usize = 0;
        while i < n
            invariant
                i <= n,
                n <= self.data_ready,
                start == self.cursor,
                self.cursor + self.data_ready <= self.read_buf@.len(),
                total == self.read_buf@.len(),
                buf@ == old(buf)@ + self.read_buf@.subrange(start as int, start + i),
                *self == *old(self),
            decreases n - i,
        {
            buf.push(self.read_buf[start + i]);
            assert(self.read_buf@.subrange(start as int, start + i + 1) =~= self.read_buf@.subrange(
                start as int,
                start + i,
            ).push(self.read_buf@[start + i]));
            i = i + 1;
        }
        self.cursor = start + n;
        self.data_ready = self.data_ready - n;
        assert(self.read_buf@.subrange(start as int, start + n) =~= old(self).incoming().take(
            n as int,
        ));
        assert(self.incoming() =~= old(self).incoming().skip(n as int));
        Ok(())
    }

    fn discard(&mut self, n: usize) -> (r: Result<(), Error>) {
        let total = self.read_buf.len();
        let start = self.cursor;
        self.cursor = start + n;
        self.data_ready = self.data_ready - n;
        assert(self.incoming() =~= old(self).incoming().skip(n as int));
        Ok(())
    }
}

} // verus!
