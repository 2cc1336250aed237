//! The two endpoints built on the message stream: a plain connection, and an
//! agent-side client that also tracks which windows exist.
use crate::castable::Castable;
use crate::protocol::{
    spec_length_ok, Header, Message, XConf, XConfVersion, MSG_CREATE, MSG_DESTROY,
};
use crate::stream::{append_slice, frame, message_view, Buffer, RawMessageStream, StreamError};
use crate::transport::{Status, Transport};
use std::collections::BTreeSet;
use vstd::prelude::*;

verus! {

broadcast use vstd::laws_cmp::group_laws_cmp, vstd::std_specs::btree::group_btree_axioms;

/// The header and body bytes of a message, in wire order.
fn framed(message: &[u8], window: u32, ty: u32) -> (r: Vec<u8>)
    requires
        message@.len() <= u32::MAX,
    ensures
        r@ == frame(ty, window, message@),
{
    let header = Header { ty, window, untrusted_len: message.len() as u32 };
    let mut bytes = header.as_bytes();
    append_slice(&mut bytes, message);
    bytes
}

/// A connection to the peer: a message stream with typed sending.
#[derive(Debug)]
pub struct Connection<T: Transport> {
    /// The underlying message stream
    pub raw: RawMessageStream<T>,
}

impl<T: Transport> Connection<T> {
    /// Well-formedness of the underlying stream.
    pub open spec fn wf(&self) -> bool {
        self.raw.wf()
    }

    /// Everything handed to the connection for sending, whether it has
    /// reached the transport or is still queued.
    pub open spec fn sent(&self) -> Seq<u8> {
        self.raw.vchan.outgoing() + self.raw.queue@
    }

    /// Sends a GUI message.  Never blocks: outgoing bytes are queued until
    /// the transport has space.
    pub fn send<M: Message>(&mut self, message: &M, window: u32) -> (r: Result<(), StreamError>)
        requires
            old(self).wf(),
            spec_length_ok(M::spec_kind(), M::spec_size()),
        ensures
            final(self).wf(),
            old(self).raw.wrote(
                &final(self).raw,
                frame(M::spec_kind(), window, message.spec_bytes()),
                r,
            ),
            r is Ok ==> final(self).sent() == old(self).sent() + frame(
                M::spec_kind(),
                window,
                message.spec_bytes(),
            ),
    {
        let bytes = message.as_bytes();
        proof {
            message.lemma_round_trip();
        }
        self.send_raw(bytes.as_slice(), window, M::kind())
    }

    /// Sends a message of type `ty` whose body is `message`.  The type must
    /// be known and the length legal for it.
    pub fn send_raw(&mut self, message: &[u8], window: u32, ty: u32) -> (r: Result<(), StreamError>)
        requires
            old(self).wf(),
            spec_length_ok(ty, message@.len()),
        ensures
            final(self).wf(),
            old(self).raw.wrote(&final(self).raw, frame(ty, window, message@), r),
            r is Ok ==> final(self).sent() == old(self).sent() + frame(ty, window, message@),
    {
        proof {
            crate::protocol::lemma_length_limits(ty);
        }
        let bytes = framed(message, window, ty);
        self.raw.write(bytes.as_slice())
    }

    /// Sends raw bytes, with no framing.
    pub fn send_raw_bytes(&mut self, msg: &[u8]) -> (r: Result<(), StreamError>)
        requires
            old(self).wf(),
        ensures
            final(self).wf(),
            old(self).raw.wrote(&final(self).raw, msg@, r),
            r is Ok ==> final(self).sent() == old(self).sent() + msg@,
    {
        self.raw.write(msg)
    }

    /// Acknowledges an event on the transport.
    pub fn wait(&mut self)
        requires
            old(self).wf(),
        ensures
            final(self).wf(),
            final(self).raw.state == old(self).raw.state,
            final(self).sent() == old(self).sent(),
    {
        self.raw.wait()
    }

    /// Reads a message if one is complete; `None` if more bytes must arrive
    /// first.  See [`RawMessageStream::read_message`].
    pub fn read_message(&mut self) -> (r: Result<Option<Buffer>, StreamError>)
        requires
            old(self).wf(),
        ensures
            final(self).wf(),
            old(self).raw.read_outcome(&final(self).raw, message_view(r)),
            r is Ok && crate::stream::is_framing(old(self).raw.state) ==> final(self).sent() == old(
                self,
            ).sent(),
    {
        let ghost q = self.raw.queue@;
        let ghost k = self.raw.flush_count();
        let r = self.raw.read_message();
        assert(q.take(k as int) + q.skip(k as int) =~= q);
        r
    }

    /// Creates a daemon instance on a transport connecting to `domain`.
    pub fn daemon(vchan: T, domain: u16, xconf: XConf) -> (r: Self)
        requires
            vchan.inv(),
        ensures
            r.wf(),
            r.raw.vchan == vchan,
            r.raw.kind == crate::stream::Kind::Daemon,
            r.raw.state == crate::stream::ReadState::Connecting,
    {
        Connection { raw: RawMessageStream::daemon(vchan, domain, xconf) }
    }

    /// Creates an agent instance on a transport listening for `domain`.
    pub fn agent(vchan: T, domain: u16) -> (r: Self)
        requires
            vchan.inv(),
        ensures
            r.wf(),
            r.raw.vchan == vchan,
            r.raw.kind == crate::stream::Kind::Agent,
            r.raw.state == crate::stream::ReadState::Connecting,
    {
        Connection { raw: RawMessageStream::agent(vchan, domain) }
    }

    /// Starts over on the fresh transport `vchan`.
    pub fn reconnect(&mut self, vchan: T)
        requires
            vchan.inv(),
        ensures
            final(self).wf(),
            final(self).raw.vchan == vchan,
            final(self).raw.state == crate::stream::ReadState::Connecting,
            final(self).raw.queue@.len() == 0,
    {
        self.raw.reconnect(vchan)
    }

    /// Gets and clears the flag that a connection was completed.
    pub fn reconnected(&mut self) -> (r: bool)
        ensures
            r == old(self).raw.did_reconnect,
            !final(self).raw.did_reconnect,
            final(self).raw.state == old(self).raw.state,
    {
        self.raw.reconnected()
    }

    /// Returns true if the peer has disconnected.
    pub fn needs_reconnect(&self) -> (r: bool)
        requires
            self.wf(),
        ensures
            r == (self.raw.vchan.spec_status() == Status::Disconnected),
    {
        self.raw.needs_reconnect()
    }
}

/// An agent-side (or daemon-side) client, which checks on the agent side
/// that messages only go to windows that exist.
#[derive(Debug)]
pub struct Client<T: Transport> {
    /// The underlying message stream
    raw: RawMessageStream<T>,
    /// Windows created and not yet destroyed
    present_windows: BTreeSet<u32>,
    /// Whether this is the agent side
    agent: bool,
}

/// The header and body of the message read, if any.
pub open spec fn pair_view(r: Result<Option<(Header, Vec<u8>)>, StreamError>) -> Result<
    Option<(Header, Seq<u8>)>,
    StreamError,
> {
    match r {
        Ok(Some((h, body))) => Ok(Some((h, body@))),
        Ok(None) => Ok(None),
        Err(e) => Err(e),
    }
}

impl<T: Transport> Client<T> {
    /// Well-formedness of the underlying stream.
    pub closed spec fn wf(&self) -> bool {
        self.raw.wf()
    }

    /// The windows that exist.
    pub closed spec fn windows(&self) -> Set<u32> {
        self.present_windows@
    }

    /// The underlying message stream.
    pub closed spec fn stream(&self) -> RawMessageStream<T> {
        self.raw
    }

    /// Whether this is the agent side.
    pub closed spec fn is_agent(&self) -> bool {
        self.agent
    }

    /// Everything handed to the client for sending.
    pub closed spec fn sent(&self) -> Seq<u8> {
        self.raw.vchan.outgoing() + self.raw.queue@
    }

    /// Whether an agent may send a message of type `ty` for `window`:
    /// a window is created once, and only existing windows get any other
    /// message.
    pub open spec fn may_target(&self, ty: u32, window: u32) -> bool {
        self.is_agent() ==> if ty == MSG_CREATE {
            !self.windows().contains(window)
        } else {
            self.windows().contains(window)
        }
    }

    /// The windows after a message of type `ty` went to `window`.
    pub open spec fn windows_after(&self, ty: u32, window: u32) -> Set<u32> {
        if !self.is_agent() {
            self.windows()
        } else if ty == MSG_CREATE {
            self.windows().insert(window)
        } else if ty == MSG_DESTROY {
            self.windows().remove(window)
        } else {
            self.windows()
        }
    }

    /// Sends a GUI message.  Never blocks: outgoing bytes are queued until
    /// the transport has space.
    pub fn send<M: Message>(&mut self, message: &M, window: u32) -> (r: Result<(), StreamError>)
        requires
            old(self).wf(),
            window != 0,
            spec_length_ok(M::spec_kind(), M::spec_size()),
            old(self).may_target(M::spec_kind(), window),
        ensures
            final(self).wf(),
            final(self).is_agent() == old(self).is_agent(),
            final(self).windows() == old(self).windows_after(M::spec_kind(), window),
            old(self).stream().wrote(
                &final(self).stream(),
                frame(M::spec_kind(), window, message.spec_bytes()),
                r,
            ),
            r is Ok ==> final(self).sent() == old(self).sent() + frame(
                M::spec_kind(),
                window,
                message.spec_bytes(),
            ),
    {
        let bytes = message.as_bytes();
        proof {
            message.lemma_round_trip();
        }
        self.send_raw(bytes.as_slice(), window, M::kind())
    }

    /// Sends a message of type `ty` whose body is `message`, keeping track
    /// of created and destroyed windows on the agent side.
    pub fn send_raw(&mut self, message: &[u8], window: u32, ty: u32) -> (r: Result<(), StreamError>)
        requires
            old(self).wf(),
            window != 0,
            message@.len() <= u32::MAX,
            old(self).may_target(ty, window),
        ensures
            final(self).wf(),
            final(self).is_agent() == old(self).is_agent(),
            final(self).windows() == old(self).windows_after(ty, window),
            old(self).stream().wrote(&final(self).stream(), frame(ty, window, message@), r),
            r is Ok ==> final(self).sent() == old(self).sent() + frame(ty, window, message@),
    {
        if self.agent {
            if ty == MSG_CREATE {
                self.present_windows.insert(window);
            } else if ty == MSG_DESTROY {
                self.present_windows.remove(&window);
            }
        }
        let bytes = framed(message, window, ty);
        self.raw.write(bytes.as_slice())
    }

    /// Sends raw bytes, with no framing.
    pub fn send_raw_bytes(&mut self, msg: &[u8]) -> (r: Result<(), StreamError>)
        requires
            old(self).wf(),
        ensures
            final(self).wf(),
            final(self).windows() == old(self).windows(),
            old(self).stream().wrote(&final(self).stream(), msg@, r),
            r is Ok ==> final(self).sent() == old(self).sent() + msg@,
    {
        self.raw.write(msg)
    }

    /// Acknowledges an event on the transport.
    pub fn wait(&mut self)
        requires
            old(self).wf(),
        ensures
            final(self).wf(),
            final(self).windows() == old(self).windows(),
            final(self).stream().state == old(self).stream().state,
            final(self).sent() == old(self).sent(),
    {
        self.raw.wait()
    }

    /// Reads a message if one is complete: its header and body.  `None` if
    /// more bytes must arrive first.
    pub fn read_header(&mut self) -> (r: Result<Option<(Header, Vec<u8>)>, StreamError>)
        requires
            old(self).wf(),
        ensures
            final(self).wf(),
            final(self).windows() == old(self).windows(),
            final(self).is_agent() == old(self).is_agent(),
            old(self).stream().read_outcome(&final(self).stream(), pair_view(r)),
            r matches Ok(Some((h, body))) ==> body@.len() == h.untrusted_len && spec_length_ok(
                h.ty,
                h.untrusted_len as nat,
            ),
    {
        proof {
            if crate::stream::is_framing(self.raw.state) {
                crate::stream::lemma_frame_run_message(
                    self.raw.state,
                    self.raw.buffer@,
                    self.raw.vchan.incoming(),
                );
            }
        }
        match self.raw.read_message() {
            Ok(Some(buffer)) => {
                let hdr = buffer.hdr();
                Ok(Some((hdr, buffer.take())))
            },
            Ok(None) => Ok(None),
            Err(e) => Err(e),
        }
    }

    /// Creates a daemon instance on a transport connecting to `domain`.
    pub fn daemon(vchan: T, domain: u16, xconf: XConf) -> (r: Self)
        requires
            vchan.inv(),
        ensures
            r.wf(),
            !r.is_agent(),
            r.windows() == Set::<u32>::empty(),
            r.stream().vchan == vchan,
            r.stream().state == crate::stream::ReadState::Connecting,
    {
        let r = Client {
            raw: RawMessageStream::daemon(vchan, domain, xconf),
            present_windows: BTreeSet::new(),
            agent: false,
        };
        r
    }

    /// Creates an agent instance on a transport listening for `domain`.
    pub fn agent(vchan: T, domain: u16) -> (r: Self)
        requires
            vchan.inv(),
        ensures
            r.wf(),
            r.is_agent(),
            r.windows() == Set::<u32>::empty(),
            r.stream().vchan == vchan,
            r.stream().state == crate::stream::ReadState::Connecting,
    {
        let r = Client {
            raw: RawMessageStream::agent(vchan, domain),
            present_windows: BTreeSet::new(),
            agent: true,
        };
        r
    }

    /// Starts over on the fresh transport `vchan`.  Windows are forgotten:
    /// the peer knows none of them.
    pub fn reconnect(&mut self, vchan: T)
        requires
            vchan.inv(),
        ensures
            final(self).wf(),
            final(self).is_agent() == old(self).is_agent(),
            final(self).windows() == Set::<u32>::empty(),
            final(self).stream().vchan == vchan,
            final(self).stream().state == crate::stream::ReadState::Connecting,
            final(self).stream().queue@.len() == 0,
    {
        self.raw.reconnect(vchan);
        self.present_windows.clear();
    }

    /// Gets and clears the flag that a connection was completed.
    pub fn reconnected(&mut self) -> (r: bool)
        requires
            old(self).wf(),
        ensures
            final(self).wf(),
            r == old(self).stream().did_reconnect,
            !final(self).stream().did_reconnect,
            final(self).windows() == old(self).windows(),
    {
        self.raw.reconnected()
    }

    /// The daemon's configuration: the one negotiated, on the agent side, or
    /// the one offered, on the daemon side.
    pub fn xconf(&self) -> (r: XConfVersion)
        ensures
            r == self.stream().xconf,
    {
        self.raw.xconf
    }

    /// The transport.
    pub fn transport(&self) -> (r: &T)
        ensures
            *r == self.stream().vchan,
    {
        &self.raw.vchan
    }

    /// The transport, for the code that drives it.
    pub fn transport_mut(&mut self) -> (r: &mut T)
        ensures
            *r == old(self).stream().vchan,
            final(self).stream().vchan == *final(r),
            final(self).stream().state == old(self).stream().state,
            final(self).stream().queue == old(self).stream().queue,
            final(self).windows() == old(self).windows(),
            final(self).is_agent() == old(self).is_agent(),
    {
        &mut self.raw.vchan
    }

    /// Returns true if the peer has disconnected.
    pub fn needs_reconnect(&self) -> (r: bool)
        requires
            self.wf(),
        ensures
            r == (self.stream().vchan.spec_status() == Status::Disconnected),
    {
        self.raw.needs_reconnect()
    }
}

} // verus!
