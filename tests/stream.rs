use qubes_gui_proto::castable::Castable;
use std::collections::VecDeque;
use qubes_gui_proto::protocol::{
    Configure, Coordinates, Header, Rectangle, WindowSize, XConf, XConfVersion, MSG_CONFIGURE,
    MSG_MFNDUMP,
};
use qubes_gui_proto::stream::{Kind, RawMessageStream, ReadState, XCONF_VERSION_SIZE};
use qubes_gui_proto::transport::{MemoryChannel, Transport};

fn xconf() -> XConfVersion {
    XConfVersion {
        version: 0,
        xconf: XConf { size: WindowSize { width: 0, height: 0 }, depth: 0, mem: 0 },
    }
}

fn stream(state: ReadState) -> RawMessageStream<MemoryChannel> {
    RawMessageStream {
        vchan: MemoryChannel::new(),
        queue: VecDeque::new(),
        state,
        buffer: vec![],
        did_reconnect: false,
        xconf: xconf(),
        kind: Kind::Agent,
        domid: 0,
    }
}

#[test]
fn vchan_writes() {
    let mut under_test = stream(ReadState::Connecting);
    under_test.vchan.buffer_space = 4;
    assert!(under_test.read_message().unwrap().is_none(), "no bytes to read");
    under_test.vchan.write_buf.clear();
    under_test.write(b"test1").unwrap();
    assert_eq!(under_test.queue.len(), 5, "message queued");
    assert_eq!(under_test.queue, *b"test1");
    assert_eq!(under_test.vchan.write_buf, b"", "no bytes written");
    // Until the handshake is done, application bytes stay queued.
    under_test.vchan.buffer_space = 3;
    assert_eq!(under_test.flush_pending_writes(), Ok(0), "drained successfully");
    assert_eq!(under_test.queue.len(), 5);
    assert_eq!(under_test.queue, *b"test1");
    assert_eq!(under_test.vchan.write_buf, b"");
    assert_eq!(under_test.vchan.buffer_space, 3);
    under_test.vchan.buffer_space = 4;
    under_test.write(b"\0another alpha").unwrap();
    assert_eq!(under_test.queue.len(), 19);
    assert_eq!(under_test.vchan.write_buf, b"");
    assert_eq!(under_test.queue, *b"test1\0another alpha", "nothing dropped");
    under_test.vchan.buffer_space = 2;
    assert_eq!(under_test.flush_pending_writes(), Ok(0), "drained successfully");
    assert_eq!(under_test.vchan.write_buf, b"");
    assert_eq!(under_test.vchan.buffer_space, 2);
    under_test.vchan.buffer_space = 7;
    assert!(under_test.read_message().unwrap().is_none(), "no bytes to read");
    assert_eq!(under_test.vchan.buffer_space, 7);
    assert_eq!(under_test.vchan.write_buf, b"");
    assert_eq!(under_test.queue.len(), 19);
    under_test.vchan.buffer_space = 8;
    under_test.write(b" gamma delta").expect("write works");
    assert_eq!(under_test.vchan.write_buf, b"");
    under_test.write(b" gamma delta").expect("write works");
    under_test.write(b" gamma delta").expect("write works");
    assert_eq!(under_test.queue.len(), 55);
    under_test.vchan.buffer_space = 8;
    let version = XConfVersion { version: 0x10004, xconf: xconf().xconf };
    under_test.vchan.read_buf.extend_from_slice(&version.as_bytes());
    under_test.vchan.data_ready = 12;

    assert!(under_test.vchan.data_ready() < XCONF_VERSION_SIZE);
    assert!(matches!(under_test.state, ReadState::Negotiating));
    assert!(under_test.read_message().unwrap().is_none(), "not enough bytes to read");
    assert_eq!(under_test.vchan.data_ready, 12);
    assert!(matches!(under_test.state, ReadState::Negotiating));
    under_test.vchan.data_ready += 8;
    under_test.vchan.buffer_space = 8;
    assert!(under_test.read_message().unwrap().is_none(), "no bytes to read");
    assert_eq!(under_test.vchan.data_ready, 0);
    assert!(matches!(under_test.state, ReadState::ReadingHeader));
    assert_eq!(under_test.vchan.write_buf, b"", "queued until the handshake is done");
    under_test.vchan.buffer_space = 8;
    assert!(under_test.read_message().unwrap().is_none(), "no bytes to read");
    assert_eq!(under_test.vchan.write_buf, b"test1\0an");
    under_test.vchan.buffer_space = 8;
    assert!(under_test.read_message().unwrap().is_none(), "no bytes to read");
    assert_eq!(under_test.vchan.write_buf, b"test1\0another al");
    while !under_test.queue.is_empty() {
        under_test.vchan.buffer_space = 8;
        assert!(under_test.read_message().unwrap().is_none(), "no bytes to read");
    }
    assert_eq!(
        under_test.vchan.write_buf,
        b"test1\0another alpha gamma delta gamma delta gamma delta",
        "correct data written"
    );
}

#[test]
fn vchan_reads() {
    let mut under_test = stream(ReadState::ReadingHeader);
    let mut hdr = Header { untrusted_len: 1, ty: MSG_MFNDUMP, window: 0 };
    under_test.vchan.read_buf.extend_from_slice(&hdr.as_bytes());
    under_test.vchan.data_ready = 2;
    assert!(under_test.read_message().unwrap().is_none(), "not enough data");
    assert!(matches!(under_test.state, ReadState::ReadingHeader));
    under_test.vchan.data_ready = 12;
    // A deprecated page-frame dump is skipped like a message of unknown type:
    // its one-byte body is awaited only to be discarded.
    assert!(under_test.read_message().unwrap().is_none(), "skipped");
    assert_eq!(under_test.state, ReadState::Discard(1));

    // Test that a header and partial body can be read in one go
    under_test.state = ReadState::ReadingHeader;
    hdr.ty = MSG_CONFIGURE;
    hdr.untrusted_len = Configure::size() as u32;
    under_test.vchan.data_ready = 13;
    under_test.vchan.read_buf.extend_from_slice(&hdr.as_bytes());
    let c = Configure {
        rectangle: Rectangle {
            top_left: Coordinates { x: 0, y: 0 },
            size: WindowSize { width: 1, height: 1 },
        },
        override_redirect: 0,
    };
    under_test.vchan.read_buf.extend_from_slice(&c.as_bytes());
    assert!(under_test.read_message().unwrap().is_none(), "body not fully written yet!");
    match under_test.state {
        ReadState::ReadingBody { header } => assert_eq!(header, hdr),
        e => panic!("Bad state {:?}!", e),
    }
    assert_eq!(under_test.buffer.len(), 1);
    assert_eq!(under_test.vchan.data_ready, 0);

    // Test partial reads when there is already some data in the buffer
    under_test.vchan.data_ready = 5;
    assert!(under_test.read_message().unwrap().is_none(), "body not fully written yet!");
    match under_test.state {
        ReadState::ReadingBody { header } => assert_eq!(header, hdr),
        e => panic!("Bad state {:?}!", e),
    }
    assert_eq!(under_test.buffer.len(), 6);
    assert_eq!(under_test.vchan.data_ready, 0);

    // Test completion of body
    under_test.vchan.data_ready = Configure::size() - 6;
    assert!(under_test.read_message().unwrap().is_some(), "have a body!");
    assert!(matches!(under_test.state, ReadState::ReadingHeader));
    assert_eq!(under_test.buffer.len(), Configure::size());
    assert_eq!(under_test.vchan.data_ready, 0);
}

#[test]
fn error_state_is_terminal() {
    let mut s = stream(ReadState::Error);
    s.vchan.buffer_space = 100;
    assert!(s.read_message().is_err());
    assert!(s.write(b"abc").is_err());
    assert_eq!(s.vchan.write_buf, b"");
    assert_eq!(s.state, ReadState::Error);
}

#[test]
fn reconnect_starts_over() {
    let mut s = stream(ReadState::ReadingHeader);
    s.queue = b"pending".iter().copied().collect();
    s.buffer = b"partial".to_vec();
    let mut fresh = MemoryChannel::new();
    fresh.buffer_space = 64;
    s.reconnect(fresh);
    assert_eq!(s.state, ReadState::Connecting);
    assert!(s.queue.is_empty());
    assert!(s.buffer.is_empty());
    assert_eq!(s.vchan.buffer_space, 64);
    assert!(!s.needs_reconnect());
    s.vchan.status = qubes_gui_proto::transport::Status::Disconnected;
    assert!(s.needs_reconnect());
}
