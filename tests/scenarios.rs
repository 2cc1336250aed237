use qubes_gui_proto::castable::{from_bytes, Castable};
use qubes_gui_proto::connection::{Client, Connection};
use qubes_gui_proto::dimensions::WindowDimensions;
use qubes_gui_proto::event::Event;
use qubes_gui_proto::protocol::{
    length_limits, Button, Coordinates, Create, Focus, Header, Keypress, MapInfo, Motion, Rectangle,
    WMName,
    WindowSize, XConf, MSG_BUTTON, MSG_CLIPBOARD_DATA, MSG_CLOSE, MSG_CREATE, MSG_MAP, MSG_MOTION,
    MSG_SET_TITLE, MSG_WINDOW_DUMP,
};
use qubes_gui_proto::stream::{Buffer, ReadState, StreamError};
use qubes_gui_proto::transport::MemoryChannel;

fn channel(space: usize) -> MemoryChannel {
    let mut c = MemoryChannel::new();
    c.buffer_space = space;
    c
}

/// Moves what `from` has written into what `to` can read.
fn deliver(from: &mut MemoryChannel, to: &mut MemoryChannel) {
    let bytes = std::mem::take(&mut from.write_buf);
    to.data_ready += bytes.len();
    to.read_buf.extend_from_slice(&bytes);
}

fn root_conf() -> XConf {
    XConf { size: WindowSize { width: 1920, height: 1080 }, depth: 24, mem: 8100 }
}

/// An agent client and a daemon connection that have completed the
/// handshake.
fn connected_pair() -> (Client<MemoryChannel>, Connection<MemoryChannel>) {
    let mut agent = Client::agent(channel(1 << 20), 0);
    let mut daemon = Connection::daemon(channel(1 << 20), 0, root_conf());
    assert!(agent.read_header().unwrap().is_none());
    deliver(agent.transport_mut(), &mut daemon.raw.vchan);
    assert!(daemon.read_message().unwrap().is_none());
    assert_eq!(daemon.raw.state, ReadState::ReadingHeader);
    deliver(&mut daemon.raw.vchan, agent.transport_mut());
    assert!(agent.read_header().unwrap().is_none());
    (agent, daemon)
}

fn expect_message(daemon: &mut Connection<MemoryChannel>, ty: u32, window: u32, body: &[u8]) {
    let m: Buffer = daemon.read_message().unwrap().expect("a message");
    assert_eq!(m.hdr(), Header { ty, window, untrusted_len: body.len() as u32 });
    assert_eq!(m.body(), body);
}

fn title(s: &[u8]) -> WMName {
    let mut data = [0u8; 128];
    data[..s.len()].copy_from_slice(s);
    WMName { data }
}

#[test]
fn minimal_window() {
    let (mut agent, mut daemon) = connected_pair();
    assert_eq!(agent.xconf().xconf, root_conf());
    assert_eq!(agent.xconf().version, 0x10004);
    assert!(agent.reconnected());
    assert!(!agent.reconnected());
    let create = Create {
        rectangle: Rectangle {
            top_left: Coordinates { x: 50, y: 400 },
            size: WindowSize { width: 512, height: 256 },
        },
        parent: 0,
        override_redirect: 0,
    };
    agent.send(&create, 50).unwrap();
    let dims = WindowDimensions::new(512, 256).unwrap();
    let grants: Vec<u32> = (1..=dims.grefs()).collect();
    assert_eq!(grants.len(), 128);
    let dump = dims.window_dump(&grants);
    agent.send_raw(&dump, 50, MSG_WINDOW_DUMP).unwrap();
    let name = title(b"demo\0");
    agent.send(&name, 50).unwrap();
    let map = MapInfo { transient_for: 0, override_redirect: 0 };
    agent.send(&map, 50).unwrap();
    deliver(agent.transport_mut(), &mut daemon.raw.vchan);

    expect_message(&mut daemon, MSG_CREATE, 50, &create.as_bytes());
    expect_message(&mut daemon, MSG_WINDOW_DUMP, 50, &dump);
    expect_message(&mut daemon, MSG_SET_TITLE, 50, &name.as_bytes());
    expect_message(&mut daemon, MSG_MAP, 50, &map.as_bytes());
    assert!(daemon.read_message().unwrap().is_none());
    assert_eq!(dump.len(), 16 + 4 * 128);
    assert_eq!(&dump[..16], &[0, 0, 0, 0, 0, 2, 0, 0, 0, 1, 0, 0, 24, 0, 0, 0]);
}

#[test]
fn input_delivery() {
    let (mut agent, mut daemon) = connected_pair();
    let at = Coordinates { x: 10, y: 20 };
    daemon.send(&Motion { coordinates: at, state: 0, is_hint: 0 }, 7).unwrap();
    daemon.send(&Button { ty: 4, coordinates: at, state: 0, button: 1 }, 7).unwrap();
    daemon.send(&Button { ty: 5, coordinates: at, state: 0, button: 1 }, 7).unwrap();
    deliver(&mut daemon.raw.vchan, agent.transport_mut());

    let e = agent.next_event().unwrap().unwrap();
    match e.event().unwrap() {
        Some((7, Event::Motion(m))) => assert_eq!((m.coordinates.x, m.coordinates.y), (10, 20)),
        other => panic!("unexpected {:?}", other),
    }
    for ty in [4, 5] {
        let e = agent.next_event().unwrap().unwrap();
        assert_eq!(e.header.ty, MSG_BUTTON);
        match e.event().unwrap() {
            Some((7, Event::Button(b))) => {
                assert_eq!(b.ty, ty);
                assert_eq!((b.coordinates.x, b.coordinates.y), (10, 20));
            },
            other => panic!("unexpected {:?}", other),
        }
    }
    assert!(agent.next_event().unwrap().is_none());
}

#[test]
fn unknown_kind_skip() {
    let (mut agent, mut daemon) = connected_pair();
    let junk = Header { ty: 9999, window: 1, untrusted_len: 7 };
    daemon.send_raw_bytes(&junk.as_bytes()).unwrap();
    daemon.send_raw_bytes(b"1234567").unwrap();
    daemon.send_raw(&[], 1, MSG_CLOSE).unwrap();
    deliver(&mut daemon.raw.vchan, agent.transport_mut());
    let e = agent.next_event().unwrap().unwrap();
    assert_eq!(e.header, Header { ty: MSG_CLOSE, window: 1, untrusted_len: 0 });
    assert!(matches!(e.event(), Ok(Some((1, Event::Close)))));
    assert!(agent.next_event().unwrap().is_none());
}

#[test]
fn unknown_kind_arriving_in_pieces() {
    let mut agent = Client::agent(channel(1 << 20), 0);
    let mut daemon = Connection::daemon(channel(1 << 20), 0, root_conf());
    // Complete the handshake by hand.
    assert!(agent.read_header().unwrap().is_none());
    deliver(agent.transport_mut(), &mut daemon.raw.vchan);
    assert!(daemon.read_message().unwrap().is_none());
    let mut bytes = std::mem::take(&mut daemon.raw.vchan.write_buf);
    bytes.extend_from_slice(&Header { ty: 9999, window: 1, untrusted_len: 300 }.as_bytes());
    bytes.extend_from_slice(&[0xAA; 300]);
    bytes.extend_from_slice(&Header { ty: MSG_CLOSE, window: 3, untrusted_len: 0 }.as_bytes());
    let mut events = vec![];
    for chunk in bytes.chunks(7) {
        let ch = agent.transport_mut();
        ch.read_buf.extend_from_slice(chunk);
        ch.data_ready += chunk.len();
        while let Some(e) = agent.next_event().unwrap() {
            events.push(e.header);
        }
    }
    assert_eq!(events, vec![Header { ty: MSG_CLOSE, window: 3, untrusted_len: 0 }]);
}

#[test]
fn oversize_rejection() {
    let (mut agent, mut daemon) = connected_pair();
    daemon
        .send_raw_bytes(&Header { ty: MSG_MOTION, window: 1, untrusted_len: 5 }.as_bytes())
        .unwrap();
    daemon.send_raw_bytes(&[0; 5]).unwrap();
    let motion = Motion { coordinates: Coordinates { x: 1, y: 1 }, state: 0, is_hint: 0 };
    daemon.send(&motion, 1).unwrap();
    deliver(&mut daemon.raw.vchan, agent.transport_mut());
    assert_eq!(
        agent.read_header().unwrap_err(),
        StreamError::BadLength { ty: MSG_MOTION, len: 5 }
    );
    assert_eq!(agent.read_header().unwrap_err(), StreamError::Failed);
    assert_eq!(agent.read_header().unwrap_err(), StreamError::Failed);
}

#[test]
fn backpressure_queue() {
    let (mut agent, mut daemon) = connected_pair();
    agent.send(&Create { parent: 0, override_redirect: 0, rectangle: Rectangle {
        top_left: Coordinates { x: 0, y: 0 },
        size: WindowSize { width: 10, height: 10 },
    } }, 9).unwrap();
    deliver(agent.transport_mut(), &mut daemon.raw.vchan);
    let body = [0, 0, 0, 0, 0, 0, 0, 0, 10, 0, 0, 0, 10, 0, 0, 0, 0, 0, 0, 0, 0, 0, 0, 0];
    expect_message(&mut daemon, MSG_CREATE, 9, &body);

    agent.transport_mut().buffer_space = 0;
    let titles: Vec<WMName> = (0..10u8).map(|i| title(&[b'a' + i; 20])).collect();
    for t in &titles {
        agent.send(t, 9).unwrap();
    }
    assert!(agent.transport_mut().write_buf.is_empty());

    // The daemon also sends the agent events while the queue drains.
    for i in 0..5u32 {
        let motion = Motion { coordinates: Coordinates { x: i, y: i }, state: 0, is_hint: 0 };
        daemon.send(&motion, 9).unwrap();
    }
    let inbound = std::mem::take(&mut daemon.raw.vchan.write_buf);

    let mut received = vec![];
    let mut motions = vec![];
    let mut fed = 0;
    for _ in 0..100 {
        agent.transport_mut().buffer_space = 40;
        if fed < inbound.len() {
            let n = 9.min(inbound.len() - fed);
            let ch = agent.transport_mut();
            ch.read_buf.extend_from_slice(&inbound[fed..fed + n]);
            ch.data_ready += n;
            fed += n;
        }
        while let Some((h, body)) = agent.read_header().unwrap() {
            assert_eq!(h.ty, MSG_MOTION);
            motions.push(from_bytes::<Motion>(&body).unwrap().coordinates.x);
        }
        assert!(agent.transport_mut().write_buf.len() <= 40);
        deliver(agent.transport_mut(), &mut daemon.raw.vchan);
        while let Some(m) = daemon.read_message().unwrap() {
            assert_eq!(m.hdr().ty, MSG_SET_TITLE);
            received.push(m.take());
        }
    }
    assert_eq!(motions, vec![0, 1, 2, 3, 4]);
    let expected: Vec<Vec<u8>> = titles.iter().map(|t| t.as_bytes()).collect();
    assert_eq!(received, expected);
}

#[test]
fn clipboard_size_boundary() {
    let (mut agent, mut daemon) = connected_pair();
    let data = vec![b'x'; 65000];
    daemon.send_raw(&data, 1, MSG_CLIPBOARD_DATA).unwrap();
    deliver(&mut daemon.raw.vchan, agent.transport_mut());
    let e = agent.next_event().unwrap().unwrap();
    match e.event() {
        Ok(Some((1, Event::ClipboardData { untrusted_data }))) => {
            assert_eq!(untrusted_data.len(), 65000)
        },
        other => panic!("unexpected {:?}", other),
    }

    daemon
        .send_raw_bytes(
            &Header { ty: MSG_CLIPBOARD_DATA, window: 1, untrusted_len: 65001 }.as_bytes(),
        )
        .unwrap();
    daemon.send_raw_bytes(&vec![b'x'; 65001]).unwrap();
    deliver(&mut daemon.raw.vchan, agent.transport_mut());
    assert!(agent.next_event().is_err());
    assert!(agent.next_event().is_err());
}

#[test]
fn invalid_utf8_clipboard() {
    let (mut agent, mut daemon) = connected_pair();
    daemon.send_raw(&[0xff, 0xfe], 1, MSG_CLIPBOARD_DATA).unwrap();
    daemon.send_raw(&[], 1, MSG_CLOSE).unwrap();
    deliver(&mut daemon.raw.vchan, agent.transport_mut());
    let e = agent.next_event().unwrap().unwrap();
    assert_eq!(e.event().unwrap_err(), qubes_gui_proto::event::Error::BadUTF8);
    let e = agent.next_event().unwrap().unwrap();
    assert!(matches!(e.event(), Ok(Some((1, Event::Close)))));
}

#[test]
fn event_types_decoded_as_they_are() {
    let (mut agent, mut daemon) = connected_pair();
    let at = Coordinates { x: 3, y: 4 };
    daemon.send(&Button { ty: 7, coordinates: at, state: 0, button: 1 }, 2).unwrap();
    daemon.send(&Keypress { ty: 0, coordinates: at, state: 0, keycode: 9 }, 2).unwrap();
    daemon.send(&Focus { ty: 3, mode: 0, detail: 0 }, 2).unwrap();
    deliver(&mut daemon.raw.vchan, agent.transport_mut());
    let e = agent.next_event().unwrap().unwrap();
    match e.event().unwrap() {
        Some((2, Event::Button(b))) => assert_eq!((b.ty, b.button), (7, 1)),
        other => panic!("unexpected {:?}", other),
    }
    let e = agent.next_event().unwrap().unwrap();
    match e.event().unwrap() {
        Some((2, Event::Keypress(k))) => assert_eq!((k.ty, k.keycode), (0, 9)),
        other => panic!("unexpected {:?}", other),
    }
    let e = agent.next_event().unwrap().unwrap();
    match e.event().unwrap() {
        Some((2, Event::Focus(f))) => assert_eq!((f.ty, f.mode, f.detail), (3, 0, 0)),
        other => panic!("unexpected {:?}", other),
    }
}

#[test]
fn every_kind_round_trips() {
    let (mut agent, mut daemon) = connected_pair();
    let mut sent = vec![];
    for ty in 124..=148u32 {
        if let Some((lo, hi)) = length_limits(ty) {
            for len in [lo, hi.min(lo + 3)] {
                let body: Vec<u8> = (0..len).map(|i| (i * 7 + ty as usize) as u8).collect();
                daemon.send_raw(&body, ty, ty).unwrap();
                sent.push((ty, body));
            }
        }
    }
    let mut bytes = std::mem::take(&mut daemon.raw.vchan.write_buf);
    // Deliver in uneven pieces, reading after each.
    let mut received = vec![];
    let mut step = 1;
    while !bytes.is_empty() {
        let n = step.min(bytes.len());
        let rest = bytes.split_off(n);
        let ch = agent.transport_mut();
        ch.read_buf.extend_from_slice(&bytes);
        ch.data_ready += n;
        bytes = rest;
        step = step % 13 + 1;
        while let Some((h, body)) = agent.read_header().unwrap() {
            assert_eq!(h.window, h.ty);
            received.push((h.ty, body));
        }
    }
    assert_eq!(received, sent);
}

#[test]
fn writes_before_handshake_are_delivered_in_order() {
    let mut agent = Client::agent(channel(1 << 20), 0);
    let mut daemon = Connection::daemon(channel(1 << 20), 0, root_conf());
    let map = MapInfo { transient_for: 0, override_redirect: 1 };
    let create = Create {
        rectangle: Rectangle {
            top_left: Coordinates { x: 1, y: 2 },
            size: WindowSize { width: 3, height: 4 },
        },
        parent: 0,
        override_redirect: 1,
    };
    agent.send(&create, 4).unwrap();
    agent.send(&map, 4).unwrap();
    assert!(agent.transport_mut().write_buf.is_empty());
    assert!(agent.read_header().unwrap().is_none());
    // Only the version has gone out so far.
    assert_eq!(agent.transport_mut().write_buf, 0x10004u32.to_le_bytes());
    deliver(agent.transport_mut(), &mut daemon.raw.vchan);
    assert!(daemon.read_message().unwrap().is_none());
    deliver(&mut daemon.raw.vchan, agent.transport_mut());
    assert!(agent.read_header().unwrap().is_none());
    assert!(agent.read_header().unwrap().is_none());
    deliver(agent.transport_mut(), &mut daemon.raw.vchan);
    expect_message(&mut daemon, MSG_CREATE, 4, &create.as_bytes());
    expect_message(&mut daemon, MSG_MAP, 4, &map.as_bytes());
}

#[test]
fn reconnect_raises_flag_once() {
    let (mut agent, _daemon) = connected_pair();
    assert!(agent.reconnected());
    agent.reconnect(channel(1 << 20));
    assert!(!agent.reconnected());
    let mut daemon = Connection::daemon(channel(1 << 20), 0, root_conf());
    assert!(agent.read_header().unwrap().is_none());
    deliver(agent.transport_mut(), &mut daemon.raw.vchan);
    assert!(daemon.read_message().unwrap().is_none());
    deliver(&mut daemon.raw.vchan, agent.transport_mut());
    assert!(!agent.reconnected());
    assert!(agent.read_header().unwrap().is_none());
    assert!(agent.reconnected());
    assert!(!agent.reconnected());
}

#[test]
fn daemon_rejects_other_major_version() {
    let mut daemon = Connection::daemon(channel(1 << 20), 0, root_conf());
    daemon.raw.vchan.read_buf.extend_from_slice(&0x20004u32.to_le_bytes());
    daemon.raw.vchan.data_ready = 4;
    assert_eq!(
        daemon.read_message().unwrap_err(),
        StreamError::BadVersion { version: 0x20004 }
    );
    assert!(daemon.read_message().is_err());
}

#[test]
fn daemon_sends_legacy_block_to_old_agent() {
    let mut daemon = Connection::daemon(channel(1 << 20), 0, root_conf());
    daemon.raw.vchan.read_buf.extend_from_slice(&0x10003u32.to_le_bytes());
    daemon.raw.vchan.data_ready = 4;
    assert!(daemon.read_message().unwrap().is_none());
    assert_eq!(daemon.raw.vchan.write_buf, root_conf().as_bytes());
    assert_eq!(daemon.raw.xconf.version, 0x10003);
}
