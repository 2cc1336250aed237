use qubes_gui_proto::protocol::{
    length_limits, msg_length_limits, Msg, WindowFlag, WindowHintsFlags, MAX_GRANT_REFS_COUNT,
    MSG_BUTTON, MSG_CLIPBOARD_DATA, MSG_CLIPBOARD_REQ, MSG_CLOSE, MSG_CONFIGURE,
    MSG_CREATE, MSG_CROSSING, MSG_CURSOR, MSG_DESTROY, MSG_DOCK, MSG_EXECUTE, MSG_FOCUS,
    MSG_KEYMAP_NOTIFY, MSG_KEYPRESS, MSG_MAP, MSG_MFNDUMP, MSG_MOTION, MSG_RESIZE, MSG_SET_TITLE,
    MSG_SHMIMAGE, MSG_UNMAP, MSG_WINDOW_CLASS, MSG_WINDOW_DUMP, MSG_WINDOW_FLAGS,
    MSG_WINDOW_HINTS, PROTOCOL_VERSION,
};

#[test]
fn length_limits_of_every_known_kind() {
    let table: [(u32, usize, usize); 22] = [
        (MSG_KEYPRESS, 20, 20),
        (MSG_BUTTON, 20, 20),
        (MSG_MOTION, 16, 16),
        (MSG_CROSSING, 28, 28),
        (MSG_FOCUS, 12, 12),
        (MSG_CREATE, 24, 24),
        (MSG_DESTROY, 0, 0),
        (MSG_MAP, 8, 8),
        (MSG_UNMAP, 0, 0),
        (MSG_CONFIGURE, 20, 20),
        (MSG_SHMIMAGE, 16, 16),
        (MSG_CLOSE, 0, 0),
        (MSG_CLIPBOARD_REQ, 0, 0),
        (MSG_CLIPBOARD_DATA, 0, 65000),
        (MSG_SET_TITLE, 128, 128),
        (MSG_KEYMAP_NOTIFY, 32, 32),
        (MSG_DOCK, 0, 0),
        (MSG_WINDOW_HINTS, 36, 36),
        (MSG_WINDOW_FLAGS, 8, 8),
        (MSG_WINDOW_CLASS, 128, 128),
        (MSG_WINDOW_DUMP, 16, 16 + 4 * MAX_GRANT_REFS_COUNT as usize),
        (MSG_CURSOR, 4, 4),
    ];
    for (ty, lo, hi) in table {
        assert_eq!(length_limits(ty), Some((lo, hi)), "type {}", ty);
        let r = msg_length_limits(ty).unwrap();
        assert_eq!((*r.start(), *r.end()), (lo, hi));
        assert!(!r.is_empty());
    }
    assert_eq!(MAX_GRANT_REFS_COUNT, 98304);
}

#[test]
fn unknown_kinds_have_no_limits() {
    for ty in [0, 1, 123, 149, 9999, u32::MAX, MSG_RESIZE, MSG_EXECUTE, MSG_MFNDUMP] {
        assert_eq!(length_limits(ty), None);
        assert!(msg_length_limits(ty).is_none());
    }
}

#[test]
fn message_numbers() {
    assert_eq!(Msg::Keypress.number(), 124);
    assert_eq!(Msg::MapWindow.number(), 132);
    assert_eq!(Msg::Cursor.number(), 148);
    assert_eq!(Msg::from_number(140), Some(Msg::ClipboardData));
    assert_eq!(Msg::from_number(149), None);
    assert_eq!(Msg::from_number(123), None);
    for ty in 124..=148u32 {
        assert_eq!(Msg::from_number(ty).unwrap().number(), ty);
    }
    assert_eq!(PROTOCOL_VERSION, 0x10004);
    assert_eq!(WindowHintsFlags::PBaseSize.bits(), 256);
    assert_eq!(WindowHintsFlags::PPosition.bits(), 4);
    assert_eq!(WindowFlag::Minimize.bits(), 4);
}
