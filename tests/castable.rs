use qubes_gui_proto::castable::{from_bytes, read_from_buf, zeroed, Castable, SizeMismatch};
use qubes_gui_proto::protocol::{
    Button, Configure, Coordinates, Create, Crossing, Cursor, Destroy, Dock, Focus, Header,
    KeymapNotify, Keypress, MapInfo, Motion, Rectangle, ShmCmd, ShmImage, Unmap, WMClass, WMName,
    WindowDumpHeader, WindowFlags, WindowHints, WindowSize, XConf, XConfVersion,
};

#[test]
fn basic() {
    let dummy: u8 = zeroed();
    assert_eq!(dummy, 0);
    assert_eq!(dummy.as_bytes(), [0]);
    let mut s = dummy.as_bytes();
    assert_eq!(s, [0]);
    s[0] = 60;
    let dummy: u8 = from_bytes(&s).unwrap();
    assert_eq!(dummy, 60);
}

#[test]
fn options() {
    let mut dummy: Create = zeroed();
    assert_eq!(dummy.parent_window(), None);
    assert_eq!(dummy.as_bytes(), [0u8; 24]);
    let mut s = dummy.as_bytes();
    assert_eq!(s, [0u8; 24]);
    s[16] = 100;
    dummy = from_bytes(&s).unwrap();
    assert_eq!(dummy.parent_window(), Some(u32::to_be(100u32 << 24)));
    assert_eq!(dummy.parent_window(), Some(100));
}

#[test]
fn from_bytes_size_mismatch() {
    let r: Result<u8, SizeMismatch> = from_bytes(&[]);
    assert_eq!(r, Err(SizeMismatch { got: 0, expected: 1 }));
    let r: Result<Header, SizeMismatch> = from_bytes(&[0u8; 13]);
    assert_eq!(r, Err(SizeMismatch { got: 13, expected: 12 }));
    let r: Result<Header, SizeMismatch> = from_bytes(&[0u8; 11]);
    assert!(r.is_err());
}

#[test]
fn from_bytes_is_little_endian() {
    let h = Header { ty: 0x0403_0201, window: 5, untrusted_len: 0x100 };
    assert_eq!(h.as_bytes(), [1, 2, 3, 4, 5, 0, 0, 0, 0, 1, 0, 0]);
    let v: u16 = from_bytes(&[0x34, 0x12]).unwrap();
    assert_eq!(v, 0x1234);
    let v: u64 = from_bytes(&[1, 0, 0, 0, 0, 0, 0, 0x80]).unwrap();
    assert_eq!(v, 0x8000_0000_0000_0001);
}

#[test]
fn round_trip_of_every_layout() {
    let c = Configure {
        rectangle: Rectangle {
            top_left: Coordinates { x: 1, y: 2 },
            size: WindowSize { width: 3, height: 4 },
        },
        override_redirect: 1,
    };
    assert_eq!(from_bytes::<Configure>(&c.as_bytes()), Ok(c));
    let x = XConfVersion {
        version: 0x10004,
        xconf: XConf { size: WindowSize { width: 1920, height: 1080 }, depth: 24, mem: 8100 },
    };
    assert_eq!(from_bytes::<XConfVersion>(&x.as_bytes()), Ok(x));
    let k = Keypress { ty: 2, coordinates: Coordinates { x: 7, y: 8 }, state: 9, keycode: 38 };
    assert_eq!(from_bytes::<Keypress>(&k.as_bytes()), Ok(k));
    let mut title = [0u8; 128];
    title[..4].copy_from_slice(b"demo");
    let n = WMName { data: title };
    assert_eq!(from_bytes::<WMName>(&n.as_bytes()), Ok(n));
    let mut keys = [0u8; 32];
    keys[31] = 0xff;
    let km = KeymapNotify { keys };
    assert_eq!(from_bytes::<KeymapNotify>(&km.as_bytes()), Ok(km));
    let mut res_class = [0u8; 64];
    res_class[0] = b'x';
    let mut res_name = [0u8; 64];
    res_name[63] = b'y';
    let wc = WMClass { res_class, res_name };
    assert_eq!(wc.as_bytes()[0], b'x');
    assert_eq!(wc.as_bytes()[127], b'y');
    assert_eq!(from_bytes::<WMClass>(&wc.as_bytes()), Ok(wc));
    let s = ShmCmd { shmid: 0, width: 1, height: 2, bpp: 24, off: 3, num_mfn: 4, domid: 5 };
    assert_eq!(from_bytes::<ShmCmd>(&s.as_bytes()), Ok(s));
}

#[test]
fn sizes_have_no_padding() {
    assert_eq!(Header::size(), std::mem::size_of::<Header>());
    assert_eq!(Coordinates::size(), std::mem::size_of::<Coordinates>());
    assert_eq!(WindowSize::size(), std::mem::size_of::<WindowSize>());
    assert_eq!(Rectangle::size(), std::mem::size_of::<Rectangle>());
    assert_eq!(XConf::size(), 16);
    assert_eq!(XConfVersion::size(), 20);
    assert_eq!(MapInfo::size(), 8);
    assert_eq!(Create::size(), 24);
    assert_eq!(Keypress::size(), 20);
    assert_eq!(Button::size(), 20);
    assert_eq!(Motion::size(), 16);
    assert_eq!(Crossing::size(), 28);
    assert_eq!(Configure::size(), 20);
    assert_eq!(ShmImage::size(), 16);
    assert_eq!(Focus::size(), 12);
    assert_eq!(WMName::size(), 128);
    assert_eq!(Unmap::size(), 0);
    assert_eq!(Dock::size(), 0);
    assert_eq!(Destroy::size(), 0);
    assert_eq!(KeymapNotify::size(), 32);
    assert_eq!(WindowHints::size(), 36);
    assert_eq!(WindowFlags::size(), 8);
    assert_eq!(ShmCmd::size(), 28);
    assert_eq!(WMClass::size(), 128);
    assert_eq!(WindowDumpHeader::size(), 16);
    assert_eq!(Cursor::size(), 4);
    assert_eq!(WindowHints::size(), std::mem::size_of::<WindowHints>());
    assert_eq!(WMClass::size(), std::mem::size_of::<WMClass>());
}

#[test]
fn read_from_buf_advances_cursor() {
    let buf = [1u8, 0, 0, 0, 2, 0, 0, 0, 3];
    let mut cursor = 0usize;
    assert_eq!(read_from_buf::<u32>(&buf, &mut cursor), Some(1));
    assert_eq!(cursor, 4);
    assert_eq!(read_from_buf::<u32>(&buf, &mut cursor), Some(2));
    assert_eq!(cursor, 8);
    assert_eq!(read_from_buf::<u32>(&buf, &mut cursor), None);
    assert_eq!(cursor, 8);
    assert_eq!(read_from_buf::<u8>(&buf, &mut cursor), Some(3));
    assert_eq!(cursor, 9);
    assert_eq!(read_from_buf::<()>(&buf, &mut cursor), Some(()));
    assert_eq!(cursor, 9);
}

#[test]
fn signed_integers_round_trip() {
    assert_eq!((-2i32).as_bytes(), [0xfe, 0xff, 0xff, 0xff]);
    assert_eq!(from_bytes::<i32>(&[0xfe, 0xff, 0xff, 0xff]), Ok(-2));
    assert_eq!(from_bytes::<i8>(&[0x80]), Ok(-128));
    assert_eq!(from_bytes::<i16>(&(-300i16).as_bytes()), Ok(-300));
    assert_eq!(from_bytes::<i64>(&i64::MIN.as_bytes()), Ok(i64::MIN));
    assert_eq!(i64::size(), 8);
}
