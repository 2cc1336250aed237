//! Protocol vocabulary: constants, message kinds, and the fixed-layout
//! message bodies with their length limits.
use crate::castable::{
    array_from_slice, array_of, decode_words, encode_words, lemma_array_of, lemma_array_of_view,
    lemma_words_every_pattern, lemma_words_round_trip, push_array, words_bytes, words_of, Castable,
};
use vstd::prelude::*;

verus! {

/// Maximum size of a clipboard message, in bytes
pub const MAX_CLIPBOARD_SIZE: u32 = 65000;

/// Maximum window height, in pixels
pub const MAX_WINDOW_HEIGHT: u32 = 6144;

/// Maximum window width, in pixels
pub const MAX_WINDOW_WIDTH: u32 = 16384;

/// Default cursor ID
pub const CURSOR_DEFAULT: u32 = 0;

/// Flag that must be set to request an X11 cursor
pub const CURSOR_X11: u32 = 0x100;

/// Largest X11 cursor code that can be requested
pub const CURSOR_X11_MAX: u32 = 0x19a;

/// Bits per pixel of the framebuffer
pub const DUMMY_DRV_FB_BPP: u32 = 32;

/// Maximum size of a shared memory segment, in bytes
/// (`MAX_WINDOW_WIDTH * MAX_WINDOW_HEIGHT * DUMMY_DRV_FB_BPP / 8`)
pub const MAX_WINDOW_MEM: u32 = 402653184;

/// Number of bytes in a shared page
pub const XC_PAGE_SIZE: u32 = 4096;

/// Maximum number of pages in a segment shared by the deprecated
/// page-frame mechanism
/// (`MAX_WINDOW_MEM / XC_PAGE_SIZE`, rounded up)
pub const MAX_MFN_COUNT: u32 = 98304;

/// Maximum number of pages in a segment shared by grant references
/// (`MAX_WINDOW_MEM / XC_PAGE_SIZE`, rounded up)
pub const MAX_GRANT_REFS_COUNT: u32 = 98304;

/// Port on which the agent listens
pub const LISTENING_PORT: i16 = 6000;

/// Type of a grant-reference window dump
pub const WINDOW_DUMP_TYPE_GRANT_REFS: u32 = 0;

/// Major protocol version
pub const PROTOCOL_VERSION_MAJOR: u32 = 1;

/// Minor protocol version
pub const PROTOCOL_VERSION_MINOR: u32 = 4;

/// Protocol version: the major version in the upper 16 bits, the minor in
/// the lower 16
pub const PROTOCOL_VERSION: u32 = PROTOCOL_VERSION_MAJOR * 0x10000 + PROTOCOL_VERSION_MINOR;

/// Daemon to agent: a key was pressed
pub const MSG_KEYPRESS: u32 = 124;
/// Daemon to agent: a button was pressed
pub const MSG_BUTTON: u32 = 125;
/// Daemon to agent: the pointer moved
pub const MSG_MOTION: u32 = 126;
/// Daemon to agent: the pointer crossed the edge of a window
pub const MSG_CROSSING: u32 = 127;
/// Daemon to agent: focus changed
pub const MSG_FOCUS: u32 = 128;
/// Daemon to agent, obsolete
pub const MSG_RESIZE: u32 = 129;
/// Agent to daemon: create a window
pub const MSG_CREATE: u32 = 130;
/// Bidirectional: destroy a window
pub const MSG_DESTROY: u32 = 131;
/// Bidirectional: map a window
pub const MSG_MAP: u32 = 132;
/// Agent to daemon: unmap a window
pub const MSG_UNMAP: u32 = 133;
/// Bidirectional: configure a window
pub const MSG_CONFIGURE: u32 = 134;
/// Agent to daemon: deprecated page-frame dump
pub const MSG_MFNDUMP: u32 = 135;
/// Agent to daemon: redraw a region from shared memory
pub const MSG_SHMIMAGE: u32 = 136;
/// Daemon to agent: the user asks to close a window
pub const MSG_CLOSE: u32 = 137;
/// Daemon to agent, deprecated
pub const MSG_EXECUTE: u32 = 138;
/// Daemon to agent: clipboard data is requested
pub const MSG_CLIPBOARD_REQ: u32 = 139;
/// Bidirectional: clipboard data
pub const MSG_CLIPBOARD_DATA: u32 = 140;
/// Agent to daemon: set the title of a window
pub const MSG_SET_TITLE: u32 = 141;
/// Daemon to agent: keymap update
pub const MSG_KEYMAP_NOTIFY: u32 = 142;
/// Agent to daemon: dock a window
pub const MSG_DOCK: u32 = 143;
/// Agent to daemon: window manager hints
pub const MSG_WINDOW_HINTS: u32 = 144;
/// Bidirectional: window manager flags
pub const MSG_WINDOW_FLAGS: u32 = 145;
/// Agent to daemon: window class
pub const MSG_WINDOW_CLASS: u32 = 146;
/// Agent to daemon: shared memory dump
pub const MSG_WINDOW_DUMP: u32 = 147;
/// Agent to daemon: cursor type
pub const MSG_CURSOR: u32 = 148;

/// Button event: pressed
pub const EV_BUTTON_PRESS: u32 = 4;
/// Button event: released
pub const EV_BUTTON_RELEASE: u32 = 5;
/// Key event: pressed
pub const EV_KEY_PRESS: u32 = 2;
/// Key event: released
pub const EV_KEY_RELEASE: u32 = 3;
/// Focus event: the window gained focus
pub const EV_FOCUS_IN: u32 = 9;
/// Focus event: the window lost focus
pub const EV_FOCUS_OUT: u32 = 10;

/// The size limits are consistent: the largest window fits in
/// `MAX_WINDOW_MEM`, which fits in `MAX_GRANT_REFS_COUNT` pages and stays a
/// page below the largest `u32`.
pub proof fn lemma_window_limits()
    ensures
        MAX_WINDOW_MEM == MAX_WINDOW_WIDTH * MAX_WINDOW_HEIGHT * (DUMMY_DRV_FB_BPP / 8),
        MAX_GRANT_REFS_COUNT == (MAX_WINDOW_MEM + XC_PAGE_SIZE - 1) / XC_PAGE_SIZE as int,
        MAX_MFN_COUNT == MAX_GRANT_REFS_COUNT,
        MAX_WINDOW_MEM < u32::MAX - XC_PAGE_SIZE,
        PROTOCOL_VERSION == 0x10004,
{
    assert(MAX_WINDOW_WIDTH * MAX_WINDOW_HEIGHT * (DUMMY_DRV_FB_BPP / 8) == 402653184)
        by (nonlinear_arith);
}

/// Message kinds.
#[derive(Debug, Clone, Copy, PartialEq, Eq, Structural, Hash)]
pub enum Msg {
    /// Daemon to agent: a key was pressed
    Keypress,
    /// Daemon to agent: a button was pressed
    Button,
    /// Daemon to agent: the pointer moved
    Motion,
    /// Daemon to agent: the pointer crossed the edge of a window
    Crossing,
    /// Daemon to agent: focus changed
    Focus,
    /// Daemon to agent, obsolete
    Resize,
    /// Agent to daemon: create a window
    Create,
    /// Bidirectional: destroy a window
    Destroy,
    /// Bidirectional: map a window
    MapWindow,
    /// Agent to daemon: unmap a window
    Unmap,
    /// Bidirectional: configure a window
    Configure,
    /// Agent to daemon: deprecated page-frame dump
    MfnDump,
    /// Agent to daemon: redraw a region from shared memory
    ShmImage,
    /// Daemon to agent: the user asks to close a window
    Close,
    /// Daemon to agent, deprecated
    Execute,
    /// Daemon to agent: clipboard data is requested
    ClipboardReq,
    /// Bidirectional: clipboard data
    ClipboardData,
    /// Agent to daemon: set the title of a window
    SetTitle,
    /// Daemon to agent: keymap update
    KeymapNotify,
    /// Agent to daemon: dock a window
    Dock,
    /// Agent to daemon: window manager hints
    WindowHints,
    /// Bidirectional: window manager flags
    WindowFlags,
    /// Agent to daemon: window class
    WindowClass,
    /// Agent to daemon: shared memory dump
    WindowDump,
    /// Agent to daemon: cursor type
    Cursor,
}

/// Wire number of each message kind.
pub open spec fn spec_msg_number(m: Msg) -> u32 {
    match m {
        Msg::Keypress => MSG_KEYPRESS,
        Msg::Button => MSG_BUTTON,
        Msg::Motion => MSG_MOTION,
        Msg::Crossing => MSG_CROSSING,
        Msg::Focus => MSG_FOCUS,
        Msg::Resize => MSG_RESIZE,
        Msg::Create => MSG_CREATE,
        Msg::Destroy => MSG_DESTROY,
        Msg::MapWindow => MSG_MAP,
        Msg::Unmap => MSG_UNMAP,
        Msg::Configure => MSG_CONFIGURE,
        Msg::MfnDump => MSG_MFNDUMP,
        Msg::ShmImage => MSG_SHMIMAGE,
        Msg::Close => MSG_CLOSE,
        Msg::Execute => MSG_EXECUTE,
        Msg::ClipboardReq => MSG_CLIPBOARD_REQ,
        Msg::ClipboardData => MSG_CLIPBOARD_DATA,
        Msg::SetTitle => MSG_SET_TITLE,
        Msg::KeymapNotify => MSG_KEYMAP_NOTIFY,
        Msg::Dock => MSG_DOCK,
        Msg::WindowHints => MSG_WINDOW_HINTS,
        Msg::WindowFlags => MSG_WINDOW_FLAGS,
        Msg::WindowClass => MSG_WINDOW_CLASS,
        Msg::WindowDump => MSG_WINDOW_DUMP,
        Msg::Cursor => MSG_CURSOR,
    }
}

impl Msg {
    /// The wire number of this kind.
    pub fn number(self) -> (r: u32)
        ensures
            r == spec_msg_number(self),
    {
        match self {
            Msg::Keypress => MSG_KEYPRESS,
            Msg::Button => MSG_BUTTON,
            Msg::Motion => MSG_MOTION,
            Msg::Crossing => MSG_CROSSING,
            Msg::Focus => MSG_FOCUS,
            Msg::Resize => MSG_RESIZE,
            Msg::Create => MSG_CREATE,
            Msg::Destroy => MSG_DESTROY,
            Msg::MapWindow => MSG_MAP,
            Msg::Unmap => MSG_UNMAP,
            Msg::Configure => MSG_CONFIGURE,
            Msg::MfnDump => MSG_MFNDUMP,
            Msg::ShmImage => MSG_SHMIMAGE,
            Msg::Close => MSG_CLOSE,
            Msg::Execute => MSG_EXECUTE,
            Msg::ClipboardReq => MSG_CLIPBOARD_REQ,
            Msg::ClipboardData => MSG_CLIPBOARD_DATA,
            Msg::SetTitle => MSG_SET_TITLE,
            Msg::KeymapNotify => MSG_KEYMAP_NOTIFY,
            Msg::Dock => MSG_DOCK,
            Msg::WindowHints => MSG_WINDOW_HINTS,
            Msg::WindowFlags => MSG_WINDOW_FLAGS,
            Msg::WindowClass => MSG_WINDOW_CLASS,
            Msg::WindowDump => MSG_WINDOW_DUMP,
            Msg::Cursor => MSG_CURSOR,
        }
    }

    /// The kind with wire number `ty`, if there is one.
    pub fn from_number(ty: u32) -> (r: Option<Msg>)
        ensures
            match r {
                Some(m) => spec_msg_number(m) == ty,
                None => MSG_CURSOR < ty || ty < MSG_KEYPRESS,
            },
    {
        if ty == MSG_KEYPRESS {
            Some(Msg::Keypress)
        } else if ty == MSG_BUTTON {
            Some(Msg::Button)
        } else if ty == MSG_MOTION {
            Some(Msg::Motion)
        } else if ty == MSG_CROSSING {
            Some(Msg::Crossing)
        } else if ty == MSG_FOCUS {
            Some(Msg::Focus)
        } else if ty == MSG_RESIZE {
            Some(Msg::Resize)
        } else if ty == MSG_CREATE {
            Some(Msg::Create)
        } else if ty == MSG_DESTROY {
            Some(Msg::Destroy)
        } else if ty == MSG_MAP {
            Some(Msg::MapWindow)
        } else if ty == MSG_UNMAP {
            Some(Msg::Unmap)
        } else if ty == MSG_CONFIGURE {
            Some(Msg::Configure)
        } else if ty == MSG_MFNDUMP {
            Some(Msg::MfnDump)
        } else if ty == MSG_SHMIMAGE {
            Some(Msg::ShmImage)
        } else if ty == MSG_CLOSE {
            Some(Msg::Close)
        } else if ty == MSG_EXECUTE {
            Some(Msg::Execute)
        } else if ty == MSG_CLIPBOARD_REQ {
            Some(Msg::ClipboardReq)
        } else if ty == MSG_CLIPBOARD_DATA {
            Some(Msg::ClipboardData)
        } else if ty == MSG_SET_TITLE {
            Some(Msg::SetTitle)
        } else if ty == MSG_KEYMAP_NOTIFY {
            Some(Msg::KeymapNotify)
        } else if ty == MSG_DOCK {
            Some(Msg::Dock)
        } else if ty == MSG_WINDOW_HINTS {
            Some(Msg::WindowHints)
        } else if ty == MSG_WINDOW_FLAGS {
            Some(Msg::WindowFlags)
        } else if ty == MSG_WINDOW_CLASS {
            Some(Msg::WindowClass)
        } else if ty == MSG_WINDOW_DUMP {
            Some(Msg::WindowDump)
        } else if ty == MSG_CURSOR {
            Some(Msg::Cursor)
        } else {
            None
        }
    }
}

/// Flags of [`WindowHints`]; a bitmask.
#[derive(Debug, Clone, Copy, PartialEq, Eq, Structural)]
pub enum WindowHintsFlags {
    /// User-specified position
    USPosition,
    /// Program-specified position
    PPosition,
    /// Minimum size is valid
    PMinSize,
    /// Maximum size is valid
    PMaxSize,
    /// Resize increment is valid
    PResizeInc,
    /// Base size is valid
    PBaseSize,
}

impl WindowHintsFlags {
    /// The bit of this flag.
    pub fn bits(self) -> (r: u32)
        ensures
            r == match self {
                WindowHintsFlags::USPosition => 1u32,
                WindowHintsFlags::PPosition => 4u32,
                WindowHintsFlags::PMinSize => 16u32,
                WindowHintsFlags::PMaxSize => 32u32,
                WindowHintsFlags::PResizeInc => 64u32,
                WindowHintsFlags::PBaseSize => 256u32,
            },
    {
        match self {
            WindowHintsFlags::USPosition => 1,
            WindowHintsFlags::PPosition => 4,
            WindowHintsFlags::PMinSize => 16,
            WindowHintsFlags::PMaxSize => 32,
            WindowHintsFlags::PResizeInc => 64,
            WindowHintsFlags::PBaseSize => 256,
        }
    }
}

/// Flags of [`WindowFlags`]; a bitmask.
#[derive(Debug, Clone, Copy, PartialEq, Eq, Structural)]
pub enum WindowFlag {
    /// Fullscreen request
    Fullscreen,
    /// The window demands attention
    DemandsAttention,
    /// Minimize request
    Minimize,
}

impl WindowFlag {
    /// The bit of this flag.
    pub fn bits(self) -> (r: u32)
        ensures
            r == match self {
                WindowFlag::Fullscreen => 1u32,
                WindowFlag::DemandsAttention => 2u32,
                WindowFlag::Minimize => 4u32,
            },
    {
        match self {
            WindowFlag::Fullscreen => 1,
            WindowFlag::DemandsAttention => 2,
            WindowFlag::Minimize => 4,
        }
    }
}

/// A message body, bound to the kind of message that carries it.
pub trait Message: Castable {
    /// Wire number of the kind.
    spec fn spec_kind() -> u32;

    /// Wire number of the kind.
    fn kind() -> (r: u32)
        ensures
            r == Self::spec_kind(),
    ;
}

/// Inclusive range `(min, max)` of legal body lengths of messages of type
/// `ty`, or `None` for a type that is not known, or deprecated (page-frame
/// dumps, resize, execute): such messages are skipped when received.
pub open spec fn spec_length_limits(ty: u32) -> Option<(nat, nat)> {
    if ty == MSG_KEYPRESS || ty == MSG_BUTTON || ty == MSG_CONFIGURE {
        Some((20, 20))
    } else if ty == MSG_MOTION || ty == MSG_SHMIMAGE {
        Some((16, 16))
    } else if ty == MSG_CROSSING {
        Some((28, 28))
    } else if ty == MSG_FOCUS {
        Some((12, 12))
    } else if ty == MSG_CREATE {
        Some((24, 24))
    } else if ty == MSG_DESTROY || ty == MSG_UNMAP || ty == MSG_CLOSE || ty == MSG_CLIPBOARD_REQ
        || ty == MSG_DOCK {
        Some((0, 0))
    } else if ty == MSG_MAP || ty == MSG_WINDOW_FLAGS {
        Some((8, 8))
    } else if ty == MSG_CLIPBOARD_DATA {
        Some((0, MAX_CLIPBOARD_SIZE as nat))
    } else if ty == MSG_SET_TITLE || ty == MSG_WINDOW_CLASS {
        Some((128, 128))
    } else if ty == MSG_KEYMAP_NOTIFY {
        Some((32, 32))
    } else if ty == MSG_WINDOW_HINTS {
        Some((36, 36))
    } else if ty == MSG_WINDOW_DUMP {
        Some((16, 16 + 4 * MAX_GRANT_REFS_COUNT as nat))
    } else if ty == MSG_CURSOR {
        Some((4, 4))
    } else {
        None
    }
}

/// Every known type has a non-empty range of legal lengths, none longer
/// than the largest window dump; the types without limits are the unknown
/// ones and the three deprecated ones, which are skipped when received and
/// never sent.
pub proof fn lemma_length_limits(ty: u32)
    ensures
        match spec_length_limits(ty) {
            Some((lo, hi)) => lo <= hi <= 16 + 4 * MAX_GRANT_REFS_COUNT,
            None => true,
        },
        spec_length_limits(ty) is None <==> (ty < MSG_KEYPRESS || ty > MSG_CURSOR || ty
            == MSG_RESIZE || ty == MSG_EXECUTE || ty == MSG_MFNDUMP),
{
}

/// Whether a body of `len` bytes is legal for a message of known type `ty`.
pub open spec fn spec_length_ok(ty: u32, len: nat) -> bool {
    match spec_length_limits(ty) {
        Some((lo, hi)) => lo <= len <= hi,
        None => false,
    }
}

/// The inclusive range of legal body lengths of messages of type `ty`, as
/// `(min, max)`, or `None` for an unknown type.
pub fn length_limits(ty: u32) -> (r: Option<(usize, usize)>)
    ensures
        match spec_length_limits(ty) {
            Some((lo, hi)) => r == Some((lo as usize, hi as usize)),
            None => r is None,
        },
{
    if ty == MSG_KEYPRESS || ty == MSG_BUTTON || ty == MSG_CONFIGURE {
        Some((20, 20))
    } else if ty == MSG_MOTION || ty == MSG_SHMIMAGE {
        Some((16, 16))
    } else if ty == MSG_CROSSING {
        Some((28, 28))
    } else if ty == MSG_FOCUS {
        Some((12, 12))
    } else if ty == MSG_CREATE {
        Some((24, 24))
    } else if ty == MSG_DESTROY || ty == MSG_UNMAP || ty == MSG_CLOSE || ty == MSG_CLIPBOARD_REQ
        || ty == MSG_DOCK {
        Some((0, 0))
    } else if ty == MSG_MAP || ty == MSG_WINDOW_FLAGS {
        Some((8, 8))
    } else if ty == MSG_CLIPBOARD_DATA {
        Some((0, MAX_CLIPBOARD_SIZE as usize))
    } else if ty == MSG_SET_TITLE || ty == MSG_WINDOW_CLASS {
        Some((128, 128))
    } else if ty == MSG_KEYMAP_NOTIFY {
        Some((32, 32))
    } else if ty == MSG_WINDOW_HINTS {
        Some((36, 36))
    } else if ty == MSG_WINDOW_DUMP {
        Some((16, 16 + 4 * MAX_GRANT_REFS_COUNT as usize))
    } else if ty == MSG_CURSOR {
        Some((4, 4))
    } else {
        None
    }
}

/// Gets the length limits of a message of a given type, or `None` for an
/// unknown message type.
pub fn msg_length_limits(ty: u32) -> (r: Option<core::ops::RangeInclusive<usize>>)
    ensures
        match spec_length_limits(ty) {
            Some((lo, hi)) => r is Some && r->Some_0@.start == lo && r->Some_0@.end == hi
                && !r->Some_0@.exhausted,
            None => r is None,
        },
{
    match length_limits(ty) {
        Some((lo, hi)) => Some(core::ops::RangeInclusive::new(lo, hi)),
        None => None,
    }
}

/// A message header as it appears on the wire.
#[derive(Debug, Clone, Copy, PartialEq, Eq, Structural, Default, Hash)]
pub struct Header {
    /// Type of the message
    pub ty: u32,
    /// Window to which the message is directed; 0 means none
    pub window: u32,
    /// Length of the body, as claimed by the sender; not trusted until checked
    pub untrusted_len: u32,
}

/// X and Y coordinates relative to the top-left of the screen.
#[derive(Debug, Clone, Copy, PartialEq, Eq, Structural, Default, Hash)]
pub struct Coordinates {
    /// X coordinate in pixels
    pub x: u32,
    /// Y coordinate in pixels
    pub y: u32,
}

/// Window size.
#[derive(Debug, Clone, Copy, PartialEq, Eq, Structural, Default, Hash)]
pub struct WindowSize {
    /// Width in pixels
    pub width: u32,
    /// Height in pixels
    pub height: u32,
}

/// A (x, y, width, height) tuple.
#[derive(Debug, Clone, Copy, PartialEq, Eq, Structural, Default, Hash)]
pub struct Rectangle {
    /// Coordinates of the top left corner
    pub top_left: Coordinates,
    /// Size of the rectangle
    pub size: WindowSize,
}

/// Daemon to agent: root window configuration, sent at startup without a header.
#[derive(Debug, Clone, Copy, PartialEq, Eq, Structural, Default, Hash)]
pub struct XConf {
    /// Root window size
    pub size: WindowSize,
    /// X11 depth of the root window
    pub depth: u32,
    /// Memory (in KiB) required by the root window
    pub mem: u32,
}

/// Daemon to agent: negotiated protocol version followed by the root window configuration.
#[derive(Debug, Clone, Copy, PartialEq, Eq, Structural, Default, Hash)]
pub struct XConfVersion {
    /// Protocol version: major in the upper 16 bits, minor in the lower 16
    pub version: u32,
    /// Root window configuration
    pub xconf: XConf,
}

/// Bidirectional: metadata about a mapping.
#[derive(Debug, Clone, Copy, PartialEq, Eq, Structural, Default, Hash)]
pub struct MapInfo {
    /// Window this one is transient for, or 0
    pub transient_for: u32,
    /// 1 if the window manager must not manage the window, else 0
    pub override_redirect: u32,
}

/// Agent to daemon: create a window.
#[derive(Debug, Clone, Copy, PartialEq, Eq, Structural, Default, Hash)]
pub struct Create {
    /// Rectangle the window is to occupy
    pub rectangle: Rectangle,
    /// Parent window, or 0 if there is none
    pub parent: u32,
    /// 1 if the window manager must not manage the window, else 0
    pub override_redirect: u32,
}

/// Daemon to agent: a key was pressed or released.
#[derive(Debug, Clone, Copy, PartialEq, Eq, Structural, Default, Hash)]
pub struct Keypress {
    /// Event type: 2 for press, 3 for release
    pub ty: u32,
    /// Pointer coordinates
    pub coordinates: Coordinates,
    /// X11 key state
    pub state: u32,
    /// X11 key code
    pub keycode: u32,
}

/// Daemon to agent: a button was pressed or released.
#[derive(Debug, Clone, Copy, PartialEq, Eq, Structural, Default, Hash)]
pub struct Button {
    /// Event type: 4 for press, 5 for release
    pub ty: u32,
    /// Pointer coordinates
    pub coordinates: Coordinates,
    /// Bitmask of modifier keys
    pub state: u32,
    /// X11 button number
    pub button: u32,
}

/// Daemon to agent: the pointer moved.
#[derive(Debug, Clone, Copy, PartialEq, Eq, Structural, Default, Hash)]
pub struct Motion {
    /// Pointer coordinates
    pub coordinates: Coordinates,
    /// Bitmask of pressed buttons
    pub state: u32,
    /// X11 is_hint flag
    pub is_hint: u32,
}

/// Daemon to agent: the pointer crossed the edge of a window.
#[derive(Debug, Clone, Copy, PartialEq, Eq, Structural, Default, Hash)]
pub struct Crossing {
    /// Type of the crossing
    pub ty: u32,
    /// Pointer coordinates
    pub coordinates: Coordinates,
    /// X11 state
    pub state: u32,
    /// X11 mode
    pub mode: u32,
    /// X11 detail
    pub detail: u32,
    /// X11 focus
    pub focus: u32,
}

/// Bidirectional: a window moved or was resized.
#[derive(Debug, Clone, Copy, PartialEq, Eq, Structural, Default, Hash)]
pub struct Configure {
    /// New position and size
    pub rectangle: Rectangle,
    /// 1 if the window manager must not manage the window, else 0
    pub override_redirect: u32,
}

/// Agent to daemon: redraw the given region from shared memory.
#[derive(Debug, Clone, Copy, PartialEq, Eq, Structural, Default, Hash)]
pub struct ShmImage {
    /// Region to redraw
    pub rectangle: Rectangle,
}

/// Daemon to agent: focus changed.
#[derive(Debug, Clone, Copy, PartialEq, Eq, Structural, Default, Hash)]
pub struct Focus {
    /// Event type: 9 for focus in, 10 for focus out
    pub ty: u32,
    /// X11 mode; 0
    pub mode: u32,
    /// X11 detail, between 0 and 7
    pub detail: u32,
}

/// Agent to daemon: unmap the window.
#[derive(Debug, Clone, Copy, PartialEq, Eq, Structural, Default, Hash)]
pub struct Unmap {
}

/// Agent to daemon: dock the window.
#[derive(Debug, Clone, Copy, PartialEq, Eq, Structural, Default, Hash)]
pub struct Dock {
}

/// Bidirectional: destroy the window.
#[derive(Debug, Clone, Copy, PartialEq, Eq, Structural, Default, Hash)]
pub struct Destroy {
}

/// Agent to daemon: window manager size hints.
#[derive(Debug, Clone, Copy, PartialEq, Eq, Structural, Default, Hash)]
pub struct WindowHints {
    /// Which of the hints are valid
    pub flags: u32,
    /// Minimum size
    pub min_size: WindowSize,
    /// Maximum size
    pub max_size: WindowSize,
    /// Resize increment
    pub size_increment: WindowSize,
    /// Base size
    pub size_base: WindowSize,
}

/// Bidirectional: window manager flags to set and to clear.
#[derive(Debug, Clone, Copy, PartialEq, Eq, Structural, Default, Hash)]
pub struct WindowFlags {
    /// Flags to set
    pub set: u32,
    /// Flags to clear
    pub unset: u32,
}

/// Agent to daemon: deprecated page-frame dump header.
#[derive(Debug, Clone, Copy, PartialEq, Eq, Structural, Default, Hash)]
pub struct ShmCmd {
    /// Unused; 0
    pub shmid: u32,
    /// Width of the region
    pub width: u32,
    /// Height of the region
    pub height: u32,
    /// Bits per pixel; 24
    pub bpp: u32,
    /// Offset in the first page
    pub off: u32,
    /// Number of page frames that follow
    pub num_mfn: u32,
    /// Source domain; 0
    pub domid: u32,
}

/// Agent to daemon: header of a window dump; grant references follow it.
#[derive(Debug, Clone, Copy, PartialEq, Eq, Structural, Default, Hash)]
pub struct WindowDumpHeader {
    /// Dump type; 0 for grant references
    pub ty: u32,
    /// Width in pixels
    pub width: u32,
    /// Height in pixels
    pub height: u32,
    /// Bits per pixel; 24
    pub bpp: u32,
}

/// Agent to daemon: set the cursor.
#[derive(Debug, Clone, Copy, PartialEq, Eq, Structural, Default, Hash)]
pub struct Cursor {
    /// Cursor: 0 for the default, or the X11 flag with a cursor code
    pub cursor: u32,
}

impl Header {
    /// The 32-bit words of the value, in wire order.
    pub open spec fn spec_words(&self) -> Seq<u32> {
        seq![self.ty, self.window, self.untrusted_len]
    }

    /// The value made of the given words.
    pub open spec fn spec_from_words(w: Seq<u32>) -> Self {
        Header { ty: w[0], window: w[1], untrusted_len: w[2] }
    }
}

impl Castable for Header {
    open spec fn spec_size() -> nat {
        12
    }

    open spec fn spec_bytes(&self) -> Seq<u8> {
        words_bytes(self.spec_words())
    }

    open spec fn spec_parse(b: Seq<u8>) -> Self {
        Self::spec_from_words(words_of(b))
    }

    proof fn lemma_round_trip(&self) {
        lemma_words_round_trip(self.spec_words());
    }

    proof fn lemma_every_pattern(b: Seq<u8>) {
        lemma_words_every_pattern(b);
        assert(Self::spec_from_words(words_of(b)).spec_words() =~= words_of(b));
    }

    fn size() -> (r: usize) {
        12
    }

    fn as_bytes(&self) -> (r: Vec<u8>) {
        let w: Vec<u32> = vec![self.ty, self.window, self.untrusted_len];
        assert(w@ =~= self.spec_words());
        encode_words(w.as_slice())
    }

    fn from_exact(buf: &[u8]) -> (r: Self) {
        let w = decode_words(buf);
        Header { ty: w[0], window: w[1], untrusted_len: w[2] }
    }
}

impl Coordinates {
    /// The 32-bit words of the value, in wire order.
    pub open spec fn spec_words(&self) -> Seq<u32> {
        seq![self.x, self.y]
    }

    /// The value made of the given words.
    pub open spec fn spec_from_words(w: Seq<u32>) -> Self {
        Coordinates { x: w[0], y: w[1] }
    }
}

impl Castable for Coordinates {
    open spec fn spec_size() -> nat {
        8
    }

    open spec fn spec_bytes(&self) -> Seq<u8> {
        words_bytes(self.spec_words())
    }

    open spec fn spec_parse(b: Seq<u8>) -> Self {
        Self::spec_from_words(words_of(b))
    }

    proof fn lemma_round_trip(&self) {
        lemma_words_round_trip(self.spec_words());
    }

    proof fn lemma_every_pattern(b: Seq<u8>) {
        lemma_words_every_pattern(b);
        assert(Self::spec_from_words(words_of(b)).spec_words() =~= words_of(b));
    }

    fn size() -> (r: usize) {
        8
    }

    fn as_bytes(&self) -> (r: Vec<u8>) {
        let w: Vec<u32> = vec![self.x, self.y];
        assert(w@ =~= self.spec_words());
        encode_words(w.as_slice())
    }

    fn from_exact(buf: &[u8]) -> (r: Self) {
        let w = decode_words(buf);
        Coordinates { x: w[0], y: w[1] }
    }
}

impl WindowSize {
    /// The 32-bit words of the value, in wire order.
    pub open spec fn spec_words(&self) -> Seq<u32> {
        seq![self.width, self.height]
    }

    /// The value made of the given words.
    pub open spec fn spec_from_words(w: Seq<u32>) -> Self {
        WindowSize { width: w[0], height: w[1] }
    }
}

impl Castable for WindowSize {
    open spec fn spec_size() -> nat {
        8
    }

    open spec fn spec_bytes(&self) -> Seq<u8> {
        words_bytes(self.spec_words())
    }

    open spec fn spec_parse(b: Seq<u8>) -> Self {
        Self::spec_from_words(words_of(b))
    }

    proof fn lemma_round_trip(&self) {
        lemma_words_round_trip(self.spec_words());
    }

    proof fn lemma_every_pattern(b: Seq<u8>) {
        lemma_words_every_pattern(b);
        assert(Self::spec_from_words(words_of(b)).spec_words() =~= words_of(b));
    }

    fn size() -> (r: usize) {
        8
    }

    fn as_bytes(&self) -> (r: Vec<u8>) {
        let w: Vec<u32> = vec![self.width, self.height];
        assert(w@ =~= self.spec_words());
        encode_words(w.as_slice())
    }

    fn from_exact(buf: &[u8]) -> (r: Self) {
        let w = decode_words(buf);
        WindowSize { width: w[0], height: w[1] }
    }
}

impl Rectangle {
    /// The 32-bit words of the value, in wire order.
    pub open spec fn spec_words(&self) -> Seq<u32> {
        seq![self.top_left.x, self.top_left.y, self.size.width, self.size.height]
    }

    /// The value made of the given words.
    pub open spec fn spec_from_words(w: Seq<u32>) -> Self {
        Rectangle {
            top_left: Coordinates { x: w[0], y: w[1] },
            size: WindowSize { width: w[2], height: w[3] },
        }
    }
}

impl Castable for Rectangle {
    open spec fn spec_size() -> nat {
        16
    }

    open spec fn spec_bytes(&self) -> Seq<u8> {
        words_bytes(self.spec_words())
    }

    open spec fn spec_parse(b: Seq<u8>) -> Self {
        Self::spec_from_words(words_of(b))
    }

    proof fn lemma_round_trip(&self) {
        lemma_words_round_trip(self.spec_words());
    }

    proof fn lemma_every_pattern(b: Seq<u8>) {
        lemma_words_every_pattern(b);
        assert(Self::spec_from_words(words_of(b)).spec_words() =~= words_of(b));
    }

    fn size() -> (r: usize) {
        16
    }

    fn as_bytes(&self) -> (r: Vec<u8>) {
        let w: Vec<u32> = vec![self.top_left.x, self.top_left.y, self.size.width, self.size.height];
        assert(w@ =~= self.spec_words());
        encode_words(w.as_slice())
    }

    fn from_exact(buf: &[u8]) -> (r: Self) {
        let w = decode_words(buf);
        Rectangle {
            top_left: Coordinates { x: w[0], y: w[1] },
            size: WindowSize { width: w[2], height: w[3] },
        }
    }
}

impl XConf {
    /// The 32-bit words of the value, in wire order.
    pub open spec fn spec_words(&self) -> Seq<u32> {
        seq![self.size.width, self.size.height, self.depth, self.mem]
    }

    /// The value made of the given words.
    pub open spec fn spec_from_words(w: Seq<u32>) -> Self {
        XConf { size: WindowSize { width: w[0], height: w[1] }, depth: w[2], mem: w[3] }
    }
}

impl Castable for XConf {
    open spec fn spec_size() -> nat {
        16
    }

    open spec fn spec_bytes(&self) -> Seq<u8> {
        words_bytes(self.spec_words())
    }

    open spec fn spec_parse(b: Seq<u8>) -> Self {
        Self::spec_from_words(words_of(b))
    }

    proof fn lemma_round_trip(&self) {
        lemma_words_round_trip(self.spec_words());
    }

    proof fn lemma_every_pattern(b: Seq<u8>) {
        lemma_words_every_pattern(b);
        assert(Self::spec_from_words(words_of(b)).spec_words() =~= words_of(b));
    }

    fn size() -> (r: usize) {
        16
    }

    fn as_bytes(&self) -> (r: Vec<u8>) {
        let w: Vec<u32> = vec![self.size.width, self.size.height, self.depth, self.mem];
        assert(w@ =~= self.spec_words());
        encode_words(w.as_slice())
    }

    fn from_exact(buf: &[u8]) -> (r: Self) {
        let w = decode_words(buf);
        XConf { size: WindowSize { width: w[0], height: w[1] }, depth: w[2], mem: w[3] }
    }
}

impl XConfVersion {
    /// The 32-bit words of the value, in wire order.
    pub open spec fn spec_words(&self) -> Seq<u32> {
        seq![
            self.version,
            self.xconf.size.width,
            self.xconf.size.height,
            self.xconf.depth,
            self.xconf.mem,
        ]
    }

    /// The value made of the given words.
    pub open spec fn spec_from_words(w: Seq<u32>) -> Self {
        XConfVersion {
            version: w[0],
            xconf: XConf { size: WindowSize { width: w[1], height: w[2] }, depth: w[3], mem: w[4] },
        }
    }
}

impl Castable for XConfVersion {
    open spec fn spec_size() -> nat {
        20
    }

    open spec fn spec_bytes(&self) -> Seq<u8> {
        words_bytes(self.spec_words())
    }

    open spec fn spec_parse(b: Seq<u8>) -> Self {
        Self::spec_from_words(words_of(b))
    }

    proof fn lemma_round_trip(&self) {
        lemma_words_round_trip(self.spec_words());
    }

    proof fn lemma_every_pattern(b: Seq<u8>) {
        lemma_words_every_pattern(b);
        assert(Self::spec_from_words(words_of(b)).spec_words() =~= words_of(b));
    }

    fn size() -> (r: usize) {
        20
    }

    fn as_bytes(&self) -> (r: Vec<u8>) {
        let w: Vec<u32> = vec![
            self.version,
            self.xconf.size.width,
            self.xconf.size.height,
            self.xconf.depth,
            self.xconf.mem,
        ];
        assert(w@ =~= self.spec_words());
        encode_words(w.as_slice())
    }

    fn from_exact(buf: &[u8]) -> (r: Self) {
        let w = decode_words(buf);
        XConfVersion {
            version: w[0],
            xconf: XConf { size: WindowSize { width: w[1], height: w[2] }, depth: w[3], mem: w[4] },
        }
    }
}

impl MapInfo {
    /// The 32-bit words of the value, in wire order.
    pub open spec fn spec_words(&self) -> Seq<u32> {
        seq![self.transient_for, self.override_redirect]
    }

    /// The value made of the given words.
    pub open spec fn spec_from_words(w: Seq<u32>) -> Self {
        MapInfo { transient_for: w[0], override_redirect: w[1] }
    }
}

impl Castable for MapInfo {
    open spec fn spec_size() -> nat {
        8
    }

    open spec fn spec_bytes(&self) -> Seq<u8> {
        words_bytes(self.spec_words())
    }

    open spec fn spec_parse(b: Seq<u8>) -> Self {
        Self::spec_from_words(words_of(b))
    }

    proof fn lemma_round_trip(&self) {
        lemma_words_round_trip(self.spec_words());
    }

    proof fn lemma_every_pattern(b: Seq<u8>) {
        lemma_words_every_pattern(b);
        assert(Self::spec_from_words(words_of(b)).spec_words() =~= words_of(b));
    }

    fn size() -> (r: usize) {
        8
    }

    fn as_bytes(&self) -> (r: Vec<u8>) {
        let w: Vec<u32> = vec![self.transient_for, self.override_redirect];
        assert(w@ =~= self.spec_words());
        encode_words(w.as_slice())
    }

    fn from_exact(buf: &[u8]) -> (r: Self) {
        let w = decode_words(buf);
        MapInfo { transient_for: w[0], override_redirect: w[1] }
    }
}

impl Message for MapInfo {
    open spec fn spec_kind() -> u32 {
        MSG_MAP
    }

    fn kind() -> (r: u32) {
        MSG_MAP
    }
}

impl Create {
    /// The 32-bit words of the value, in wire order.
    pub open spec fn spec_words(&self) -> Seq<u32> {
        seq![
            self.rectangle.top_left.x,
            self.rectangle.top_left.y,
            self.rectangle.size.width,
            self.rectangle.size.height,
            self.parent,
            self.override_redirect,
        ]
    }

    /// The value made of the given words.
    pub open spec fn spec_from_words(w: Seq<u32>) -> Self {
        Create {
            rectangle: Rectangle {
                top_left: Coordinates { x: w[0], y: w[1] },
                size: WindowSize { width: w[2], height: w[3] },
            },
            parent: w[4],
            override_redirect: w[5],
        }
    }
}

impl Castable for Create {
    open spec fn spec_size() -> nat {
        24
    }

    open spec fn spec_bytes(&self) -> Seq<u8> {
        words_bytes(self.spec_words())
    }

    open spec fn spec_parse(b: Seq<u8>) -> Self {
        Self::spec_from_words(words_of(b))
    }

    proof fn lemma_round_trip(&self) {
        lemma_words_round_trip(self.spec_words());
    }

    proof fn lemma_every_pattern(b: Seq<u8>) {
        lemma_words_every_pattern(b);
        assert(Self::spec_from_words(words_of(b)).spec_words() =~= words_of(b));
    }

    fn size() -> (r: usize) {
        24
    }

    fn as_bytes(&self) -> (r: Vec<u8>) {
        let w: Vec<u32> = vec![
            self.rectangle.top_left.x,
            self.rectangle.top_left.y,
            self.rectangle.size.width,
            self.rectangle.size.height,
            self.parent,
            self.override_redirect,
        ];
        assert(w@ =~= self.spec_words());
        encode_words(w.as_slice())
    }

    fn from_exact(buf: &[u8]) -> (r: Self) {
        let w = decode_words(buf);
        Create {
            rectangle: Rectangle {
                top_left: Coordinates { x: w[0], y: w[1] },
                size: WindowSize { width: w[2], height: w[3] },
            },
            parent: w[4],
            override_redirect: w[5],
        }
    }
}

impl Message for Create {
    open spec fn spec_kind() -> u32 {
        MSG_CREATE
    }

    fn kind() -> (r: u32) {
        MSG_CREATE
    }
}

impl Keypress {
    /// The 32-bit words of the value, in wire order.
    pub open spec fn spec_words(&self) -> Seq<u32> {
        seq![self.ty, self.coordinates.x, self.coordinates.y, self.state, self.keycode]
    }

    /// The value made of the given words.
    pub open spec fn spec_from_words(w: Seq<u32>) -> Self {
        Keypress {
            ty: w[0],
            coordinates: Coordinates { x: w[1], y: w[2] },
            state: w[3],
            keycode: w[4],
        }
    }
}

impl Castable for Keypress {
    open spec fn spec_size() -> nat {
        20
    }

    open spec fn spec_bytes(&self) -> Seq<u8> {
        words_bytes(self.spec_words())
    }

    open spec fn spec_parse(b: Seq<u8>) -> Self {
        Self::spec_from_words(words_of(b))
    }

    proof fn lemma_round_trip(&self) {
        lemma_words_round_trip(self.spec_words());
    }

    proof fn lemma_every_pattern(b: Seq<u8>) {
        lemma_words_every_pattern(b);
        assert(Self::spec_from_words(words_of(b)).spec_words() =~= words_of(b));
    }

    fn size() -> (r: usize) {
        20
    }

    fn as_bytes(&self) -> (r: Vec<u8>) {
        let w: Vec<u32> = vec![
            self.ty,
            self.coordinates.x,
            self.coordinates.y,
            self.state,
            self.keycode,
        ];
        assert(w@ =~= self.spec_words());
        encode_words(w.as_slice())
    }

    fn from_exact(buf: &[u8]) -> (r: Self) {
        let w = decode_words(buf);
        Keypress {
            ty: w[0],
            coordinates: Coordinates { x: w[1], y: w[2] },
            state: w[3],
            keycode: w[4],
        }
    }
}

impl Message for Keypress {
    open spec fn spec_kind() -> u32 {
        MSG_KEYPRESS
    }

    fn kind() -> (r: u32) {
        MSG_KEYPRESS
    }
}

impl Button {
    /// The 32-bit words of the value, in wire order.
    pub open spec fn spec_words(&self) -> Seq<u32> {
        seq![self.ty, self.coordinates.x, self.coordinates.y, self.state, self.button]
    }

    /// The value made of the given words.
    pub open spec fn spec_from_words(w: Seq<u32>) -> Self {
        Button {
            ty: w[0],
            coordinates: Coordinates { x: w[1], y: w[2] },
            state: w[3],
            button: w[4],
        }
    }
}

impl Castable for Button {
    open spec fn spec_size() -> nat {
        20
    }

    open spec fn spec_bytes(&self) -> Seq<u8> {
        words_bytes(self.spec_words())
    }

    open spec fn spec_parse(b: Seq<u8>) -> Self {
        Self::spec_from_words(words_of(b))
    }

    proof fn lemma_round_trip(&self) {
        lemma_words_round_trip(self.spec_words());
    }

    proof fn lemma_every_pattern(b: Seq<u8>) {
        lemma_words_every_pattern(b);
        assert(Self::spec_from_words(words_of(b)).spec_words() =~= words_of(b));
    }

    fn size() -> (r: usize) {
        20
    }

    fn as_bytes(&self) -> (r: Vec<u8>) {
        let w: Vec<u32> = vec![
            self.ty,
            self.coordinates.x,
            self.coordinates.y,
            self.state,
            self.button,
        ];
        assert(w@ =~= self.spec_words());
        encode_words(w.as_slice())
    }

    fn from_exact(buf: &[u8]) -> (r: Self) {
        let w = decode_words(buf);
        Button {
            ty: w[0],
            coordinates: Coordinates { x: w[1], y: w[2] },
            state: w[3],
            button: w[4],
        }
    }
}

impl Message for Button {
    open spec fn spec_kind() -> u32 {
        MSG_BUTTON
    }

    fn kind() -> (r: u32) {
        MSG_BUTTON
    }
}

impl Motion {
    /// The 32-bit words of the value, in wire order.
    pub open spec fn spec_words(&self) -> Seq<u32> {
        seq![self.coordinates.x, self.coordinates.y, self.state, self.is_hint]
    }

    /// The value made of the given words.
    pub open spec fn spec_from_words(w: Seq<u32>) -> Self {
        Motion { coordinates: Coordinates { x: w[0], y: w[1] }, state: w[2], is_hint: w[3] }
    }
}

impl Castable for Motion {
    open spec fn spec_size() -> nat {
        16
    }

    open spec fn spec_bytes(&self) -> Seq<u8> {
        words_bytes(self.spec_words())
    }

    open spec fn spec_parse(b: Seq<u8>) -> Self {
        Self::spec_from_words(words_of(b))
    }

    proof fn lemma_round_trip(&self) {
        lemma_words_round_trip(self.spec_words());
    }

    proof fn lemma_every_pattern(b: Seq<u8>) {
        lemma_words_every_pattern(b);
        assert(Self::spec_from_words(words_of(b)).spec_words() =~= words_of(b));
    }

    fn size() -> (r: usize) {
        16
    }

    fn as_bytes(&self) -> (r: Vec<u8>) {
        let w: Vec<u32> = vec![self.coordinates.x, self.coordinates.y, self.state, self.is_hint];
        assert(w@ =~= self.spec_words());
        encode_words(w.as_slice())
    }

    fn from_exact(buf: &[u8]) -> (r: Self) {
        let w = decode_words(buf);
        Motion { coordinates: Coordinates { x: w[0], y: w[1] }, state: w[2], is_hint: w[3] }
    }
}

impl Message for Motion {
    open spec fn spec_kind() -> u32 {
        MSG_MOTION
    }

    fn kind() -> (r: u32) {
        MSG_MOTION
    }
}

impl Crossing {
    /// The 32-bit words of the value, in wire order.
    pub open spec fn spec_words(&self) -> Seq<u32> {
        seq![
            self.ty,
            self.coordinates.x,
            self.coordinates.y,
            self.state,
            self.mode,
            self.detail,
            self.focus,
        ]
    }

    /// The value made of the given words.
    pub open spec fn spec_from_words(w: Seq<u32>) -> Self {
        Crossing {
            ty: w[0],
            coordinates: Coordinates { x: w[1], y: w[2] },
            state: w[3],
            mode: w[4],
            detail: w[5],
            focus: w[6],
        }
    }
}

impl Castable for Crossing {
    open spec fn spec_size() -> nat {
        28
    }

    open spec fn spec_bytes(&self) -> Seq<u8> {
        words_bytes(self.spec_words())
    }

    open spec fn spec_parse(b: Seq<u8>) -> Self {
        Self::spec_from_words(words_of(b))
    }

    proof fn lemma_round_trip(&self) {
        lemma_words_round_trip(self.spec_words());
    }

    proof fn lemma_every_pattern(b: Seq<u8>) {
        lemma_words_every_pattern(b);
        assert(Self::spec_from_words(words_of(b)).spec_words() =~= words_of(b));
    }

    fn size() -> (r: usize) {
        28
    }

    fn as_bytes(&self) -> (r: Vec<u8>) {
        let w: Vec<u32> = vec![
            self.ty,
            self.coordinates.x,
            self.coordinates.y,
            self.state,
            self.mode,
            self.detail,
            self.focus,
        ];
        assert(w@ =~= self.spec_words());
        encode_words(w.as_slice())
    }

    fn from_exact(buf: &[u8]) -> (r: Self) {
        let w = decode_words(buf);
        Crossing {
            ty: w[0],
            coordinates: Coordinates { x: w[1], y: w[2] },
            state: w[3],
            mode: w[4],
            detail: w[5],
            focus: w[6],
        }
    }
}

impl Message for Crossing {
    open spec fn spec_kind() -> u32 {
        MSG_CROSSING
    }

    fn kind() -> (r: u32) {
        MSG_CROSSING
    }
}

impl Configure {
    /// The 32-bit words of the value, in wire order.
    pub open spec fn spec_words(&self) -> Seq<u32> {
        seq![
            self.rectangle.top_left.x,
            self.rectangle.top_left.y,
            self.rectangle.size.width,
            self.rectangle.size.height,
            self.override_redirect,
        ]
    }

    /// The value made of the given words.
    pub open spec fn spec_from_words(w: Seq<u32>) -> Self {
        Configure {
            rectangle: Rectangle {
                top_left: Coordinates { x: w[0], y: w[1] },
                size: WindowSize { width: w[2], height: w[3] },
            },
            override_redirect: w[4],
        }
    }
}

impl Castable for Configure {
    open spec fn spec_size() -> nat {
        20
    }

    open spec fn spec_bytes(&self) -> Seq<u8> {
        words_bytes(self.spec_words())
    }

    open spec fn spec_parse(b: Seq<u8>) -> Self {
        Self::spec_from_words(words_of(b))
    }

    proof fn lemma_round_trip(&self) {
        lemma_words_round_trip(self.spec_words());
    }

    proof fn lemma_every_pattern(b: Seq<u8>) {
        lemma_words_every_pattern(b);
        assert(Self::spec_from_words(words_of(b)).spec_words() =~= words_of(b));
    }

    fn size() -> (r: usize) {
        20
    }

    fn as_bytes(&self) -> (r: Vec<u8>) {
        let w: Vec<u32> = vec![
            self.rectangle.top_left.x,
            self.rectangle.top_left.y,
            self.rectangle.size.width,
            self.rectangle.size.height,
            self.override_redirect,
        ];
        assert(w@ =~= self.spec_words());
        encode_words(w.as_slice())
    }

    fn from_exact(buf: &[u8]) -> (r: Self) {
        let w = decode_words(buf);
        Configure {
            rectangle: Rectangle {
                top_left: Coordinates { x: w[0], y: w[1] },
                size: WindowSize { width: w[2], height: w[3] },
            },
            override_redirect: w[4],
        }
    }
}

impl Message for Configure {
    open spec fn spec_kind() -> u32 {
        MSG_CONFIGURE
    }

    fn kind() -> (r: u32) {
        MSG_CONFIGURE
    }
}

impl ShmImage {
    /// The 32-bit words of the value, in wire order.
    pub open spec fn spec_words(&self) -> Seq<u32> {
        seq![
            self.rectangle.top_left.x,
            self.rectangle.top_left.y,
            self.rectangle.size.width,
            self.rectangle.size.height,
        ]
    }

    /// The value made of the given words.
    pub open spec fn spec_from_words(w: Seq<u32>) -> Self {
        ShmImage {
            rectangle: Rectangle {
                top_left: Coordinates { x: w[0], y: w[1] },
                size: WindowSize { width: w[2], height: w[3] },
            },
        }
    }
}

impl Castable for ShmImage {
    open spec fn spec_size() -> nat {
        16
    }

    open spec fn spec_bytes(&self) -> Seq<u8> {
        words_bytes(self.spec_words())
    }

    open spec fn spec_parse(b: Seq<u8>) -> Self {
        Self::spec_from_words(words_of(b))
    }

    proof fn lemma_round_trip(&self) {
        lemma_words_round_trip(self.spec_words());
    }

    proof fn lemma_every_pattern(b: Seq<u8>) {
        lemma_words_every_pattern(b);
        assert(Self::spec_from_words(words_of(b)).spec_words() =~= words_of(b));
    }

    fn size() -> (r: usize) {
        16
    }

    fn as_bytes(&self) -> (r: Vec<u8>) {
        let w: Vec<u32> = vec![
            self.rectangle.top_left.x,
            self.rectangle.top_left.y,
            self.rectangle.size.width,
            self.rectangle.size.height,
        ];
        assert(w@ =~= self.spec_words());
        encode_words(w.as_slice())
    }

    fn from_exact(buf: &[u8]) -> (r: Self) {
        let w = decode_words(buf);
        ShmImage {
            rectangle: Rectangle {
                top_left: Coordinates { x: w[0], y: w[1] },
                size: WindowSize { width: w[2], height: w[3] },
            },
        }
    }
}

impl Message for ShmImage {
    open spec fn spec_kind() -> u32 {
        MSG_SHMIMAGE
    }

    fn kind() -> (r: u32) {
        MSG_SHMIMAGE
    }
}

impl Focus {
    /// The 32-bit words of the value, in wire order.
    pub open spec fn spec_words(&self) -> Seq<u32> {
        seq![self.ty, self.mode, self.detail]
    }

    /// The value made of the given words.
    pub open spec fn spec_from_words(w: Seq<u32>) -> Self {
        Focus { ty: w[0], mode: w[1], detail: w[2] }
    }
}

impl Castable for Focus {
    open spec fn spec_size() -> nat {
        12
    }

    open spec fn spec_bytes(&self) -> Seq<u8> {
        words_bytes(self.spec_words())
    }

    open spec fn spec_parse(b: Seq<u8>) -> Self {
        Self::spec_from_words(words_of(b))
    }

    proof fn lemma_round_trip(&self) {
        lemma_words_round_trip(self.spec_words());
    }

    proof fn lemma_every_pattern(b: Seq<u8>) {
        lemma_words_every_pattern(b);
        assert(Self::spec_from_words(words_of(b)).spec_words() =~= words_of(b));
    }

    fn size() -> (r: usize) {
        12
    }

    fn as_bytes(&self) -> (r: Vec<u8>) {
        let w: Vec<u32> = vec![self.ty, self.mode, self.detail];
        assert(w@ =~= self.spec_words());
        encode_words(w.as_slice())
    }

    fn from_exact(buf: &[u8]) -> (r: Self) {
        let w = decode_words(buf);
        Focus { ty: w[0], mode: w[1], detail: w[2] }
    }
}

impl Message for Focus {
    open spec fn spec_kind() -> u32 {
        MSG_FOCUS
    }

    fn kind() -> (r: u32) {
        MSG_FOCUS
    }
}

impl Unmap {
    /// The 32-bit words of the value, in wire order.
    pub open spec fn spec_words(&self) -> Seq<u32> {
        Seq::empty()
    }

    /// The value made of the given words.
    pub open spec fn spec_from_words(w: Seq<u32>) -> Self {
        Unmap {}
    }
}

impl Castable for Unmap {
    open spec fn spec_size() -> nat {
        0
    }

    open spec fn spec_bytes(&self) -> Seq<u8> {
        words_bytes(self.spec_words())
    }

    open spec fn spec_parse(b: Seq<u8>) -> Self {
        Self::spec_from_words(words_of(b))
    }

    proof fn lemma_round_trip(&self) {
        lemma_words_round_trip(self.spec_words());
    }

    proof fn lemma_every_pattern(b: Seq<u8>) {
        lemma_words_every_pattern(b);
        assert(Self::spec_from_words(words_of(b)).spec_words() =~= words_of(b));
    }

    fn size() -> (r: usize) {
        0
    }

    fn as_bytes(&self) -> (r: Vec<u8>) {
        Vec::new()
    }

    fn from_exact(buf: &[u8]) -> (r: Self) {
        Unmap {}
    }
}

impl Message for Unmap {
    open spec fn spec_kind() -> u32 {
        MSG_UNMAP
    }

    fn kind() -> (r: u32) {
        MSG_UNMAP
    }
}

impl Dock {
    /// The 32-bit words of the value, in wire order.
    pub open spec fn spec_words(&self) -> Seq<u32> {
        Seq::empty()
    }

    /// The value made of the given words.
    pub open spec fn spec_from_words(w: Seq<u32>) -> Self {
        Dock {}
    }
}

impl Castable for Dock {
    open spec fn spec_size() -> nat {
        0
    }

    open spec fn spec_bytes(&self) -> Seq<u8> {
        words_bytes(self.spec_words())
    }

    open spec fn spec_parse(b: Seq<u8>) -> Self {
        Self::spec_from_words(words_of(b))
    }

    proof fn lemma_round_trip(&self) {
        lemma_words_round_trip(self.spec_words());
    }

    proof fn lemma_every_pattern(b: Seq<u8>) {
        lemma_words_every_pattern(b);
        assert(Self::spec_from_words(words_of(b)).spec_words() =~= words_of(b));
    }

    fn size() -> (r: usize) {
        0
    }

    fn as_bytes(&self) -> (r: Vec<u8>) {
        Vec::new()
    }

    fn from_exact(buf: &[u8]) -> (r: Self) {
        Dock {}
    }
}

impl Message for Dock {
    open spec fn spec_kind() -> u32 {
        MSG_DOCK
    }

    fn kind() -> (r: u32) {
        MSG_DOCK
    }
}

impl Destroy {
    /// The 32-bit words of the value, in wire order.
    pub open spec fn spec_words(&self) -> Seq<u32> {
        Seq::empty()
    }

    /// The value made of the given words.
    pub open spec fn spec_from_words(w: Seq<u32>) -> Self {
        Destroy {}
    }
}

impl Castable for Destroy {
    open spec fn spec_size() -> nat {
        0
    }

    open spec fn spec_bytes(&self) -> Seq<u8> {
        words_bytes(self.spec_words())
    }

    open spec fn spec_parse(b: Seq<u8>) -> Self {
        Self::spec_from_words(words_of(b))
    }

    proof fn lemma_round_trip(&self) {
        lemma_words_round_trip(self.spec_words());
    }

    proof fn lemma_every_pattern(b: Seq<u8>) {
        lemma_words_every_pattern(b);
        assert(Self::spec_from_words(words_of(b)).spec_words() =~= words_of(b));
    }

    fn size() -> (r: usize) {
        0
    }

    fn as_bytes(&self) -> (r: Vec<u8>) {
        Vec::new()
    }

    fn from_exact(buf: &[u8]) -> (r: Self) {
        Destroy {}
    }
}

impl Message for Destroy {
    open spec fn spec_kind() -> u32 {
        MSG_DESTROY
    }

    fn kind() -> (r: u32) {
        MSG_DESTROY
    }
}

impl WindowHints {
    /// The 32-bit words of the value, in wire order.
    pub open spec fn spec_words(&self) -> Seq<u32> {
        seq![
            self.flags,
            self.min_size.width,
            self.min_size.height,
            self.max_size.width,
            self.max_size.height,
            self.size_increment.width,
            self.size_increment.height,
            self.size_base.width,
            self.size_base.height,
        ]
    }

    /// The value made of the given words.
    pub open spec fn spec_from_words(w: Seq<u32>) -> Self {
        WindowHints {
            flags: w[0],
            min_size: WindowSize { width: w[1], height: w[2] },
            max_size: WindowSize { width: w[3], height: w[4] },
            size_increment: WindowSize { width: w[5], height: w[6] },
            size_base: WindowSize { width: w[7], height: w[8] },
        }
    }
}

impl Castable for WindowHints {
    open spec fn spec_size() -> nat {
        36
    }

    open spec fn spec_bytes(&self) -> Seq<u8> {
        words_bytes(self.spec_words())
    }

    open spec fn spec_parse(b: Seq<u8>) -> Self {
        Self::spec_from_words(words_of(b))
    }

    proof fn lemma_round_trip(&self) {
        lemma_words_round_trip(self.spec_words());
    }

    proof fn lemma_every_pattern(b: Seq<u8>) {
        lemma_words_every_pattern(b);
        assert(Self::spec_from_words(words_of(b)).spec_words() =~= words_of(b));
    }

    fn size() -> (r: usize) {
        36
    }

    fn as_bytes(&self) -> (r: Vec<u8>) {
        let w: Vec<u32> = vec![
            self.flags,
            self.min_size.width,
            self.min_size.height,
            self.max_size.width,
            self.max_size.height,
            self.size_increment.width,
            self.size_increment.height,
            self.size_base.width,
            self.size_base.height,
        ];
        assert(w@ =~= self.spec_words());
        encode_words(w.as_slice())
    }

    fn from_exact(buf: &[u8]) -> (r: Self) {
        let w = decode_words(buf);
        WindowHints {
            flags: w[0],
            min_size: WindowSize { width: w[1], height: w[2] },
            max_size: WindowSize { width: w[3], height: w[4] },
            size_increment: WindowSize { width: w[5], height: w[6] },
            size_base: WindowSize { width: w[7], height: w[8] },
        }
    }
}

impl Message for WindowHints {
    open spec fn spec_kind() -> u32 {
        MSG_WINDOW_HINTS
    }

    fn kind() -> (r: u32) {
        MSG_WINDOW_HINTS
    }
}

impl WindowFlags {
    /// The 32-bit words of the value, in wire order.
    pub open spec fn spec_words(&self) -> Seq<u32> {
        seq![self.set, self.unset]
    }

    /// The value made of the given words.
    pub open spec fn spec_from_words(w: Seq<u32>) -> Self {
        WindowFlags { set: w[0], unset: w[1] }
    }
}

impl Castable for WindowFlags {
    open spec fn spec_size() -> nat {
        8
    }

    open spec fn spec_bytes(&self) -> Seq<u8> {
        words_bytes(self.spec_words())
    }

    open spec fn spec_parse(b: Seq<u8>) -> Self {
        Self::spec_from_words(words_of(b))
    }

    proof fn lemma_round_trip(&self) {
        lemma_words_round_trip(self.spec_words());
    }

    proof fn lemma_every_pattern(b: Seq<u8>) {
        lemma_words_every_pattern(b);
        assert(Self::spec_from_words(words_of(b)).spec_words() =~= words_of(b));
    }

    fn size() -> (r: usize) {
        8
    }

    fn as_bytes(&self) -> (r: Vec<u8>) {
        let w: Vec<u32> = vec![self.set, self.unset];
        assert(w@ =~= self.spec_words());
        encode_words(w.as_slice())
    }

    fn from_exact(buf: &[u8]) -> (r: Self) {
        let w = decode_words(buf);
        WindowFlags { set: w[0], unset: w[1] }
    }
}

impl Message for WindowFlags {
    open spec fn spec_kind() -> u32 {
        MSG_WINDOW_FLAGS
    }

    fn kind() -> (r: u32) {
        MSG_WINDOW_FLAGS
    }
}

impl ShmCmd {
    /// The 32-bit words of the value, in wire order.
    pub open spec fn spec_words(&self) -> Seq<u32> {
        seq![self.shmid, self.width, self.height, self.bpp, self.off, self.num_mfn, self.domid]
    }

    /// The value made of the given words.
    pub open spec fn spec_from_words(w: Seq<u32>) -> Self {
        ShmCmd {
            shmid: w[0],
            width: w[1],
            height: w[2],
            bpp: w[3],
            off: w[4],
            num_mfn: w[5],
            domid: w[6],
        }
    }
}

impl Castable for ShmCmd {
    open spec fn spec_size() -> nat {
        28
    }

    open spec fn spec_bytes(&self) -> Seq<u8> {
        words_bytes(self.spec_words())
    }

    open spec fn spec_parse(b: Seq<u8>) -> Self {
        Self::spec_from_words(words_of(b))
    }

    proof fn lemma_round_trip(&self) {
        lemma_words_round_trip(self.spec_words());
    }

    proof fn lemma_every_pattern(b: Seq<u8>) {
        lemma_words_every_pattern(b);
        assert(Self::spec_from_words(words_of(b)).spec_words() =~= words_of(b));
    }

    fn size() -> (r: usize) {
        28
    }

    fn as_bytes(&self) -> (r: Vec<u8>) {
        let w: Vec<u32> = vec![
            self.shmid,
            self.width,
            self.height,
            self.bpp,
            self.off,
            self.num_mfn,
            self.domid,
        ];
        assert(w@ =~= self.spec_words());
        encode_words(w.as_slice())
    }

    fn from_exact(buf: &[u8]) -> (r: Self) {
        let w = decode_words(buf);
        ShmCmd {
            shmid: w[0],
            width: w[1],
            height: w[2],
            bpp: w[3],
            off: w[4],
            num_mfn: w[5],
            domid: w[6],
        }
    }
}

impl WindowDumpHeader {
    /// The 32-bit words of the value, in wire order.
    pub open spec fn spec_words(&self) -> Seq<u32> {
        seq![self.ty, self.width, self.height, self.bpp]
    }

    /// The value made of the given words.
    pub open spec fn spec_from_words(w: Seq<u32>) -> Self {
        WindowDumpHeader { ty: w[0], width: w[1], height: w[2], bpp: w[3] }
    }
}

impl Castable for WindowDumpHeader {
    open spec fn spec_size() -> nat {
        16
    }

    open spec fn spec_bytes(&self) -> Seq<u8> {
        words_bytes(self.spec_words())
    }

    open spec fn spec_parse(b: Seq<u8>) -> Self {
        Self::spec_from_words(words_of(b))
    }

    proof fn lemma_round_trip(&self) {
        lemma_words_round_trip(self.spec_words());
    }

    proof fn lemma_every_pattern(b: Seq<u8>) {
        lemma_words_every_pattern(b);
        assert(Self::spec_from_words(words_of(b)).spec_words() =~= words_of(b));
    }

    fn size() -> (r: usize) {
        16
    }

    fn as_bytes(&self) -> (r: Vec<u8>) {
        let w: Vec<u32> = vec![self.ty, self.width, self.height, self.bpp];
        assert(w@ =~= self.spec_words());
        encode_words(w.as_slice())
    }

    fn from_exact(buf: &[u8]) -> (r: Self) {
        let w = decode_words(buf);
        WindowDumpHeader { ty: w[0], width: w[1], height: w[2], bpp: w[3] }
    }
}

impl Message for WindowDumpHeader {
    open spec fn spec_kind() -> u32 {
        MSG_WINDOW_DUMP
    }

    fn kind() -> (r: u32) {
        MSG_WINDOW_DUMP
    }
}

impl Cursor {
    /// The 32-bit words of the value, in wire order.
    pub open spec fn spec_words(&self) -> Seq<u32> {
        seq![self.cursor]
    }

    /// The value made of the given words.
    pub open spec fn spec_from_words(w: Seq<u32>) -> Self {
        Cursor { cursor: w[0] }
    }
}

impl Castable for Cursor {
    open spec fn spec_size() -> nat {
        4
    }

    open spec fn spec_bytes(&self) -> Seq<u8> {
        words_bytes(self.spec_words())
    }

    open spec fn spec_parse(b: Seq<u8>) -> Self {
        Self::spec_from_words(words_of(b))
    }

    proof fn lemma_round_trip(&self) {
        lemma_words_round_trip(self.spec_words());
    }

    proof fn lemma_every_pattern(b: Seq<u8>) {
        lemma_words_every_pattern(b);
        assert(Self::spec_from_words(words_of(b)).spec_words() =~= words_of(b));
    }

    fn size() -> (r: usize) {
        4
    }

    fn as_bytes(&self) -> (r: Vec<u8>) {
        let w: Vec<u32> = vec![self.cursor];
        assert(w@ =~= self.spec_words());
        encode_words(w.as_slice())
    }

    fn from_exact(buf: &[u8]) -> (r: Self) {
        let w = decode_words(buf);
        Cursor { cursor: w[0] }
    }
}

impl Message for Cursor {
    open spec fn spec_kind() -> u32 {
        MSG_CURSOR
    }

    fn kind() -> (r: u32) {
        MSG_CURSOR
    }
}

/// Agent to daemon: set the window title.
#[derive(Debug, Clone, Copy, PartialEq, Eq, Hash)]
pub struct WMName {
    /// NUL-padded UTF-8 title
    pub data: [u8; 128],
}

impl Castable for WMName {
    open spec fn spec_size() -> nat {
        128
    }

    open spec fn spec_bytes(&self) -> Seq<u8> {
        self.data@
    }

    open spec fn spec_parse(b: Seq<u8>) -> Self {
        WMName { data: array_of::<128>(b) }
    }

    proof fn lemma_round_trip(&self) {
        lemma_array_of_view::<128>(self.data);
    }

    proof fn lemma_every_pattern(b: Seq<u8>) {
        lemma_array_of::<128>(b);
    }

    fn size() -> (r: usize) {
        128
    }

    fn as_bytes(&self) -> (r: Vec<u8>) {
        let mut out = Vec::new();
        push_array(&mut out, &self.data);
        out
    }

    fn from_exact(buf: &[u8]) -> (r: Self) {
        WMName { data: array_from_slice::<128>(buf) }
    }
}

impl Message for WMName {
    open spec fn spec_kind() -> u32 {
        MSG_SET_TITLE
    }

    fn kind() -> (r: u32) {
        MSG_SET_TITLE
    }
}

/// Daemon to agent: keymap change notification.
#[derive(Debug, Clone, Copy, PartialEq, Eq, Default, Hash)]
pub struct KeymapNotify {
    /// X11 keymap bitmap
    pub keys: [u8; 32],
}

impl Castable for KeymapNotify {
    open spec fn spec_size() -> nat {
        32
    }

    open spec fn spec_bytes(&self) -> Seq<u8> {
        self.keys@
    }

    open spec fn spec_parse(b: Seq<u8>) -> Self {
        KeymapNotify { keys: array_of::<32>(b) }
    }

    proof fn lemma_round_trip(&self) {
        lemma_array_of_view::<32>(self.keys);
    }

    proof fn lemma_every_pattern(b: Seq<u8>) {
        lemma_array_of::<32>(b);
    }

    fn size() -> (r: usize) {
        32
    }

    fn as_bytes(&self) -> (r: Vec<u8>) {
        let mut out = Vec::new();
        push_array(&mut out, &self.keys);
        out
    }

    fn from_exact(buf: &[u8]) -> (r: Self) {
        KeymapNotify { keys: array_from_slice::<32>(buf) }
    }
}

/// Agent to daemon: set the window class.
#[derive(Debug, Clone, Copy, PartialEq, Eq, Hash)]
pub struct WMClass {
    /// Window class, NUL-padded
    pub res_class: [u8; 64],
    /// Window name, NUL-padded
    pub res_name: [u8; 64],
}

impl Castable for WMClass {
    open spec fn spec_size() -> nat {
        128
    }

    open spec fn spec_bytes(&self) -> Seq<u8> {
        self.res_class@ + self.res_name@
    }

    open spec fn spec_parse(b: Seq<u8>) -> Self {
        WMClass {
            res_class: array_of::<64>(b.subrange(0, 64)),
            res_name: array_of::<64>(b.subrange(64, 128)),
        }
    }

    proof fn lemma_round_trip(&self) {
        let b = self.spec_bytes();
        assert(b.subrange(0, 64) =~= self.res_class@);
        assert(b.subrange(64, 128) =~= self.res_name@);
        lemma_array_of_view::<64>(self.res_class);
        lemma_array_of_view::<64>(self.res_name);
    }

    proof fn lemma_every_pattern(b: Seq<u8>) {
        lemma_array_of::<64>(b.subrange(0, 64));
        lemma_array_of::<64>(b.subrange(64, 128));
        assert(b =~= b.subrange(0, 64) + b.subrange(64, 128));
    }

    fn size() -> (r: usize) {
        128
    }

    fn as_bytes(&self) -> (r: Vec<u8>) {
        let mut out = Vec::new();
        push_array(&mut out, &self.res_class);
        push_array(&mut out, &self.res_name);
        assert(out@ =~= self.spec_bytes());
        out
    }

    fn from_exact(buf: &[u8]) -> (r: Self) {
        let res_class = array_from_slice::<64>(vstd::slice::slice_subrange(buf, 0, 64));
        let res_name = array_from_slice::<64>(vstd::slice::slice_subrange(buf, 64, 128));
        WMClass { res_class, res_name }
    }
}

impl Message for WMClass {
    open spec fn spec_kind() -> u32 {
        MSG_WINDOW_CLASS
    }

    fn kind() -> (r: u32) {
        MSG_WINDOW_CLASS
    }
}

impl Create {
    /// The parent window, or `None` when the parent field is zero.
    pub fn parent_window(&self) -> (r: Option<u32>)
        ensures
            r == if self.parent == 0 {
                None
            } else {
                Some(self.parent)
            },
    {
        if self.parent == 0 {
            None
        } else {
            Some(self.parent)
        }
    }
}

/// Each message layout has no padding: its size is the sum of the sizes of
/// its fields.
pub proof fn lemma_sizes_are_sums_of_fields()
    ensures
        Header::spec_size() == 3 * u32::spec_size(),
        Coordinates::spec_size() == 2 * u32::spec_size(),
        WindowSize::spec_size() == 2 * u32::spec_size(),
        Rectangle::spec_size() == Coordinates::spec_size() + WindowSize::spec_size(),
        XConf::spec_size() == WindowSize::spec_size() + 2 * u32::spec_size(),
        XConfVersion::spec_size() == u32::spec_size() + XConf::spec_size(),
        MapInfo::spec_size() == 2 * u32::spec_size(),
        Create::spec_size() == Rectangle::spec_size() + 2 * u32::spec_size(),
        Keypress::spec_size() == Coordinates::spec_size() + 3 * u32::spec_size(),
        Button::spec_size() == Coordinates::spec_size() + 3 * u32::spec_size(),
        Motion::spec_size() == Coordinates::spec_size() + 2 * u32::spec_size(),
        Crossing::spec_size() == Coordinates::spec_size() + 5 * u32::spec_size(),
        Configure::spec_size() == Rectangle::spec_size() + u32::spec_size(),
        ShmImage::spec_size() == Rectangle::spec_size(),
        Focus::spec_size() == 3 * u32::spec_size(),
        Unmap::spec_size() == 0,
        Dock::spec_size() == 0,
        Destroy::spec_size() == 0,
        WindowHints::spec_size() == u32::spec_size() + 4 * WindowSize::spec_size(),
        WindowFlags::spec_size() == 2 * u32::spec_size(),
        ShmCmd::spec_size() == 7 * u32::spec_size(),
        WindowDumpHeader::spec_size() == 4 * u32::spec_size(),
        Cursor::spec_size() == u32::spec_size(),
        WMName::spec_size() == 128 * u8::spec_size(),
        KeymapNotify::spec_size() == 32 * u8::spec_size(),
        WMClass::spec_size() == 64 * u8::spec_size() + 64 * u8::spec_size(),
{
}

} // verus!
