//! Agent-side decoding of messages from the daemon into typed events.
use crate::castable::Castable;
use crate::connection::Client;
use crate::protocol::{
    spec_length_limits, spec_length_ok, Button, Configure, Crossing, Focus, Header, KeymapNotify,
    Keypress, MapInfo, Motion, WindowFlags, MSG_BUTTON,
    MSG_CLIPBOARD_DATA, MSG_CLIPBOARD_REQ,
    MSG_CLOSE, MSG_CONFIGURE, MSG_CROSSING, MSG_DESTROY, MSG_FOCUS, MSG_KEYMAP_NOTIFY,
    MSG_KEYPRESS, MSG_MAP, MSG_MOTION, MSG_WINDOW_FLAGS,
};
use crate::stream::StreamError;
use crate::transport::Transport;
use vstd::prelude::*;
use vstd::utf8::{decode_utf8, valid_utf8};

verus! {

/// Errors when parsing an agent-side message.
#[derive(Debug, Copy, Clone, Eq, PartialEq, Structural)]
pub enum Error {
    /// Invalid UTF-8
    BadUTF8,
    /// Invalid key event type
    BadKeypress {
        /// The type provided by the GUI daemon
        ty: u32,
    },
    /// Invalid button event type
    BadButton {
        /// The type provided by the GUI daemon
        ty: u32,
    },
    /// Invalid focus event type
    BadFocus {
        /// The type provided by the GUI daemon
        ty: u32,
    },
}

/// A GUI protocol event
#[derive(Debug)]
pub enum Event<'a> {
    /// Daemon to agent: a key has been pressed or released
    Keypress(Keypress),
    /// Daemon to agent: a button has been pressed or released
    Button(Button),
    /// Daemon to agent: the pointer has moved
    Motion(Motion),
    /// Daemon to agent: the pointer has entered or left a window
    Crossing(Crossing),
    /// Daemon to agent: focus changed
    Focus(Focus),
    /// Bidirectional: a window was destroyed
    Destroy,
    /// Bidirectional: the agent must redraw a portion of the display
    Redraw(MapInfo),
    /// Bidirectional: a window has been moved and/or resized
    Configure(Configure),
    /// Daemon to agent: the user wishes to close a window
    Close,
    /// Daemon to agent: clipboard data is requested
    ClipboardReq,
    /// Bidirectional: clipboard contents, valid UTF-8 but not trusted
    ClipboardData {
        /// Untrusted clipboard data
        untrusted_data: &'a str,
    },
    /// Daemon to agent: the keymap changed
    Keymap(KeymapNotify),
    /// Bidirectional: window manager flags
    WindowFlags(WindowFlags),
}

/// Relies on `core::str::from_utf8`: it accepts exactly the valid UTF-8
/// byte sequences, and then the string holds the characters they encode.
#[verifier::external_body]
fn utf8_str(b: &[u8]) -> (r: Option<&str>)
    ensures
        r is Some <==> valid_utf8(b@),
        r is Some ==> r->Some_0@ == decode_utf8(b@),
{
    core::str::from_utf8(b).ok()
}

/// Whether messages of type `ty` go from the daemon to the agent (or both
/// ways) and are turned into events.
pub open spec fn is_event_type(ty: u32) -> bool {
    ty == MSG_MOTION || ty == MSG_CROSSING || ty == MSG_CLOSE || ty == MSG_KEYPRESS || ty
        == MSG_BUTTON || ty == MSG_CLIPBOARD_REQ || ty == MSG_CLIPBOARD_DATA || ty
        == MSG_KEYMAP_NOTIFY || ty == MSG_MAP || ty == MSG_CONFIGURE || ty == MSG_FOCUS || ty
        == MSG_WINDOW_FLAGS || ty == MSG_DESTROY
}

/// What parsing the message with header `header` and body `body` gives:
/// an event for each type that carries one, with its body decoded as it is,
/// an error for clipboard data that is not valid UTF-8, and `None` for the
/// types that only an agent sends.
pub open spec fn parsed<'a>(
    header: Header,
    body: Seq<u8>,
    r: Result<Option<(u32, Event<'a>)>, Error>,
) -> bool {
    let w = header.window;
    let ty = header.ty;
    if !is_event_type(ty) {
        r == Ok::<Option<(u32, Event<'a>)>, Error>(None)
    } else if ty == MSG_CLIPBOARD_DATA {
        match r {
            Ok(Some((rw, Event::ClipboardData { untrusted_data }))) => rw == w && valid_utf8(body)
                && untrusted_data@ == decode_utf8(body),
            Err(e) => e == Error::BadUTF8 && !valid_utf8(body),
            _ => false,
        }
    } else {
        r == Ok::<Option<(u32, Event<'a>)>, Error>(
            Some(
                (
                    w,
                    if ty == MSG_MOTION {
                        Event::Motion(Motion::spec_parse(body))
                    } else if ty == MSG_KEYPRESS {
                        Event::Keypress(Keypress::spec_parse(body))
                    } else if ty == MSG_BUTTON {
                        Event::Button(Button::spec_parse(body))
                    } else if ty == MSG_CROSSING {
                        Event::Crossing(Crossing::spec_parse(body))
                    } else if ty == MSG_FOCUS {
                        Event::Focus(Focus::spec_parse(body))
                    } else if ty == MSG_CLOSE {
                        Event::Close
                    } else if ty == MSG_DESTROY {
                        Event::Destroy
                    } else if ty == MSG_CLIPBOARD_REQ {
                        Event::ClipboardReq
                    } else if ty == MSG_KEYMAP_NOTIFY {
                        Event::Keymap(KeymapNotify::spec_parse(body))
                    } else if ty == MSG_MAP {
                        Event::Redraw(MapInfo::spec_parse(body))
                    } else if ty == MSG_CONFIGURE {
                        Event::Configure(Configure::spec_parse(body))
                    } else {
                        Event::WindowFlags(WindowFlags::spec_parse(body))
                    },
                ),
            ),
        )
    }
}

impl<'a> Event<'a> {
    /// Parses a message from the GUI daemon, whose body has the length that
    /// its header announces and that its type allows.  Returns the window
    /// and the event, or `None` for a message that only an agent sends.
    pub fn parse(header: Header, body: &'a [u8]) -> (r: Result<Option<(u32, Event<'a>)>, Error>)
        requires
            header.untrusted_len == body@.len(),
            spec_length_limits(header.ty) is Some ==> spec_length_ok(header.ty, body@.len()),
        ensures
            parsed(header, body@, r),
    {
        let window = header.window;
        let ty = header.ty;
        let event = if ty == MSG_MOTION {
            Event::Motion(Motion::from_exact(body))
        } else if ty == MSG_CROSSING {
            Event::Crossing(Crossing::from_exact(body))
        } else if ty == MSG_CLOSE {
            Event::Close
        } else if ty == MSG_DESTROY {
            Event::Destroy
        } else if ty == MSG_KEYPRESS {
            Event::Keypress(Keypress::from_exact(body))
        } else if ty == MSG_BUTTON {
            Event::Button(Button::from_exact(body))
        } else if ty == MSG_CLIPBOARD_REQ {
            Event::ClipboardReq
        } else if ty == MSG_CLIPBOARD_DATA {
            match utf8_str(body) {
                Some(untrusted_data) => Event::ClipboardData { untrusted_data },
                None => return Err(Error::BadUTF8),
            }
        } else if ty == MSG_KEYMAP_NOTIFY {
            Event::Keymap(KeymapNotify::from_exact(body))
        } else if ty == MSG_MAP {
            Event::Redraw(MapInfo::from_exact(body))
        } else if ty == MSG_CONFIGURE {
            Event::Configure(Configure::from_exact(body))
        } else if ty == MSG_FOCUS {
            Event::Focus(Focus::from_exact(body))
        } else if ty == MSG_WINDOW_FLAGS {
            Event::WindowFlags(WindowFlags::from_exact(body))
        } else {
            return Ok(None);
        };
        Ok(Some((window, event)))
    }
}

/// An event read by a client: its window, its kind, and its body.
#[derive(Debug)]
pub struct ReceivedEvent {
    /// The message header
    pub header: Header,
    /// The message body
    pub body: Vec<u8>,
}

impl ReceivedEvent {
    /// Decodes the event.
    pub fn event(&self) -> (r: Result<Option<(u32, Event<'_>)>, Error>)
        requires
            self.header.untrusted_len == self.body@.len(),
            spec_length_ok(self.header.ty, self.body@.len()),
        ensures
            parsed(self.header, self.body@, r),
    {
        Event::parse(self.header, self.body.as_slice())
    }
}

impl<T: Transport> Client<T> {
    /// Reads the next message from the daemon that carries an event.
    /// Returns `None` when no complete message is available, or when the
    /// message read only goes from agent to daemon and is skipped.
    pub fn next_event(&mut self) -> (r: Result<Option<ReceivedEvent>, StreamError>)
        requires
            old(self).wf(),
            old(self).is_agent(),
        ensures
            final(self).wf(),
            final(self).windows() == old(self).windows(),
            match r {
                Ok(Some(e)) => {
                    &&& is_event_type(e.header.ty)
                    &&& e.header.untrusted_len == e.body@.len()
                    &&& spec_length_ok(e.header.ty, e.body@.len())
                    &&& old(self).stream().read_outcome(
                        &final(self).stream(),
                        Ok(Some((e.header, e.body@))),
                    )
                },
                Ok(None) => old(self).stream().read_outcome(&final(self).stream(), Ok(None))
                    || exists|h: Header, b: Seq<u8>|
                    !is_event_type(h.ty) && old(self).stream().read_outcome(
                        &final(self).stream(),
                        Ok(Some((h, b))),
                    ),
                Err(e) => old(self).stream().read_outcome(&final(self).stream(), Err(e)),
            },
    {
        match self.read_header() {
            Ok(Some((header, body))) => {
                if !is_event(header.ty) {
                    return Ok(None);
                }
                Ok(Some(ReceivedEvent { header, body }))
            },
            Ok(None) => Ok(None),
            Err(e) => Err(e),
        }
    }
}

/// Whether messages of type `ty` carry events for the agent.
fn is_event(ty: u32) -> (r: bool)
    ensures
        r == is_event_type(ty),
{
    ty == MSG_MOTION || ty == MSG_CROSSING || ty == MSG_CLOSE || ty == MSG_KEYPRESS || ty
        == MSG_BUTTON || ty == MSG_CLIPBOARD_REQ || ty == MSG_CLIPBOARD_DATA || ty
        == MSG_KEYMAP_NOTIFY || ty == MSG_MAP || ty == MSG_CONFIGURE || ty == MSG_FOCUS || ty
        == MSG_WINDOW_FLAGS || ty == MSG_DESTROY
}

} // verus!
