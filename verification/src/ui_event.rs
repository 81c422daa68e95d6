//! Messages that the operator's window sends, one per user action.
//!
//! A message is a word, except for a start, which is the word `start`, one
//! separating byte and the name of the file to write.

use vstd::prelude::*;
use vstd::string::*;
use vstd::utf8::*;
use crate::events::{find_line_feed, first_line_feed};
use crate::text::{has_prefix, same_bytes, starts_with};

verus! {

/// Number of bytes before the file name in a start message: the word
/// `start` and one separator.
pub const START_PREFIX_LEN: usize = 6;

/// A message from the window, borrowing its text.
#[derive(Debug, Clone, Copy, PartialEq, Eq)]
pub enum UiEventVariant<'a> {
    /// The window has loaded.
    Init,
    /// Start a run that writes to the named file.
    Start(&'a str),
    /// Stop the run.
    Stop,
    /// Empty the log view.
    ClearLog,
    /// Let the operator pick a directory.
    ChooseDir,
    /// Anything else, as it came.
    Unknown(&'a str),
}

/// What a message means, with its texts as bytes.
pub enum UiEventModel {
    Init,
    Start(Seq<u8>),
    Stop,
    ClearLog,
    ChooseDir,
    Unknown(Seq<u8>),
}

/// Whether a message asks for a start: it holds a line feed and begins
/// with the word `start`.
pub open spec fn is_start_message(bytes: Seq<u8>) -> bool {
    first_line_feed(bytes) < bytes.len() && starts_with(bytes, "start".spec_bytes())
}

/// The meaning of a message. A start message names its file after the
/// prefix; one that cannot be cut there, because a character straddles the
/// cut or the message is too short, is not understood.
pub open spec fn meaning(bytes: Seq<u8>) -> UiEventModel {
    if is_start_message(bytes) {
        if is_char_boundary(bytes, START_PREFIX_LEN as int) {
            UiEventModel::Start(bytes.skip(START_PREFIX_LEN as int))
        } else {
            UiEventModel::Unknown(bytes)
        }
    } else if bytes == "init".spec_bytes() {
        UiEventModel::Init
    } else if bytes == "stop".spec_bytes() {
        UiEventModel::Stop
    } else if bytes == "clear_log".spec_bytes() {
        UiEventModel::ClearLog
    } else if bytes == "choose_dir".spec_bytes() {
        UiEventModel::ChooseDir
    } else {
        UiEventModel::Unknown(bytes)
    }
}

impl<'a> UiEventVariant<'a> {
    /// The message's meaning with its texts as bytes.
    pub open spec fn model(self) -> UiEventModel {
        match self {
            UiEventVariant::Init => UiEventModel::Init,
            UiEventVariant::Start(file) => UiEventModel::Start(file.spec_bytes()),
            UiEventVariant::Stop => UiEventModel::Stop,
            UiEventVariant::ClearLog => UiEventModel::ClearLog,
            UiEventVariant::ChooseDir => UiEventModel::ChooseDir,
            UiEventVariant::Unknown(msg) => UiEventModel::Unknown(msg.spec_bytes()),
        }
    }

    /// Reads a message.
    pub fn from(msg: &'a str) -> (event: Self)
        ensures
            event.model() == meaning(msg.spec_bytes()),
    {
        let bytes: &[u8] = msg.as_bytes();
        if find_line_feed(bytes) < bytes.len() && has_prefix(bytes, "start".as_bytes()) {
            if msg.is_char_boundary(START_PREFIX_LEN) {
                let (_, file) = msg.split_at(START_PREFIX_LEN);
                proof {
                    encode_utf8_valid_utf8(msg@);
                    is_char_boundary_in_range(msg.spec_bytes(), START_PREFIX_LEN as int);
                    assert(file.spec_bytes() =~= msg.spec_bytes().skip(START_PREFIX_LEN as int));
                }
                return UiEventVariant::Start(file);
            }
            return UiEventVariant::Unknown(msg);
        }
        if same_bytes(bytes, "init".as_bytes()) {
            UiEventVariant::Init
        } else if same_bytes(bytes, "stop".as_bytes()) {
            UiEventVariant::Stop
        } else if same_bytes(bytes, "clear_log".as_bytes()) {
            UiEventVariant::ClearLog
        } else if same_bytes(bytes, "choose_dir".as_bytes()) {
            UiEventVariant::ChooseDir
        } else {
            UiEventVariant::Unknown(msg)
        }
    }
}

/// A character boundary lies within the text.
proof fn is_char_boundary_in_range(bytes: Seq<u8>, index: int)
    requires
        valid_utf8(bytes),
        is_char_boundary(bytes, index),
    ensures
        0 <= index <= bytes.len(),
{
    reveal_with_fuel(is_char_boundary, 2);
}

} // verus!
