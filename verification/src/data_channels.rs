//! Data channels: the `general` channel carries signaling, every other
//! channel is dumped to a file in the session's directory.

use vstd::prelude::*;
use crate::messages::{ServerMessage, ServerMessageView};
use crate::text::str_equals;

verus! {

/// The role of a data channel, by its label.
#[derive(Debug, Clone, Copy, PartialEq, Eq, Structural)]
pub enum ChannelRole {
    /// The signaling channel between client and server.
    General,
    /// A channel whose data is written to disk.
    Generic,
}

/// The channel labelled `general` carries signaling; every other one is
/// written to disk.
pub fn channel_role(label: &str) -> (res: ChannelRole)
    ensures
        res == (if label@ == "general"@ { ChannelRole::General } else { ChannelRole::Generic }),
{
    if str_equals(label, "general") {
        ChannelRole::General
    } else {
        ChannelRole::Generic
    }
}

/// The file extension of a generic channel's dump: `txt` for the
/// `timestamped_bytes` protocol, `dat` otherwise.
pub open spec fn dump_extension(protocol: Seq<char>) -> Seq<char> {
    if protocol == "timestamped_bytes"@ { "txt"@ } else { "dat"@ }
}

/// The name of the file that a generic channel is dumped to:
/// `data_<label>.<txt|dat>`.
pub fn generic_channel_file_name(label: &str, protocol: &str) -> (res: String)
    ensures
        res@ == "data_"@ + label@ + "."@ + dump_extension(protocol@),
{
    let mut name = "data_".to_owned();
    name.append(label);
    name.append(".");
    if str_equals(protocol, "timestamped_bytes") {
        name.append("txt");
    } else {
        name.append("dat");
    }
    name
}

/// What a generic channel does with one message.
#[derive(Debug)]
pub enum GenericAction {
    /// Write the raw bytes to the file.
    WriteRaw,
    /// Decode the timestamped bytes into lines and write them.
    WriteLines,
    /// Refuse the message: send `notice` to the client and close the
    /// channel with an invalid-protocol error.
    Reject { notice: ServerMessage },
}

/// The receiving side of a generic data channel.
pub struct GenericChannel {
    protocol: String,
    msg_count: i32,
}

/// The text sent to the client when a `timestamped_bytes` channel receives a
/// string message.
pub open spec fn string_refused_text(protocol: Seq<char>) -> Seq<char> {
    "data channel with protocol ["@ + protocol + "] cannot send messages of type string."@
}

impl GenericChannel {
    /// The channel's protocol.
    pub closed spec fn protocol(&self) -> Seq<char> {
        self.protocol@
    }

    /// The number of messages received so far.
    pub closed spec fn count(&self) -> int {
        self.msg_count as int
    }

    /// A channel speaking `protocol` that has received nothing yet.
    pub fn new(protocol: &str) -> (res: GenericChannel)
        ensures
            res.protocol() == protocol@,
            res.count() == 0,
    {
        GenericChannel { protocol: protocol.to_owned(), msg_count: 0 }
    }

    /// The number of messages received so far.
    pub fn messages_received(&self) -> (res: i32)
        ensures
            res as int == self.count(),
    {
        self.msg_count
    }

    /// Takes one message: counts it, says whether the count is a multiple of
    /// 100 (worth a progress line), and decides what to do with it. A
    /// `timestamped_bytes` channel refuses string messages and decodes the
    /// others; any other channel writes the raw bytes.
    pub fn on_message(&mut self, is_string: bool) -> (res: (bool, GenericAction))
        requires
            old(self).count() < i32::MAX,
        ensures
            final(self).count() == old(self).count() + 1,
            final(self).protocol() == old(self).protocol(),
            res.0 == (final(self).count() % 100 == 0),
            old(self).protocol() != "timestamped_bytes"@ ==> res.1 is WriteRaw,
            old(self).protocol() == "timestamped_bytes"@ && !is_string ==> res.1 is WriteLines,
            old(self).protocol() == "timestamped_bytes"@ && is_string ==> (res.1 matches GenericAction::Reject {
                notice,
            } && notice@ == ServerMessageView::Error(string_refused_text(old(self).protocol()))),
    {
        self.msg_count = self.msg_count + 1;
        let progress = self.msg_count % 100 == 0;
        if str_equals(self.protocol.as_str(), "timestamped_bytes") {
            if is_string {
                let mut text = "data channel with protocol [".to_owned();
                text.append(self.protocol.as_str());
                text.append("] cannot send messages of type string.");
                return (progress, GenericAction::Reject { notice: ServerMessage::error(text.as_str()) });
            }
            (progress, GenericAction::WriteLines)
        } else {
            (progress, GenericAction::WriteRaw)
        }
    }
}

} // verus!
