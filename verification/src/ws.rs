//! What the live-data websockets answer: the reaction of each kind of socket
//! to a frame from its client or to an update from the broadcast channel,
//! and the tag list that a server entry carries.

use vstd::prelude::*;
use crate::text::str_eq;

verus! {

/// A frame received from a websocket client.
#[derive(Debug)]
pub enum ClientFrame {
    Text(String),
    Binary(Vec<u8>),
    Ping(Vec<u8>),
    Pong(Vec<u8>),
    Close,
}

/// The three websockets the server offers.
#[derive(Clone, Copy, Debug, PartialEq, Eq, Structural)]
pub enum SocketKind {
    /// The authenticated socket with the full server list.
    Private,
    /// The public socket with the desensitized server list.
    Public,
    /// The socket that follows the output of one batch command.
    Batch,
}

/// What a socket does next.
#[derive(Debug)]
pub enum SocketAction {
    SendText(String),
    SendPong(Vec<u8>),
    Skip,
    Close,
}

/// Reacts to a frame from the client: a ping is answered by a pong with
/// the same payload and a close frame ends the connection on every socket;
/// only the authenticated socket answers the text `ping` with the text
/// `pong`; everything else is ignored.
pub fn client_frame_action(kind: SocketKind, frame: ClientFrame) -> (r: SocketAction)
    ensures
        frame matches ClientFrame::Ping(p) ==> r == SocketAction::SendPong(p),
        frame is Close ==> r is Close,
        frame is Binary || frame is Pong ==> r is Skip,
        frame matches ClientFrame::Text(t) ==> {
            if kind == SocketKind::Private && t@ == "ping"@ {
                r matches SocketAction::SendText(s) && s@ == "pong"@
            } else {
                r is Skip
            }
        },
{
    match frame {
        ClientFrame::Ping(p) => SocketAction::SendPong(p),
        ClientFrame::Close => SocketAction::Close,
        ClientFrame::Text(t) => {
            if kind == SocketKind::Private && str_eq(t.as_str(), "ping") {
                SocketAction::SendText("pong".to_string())
            } else {
                SocketAction::Skip
            }
        },
        ClientFrame::Binary(_) => SocketAction::Skip,
        ClientFrame::Pong(_) => SocketAction::Skip,
    }
}

/// Reacts to an update of the server list: the serialized update is sent to
/// the client; an update that could not be serialized (`None`) is skipped
/// and the connection stays open.
pub fn server_update_action(serialized: Option<String>) -> (r: SocketAction)
    ensures
        serialized matches Some(json) ==> r == SocketAction::SendText(json),
        serialized is None ==> r is Skip,
{
    match serialized {
        Some(json) => SocketAction::SendText(json),
        None => SocketAction::Skip,
    }
}

/// Reacts to a broadcast batch-command message on the socket that follows
/// the batch `connection_batch_id`. `message_batch_id` is the batch id read
/// from the message, `None` where the message has no readable one. The
/// message is forwarded unchanged exactly when that id is the connection's.
pub fn batch_update_action(
    connection_batch_id: &str,
    message: String,
    message_batch_id: Option<String>,
) -> (r: SocketAction)
    ensures
        (message_batch_id matches Some(id) && id@ == connection_batch_id@) ==> r
            == SocketAction::SendText(message),
        !(message_batch_id matches Some(id) && id@ == connection_batch_id@) ==> r is Skip,
{
    match message_batch_id {
        Some(id) => {
            if str_eq(id.as_str(), connection_batch_id) {
                SocketAction::SendText(message)
            } else {
                SocketAction::Skip
            }
        },
        None => SocketAction::Skip,
    }
}

/// A tag as a server entry of the live data shows it.
#[derive(Debug)]
pub struct ServerTag {
    pub id: i32,
    pub name: String,
    pub color: String,
    pub icon: Option<String>,
    pub url: Option<String>,
    pub is_visible: bool,
}

/// The tag list of a server entry: absent where the server has no tag,
/// else the tags in the order given.
pub fn server_tags(tags: Vec<ServerTag>) -> (r: Option<Vec<ServerTag>>)
    ensures
        tags.len() == 0 ==> r is None,
        tags.len() > 0 ==> (r matches Some(v) && v@ == tags@),
{
    if tags.len() == 0 {
        None
    } else {
        Some(tags)
    }
}

} // verus!
