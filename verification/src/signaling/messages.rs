//! The messages that client and server exchange, and their models.

use vstd::prelude::*;

use crate::text::push_decimal;

verus! {

use crate::text::{decimal, lemma_decimal_digits, lemma_split_front, lemma_split_whole, split};

/// The peer number of the server.
pub const SERVER_PEER: u32 = 1;

/// The peer number of the client, which is always the same.
pub const CLIENT_PEER: u32 = 2;

/// GFN Peer Protocol message format
#[derive(Debug)]
pub struct GfnPeerMessage {
    pub ackid: Option<u32>,
    pub ack: Option<u32>,
    pub peer_info: Option<GfnPeerInfo>,
    pub peer_msg: Option<GfnPeerMsgContent>,
    pub hb: Option<u32>,
}

#[derive(Debug)]
pub struct GfnPeerInfo {
    pub browser: String,
    pub browser_version: String,
    pub connected: bool,
    pub id: u32,
    pub name: String,
    pub peer_role: u32,
    pub resolution: String,
    pub version: u32,
}

#[derive(Debug)]
pub struct GfnPeerMsgContent {
    pub from: u32,
    pub to: u32,
    pub msg: String,
}

/// SDP Offer/Answer message
#[derive(Debug)]
pub struct SdpMessage {
    pub msg_type: String,
    pub sdp: Option<String>,
    pub nvst_sdp: Option<String>,
}

/// ICE Candidate message
#[derive(Debug)]
pub struct IceCandidateMessage {
    pub candidate: String,
    pub sdp_mid: Option<String>,
    pub sdp_mline_index: Option<u32>,
}

/// A remote candidate as the peer connection takes it.
#[derive(Debug)]
pub struct IceCandidate {
    pub candidate: String,
    pub sdp_mid: String,
    pub sdp_mline_index: u16,
    pub username_fragment: Option<String>,
}

/// What a `GfnPeerMessage` says.
pub struct PeerMessage {
    pub ackid: Option<u32>,
    pub ack: Option<u32>,
    pub peer_info: Option<PeerInfo>,
    pub peer_msg: Option<PeerPayload>,
    pub hb: Option<u32>,
}

/// What a `GfnPeerInfo` says.
pub struct PeerInfo {
    pub browser: Seq<char>,
    pub browser_version: Seq<char>,
    pub connected: bool,
    pub id: u32,
    pub name: Seq<char>,
    pub peer_role: u32,
    pub resolution: Seq<char>,
    pub version: u32,
}

/// What a `GfnPeerMsgContent` says.
pub struct PeerPayload {
    pub from: u32,
    pub to: u32,
    pub msg: Seq<char>,
}

/// What an `SdpMessage` says.
pub struct Description {
    pub msg_type: Seq<char>,
    pub sdp: Option<Seq<char>>,
    pub nvst_sdp: Option<Seq<char>>,
}

/// What an `IceCandidateMessage` says.
pub struct LocalCandidate {
    pub candidate: Seq<char>,
    pub sdp_mid: Option<Seq<char>>,
    pub sdp_mline_index: Option<u32>,
}

/// What an `IceCandidate` says.
pub struct RemoteCandidate {
    pub candidate: Seq<char>,
    pub sdp_mid: Seq<char>,
    pub sdp_mline_index: u16,
    pub username_fragment: Option<Seq<char>>,
}

/// The content of a string that may be missing.
pub open spec fn text_of(s: Option<String>) -> Option<Seq<char>> {
    match s {
        Some(s) => Some(s@),
        None => None,
    }
}

impl View for GfnPeerMessage {
    type V = PeerMessage;

    open spec fn view(&self) -> PeerMessage {
        PeerMessage {
            ackid: self.ackid,
            ack: self.ack,
            peer_info: match self.peer_info {
                Some(info) => Some(info@),
                None => None,
            },
            peer_msg: match self.peer_msg {
                Some(content) => Some(content@),
                None => None,
            },
            hb: self.hb,
        }
    }
}

impl View for GfnPeerInfo {
    type V = PeerInfo;

    open spec fn view(&self) -> PeerInfo {
        PeerInfo {
            browser: self.browser@,
            browser_version: self.browser_version@,
            connected: self.connected,
            id: self.id,
            name: self.name@,
            peer_role: self.peer_role,
            resolution: self.resolution@,
            version: self.version,
        }
    }
}

impl View for GfnPeerMsgContent {
    type V = PeerPayload;

    open spec fn view(&self) -> PeerPayload {
        PeerPayload { from: self.from, to: self.to, msg: self.msg@ }
    }
}

impl View for SdpMessage {
    type V = Description;

    open spec fn view(&self) -> Description {
        Description {
            msg_type: self.msg_type@,
            sdp: text_of(self.sdp),
            nvst_sdp: text_of(self.nvst_sdp),
        }
    }
}

impl View for IceCandidateMessage {
    type V = LocalCandidate;

    open spec fn view(&self) -> LocalCandidate {
        LocalCandidate {
            candidate: self.candidate@,
            sdp_mid: text_of(self.sdp_mid),
            sdp_mline_index: self.sdp_mline_index,
        }
    }
}

impl View for IceCandidate {
    type V = RemoteCandidate;

    open spec fn view(&self) -> RemoteCandidate {
        RemoteCandidate {
            candidate: self.candidate@,
            sdp_mid: self.sdp_mid@,
            sdp_mline_index: self.sdp_mline_index,
            username_fragment: text_of(self.username_fragment),
        }
    }
}

/// A message that says nothing.
pub open spec fn silence() -> PeerMessage {
    PeerMessage { ackid: None, ack: None, peer_info: None, peer_msg: None, hb: None }
}

/// Says that the sender is alive.
pub open spec fn heartbeat() -> PeerMessage {
    PeerMessage { hb: Some(1), ..silence() }
}

/// Says that a message has arrived.
pub open spec fn acknowledgement(ackid: u32) -> PeerMessage {
    PeerMessage { ack: Some(ackid), ..silence() }
}

/// Carries a payload from the client to the server.
pub open spec fn to_server(ackid: u32, msg: Seq<char>) -> PeerMessage {
    PeerMessage {
        ackid: Some(ackid),
        peer_msg: Some(PeerPayload { from: CLIENT_PEER, to: SERVER_PEER, msg }),
        ..silence()
    }
}

/// A size in pixels, as in "1920x1080".
pub open spec fn dimensions(width: u32, height: u32) -> Seq<char> {
    decimal(width as nat) + "x"@ + decimal(height as nat)
}

/// Introduces the client under a name, with the size that it displays.
pub open spec fn introduction(ackid: u32, name: Seq<char>, width: u32, height: u32) -> PeerMessage {
    PeerMessage {
        ackid: Some(ackid),
        peer_info: Some(
            PeerInfo {
                browser: "Chrome"@,
                browser_version: "131"@,
                connected: true,
                id: CLIENT_PEER,
                name,
                peer_role: 0,
                resolution: dimensions(width, height),
                version: 2,
            },
        ),
        ..silence()
    }
}

/// The answer to an offer, with the streaming parameters beside it.
pub open spec fn answer(sdp: Seq<char>, nvst_sdp: Seq<char>) -> Description {
    Description { msg_type: "answer"@, sdp: Some(sdp), nvst_sdp: Some(nvst_sdp) }
}

/// A size in pixels, as in "1920x1080".
pub fn dimensions_of(width: u32, height: u32) -> (text: String)
    ensures
        text@ == dimensions(width, height),
{
    let mut text = String::new();
    push_decimal(&mut text, width as u64);
    text.append("x");
    push_decimal(&mut text, height as u64);
    assert(text@ =~= dimensions(width, height));
    text
}

/// The client says that it is alive this often, in milliseconds.
pub const HEARTBEAT_PERIOD_MS: u64 = 5000;

/// Says that the client is alive.
pub fn heartbeat_message() -> (message: GfnPeerMessage)
    ensures
        message@ == heartbeat(),
{
    GfnPeerMessage { ackid: None, ack: None, peer_info: None, peer_msg: None, hb: Some(1) }
}

/// Says that a message has arrived.
pub fn ack_message(ackid: u32) -> (message: GfnPeerMessage)
    ensures
        message@ == acknowledgement(ackid),
{
    GfnPeerMessage { ackid: None, ack: Some(ackid), peer_info: None, peer_msg: None, hb: None }
}

/// Carries a payload from the client to the server.
pub fn peer_message(ackid: u32, msg: String) -> (message: GfnPeerMessage)
    ensures
        message@ == to_server(ackid, msg@),
{
    GfnPeerMessage {
        ackid: Some(ackid),
        ack: None,
        peer_info: None,
        peer_msg: Some(GfnPeerMsgContent { from: CLIENT_PEER, to: SERVER_PEER, msg }),
        hb: None,
    }
}

/// Introduces the client under a name, with the size that it displays.
pub fn introduction_message(ackid: u32, name: String, width: u32, height: u32) -> (message:
    GfnPeerMessage)
    ensures
        message@ == introduction(ackid, name@, width, height),
{
    GfnPeerMessage {
        ackid: Some(ackid),
        ack: None,
        peer_info: Some(
            GfnPeerInfo {
                browser: "Chrome".to_string(),
                browser_version: "131".to_string(),
                connected: true,
                id: CLIENT_PEER,
                name,
                peer_role: 0,
                resolution: dimensions_of(width, height),
                version: 2,
            },
        ),
        peer_msg: None,
        hb: None,
    }
}

/// The answer to an offer, with the streaming parameters beside it.
pub fn answer_message(sdp: String, nvst_sdp: String) -> (message: SdpMessage)
    ensures
        message@ == answer(sdp@, nvst_sdp@),
{
    SdpMessage { msg_type: "answer".to_string(), sdp: Some(sdp), nvst_sdp: Some(nvst_sdp) }
}

/// The parts of a gathered candidate, where its description could be had.
#[derive(Debug)]
pub struct GatheredCandidate {
    pub candidate: String,
    pub sdp_mid: Option<String>,
    pub sdp_mline_index: Option<u16>,
}

/// The message that tells the server of a local candidate. A candidate that could
/// not be described goes out empty.
pub fn local_candidate_message(gathered: Option<GatheredCandidate>) -> (message:
    IceCandidateMessage)
    ensures
        message@ == match gathered {
            Some(parts) => LocalCandidate {
                candidate: parts.candidate@,
                sdp_mid: text_of(parts.sdp_mid),
                sdp_mline_index: match parts.sdp_mline_index {
                    Some(index) => Some(index as u32),
                    None => None,
                },
            },
            None => LocalCandidate {
                candidate: Seq::empty(),
                sdp_mid: None,
                sdp_mline_index: None,
            },
        },
{
    match gathered {
        Some(parts) => IceCandidateMessage {
            candidate: parts.candidate,
            sdp_mid: parts.sdp_mid,
            sdp_mline_index: match parts.sdp_mline_index {
                Some(index) => Some(index as u32),
                None => None,
            },
        },
        None => {
            let message = IceCandidateMessage {
                candidate: String::new(),
                sdp_mid: None,
                sdp_mline_index: None,
            };
            assert(message.candidate@ =~= Seq::<char>::empty());
            message
        },
    }
}

/// A heartbeat and an acknowledgement say one thing and nothing else.
pub proof fn short_messages_say_one_thing(ackid: u32)
    ensures
        heartbeat().hb == Some(1u32),
        heartbeat().ackid is None && heartbeat().ack is None && heartbeat().peer_info is None
            && heartbeat().peer_msg is None,
        acknowledgement(ackid).ack == Some(ackid),
        acknowledgement(ackid).ackid is None && acknowledgement(ackid).hb is None
            && acknowledgement(ackid).peer_info is None && acknowledgement(ackid).peer_msg is None,
{
}

/// A payload travels unchanged from the second peer to the first, under its number.
pub proof fn payloads_go_from_the_second_peer_to_the_first(ackid: u32, msg: Seq<char>)
    ensures
        ({
            let message = to_server(ackid, msg);
            &&& message.ackid == Some(ackid)
            &&& message.peer_msg matches Some(payload) && payload.from == 2 && payload.to == 1
                && payload.msg == msg
            &&& message.ack is None && message.hb is None && message.peer_info is None
        }),
{
}

/// The client introduces itself as the second peer, connected, under its name and with
/// the size that it displays.
pub proof fn introductions_tell_of_the_client(
    ackid: u32,
    name: Seq<char>,
    width: u32,
    height: u32,
)
    ensures
        ({
            let message = introduction(ackid, name, width, height);
            &&& message.ackid == Some(ackid)
            &&& message.ack is None && message.hb is None && message.peer_msg is None
            &&& message.peer_info matches Some(info) && info.id == 2 && info.version == 2
                && info.peer_role == 0 && info.connected && info.name == name && info.browser
                == "Chrome"@ && info.browser_version == "131"@ && split(info.resolution, 'x')
                == seq![decimal(width as nat), decimal(height as nat)]
        }),
{
    sizes_are_written_with_an_x(width, height);
}

/// A size has its width in front, one letter between, and its height behind.
pub proof fn sizes_are_written_with_an_x(width: u32, height: u32)
    ensures
        dimensions(width, height) == decimal(width as nat) + seq!['x'] + decimal(height as nat),
        split(dimensions(width, height), 'x') == seq![
            decimal(width as nat),
            decimal(height as nat),
        ],
{
    reveal_strlit("x");
    let w = decimal(width as nat);
    let h = decimal(height as nat);
    assert("x"@ =~= seq!['x']);
    lemma_decimal_digits(width as nat);
    lemma_decimal_digits(height as nat);
    assert(!w.contains('x'));
    assert(!h.contains('x'));
    lemma_split_front(w, 'x', h);
    lemma_split_whole(h, 'x');
    assert(dimensions(width, height) =~= w + seq!['x'] + h);
    assert(split(dimensions(width, height), 'x') =~= seq![w, h]);
}

/// An answer brings both descriptions, each in its place.
pub proof fn answers_bring_both_descriptions(sdp: Seq<char>, nvst_sdp: Seq<char>)
    ensures
        answer(sdp, nvst_sdp).msg_type == "answer"@,
        answer(sdp, nvst_sdp).sdp == Some(sdp),
        answer(sdp, nvst_sdp).nvst_sdp == Some(nvst_sdp),
{
}

} // verus!
