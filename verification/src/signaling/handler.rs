//! Handling one message of the server.
//!
//! A handler asks for one thing at a time: to send a message, to set a session
//! description, to add a candidate. It is told how that went and asks for the next
//! thing, until it is finished.

use vstd::prelude::*;

use super::client::SignalingClient;
use super::messages::{
    ack_message, answer_message, heartbeat_message, GfnPeerMessage, IceCandidate, SdpMessage,
    CLIENT_PEER,
};
use super::payload::{
    brings_offer, find_text, into_members, parse_json, trickled_candidate, JsonScalar,
};
use super::sdp::{
    build_nvst_sdp, extract_ip_from_hostname, host_candidate_of, ice_ufrag_of, media_port_of,
    offers_ice_lite,
};
use crate::text::{chars_of, contains, decimal_of};

verus! {

use super::messages::{
    acknowledgement, answer, heartbeat, text_of, Description, PeerMessage, RemoteCandidate,
};
use super::payload::{
    is_offer, json_value, member, members_in, members_of, text_member, trickled, Scalar,
};
use super::sdp::{host_candidate, ice_ufrag, ip_of_hostname, is_ice_lite, media_port, nvst_sdp};
use crate::text::{contains_text, decimal, decimal_round_trip, unsigned_value};

/// How long the answer waits for a candidate that the outside can reach.
pub const MAX_GATHERING_MS: u64 = 1000;

/// How long to wait before gathering is looked at again.
pub const GATHERING_PAUSE_MS: u64 = 100;

/// A manual candidate is tried on this many media lines.
pub const MANUAL_TRIES: u16 = 4;

/// What a handler waits for.
#[derive(Debug, Clone, Copy, PartialEq, Eq, Structural)]
pub enum HandlerPhase {
    Acknowledging,
    Beating,
    SettingRemote,
    CreatingAnswer,
    SettingLocal,
    Gathering,
    Pausing,
    ReadingLocal,
    Answering,
    AddingManual,
    AddingTrickled,
    Finished,
}

/// The handling of one message.
#[derive(Debug)]
pub struct MessageHandler {
    pub phase: HandlerPhase,
    /// Whether the message is a heartbeat.
    pub heartbeat: bool,
    /// The payload of the message.
    pub payload: Option<String>,
    /// The session description of the offer in the payload.
    pub sdp: String,
    /// The candidate in the payload.
    pub trickled: Option<IceCandidate>,
    /// The session description of the answer.
    pub answer: String,
    /// The media line on which the manual candidate is being tried.
    pub mid: u16,
}

/// What a `MessageHandler` knows.
pub struct Handling {
    pub phase: HandlerPhase,
    pub heartbeat: bool,
    pub payload: Option<Seq<char>>,
    pub sdp: Seq<char>,
    pub trickled: Option<RemoteCandidate>,
    pub answer: Seq<char>,
    pub mid: u16,
}

impl View for MessageHandler {
    type V = Handling;

    open spec fn view(&self) -> Handling {
        Handling {
            phase: self.phase,
            heartbeat: self.heartbeat,
            payload: text_of(self.payload),
            sdp: self.sdp@,
            trickled: match self.trickled {
                Some(candidate) => Some(candidate@),
                None => None,
            },
            answer: self.answer@,
            mid: self.mid,
        }
    }
}

/// How a request of a handler went.
#[derive(Debug)]
pub enum HandlerEvent {
    Done,
    Failed(String),
    /// The session description of a new answer.
    Answer(String),
    /// How far gathering has come.
    Gathering { local: Option<String>, elapsed_ms: u64, complete: bool },
    /// The local session description, where there is one.
    Local(Option<String>),
}

/// What a `HandlerEvent` says.
pub enum Report {
    Done,
    Failed(Seq<char>),
    Answer(Seq<char>),
    Gathering { local: Option<Seq<char>>, elapsed_ms: u64, complete: bool },
    Local(Option<Seq<char>>),
}

impl View for HandlerEvent {
    type V = Report;

    open spec fn view(&self) -> Report {
        match self {
            HandlerEvent::Done => Report::Done,
            HandlerEvent::Failed(reason) => Report::Failed(reason@),
            HandlerEvent::Answer(sdp) => Report::Answer(sdp@),
            HandlerEvent::Gathering { local, elapsed_ms, complete } => Report::Gathering {
                local: text_of(*local),
                elapsed_ms: *elapsed_ms,
                complete: *complete,
            },
            HandlerEvent::Local(local) => Report::Local(text_of(*local)),
        }
    }
}

/// Why a message could not be handled.
#[derive(Debug)]
pub enum HandlerError {
    /// The payload is not JSON.
    Payload(serde_json::Error),
    MissingSdp,
    /// A request failed, for the reason that was given.
    Request(String),
}

/// What a `HandlerError` says. Nothing is known of an error of the JSON parser, so
/// that it is one is all there is to say of it.
pub enum Failure {
    Payload,
    MissingSdp,
    Request(Seq<char>),
}

impl View for HandlerError {
    type V = Failure;

    open spec fn view(&self) -> Failure {
        match self {
            HandlerError::Payload(_) => Failure::Payload,
            HandlerError::MissingSdp => Failure::MissingSdp,
            HandlerError::Request(reason) => Failure::Request(reason@),
        }
    }
}

impl HandlerError {
    /// The message that tells of the error, where the library has one of its own
    pub fn message(&self) -> (message: Option<String>)
        ensures
            match self {
                HandlerError::Payload(_) => message is None,
                HandlerError::MissingSdp => message matches Some(text) && text@
                    == "Missing SDP in offer"@,
                HandlerError::Request(reason) => message matches Some(text) && text@ == reason@,
            },
    {
        match self {
            HandlerError::Payload(_) => None,
            HandlerError::MissingSdp => Some("Missing SDP in offer".to_string()),
            HandlerError::Request(reason) => Some(reason.clone()),
        }
    }
}

/// What a handler asks for.
#[derive(Debug)]
pub enum HandlerAction {
    Send(GfnPeerMessage),
    SetRemoteDescription(String),
    CreateAnswer,
    /// Set the new answer as the local description.
    SetLocalDescription,
    CheckGathering,
    SleepMs(u64),
    ReadLocalDescription,
    /// Send the answer in a message with this number.
    SendAnswer(u32, SdpMessage),
    AddCandidate(IceCandidate),
    Finish(Result<(), HandlerError>),
}

/// What a `HandlerAction` says.
pub enum Request {
    Send(PeerMessage),
    SetRemoteDescription(Seq<char>),
    CreateAnswer,
    SetLocalDescription,
    CheckGathering,
    SleepMs(u64),
    ReadLocalDescription,
    SendAnswer(u32, Description),
    AddCandidate(RemoteCandidate),
    Finish(Result<(), Failure>),
}

impl View for HandlerAction {
    type V = Request;

    open spec fn view(&self) -> Request {
        match self {
            HandlerAction::Send(message) => Request::Send(message@),
            HandlerAction::SetRemoteDescription(sdp) => Request::SetRemoteDescription(sdp@),
            HandlerAction::CreateAnswer => Request::CreateAnswer,
            HandlerAction::SetLocalDescription => Request::SetLocalDescription,
            HandlerAction::CheckGathering => Request::CheckGathering,
            HandlerAction::SleepMs(ms) => Request::SleepMs(*ms),
            HandlerAction::ReadLocalDescription => Request::ReadLocalDescription,
            HandlerAction::SendAnswer(ackid, message) => Request::SendAnswer(*ackid, message@),
            HandlerAction::AddCandidate(candidate) => Request::AddCandidate(candidate@),
            HandlerAction::Finish(Ok(())) => Request::Finish(Ok(())),
            HandlerAction::Finish(Err(error)) => Request::Finish(Err(error@)),
        }
    }
}

/// Whether a message is the client's own introduction, come back.
pub open spec fn is_own_echo(message: PeerMessage) -> bool {
    message.peer_info matches Some(info) && info.id == CLIENT_PEER
}

/// A handling that is over, and how.
pub open spec fn finished(h: Handling, result: Result<(), Failure>) -> (Handling, Request) {
    (Handling { phase: HandlerPhase::Finished, ..h }, Request::Finish(result))
}

/// How a message is taken up: it is acknowledged if it asks for that and is not the
/// client's own.
pub open spec fn taken_up(message: PeerMessage) -> (Handling, Request) {
    let h = Handling {
        phase: HandlerPhase::Acknowledging,
        heartbeat: message.hb is Some,
        payload: match message.peer_msg {
            Some(content) => Some(content.msg),
            None => None,
        },
        sdp: Seq::empty(),
        trickled: None,
        answer: Seq::empty(),
        mid: 0,
    };
    match message.ackid {
        Some(ackid) if !is_own_echo(message) => (h, Request::Send(acknowledgement(ackid))),
        _ => acknowledged(h),
    }
}

/// What comes after the acknowledgement: a heartbeat is answered by one, and only
/// what is no heartbeat is looked into.
pub open spec fn acknowledged(h: Handling) -> (Handling, Request) {
    if h.heartbeat {
        (Handling { phase: HandlerPhase::Beating, ..h }, Request::Send(heartbeat()))
    } else {
        match h.payload {
            None => finished(h, Ok(())),
            Some(text) => match json_value(text) {
                None => finished(h, Err(Failure::Payload)),
                Some(value) => opened(h, members_in(value)),
            },
        }
    }
}

/// What a payload with these members leads to.
pub open spec fn opened(h: Handling, members: Seq<(Seq<char>, Scalar)>) -> (Handling, Request) {
    let h = Handling { trickled: trickled(members), ..h };
    if is_offer(members) {
        match text_member(members, "sdp"@) {
            Some(sdp) => (
                Handling { phase: HandlerPhase::SettingRemote, sdp, ..h },
                Request::SetRemoteDescription(sdp),
            ),
            None => finished(h, Err(Failure::MissingSdp)),
        }
    } else {
        negotiated(h)
    }
}

/// What comes after the negotiation, or in its place: the candidate in the payload.
pub open spec fn negotiated(h: Handling) -> (Handling, Request) {
    match h.trickled {
        Some(candidate) => (
            Handling { phase: HandlerPhase::AddingTrickled, ..h },
            Request::AddCandidate(candidate),
        ),
        None => finished(h, Ok(())),
    }
}

/// Whether the answer waits for more candidates.
pub open spec fn keeps_gathering(
    local: Option<Seq<char>>,
    elapsed_ms: u64,
    complete: bool,
) -> bool {
    &&& !(local matches Some(sdp) && contains_text(sdp, "typ srflx"@))
    &&& elapsed_ms < MAX_GATHERING_MS
    &&& !complete
}

/// The candidate that stands for a server with a fixed address, on a media line.
pub open spec fn manual_candidate(server: Seq<char>, sdp: Seq<char>, mid: u16) -> RemoteCandidate {
    RemoteCandidate {
        candidate: host_candidate(ip_of_hostname(server), media_port(sdp)),
        sdp_mid: decimal(mid as nat),
        sdp_mline_index: mid,
        username_fragment: Some(ice_ufrag(sdp)),
    }
}

/// What comes after the manual candidate has been tried on the lines below `mid`.
pub open spec fn tried_below(h: Handling, server: Seq<char>, mid: u16) -> (Handling, Request) {
    if mid < MANUAL_TRIES {
        (
            Handling { phase: HandlerPhase::AddingManual, mid, ..h },
            Request::AddCandidate(manual_candidate(server, h.sdp, mid)),
        )
    } else {
        negotiated(h)
    }
}

/// The answer that goes out: the local description, with all that was gathered, or
/// else the answer as it was created.
pub open spec fn final_answer(h: Handling, local: Option<Seq<char>>) -> Seq<char> {
    match local {
        Some(sdp) => sdp,
        None => h.answer,
    }
}

/// Whether a report can come in a phase.
pub open spec fn expected(phase: HandlerPhase, report: Report) -> bool {
    match phase {
        HandlerPhase::CreatingAnswer => report is Answer || report is Failed,
        HandlerPhase::Gathering => report is Gathering,
        HandlerPhase::Pausing => report is Done,
        HandlerPhase::ReadingLocal => report is Local,
        HandlerPhase::Finished => false,
        _ => report is Done || report is Failed,
    }
}

impl Handling {
    /// A manual candidate is only tried on the lines that there are tries for.
    pub open spec fn well_formed(self) -> bool {
        self.phase is AddingManual ==> self.mid < MANUAL_TRIES
    }
}

/// What a report leads to.
pub open spec fn next(h: Handling, client: SignalingClient, report: Report) -> (Handling, Request) {
    match report {
        Report::Failed(reason) => match h.phase {
            HandlerPhase::AddingManual => tried_below(h, client.server@, (h.mid + 1) as u16),
            HandlerPhase::AddingTrickled => finished(h, Ok(())),
            _ => finished(h, Err(Failure::Request(reason))),
        },
        Report::Answer(sdp) => (
            Handling { phase: HandlerPhase::SettingLocal, answer: sdp, ..h },
            Request::SetLocalDescription,
        ),
        Report::Gathering { local, elapsed_ms, complete } => if keeps_gathering(
            local,
            elapsed_ms,
            complete,
        ) {
            (
                Handling { phase: HandlerPhase::Pausing, ..h },
                Request::SleepMs(GATHERING_PAUSE_MS),
            )
        } else {
            (
                Handling { phase: HandlerPhase::ReadingLocal, ..h },
                Request::ReadLocalDescription,
            )
        },
        Report::Local(local) => {
            let sdp = final_answer(h, local);
            (
                Handling { phase: HandlerPhase::Answering, answer: sdp, ..h },
                Request::SendAnswer(
                    (client.ack_id + 1) as u32,
                    answer(sdp, nvst_sdp(sdp, client.width, client.height, client.fps)),
                ),
            )
        },
        Report::Done => match h.phase {
            HandlerPhase::Acknowledging => acknowledged(h),
            HandlerPhase::SettingRemote => (
                Handling { phase: HandlerPhase::CreatingAnswer, ..h },
                Request::CreateAnswer,
            ),
            HandlerPhase::SettingLocal | HandlerPhase::Pausing => (
                Handling { phase: HandlerPhase::Gathering, ..h },
                Request::CheckGathering,
            ),
            HandlerPhase::Answering => if is_ice_lite(h.sdp) {
                tried_below(h, client.server@, 0)
            } else {
                negotiated(h)
            },
            HandlerPhase::AddingManual => negotiated(h),
            _ => finished(h, Ok(())),
        },
    }
}

/// Whether the answer waits for more candidates.
pub fn keep_gathering(local: &Option<String>, elapsed_ms: u64, complete: bool) -> (keep: bool)
    ensures
        keep == keeps_gathering(text_of(*local), elapsed_ms, complete),
{
    let reachable = match local {
        Some(sdp) => contains(&chars_of(sdp.as_str()), &chars_of("typ srflx")),
        None => false,
    };
    !reachable && elapsed_ms < MAX_GATHERING_MS && !complete
}

/// The candidate that stands for a server with a fixed address, on a media line.
pub fn manual_candidate_of(server: &str, sdp: &str, mid: u16) -> (candidate: IceCandidate)
    ensures
        candidate@ == manual_candidate(server@, sdp@, mid),
{
    let ip = extract_ip_from_hostname(server);
    let port: u16 = media_port_of(sdp);
    IceCandidate {
        candidate: host_candidate_of(ip.as_str(), port),
        sdp_mid: decimal_of(mid as u64),
        sdp_mline_index: mid,
        username_fragment: Some(ice_ufrag_of(sdp)),
    }
}

fn copy_candidate(candidate: &IceCandidate) -> (copy: IceCandidate)
    ensures
        copy@ == candidate@,
{
    IceCandidate {
        candidate: candidate.candidate.clone(),
        sdp_mid: candidate.sdp_mid.clone(),
        sdp_mline_index: candidate.sdp_mline_index,
        username_fragment: match &candidate.username_fragment {
            Some(fragment) => Some(fragment.clone()),
            None => None,
        },
    }
}

impl MessageHandler {
    /// Take up a message of the server
    pub fn begin(message: GfnPeerMessage) -> (started: (MessageHandler, HandlerAction))
        ensures
            (started.0@, started.1@) == taken_up(message@),
            started.0@.well_formed(),
    {
        let own_echo = match &message.peer_info {
            Some(info) => info.id == CLIENT_PEER,
            None => false,
        };
        let mut handler = MessageHandler {
            phase: HandlerPhase::Acknowledging,
            heartbeat: message.hb.is_some(),
            payload: match message.peer_msg {
                Some(content) => Some(content.msg),
                None => None,
            },
            sdp: String::new(),
            trickled: None,
            answer: String::new(),
            mid: 0,
        };
        assert(handler.sdp@ =~= Seq::<char>::empty());
        match message.ackid {
            Some(ackid) => {
                if !own_echo {
                    return (handler, HandlerAction::Send(ack_message(ackid)));
                }
            },
            None => {},
        }
        let action = handler.after_acknowledging();
        (handler, action)
    }

    fn finish(&mut self, result: Result<(), HandlerError>) -> (action: HandlerAction)
        ensures
            (final(self)@, action@) == finished(
                old(self)@,
                match result {
                    Ok(()) => Ok(()),
                    Err(error) => Err(error@),
                },
            ),
    {
        self.phase = HandlerPhase::Finished;
        HandlerAction::Finish(result)
    }

    fn after_acknowledging(&mut self) -> (action: HandlerAction)
        ensures
            (final(self)@, action@) == acknowledged(old(self)@),
    {
        if self.heartbeat {
            self.phase = HandlerPhase::Beating;
            return HandlerAction::Send(heartbeat_message());
        }
        let parsed = match &self.payload {
            Some(text) => parse_json(text.as_str()),
            None => {
                return self.finish(Ok(()));
            },
        };
        match parsed {
            Ok(value) => self.open(&into_members(value)),
            Err(error) => self.finish(Err(HandlerError::Payload(error))),
        }
    }

    /// Look into a payload with these members
    pub fn open(&mut self, members: &Vec<(String, JsonScalar)>) -> (action: HandlerAction)
        ensures
            (final(self)@, action@) == opened(old(self)@, members_of(members@)),
    {
        self.trickled = trickled_candidate(members);
        if brings_offer(members) {
            match find_text(members, "sdp") {
                Some(sdp) => {
                    self.phase = HandlerPhase::SettingRemote;
                    self.sdp = sdp.clone();
                    HandlerAction::SetRemoteDescription(sdp)
                },
                None => self.finish(Err(HandlerError::MissingSdp)),
            }
        } else {
            self.after_negotiating()
        }
    }

    fn after_negotiating(&mut self) -> (action: HandlerAction)
        ensures
            (final(self)@, action@) == negotiated(old(self)@),
    {
        let candidate = match &self.trickled {
            Some(candidate) => copy_candidate(candidate),
            None => {
                return self.finish(Ok(()));
            },
        };
        self.phase = HandlerPhase::AddingTrickled;
        HandlerAction::AddCandidate(candidate)
    }

    fn try_manual(&mut self, server: &str, mid: u16) -> (action: HandlerAction)
        ensures
            (final(self)@, action@) == tried_below(old(self)@, server@, mid),
    {
        if mid < MANUAL_TRIES {
            self.phase = HandlerPhase::AddingManual;
            self.mid = mid;
            HandlerAction::AddCandidate(manual_candidate_of(server, self.sdp.as_str(), mid))
        } else {
            self.after_negotiating()
        }
    }

    /// Take note of how the last request went, and ask for the next thing. An answer
    /// takes the client's next message number.
    pub fn report(&mut self, client: &mut SignalingClient, event: HandlerEvent) -> (action:
        HandlerAction)
        requires
            old(self)@.well_formed(),
            expected(old(self).phase, event@),
            old(self).phase is ReadingLocal ==> old(client).ack_id < u32::MAX,
        ensures
            (final(self)@, action@) == next(old(self)@, *old(client), event@),
            final(self)@.well_formed(),
            final(client).ack_id == old(client).ack_id + (if action@ is SendAnswer {
                1int
            } else {
                0
            }),
            final(client).same_settings(old(client)),
            final(client).takes_input == old(client).takes_input,
            final(client).input == old(client).input,
    {
        match event {
            HandlerEvent::Failed(reason) => match self.phase {
                HandlerPhase::AddingManual => {
                    let mid: u16 = self.mid + 1;
                    self.try_manual(client.server.as_str(), mid)
                },
                HandlerPhase::AddingTrickled => self.finish(Ok(())),
                _ => self.finish(Err(HandlerError::Request(reason))),
            },
            HandlerEvent::Answer(sdp) => {
                self.phase = HandlerPhase::SettingLocal;
                self.answer = sdp;
                HandlerAction::SetLocalDescription
            },
            HandlerEvent::Gathering { local, elapsed_ms, complete } => {
                if keep_gathering(&local, elapsed_ms, complete) {
                    self.phase = HandlerPhase::Pausing;
                    HandlerAction::SleepMs(GATHERING_PAUSE_MS)
                } else {
                    self.phase = HandlerPhase::ReadingLocal;
                    HandlerAction::ReadLocalDescription
                }
            },
            HandlerEvent::Local(local) => {
                match local {
                    Some(sdp) => {
                        self.answer = sdp;
                    },
                    None => {},
                }
                self.phase = HandlerPhase::Answering;
                let parameters = build_nvst_sdp(
                    self.answer.as_str(),
                    client.width,
                    client.height,
                    client.fps,
                );
                let message = answer_message(self.answer.clone(), parameters);
                let id: u32 = client.next_ack_id();
                HandlerAction::SendAnswer(id, message)
            },
            HandlerEvent::Done => match self.phase {
                HandlerPhase::Acknowledging => self.after_acknowledging(),
                HandlerPhase::SettingRemote => {
                    self.phase = HandlerPhase::CreatingAnswer;
                    HandlerAction::CreateAnswer
                },
                HandlerPhase::SettingLocal | HandlerPhase::Pausing => {
                    self.phase = HandlerPhase::Gathering;
                    HandlerAction::CheckGathering
                },
                HandlerPhase::Answering => {
                    if offers_ice_lite(self.sdp.as_str()) {
                        self.try_manual(client.server.as_str(), 0)
                    } else {
                        self.after_negotiating()
                    }
                },
                HandlerPhase::AddingManual => self.after_negotiating(),
                _ => self.finish(Ok(())),
            },
        }
    }
}

/// The requests that a handling makes as reports come in.
pub open spec fn run(h: Handling, client: SignalingClient, reports: Seq<Report>) -> Seq<Request>
    decreases reports.len(),
{
    if reports.len() == 0 {
        Seq::empty()
    } else {
        let (after, request) = next(h, client, reports[0]);
        seq![request] + run(after, numbered(client, request), reports.skip(1))
    }
}

/// The client after a request: an answer has taken a message number.
pub open spec fn numbered(client: SignalingClient, request: Request) -> SignalingClient {
    if request is SendAnswer {
        SignalingClient { ack_id: (client.ack_id + 1) as u32, ..client }
    } else {
        client
    }
}

/// Whether each report can come when it comes.
pub open spec fn possible(h: Handling, client: SignalingClient, reports: Seq<Report>) -> bool
    decreases reports.len(),
{
    reports.len() > 0 ==> {
        let (after, request) = next(h, client, reports[0]);
        expected(h.phase, reports[0]) && possible(
            after,
            numbered(client, request),
            reports.skip(1),
        )
    }
}

/// How many answers are among the requests.
pub open spec fn answers(requests: Seq<Request>) -> nat {
    requests.filter(|request: Request| request is SendAnswer).len()
}

/// Whether a handling has sent its answer, or never will.
pub open spec fn past_answering(phase: HandlerPhase) -> bool {
    match phase {
        HandlerPhase::Answering => true,
        HandlerPhase::AddingManual => true,
        HandlerPhase::AddingTrickled => true,
        HandlerPhase::Finished => true,
        HandlerPhase::Beating => true,
        _ => false,
    }
}

/// The client's own introduction is never acknowledged, and every other message
/// that asks for an acknowledgement gets it before anything else.
pub proof fn acknowledgement_comes_first(message: PeerMessage, ackid: u32)
    ensures
        is_own_echo(message) ==> taken_up(message).1 != Request::Send(acknowledgement(ackid)),
        !is_own_echo(message) && message.ackid == Some(ackid) ==> taken_up(message).1
            == Request::Send(acknowledgement(ackid)),
        message.ackid is None ==> taken_up(message).1 != Request::Send(acknowledgement(ackid)),
{
    assert(heartbeat().ack != acknowledgement(ackid).ack);
}

/// A heartbeat is answered by a heartbeat, whatever else the message holds, and
/// nothing comes after that.
pub proof fn heartbeat_is_answered(message: PeerMessage, client: SignalingClient)
    requires
        message.hb is Some,
    ensures
        ({
            let (h, request) = taken_up(message);
            let (beating, answer) = if h.phase is Acknowledging {
                next(h, client, Report::Done)
            } else {
                (h, request)
            };
            &&& answer == Request::Send(heartbeat())
            &&& next(beating, client, Report::Done).1 == Request::Finish(Ok(()))
        }),
{
}

/// Looking at the gathering once more changes nothing else.
pub proof fn pausing_changes_nothing(
    h: Handling,
    client: SignalingClient,
    local: Option<Seq<char>>,
    elapsed_ms: u64,
    complete: bool,
)
    requires
        h.phase is Gathering,
        keeps_gathering(local, elapsed_ms, complete),
    ensures
        run(
            h,
            client,
            seq![Report::Gathering { local, elapsed_ms, complete }, Report::Done],
        ) == seq![Request::SleepMs(GATHERING_PAUSE_MS), Request::CheckGathering],
        next(
            next(h, client, Report::Gathering { local, elapsed_ms, complete }).0,
            client,
            Report::Done,
        ).0 == h,
{
    let reports = seq![Report::Gathering { local, elapsed_ms, complete }, Report::Done];
    reveal_with_fuel(run, 3);
    assert(reports.skip(1) =~= seq![Report::Done]);
    assert(reports.skip(1).skip(1) =~= Seq::<Report>::empty());
    assert(run(h, client, reports) =~= seq![
        Request::SleepMs(GATHERING_PAUSE_MS),
        Request::CheckGathering,
    ]);
}

/// The answer does not wait longer than a second: whatever was gathered by then
/// goes out.
pub proof fn gathering_ends(
    h: Handling,
    client: SignalingClient,
    local: Option<Seq<char>>,
    elapsed_ms: u64,
    complete: bool,
)
    requires
        h.phase is Gathering,
        elapsed_ms >= MAX_GATHERING_MS || complete || (local matches Some(sdp) && contains_text(
            sdp,
            "typ srflx"@,
        )),
    ensures
        next(h, client, Report::Gathering { local, elapsed_ms, complete }).1
            == Request::ReadLocalDescription,
{
}

/// An offer whose negotiation goes well is answered, once, with the local
/// description and the streaming parameters made from it, under the next message
/// number.
pub proof fn offer_is_answered(
    h: Handling,
    client: SignalingClient,
    members: Seq<(Seq<char>, Scalar)>,
    sdp: Seq<char>,
    created: Seq<char>,
    gathered: Report,
    local: Seq<char>,
)
    requires
        is_offer(members),
        text_member(members, "sdp"@) == Some(sdp),
        gathered matches Report::Gathering { local, elapsed_ms, complete } && !keeps_gathering(
            local,
            elapsed_ms,
            complete,
        ),
    ensures
        opened(h, members).1 == Request::SetRemoteDescription(sdp),
        run(
            opened(h, members).0,
            client,
            seq![
                Report::Done,
                Report::Answer(created),
                Report::Done,
                gathered,
                Report::Local(Some(local)),
            ],
        ) == seq![
            Request::CreateAnswer,
            Request::SetLocalDescription,
            Request::CheckGathering,
            Request::ReadLocalDescription,
            Request::SendAnswer(
                (client.ack_id + 1) as u32,
                answer(local, nvst_sdp(local, client.width, client.height, client.fps)),
            ),
        ],
{
    let start = opened(h, members).0;
    let r0 = seq![
        Report::Done,
        Report::Answer(created),
        Report::Done,
        gathered,
        Report::Local(Some(local)),
    ];
    let r1 = r0.skip(1);
    let r2 = r1.skip(1);
    let r3 = r2.skip(1);
    let r4 = r3.skip(1);
    assert(r0[0] == Report::Done);
    assert(r1[0] == Report::Answer(created));
    assert(r2[0] == Report::Done);
    assert(r3[0] == gathered);
    assert(r4[0] == Report::Local(Some(local)));
    assert(r4.skip(1) =~= Seq::<Report>::empty());
    reveal_with_fuel(run, 6);
    assert(run(start, client, r0) =~= seq![
        Request::CreateAnswer,
        Request::SetLocalDescription,
        Request::CheckGathering,
        Request::ReadLocalDescription,
        Request::SendAnswer(
            (client.ack_id + 1) as u32,
            answer(local, nvst_sdp(local, client.width, client.height, client.fps)),
        ),
    ]);
}

/// An offer without a session description is refused, and nothing is asked for.
pub proof fn offer_without_description_is_refused(
    h: Handling,
    members: Seq<(Seq<char>, Scalar)>,
)
    requires
        is_offer(members),
        text_member(members, "sdp"@) is None,
    ensures
        opened(h, members).1 == Request::Finish(Err(Failure::MissingSdp)),
{
}

/// Once the answer is out, the manual candidate is tried exactly for a server that
/// only answers connectivity checks.
pub proof fn manual_candidate_is_for_ice_lite(h: Handling, client: SignalingClient)
    requires
        h.phase is Answering,
    ensures
        next(h, client, Report::Done).0.phase is AddingManual <==> is_ice_lite(h.sdp),
        is_ice_lite(h.sdp) ==> next(h, client, Report::Done).1 == Request::AddCandidate(
            manual_candidate(client.server@, h.sdp, 0),
        ),
{
}

/// Each failure moves the manual candidate to the next of four media lines; a
/// success, or the last failure, ends the tries.
pub proof fn manual_candidate_is_tried_in_order(
    h: Handling,
    client: SignalingClient,
    reason: Seq<char>,
)
    requires
        h.phase is AddingManual,
        h.well_formed(),
    ensures
        h.mid + 1 < MANUAL_TRIES ==> next(h, client, Report::Failed(reason)).1
            == Request::AddCandidate(manual_candidate(client.server@, h.sdp, (h.mid + 1) as u16)),
        h.mid + 1 == MANUAL_TRIES ==> next(h, client, Report::Failed(reason)) == negotiated(h),
        next(h, client, Report::Done) == negotiated(h),
{
}

/// A candidate in a payload never brings a user name fragment, and whether it can
/// be added or not, the message has been handled.
pub proof fn trickled_candidate_ends_the_handling(
    members: Seq<(Seq<char>, Scalar)>,
    h: Handling,
    client: SignalingClient,
    reason: Seq<char>,
)
    requires
        h.phase is AddingTrickled,
    ensures
        trickled(members) matches Some(candidate) ==> candidate.username_fragment is None,
        next(h, client, Report::Done).1 == Request::Finish(Ok(())),
        next(h, client, Report::Failed(reason)).1 == Request::Finish(Ok(())),
{
}

/// However the requests go, a message is answered at most once.
pub proof fn at_most_one_answer(h: Handling, client: SignalingClient, reports: Seq<Report>)
    requires
        h.well_formed(),
        possible(h, client, reports),
    ensures
        answers(run(h, client, reports)) <= 1,
        past_answering(h.phase) ==> answers(run(h, client, reports)) == 0,
    decreases reports.len(),
{
    let is_answer = |request: Request| request is SendAnswer;
    if reports.len() > 0 {
        let (after, request) = next(h, client, reports[0]);
        let later = numbered(client, request);
        let rest = run(after, later, reports.skip(1));
        at_most_one_answer(after, later, reports.skip(1));
        assert(run(h, client, reports) == seq![request] + rest);
        lemma_filter_front(request, rest, is_answer);
    } else {
        assert(run(h, client, reports).filter(is_answer) =~= Seq::empty()) by {
            reveal(Seq::filter);
        }
    }
}

proof fn lemma_filter_front(first: Request, rest: Seq<Request>, keep: spec_fn(Request) -> bool)
    ensures
        (seq![first] + rest).filter(keep).len() == rest.filter(keep).len() + (if keep(first) {
            1int
        } else {
            0
        }),
{
    Seq::filter_distributes_over_add(seq![first], rest, keep);
    reveal(Seq::filter);
    assert(seq![first].drop_last() =~= Seq::empty());
    reveal_with_fuel(Seq::filter, 2);
}

/// What is acknowledged first, then answered by a heartbeat, then looked into: a message
/// that asks for an acknowledgement gets it, unless it tells of the second peer; any
/// other is gone on with at once.
pub proof fn messages_are_taken_up_in_order(message: PeerMessage)
    ensures
        ({
            let (h, request) = taken_up(message);
            let own = message.peer_info matches Some(info) && info.id == 2;
            &&& message.ackid matches Some(id) ==> (!own ==> request == Request::Send(
                acknowledgement(id),
            ) && h.phase is Acknowledging)
            &&& (message.ackid is None || own) ==> {
                &&& message.hb is Some ==> request == Request::Send(heartbeat()) && h.phase
                    is Beating
                &&& message.hb is None && message.peer_msg is None ==> request == Request::Finish(
                    Ok(()),
                )
                &&& message.hb is None ==> (message.peer_msg matches Some(content)
                    ==> match json_value(content.msg) {
                    None => request == Request::Finish(Err(Failure::Payload)),
                    Some(value) => (h, request) == opened(h, members_in(value)),
                })
            }
            &&& h.heartbeat == (message.hb is Some)
            &&& message.peer_msg is None ==> h.payload is None
            &&& message.peer_msg matches Some(content) ==> h.payload == Some(content.msg)
            &&& h.answer.len() == 0 && h.mid == 0
        }),
{
}

/// Once a message is acknowledged, a heartbeat is answered, a message without a payload
/// is done with, a payload that is not JSON is refused, and any other is opened.
pub proof fn acknowledged_messages_are_gone_on_with(h: Handling, client: SignalingClient)
    requires
        h.phase is Acknowledging,
    ensures
        ({
            let (after, request) = next(h, client, Report::Done);
            &&& h.heartbeat ==> request == Request::Send(heartbeat())
            &&& !h.heartbeat && h.payload is None ==> request == Request::Finish(Ok(()))
            &&& !h.heartbeat ==> (h.payload matches Some(text) ==> match json_value(text) {
                None => request == Request::Finish(Err(Failure::Payload)),
                Some(value) => (after, request) == opened(h, members_in(value)),
            })
        }),
{
}

/// An offer's description is set, an offer without one is refused, and of what is no
/// offer only the candidate is used.
pub proof fn payloads_are_opened(h: Handling, members: Seq<(Seq<char>, Scalar)>)
    ensures
        ({
            let (after, request) = opened(h, members);
            let sdp = member(members, "sdp"@);
            let offer = member(members, "type"@) == Some(Scalar::Text("offer"@));
            &&& offer ==> (sdp matches Some(Scalar::Text(text)) ==> request
                == Request::SetRemoteDescription(text) && after.sdp == text)
            &&& offer && !(sdp matches Some(Scalar::Text(_))) ==> request == Request::Finish(
                Err(Failure::MissingSdp),
            )
            &&& !offer ==> match trickled(members) {
                Some(candidate) => request == Request::AddCandidate(candidate) && after.phase
                    is AddingTrickled,
                None => request == Request::Finish(Ok(())),
            }
            &&& after.trickled == trickled(members)
            &&& after.payload == h.payload && after.answer == h.answer
        }),
{
}

/// A failed request ends the handling with its reason, except that a candidate may fail:
/// the one in the payload ends it well, a manual one is tried on the next line.
pub proof fn failures_end_the_handling(h: Handling, client: SignalingClient, reason: Seq<char>)
    ensures
        ({
            let (after, request) = next(h, client, Report::Failed(reason));
            &&& !(h.phase is AddingManual || h.phase is AddingTrickled) ==> request
                == Request::Finish(Err(Failure::Request(reason))) && after.phase is Finished
            &&& h.phase is AddingTrickled ==> request == Request::Finish(Ok(())) && after.phase
                is Finished
            &&& h.phase is AddingManual && h.mid < 3 ==> after.phase is AddingManual && after.mid
                == h.mid + 1 && (request matches Request::AddCandidate(c) && c.sdp_mline_index
                == h.mid + 1)
            &&& h.phase is AddingManual && h.mid == 3 ==> (after, request) == next(
                h,
                client,
                Report::Done,
            )
        }),
{
}

/// After the answer, a server with a fixed address gets its candidate on the first line;
/// after that, or for any other server at once, the candidate in the payload is added,
/// and where there is none the handling is over.
pub proof fn candidates_follow_the_answer(h: Handling, client: SignalingClient)
    requires
        h.phase is Answering || h.phase is AddingManual,
    ensures
        ({
            let (after, request) = next(h, client, Report::Done);
            if h.phase is Answering && is_ice_lite(h.sdp) {
                request matches Request::AddCandidate(c) && c.sdp_mline_index == 0 && after.phase
                    is AddingManual && after.mid == 0
            } else {
                match h.trickled {
                    Some(candidate) => request == Request::AddCandidate(candidate) && after.phase
                        is AddingTrickled,
                    None => request == Request::Finish(Ok(())) && after.phase is Finished,
                }
            }
        }),
{
}

/// A manual candidate names the server's address and the offer's media port, is meant for
/// its line by name and by number, and carries the offer's user fragment.
pub proof fn manual_candidates_are_for_their_line(server: Seq<char>, sdp: Seq<char>, mid: u16)
    ensures
        ({
            let candidate = manual_candidate(server, sdp, mid);
            &&& candidate.sdp_mline_index == mid
            &&& unsigned_value(candidate.sdp_mid) == Some(mid as nat)
            &&& candidate.sdp_mid == decimal(mid as nat)
            &&& candidate.username_fragment == Some(ice_ufrag(sdp))
            &&& candidate.candidate == host_candidate(ip_of_hostname(server), media_port(sdp))
        }),
{
    decimal_round_trip(mid as nat);
}

/// Gathering goes on for a second at most, and only until it is complete or a candidate
/// that the outside can reach is there; it is looked at ten times in that second.
pub proof fn gathering_is_looked_at_for_a_second(
    h: Handling,
    client: SignalingClient,
    local: Option<Seq<char>>,
    elapsed_ms: u64,
    complete: bool,
)
    ensures
        ({
            let (after, request) = next(
                h,
                client,
                Report::Gathering { local, elapsed_ms, complete },
            );
            let reachable = local is Some && contains_text(local->0, "typ srflx"@);
            &&& elapsed_ms < 1000 && !complete && !reachable ==> request == Request::SleepMs(100)
                && after.phase is Pausing
            &&& elapsed_ms >= 1000 || complete || reachable ==> request
                == Request::ReadLocalDescription && after.phase is ReadingLocal
        }),
{
}

/// The answer that goes out is the local description, or where there is none the one that
/// was created, with the streaming parameters for it and the client's video settings.
pub proof fn answers_fall_back_on_what_was_created(
    h: Handling,
    client: SignalingClient,
    local: Option<Seq<char>>,
    sdp: Seq<char>,
)
    requires
        client.ack_id < u32::MAX,
        local == Some(sdp) || (local is None && h.answer == sdp),
    ensures
        ({
            let (after, request) = next(h, client, Report::Local(local));
            &&& after.phase is Answering
            &&& after.answer == sdp
            &&& request matches Request::SendAnswer(id, message) && id == client.ack_id + 1
                && message.msg_type == "answer"@ && message.sdp == Some(sdp) && message.nvst_sdp
                == Some(nvst_sdp(sdp, client.width, client.height, client.fps))
        }),
{
}

/// An answer is created once the offer is set, set as the local description once it is
/// created, and then gathering is looked at, as it is after every pause.
pub proof fn negotiation_goes_step_by_step(h: Handling, client: SignalingClient, sdp: Seq<char>)
    ensures
        h.phase is SettingRemote ==> next(h, client, Report::Done).1 == Request::CreateAnswer,
        next(h, client, Report::Answer(sdp)).1 == Request::SetLocalDescription,
        next(h, client, Report::Answer(sdp)).0.answer == sdp,
        h.phase is SettingLocal || h.phase is Pausing ==> next(h, client, Report::Done).1
            == Request::CheckGathering,
        h.phase is Beating || h.phase is AddingTrickled ==> next(h, client, Report::Done).1
            == Request::Finish(Ok(())),
{
}

/// A handler always waits for just what it has asked for.
pub proof fn phases_wait_for_their_requests(h: Handling, client: SignalingClient, report: Report)
    requires
        expected(h.phase, report),
    ensures
        ({
            let (after, request) = next(h, client, report);
            &&& after.phase is Beating <==> request is Send
            &&& after.phase is SettingRemote <==> request is SetRemoteDescription
            &&& after.phase is CreatingAnswer <==> request is CreateAnswer
            &&& after.phase is SettingLocal <==> request is SetLocalDescription
            &&& after.phase is Gathering <==> request is CheckGathering
            &&& after.phase is Pausing <==> request is SleepMs
            &&& after.phase is ReadingLocal <==> request is ReadLocalDescription
            &&& after.phase is Answering <==> request is SendAnswer
            &&& after.phase is AddingManual || after.phase is AddingTrickled <==> request
                is AddCandidate
            &&& after.phase is Finished <==> request is Finish
        }),
{
}

/// What is known of a message stays known: once a payload is opened, neither it nor the
/// offer nor the candidate changes, and the answer only where one is reported.
pub proof fn knowledge_is_kept(h: Handling, client: SignalingClient, report: Report)
    requires
        !(h.phase is Acknowledging),
    ensures
        ({
            let after = next(h, client, report).0;
            &&& after.payload == h.payload
            &&& after.heartbeat == h.heartbeat
            &&& after.sdp == h.sdp
            &&& after.trickled == h.trickled
            &&& !(report is Answer) && !(report is Local) ==> after.answer == h.answer
            &&& !(after.phase is AddingManual) ==> after.mid == h.mid
        }),
{
}

/// Every request can be reported on: a look at the gathering and a reading by what was
/// found, a new answer by it or a failure, a pause as done, and anything else as done or
/// failed.
pub proof fn requests_can_be_reported_on(phase: HandlerPhase, report: Report)
    requires
        !(phase is Finished),
    ensures
        phase is Gathering && report is Gathering ==> expected(phase, report),
        phase is ReadingLocal && report is Local ==> expected(phase, report),
        phase is CreatingAnswer && (report is Answer || report is Failed) ==> expected(
            phase,
            report,
        ),
        phase is Pausing && report is Done ==> expected(phase, report),
        !(phase is Gathering || phase is ReadingLocal || phase is CreatingAnswer || phase
            is Pausing) && (report is Done || report is Failed) ==> expected(phase, report),
{
}

/// A handling is in order wherever it tries no manual candidate beyond the fourth line.
pub proof fn four_lines_are_tried(h: Handling)
    ensures
        h.well_formed() <==> (h.phase is AddingManual ==> h.mid <= 3),
{
}

} // verus!
