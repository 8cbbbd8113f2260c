//! Session descriptions.
//!
//! What is read from the server's offer and from the local answer, and the
//! streaming parameters that go out beside the answer.

use vstd::prelude::*;

use crate::text::{
    chars_of, contains, find_line, lines_of, parse_bounded, push_decimal, split_of, starts_with,
    string_of, trim_prefixes_of, words_of,
};

verus! {

use crate::text::{
    bounded_value, contained_parts_stand_somewhere, contains_text, decimal, decimal_round_trip,
    first_line_with_a_prefix_is_found,
    first_with_prefix, is_digit, is_plain_line, is_white_space, join, lacks, lemma_decimal_digits,
    lemma_first_with_prefix, lemma_lines_lack_line_feeds, lemma_split_front, lemma_split_whole,
    lemma_trimmed_lacks, lines, lines_of_joined_lines, prefixes_are_taken_off, split,
    trim_prefixes, unsigned_value, views, white_space_separates_words, words,
};

/// The media port that is assumed where an offer does not name one.
pub const DEFAULT_MEDIA_PORT: u16 = 47998;

/// From this frame rate on the server is asked to favour the rate.
pub const HIGH_FPS: u32 = 120;

/// The rest of the first line that begins with `prefix`, without `label`, however
/// often it is there; nothing where no such line exists.
pub open spec fn attribute(sdp: Seq<char>, prefix: Seq<char>, label: Seq<char>) -> Seq<char> {
    match first_with_prefix(lines(sdp), prefix) {
        Some(line) => trim_prefixes(line, label),
        None => Seq::empty(),
    }
}

/// The ICE user name fragment of a session description.
pub open spec fn ice_ufrag(sdp: Seq<char>) -> Seq<char> {
    attribute(sdp, "a=ice-ufrag:"@, "a=ice-ufrag:"@)
}

/// The ICE password of a session description.
pub open spec fn ice_pwd(sdp: Seq<char>) -> Seq<char> {
    attribute(sdp, "a=ice-pwd:"@, "a=ice-pwd:"@)
}

/// The SHA-256 certificate fingerprint of a session description.
pub open spec fn fingerprint(sdp: Seq<char>) -> Seq<char> {
    attribute(sdp, "a=fingerprint:sha-256"@, "a=fingerprint:sha-256 "@)
}

/// Whether the server only answers connectivity checks.
pub open spec fn is_ice_lite(sdp: Seq<char>) -> bool {
    contains_text(sdp, "a=ice-lite"@)
}

/// The first line that opens an audio or a video section.
pub open spec fn first_media_line(all: Seq<Seq<char>>) -> Option<Seq<char>>
    decreases all.len(),
{
    if all.len() == 0 {
        None
    } else if "m=audio"@.is_prefix_of(all[0]) || "m=video"@.is_prefix_of(all[0]) {
        Some(all[0])
    } else {
        first_media_line(all.skip(1))
    }
}

/// The port that the first media line names as its second word.
pub open spec fn media_port(sdp: Seq<char>) -> nat {
    match first_media_line(lines(sdp)) {
        Some(line) if words(line).len() > 1 => match bounded_value(words(line)[1], 65535) {
            Some(port) => port,
            None => DEFAULT_MEDIA_PORT as nat,
        },
        _ => DEFAULT_MEDIA_PORT as nat,
    }
}

/// Whether a text denotes one byte of an address.
pub open spec fn is_octet(part: Seq<char>) -> bool {
    bounded_value(part, 255) is Some
}

/// The address that a host name spells out: its first label, read as four bytes
/// with dashes between them. Any other host name stands for itself.
pub open spec fn ip_of_hostname(hostname: Seq<char>) -> Seq<char> {
    let parts = split(split(hostname, '.')[0], '-');
    if parts.len() == 4 && (forall|i: int| 0 <= i < 4 ==> is_octet(#[trigger] parts[i])) {
        join(parts, "."@)
    } else {
        hostname
    }
}

/// The host candidate for a server at an address and port.
pub open spec fn host_candidate(ip: Seq<char>, port: nat) -> Seq<char> {
    "candidate:1 1 udp 2130706431 "@ + ip + " "@ + decimal(port) + " typ host"@
}

/// The opening lines: the session, the credentials and the error correction.
pub open spec fn session_lines(
    pwd: Seq<char>,
    ufrag: Seq<char>,
    print: Seq<char>,
) -> Seq<Seq<char>> {
    seq![
        "v=0"@,
        "o=SdpTest test_id_13 14 IN IPv4 127.0.0.1"@,
        "s=-"@,
        "t=0 0"@,
        "a=general.icePassword:"@ + pwd,
        "a=general.iceUserNameFragment:"@ + ufrag,
        "a=general.dtlsFingerprint:"@ + print,
        "m=video 0 RTP/AVP"@,
        "a=msid:fbc-video-0"@,
        "a=vqos.fec.rateDropWindow:10"@,
        "a=vqos.fec.minRequiredFecPackets:2"@,
        "a=vqos.fec.repairMinPercent:5"@,
        "a=vqos.fec.repairPercent:5"@,
        "a=vqos.fec.repairMaxPercent:35"@,
    ]
}

/// How the server reacts when frames do not come fast enough.
pub open spec fn rate_control_lines(fps: u32) -> Seq<Seq<char>> {
    if fps >= HIGH_FPS {
        seq![
            "a=vqos.drc.enable:0"@,
            "a=vqos.dfc.enable:1"@,
            "a=vqos.dfc.decodeFpsAdjPercent:85"@,
            "a=vqos.dfc.targetDownCooldownMs:250"@,
            "a=vqos.dfc.dfcAlgoVersion:2"@,
            "a=vqos.dfc.minTargetFps:"@ + decimal(
                if fps == HIGH_FPS {
                    100
                } else {
                    60
                },
            ),
        ]
    } else {
        seq!["a=vqos.drc.minRequiredBitrateCheckEnabled:1"@]
    }
}

/// Encoder settings that every stream has.
pub open spec fn encoder_lines() -> Seq<Seq<char>> {
    seq![
        "a=video.dx9EnableNv12:1"@,
        "a=video.dx9EnableHdr:1"@,
        "a=vqos.qpg.enable:1"@,
        "a=vqos.resControl.qp.qpg.featureSetting:7"@,
        "a=bwe.useOwdCongestionControl:1"@,
        "a=video.enableRtpNack:1"@,
        "a=vqos.bw.txRxLag.minFeedbackTxDeltaMs:200"@,
        "a=vqos.drc.bitrateIirFilterFactor:18"@,
        "a=video.packetSize:1140"@,
        "a=packetPacing.minNumPacketsPerGroup:15"@,
    ]
}

/// Settings that only fast streams have.
pub open spec fn high_fps_lines(fps: u32) -> Seq<Seq<char>> {
    if fps >= HIGH_FPS {
        seq![
            "a=bwe.iirFilterFactor:8"@,
            "a=video.encoderFeatureSetting:47"@,
            "a=video.encoderPreset:6"@,
            "a=vqos.resControl.cpmRtc.badNwSkipFramesCount:600"@,
            "a=vqos.resControl.cpmRtc.decodeTimeThresholdMs:9"@,
            "a=video.fbcDynamicFpsGrabTimeoutMs:"@ + decimal(
                if fps == HIGH_FPS {
                    6
                } else {
                    18
                },
            ),
            "a=vqos.resControl.cpmRtc.serverResolutionUpdateCoolDownCount:"@ + decimal(
                if fps == HIGH_FPS {
                    6000
                } else {
                    12000
                },
            ),
        ]
    } else {
        Seq::empty()
    }
}

/// Focus and pacing settings.
pub open spec fn pacing_lines(fps: u32) -> Seq<Seq<char>> {
    seq![
        "a=vqos.adjustStreamingFpsDuringOutOfFocus:1"@,
        "a=vqos.resControl.cpmRtc.ignoreOutOfFocusWindowState:1"@,
        "a=vqos.resControl.perfHistory.rtcIgnoreOutOfFocusWindowState:1"@,
        "a=vqos.resControl.cpmRtc.featureMask:3"@,
        "a=packetPacing.numGroups:"@ + decimal(
            if fps == HIGH_FPS {
                3
            } else {
                5
            },
        ),
        "a=packetPacing.maxDelayUs:1000"@,
        "a=packetPacing.minNumPacketsFrame:10"@,
        "a=video.rtpNackQueueLength:1024"@,
        "a=video.rtpNackQueueMaxPackets:512"@,
        "a=video.rtpNackMaxPacketCount:25"@,
        "a=vqos.drc.qpMaxResThresholdAdj:4"@,
        "a=vqos.grc.qpMaxResThresholdAdj:4"@,
        "a=vqos.drc.iirFilterFactor:100"@,
    ]
}

/// The viewport and the frame rate.
pub open spec fn viewport_lines(width: u32, height: u32, fps: u32) -> Seq<Seq<char>> {
    seq![
        "a=video.clientViewportWd:"@ + decimal(width as nat),
        "a=video.clientViewportHt:"@ + decimal(height as nat),
        "a=video.maxFPS:"@ + decimal(fps as nat),
    ]
}

/// Bit rates and the remaining media sections.
pub open spec fn closing_lines() -> Seq<Seq<char>> {
    seq![
        "a=video.initialBitrateKbps:50000"@,
        "a=video.initialPeakBitrateKbps:50000"@,
        "a=vqos.bw.maximumBitrateKbps:100000"@,
        "a=vqos.bw.minimumBitrateKbps:10000"@,
        "a=video.maxNumReferenceFrames:4"@,
        "a=video.mapRtpTimestampsToFrames:1"@,
        "a=video.encoderCscMode:3"@,
        "a=video.scalingFeature1:0"@,
        "a=video.prefilterParams.prefilterModel:0"@,
        "m=audio 0 RTP/AVP"@,
        "a=msid:audio"@,
        "m=mic 0 RTP/AVP"@,
        "a=msid:mic"@,
        "m=application 0 RTP/AVP"@,
        "a=msid:input_1"@,
        "a=ri.partialReliableThresholdMs:300"@,
    ]
}

/// All lines of the streaming parameters.
pub open spec fn nvst_lines(answer: Seq<char>, width: u32, height: u32, fps: u32) -> Seq<
    Seq<char>,
> {
    session_lines(ice_pwd(answer), ice_ufrag(answer), fingerprint(answer)) + rate_control_lines(fps)
        + encoder_lines() + high_fps_lines(fps) + pacing_lines(fps) + viewport_lines(
        width,
        height,
        fps,
    ) + closing_lines()
}

/// The streaming parameters that go out beside an answer.
pub open spec fn nvst_sdp(answer: Seq<char>, width: u32, height: u32, fps: u32) -> Seq<char> {
    join(nvst_lines(answer, width, height, fps), "\n"@)
}

/// The contents of a list of strings.
pub open spec fn texts(items: Seq<String>) -> Seq<Seq<char>> {
    items.map_values(|item: String| item@)
}

/// What a list of literals says.
pub open spec fn literals(items: Seq<&str>) -> Seq<Seq<char>> {
    items.map_values(|item: &str| item@)
}

fn add_all(lines: &mut Vec<String>, items: &[&str])
    ensures
        texts(final(lines)@) == texts(old(lines)@) + literals(items@),
{
    let ghost before = lines@;
    for i in 0..items.len()
        invariant
            texts(lines@) == texts(before) + literals(items@).take(i as int),
    {
        let ghost was = lines@;
        lines.push(items[i].to_string());
        assert(texts(lines@) =~= texts(was).push(items@[i as int]@));
        assert(literals(items@).take(i as int + 1) =~= literals(items@).take(i as int).push(
            items@[i as int]@,
        ));
    }
    assert(literals(items@).take(items@.len() as int) =~= literals(items@));
}

fn add_text(lines: &mut Vec<String>, label: &str, value: &str)
    ensures
        texts(final(lines)@) == texts(old(lines)@).push(label@ + value@),
{
    let ghost before = lines@;
    let mut line: String = label.to_string();
    line.append(value);
    lines.push(line);
    assert(texts(lines@) =~= texts(before).push(label@ + value@));
}

fn add_number(lines: &mut Vec<String>, label: &str, value: u32)
    ensures
        texts(final(lines)@) == texts(old(lines)@).push(label@ + decimal(value as nat)),
{
    let ghost before = lines@;
    let mut line: String = label.to_string();
    push_decimal(&mut line, value as u64);
    lines.push(line);
    assert(texts(lines@) =~= texts(before).push(label@ + decimal(value as nat)));
}

/// The items with the separator between each two.
pub fn join_of(items: &Vec<String>, separator: &str) -> (joined: String)
    ensures
        joined@ == join(texts(items@), separator@),
{
    let mut joined = String::new();
    for i in 0..items.len()
        invariant
            joined@ == join(texts(items@).take(i as int), separator@),
    {
        let ghost upto = texts(items@).take(i as int + 1);
        assert(upto.drop_last() =~= texts(items@).take(i as int));
        if i > 0 {
            joined.append(separator);
        }
        joined.append(items[i].as_str());
        assert(joined@ =~= join(upto, separator@));
    }
    assert(texts(items@).take(items@.len() as int) =~= texts(items@));
    joined
}

fn attribute_of(all: &Vec<Vec<char>>, prefix: &str, label: &str) -> (value: String)
    ensures
        value@ == match first_with_prefix(views(all@), prefix@) {
            Some(line) => trim_prefixes(line, label@),
            None => Seq::empty(),
        },
{
    match find_line(all, &chars_of(prefix)) {
        Some(i) => string_of(&trim_prefixes_of(&all[i], &chars_of(label))),
        None => String::new(),
    }
}

/// The ICE user name fragment of a session description.
pub fn ice_ufrag_of(sdp: &str) -> (ufrag: String)
    ensures
        ufrag@ == ice_ufrag(sdp@),
{
    attribute_of(&lines_of(&chars_of(sdp)), "a=ice-ufrag:", "a=ice-ufrag:")
}

/// Whether an offer comes from a server that only answers connectivity checks.
pub fn offers_ice_lite(sdp: &str) -> (lite: bool)
    ensures
        lite == is_ice_lite(sdp@),
{
    contains(&chars_of(sdp), &chars_of("a=ice-lite"))
}

fn find_media_line(all: &Vec<Vec<char>>) -> (at: Option<usize>)
    ensures
        match at {
            Some(i) => i < all.len() && first_media_line(views(all@)) == Some(all@[i as int]@),
            None => first_media_line(views(all@)) is None,
        },
{
    let audio = chars_of("m=audio");
    let video = chars_of("m=video");
    assert(views(all@).skip(0) =~= views(all@));
    for i in 0..all.len()
        invariant
            audio@ == "m=audio"@,
            video@ == "m=video"@,
            first_media_line(views(all@)) == first_media_line(views(all@).skip(i as int)),
    {
        let ghost rest = views(all@).skip(i as int);
        assert(rest[0] == all@[i as int]@);
        if starts_with(&all[i], &audio) || starts_with(&all[i], &video) {
            return Some(i);
        }
        assert(rest.skip(1) =~= views(all@).skip(i as int + 1));
    }
    None
}

/// The port that an offer names for its media.
pub fn media_port_of(sdp: &str) -> (port: u16)
    ensures
        port == media_port(sdp@),
{
    let all = lines_of(&chars_of(sdp));
    match find_media_line(&all) {
        Some(i) => {
            let found = words_of(&all[i]);
            assert(views(found@).len() == found@.len());
            if found.len() > 1 {
                assert(views(found@)[1] == found@[1]@);
                match parse_bounded(&found[1], 65535) {
                    Some(port) => port as u16,
                    None => DEFAULT_MEDIA_PORT,
                }
            } else {
                DEFAULT_MEDIA_PORT
            }
        },
        None => DEFAULT_MEDIA_PORT,
    }
}

/// Extract IP address from a server hostname
/// Format: 80-250-101-43.cloudmatchbeta.nvidiagrid.net -> 80.250.101.43
pub fn extract_ip_from_hostname(hostname: &str) -> (ip: String)
    ensures
        ip@ == ip_of_hostname(hostname@),
{
    let labels = split_of(&chars_of(hostname), '.');
    assert(views(labels@).len() == labels@.len());
    assert(views(labels@)[0] == labels@[0]@);
    let parts = split_of(&labels[0], '-');
    let ghost spelled = views(parts@);
    if parts.len() == 4 {
        let mut joined = String::new();
        for i in 0..4usize
            invariant
                parts.len() == 4,
                spelled == views(parts@),
                spelled == split(split(hostname@, '.')[0], '-'),
                forall|j: int| 0 <= j < i ==> is_octet(#[trigger] spelled[j]),
                joined@ == join(spelled.take(i as int), "."@),
        {
            assert(spelled[i as int] == parts@[i as int]@);
            if parse_bounded(&parts[i], 255).is_none() {
                return hostname.to_string();
            }
            let ghost upto = spelled.take(i as int + 1);
            assert(upto.drop_last() =~= spelled.take(i as int));
            if i > 0 {
                joined.append(".");
            }
            let part = string_of(&parts[i]);
            joined.append(part.as_str());
            assert(joined@ =~= join(upto, "."@));
        }
        assert(spelled.take(4) =~= spelled);
        return joined;
    }
    hostname.to_string()
}

/// The host candidate for a server at an address and port.
pub fn host_candidate_of(ip: &str, port: u16) -> (candidate: String)
    ensures
        candidate@ == host_candidate(ip@, port as nat),
{
    let mut candidate: String = "candidate:1 1 udp 2130706431 ".to_string();
    candidate.append(ip);
    candidate.append(" ");
    push_decimal(&mut candidate, port as u64);
    candidate.append(" typ host");
    candidate
}

/// Build nvstSdp string with streaming parameters
pub fn build_nvst_sdp(answer_sdp: &str, width: u32, height: u32, fps: u32) -> (sdp: String)
    ensures
        sdp@ == nvst_sdp(answer_sdp@, width, height, fps),
{
    let answer = lines_of(&chars_of(answer_sdp));
    let ufrag = attribute_of(&answer, "a=ice-ufrag:", "a=ice-ufrag:");
    let pwd = attribute_of(&answer, "a=ice-pwd:", "a=ice-pwd:");
    let print = attribute_of(&answer, "a=fingerprint:sha-256", "a=fingerprint:sha-256 ");
    let mut lines: Vec<String> = Vec::new();
    add_session_lines(&mut lines, pwd.as_str(), ufrag.as_str(), print.as_str());
    add_rate_control_lines(&mut lines, fps);
    add_encoder_lines(&mut lines);
    add_high_fps_lines(&mut lines, fps);
    add_pacing_lines(&mut lines, fps);
    add_number(&mut lines, "a=video.clientViewportWd:", width);
    add_number(&mut lines, "a=video.clientViewportHt:", height);
    add_number(&mut lines, "a=video.maxFPS:", fps);
    add_closing_lines(&mut lines);
    assert(texts(lines@) =~= nvst_lines(answer_sdp@, width, height, fps));
    join_of(&lines, "\n")
}

fn add_session_lines(lines: &mut Vec<String>, pwd: &str, ufrag: &str, print: &str)
    ensures
        texts(final(lines)@) == texts(old(lines)@) + session_lines(pwd@, ufrag@, print@),
{
    let ghost before = lines@;
    let opening: [&str; 4] = [
        "v=0",
        "o=SdpTest test_id_13 14 IN IPv4 127.0.0.1",
        "s=-",
        "t=0 0",
    ];
    add_all(lines, &opening);
    add_text(lines, "a=general.icePassword:", pwd);
    add_text(lines, "a=general.iceUserNameFragment:", ufrag);
    add_text(lines, "a=general.dtlsFingerprint:", print);
    let video: [&str; 7] = [
        "m=video 0 RTP/AVP",
        "a=msid:fbc-video-0",
        "a=vqos.fec.rateDropWindow:10",
        "a=vqos.fec.minRequiredFecPackets:2",
        "a=vqos.fec.repairMinPercent:5",
        "a=vqos.fec.repairPercent:5",
        "a=vqos.fec.repairMaxPercent:35",
    ];
    add_all(lines, &video);
    assert(texts(lines@) =~= texts(before) + session_lines(pwd@, ufrag@, print@));
}

fn add_rate_control_lines(lines: &mut Vec<String>, fps: u32)
    ensures
        texts(final(lines)@) == texts(old(lines)@) + rate_control_lines(fps),
{
    let ghost before = lines@;
    if fps >= HIGH_FPS {
        let fast: [&str; 5] = [
            "a=vqos.drc.enable:0",
            "a=vqos.dfc.enable:1",
            "a=vqos.dfc.decodeFpsAdjPercent:85",
            "a=vqos.dfc.targetDownCooldownMs:250",
            "a=vqos.dfc.dfcAlgoVersion:2",
        ];
        add_all(lines, &fast);
        add_number(
            lines,
            "a=vqos.dfc.minTargetFps:",
            if fps == HIGH_FPS {
                100
            } else {
                60
            },
        );
    } else {
        add_text(lines, "a=vqos.drc.minRequiredBitrateCheckEnabled:1", "");
        proof {
            reveal_strlit("");
            assert("a=vqos.drc.minRequiredBitrateCheckEnabled:1"@ + ""@
                =~= "a=vqos.drc.minRequiredBitrateCheckEnabled:1"@);
        }
    }
    assert(texts(lines@) =~= texts(before) + rate_control_lines(fps));
}

fn add_encoder_lines(lines: &mut Vec<String>)
    ensures
        texts(final(lines)@) == texts(old(lines)@) + encoder_lines(),
{
    let ghost before = lines@;
    let encoder: [&str; 10] = [
        "a=video.dx9EnableNv12:1",
        "a=video.dx9EnableHdr:1",
        "a=vqos.qpg.enable:1",
        "a=vqos.resControl.qp.qpg.featureSetting:7",
        "a=bwe.useOwdCongestionControl:1",
        "a=video.enableRtpNack:1",
        "a=vqos.bw.txRxLag.minFeedbackTxDeltaMs:200",
        "a=vqos.drc.bitrateIirFilterFactor:18",
        "a=video.packetSize:1140",
        "a=packetPacing.minNumPacketsPerGroup:15",
    ];
    add_all(lines, &encoder);
    assert(texts(lines@) =~= texts(before) + encoder_lines());
}

fn add_high_fps_lines(lines: &mut Vec<String>, fps: u32)
    ensures
        texts(final(lines)@) == texts(old(lines)@) + high_fps_lines(fps),
{
    let ghost before = lines@;
    if fps >= HIGH_FPS {
        let fast: [&str; 5] = [
            "a=bwe.iirFilterFactor:8",
            "a=video.encoderFeatureSetting:47",
            "a=video.encoderPreset:6",
            "a=vqos.resControl.cpmRtc.badNwSkipFramesCount:600",
            "a=vqos.resControl.cpmRtc.decodeTimeThresholdMs:9",
        ];
        add_all(lines, &fast);
        add_number(
            lines,
            "a=video.fbcDynamicFpsGrabTimeoutMs:",
            if fps == HIGH_FPS {
                6
            } else {
                18
            },
        );
        add_number(
            lines,
            "a=vqos.resControl.cpmRtc.serverResolutionUpdateCoolDownCount:",
            if fps == HIGH_FPS {
                6000
            } else {
                12000
            },
        );
    }
    assert(texts(lines@) =~= texts(before) + high_fps_lines(fps));
}

fn add_pacing_lines(lines: &mut Vec<String>, fps: u32)
    ensures
        texts(final(lines)@) == texts(old(lines)@) + pacing_lines(fps),
{
    let ghost before = lines@;
    let focus: [&str; 4] = [
        "a=vqos.adjustStreamingFpsDuringOutOfFocus:1",
        "a=vqos.resControl.cpmRtc.ignoreOutOfFocusWindowState:1",
        "a=vqos.resControl.perfHistory.rtcIgnoreOutOfFocusWindowState:1",
        "a=vqos.resControl.cpmRtc.featureMask:3",
    ];
    add_all(lines, &focus);
    add_number(
        lines,
        "a=packetPacing.numGroups:",
        if fps == HIGH_FPS {
            3
        } else {
            5
        },
    );
    let pacing: [&str; 8] = [
        "a=packetPacing.maxDelayUs:1000",
        "a=packetPacing.minNumPacketsFrame:10",
        "a=video.rtpNackQueueLength:1024",
        "a=video.rtpNackQueueMaxPackets:512",
        "a=video.rtpNackMaxPacketCount:25",
        "a=vqos.drc.qpMaxResThresholdAdj:4",
        "a=vqos.grc.qpMaxResThresholdAdj:4",
        "a=vqos.drc.iirFilterFactor:100",
    ];
    add_all(lines, &pacing);
    assert(texts(lines@) =~= texts(before) + pacing_lines(fps));
}

fn add_closing_lines(lines: &mut Vec<String>)
    ensures
        texts(final(lines)@) == texts(old(lines)@) + closing_lines(),
{
    let ghost before = lines@;
    let closing: [&str; 16] = [
        "a=video.initialBitrateKbps:50000",
        "a=video.initialPeakBitrateKbps:50000",
        "a=vqos.bw.maximumBitrateKbps:100000",
        "a=vqos.bw.minimumBitrateKbps:10000",
        "a=video.maxNumReferenceFrames:4",
        "a=video.mapRtpTimestampsToFrames:1",
        "a=video.encoderCscMode:3",
        "a=video.scalingFeature1:0",
        "a=video.prefilterParams.prefilterModel:0",
        "m=audio 0 RTP/AVP",
        "a=msid:audio",
        "m=mic 0 RTP/AVP",
        "a=msid:mic",
        "m=application 0 RTP/AVP",
        "a=msid:input_1",
        "a=ri.partialReliableThresholdMs:300",
    ];
    add_all(lines, &closing);
    assert(texts(lines@) =~= texts(before) + closing_lines());
}

/// Four bytes, with a separator between each two.
pub open spec fn quad(a: u8, b: u8, c: u8, d: u8, separator: char) -> Seq<char> {
    decimal(a as nat) + seq![separator] + decimal(b as nat) + seq![separator] + decimal(c as nat)
        + seq![separator] + decimal(d as nat)
}

/// A host name that begins with an address in dashes stands for that address.
pub proof fn dashed_hostname_is_its_address(a: u8, b: u8, c: u8, d: u8, domain: Seq<char>)
    ensures
        ip_of_hostname(quad(a, b, c, d, '-') + seq!['.'] + domain) == quad(a, b, c, d, '.'),
        ip_of_hostname(quad(a, b, c, d, '-')) == quad(a, b, c, d, '.'),
{
    let label = quad(a, b, c, d, '-');
    let hostname = label + seq!['.'] + domain;
    lemma_quad_parts(a, b, c, d, '-');
    lemma_quad_lacks(a, b, c, d, '-', '.');
    lemma_split_front(label, '.', domain);
    lemma_split_whole(label, '.');
    let parts = split(label, '-');
    assert forall|i: int| 0 <= i < 4 implies is_octet(#[trigger] parts[i]) by {
        decimal_round_trip(a as nat);
        decimal_round_trip(b as nat);
        decimal_round_trip(c as nat);
        decimal_round_trip(d as nat);
    }
    lemma_join_quad(a, b, c, d);
    assert(split(hostname, '.')[0] == label);
}

/// A host name without dashes in its first label stands for itself; so an address
/// does.
pub proof fn plain_hostname_is_itself(hostname: Seq<char>)
    requires
        lacks(split(hostname, '.')[0], '-'),
    ensures
        ip_of_hostname(hostname) == hostname,
{
    lemma_split_whole(split(hostname, '.')[0], '-');
}

proof fn lemma_quad_lacks(a: u8, b: u8, c: u8, d: u8, separator: char, other: char)
    requires
        !is_digit(other),
        separator != other,
    ensures
        lacks(quad(a, b, c, d, separator), other),
{
    lemma_decimal_digits(a as nat);
    lemma_decimal_digits(b as nat);
    lemma_decimal_digits(c as nat);
    lemma_decimal_digits(d as nat);
}

proof fn lemma_quad_parts(a: u8, b: u8, c: u8, d: u8, separator: char)
    requires
        !is_digit(separator),
    ensures
        split(quad(a, b, c, d, separator), separator) == seq![
            decimal(a as nat),
            decimal(b as nat),
            decimal(c as nat),
            decimal(d as nat),
        ],
{
    let (x, y, z, w) = (
        decimal(a as nat),
        decimal(b as nat),
        decimal(c as nat),
        decimal(d as nat),
    );
    lemma_decimal_digits(a as nat);
    lemma_decimal_digits(b as nat);
    lemma_decimal_digits(c as nat);
    lemma_decimal_digits(d as nat);
    let sep = seq![separator];
    let tail3 = z + sep + w;
    let tail2 = y + sep + tail3;
    assert(quad(a, b, c, d, separator) =~= x + sep + tail2);
    lemma_split_front(x, separator, tail2);
    lemma_split_front(y, separator, tail3);
    lemma_split_front(z, separator, w);
    lemma_split_whole(w, separator);
    assert(split(quad(a, b, c, d, separator), separator) =~= seq![x, y, z, w]);
}

proof fn lemma_join_quad(a: u8, b: u8, c: u8, d: u8)
    ensures
        join(
            seq![decimal(a as nat), decimal(b as nat), decimal(c as nat), decimal(d as nat)],
            "."@,
        ) == quad(a, b, c, d, '.'),
{
    let (x, y, z, w) = (
        decimal(a as nat),
        decimal(b as nat),
        decimal(c as nat),
        decimal(d as nat),
    );
    reveal_strlit(".");
    assert("."@ =~= seq!['.']);
    let items = seq![x, y, z, w];
    assert(items.drop_last() =~= seq![x, y, z]);
    assert(seq![x, y, z].drop_last() =~= seq![x, y]);
    assert(seq![x, y].drop_last() =~= seq![x]);
    reveal_with_fuel(join, 4);
    assert(join(items, "."@) =~= quad(a, b, c, d, '.'));
}

/// Whether each item is a line that is read back as it was written.
pub open spec fn all_plain(items: Seq<Seq<char>>) -> bool {
    forall|i: int| 0 <= i < items.len() ==> is_plain_line(#[trigger] items[i])
}

proof fn lemma_decimals_are_plain()
    ensures
        forall|n: nat| is_plain_line(#[trigger] decimal(n)),
{
    assert forall|n: nat| is_plain_line(#[trigger] decimal(n)) by {
        lemma_decimal_digits(n);
    }
}

proof fn lemma_session_lines(pwd: Seq<char>, ufrag: Seq<char>, print: Seq<char>)
    requires
        lacks(pwd, '\n') && lacks(pwd, '\r'),
        lacks(ufrag, '\n') && lacks(ufrag, '\r'),
        lacks(print, '\n') && lacks(print, '\r'),
    ensures
        all_plain(session_lines(pwd, ufrag, print)),
{
    assert(is_plain_line("v=0"@)) by {
        reveal_strlit("v=0");
    }
    assert(is_plain_line("o=SdpTest test_id_13 14 IN IPv4 127.0.0.1"@)) by {
        reveal_strlit("o=SdpTest test_id_13 14 IN IPv4 127.0.0.1");
    }
    assert(is_plain_line("s=-"@)) by {
        reveal_strlit("s=-");
    }
    assert(is_plain_line("t=0 0"@)) by {
        reveal_strlit("t=0 0");
    }
    assert(is_plain_line("a=general.icePassword:"@)) by {
        reveal_strlit("a=general.icePassword:");
    }
    assert(is_plain_line("a=general.iceUserNameFragment:"@)) by {
        reveal_strlit("a=general.iceUserNameFragment:");
    }
    assert(is_plain_line("a=general.dtlsFingerprint:"@)) by {
        reveal_strlit("a=general.dtlsFingerprint:");
    }
    assert(is_plain_line("m=video 0 RTP/AVP"@)) by {
        reveal_strlit("m=video 0 RTP/AVP");
    }
    assert(is_plain_line("a=msid:fbc-video-0"@)) by {
        reveal_strlit("a=msid:fbc-video-0");
    }
    assert(is_plain_line("a=vqos.fec.rateDropWindow:10"@)) by {
        reveal_strlit("a=vqos.fec.rateDropWindow:10");
    }
    assert(is_plain_line("a=vqos.fec.minRequiredFecPackets:2"@)) by {
        reveal_strlit("a=vqos.fec.minRequiredFecPackets:2");
    }
    assert(is_plain_line("a=vqos.fec.repairMinPercent:5"@)) by {
        reveal_strlit("a=vqos.fec.repairMinPercent:5");
    }
    assert(is_plain_line("a=vqos.fec.repairPercent:5"@)) by {
        reveal_strlit("a=vqos.fec.repairPercent:5");
    }
    assert(is_plain_line("a=vqos.fec.repairMaxPercent:35"@)) by {
        reveal_strlit("a=vqos.fec.repairMaxPercent:35");
    }
}

proof fn lemma_rate_control_lines(fps: u32)
    ensures
        all_plain(rate_control_lines(fps)),
{
    lemma_decimals_are_plain();
    assert(is_plain_line("a=vqos.drc.enable:0"@)) by {
        reveal_strlit("a=vqos.drc.enable:0");
    }
    assert(is_plain_line("a=vqos.dfc.enable:1"@)) by {
        reveal_strlit("a=vqos.dfc.enable:1");
    }
    assert(is_plain_line("a=vqos.dfc.decodeFpsAdjPercent:85"@)) by {
        reveal_strlit("a=vqos.dfc.decodeFpsAdjPercent:85");
    }
    assert(is_plain_line("a=vqos.dfc.targetDownCooldownMs:250"@)) by {
        reveal_strlit("a=vqos.dfc.targetDownCooldownMs:250");
    }
    assert(is_plain_line("a=vqos.dfc.dfcAlgoVersion:2"@)) by {
        reveal_strlit("a=vqos.dfc.dfcAlgoVersion:2");
    }
    assert(is_plain_line("a=vqos.dfc.minTargetFps:"@)) by {
        reveal_strlit("a=vqos.dfc.minTargetFps:");
    }
    assert(is_plain_line("a=vqos.drc.minRequiredBitrateCheckEnabled:1"@)) by {
        reveal_strlit("a=vqos.drc.minRequiredBitrateCheckEnabled:1");
    }
}

proof fn lemma_encoder_lines()
    ensures
        all_plain(encoder_lines()),
{
    assert(is_plain_line("a=video.dx9EnableNv12:1"@)) by {
        reveal_strlit("a=video.dx9EnableNv12:1");
    }
    assert(is_plain_line("a=video.dx9EnableHdr:1"@)) by {
        reveal_strlit("a=video.dx9EnableHdr:1");
    }
    assert(is_plain_line("a=vqos.qpg.enable:1"@)) by {
        reveal_strlit("a=vqos.qpg.enable:1");
    }
    assert(is_plain_line("a=vqos.resControl.qp.qpg.featureSetting:7"@)) by {
        reveal_strlit("a=vqos.resControl.qp.qpg.featureSetting:7");
    }
    assert(is_plain_line("a=bwe.useOwdCongestionControl:1"@)) by {
        reveal_strlit("a=bwe.useOwdCongestionControl:1");
    }
    assert(is_plain_line("a=video.enableRtpNack:1"@)) by {
        reveal_strlit("a=video.enableRtpNack:1");
    }
    assert(is_plain_line("a=vqos.bw.txRxLag.minFeedbackTxDeltaMs:200"@)) by {
        reveal_strlit("a=vqos.bw.txRxLag.minFeedbackTxDeltaMs:200");
    }
    assert(is_plain_line("a=vqos.drc.bitrateIirFilterFactor:18"@)) by {
        reveal_strlit("a=vqos.drc.bitrateIirFilterFactor:18");
    }
    assert(is_plain_line("a=video.packetSize:1140"@)) by {
        reveal_strlit("a=video.packetSize:1140");
    }
    assert(is_plain_line("a=packetPacing.minNumPacketsPerGroup:15"@)) by {
        reveal_strlit("a=packetPacing.minNumPacketsPerGroup:15");
    }
}

proof fn lemma_high_fps_lines(fps: u32)
    ensures
        all_plain(high_fps_lines(fps)),
{
    lemma_decimals_are_plain();
    assert(is_plain_line("a=bwe.iirFilterFactor:8"@)) by {
        reveal_strlit("a=bwe.iirFilterFactor:8");
    }
    assert(is_plain_line("a=video.encoderFeatureSetting:47"@)) by {
        reveal_strlit("a=video.encoderFeatureSetting:47");
    }
    assert(is_plain_line("a=video.encoderPreset:6"@)) by {
        reveal_strlit("a=video.encoderPreset:6");
    }
    assert(is_plain_line("a=vqos.resControl.cpmRtc.badNwSkipFramesCount:600"@)) by {
        reveal_strlit("a=vqos.resControl.cpmRtc.badNwSkipFramesCount:600");
    }
    assert(is_plain_line("a=vqos.resControl.cpmRtc.decodeTimeThresholdMs:9"@)) by {
        reveal_strlit("a=vqos.resControl.cpmRtc.decodeTimeThresholdMs:9");
    }
    assert(is_plain_line("a=video.fbcDynamicFpsGrabTimeoutMs:"@)) by {
        reveal_strlit("a=video.fbcDynamicFpsGrabTimeoutMs:");
    }
    assert(is_plain_line("a=vqos.resControl.cpmRtc.serverResolutionUpdateCoolDownCount:"@)) by {
        reveal_strlit("a=vqos.resControl.cpmRtc.serverResolutionUpdateCoolDownCount:");
    }
}

proof fn lemma_pacing_lines(fps: u32)
    ensures
        all_plain(pacing_lines(fps)),
{
    lemma_decimals_are_plain();
    assert(is_plain_line("a=vqos.adjustStreamingFpsDuringOutOfFocus:1"@)) by {
        reveal_strlit("a=vqos.adjustStreamingFpsDuringOutOfFocus:1");
    }
    assert(is_plain_line("a=vqos.resControl.cpmRtc.ignoreOutOfFocusWindowState:1"@)) by {
        reveal_strlit("a=vqos.resControl.cpmRtc.ignoreOutOfFocusWindowState:1");
    }
    assert(is_plain_line("a=vqos.resControl.perfHistory.rtcIgnoreOutOfFocusWindowState:1"@)) by {
        reveal_strlit("a=vqos.resControl.perfHistory.rtcIgnoreOutOfFocusWindowState:1");
    }
    assert(is_plain_line("a=vqos.resControl.cpmRtc.featureMask:3"@)) by {
        reveal_strlit("a=vqos.resControl.cpmRtc.featureMask:3");
    }
    assert(is_plain_line("a=packetPacing.numGroups:"@)) by {
        reveal_strlit("a=packetPacing.numGroups:");
    }
    assert(is_plain_line("a=packetPacing.maxDelayUs:1000"@)) by {
        reveal_strlit("a=packetPacing.maxDelayUs:1000");
    }
    assert(is_plain_line("a=packetPacing.minNumPacketsFrame:10"@)) by {
        reveal_strlit("a=packetPacing.minNumPacketsFrame:10");
    }
    assert(is_plain_line("a=video.rtpNackQueueLength:1024"@)) by {
        reveal_strlit("a=video.rtpNackQueueLength:1024");
    }
    assert(is_plain_line("a=video.rtpNackQueueMaxPackets:512"@)) by {
        reveal_strlit("a=video.rtpNackQueueMaxPackets:512");
    }
    assert(is_plain_line("a=video.rtpNackMaxPacketCount:25"@)) by {
        reveal_strlit("a=video.rtpNackMaxPacketCount:25");
    }
    assert(is_plain_line("a=vqos.drc.qpMaxResThresholdAdj:4"@)) by {
        reveal_strlit("a=vqos.drc.qpMaxResThresholdAdj:4");
    }
    assert(is_plain_line("a=vqos.grc.qpMaxResThresholdAdj:4"@)) by {
        reveal_strlit("a=vqos.grc.qpMaxResThresholdAdj:4");
    }
    assert(is_plain_line("a=vqos.drc.iirFilterFactor:100"@)) by {
        reveal_strlit("a=vqos.drc.iirFilterFactor:100");
    }
}

proof fn lemma_viewport_lines(width: u32, height: u32, fps: u32)
    ensures
        all_plain(viewport_lines(width, height, fps)),
{
    lemma_decimals_are_plain();
    assert(is_plain_line("a=video.clientViewportWd:"@)) by {
        reveal_strlit("a=video.clientViewportWd:");
    }
    assert(is_plain_line("a=video.clientViewportHt:"@)) by {
        reveal_strlit("a=video.clientViewportHt:");
    }
    assert(is_plain_line("a=video.maxFPS:"@)) by {
        reveal_strlit("a=video.maxFPS:");
    }
}

proof fn lemma_closing_lines()
    ensures
        all_plain(closing_lines()),
{
    assert(is_plain_line("a=video.initialBitrateKbps:50000"@)) by {
        reveal_strlit("a=video.initialBitrateKbps:50000");
    }
    assert(is_plain_line("a=video.initialPeakBitrateKbps:50000"@)) by {
        reveal_strlit("a=video.initialPeakBitrateKbps:50000");
    }
    assert(is_plain_line("a=vqos.bw.maximumBitrateKbps:100000"@)) by {
        reveal_strlit("a=vqos.bw.maximumBitrateKbps:100000");
    }
    assert(is_plain_line("a=vqos.bw.minimumBitrateKbps:10000"@)) by {
        reveal_strlit("a=vqos.bw.minimumBitrateKbps:10000");
    }
    assert(is_plain_line("a=video.maxNumReferenceFrames:4"@)) by {
        reveal_strlit("a=video.maxNumReferenceFrames:4");
    }
    assert(is_plain_line("a=video.mapRtpTimestampsToFrames:1"@)) by {
        reveal_strlit("a=video.mapRtpTimestampsToFrames:1");
    }
    assert(is_plain_line("a=video.encoderCscMode:3"@)) by {
        reveal_strlit("a=video.encoderCscMode:3");
    }
    assert(is_plain_line("a=video.scalingFeature1:0"@)) by {
        reveal_strlit("a=video.scalingFeature1:0");
    }
    assert(is_plain_line("a=video.prefilterParams.prefilterModel:0"@)) by {
        reveal_strlit("a=video.prefilterParams.prefilterModel:0");
    }
    assert(is_plain_line("m=audio 0 RTP/AVP"@)) by {
        reveal_strlit("m=audio 0 RTP/AVP");
    }
    assert(is_plain_line("a=msid:audio"@)) by {
        reveal_strlit("a=msid:audio");
    }
    assert(is_plain_line("m=mic 0 RTP/AVP"@)) by {
        reveal_strlit("m=mic 0 RTP/AVP");
    }
    assert(is_plain_line("a=msid:mic"@)) by {
        reveal_strlit("a=msid:mic");
    }
    assert(is_plain_line("m=application 0 RTP/AVP"@)) by {
        reveal_strlit("m=application 0 RTP/AVP");
    }
    assert(is_plain_line("a=msid:input_1"@)) by {
        reveal_strlit("a=msid:input_1");
    }
    assert(is_plain_line("a=ri.partialReliableThresholdMs:300"@)) by {
        reveal_strlit("a=ri.partialReliableThresholdMs:300");
    }
}

proof fn lemma_attribute_lacks_line_feeds(
    sdp: Seq<char>,
    prefix: Seq<char>,
    label: Seq<char>,
)
    ensures
        lacks(attribute(sdp, prefix, label), '\n'),
{
    lemma_lines_lack_line_feeds(sdp);
    lemma_first_with_prefix(lines(sdp), prefix);
    if let Some(line) = first_with_prefix(lines(sdp), prefix) {
        let i = choose|i: int| 0 <= i < lines(sdp).len() && lines(sdp)[i] == line;
        assert(lacks(lines(sdp)[i], '\n'));
        lemma_trimmed_lacks(line, label, '\n');
    }
}

/// The streaming parameters are read back line by line as they were written, among
/// them the credentials of the answer, unless a stray carriage return has got into
/// these.
pub proof fn parameters_are_read_back(answer: Seq<char>, width: u32, height: u32, fps: u32)
    requires
        lacks(ice_pwd(answer), '\r'),
        lacks(ice_ufrag(answer), '\r'),
        lacks(fingerprint(answer), '\r'),
    ensures
        lines(nvst_sdp(answer, width, height, fps)) == nvst_lines(answer, width, height, fps),
        lines(nvst_sdp(answer, width, height, fps))[4] == "a=general.icePassword:"@ + ice_pwd(
            answer,
        ),
        lines(nvst_sdp(answer, width, height, fps))[5] == "a=general.iceUserNameFragment:"@
            + ice_ufrag(answer),
        lines(nvst_sdp(answer, width, height, fps))[6] == "a=general.dtlsFingerprint:"@
            + fingerprint(answer),
{
    let pwd = ice_pwd(answer);
    let ufrag = ice_ufrag(answer);
    let print = fingerprint(answer);
    lemma_attribute_lacks_line_feeds(answer, "a=ice-pwd:"@, "a=ice-pwd:"@);
    lemma_attribute_lacks_line_feeds(answer, "a=ice-ufrag:"@, "a=ice-ufrag:"@);
    lemma_attribute_lacks_line_feeds(
        answer,
        "a=fingerprint:sha-256"@,
        "a=fingerprint:sha-256 "@,
    );
    lemma_session_lines(pwd, ufrag, print);
    lemma_rate_control_lines(fps);
    lemma_encoder_lines();
    lemma_high_fps_lines(fps);
    lemma_pacing_lines(fps);
    lemma_viewport_lines(width, height, fps);
    lemma_closing_lines();
    let items = nvst_lines(answer, width, height, fps);
    let g1 = session_lines(pwd, ufrag, print);
    let g2 = g1 + rate_control_lines(fps);
    let g3 = g2 + encoder_lines();
    let g4 = g3 + high_fps_lines(fps);
    let g5 = g4 + pacing_lines(fps);
    let g6 = g5 + viewport_lines(width, height, fps);
    lemma_all_plain_add(g1, rate_control_lines(fps));
    lemma_all_plain_add(g2, encoder_lines());
    lemma_all_plain_add(g3, high_fps_lines(fps));
    lemma_all_plain_add(g4, pacing_lines(fps));
    lemma_all_plain_add(g5, viewport_lines(width, height, fps));
    lemma_all_plain_add(g6, closing_lines());
    assert(all_plain(items));
    reveal_strlit("\n");
    assert("\n"@ =~= seq!['\n']);
    lines_of_joined_lines(items);
}

proof fn lemma_all_plain_add(a: Seq<Seq<char>>, b: Seq<Seq<char>>)
    requires
        all_plain(a),
        all_plain(b),
    ensures
        all_plain(a + b),
{
    assert forall|i: int| 0 <= i < (a + b).len() implies is_plain_line(#[trigger] (a + b)[i]) by {
        if i < a.len() {
            assert((a + b)[i] == a[i]);
        } else {
            assert((a + b)[i] == b[i - a.len()]);
        }
    }
}

/// Whether exactly one line of a text begins with a name, and what follows the name is a
/// number.
pub open spec fn names_number(text: Seq<char>, name: Seq<char>, n: nat) -> bool {
    exists|i: int| #[trigger] stands_alone(lines(text), name, i) && unsigned_value(
        lines(text)[i].skip(name.len() as int),
    ) == Some(n)
}

/// Whether a line is the only one of all that begins with a name.
pub open spec fn stands_alone(all: Seq<Seq<char>>, name: Seq<char>, at: int) -> bool {
    &&& 0 <= at < all.len()
    &&& name.is_prefix_of(all[at])
    &&& forall|j: int| 0 <= j < all.len() && j != at ==> !name.is_prefix_of(#[trigger] all[j])
}

/// The width, the height and the frame rate that were asked for can be read from the
/// streaming parameters, each from the one line that names it.
pub proof fn stream_settings_are_read_back(answer: Seq<char>, width: u32, height: u32, fps: u32)
    requires
        lacks(ice_pwd(answer), '\r'),
        lacks(ice_ufrag(answer), '\r'),
        lacks(fingerprint(answer), '\r'),
    ensures
        names_number(
            nvst_sdp(answer, width, height, fps),
            "a=video.clientViewportWd:"@,
            width as nat,
        ),
        names_number(
            nvst_sdp(answer, width, height, fps),
            "a=video.clientViewportHt:"@,
            height as nat,
        ),
        names_number(nvst_sdp(answer, width, height, fps), "a=video.maxFPS:"@, fps as nat),
{
    parameters_are_read_back(answer, width, height, fps);
    let all = nvst_lines(answer, width, height, fps);
    let n = all.len() as int;
    lemma_settings_stand_alone(answer, width, height, fps);
    lemma_number_behind("a=video.clientViewportWd:"@, width as nat);
    lemma_number_behind("a=video.clientViewportHt:"@, height as nat);
    lemma_number_behind("a=video.maxFPS:"@, fps as nat);
    assert(stands_alone(all, "a=video.clientViewportWd:"@, n - 19));
    assert(stands_alone(all, "a=video.clientViewportHt:"@, n - 18));
    assert(stands_alone(all, "a=video.maxFPS:"@, n - 17));
}

proof fn lemma_number_behind(name: Seq<char>, n: nat)
    ensures
        name.is_prefix_of(name + decimal(n)),
        unsigned_value((name + decimal(n)).skip(name.len() as int)) == Some(n),
{
    let line = name + decimal(n);
    assert(line.subrange(0, name.len() as int) =~= name);
    assert(line.skip(name.len() as int) =~= decimal(n));
    decimal_round_trip(n);
}

/// Whether a line can be told from the three that name the size and the rate by a few
/// of its first characters.
spec fn is_other(line: Seq<char>) -> bool {
    line.len() < 12 || line[0] != 'a' || line[3] != 'i' || (line[8] != 'c' && !(line[8] == 'm'
        && line[10] == 'x' && line[11] == 'F'))
}

proof fn lemma_other_lines(line: Seq<char>)
    requires
        is_other(line),
    ensures
        !"a=video.clientViewportWd:"@.is_prefix_of(line),
        !"a=video.clientViewportHt:"@.is_prefix_of(line),
        !"a=video.maxFPS:"@.is_prefix_of(line),
{
    reveal_strlit("a=video.clientViewportWd:");
    reveal_strlit("a=video.clientViewportHt:");
    reveal_strlit("a=video.maxFPS:");
    if "a=video.clientViewportWd:"@.is_prefix_of(line) {
        lemma_prefix_chars("a=video.clientViewportWd:"@, line);
    }
    if "a=video.clientViewportHt:"@.is_prefix_of(line) {
        lemma_prefix_chars("a=video.clientViewportHt:"@, line);
    }
    if "a=video.maxFPS:"@.is_prefix_of(line) {
        lemma_prefix_chars("a=video.maxFPS:"@, line);
    }
}

proof fn lemma_prefix_chars(prefix: Seq<char>, line: Seq<char>)
    requires
        prefix.is_prefix_of(line),
        prefix.len() >= 12,
    ensures
        line.len() >= 12,
        line[0] == prefix[0],
        line[3] == prefix[3],
        line[8] == prefix[8],
        line[10] == prefix[10],
        line[11] == prefix[11],
{
    assert(prefix == line.subrange(0, prefix.len() as int));
}

spec fn all_other(items: Seq<Seq<char>>) -> bool {
    forall|i: int| 0 <= i < items.len() ==> is_other(#[trigger] items[i])
}

proof fn lemma_other_extends(line: Seq<char>, more: Seq<char>)
    requires
        is_other(line),
        line.len() >= 12,
    ensures
        is_other(line + more),
{
}

proof fn lemma_session_others(pwd: Seq<char>, ufrag: Seq<char>, print: Seq<char>)
    ensures
        all_other(session_lines(pwd, ufrag, print)),
{
    assert(is_other("v=0"@)) by {
        reveal_strlit("v=0");
    }
    assert(is_other("o=SdpTest test_id_13 14 IN IPv4 127.0.0.1"@)) by {
        reveal_strlit("o=SdpTest test_id_13 14 IN IPv4 127.0.0.1");
    }
    assert(is_other("s=-"@)) by {
        reveal_strlit("s=-");
    }
    assert(is_other("t=0 0"@)) by {
        reveal_strlit("t=0 0");
    }
    assert(is_other("a=general.icePassword:"@)) by {
        reveal_strlit("a=general.icePassword:");
    }
    assert(is_other("a=general.iceUserNameFragment:"@)) by {
        reveal_strlit("a=general.iceUserNameFragment:");
    }
    assert(is_other("a=general.dtlsFingerprint:"@)) by {
        reveal_strlit("a=general.dtlsFingerprint:");
    }
    assert(is_other("m=video 0 RTP/AVP"@)) by {
        reveal_strlit("m=video 0 RTP/AVP");
    }
    assert(is_other("a=msid:fbc-video-0"@)) by {
        reveal_strlit("a=msid:fbc-video-0");
    }
    assert(is_other("a=vqos.fec.rateDropWindow:10"@)) by {
        reveal_strlit("a=vqos.fec.rateDropWindow:10");
    }
    assert(is_other("a=vqos.fec.minRequiredFecPackets:2"@)) by {
        reveal_strlit("a=vqos.fec.minRequiredFecPackets:2");
    }
    assert(is_other("a=vqos.fec.repairMinPercent:5"@)) by {
        reveal_strlit("a=vqos.fec.repairMinPercent:5");
    }
    assert(is_other("a=vqos.fec.repairPercent:5"@)) by {
        reveal_strlit("a=vqos.fec.repairPercent:5");
    }
    assert(is_other("a=vqos.fec.repairMaxPercent:35"@)) by {
        reveal_strlit("a=vqos.fec.repairMaxPercent:35");
    }
    assert("a=general.icePassword:"@.len() >= 12) by {
        reveal_strlit("a=general.icePassword:");
    }
    assert("a=general.iceUserNameFragment:"@.len() >= 12) by {
        reveal_strlit("a=general.iceUserNameFragment:");
    }
    assert("a=general.dtlsFingerprint:"@.len() >= 12) by {
        reveal_strlit("a=general.dtlsFingerprint:");
    }
    lemma_other_extends("a=general.icePassword:"@, pwd);
    lemma_other_extends("a=general.iceUserNameFragment:"@, ufrag);
    lemma_other_extends("a=general.dtlsFingerprint:"@, print);
}

proof fn lemma_rate_control_others(fps: u32)
    ensures
        all_other(rate_control_lines(fps)),
{
    assert(is_other("a=vqos.drc.enable:0"@)) by {
        reveal_strlit("a=vqos.drc.enable:0");
    }
    assert(is_other("a=vqos.dfc.enable:1"@)) by {
        reveal_strlit("a=vqos.dfc.enable:1");
    }
    assert(is_other("a=vqos.dfc.decodeFpsAdjPercent:85"@)) by {
        reveal_strlit("a=vqos.dfc.decodeFpsAdjPercent:85");
    }
    assert(is_other("a=vqos.dfc.targetDownCooldownMs:250"@)) by {
        reveal_strlit("a=vqos.dfc.targetDownCooldownMs:250");
    }
    assert(is_other("a=vqos.dfc.dfcAlgoVersion:2"@)) by {
        reveal_strlit("a=vqos.dfc.dfcAlgoVersion:2");
    }
    assert(is_other("a=vqos.dfc.minTargetFps:"@)) by {
        reveal_strlit("a=vqos.dfc.minTargetFps:");
    }
    assert(is_other("a=vqos.drc.minRequiredBitrateCheckEnabled:1"@)) by {
        reveal_strlit("a=vqos.drc.minRequiredBitrateCheckEnabled:1");
    }
    assert("a=vqos.dfc.minTargetFps:"@.len() >= 12) by {
        reveal_strlit("a=vqos.dfc.minTargetFps:");
    }
    lemma_other_extends("a=vqos.dfc.minTargetFps:"@, decimal(100));
    lemma_other_extends("a=vqos.dfc.minTargetFps:"@, decimal(60));
}

proof fn lemma_encoder_others()
    ensures
        all_other(encoder_lines()),
{
    assert(is_other("a=video.dx9EnableNv12:1"@)) by {
        reveal_strlit("a=video.dx9EnableNv12:1");
    }
    assert(is_other("a=video.dx9EnableHdr:1"@)) by {
        reveal_strlit("a=video.dx9EnableHdr:1");
    }
    assert(is_other("a=vqos.qpg.enable:1"@)) by {
        reveal_strlit("a=vqos.qpg.enable:1");
    }
    assert(is_other("a=vqos.resControl.qp.qpg.featureSetting:7"@)) by {
        reveal_strlit("a=vqos.resControl.qp.qpg.featureSetting:7");
    }
    assert(is_other("a=bwe.useOwdCongestionControl:1"@)) by {
        reveal_strlit("a=bwe.useOwdCongestionControl:1");
    }
    assert(is_other("a=video.enableRtpNack:1"@)) by {
        reveal_strlit("a=video.enableRtpNack:1");
    }
    assert(is_other("a=vqos.bw.txRxLag.minFeedbackTxDeltaMs:200"@)) by {
        reveal_strlit("a=vqos.bw.txRxLag.minFeedbackTxDeltaMs:200");
    }
    assert(is_other("a=vqos.drc.bitrateIirFilterFactor:18"@)) by {
        reveal_strlit("a=vqos.drc.bitrateIirFilterFactor:18");
    }
    assert(is_other("a=video.packetSize:1140"@)) by {
        reveal_strlit("a=video.packetSize:1140");
    }
    assert(is_other("a=packetPacing.minNumPacketsPerGroup:15"@)) by {
        reveal_strlit("a=packetPacing.minNumPacketsPerGroup:15");
    }
}

proof fn lemma_high_fps_others(fps: u32)
    ensures
        all_other(high_fps_lines(fps)),
{
    assert(is_other("a=bwe.iirFilterFactor:8"@)) by {
        reveal_strlit("a=bwe.iirFilterFactor:8");
    }
    assert(is_other("a=video.encoderFeatureSetting:47"@)) by {
        reveal_strlit("a=video.encoderFeatureSetting:47");
    }
    assert(is_other("a=video.encoderPreset:6"@)) by {
        reveal_strlit("a=video.encoderPreset:6");
    }
    assert(is_other("a=vqos.resControl.cpmRtc.badNwSkipFramesCount:600"@)) by {
        reveal_strlit("a=vqos.resControl.cpmRtc.badNwSkipFramesCount:600");
    }
    assert(is_other("a=vqos.resControl.cpmRtc.decodeTimeThresholdMs:9"@)) by {
        reveal_strlit("a=vqos.resControl.cpmRtc.decodeTimeThresholdMs:9");
    }
    assert(is_other("a=video.fbcDynamicFpsGrabTimeoutMs:"@)) by {
        reveal_strlit("a=video.fbcDynamicFpsGrabTimeoutMs:");
    }
    assert(is_other("a=vqos.resControl.cpmRtc.serverResolutionUpdateCoolDownCount:"@)) by {
        reveal_strlit("a=vqos.resControl.cpmRtc.serverResolutionUpdateCoolDownCount:");
    }
    assert("a=video.fbcDynamicFpsGrabTimeoutMs:"@.len() >= 12) by {
        reveal_strlit("a=video.fbcDynamicFpsGrabTimeoutMs:");
    }
    assert("a=vqos.resControl.cpmRtc.serverResolutionUpdateCoolDownCount:"@.len() >= 12) by {
        reveal_strlit("a=vqos.resControl.cpmRtc.serverResolutionUpdateCoolDownCount:");
    }
    lemma_other_extends("a=video.fbcDynamicFpsGrabTimeoutMs:"@, decimal(6));
    lemma_other_extends("a=video.fbcDynamicFpsGrabTimeoutMs:"@, decimal(18));
    lemma_other_extends(
        "a=vqos.resControl.cpmRtc.serverResolutionUpdateCoolDownCount:"@,
        decimal(6000),
    );
    lemma_other_extends(
        "a=vqos.resControl.cpmRtc.serverResolutionUpdateCoolDownCount:"@,
        decimal(12000),
    );
}

proof fn lemma_pacing_others(fps: u32)
    ensures
        all_other(pacing_lines(fps)),
{
    assert(is_other("a=vqos.adjustStreamingFpsDuringOutOfFocus:1"@)) by {
        reveal_strlit("a=vqos.adjustStreamingFpsDuringOutOfFocus:1");
    }
    assert(is_other("a=vqos.resControl.cpmRtc.ignoreOutOfFocusWindowState:1"@)) by {
        reveal_strlit("a=vqos.resControl.cpmRtc.ignoreOutOfFocusWindowState:1");
    }
    assert(is_other("a=vqos.resControl.perfHistory.rtcIgnoreOutOfFocusWindowState:1"@)) by {
        reveal_strlit("a=vqos.resControl.perfHistory.rtcIgnoreOutOfFocusWindowState:1");
    }
    assert(is_other("a=vqos.resControl.cpmRtc.featureMask:3"@)) by {
        reveal_strlit("a=vqos.resControl.cpmRtc.featureMask:3");
    }
    assert(is_other("a=packetPacing.numGroups:"@)) by {
        reveal_strlit("a=packetPacing.numGroups:");
    }
    assert(is_other("a=packetPacing.maxDelayUs:1000"@)) by {
        reveal_strlit("a=packetPacing.maxDelayUs:1000");
    }
    assert(is_other("a=packetPacing.minNumPacketsFrame:10"@)) by {
        reveal_strlit("a=packetPacing.minNumPacketsFrame:10");
    }
    assert(is_other("a=video.rtpNackQueueLength:1024"@)) by {
        reveal_strlit("a=video.rtpNackQueueLength:1024");
    }
    assert(is_other("a=video.rtpNackQueueMaxPackets:512"@)) by {
        reveal_strlit("a=video.rtpNackQueueMaxPackets:512");
    }
    assert(is_other("a=video.rtpNackMaxPacketCount:25"@)) by {
        reveal_strlit("a=video.rtpNackMaxPacketCount:25");
    }
    assert(is_other("a=vqos.drc.qpMaxResThresholdAdj:4"@)) by {
        reveal_strlit("a=vqos.drc.qpMaxResThresholdAdj:4");
    }
    assert(is_other("a=vqos.grc.qpMaxResThresholdAdj:4"@)) by {
        reveal_strlit("a=vqos.grc.qpMaxResThresholdAdj:4");
    }
    assert(is_other("a=vqos.drc.iirFilterFactor:100"@)) by {
        reveal_strlit("a=vqos.drc.iirFilterFactor:100");
    }
    assert("a=packetPacing.numGroups:"@.len() >= 12) by {
        reveal_strlit("a=packetPacing.numGroups:");
    }
    lemma_other_extends("a=packetPacing.numGroups:"@, decimal(3));
    lemma_other_extends("a=packetPacing.numGroups:"@, decimal(5));
}

proof fn lemma_closing_others()
    ensures
        all_other(closing_lines()),
{
    assert(is_other("a=video.initialBitrateKbps:50000"@)) by {
        reveal_strlit("a=video.initialBitrateKbps:50000");
    }
    assert(is_other("a=video.initialPeakBitrateKbps:50000"@)) by {
        reveal_strlit("a=video.initialPeakBitrateKbps:50000");
    }
    assert(is_other("a=vqos.bw.maximumBitrateKbps:100000"@)) by {
        reveal_strlit("a=vqos.bw.maximumBitrateKbps:100000");
    }
    assert(is_other("a=vqos.bw.minimumBitrateKbps:10000"@)) by {
        reveal_strlit("a=vqos.bw.minimumBitrateKbps:10000");
    }
    assert(is_other("a=video.maxNumReferenceFrames:4"@)) by {
        reveal_strlit("a=video.maxNumReferenceFrames:4");
    }
    assert(is_other("a=video.mapRtpTimestampsToFrames:1"@)) by {
        reveal_strlit("a=video.mapRtpTimestampsToFrames:1");
    }
    assert(is_other("a=video.encoderCscMode:3"@)) by {
        reveal_strlit("a=video.encoderCscMode:3");
    }
    assert(is_other("a=video.scalingFeature1:0"@)) by {
        reveal_strlit("a=video.scalingFeature1:0");
    }
    assert(is_other("a=video.prefilterParams.prefilterModel:0"@)) by {
        reveal_strlit("a=video.prefilterParams.prefilterModel:0");
    }
    assert(is_other("m=audio 0 RTP/AVP"@)) by {
        reveal_strlit("m=audio 0 RTP/AVP");
    }
    assert(is_other("a=msid:audio"@)) by {
        reveal_strlit("a=msid:audio");
    }
    assert(is_other("m=mic 0 RTP/AVP"@)) by {
        reveal_strlit("m=mic 0 RTP/AVP");
    }
    assert(is_other("a=msid:mic"@)) by {
        reveal_strlit("a=msid:mic");
    }
    assert(is_other("m=application 0 RTP/AVP"@)) by {
        reveal_strlit("m=application 0 RTP/AVP");
    }
    assert(is_other("a=msid:input_1"@)) by {
        reveal_strlit("a=msid:input_1");
    }
    assert(is_other("a=ri.partialReliableThresholdMs:300"@)) by {
        reveal_strlit("a=ri.partialReliableThresholdMs:300");
    }
}

proof fn lemma_settings_stand_alone(answer: Seq<char>, width: u32, height: u32, fps: u32)
    ensures
        ({
            let all = nvst_lines(answer, width, height, fps);
            let n = all.len() as int;
            &&& n >= 19
            &&& all[n - 19] == "a=video.clientViewportWd:"@ + decimal(width as nat)
            &&& all[n - 18] == "a=video.clientViewportHt:"@ + decimal(height as nat)
            &&& all[n - 17] == "a=video.maxFPS:"@ + decimal(fps as nat)
            &&& forall|j: int|
                0 <= j < n && j != n - 19 && j != n - 18 && j != n - 17 ==> is_other(
                    #[trigger] all[j],
                )
            &&& stands_alone(all, "a=video.clientViewportWd:"@, n - 19)
            &&& stands_alone(all, "a=video.clientViewportHt:"@, n - 18)
            &&& stands_alone(all, "a=video.maxFPS:"@, n - 17)
        }),
{
    let all = nvst_lines(answer, width, height, fps);
    let n = all.len() as int;
    let front = session_lines(ice_pwd(answer), ice_ufrag(answer), fingerprint(answer))
        + rate_control_lines(fps) + encoder_lines() + high_fps_lines(fps) + pacing_lines(fps);
    let middle = viewport_lines(width, height, fps);
    let back = closing_lines();
    assert(all =~= front + middle + back);
    lemma_front_others(answer, fps);
    lemma_closing_others();
    let wd = "a=video.clientViewportWd:"@;
    let ht = "a=video.clientViewportHt:"@;
    let rate = "a=video.maxFPS:"@;
    assert(all[n - 19] == middle[0] && all[n - 18] == middle[1] && all[n - 17] == middle[2]);
    assert forall|j: int| 0 <= j < n && j != n - 19 && j != n - 18 && j != n - 17 implies is_other(
        #[trigger] all[j],
    ) by {
        if j < front.len() {
            assert(all[j] == front[j]);
        } else {
            assert(all[j] == back[j - front.len() - 3]);
        }
    }
    lemma_number_behind(wd, width as nat);
    lemma_number_behind(ht, height as nat);
    lemma_number_behind(rate, fps as nat);
    lemma_settings_differ(decimal(width as nat), decimal(height as nat), decimal(fps as nat));
    assert forall|j: int| 0 <= j < n && j != n - 19 implies !wd.is_prefix_of(
        #[trigger] all[j],
    ) by {
        if j != n - 18 && j != n - 17 {
            lemma_other_lines(all[j]);
        }
    }
    assert forall|j: int| 0 <= j < n && j != n - 18 implies !ht.is_prefix_of(
        #[trigger] all[j],
    ) by {
        if j != n - 19 && j != n - 17 {
            lemma_other_lines(all[j]);
        }
    }
    assert forall|j: int| 0 <= j < n && j != n - 17 implies !rate.is_prefix_of(
        #[trigger] all[j],
    ) by {
        if j != n - 19 && j != n - 18 {
            lemma_other_lines(all[j]);
        }
    }
}

proof fn lemma_front_others(answer: Seq<char>, fps: u32)
    ensures
        all_other(
            session_lines(ice_pwd(answer), ice_ufrag(answer), fingerprint(answer))
                + rate_control_lines(fps) + encoder_lines() + high_fps_lines(fps) + pacing_lines(
                fps,
            ),
        ),
{
    let g1 = session_lines(ice_pwd(answer), ice_ufrag(answer), fingerprint(answer));
    lemma_session_others(ice_pwd(answer), ice_ufrag(answer), fingerprint(answer));
    lemma_rate_control_others(fps);
    lemma_encoder_others();
    lemma_high_fps_others(fps);
    lemma_pacing_others(fps);
    let g2 = g1 + rate_control_lines(fps);
    let g3 = g2 + encoder_lines();
    let g4 = g3 + high_fps_lines(fps);
    lemma_all_other_add(g1, rate_control_lines(fps));
    lemma_all_other_add(g2, encoder_lines());
    lemma_all_other_add(g3, high_fps_lines(fps));
    lemma_all_other_add(g4, pacing_lines(fps));
}

proof fn lemma_all_other_add(a: Seq<Seq<char>>, b: Seq<Seq<char>>)
    requires
        all_other(a),
        all_other(b),
    ensures
        all_other(a + b),
{
    assert forall|i: int| 0 <= i < (a + b).len() implies is_other(#[trigger] (a + b)[i]) by {
        if i < a.len() {
            assert((a + b)[i] == a[i]);
        } else {
            assert((a + b)[i] == b[i - a.len()]);
        }
    }
}

proof fn lemma_settings_differ(w: Seq<char>, h: Seq<char>, f: Seq<char>)
    ensures
        !"a=video.clientViewportWd:"@.is_prefix_of("a=video.clientViewportHt:"@ + h),
        !"a=video.clientViewportWd:"@.is_prefix_of("a=video.maxFPS:"@ + f),
        !"a=video.clientViewportHt:"@.is_prefix_of("a=video.clientViewportWd:"@ + w),
        !"a=video.clientViewportHt:"@.is_prefix_of("a=video.maxFPS:"@ + f),
        !"a=video.maxFPS:"@.is_prefix_of("a=video.clientViewportWd:"@ + w),
        !"a=video.maxFPS:"@.is_prefix_of("a=video.clientViewportHt:"@ + h),
{
    reveal_strlit("a=video.clientViewportWd:");
    reveal_strlit("a=video.clientViewportHt:");
    reveal_strlit("a=video.maxFPS:");
    lemma_differs("a=video.clientViewportWd:"@, "a=video.clientViewportHt:"@ + h, 22);
    lemma_differs("a=video.clientViewportWd:"@, "a=video.maxFPS:"@ + f, 8);
    lemma_differs("a=video.clientViewportHt:"@, "a=video.clientViewportWd:"@ + w, 22);
    lemma_differs("a=video.clientViewportHt:"@, "a=video.maxFPS:"@ + f, 8);
    lemma_differs("a=video.maxFPS:"@, "a=video.clientViewportWd:"@ + w, 8);
    lemma_differs("a=video.maxFPS:"@, "a=video.clientViewportHt:"@ + h, 8);
}

proof fn lemma_differs(prefix: Seq<char>, line: Seq<char>, at: int)
    requires
        0 <= at < prefix.len(),
        at < line.len(),
        prefix[at] != line[at],
    ensures
        !prefix.is_prefix_of(line),
{
    if prefix.is_prefix_of(line) {
        assert(prefix == line.subrange(0, prefix.len() as int));
    }
}

/// Two sets of streaming parameters for frame rates of one class, which are below 120, at
/// it or above, differ in nothing but the lines with the credentials, the size and the
/// rate.
pub proof fn other_settings_depend_on_the_rate_class(
    answer1: Seq<char>,
    width1: u32,
    height1: u32,
    fps1: u32,
    answer2: Seq<char>,
    width2: u32,
    height2: u32,
    fps2: u32,
    i: int,
)
    requires
        fps1 < 120 <==> fps2 < 120,
        fps1 == 120 <==> fps2 == 120,
    ensures
        ({
            let a = nvst_lines(answer1, width1, height1, fps1);
            let b = nvst_lines(answer2, width2, height2, fps2);
            let n = a.len() as int;
            &&& a.len() == b.len()
            &&& n == if fps1 < 120 {
                57int
            } else {
                69
            }
            &&& 0 <= i < n && i != 4 && i != 5 && i != 6 && i != n - 19 && i != n - 18 && i != n
                - 17 ==> a[i] == b[i]
        }),
{
}

/// The text of the streaming parameters is its lines with line feeds between them.
pub proof fn parameters_are_joined_by_line_feeds(
    answer: Seq<char>,
    width: u32,
    height: u32,
    fps: u32,
)
    ensures
        nvst_sdp(answer, width, height, fps) == join(
            nvst_lines(answer, width, height, fps),
            seq!['\n'],
        ),
{
    reveal_strlit("\n");
    assert("\n"@ =~= seq!['\n']);
}

/// The credentials are what follows the label on the first line that has it; without
/// such a line they are empty.
pub proof fn credentials_follow_their_labels(sdp: Seq<char>, at: int, value: Seq<char>)
    requires
        0 <= at <= lines(sdp).len(),
    ensures
        (forall|i: int| 0 <= i < at ==> !"a=ice-ufrag:"@.is_prefix_of(#[trigger] lines(sdp)[i]))
            ==> {
            &&& at == lines(sdp).len() ==> ice_ufrag(sdp) == Seq::<char>::empty()
            &&& at < lines(sdp).len() && lines(sdp)[at] == "a=ice-ufrag:"@ + value
                && !"a=ice-ufrag:"@.is_prefix_of(value) ==> ice_ufrag(sdp) == value
        },
        (forall|i: int| 0 <= i < at ==> !"a=ice-pwd:"@.is_prefix_of(#[trigger] lines(sdp)[i])) ==> {
            &&& at == lines(sdp).len() ==> ice_pwd(sdp) == Seq::<char>::empty()
            &&& at < lines(sdp).len() && lines(sdp)[at] == "a=ice-pwd:"@ + value
                && !"a=ice-pwd:"@.is_prefix_of(value) ==> ice_pwd(sdp) == value
        },
        (forall|i: int|
            0 <= i < at ==> !"a=fingerprint:sha-256"@.is_prefix_of(#[trigger] lines(sdp)[i])) ==> {
            &&& at == lines(sdp).len() ==> fingerprint(sdp) == Seq::<char>::empty()
            &&& at < lines(sdp).len() && lines(sdp)[at] == "a=fingerprint:sha-256 "@ + value
                && !"a=fingerprint:sha-256 "@.is_prefix_of(value) ==> fingerprint(sdp) == value
        },
{
    assert("a=ice-ufrag:"@.subrange(0, "a=ice-ufrag:"@.len() as int) =~= "a=ice-ufrag:"@);
    assert("a=ice-pwd:"@.subrange(0, "a=ice-pwd:"@.len() as int) =~= "a=ice-pwd:"@);
    lemma_attribute_at(sdp, "a=ice-ufrag:"@, "a=ice-ufrag:"@, at, value);
    lemma_attribute_at(sdp, "a=ice-pwd:"@, "a=ice-pwd:"@, at, value);
    reveal_strlit("a=fingerprint:sha-256");
    reveal_strlit("a=fingerprint:sha-256 ");
    assert("a=fingerprint:sha-256 "@.subrange(0, "a=fingerprint:sha-256"@.len() as int)
        =~= "a=fingerprint:sha-256"@);
    lemma_attribute_at(sdp, "a=fingerprint:sha-256"@, "a=fingerprint:sha-256 "@, at, value);
}

proof fn lemma_attribute_at(
    sdp: Seq<char>,
    prefix: Seq<char>,
    label: Seq<char>,
    at: int,
    value: Seq<char>,
)
    requires
        0 <= at <= lines(sdp).len(),
        prefix.len() <= label.len(),
        label.subrange(0, prefix.len() as int) == prefix,
    ensures
        (forall|i: int| 0 <= i < at ==> !prefix.is_prefix_of(#[trigger] lines(sdp)[i])) ==> {
            &&& at == lines(sdp).len() ==> attribute(sdp, prefix, label) == Seq::<char>::empty()
            &&& at < lines(sdp).len() && lines(sdp)[at] == label + value && !label.is_prefix_of(
                value,
            ) ==> attribute(sdp, prefix, label) == value
        },
{
    let all = lines(sdp);
    if forall|i: int| 0 <= i < at ==> !prefix.is_prefix_of(#[trigger] all[i]) {
        if at == all.len() {
            first_line_with_a_prefix_is_found(all, prefix, at);
        } else if all[at] == label + value && !label.is_prefix_of(value) {
            assert((label + value).subrange(0, prefix.len() as int) =~= prefix);
            first_line_with_a_prefix_is_found(all, prefix, at);
            prefixes_are_taken_off(value, label);
        }
    }
}

/// The media port is the number that stands second on the first line that opens an
/// audio or a video section, or 47998 where there is none.
pub proof fn media_port_stands_on_the_media_line(sdp: Seq<char>, at: int, port: u16)
    requires
        0 <= at <= lines(sdp).len(),
        forall|i: int|
            0 <= i < at ==> !"m=audio"@.is_prefix_of(#[trigger] lines(sdp)[i])
                && !"m=video"@.is_prefix_of(lines(sdp)[i]),
        at < lines(sdp).len() ==> "m=audio"@.is_prefix_of(lines(sdp)[at])
            || "m=video"@.is_prefix_of(lines(sdp)[at]),
    ensures
        at == lines(sdp).len() ==> media_port(sdp) == 47998,
        at < lines(sdp).len() && words(lines(sdp)[at]).len() < 2 ==> media_port(sdp) == 47998,
        at < lines(sdp).len() && words(lines(sdp)[at]).len() >= 2 ==> {
            let word = words(lines(sdp)[at])[1];
            &&& unsigned_value(word) == Some(port as nat) ==> media_port(sdp) == port
            &&& unsigned_value(word) is None ==> media_port(sdp) == 47998
            &&& unsigned_value(word) is Some && unsigned_value(word)->0 > 65535 ==> media_port(sdp)
                == 47998
        },
{
    lemma_first_media_line(lines(sdp), at);
}

proof fn lemma_first_media_line(all: Seq<Seq<char>>, at: int)
    requires
        0 <= at <= all.len(),
        forall|i: int|
            0 <= i < at ==> !"m=audio"@.is_prefix_of(#[trigger] all[i]) && !"m=video"@.is_prefix_of(
                all[i],
            ),
        at < all.len() ==> "m=audio"@.is_prefix_of(all[at]) || "m=video"@.is_prefix_of(all[at]),
    ensures
        first_media_line(all) == if at < all.len() {
            Some(all[at])
        } else {
            None
        },
    decreases at,
{
    if at > 0 {
        let rest = all.skip(1);
        assert forall|i: int| 0 <= i < at - 1 implies !"m=audio"@.is_prefix_of(#[trigger] rest[i])
            && !"m=video"@.is_prefix_of(rest[i]) by {
            assert(rest[i] == all[i + 1]);
        }
        assert(!"m=audio"@.is_prefix_of(all[0]) && !"m=video"@.is_prefix_of(all[0]));
        lemma_first_media_line(rest, at - 1);
    }
}

/// A host name whose first label is not four numbers of at most 255 with dashes between
/// them stands for itself.
pub proof fn other_hostnames_are_themselves(hostname: Seq<char>, i: int)
    requires
        ({
            let parts = split(split(hostname, '.')[0], '-');
            parts.len() != 4 || (0 <= i < 4 && (unsigned_value(parts[i]) matches Some(n) ==> n
                > 255))
        }),
    ensures
        ip_of_hostname(hostname) == hostname,
{
    let parts = split(split(hostname, '.')[0], '-');
    if parts.len() == 4 {
        assert(!is_octet(parts[i]));
    }
}

/// A host candidate is eight words, of which the fifth is the address and the sixth the
/// port.
pub proof fn host_candidates_are_eight_words(ip: Seq<char>, port: nat)
    requires
        ip.len() > 0,
        forall|i: int| 0 <= i < ip.len() ==> !is_white_space(#[trigger] ip[i]),
    ensures
        words(host_candidate(ip, port)) == seq![
            "candidate:1"@,
            "1"@,
            "udp"@,
            "2130706431"@,
            ip,
            decimal(port),
            "typ"@,
            "host"@,
        ],
{
    let space = seq![' '];
    let w = seq![
        "candidate:1"@,
        "1"@,
        "udp"@,
        "2130706431"@,
        ip,
        decimal(port),
        "typ"@,
        "host"@,
    ];
    lemma_candidate_words();
    lemma_decimal_digits(port);
    assert forall|i: int| 0 <= i < decimal(port).len() implies !is_white_space(
        #[trigger] decimal(port)[i],
    ) by {
        assert(is_digit(decimal(port)[i]));
    }
    let s8 = w[7];
    let s7 = w[6] + space + s8;
    let s6 = w[5] + space + s7;
    let s5 = w[4] + space + s6;
    let s4 = w[3] + space + s5;
    let s3 = w[2] + space + s4;
    let s2 = w[1] + space + s3;
    let s1 = w[0] + space + s2;
    lemma_candidate_text(ip, decimal(port));
    assert(host_candidate(ip, port) =~= s1);
    white_space_separates_words(w[7], ' ', s8);
    white_space_separates_words(w[6], ' ', s8);
    white_space_separates_words(w[5], ' ', s7);
    white_space_separates_words(w[4], ' ', s6);
    white_space_separates_words(w[3], ' ', s5);
    white_space_separates_words(w[2], ' ', s4);
    white_space_separates_words(w[1], ' ', s3);
    white_space_separates_words(w[0], ' ', s2);
    assert(words(s1) =~= w);
}

spec fn is_word(s: Seq<char>) -> bool {
    s.len() > 0 && forall|i: int| 0 <= i < s.len() ==> !is_white_space(#[trigger] s[i])
}

proof fn lemma_candidate_words()
    ensures
        is_word("candidate:1"@),
        is_word("1"@),
        is_word("udp"@),
        is_word("2130706431"@),
        is_word("typ"@),
        is_word("host"@),
{
    reveal_strlit("candidate:1");
    reveal_strlit("1");
    reveal_strlit("udp");
    reveal_strlit("2130706431");
    reveal_strlit("typ");
    reveal_strlit("host");
}

proof fn lemma_candidate_text(ip: Seq<char>, port: Seq<char>)
    ensures
        "candidate:1 1 udp 2130706431 "@ + ip + " "@ + port + " typ host"@ == "candidate:1"@ + seq![
            ' ',
        ] + ("1"@ + seq![' '] + ("udp"@ + seq![' '] + ("2130706431"@ + seq![' '] + (ip + seq![' ']
            + (port + seq![' '] + ("typ"@ + seq![' '] + "host"@)))))),
{
    reveal_strlit("candidate:1 1 udp 2130706431 ");
    reveal_strlit(" ");
    reveal_strlit(" typ host");
    reveal_strlit("candidate:1");
    reveal_strlit("1");
    reveal_strlit("udp");
    reveal_strlit("2130706431");
    reveal_strlit("typ");
    reveal_strlit("host");
    let head = "candidate:1"@ + seq![' '] + ("1"@ + seq![' '] + ("udp"@ + seq![' '] + (
    "2130706431"@ + seq![' '])));
    assert("candidate:1 1 udp 2130706431 "@ =~= head);
    assert(" "@ =~= seq![' ']);
    assert(" typ host"@ =~= seq![' '] + ("typ"@ + seq![' '] + "host"@));
    assert("candidate:1 1 udp 2130706431 "@ + ip + " "@ + port + " typ host"@ =~= "candidate:1"@
        + seq![' '] + ("1"@ + seq![' '] + ("udp"@ + seq![' '] + ("2130706431"@ + seq![' '] + (ip
        + seq![' '] + (port + seq![' '] + ("typ"@ + seq![' '] + "host"@)))))));
}

/// A server is taken for one that only answers exactly if its offer has the attribute
/// somewhere in it.
pub proof fn ice_lite_is_an_attribute(front: Seq<char>, back: Seq<char>)
    ensures
        is_ice_lite(front + "a=ice-lite"@ + back),
        forall|sdp: Seq<char>| #[trigger]
            is_ice_lite(sdp) ==> exists|at: int|
                0 <= at <= sdp.len() - "a=ice-lite"@.len() && #[trigger] sdp.skip(at).take(
                    "a=ice-lite"@.len() as int,
                ) == "a=ice-lite"@,
{
    contained_parts_stand_somewhere(front, "a=ice-lite"@, back);
}

} // verus!
