use gfn_streamer::signaling::sdp::{
    build_nvst_sdp, extract_ip_from_hostname, host_candidate_of, ice_ufrag_of, media_port_of,
    offers_ice_lite,
};

const ANSWER: &str = "v=0\r\na=ice-ufrag:uF1\r\na=ice-pwd:pW2\r\na=fingerprint:sha-256 AB:CD\r\n";

#[test]
fn dashed_hostname_gives_its_address() {
    assert_eq!(
        extract_ip_from_hostname("80-250-101-43.cloudmatchbeta.nvidiagrid.net"),
        "80.250.101.43"
    );
    assert_eq!(extract_ip_from_hostname("1-2-3-4"), "1.2.3.4");
}

#[test]
fn other_hostnames_stay() {
    for name in ["10.0.0.1", "example.com", "1-2-3.x", "1-2-3-256.x", "1-2-3-4-5.x", "a-b-c-d", ""]
    {
        assert_eq!(extract_ip_from_hostname(name), name);
    }
}

#[test]
fn media_ports() {
    assert_eq!(media_port_of("v=0\nm=audio 5004 RTP\nm=video 6000 RTP"), 5004);
    assert_eq!(media_port_of("m=video 6000"), 6000);
    assert_eq!(media_port_of("m=application 9"), 47998);
    assert_eq!(media_port_of("m=audio"), 47998);
    assert_eq!(media_port_of("m=audio 70000 RTP"), 47998);
    assert_eq!(media_port_of(""), 47998);
}

#[test]
fn offer_attributes() {
    assert!(offers_ice_lite("v=0\r\na=ice-lite\r\n"));
    assert!(!offers_ice_lite("v=0\r\na=ice-options:trickle\r\n"));
    assert_eq!(ice_ufrag_of("a=ice-ufrag:abc\r\na=ice-ufrag:def\r\n"), "abc");
    assert_eq!(ice_ufrag_of("v=0"), "");
}

#[test]
fn host_candidates() {
    assert_eq!(
        host_candidate_of("80.250.101.43", 47998),
        "candidate:1 1 udp 2130706431 80.250.101.43 47998 typ host"
    );
}

#[test]
fn parameters_for_sixty_frames() {
    let expected = [
        "v=0",
        "o=SdpTest test_id_13 14 IN IPv4 127.0.0.1",
        "s=-",
        "t=0 0",
        "a=general.icePassword:pW2",
        "a=general.iceUserNameFragment:uF1",
        "a=general.dtlsFingerprint:AB:CD",
        "m=video 0 RTP/AVP",
        "a=msid:fbc-video-0",
        "a=vqos.fec.rateDropWindow:10",
        "a=vqos.fec.minRequiredFecPackets:2",
        "a=vqos.fec.repairMinPercent:5",
        "a=vqos.fec.repairPercent:5",
        "a=vqos.fec.repairMaxPercent:35",
        "a=vqos.drc.minRequiredBitrateCheckEnabled:1",
        "a=video.dx9EnableNv12:1",
        "a=video.dx9EnableHdr:1",
        "a=vqos.qpg.enable:1",
        "a=vqos.resControl.qp.qpg.featureSetting:7",
        "a=bwe.useOwdCongestionControl:1",
        "a=video.enableRtpNack:1",
        "a=vqos.bw.txRxLag.minFeedbackTxDeltaMs:200",
        "a=vqos.drc.bitrateIirFilterFactor:18",
        "a=video.packetSize:1140",
        "a=packetPacing.minNumPacketsPerGroup:15",
        "a=vqos.adjustStreamingFpsDuringOutOfFocus:1",
        "a=vqos.resControl.cpmRtc.ignoreOutOfFocusWindowState:1",
        "a=vqos.resControl.perfHistory.rtcIgnoreOutOfFocusWindowState:1",
        "a=vqos.resControl.cpmRtc.featureMask:3",
        "a=packetPacing.numGroups:5",
        "a=packetPacing.maxDelayUs:1000",
        "a=packetPacing.minNumPacketsFrame:10",
        "a=video.rtpNackQueueLength:1024",
        "a=video.rtpNackQueueMaxPackets:512",
        "a=video.rtpNackMaxPacketCount:25",
        "a=vqos.drc.qpMaxResThresholdAdj:4",
        "a=vqos.grc.qpMaxResThresholdAdj:4",
        "a=vqos.drc.iirFilterFactor:100",
        "a=video.clientViewportWd:1920",
        "a=video.clientViewportHt:1080",
        "a=video.maxFPS:60",
        "a=video.initialBitrateKbps:50000",
        "a=video.initialPeakBitrateKbps:50000",
        "a=vqos.bw.maximumBitrateKbps:100000",
        "a=vqos.bw.minimumBitrateKbps:10000",
        "a=video.maxNumReferenceFrames:4",
        "a=video.mapRtpTimestampsToFrames:1",
        "a=video.encoderCscMode:3",
        "a=video.scalingFeature1:0",
        "a=video.prefilterParams.prefilterModel:0",
        "m=audio 0 RTP/AVP",
        "a=msid:audio",
        "m=mic 0 RTP/AVP",
        "a=msid:mic",
        "m=application 0 RTP/AVP",
        "a=msid:input_1",
        "a=ri.partialReliableThresholdMs:300",
    ];
    let text = build_nvst_sdp(ANSWER, 1920, 1080, 60);
    assert_eq!(text, expected.join("\n"));
    let lines: Vec<&str> = text.lines().collect();
    assert_eq!(lines, expected);
}

#[test]
fn parameters_for_fast_streams() {
    let text = build_nvst_sdp(ANSWER, 2560, 1440, 120);
    for line in [
        "a=vqos.drc.enable:0",
        "a=vqos.dfc.enable:1",
        "a=vqos.dfc.decodeFpsAdjPercent:85",
        "a=vqos.dfc.targetDownCooldownMs:250",
        "a=vqos.dfc.dfcAlgoVersion:2",
        "a=vqos.dfc.minTargetFps:100",
        "a=bwe.iirFilterFactor:8",
        "a=video.encoderFeatureSetting:47",
        "a=video.encoderPreset:6",
        "a=vqos.resControl.cpmRtc.badNwSkipFramesCount:600",
        "a=vqos.resControl.cpmRtc.decodeTimeThresholdMs:9",
        "a=video.fbcDynamicFpsGrabTimeoutMs:6",
        "a=vqos.resControl.cpmRtc.serverResolutionUpdateCoolDownCount:6000",
        "a=packetPacing.numGroups:3",
        "a=video.maxFPS:120",
    ] {
        assert!(text.lines().any(|l| l == line), "{}", line);
    }
    assert!(!text.contains("minRequiredBitrateCheckEnabled"));
    assert_eq!(text.lines().count(), 69);
}

#[test]
fn parameters_above_the_fast_streams() {
    let text = build_nvst_sdp("", 1280, 720, 240);
    for line in [
        "a=general.icePassword:",
        "a=vqos.dfc.minTargetFps:60",
        "a=video.fbcDynamicFpsGrabTimeoutMs:18",
        "a=vqos.resControl.cpmRtc.serverResolutionUpdateCoolDownCount:12000",
        "a=packetPacing.numGroups:5",
    ] {
        assert!(text.lines().any(|l| l == line), "{}", line);
    }
}
