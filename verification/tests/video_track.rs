use server::messages::ServerMessage;
use server::sdp::SessionSdp;
use server::session::parse_description;
use server::video_track::determine_supported_video_tracks;

fn sdp_unmarshal(sdp_str: &str) -> SessionSdp {
    parse_description(sdp_str).expect("Failed to parse SDP for test")
}

// This one is straight out of unity's webrtc package:
#[test]
fn test_sample_unity_sdp() {
    let offer = "v=0
o=- 6648533537093923026 2 IN IP4 127.0.0.1
s=-
t=0 0
a=group:BUNDLE 0 1
a=extmap-allow-mixed
a=msid-semantic: WMS
m=video 63816 UDP/TLS/RTP/SAVPF 127 120 125 119 124 118 123 117 122 116 39 40 115 114 121
c=IN IP4 97.113.95.58
a=rtcp:9 IN IP4 0.0.0.0
a=candidate:2208109002 1 udp 2122194687 192.168.0.62 63816 typ host generation 0 network-id 1 network-cost 50
a=candidate:2977440256 1 udp 2122265343 fd7b:7f96:14ec:18fc:4a2:7b0b:9b0e:99c9 50087 typ host generation 0 network-id 2 network-cost 50
a=candidate:1486762379 1 udp 1685987071 97.113.95.58 63816 typ srflx raddr 192.168.0.62 rport 63816 generation 0 network-id 1 network-cost 50
a=candidate:4250071890 1 tcp 1518214911 192.168.0.62 54184 typ host tcptype passive generation 0 network-id 1 network-cost 50
a=candidate:3484926104 1 tcp 1518285567 fd7b:7f96:14ec:18fc:4a2:7b0b:9b0e:99c9 54185 typ host tcptype passive generation 0 network-id 2 network-cost 50
a=ice-ufrag:c/WI
a=ice-pwd:7PV5SNpanak/qTOvUN0mUKkz
a=ice-options:trickle
a=fingerprint:sha-256 D9:C2:E1:0A:69:DF:18:E8:FD:89:51:04:D5:B2:96:B2:A7:EC:23:A5:B3:49:E3:C6:F5:7A:A0:AF:CF:1A:5F:81
a=setup:actpass
a=mid:0
a=extmap:1 urn:ietf:params:rtp-hdrext:toffset
a=extmap:2 http://www.webrtc.org/experiments/rtp-hdrext/abs-send-time
a=extmap:3 urn:3gpp:video-orientation
a=extmap:4 http://www.ietf.org/id/draft-holmer-rmcat-transport-wide-cc-extensions-01
a=extmap:5 http://www.webrtc.org/experiments/rtp-hdrext/playout-delay
a=extmap:6 http://www.webrtc.org/experiments/rtp-hdrext/video-content-type
a=extmap:7 http://www.webrtc.org/experiments/rtp-hdrext/video-timing
a=extmap:8 http://www.webrtc.org/experiments/rtp-hdrext/color-space
a=extmap:9 urn:ietf:params:rtp-hdrext:sdes:mid
a=extmap:10 urn:ietf:params:rtp-hdrext:sdes:rtp-stream-id
a=extmap:11 urn:ietf:params:rtp-hdrext:sdes:repaired-rtp-stream-id
a=sendonly
a=msid:- 6364666f-6f27-4d06-a40e-940cccd00eed
a=rtcp-mux
a=rtcp-rsize
a=rtpmap:127 VP8/90000
a=rtcp-fb:127 goog-remb
a=rtcp-fb:127 transport-cc
a=rtcp-fb:127 ccm fir
a=rtcp-fb:127 nack
a=rtcp-fb:127 nack pli
a=fmtp:127 implementation_name=Internal
a=rtpmap:120 rtx/90000
a=fmtp:120 apt=127
a=rtpmap:125 VP9/90000
a=rtcp-fb:125 goog-remb
a=rtcp-fb:125 transport-cc
a=rtcp-fb:125 ccm fir
a=rtcp-fb:125 nack
a=rtcp-fb:125 nack pli
a=fmtp:125 implementation_name=Internal;profile-id=0
a=rtpmap:119 rtx/90000
a=fmtp:119 apt=125
a=rtpmap:124 VP9/90000
a=rtcp-fb:124 goog-remb
a=rtcp-fb:124 transport-cc
a=rtcp-fb:124 ccm fir
a=rtcp-fb:124 nack
a=rtcp-fb:124 nack pli
a=fmtp:124 implementation_name=Internal;profile-id=2
a=rtpmap:118 rtx/90000
a=fmtp:118 apt=124
a=rtpmap:123 H264/90000
a=rtcp-fb:123 goog-remb
a=rtcp-fb:123 transport-cc
a=rtcp-fb:123 ccm fir
a=rtcp-fb:123 nack
a=rtcp-fb:123 nack pli
a=fmtp:123 implementation_name=VideoToolbox;level-asymmetry-allowed=1;packetization-mode=1;profile-level-id=640c1f
a=rtpmap:117 rtx/90000
a=fmtp:117 apt=123
a=rtpmap:122 H264/90000
a=rtcp-fb:122 goog-remb
a=rtcp-fb:122 transport-cc
a=rtcp-fb:122 ccm fir
a=rtcp-fb:122 nack
a=rtcp-fb:122 nack pli
a=fmtp:122 implementation_name=VideoToolbox;level-asymmetry-allowed=1;packetization-mode=1;profile-level-id=42e01f
a=rtpmap:116 rtx/90000
a=fmtp:116 apt=122
a=rtpmap:39 AV1/90000
a=rtcp-fb:39 goog-remb
a=rtcp-fb:39 transport-cc
a=rtcp-fb:39 ccm fir
a=rtcp-fb:39 nack
a=rtcp-fb:39 nack pli
a=fmtp:39 implementation_name=Internal
a=rtpmap:40 rtx/90000
a=fmtp:40 apt=39
a=rtpmap:115 red/90000
a=rtpmap:114 rtx/90000
a=fmtp:114 apt=115
a=rtpmap:121 ulpfec/90000
a=ssrc-group:FID 667103293 1525532025
a=ssrc:667103293 cname:rSijxOb75cVEZipP
a=ssrc:667103293 msid:- 6364666f-6f27-4d06-a40e-940cccd00eed
a=ssrc:1525532025 cname:rSijxOb75cVEZipP
a=ssrc:1525532025 msid:- 6364666f-6f27-4d06-a40e-940cccd00eed
m=application 62624 UDP/DTLS/SCTP webrtc-datachannel
c=IN IP4 97.113.95.58
a=candidate:2208109002 1 udp 2122194687 192.168.0.62 62624 typ host generation 0 network-id 1 network-cost 50
a=candidate:2977440256 1 udp 2122265343 fd7b:7f96:14ec:18fc:4a2:7b0b:9b0e:99c9 53897 typ host generation 0 network-id 2 network-cost 50
a=candidate:1486762379 1 udp 1685987071 97.113.95.58 62624 typ srflx raddr 192.168.0.62 rport 62624 generation 0 network-id 1 network-cost 50
a=candidate:4250071890 1 tcp 1518214911 192.168.0.62 54186 typ host tcptype passive generation 0 network-id 1 network-cost 50
a=candidate:3484926104 1 tcp 1518285567 fd7b:7f96:14ec:18fc:4a2:7b0b:9b0e:99c9 54187 typ host tcptype passive generation 0 network-id 2 network-cost 50
a=ice-ufrag:c/WI
a=ice-pwd:7PV5SNpanak/qTOvUN0mUKkz
a=ice-options:trickle
a=fingerprint:sha-256 D9:C2:E1:0A:69:DF:18:E8:FD:89:51:04:D5:B2:96:B2:A7:EC:23:A5:B3:49:E3:C6:F5:7A:A0:AF:CF:1A:5F:81
a=setup:actpass
a=mid:1
a=sctp-port:5000
a=max-message-size:262144";

    let sdp = sdp_unmarshal(offer);

    let (supported_tracks, notices) = determine_supported_video_tracks(&sdp);

    assert_eq!(notices.len(), 0);
    assert_eq!(supported_tracks.len(), 1);
    println!("{:?}", supported_tracks);
}

#[test]
fn test_determine_no_video_m_lines() {
    let sdp = "v=0\r\n\
               o=- 0 0 IN IP4 127.0.0.1\r\n\
               s=-\r\n\
               t=0 0\r\n\
               m=audio 9 UDP/TLS/RTP/SAVPF 0\r\n\
               a=mid:audio0\r\n";
    let (tracks, notices) = determine_supported_video_tracks(&sdp_unmarshal(sdp));
    assert!(tracks.is_empty());
    assert!(notices.is_empty());
}

#[test]
fn test_determine_video_m_line_port_zero() {
    let sdp = "v=0\r\n\
               o=- 0 0 IN IP4 127.0.0.1\r\n\
               s=-\r\n\
               t=0 0\r\n\
               m=video 0 UDP/TLS/RTP/SAVPF 96\r\n\
               a=mid:video0\r\n\
               a=sendonly\r\n";
    let (tracks, notices) = determine_supported_video_tracks(&sdp_unmarshal(sdp));
    assert!(tracks.is_empty());
    assert_eq!(notices.len(), 1);
    assert_eq!(notices[0], ServerMessage::notice("Media track is disabled (port == 0). We don't support this."));
}

#[test]
fn test_determine_video_sendrecv_unsupported() {
    let sdp = "v=0\r\n\
               o=- 0 0 IN IP4 127.0.0.1\r\n\
               s=-\r\n\
               t=0 0\r\n\
               m=video 9 UDP/TLS/RTP/SAVPF 96\r\n\
               a=mid:video0\r\n\
               a=msid:stream1 track1\r\n\
               a=sendrecv\r\n";
    let (tracks, notices) = determine_supported_video_tracks(&sdp_unmarshal(sdp));
    assert_eq!(notices.len(), 1);
    assert_eq!(notices[0], ServerMessage::notice("Media track direction is set to [sendrecv]. We only support [send | (undefined)]"));
}
