use media_engine::error::{ErrorClass, MediaError, ShapeFault};
use media_engine::info::{MediaInfo, MediaProbe, VideoProbe};
use media_engine::search::{FrameSearch, Goal, SearchAction, SearchEvent, VideoDecoder};
use media_engine::time::{Rational, StreamSpan};

fn decoder() -> VideoDecoder {
    VideoDecoder::new(VideoProbe {
        index: 2,
        time_base: Rational { num: 1, den: 1_000 },
        duration: 5_000,
        frame_rate: Rational { num: 25, den: 1 },
        codec_id: "vp9".to_string(),
        width: 4,
        height: 3,
    })
}

fn media_probe() -> MediaProbe {
    MediaProbe {
        time_base: Rational { num: 1, den: 0 },
        duration: 77,
        frame_rate: Rational { num: 30_000, den: 1_001 },
        codec_id: "h264".to_string(),
        codec: Some("H.264".to_string()),
        bitrate: 1_234,
        size: Some((640, 360)),
    }
}

#[test]
fn decoder_reports_the_stream() {
    let d = decoder();
    assert_eq!((d.stream_idx, d.width, d.height, d.codec.as_str()), (2, 4, 3, "vp9"));
    let unit = Rational { num: 1, den: 1_000 };
    assert_eq!(d.duration, StreamSpan { ticks: 5_000, unit });
    assert_eq!(d.time_base, unit);
}

#[test]
fn search_starts_at_the_nearest_tick() {
    let search = decoder().seek_frame(1_500_600_000);
    assert_eq!(search.goal, Goal::At { target_ts: 1_501 });
    assert_eq!(search.stream_idx, 2);
    assert_eq!((search.packet_count, search.got_frame), (0, false));
}

fn at(millis: i64) -> FrameSearch {
    decoder().seek_frame(millis * 1_000_000)
}

fn frame(timestamp: i64) -> SearchEvent {
    SearchEvent::Frame { timestamp: Some(timestamp) }
}

/// Sends a packet of the stream to the decoder.
fn send(search: &mut FrameSearch) {
    assert_eq!(search.step(SearchEvent::Packet { index: 2 }), SearchAction::SendPacket);
    assert_eq!(search.step(SearchEvent::PacketSent), SearchAction::ReceiveFrame);
}

#[test]
fn only_packets_of_the_stream_are_decoded() {
    for mut search in [at(0), decoder().read_next_frame()] {
        assert_eq!(search.step(SearchEvent::Packet { index: 0 }), SearchAction::ReadPacket);
        assert_eq!(search.step(SearchEvent::Packet { index: 2 }), SearchAction::SendPacket);
    }
}

#[test]
fn search_ends_at_the_target_or_after_it() {
    for last in [40, 41] {
        let mut search = at(40);
        send(&mut search);
        assert_eq!(search.step(frame(39)), SearchAction::ReceiveFrame);
        assert_eq!(search.step(SearchEvent::NoFrame), SearchAction::ReadPacket);
        send(&mut search);
        assert_eq!(
            search.step(SearchEvent::Frame { timestamp: None }),
            SearchAction::ReceiveFrame
        );
        assert_eq!(search.step(frame(last)), SearchAction::Finish);
        assert_eq!(search.step(frame(10)), SearchAction::Finish);
        assert_eq!(search.step(SearchEvent::EndOfInput), SearchAction::Finish);
        assert!(search.finish().is_ok());
    }
    let mut from_start = at(0);
    send(&mut from_start);
    assert_eq!(
        from_start.step(SearchEvent::Frame { timestamp: None }),
        SearchAction::Finish
    );
}

#[test]
fn next_picture_is_any_picture() {
    let mut search = decoder().read_next_frame();
    send(&mut search);
    assert_eq!(search.step(SearchEvent::NoFrame), SearchAction::ReadPacket);
    send(&mut search);
    assert_eq!(search.step(frame(-5)), SearchAction::Finish);
    assert!(search.finish().is_ok());
}

#[test]
fn end_of_video_comes_again_and_again() {
    let mut search = decoder().read_next_frame();
    send(&mut search);
    assert_eq!(search.step(SearchEvent::NoFrame), SearchAction::ReadPacket);
    assert_eq!(search.step(SearchEvent::EndOfInput), SearchAction::Finish);
    assert!(matches!(search.finish(), Err(MediaError::EndOfVideo)));
    for _ in 0..3 {
        let mut again = decoder().read_next_frame();
        assert_eq!(again.step(SearchEvent::EndOfInput), SearchAction::Finish);
        assert!(matches!(again.finish(), Err(MediaError::EndOfVideo)));
    }
}

#[test]
fn search_without_any_picture_fails() {
    let mut search = at(1);
    assert_eq!(search.step(SearchEvent::EndOfInput), SearchAction::Finish);
    assert!(matches!(search.finish(), Err(MediaError::UnreadableFrame)));
}

#[test]
fn last_picture_before_the_target_will_do() {
    let mut search = at(1_000);
    send(&mut search);
    assert_eq!(search.step(frame(1)), SearchAction::ReceiveFrame);
    assert_eq!(search.step(SearchEvent::NoFrame), SearchAction::ReadPacket);
    assert_eq!(search.step(SearchEvent::EndOfInput), SearchAction::Finish);
    assert!(search.finish().is_ok());
}

#[test]
fn stray_events_do_not_move_the_search() {
    let mut search = at(1_000);
    assert_eq!(search.step(frame(2_000)), SearchAction::ReadPacket);
    assert_eq!(search.step(SearchEvent::PacketSent), SearchAction::ReadPacket);
    assert!(!search.got_frame);
    send(&mut search);
    assert_eq!(search.step(SearchEvent::EndOfInput), SearchAction::ReceiveFrame);
}

fn packets_until_refused(search: &mut FrameSearch, limit: usize) -> usize {
    for n in 0..limit {
        match search.step(SearchEvent::Packet { index: n % 3 }) {
            SearchAction::Finish => return n,
            SearchAction::SendPacket => {
                search.step(SearchEvent::PacketSent);
                search.step(SearchEvent::NoFrame);
            }
            _ => {}
        }
    }
    limit
}

#[test]
fn search_for_a_time_gives_up() {
    let mut search = at(1_000);
    assert_eq!(packets_until_refused(&mut search, 1_000), 201);
    assert!(matches!(search.finish(), Err(MediaError::FrameNotFound)));
    let mut next = decoder().read_next_frame();
    assert_eq!(packets_until_refused(&mut next, 1_000), 1_000);
}

#[test]
fn giving_up_counts_more_than_a_picture() {
    let mut search = at(1_000);
    send(&mut search);
    search.step(frame(1));
    search.step(SearchEvent::NoFrame);
    assert_eq!(packets_until_refused(&mut search, 1_000), 200);
    assert!(matches!(search.finish(), Err(MediaError::FrameNotFound)));
}

#[test]
fn refused_packets_are_reported_by_goal() {
    let cases = [(at(0), "Kirim paket gagal: x"), (decoder().read_next_frame(), "Kirim paket: x")];
    for (mut search, message) in cases {
        search.step(SearchEvent::Packet { index: 2 });
        let event = SearchEvent::SendFailed { detail: "x".to_string() };
        assert_eq!(search.step(event), SearchAction::Finish);
        assert_eq!(search.finish().unwrap_err().message(), message);
    }
}

#[test]
fn decoder_and_description_agree() {
    for den in [1_000, 0] {
        let time_base = Rational { num: 1, den };
        let info = MediaInfo::new("a", MediaProbe { time_base, ..media_probe() });
        let decoder = VideoDecoder::new(VideoProbe {
            index: 0,
            time_base,
            duration: 77,
            frame_rate: Rational { num: 25, den: 1 },
            codec_id: "h264".to_string(),
            width: 1,
            height: 1,
        });
        assert_eq!(decoder.codec, info.codec_id);
        if den > 0 {
            assert_eq!(decoder.duration, info.duration);
        } else {
            assert_eq!(decoder.duration.unit, Rational { num: 0, den: 1 });
        }
    }
}

#[test]
fn info_takes_over_what_was_found() {
    let info = MediaInfo::new("a.mp4", media_probe());
    assert_eq!(info.path, "a.mp4");
    assert_eq!(info.duration, StreamSpan { ticks: 77, unit: Rational { num: 1, den: 0 } });
    assert_eq!((info.width, info.height), (640, 360));
    assert_eq!(info.fps, Rational { num: 30_000, den: 1_001 });
    assert_eq!((info.codec.as_str(), info.codec_id.as_str()), ("H.264", "h264"));
    assert_eq!(info.bitrate, 1_234);
}

#[test]
fn info_fills_in_what_is_missing() {
    let mut probe = media_probe();
    probe.codec = None;
    probe.size = None;
    probe.frame_rate = Rational { num: 30, den: 0 };
    let info = MediaInfo::new("", probe);
    assert_eq!(info.codec, "Tidak diketahui");
    assert_eq!((info.width, info.height), (0, 0));
    assert_eq!(info.fps, Rational { num: 0, den: 1 });
}

#[test]
fn errors_have_their_words_and_their_class() {
    let d = || "d".to_string();
    let cases = [
        (MediaError::Init(d()), ErrorClass::Runtime, "Inisialisasi FFmpeg gagal: d"),
        (MediaError::OpenFile(d()), ErrorClass::Io, "Buka file: d"),
        (MediaError::NoVideoStream, ErrorClass::Value, "Tidak ada aliran video"),
        (MediaError::DecoderContext(d()), ErrorClass::Runtime, "Konteks dekoder: d"),
        (MediaError::OpenDecoder(d()), ErrorClass::Runtime, "Buat dekoder: d"),
        (MediaError::VideoDecoderContext(d()), ErrorClass::Runtime, "Konteks dekoder video: d"),
        (MediaError::OpenVideoDecoder(d()), ErrorClass::Runtime, "Buat dekoder video: d"),
        (MediaError::Seek(d()), ErrorClass::Runtime, "Lompat gagal: d"),
        (MediaError::FrameNotFound, ErrorClass::Runtime, "Bingkai tidak ditemukan"),
        (MediaError::SendSeekPacket(d()), ErrorClass::Runtime, "Kirim paket gagal: d"),
        (MediaError::SendPacket(d()), ErrorClass::Runtime, "Kirim paket: d"),
        (MediaError::UnreadableFrame, ErrorClass::Runtime, "Tidak dapat membaca bingkai"),
        (MediaError::EndOfVideo, ErrorClass::Runtime, "Akhir video"),
        (MediaError::ScalingContext(d()), ErrorClass::Runtime, "Buat konteks scaling: d"),
        (MediaError::ColorConversion(d()), ErrorClass::Runtime, "Konversi warna gagal: d"),
        (
            MediaError::Array(ShapeFault::OutOfBounds),
            ErrorClass::Runtime,
            "Array gagal: ShapeError/OutOfBounds: out of bounds indexing",
        ),
        (MediaError::SpawnDecodeThread(d()), ErrorClass::Runtime, "Spawn thread decode gagal: d"),
    ];
    for (error, class, message) in cases {
        assert_eq!(error.class(), class);
        assert_eq!(error.message(), message);
    }
}
