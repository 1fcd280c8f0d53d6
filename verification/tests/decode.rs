use media_engine::decode::{DecodeAction, DecodeEvent, DecodeLoop, SourceLayout, Track};
use media_engine::sample::Sample;
use media_engine::shared::{QueuedFrame, Shared};
use media_engine::time::{Moment, Rational, StreamSpan};

const VIDEO: DecodeAction = DecodeAction::ReceiveFrame { track: Track::Video };
const AUDIO: DecodeAction = DecodeAction::ReceiveFrame { track: Track::Audio };

fn at(ticks: i64) -> StreamSpan {
    StreamSpan { ticks, unit: Rational { num: 1, den: 1_000 } }
}

fn machine(has_audio: bool) -> DecodeLoop {
    let unit = Rational { num: 1, den: 1_000 };
    DecodeLoop::new(Some(0), Some(1), true, true, unit, has_audio)
}

fn playing(has_audio: bool) -> (DecodeLoop, Shared) {
    let mut shared = Shared::new(has_audio);
    shared.play(0);
    let mut decode = machine(has_audio);
    assert_eq!(decode.step(&mut shared, DecodeEvent::Done, 0), DecodeAction::ReadPacket);
    (decode, shared)
}

fn idle(millis: u64) -> DecodeAction {
    DecodeAction::Sleep { millis }
}

#[test]
fn paused_player_reads_nothing() {
    let mut shared = Shared::new(true);
    let mut decode = machine(true);
    assert_eq!(decode.step(&mut shared, DecodeEvent::Done, 0), idle(10));
    assert_eq!(decode.step(&mut shared, DecodeEvent::Done, 0), idle(10));
    shared.play(0);
    assert_eq!(decode.step(&mut shared, DecodeEvent::Done, 0), DecodeAction::ReadPacket);
}

#[test]
fn full_player_waits() {
    let mut shared = Shared::new(false);
    shared.play(0);
    for _ in 0..90 {
        shared.queue_frame(QueuedFrame { rgb: Vec::new(), pts: at(0) });
    }
    let mut decode = machine(false);
    assert_eq!(decode.step(&mut shared, DecodeEvent::Done, 0), idle(5));
    shared.take_due_frame(Moment::at(0));
    assert_eq!(decode.step(&mut shared, DecodeEvent::Done, 0), DecodeAction::ReadPacket);
}

#[test]
fn stopped_player_ends_its_thread_for_good() {
    let mut shared = Shared::new(false);
    shared.play(0);
    shared.request_seek(5, 0);
    shared.stop = true;
    let mut decode = machine(false);
    assert_eq!(decode.step(&mut shared, DecodeEvent::Done, 0), DecodeAction::Exit);
    assert_eq!(shared.seek_to, Some(5));
    shared.stop = false;
    assert_eq!(decode.step(&mut shared, DecodeEvent::Done, 0), DecodeAction::Exit);
}

#[test]
fn seek_flushes_and_arrives() {
    let (mut decode, mut shared) = playing(true);
    shared.queue_frame(QueuedFrame { rgb: Vec::new(), pts: at(0) });
    shared.queue_sound(&[0; 8], 1);
    shared.request_seek(2_000_000_999, 0);
    let action = decode.step(&mut shared, DecodeEvent::Packet { index: 9 }, 0);
    assert_eq!(action, DecodeAction::SeekInput { timestamp: 2_000_000 });
    assert_eq!(shared.seek_to, None);
    let action = decode.step(&mut shared, DecodeEvent::SeekFinished { moved: true }, 1);
    assert_eq!(action, DecodeAction::FlushDecoders);
    assert_eq!(shared.video_q.len(), 1);
    assert_eq!(decode.step(&mut shared, DecodeEvent::Done, 2), DecodeAction::ReadPacket);
    assert_eq!(shared.video_q.len(), 0);
    assert_eq!(shared.audio_buf.len(), 0);
    assert_eq!(shared.position(2), 2_000_000_999);
    assert_eq!(shared.frozen_at, None);
}

#[test]
fn refused_seek_leaves_the_player() {
    let mut shared = Shared::new(false);
    shared.queue_frame(QueuedFrame { rgb: Vec::new(), pts: at(0) });
    shared.play(0);
    shared.request_seek(-3, 4);
    assert_eq!(shared.position(7), 4);
    let mut decode = machine(false);
    let action = decode.step(&mut shared, DecodeEvent::Done, 0);
    assert_eq!(action, DecodeAction::SeekInput { timestamp: 0 });
    let action = decode.step(&mut shared, DecodeEvent::SeekFinished { moved: false }, 0);
    assert_eq!(action, DecodeAction::ReadPacket);
    assert_eq!(shared.video_q.len(), 1);
    assert_eq!(shared.position(9), 9);
    assert_eq!(shared.seek_to, None);
}

#[test]
fn pictures_are_queued_with_their_time() {
    let (mut decode, mut shared) = playing(false);
    let action = decode.step(&mut shared, DecodeEvent::Packet { index: 0 }, 0);
    assert_eq!(action, DecodeAction::SendPacket { track: Track::Video });
    assert_eq!(decode.step(&mut shared, DecodeEvent::PacketSent { accepted: true }, 0), VIDEO);
    for ts in [40, 80] {
        let event = DecodeEvent::VideoFrame { timestamp: Some(ts) };
        assert_eq!(decode.step(&mut shared, event, 0), DecodeAction::ScaleFrame);
        let event = DecodeEvent::Scaled { rgb: vec![ts as u8] };
        assert_eq!(decode.step(&mut shared, event, 0), VIDEO);
    }
    let event = DecodeEvent::VideoFrame { timestamp: Some(120) };
    assert_eq!(decode.step(&mut shared, event, 0), DecodeAction::ScaleFrame);
    assert_eq!(decode.step(&mut shared, DecodeEvent::ScaleFailed, 0), VIDEO);
    assert_eq!(decode.step(&mut shared, DecodeEvent::NoFrame, 0), DecodeAction::ReadPacket);
    let queued: Vec<(StreamSpan, u8)> = shared.video_q.iter().map(|f| (f.pts, f.rgb[0])).collect();
    assert_eq!(queued, vec![(at(40), 40), (at(80), 80)]);
}

#[test]
fn refused_packet_is_passed_over() {
    let (mut decode, mut shared) = playing(false);
    decode.step(&mut shared, DecodeEvent::Packet { index: 0 }, 0);
    let action = decode.step(&mut shared, DecodeEvent::PacketSent { accepted: false }, 0);
    assert_eq!(action, DecodeAction::ReadPacket);
}

#[test]
fn sound_is_resampled_and_queued() {
    let (mut decode, mut shared) = playing(true);
    let action = decode.step(&mut shared, DecodeEvent::Packet { index: 1 }, 0);
    assert_eq!(action, DecodeAction::SendPacket { track: Track::Audio });
    assert_eq!(decode.step(&mut shared, DecodeEvent::PacketSent { accepted: true }, 0), AUDIO);
    let heard = || DecodeEvent::AudioFrame { layout_bits: 0, channels: 6 };
    let make = DecodeAction::CreateResampler { layout: SourceLayout::DefaultFor { channels: 6 } };
    assert_eq!(decode.step(&mut shared, heard(), 0), make);
    let action = decode.step(&mut shared, DecodeEvent::ResamplerMade { made: false }, 0);
    assert_eq!(action, AUDIO);
    assert_eq!(decode.step(&mut shared, heard(), 0), make);
    let action = decode.step(&mut shared, DecodeEvent::ResamplerMade { made: true }, 0);
    assert_eq!(action, DecodeAction::Resample);
    let event = DecodeEvent::Resampled { frames: 1, raw: vec![1, 0, 0, 0, 2, 0, 0, 0, 7, 7] };
    assert_eq!(decode.step(&mut shared, event, 0), AUDIO);
    assert_eq!(shared.audio_buf.len(), 2);
    assert_eq!(decode.step(&mut shared, heard(), 0), DecodeAction::Resample);
    assert_eq!(decode.step(&mut shared, DecodeEvent::ResampleFailed, 0), AUDIO);
    assert_eq!(decode.step(&mut shared, DecodeEvent::NoFrame, 0), DecodeAction::ReadPacket);
    assert_eq!(shared.audio_buf.len(), 2);
}

#[test]
fn frame_layout_is_used_where_it_names_channels() {
    let (mut decode, mut shared) = playing(true);
    decode.step(&mut shared, DecodeEvent::Packet { index: 1 }, 0);
    decode.step(&mut shared, DecodeEvent::PacketSent { accepted: true }, 0);
    let event = DecodeEvent::AudioFrame { layout_bits: 3, channels: 2 };
    let make = DecodeAction::CreateResampler { layout: SourceLayout::OfFrame };
    assert_eq!(decode.step(&mut shared, event, 0), make);
}

#[test]
fn sound_is_passed_over_by_a_player_without_it() {
    let (mut decode, mut shared) = playing(false);
    let action = decode.step(&mut shared, DecodeEvent::Packet { index: 1 }, 0);
    assert_eq!(action, DecodeAction::ReadPacket);
}

#[test]
fn tracks_without_a_decoder_are_passed_over() {
    let unit = Rational { num: 1, den: 1_000 };
    let mut decode = DecodeLoop::new(Some(0), Some(1), false, false, unit, true);
    let mut shared = Shared::new(true);
    shared.play(0);
    decode.step(&mut shared, DecodeEvent::Done, 0);
    for index in 0..3 {
        let action = decode.step(&mut shared, DecodeEvent::Packet { index }, 0);
        assert_eq!(action, DecodeAction::ReadPacket);
    }
    let action = decode.step(&mut shared, DecodeEvent::EndOfInput, 0);
    assert_eq!(action, DecodeAction::SendEof);
    assert_eq!(decode.step(&mut shared, DecodeEvent::Done, 0), idle(20));
    assert!(shared.eof);
}

#[test]
fn end_of_file_gives_out_the_frames_that_are_held() {
    let (mut decode, mut shared) = playing(true);
    let action = decode.step(&mut shared, DecodeEvent::EndOfInput, 0);
    assert_eq!(action, DecodeAction::SendEof);
    assert_eq!(decode.step(&mut shared, DecodeEvent::Done, 0), VIDEO);
    decode.step(&mut shared, DecodeEvent::VideoFrame { timestamp: Some(1) }, 0);
    assert_eq!(decode.step(&mut shared, DecodeEvent::Scaled { rgb: vec![5] }, 0), VIDEO);
    assert!(!shared.eof);
    assert_eq!(decode.step(&mut shared, DecodeEvent::NoFrame, 0), AUDIO);
    assert!(!shared.eof);
    assert_eq!(decode.step(&mut shared, DecodeEvent::NoFrame, 0), idle(20));
    assert!(shared.eof);
    assert_eq!(shared.video_q.len(), 1);
    assert_eq!(shared.video_q[0].pts, at(1));
    assert_eq!(decode.step(&mut shared, DecodeEvent::Done, 0), DecodeAction::ReadPacket);
    assert_eq!(decode.step(&mut shared, DecodeEvent::EndOfInput, 0), DecodeAction::SendEof);
}

#[test]
fn seek_after_the_end_clears_it() {
    let (mut decode, mut shared) = playing(false);
    decode.step(&mut shared, DecodeEvent::EndOfInput, 0);
    decode.step(&mut shared, DecodeEvent::Done, 0);
    assert_eq!(decode.step(&mut shared, DecodeEvent::NoFrame, 0), idle(20));
    assert!(shared.eof);
    shared.request_seek(0, 0);
    assert!(!shared.eof);
    decode.step(&mut shared, DecodeEvent::Done, 0);
    decode.step(&mut shared, DecodeEvent::SeekFinished { moved: true }, 0);
    assert_eq!(decode.step(&mut shared, DecodeEvent::Done, 0), DecodeAction::ReadPacket);
    assert!(!shared.eof);
}

#[test]
fn stray_events_change_nothing() {
    let (mut decode, mut shared) = playing(false);
    let before = decode;
    for event in [
        DecodeEvent::Done,
        DecodeEvent::NoFrame,
        DecodeEvent::Scaled { rgb: vec![1] },
        DecodeEvent::SeekFinished { moved: true },
    ] {
        assert_eq!(decode.step(&mut shared, event, 0), DecodeAction::ReadPacket);
        assert_eq!(decode, before);
    }
    assert_eq!(shared.video_q.len(), 0);
}

#[test]
fn decoding_does_not_move_the_clock() {
    let (mut decode, mut shared) = playing(false);
    let before = shared.position(500);
    decode.step(&mut shared, DecodeEvent::Packet { index: 0 }, 100);
    decode.step(&mut shared, DecodeEvent::PacketSent { accepted: true }, 200);
    decode.step(&mut shared, DecodeEvent::VideoFrame { timestamp: None }, 300);
    decode.step(&mut shared, DecodeEvent::Scaled { rgb: Vec::new() }, 400);
    assert_eq!(shared.video_q[0].pts, at(0));
    assert_eq!(shared.position(500), before);
    assert!(shared.playing);
}

#[test]
fn last_frame_of_a_packet_ends_in_a_round() {
    let (mut decode, mut shared) = playing(false);
    decode.step(&mut shared, DecodeEvent::Packet { index: 0 }, 0);
    decode.step(&mut shared, DecodeEvent::PacketSent { accepted: true }, 0);
    shared.pause(0);
    assert_eq!(decode.step(&mut shared, DecodeEvent::NoFrame, 0), idle(10));
    shared.stop = true;
    assert_eq!(decode.step(&mut shared, DecodeEvent::Done, 0), DecodeAction::Exit);
}

#[test]
fn position_is_held_until_the_jump_is_made() {
    let (mut decode, mut shared) = playing(false);
    shared.request_seek(5_000, 100);
    assert_eq!(shared.position(150), 100);
    decode.step(&mut shared, DecodeEvent::Packet { index: 9 }, 200);
    assert_eq!(shared.position(250), 100);
    decode.step(&mut shared, DecodeEvent::SeekFinished { moved: true }, 300);
    assert_eq!(shared.position(350), 100);
    decode.step(&mut shared, DecodeEvent::Done, 400);
    assert_eq!(shared.position(450), 5_050);
}

#[test]
fn position_is_held_for_a_newer_jump() {
    for moved in [true, false] {
        let (mut decode, mut shared) = playing(false);
        shared.request_seek(5_000, 100);
        decode.step(&mut shared, DecodeEvent::Packet { index: 9 }, 200);
        shared.request_seek(7_000, 300);
        decode.step(&mut shared, DecodeEvent::SeekFinished { moved }, 400);
        if moved {
            decode.step(&mut shared, DecodeEvent::Done, 500);
        }
        assert_eq!(shared.position(600), if moved { 5_000 } else { 100 });
        assert_eq!(shared.position(900), shared.position(600));
        decode.step(&mut shared, DecodeEvent::EndOfInput, 900);
        decode.step(&mut shared, DecodeEvent::Done, 900);
        decode.step(&mut shared, DecodeEvent::NoFrame, 900);
        let action = decode.step(&mut shared, DecodeEvent::Done, 900);
        assert_eq!(action, DecodeAction::SeekInput { timestamp: 7 });
        decode.step(&mut shared, DecodeEvent::SeekFinished { moved: true }, 900);
        decode.step(&mut shared, DecodeEvent::Done, 1_000);
        assert_eq!(shared.position(1_001), 7_001);
    }
}

#[test]
fn picture_queue_is_bounded() {
    let (mut decode, mut shared) = playing(false);
    let mut action = DecodeAction::ReadPacket;
    let mut given = 0;
    let mut longest = 0;
    for _ in 0..5_000 {
        let event = match action {
            DecodeAction::ReadPacket => {
                given = 0;
                DecodeEvent::Packet { index: 0 }
            }
            DecodeAction::SendPacket { .. } => DecodeEvent::PacketSent { accepted: true },
            DecodeAction::ReceiveFrame { .. } => {
                if given < 3 {
                    given += 1;
                    DecodeEvent::VideoFrame { timestamp: Some(0) }
                } else {
                    DecodeEvent::NoFrame
                }
            }
            DecodeAction::ScaleFrame => DecodeEvent::Scaled { rgb: Vec::new() },
            _ => {
                shared.take_due_frame(Moment::at(0));
                DecodeEvent::Done
            }
        };
        action = decode.step(&mut shared, event, 0);
        longest = longest.max(shared.video_q.len());
    }
    assert_eq!(longest, 92);
}

#[test]
fn enough_sound_stops_the_pictures_too() {
    let (mut decode, mut shared) = playing(true);
    shared.out_sample_rate = 1;
    shared.out_channels = 1;
    shared.queue_sound(&[0; 8], 2);
    let action = decode.step(&mut shared, DecodeEvent::Packet { index: 9 }, 0);
    assert_eq!(action, idle(5));
}

#[test]
fn sound_buffer_is_bounded() {
    let (mut decode, mut shared) = playing(true);
    shared.out_sample_rate = 10;
    shared.out_channels = 1;
    let mut action = DecodeAction::ReadPacket;
    let mut given = 0;
    let mut longest = 0;
    for turn in 0..5_000 {
        let event = match action {
            DecodeAction::ReadPacket => {
                given = 0;
                DecodeEvent::Packet { index: 1 }
            }
            DecodeAction::SendPacket { .. } => DecodeEvent::PacketSent { accepted: true },
            DecodeAction::ReceiveFrame { .. } => {
                if given < 2 {
                    given += 1;
                    DecodeEvent::AudioFrame { layout_bits: 0, channels: 1 }
                } else {
                    DecodeEvent::NoFrame
                }
            }
            DecodeAction::CreateResampler { .. } => DecodeEvent::ResamplerMade { made: true },
            DecodeAction::Resample => DecodeEvent::Resampled { frames: 3, raw: vec![0; 12] },
            _ => {
                shared.fill_audio(&mut vec![Sample::silence(); 1], turn);
                DecodeEvent::Done
            }
        };
        action = decode.step(&mut shared, event, turn);
        longest = longest.max(shared.audio_buf.len());
    }
    assert_eq!(longest, 25);
}

#[test]
fn end_comes_only_after_every_decoder_ran_dry() {
    let (mut decode, mut shared) = playing(true);
    let events = [
        (DecodeEvent::Packet { index: 0 }, false),
        (DecodeEvent::PacketSent { accepted: true }, false),
        (DecodeEvent::NoFrame, false),
        (DecodeEvent::Packet { index: 1 }, false),
        (DecodeEvent::PacketSent { accepted: true }, false),
        (DecodeEvent::NoFrame, false),
        (DecodeEvent::EndOfInput, false),
        (DecodeEvent::Done, false),
        (DecodeEvent::NoFrame, false),
        (DecodeEvent::AudioFrame { layout_bits: 0, channels: 2 }, false),
        (DecodeEvent::ResamplerMade { made: true }, false),
        (DecodeEvent::Resampled { frames: 1, raw: vec![0; 8] }, false),
        (DecodeEvent::NoFrame, true),
    ];
    for (event, ended) in events {
        decode.step(&mut shared, event, 0);
        assert_eq!(shared.eof, ended);
    }
    assert_eq!(shared.audio_buf.len(), 2);
}

#[test]
fn closed_player_ends_its_thread_and_keeps_what_waits() {
    let (mut decode, mut shared) = playing(false);
    shared.queue_frame(QueuedFrame { rgb: vec![7], pts: at(0) });
    decode.step(&mut shared, DecodeEvent::Packet { index: 0 }, 0);
    decode.step(&mut shared, DecodeEvent::PacketSent { accepted: true }, 0);
    shared.close(50);
    assert_eq!(decode.step(&mut shared, DecodeEvent::NoFrame, 60), DecodeAction::Exit);
    let events = [
        DecodeEvent::Done,
        DecodeEvent::EndOfInput,
        DecodeEvent::Scaled { rgb: vec![8] },
        DecodeEvent::SeekFinished { moved: true },
    ];
    for event in events {
        assert_eq!(decode.step(&mut shared, event, 70), DecodeAction::Exit);
    }
    assert_eq!(shared.video_q.len(), 1);
    assert!(!shared.eof);
    assert_eq!(shared.position(900), 50);
}
