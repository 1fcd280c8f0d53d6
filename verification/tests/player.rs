use media_engine::error::{MediaError, ShapeFault};
use media_engine::info::VideoProbe;
use media_engine::player::{frame_image, OutputConfig, OutputFormat, PlayerEngine};
use media_engine::sample::{packed_samples, Sample};
use media_engine::shared::{QueuedFrame, Shared};
use media_engine::time::{Moment, Rational, StreamSpan};

const MS: i64 = 1_000_000;

fn probe(width: u32, height: u32) -> VideoProbe {
    VideoProbe {
        index: 0,
        time_base: Rational { num: 1, den: 90_000 },
        duration: 900_000,
        frame_rate: Rational { num: 25, den: 1 },
        codec_id: "h264".to_string(),
        width,
        height,
    }
}

fn silent_player() -> PlayerEngine {
    PlayerEngine::new(&probe(1, 1), false)
}

fn device(sample_rate: u32, channels: u16) -> Option<OutputConfig> {
    Some(OutputConfig { sample_rate, channels, format: OutputFormat::F32 })
}

fn player_for(sample_rate: u32, channels: u16) -> PlayerEngine {
    let mut player = PlayerEngine::new(&probe(1, 1), true);
    assert!(player.configure_sound(device(sample_rate, channels)));
    player.connect_sound(true);
    player
}

fn sounding_player() -> PlayerEngine {
    player_for(1_000, 2)
}

fn at(ticks: i64) -> StreamSpan {
    StreamSpan { ticks, unit: Rational { num: 1, den: 1_000 } }
}

fn frame(millis: i64) -> QueuedFrame {
    QueuedFrame { rgb: vec![1, 2, 3], pts: at(millis) }
}

fn marked(tag: u8) -> Sample {
    Sample(tag, 0, 0, 0)
}

fn ask_at(shared: &mut Shared, n: usize, now: u64) -> Vec<Sample> {
    let mut out = vec![marked(255); n];
    shared.fill_audio(&mut out, now);
    out
}

fn ask(shared: &mut Shared, n: usize) -> Vec<Sample> {
    ask_at(shared, n, 0)
}

#[test]
fn new_player_reports_the_stream() {
    let player = PlayerEngine::new(&probe(640, 360), true);
    assert_eq!(
        player.duration,
        StreamSpan { ticks: 900_000, unit: Rational { num: 1, den: 90_000 } }
    );
    assert_eq!((player.width, player.height), (640, 360));
    assert_eq!(player.fps, Rational { num: 25, den: 1 });
    assert!(player.has_audio);
    assert!(!player.is_eof());
    assert_eq!(player.position(77), 0);
    assert_eq!((player.shared.out_sample_rate, player.shared.out_channels), (48_000, 2));
}

#[test]
fn player_falls_back_on_thirty_pictures_a_second() {
    let mut video = probe(1, 1);
    video.frame_rate = Rational { num: 25, den: 0 };
    video.time_base = Rational { num: 1, den: 0 };
    let player = PlayerEngine::new(&video, false);
    assert_eq!(player.fps, Rational { num: 30, den: 1 });
    assert_eq!(player.duration.unit, Rational { num: 0, den: 1 });
}

#[test]
fn sound_needs_file_device_format_and_stream() {
    let other = Some(OutputConfig { sample_rate: 44_100, channels: 1, format: OutputFormat::Other });
    let cases = [
        (true, device(44_100, 1), true, true),
        (true, device(44_100, 1), false, false),
        (true, other, true, false),
        (true, None, true, false),
        (false, device(44_100, 1), true, false),
    ];
    for (in_file, config, stream_runs, expected) in cases {
        let mut player = PlayerEngine::new(&probe(1, 1), in_file);
        let make_stream = player.configure_sound(config);
        assert_eq!(make_stream, player.has_audio);
        player.connect_sound(stream_runs);
        assert_eq!(player.has_audio, expected);
        assert_eq!(player.shared.has_audio, expected);
        let rate = if in_file && config.is_some() { 44_100 } else { 48_000 };
        assert_eq!(player.shared.out_sample_rate, rate);
    }
}

#[test]
fn wall_clock_moves_while_playing() {
    let mut player = silent_player();
    assert_eq!(player.position(1_000), 0);
    player.play(1_000);
    assert_eq!(player.position(1_000), 0);
    assert_eq!(player.position(1_750), 750);
    assert_eq!(player.position(900), 0);
}

#[test]
fn playing_twice_does_not_restart_the_clock() {
    let mut player = silent_player();
    player.play(1_000);
    player.play(1_500);
    assert_eq!(player.position(2_000), 1_000);
}

#[test]
fn resume_goes_on_where_paused_without_sound() {
    let mut player = silent_player();
    player.play(0);
    player.pause(300);
    assert_eq!(player.position(300), 300);
    assert_eq!(player.position(9_000), 300);
    player.play(9_000);
    assert_eq!(player.position(9_000), 300);
    assert_eq!(player.position(9_100), 400);
}

#[test]
fn resume_goes_on_where_paused_with_sound() {
    let mut player = sounding_player();
    player.play(0);
    ask(&mut player.shared, 20);
    assert_eq!(player.position(0), 10 * MS);
    player.pause(5);
    assert_eq!(player.position(5), 10 * MS);
    for _ in 0..100 {
        ask(&mut player.shared, 20);
    }
    assert_eq!(player.position(6), 10 * MS);
    player.play(7);
    assert_eq!(player.position(7), 10 * MS);
    ask(&mut player.shared, 20);
    assert_eq!(player.position(8), 20 * MS);
    player.pause(9);
    player.pause(9);
    assert_eq!(player.position(9), 20 * MS);
}

#[test]
fn paused_player_is_silent_and_keeps_its_samples() {
    let mut player = sounding_player();
    player.shared.queue_sound(&[1, 0, 0, 0, 2, 0, 0, 0], 1);
    assert_eq!(ask(&mut player.shared, 2), vec![marked(0); 2]);
    player.play(0);
    assert_eq!(ask(&mut player.shared, 2), vec![marked(1), marked(2)]);
}

#[test]
fn sound_comes_out_in_order_with_silence_behind() {
    let mut player = sounding_player();
    player.play(0);
    player.shared.queue_sound(&[1, 0, 0, 0, 2, 0, 0, 0], 1);
    player.shared.queue_sound(&[3, 0, 0, 0, 4, 0, 0, 0], 1);
    assert_eq!(ask(&mut player.shared, 3), vec![marked(1), marked(2), marked(3)]);
    assert_eq!(ask(&mut player.shared, 3), vec![marked(4), marked(0), marked(0)]);
    assert_eq!(ask(&mut player.shared, 0), Vec::<Sample>::new());
}

#[test]
fn silence_moves_the_clock_too() {
    let mut player = sounding_player();
    player.play(0);
    ask(&mut player.shared, 2_000);
    assert_eq!(player.position(0), 1_000 * MS);
    ask(&mut player.shared, 3);
    assert_eq!(player.shared.audio_frames_played, 1_001);
}

#[test]
fn requests_can_be_split() {
    let raw: Vec<u8> = (0..48).collect();
    let mut whole = sounding_player();
    let mut split = sounding_player();
    for player in [&mut whole, &mut split] {
        player.play(0);
        player.shared.queue_sound(&raw, 6);
    }
    let all = ask(&mut whole.shared, 14);
    let mut parts = ask(&mut split.shared, 4);
    parts.extend(ask(&mut split.shared, 10));
    assert_eq!(all, parts);
    assert_eq!(whole.position(0), split.position(0));
}

#[test]
fn zero_channels_and_rate_count_as_one() {
    let mut player = player_for(0, 0);
    player.play(0);
    ask(&mut player.shared, 3);
    assert_eq!(player.position(0), 3_000 * MS);
}

#[test]
fn frame_counter_wraps() {
    let mut player = sounding_player();
    player.play(0);
    ask(&mut player.shared, 0);
    player.shared.audio_frames_played = u64::MAX;
    ask(&mut player.shared, 4);
    assert_eq!(player.shared.audio_frames_played, 1);
}

#[test]
fn positions_saturate() {
    let mut player = sounding_player();
    player.shared.clock_base_pts = Moment::at(i64::MAX - 1);
    player.play(0);
    ask(&mut player.shared, 20);
    assert_eq!(player.position(0), i64::MAX);
}

#[test]
fn short_sound_is_left_out() {
    let mut player = sounding_player();
    player.shared.queue_sound(&[1, 0, 0, 0, 2, 0, 0], 1);
    assert_eq!(player.shared.audio_buf.len(), 0);
    player.shared.queue_sound(&[1, 0, 0, 0, 2, 0, 0, 0, 9], 1);
    assert_eq!(player.shared.audio_buf.len(), 2);
}

#[test]
fn samples_are_groups_of_four_bytes() {
    assert_eq!(
        packed_samples(&[1, 2, 3, 4, 5, 6, 7, 8], 2, 1),
        Some(vec![Sample(1, 2, 3, 4), Sample(5, 6, 7, 8)])
    );
    assert_eq!(packed_samples(&[1, 2, 3, 4, 5, 6, 7, 8], 1, 1), Some(vec![Sample(1, 2, 3, 4)]));
    assert_eq!(packed_samples(&[1, 2, 3, 4], 1, 2), None);
    assert_eq!(packed_samples(&[], 0, 2), Some(Vec::new()));
    assert_eq!(packed_samples(&[], usize::MAX, u16::MAX), None);
    let silence = Sample::silence();
    assert_eq!(f32::from_ne_bytes([silence.0, silence.1, silence.2, silence.3]), 0.0);
}

#[test]
fn seek_holds_the_position_and_the_last_request_counts() {
    let mut player = silent_player();
    player.play(0);
    player.shared.queue_frame(frame(0));
    player.shared.eof = true;
    player.seek(5 * MS, 100);
    assert_eq!(player.position(100), 100);
    assert_eq!(player.position(5_000), 100);
    player.seek(7 * MS, 5_000);
    assert_eq!(player.position(9_000), 100);
    assert_eq!(player.shared.video_q.len(), 1);
    assert_eq!(player.shared.seek_to, Some(7 * MS));
    assert!(!player.shared.eof);
}

#[test]
fn nothing_moves_a_held_position() {
    let mut player = sounding_player();
    player.play(0);
    ask(&mut player.shared, 20);
    player.seek(0, 1);
    assert_eq!(player.position(2), 10 * MS);
    ask(&mut player.shared, 20);
    assert_eq!(player.position(3), 10 * MS);
    player.pause(4);
    assert_eq!(player.position(5), 10 * MS);
    player.play(6);
    assert_eq!(player.position(7), 10 * MS);
}

#[test]
fn arrival_empties_the_queues_and_sets_the_clock() {
    for has_audio in [false, true] {
        let mut shared = Shared::new(has_audio);
        shared.play(0);
        shared.queue_frame(frame(3));
        shared.queue_sound(&[0; 16], 2);
        ask(&mut shared, 2);
        shared.eof = true;
        shared.arrive(42 * MS, 1_000);
        assert_eq!(shared.position(1_000), 42 * MS);
        assert_eq!(shared.video_q.len(), 0);
        assert_eq!(shared.audio_buf.len(), 0);
        assert!(!shared.eof);
        assert!(shared.playing);
    }
}

#[test]
fn clock_can_be_set() {
    let mut shared = Shared::new(false);
    shared.play(0);
    shared.reset_clock(5 * MS, 10);
    assert_eq!(shared.position(11), 5 * MS + 1);
    shared.pause(12);
    shared.reset_clock(7 * MS, 20);
    assert_eq!(shared.position(30), 7 * MS);
    let mut sounding = player_for(1_000, 1).shared;
    sounding.play(0);
    ask(&mut sounding, 4);
    sounding.reset_clock(-MS, 40);
    assert_eq!(sounding.position(50), -MS);
    ask(&mut sounding, 1);
    assert_eq!(sounding.position(60), 0);
}

#[test]
fn wall_clock_counts_until_the_device_asks() {
    let mut player = sounding_player();
    player.play(1_000);
    assert_eq!(player.position(1_000), 0);
    assert_eq!(player.position(4_000), 3_000);
    ask_at(&mut player.shared, 20, 5_000);
    assert_eq!(player.position(5_000), 10 * MS + 4_000);
    assert_eq!(player.position(9_000), 10 * MS + 4_000);
    ask_at(&mut player.shared, 20, 6_000);
    assert_eq!(player.position(9_000), 20 * MS + 4_000);
}

#[test]
fn paused_device_request_does_not_move_the_position() {
    let mut player = sounding_player();
    player.play(0);
    player.pause(700);
    ask_at(&mut player.shared, 20, 900);
    assert_eq!(player.position(950), 700);
    player.play(1_000);
    assert_eq!(player.position(2_000), 700);
}

#[test]
fn picture_is_due_at_a_third_of_a_second_of_sound() {
    let third = || QueuedFrame {
        rgb: vec![1, 2, 3],
        pts: StreamSpan { ticks: 1, unit: Rational { num: 1, den: 3 } },
    };
    let mut player = player_for(48_000, 1);
    player.play(0);
    ask(&mut player.shared, 15_999);
    player.shared.queue_frame(third());
    assert!(player.get_frame(0).unwrap().is_none());
    ask(&mut player.shared, 1);
    assert_eq!(player.position(0), 333_333_333);
    assert!(player.get_frame(0).unwrap().is_some());
    player.shared.queue_frame(third());
    player.pause(0);
    player.play(0);
    assert!(player.get_frame(0).unwrap().is_some());
}

#[test]
fn pause_without_sound_leaves_the_count_of_frames() {
    let mut player = silent_player();
    player.shared.audio_frames_played = 9;
    player.pause(0);
    assert_eq!(player.shared.audio_frames_played, 9);
}

#[test]
fn pictures_wait_for_their_time() {
    let mut player = silent_player();
    player.play(0);
    player.shared.queue_frame(frame(40));
    assert!(player.get_frame(39 * MS as u64).unwrap().is_none());
    let (image, pts) = player.get_frame(40 * MS as u64).unwrap().unwrap();
    assert_eq!(pts, at(40));
    assert_eq!(image.shape(), (1, 1, 3));
    assert_eq!(image.into_pixels(), vec![1, 2, 3]);
    assert!(player.get_frame(41 * MS as u64).unwrap().is_none());
}

#[test]
fn picture_is_late_after_a_tenth_of_a_second() {
    let mut player = silent_player();
    player.play(0);
    player.shared.queue_frame(frame(0));
    assert!(player.get_frame(100 * MS as u64).unwrap().is_some());
    player.shared.queue_frame(frame(0));
    assert!(player.get_frame(100 * MS as u64 + 1).unwrap().is_none());
    assert_eq!(player.shared.video_q.len(), 0);
}

#[test]
fn late_pictures_are_dropped_up_to_the_first_that_is_not() {
    let mut player = silent_player();
    player.play(0);
    for pts in [0, 10, 150, 20, 400] {
        player.shared.queue_frame(frame(pts));
    }
    let (_, pts) = player.get_frame(200 * MS as u64).unwrap().unwrap();
    assert_eq!(pts, at(150));
    let left: Vec<i64> = player.shared.video_q.iter().map(|f| f.pts.ticks).collect();
    assert_eq!(left, vec![20, 400]);
}

#[test]
fn late_pictures_are_dropped_though_none_is_due() {
    let mut player = silent_player();
    player.play(0);
    player.shared.queue_frame(frame(0));
    player.shared.queue_frame(frame(900));
    assert!(player.get_frame(500 * MS as u64).unwrap().is_none());
    assert_eq!(player.shared.video_q.len(), 1);
}

#[test]
fn pictures_come_in_the_order_of_their_times() {
    let mut player = silent_player();
    player.play(0);
    for i in 0..10 {
        player.shared.queue_frame(frame(i * 40));
    }
    let mut shown = Vec::new();
    for tick in 0..80 {
        if let Some((_, pts)) = player.get_frame(tick * 5_000_000).unwrap() {
            shown.push(pts.ticks);
        }
    }
    assert_eq!(shown, vec![0, 40, 80, 120, 160, 200, 240, 280, 320, 360]);
}

#[test]
fn picture_of_the_wrong_size_is_reported_and_gone() {
    let mut player = PlayerEngine::new(&probe(2, 1), false);
    player.play(0);
    player.shared.queue_frame(frame(0));
    assert!(matches!(
        player.get_frame(0),
        Err(MediaError::Array(ShapeFault::OutOfBounds))
    ));
    assert_eq!(player.shared.video_q.len(), 0);
}

#[test]
fn frame_becomes_a_picture_with_its_time() {
    let (image, pts) = frame_image(frame(5), 1, 1).unwrap();
    assert_eq!(pts, at(5));
    assert_eq!(image.shape(), (1, 1, 3));
    assert_eq!(image.into_pixels(), vec![1, 2, 3]);
    assert!(matches!(
        frame_image(frame(5), 1, 0),
        Err(MediaError::Array(ShapeFault::IncompatibleShape))
    ));
}

#[test]
fn end_needs_an_empty_queue() {
    let mut player = silent_player();
    player.play(0);
    player.shared.queue_frame(frame(0));
    player.shared.eof = true;
    assert!(!player.is_eof());
    player.get_frame(0).unwrap();
    assert!(player.is_eof());
}

#[test]
fn close_stops_playback() {
    for mut player in [silent_player(), sounding_player()] {
        player.play(0);
        player.shared.queue_frame(frame(0));
        player.shared.queue_sound(&[1, 0, 0, 0, 2, 0, 0, 0], 1);
        player.close(300);
        assert!(player.shared.stop);
        assert!(!player.shared.playing);
        assert_eq!(player.position(300), 300);
        assert_eq!(ask_at(&mut player.shared, 2, 400), vec![marked(0); 2]);
        assert_eq!(player.position(9_000), 300);
        player.close(10_000);
        assert_eq!(player.position(20_000), 300);
        assert_eq!(player.shared.video_q.len(), 1);
        assert_eq!(player.shared.audio_buf.len(), 2);
    }
}

#[test]
fn decoding_pauses_at_its_limits() {
    let mut shared = Shared::new(true);
    shared.out_sample_rate = 2;
    shared.out_channels = 1;
    assert!(!shared.is_full());
    shared.queue_sound(&[0; 12], 3);
    assert!(!shared.is_full());
    shared.queue_sound(&[0; 4], 1);
    assert!(shared.is_full());
    let mut pictures = Shared::new(false);
    for _ in 0..89 {
        pictures.queue_frame(frame(0));
    }
    assert!(!pictures.is_full());
    pictures.queue_frame(frame(0));
    assert!(pictures.is_full());
}

#[test]
fn taking_pictures_leaves_clock_and_sound() {
    let mut player = sounding_player();
    player.shared.queue_sound(&[1, 0, 0, 0, 2, 0, 0, 0], 1);
    player.play(0);
    ask(&mut player.shared, 400);
    player.shared.queue_sound(&[3, 0, 0, 0, 4, 0, 0, 0], 1);
    for millis in [0, 150, 200, 300] {
        player.shared.queue_frame(frame(millis));
    }
    let front = player.next_frame(0).unwrap();
    assert_eq!((front.pts, front.rgb), (at(150), vec![1, 2, 3]));
    assert_eq!(player.position(0), 200 * MS);
    assert_eq!(player.shared.audio_buf.len(), 2);
    let left: Vec<i64> = player.shared.video_q.iter().map(|f| f.pts.ticks).collect();
    assert_eq!(left, vec![200, 300]);
}
