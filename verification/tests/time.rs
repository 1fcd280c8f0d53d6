use media_engine::time::{
    av_time_base_ts, saturate, stream_ticks, Moment, Rational, StreamSpan,
};

fn unit(num: i32, den: i32) -> Rational {
    Rational { num, den }
}

#[test]
fn time_base_needs_a_positive_denominator() {
    assert_eq!(unit(1, 25).time_base(), unit(1, 25));
    assert_eq!(unit(1, 0).time_base(), unit(0, 1));
    assert_eq!(unit(1, -25).time_base(), unit(0, 1));
    assert_eq!(unit(24000, 1001).or(unit(30, 1)), unit(24000, 1001));
    assert_eq!(unit(24000, 0).or(unit(30, 1)), unit(30, 1));
}

fn span(ticks: i64, num: i32, den: i32) -> StreamSpan {
    StreamSpan { ticks, unit: unit(num, den) }
}

fn over(span: StreamSpan, nanos: i64) -> bool {
    span.is_over_at(Moment::at(nanos), 48_000)
}

fn past(span: StreamSpan, nanos: i64) -> bool {
    span.is_long_over_at(0, Moment::at(nanos), 48_000)
}

#[test]
fn spans_are_compared_without_rounding() {
    assert!(over(span(3, 1, 30), 100_000_000));
    assert!(!past(span(3, 1, 30), 100_000_000));
    assert!(past(span(3, 1, 30), 100_000_001));
    assert!(!over(span(1, 1, 30), 33_333_333));
    assert!(over(span(1, 1, 30), 33_333_334));
    assert!(over(span(-1, 1, 30), -33_333_333));
    assert!(!over(span(-1, 1, 30), -33_333_334));
}

#[test]
fn parts_of_a_nanosecond_count() {
    let third = Moment { nanos: 333_333_333, rest: 16_000 };
    assert!(span(1, 1, 3).is_over_at(third, 48_000));
    assert!(!span(1, 1, 3).is_long_over_at(0, third, 48_000));
    let before = Moment { rest: 15_999, ..third };
    assert!(!span(1, 1, 3).is_over_at(before, 48_000));
    let after = Moment { rest: 16_001, ..third };
    assert!(span(1, 1, 3).is_over_at(after, 48_000));
    assert!(span(1, 1, 3).is_long_over_at(0, after, 48_000));
    assert!(!span(1, 1, 3).is_long_over_at(1, after, 48_000));
    assert!(span(1, 1, 1).is_over_at(Moment { nanos: 999_999_999, rest: 1 }, 0));
    assert!(!span(1, 1, 1).is_long_over_at(0, Moment { nanos: 999_999_999, rest: 1 }, 0));
    assert!(span(1, 1, 1).is_long_over_at(0, Moment { nanos: 999_999_999, rest: 2 }, 0));
}

#[test]
fn span_is_long_over_after_the_delay() {
    assert!(!span(1, 1, 1).is_long_over_at(5, Moment::at(1_000_000_005), 7));
    assert!(span(1, 1, 1).is_long_over_at(5, Moment { nanos: 1_000_000_005, rest: 1 }, 7));
}

#[test]
fn span_without_a_time_base_is_nothing() {
    assert!(over(span(7, 1, 0), 0));
    assert!(!past(span(7, 1, 0), 0));
    assert!(!over(span(7, 0, 30), -1));
}

#[test]
fn longest_spans_are_compared() {
    assert!(!over(span(i64::MAX, i32::MAX, 1), i64::MAX));
    assert!(past(span(i64::MIN, i32::MAX, 1), i64::MIN));
    assert!(over(span(i64::MAX, i32::MIN, 1), i64::MIN));
    let end = Moment { nanos: i64::MAX, rest: u32::MAX };
    assert!(span(0, 1, i32::MAX).is_long_over_at(i64::MAX, end, u32::MAX));
    assert!(!span(3, 1, i32::MAX).is_long_over_at(i64::MAX, end, u32::MAX));
    assert_eq!(saturate(i128::MAX), i64::MAX);
    assert_eq!(saturate(i128::MIN), i64::MIN);
    assert_eq!(saturate(-5), -5);
}

#[test]
fn earlier_ticks_come_earlier() {
    for nanos in (-3_000_000_000..3_000_000_000).step_by(41_708_333) {
        for ticks in -70..70 {
            if over(span(ticks + 1, 1001, 24000), nanos) {
                assert!(over(span(ticks, 1001, 24000), nanos));
            }
            if past(span(ticks + 1, 1001, 24000), nanos) {
                assert!(past(span(ticks, 1001, 24000), nanos));
            }
        }
    }
}

#[test]
fn demuxer_timestamps_are_microseconds_cut_off() {
    assert_eq!(av_time_base_ts(1_500_000_000), 1_500_000);
    assert_eq!(av_time_base_ts(1_999), 1);
    assert_eq!(av_time_base_ts(999), 0);
    assert_eq!(av_time_base_ts(-999), 0);
    assert_eq!(av_time_base_ts(-1_999), -1);
    assert_eq!(av_time_base_ts(i64::MAX), 9_223_372_036_854_775);
    assert_eq!(av_time_base_ts(i64::MIN), -9_223_372_036_854_775);
}

#[test]
fn demuxer_timestamps_keep_order_and_whole_seconds() {
    for seconds in [-9_000_000_000i64, -7, 0, 1, 86_400, 9_000_000_000] {
        assert_eq!(av_time_base_ts(seconds * 1_000_000_000), seconds * 1_000_000);
    }
    for nanos in -5_000..5_000 {
        assert!(av_time_base_ts(nanos) <= av_time_base_ts(nanos + 1));
    }
}

#[test]
fn stream_ticks_are_the_nearest_ones() {
    assert_eq!(stream_ticks(1_500_000_000, unit(1, 90_000)), 135_000);
    assert_eq!(stream_ticks(33_333_333, unit(1, 30)), 1);
    assert_eq!(stream_ticks(16_666_666, unit(1, 30)), 0);
    assert_eq!(stream_ticks(16_666_667, unit(1, 30)), 1);
}

#[test]
fn half_a_tick_goes_away_from_zero() {
    assert_eq!(stream_ticks(500_000_000, unit(1, 1)), 1);
    assert_eq!(stream_ticks(-500_000_000, unit(1, 1)), -1);
    assert_eq!(stream_ticks(1_500_000_000, unit(1, 1)), 2);
    assert_eq!(stream_ticks(2_500_000_000, unit(1, 1)), 3);
}

#[test]
fn stream_ticks_without_a_time_base() {
    assert_eq!(stream_ticks(1, unit(1, 0)), i64::MAX);
    assert_eq!(stream_ticks(-1, unit(0, 5)), i64::MIN);
    assert_eq!(stream_ticks(0, unit(0, 5)), 0);
}

#[test]
fn stream_ticks_of_a_stream_that_counts_backwards() {
    assert_eq!(stream_ticks(2_000_000_000, unit(-1, 1)), -2);
    assert_eq!(stream_ticks(i64::MAX, unit(1, i32::MAX)), i64::MAX);
    assert_eq!(stream_ticks(i64::MAX, unit(-1, i32::MAX)), i64::MIN);
}

#[test]
fn sound_takes_its_time() {
    let start = Moment::at(5);
    assert_eq!(start.after_frames(48_000, 48_000), Moment::at(1_000_000_005));
    assert_eq!(start.after_frames(1, 48_000), Moment { nanos: 20_838, rest: 16_000 });
    assert_eq!(start.after_frames(3, 0), Moment::at(3_000_000_005));
    assert_eq!(start.after_frames(0, 44_100), start);
    assert_eq!(start.after_frames(u64::MAX, 1), Moment::at(i64::MAX));
    assert_eq!(Moment { nanos: 7, rest: 3 }.after_nanos(2), Moment { nanos: 9, rest: 3 });
}

#[test]
fn sound_in_parts_takes_the_time_of_the_whole() {
    let mut moment = Moment::at(0);
    for _ in 0..3 {
        moment = moment.after_frames(1, 48_000);
        assert_eq!(moment.after_frames(0, 48_000), moment);
    }
    assert_eq!(moment, Moment::at(62_500));
    for frames in 0..100 {
        let next = moment.after_frames(frames + 1, 44_100);
        assert!(moment.after_frames(frames, 44_100).nanos <= next.nanos);
    }
}

#[test]
fn time_of_a_tick_leads_back() {
    for ticks in -300..300 {
        assert_eq!(stream_ticks(ticks * 40_000_000, unit(1, 25)), ticks);
        assert_eq!(stream_ticks(ticks * 2_000_000_000, unit(2, 1)), ticks);
    }
}
