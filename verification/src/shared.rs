//! What the decode thread, the sound device and the caller share: the clock,
//! the queue of pictures, the buffer of samples and the flags that steer them.
use crate::sample::{
    law_samples_keep_their_bytes, packed_samples, spec_packed_samples, Sample,
};
use crate::time::{
    law_more_sound_takes_more_time, law_no_sound_takes_no_time, law_sound_takes_exactly_its_time,
    nearest_i64, Moment, StreamSpan,
};
use std::collections::VecDeque;
use vstd::prelude::*;

verus! {

/// Pictures decoded ahead of the clock before decoding waits: about three
/// seconds at thirty a second.
pub const MAX_VIDEO_FRAMES: usize = 90;

/// A picture this much behind the clock is dropped: a tenth of a second.
pub const LATE_FRAME_DROP_NANOS: i64 = 100_000_000;

/// Seconds of sound decoded ahead before decoding waits.
pub const AUDIO_AHEAD_SECONDS: u64 = 2;

/// Frames of sound a second, until the sound device has named its rate.
pub const DEFAULT_SAMPLE_RATE: u32 = 48_000;

/// Channels of sound, until the sound device has named its own.
pub const DEFAULT_CHANNELS: u16 = 2;

/// A decoded picture that waits for its time.
#[derive(Debug)]
pub struct QueuedFrame {
    /// Red, green and blue bytes, row after row.
    pub rgb: Vec<u8>,
    /// When it is shown.
    pub pts: StreamSpan,
}

/// What the decode thread, the sound device and the caller share.
#[derive(Debug)]
pub struct Shared {
    pub video_q: VecDeque<QueuedFrame>,
    /// Samples of all channels in turn, at the device's rate.
    pub audio_buf: VecDeque<Sample>,
    /// Frames of sound handed to the device since the clock's base was set; a
    /// frame is one sample for each channel.
    pub audio_frames_played: u64,
    /// The device has asked for samples.
    pub audio_started: bool,
    pub out_sample_rate: u32,
    pub out_channels: u16,
    pub has_audio: bool,
    /// Where the decode thread is to go next, in nanoseconds.
    pub seek_to: Option<i64>,
    pub playing: bool,
    pub stop: bool,
    pub eof: bool,
    /// The position from which the clock counts.
    pub clock_base_pts: Moment,
    /// When the clock began to count, where no sound counts for it.
    pub clock_base_wall: Option<u64>,
    /// The position while a jump is asked for and not yet made or refused.
    pub frozen_at: Option<Moment>,
}

/// A [`Shared`] with its queues as sequences.
#[verifier::ext_equal]
pub struct SharedModel {
    pub video_q: Seq<QueuedFrame>,
    pub audio_buf: Seq<Sample>,
    pub audio_frames_played: u64,
    pub audio_started: bool,
    pub out_sample_rate: u32,
    pub out_channels: u16,
    pub has_audio: bool,
    pub seek_to: Option<i64>,
    pub playing: bool,
    pub stop: bool,
    pub eof: bool,
    pub clock_base_pts: Moment,
    pub clock_base_wall: Option<u64>,
    pub frozen_at: Option<Moment>,
}

impl View for Shared {
    type V = SharedModel;

    open spec fn view(&self) -> SharedModel {
        SharedModel {
            video_q: self.video_q@,
            audio_buf: self.audio_buf@,
            audio_frames_played: self.audio_frames_played,
            audio_started: self.audio_started,
            out_sample_rate: self.out_sample_rate,
            out_channels: self.out_channels,
            has_audio: self.has_audio,
            seek_to: self.seek_to,
            playing: self.playing,
            stop: self.stop,
            eof: self.eof,
            clock_base_pts: self.clock_base_pts,
            clock_base_wall: self.clock_base_wall,
            frozen_at: self.frozen_at,
        }
    }
}

/// A picture for time `pts` is out of date at `moment`.
pub open spec fn stale(pts: StreamSpan, moment: Moment, rate: u32) -> bool {
    pts.long_over_at(LATE_FRAME_DROP_NANOS, moment, rate)
}

/// How many pictures at the front of the queue are out of date.
pub open spec fn stale_count(q: Seq<QueuedFrame>, moment: Moment, rate: u32) -> nat
    decreases q.len(),
{
    if q.len() > 0 && stale(q[0].pts, moment, rate) {
        1 + stale_count(q.skip(1), moment, rate)
    } else {
        0
    }
}

/// Nanoseconds from `start` to `now`, none if `now` is the earlier one.
pub open spec fn elapsed(start: u64, now: u64) -> u64 {
    if now >= start {
        (now - start) as u64
    } else {
        0
    }
}

impl SharedModel {
    /// A player at zero that neither plays nor holds anything.
    pub open spec fn idle(has_audio: bool) -> SharedModel {
        SharedModel {
            video_q: Seq::empty(),
            audio_buf: Seq::empty(),
            audio_frames_played: 0,
            audio_started: false,
            out_sample_rate: DEFAULT_SAMPLE_RATE,
            out_channels: DEFAULT_CHANNELS,
            has_audio,
            seek_to: None,
            playing: false,
            stop: false,
            eof: false,
            clock_base_pts: Moment::spec_at(0),
            clock_base_wall: None,
            frozen_at: None,
        }
    }

    /// Sound counts for the clock: there is some, and the device has asked for
    /// it.
    pub open spec fn sound_counts(self) -> bool {
        self.has_audio && self.audio_started
    }

    /// What the clock shows at wall time `now`. Where sound counts, it is the
    /// base and the sound handed out since. Without sound, and before the
    /// device has asked for any, it is the base and the wall time played since.
    pub open spec fn clock(self, now: u64) -> Moment {
        if self.sound_counts() {
            self.clock_base_pts.spec_after_frames(self.audio_frames_played, self.out_sample_rate)
        } else {
            match self.clock_base_wall {
                Some(start) if self.playing => self.clock_base_pts.spec_after_nanos(
                    elapsed(start, now),
                ),
                _ => self.clock_base_pts,
            }
        }
    }

    /// The exact position at wall time `now`: what the clock shows, but while
    /// a jump is asked for, what it showed then.
    pub open spec fn moment(self, now: u64) -> Moment {
        match self.frozen_at {
            Some(moment) => moment,
            None => self.clock(now),
        }
    }

    /// The position at wall time `now`, in whole nanoseconds.
    pub open spec fn position(self, now: u64) -> i64 {
        self.moment(now).nanos
    }

    /// The clock set to `pts` at wall time `now`.
    pub open spec fn reset_clock(self, pts: i64, now: u64) -> SharedModel {
        SharedModel {
            clock_base_pts: Moment::spec_at(pts),
            clock_base_wall: Some(now),
            audio_frames_played: 0,
            frozen_at: None,
            ..self
        }
    }

    /// Playing from wall time `now`; a player that plays already goes on.
    pub open spec fn play(self, now: u64) -> SharedModel {
        if self.playing {
            self
        } else {
            SharedModel { playing: true, clock_base_wall: Some(now), ..self }
        }
    }

    /// Paused, with the position of that moment as the clock's base.
    pub open spec fn pause(self, now: u64) -> SharedModel {
        SharedModel {
            clock_base_pts: self.moment(now),
            audio_frames_played: if self.has_audio {
                0
            } else {
                self.audio_frames_played
            },
            playing: false,
            ..self
        }
    }

    /// Paused, with the decode thread told to end.
    pub open spec fn close(self, now: u64) -> SharedModel {
        SharedModel { stop: true, ..self.pause(now) }
    }

    /// Asked to go to `target`. The position stands still until that is done.
    pub open spec fn request_seek(self, target: i64, now: u64) -> SharedModel {
        SharedModel {
            eof: false,
            seek_to: Some(target),
            frozen_at: Some(self.moment(now)),
            ..self
        }
    }

    /// Gone to `target`: nothing of the old place is left. If another jump has
    /// been asked for meanwhile, the position stands still here.
    pub open spec fn arrive(self, target: i64, now: u64) -> SharedModel {
        SharedModel {
            video_q: Seq::empty(),
            audio_buf: Seq::empty(),
            eof: false,
            frozen_at: if self.seek_to is Some {
                Some(Moment::spec_at(target))
            } else {
                None
            },
            ..self.reset_clock(target, now)
        }
    }

    /// Not gone anywhere: the position is what the clock shows again, unless
    /// another jump has been asked for meanwhile.
    pub open spec fn stay(self) -> SharedModel {
        SharedModel {
            frozen_at: if self.seek_to is Some {
                self.frozen_at
            } else {
                None
            },
            ..self
        }
    }

    /// The samples that the device gets when it asks for `n`: those that wait,
    /// in their order, and silence where none is left; only silence while the
    /// player is paused.
    pub open spec fn sound(self, n: nat) -> Seq<Sample> {
        Seq::new(
            n,
            |i: int|
                if self.playing && i < self.audio_buf.len() {
                    self.audio_buf[i]
                } else {
                    Sample::spec_silence()
                },
        )
    }

    /// Frames of sound in `n` samples.
    pub open spec fn frames_in(self, n: nat) -> nat {
        if self.out_channels == 0 {
            n
        } else {
            n / (self.out_channels as nat)
        }
    }

    /// The device asks for sound at wall time `now`. The first time, sound
    /// begins to count for the clock, from the position of that moment.
    pub open spec fn start_sound(self, now: u64) -> SharedModel {
        if self.has_audio && !self.audio_started {
            SharedModel {
                clock_base_pts: Moment::spec_at(self.clock(now).nanos),
                audio_frames_played: 0,
                audio_started: true,
                ..self
            }
        } else {
            self
        }
    }

    /// With `n` samples handed out: they have left the buffer and the clock has
    /// moved on by their frames, unless the player is paused.
    pub open spec fn hand_out(self, n: nat) -> SharedModel {
        if self.playing {
            SharedModel {
                audio_buf: if n < self.audio_buf.len() {
                    self.audio_buf.skip(n as int)
                } else {
                    Seq::empty()
                },
                audio_frames_played: ((self.audio_frames_played + self.frames_in(n))
                    % 0x1_0000_0000_0000_0000) as u64,
                ..self
            }
        } else {
            self
        }
    }

    /// After the device asked for `n` samples at wall time `now`.
    pub open spec fn after_sound(self, n: nat, now: u64) -> SharedModel {
        self.start_sound(now).hand_out(n)
    }

    /// With the pictures dropped that are out of date at `moment`.
    pub open spec fn drop_stale(self, moment: Moment) -> SharedModel {
        SharedModel {
            video_q: self.video_q.skip(
                stale_count(self.video_q, moment, self.out_sample_rate) as int,
            ),
            ..self
        }
    }

    /// The picture at the front is due at `moment`.
    pub open spec fn due(self, moment: Moment) -> bool {
        self.video_q.len() > 0 && self.video_q[0].pts.over_at(moment, self.out_sample_rate)
    }

    /// With the front picture taken off.
    pub open spec fn drop_front(self) -> SharedModel {
        SharedModel { video_q: self.video_q.skip(1), ..self }
    }

    /// With `frame` behind all others.
    pub open spec fn queue_frame(self, frame: QueuedFrame) -> SharedModel {
        SharedModel { video_q: self.video_q.push(frame), ..self }
    }

    /// With the samples behind all others that `frames` frames of sound in
    /// `raw` hold; unchanged if `raw` is too short for them.
    pub open spec fn queue_sound(self, raw: Seq<u8>, frames: usize) -> SharedModel {
        match spec_packed_samples(raw, frames * self.out_channels) {
            Some(samples) => SharedModel { audio_buf: self.audio_buf + samples, ..self },
            None => self,
        }
    }

    /// Samples that wait before decoding does.
    pub open spec fn audio_limit(self) -> int {
        self.out_sample_rate * self.out_channels * AUDIO_AHEAD_SECONDS
    }

    /// Enough is decoded for now.
    pub open spec fn full(self) -> bool {
        self.video_q.len() >= MAX_VIDEO_FRAMES || self.audio_buf.len() >= self.audio_limit()
    }
}

impl Shared {
    /// A player at zero that neither plays nor holds anything.
    pub fn new(has_audio: bool) -> (shared: Shared)
        ensures
            shared@ == SharedModel::idle(has_audio),
    {
        Shared {
            video_q: VecDeque::new(),
            audio_buf: VecDeque::new(),
            audio_frames_played: 0,
            audio_started: false,
            out_sample_rate: DEFAULT_SAMPLE_RATE,
            out_channels: DEFAULT_CHANNELS,
            has_audio,
            seek_to: None,
            playing: false,
            stop: false,
            eof: false,
            clock_base_pts: Moment::at(0),
            clock_base_wall: None,
            frozen_at: None,
        }
    }

    /// What the clock shows at wall time `now`.
    pub fn clock(&self, now: u64) -> (moment: Moment)
        ensures
            moment == self@.clock(now),
    {
        if self.has_audio && self.audio_started {
            self.clock_base_pts.after_frames(self.audio_frames_played, self.out_sample_rate)
        } else {
            match self.clock_base_wall {
                Some(start) if self.playing => {
                    let since: u64 = if now >= start {
                        now - start
                    } else {
                        0
                    };
                    self.clock_base_pts.after_nanos(since)
                },
                _ => self.clock_base_pts,
            }
        }
    }

    /// The exact position at wall time `now`.
    pub fn moment(&self, now: u64) -> (moment: Moment)
        ensures
            moment == self@.moment(now),
    {
        match self.frozen_at {
            Some(moment) => moment,
            None => self.clock(now),
        }
    }

    /// The position at wall time `now`, in whole nanoseconds.
    pub fn position(&self, now: u64) -> (position: i64)
        ensures
            position == self@.position(now),
    {
        self.moment(now).nanos
    }

    /// Sets the clock to `pts` at wall time `now`.
    pub fn reset_clock(&mut self, pts: i64, now: u64)
        ensures
            final(self)@ == old(self)@.reset_clock(pts, now),
    {
        self.clock_base_pts = Moment::at(pts);
        self.clock_base_wall = Some(now);
        self.audio_frames_played = 0;
        self.frozen_at = None;
    }

    /// Starts playing, or goes on.
    pub fn play(&mut self, now: u64)
        ensures
            final(self)@ == old(self)@.play(now),
    {
        if !self.playing {
            self.playing = true;
            self.clock_base_wall = Some(now);
        }
    }

    /// Pauses. The position of this moment becomes the clock's base, so that
    /// the player goes on from here.
    pub fn pause(&mut self, now: u64)
        ensures
            final(self)@ == old(self)@.pause(now),
    {
        self.clock_base_pts = self.moment(now);
        if self.has_audio {
            self.audio_frames_played = 0;
        }
        self.playing = false;
    }

    /// Pauses and tells the decode thread to end.
    pub fn close(&mut self, now: u64)
        ensures
            final(self)@ == old(self)@.close(now),
    {
        self.pause(now);
        self.stop = true;
    }

    /// Asks the decode thread to go to `target`, and holds the position until
    /// it has answered.
    pub fn request_seek(&mut self, target: i64, now: u64)
        ensures
            final(self)@ == old(self)@.request_seek(target, now),
    {
        self.frozen_at = Some(self.moment(now));
        self.eof = false;
        self.seek_to = Some(target);
    }

    /// Throws away what was decoded for the old place and sets the clock to
    /// `target`, once the demuxer has gone there.
    pub fn arrive(&mut self, target: i64, now: u64)
        ensures
            final(self)@ == old(self)@.arrive(target, now),
    {
        self.video_q.clear();
        self.audio_buf.clear();
        self.reset_clock(target, now);
        if self.seek_to.is_some() {
            self.frozen_at = Some(Moment::at(target));
        }
        self.eof = false;
    }

    /// Lets the clock show the position again, once the demuxer has refused to
    /// go where it was asked to.
    pub fn stay(&mut self)
        ensures
            final(self)@ == old(self)@.stay(),
    {
        if self.seek_to.is_none() {
            self.frozen_at = None;
        }
    }

    fn start_sound(&mut self, now: u64)
        ensures
            final(self)@ == old(self)@.start_sound(now),
    {
        if self.has_audio && !self.audio_started {
            self.clock_base_pts = Moment::at(self.clock(now).nanos);
            self.audio_frames_played = 0;
            self.audio_started = true;
        }
    }

    /// Fills `out` for the sound device at wall time `now`. A player that plays
    /// hands out the samples that wait and silence where none is left, and its
    /// clock moves on by what was asked for. A paused player is silent and
    /// keeps its samples and its time. From the first time on, sound counts for
    /// the clock.
    pub fn fill_audio(&mut self, out: &mut Vec<Sample>, now: u64)
        ensures
            final(out)@ == old(self)@.sound(old(out)@.len()),
            final(self)@ == old(self)@.after_sound(old(out)@.len(), now),
    {
        let n: usize = out.len();
        self.start_sound(now);
        let ghost start = self@;
        let mut i: usize = 0;
        while i < n
            invariant
                i <= n,
                n == out@.len(),
                self@ == (SharedModel { audio_buf: self.audio_buf@, ..start }),
                self.audio_buf@ == if start.playing {
                    start.hand_out(i as nat).audio_buf
                } else {
                    start.audio_buf
                },
                forall|j: int| 0 <= j < i ==> out@[j] == #[trigger] start.sound(n as nat)[j],
            decreases n - i,
        {
            let waiting = if self.playing {
                self.audio_buf.pop_front()
            } else {
                None
            };
            match waiting {
                Some(sample) => {
                    out[i] = sample;
                },
                None => {
                    out[i] = Sample::silence();
                },
            }
            i = i + 1;
            assert(start.playing ==> self.audio_buf@ =~= start.hand_out(i as nat).audio_buf);
        }
        assert(out@ =~= start.sound(n as nat));
        assert(start.sound(n as nat) =~= old(self)@.sound(n as nat));
        if self.playing {
            let channels: usize = if self.out_channels == 0 {
                1
            } else {
                self.out_channels as usize
            };
            self.audio_frames_played = self.audio_frames_played.wrapping_add((n / channels) as u64);
        }
    }

    /// Drops the pictures at the front that are out of date at `moment` and
    /// takes the next one if its time has come.
    pub fn take_due_frame(&mut self, moment: Moment) -> (frame: Option<QueuedFrame>)
        ensures
            ({
                let rest = old(self)@.drop_stale(moment);
                if rest.due(moment) {
                    &&& frame == Some(rest.video_q[0])
                    &&& final(self)@ == rest.drop_front()
                } else {
                    &&& frame is None
                    &&& final(self)@ == rest
                }
            }),
    {
        let rate: u32 = self.out_sample_rate;
        let ghost start = self@;
        let ghost mut dropped: int = 0;
        while self.video_q.len() > 0 && self.video_q[0].pts.is_long_over_at(
            LATE_FRAME_DROP_NANOS,
            moment,
            rate,
        )
            invariant
                self@ == (SharedModel { video_q: self.video_q@, ..start }),
                0 <= dropped <= start.video_q.len(),
                self.video_q@ == start.video_q.skip(dropped),
                stale_count(start.video_q, moment, rate) == dropped + stale_count(
                    self.video_q@,
                    moment,
                    rate,
                ),
            decreases self.video_q@.len(),
        {
            let _ = self.video_q.pop_front();
            proof {
                dropped = dropped + 1;
                assert(self.video_q@ =~= start.video_q.skip(dropped));
                assert(self.video_q@ =~= start.video_q.skip(dropped - 1).skip(1));
            }
        }
        assert(stale_count(self.video_q@, moment, rate) == 0);
        assert(self@ =~= start.drop_stale(moment));
        if self.video_q.len() > 0 && self.video_q[0].pts.is_over_at(moment, rate) {
            let frame = self.video_q.pop_front();
            assert(self.video_q@ =~= start.drop_stale(moment).video_q.skip(1));
            frame
        } else {
            None
        }
    }

    /// Puts a picture behind all others.
    pub fn queue_frame(&mut self, frame: QueuedFrame)
        ensures
            final(self)@ == old(self)@.queue_frame(frame),
    {
        self.video_q.push_back(frame);
    }

    /// Puts the samples of `frames` frames of sound behind all others, if `raw`
    /// holds them.
    pub fn queue_sound(&mut self, raw: &[u8], frames: usize)
        ensures
            final(self)@ == old(self)@.queue_sound(raw@, frames),
    {
        if let Some(samples) = packed_samples(raw, frames, self.out_channels) {
            let ghost start = self@;
            let mut i: usize = 0;
            while i < samples.len()
                invariant
                    i <= samples@.len(),
                    self@ == (SharedModel { audio_buf: self.audio_buf@, ..start }),
                    self.audio_buf@ == start.audio_buf + samples@.take(i as int),
                decreases samples@.len() - i,
            {
                self.audio_buf.push_back(samples[i]);
                i = i + 1;
                assert(self.audio_buf@ =~= start.audio_buf + samples@.take(i as int));
            }
            assert(samples@.take(i as int) =~= samples@);
        }
    }

    /// Whether enough is decoded for now.
    pub fn is_full(&self) -> (full: bool)
        ensures
            full == self@.full(),
    {
        let rate: u64 = self.out_sample_rate as u64;
        let channels: u64 = self.out_channels as u64;
        assert(0 <= rate * channels <= 0xffff_ffff * 0xffff) by (nonlinear_arith)
            requires
                0 <= rate <= 0xffff_ffff,
                0 <= channels <= 0xffff,
        ;
        assert(AUDIO_AHEAD_SECONDS == 2);
        let limit: u64 = rate * channels * AUDIO_AHEAD_SECONDS;
        self.video_q.len() >= MAX_VIDEO_FRAMES || self.audio_buf.len() as u64 >= limit
    }
}

/// The device asks for so many samples at this wall time.
pub struct Request {
    pub samples: nat,
    pub now: u64,
}

/// After the device asked for samples as often as there are `requests`.
pub open spec fn after_requests(shared: SharedModel, requests: Seq<Request>) -> SharedModel
    decreases requests.len(),
{
    if requests.len() == 0 {
        shared
    } else {
        after_requests(shared, requests.drop_last()).after_sound(
            requests.last().samples,
            requests.last().now,
        )
    }
}

/// Pausing does not move the position, and it then stands still whatever time
/// goes by.
pub proof fn law_pause_holds_the_position(shared: SharedModel, now: u64, later: u64)
    ensures
        shared.pause(now).moment(later) == shared.moment(now),
        shared.pause(now).position(later) == shared.position(now),
{
    law_no_sound_takes_no_time(
        shared.clock_base_pts,
        shared.audio_frames_played,
        shared.out_sample_rate,
    );
}

/// A paused player goes on exactly where it was paused, however long the
/// pause lasted and however often the sound device asked for samples.
pub proof fn law_resume_goes_on_where_paused(
    shared: SharedModel,
    paused_at: u64,
    requests: Seq<Request>,
    resumed_at: u64,
)
    ensures
        after_requests(shared.pause(paused_at), requests).play(resumed_at).position(resumed_at)
            == shared.position(paused_at),
        after_requests(shared.pause(paused_at), requests).audio_buf == shared.audio_buf,
{
    law_pause_holds_the_position(shared, paused_at, resumed_at);
    lemma_pause_survives_requests(shared.pause(paused_at), requests, resumed_at);
    law_play_keeps_the_position(
        after_requests(shared.pause(paused_at), requests),
        resumed_at,
        resumed_at,
    );
}

proof fn lemma_pause_survives_requests(shared: SharedModel, requests: Seq<Request>, later: u64)
    requires
        !shared.playing,
    ensures
        ({
            let after = after_requests(shared, requests);
            &&& after == (SharedModel {
                clock_base_pts: after.clock_base_pts,
                audio_frames_played: after.audio_frames_played,
                audio_started: after.audio_started,
                ..shared
            })
            &&& after.position(later) == shared.position(later)
        }),
    decreases requests.len(),
{
    if requests.len() > 0 {
        lemma_pause_survives_requests(shared, requests.drop_last(), later);
        let before = after_requests(shared, requests.drop_last());
        law_no_sound_takes_no_time(before.clock_base_pts, 0, shared.out_sample_rate);
    }
}

/// A closed player has stopped: its position stays what it was, whatever time
/// goes by and however often the sound device asks for samples, and its sound
/// stays unplayed. The pictures that wait are kept, and closing again changes
/// nothing.
pub proof fn law_close_stops_playback(
    shared: SharedModel,
    now: u64,
    requests: Seq<Request>,
    later: u64,
)
    ensures
        ({
            let closed = shared.close(now);
            let after = after_requests(closed, requests);
            &&& after.position(later) == shared.position(now)
            &&& !after.playing
            &&& after.stop
            &&& after.video_q == shared.video_q
            &&& after.audio_buf == shared.audio_buf
            &&& closed.close(later) == closed
        }),
{
    law_pause_holds_the_position(shared, now, later);
    lemma_pause_survives_requests(shared.close(now), requests, later);
    assert(shared.close(now).moment(later) == shared.pause(now).moment(later));
}

/// Starting to play does not move the position, and starting twice is starting
/// once.
pub proof fn law_play_keeps_the_position(shared: SharedModel, now: u64, again: u64)
    ensures
        shared.play(now).position(now) == shared.position(now),
        shared.play(now).play(again) == shared.play(now),
{
}

/// Time that goes by never moves the position back.
pub proof fn law_time_moves_the_clock_forward(shared: SharedModel, now: u64, later: u64)
    requires
        now <= later,
    ensures
        shared.position(now) <= shared.position(later),
{
}

/// A player without sound, or one whose device has not asked for sound yet,
/// moves on by the wall time that it plays, from where it stood, up to the
/// latest position there is.
pub proof fn law_wall_clock_keeps_time(shared: SharedModel, now: u64, later: u64)
    requires
        now <= later,
        !shared.sound_counts(),
        !shared.playing,
        shared.frozen_at is None,
    ensures
        shared.play(now).playing,
        shared.play(now).position(later) == nearest_i64(shared.position(now) + (later - now)),
{
}

/// Sound handed to the device never moves the position back, not even the
/// first time, when sound takes over from the wall clock. Where no jump is
/// asked for, the position moves by the time that all frames since the base
/// take. The count of frames starts again after all that a counter of this
/// size can hold.
pub proof fn law_sound_moves_the_clock(shared: SharedModel, n: nat, now: u64, later: u64)
    requires
        shared.has_audio,
        shared.start_sound(now).audio_frames_played + shared.frames_in(n) <= u64::MAX,
    ensures
        shared.after_sound(n, now).position(later) >= shared.position(now),
        shared.playing && shared.frozen_at is None ==> shared.after_sound(n, now).moment(later)
            == shared.start_sound(now).clock_base_pts.spec_after_frames(
            (shared.start_sound(now).audio_frames_played + shared.frames_in(n)) as u64,
            shared.out_sample_rate,
        ),
{
    let start = shared.start_sound(now);
    let before = start.audio_frames_played;
    let total = before + shared.frames_in(n);
    vstd::arithmetic::div_mod::lemma_small_mod(total as nat, 0x1_0000_0000_0000_0000);
    law_more_sound_takes_more_time(
        start.clock_base_pts,
        before,
        total as u64,
        shared.out_sample_rate,
    );
    law_no_sound_takes_no_time(start.clock_base_pts, 0, shared.out_sample_rate);
}

/// Setting the clock takes effect at once, whatever it showed before. It stays
/// there while no sound is handed out, where sound counts, and while the player
/// is paused; else it moves on by the wall time. Nothing but the clock changes.
pub proof fn law_clock_can_be_set(shared: SharedModel, pts: i64, now: u64, later: u64)
    requires
        now <= later,
    ensures
        ({
            let set = shared.reset_clock(pts, now);
            &&& set.position(now) == pts
            &&& set.position(later) == if shared.sound_counts() || !shared.playing {
                pts
            } else {
                nearest_i64(pts + (later - now))
            }
            &&& set.video_q == shared.video_q && set.audio_buf == shared.audio_buf
            &&& set.playing == shared.playing && set.stop == shared.stop && set.eof == shared.eof
            &&& set.seek_to == shared.seek_to
            &&& set.has_audio == shared.has_audio && set.audio_started == shared.audio_started
            &&& set.out_sample_rate == shared.out_sample_rate
            &&& set.out_channels == shared.out_channels
        }),
{
    law_no_sound_takes_no_time(Moment::spec_at(pts), 0, shared.out_sample_rate);
}

/// Asking for a jump holds the position where it is, and nothing is lost yet;
/// of several requests the last counts.
pub proof fn law_seek_request_freezes_the_clock(
    shared: SharedModel,
    first: i64,
    second: i64,
    now: u64,
    later: u64,
)
    ensures
        shared.request_seek(first, now).position(later) == shared.position(now),
        shared.request_seek(first, now).video_q == shared.video_q,
        shared.request_seek(first, now).audio_buf == shared.audio_buf,
        shared.request_seek(first, now).request_seek(second, later) == shared.request_seek(
            second,
            now,
        ),
{
}

/// While a jump is asked for, no command and no request of the device moves
/// the position.
pub proof fn law_frozen_clock_stands(
    shared: SharedModel,
    moment: Moment,
    n: nat,
    now: u64,
    later: u64,
)
    requires
        shared.frozen_at == Some(moment),
    ensures
        shared.moment(later) == moment,
        shared.play(now).moment(later) == moment,
        shared.pause(now).moment(later) == moment,
        shared.after_sound(n, now).moment(later) == moment,
{
}

/// After a jump the position is the one asked for, and nothing decoded before
/// it is left.
pub proof fn law_arrival_is_at_the_target(shared: SharedModel, target: i64, now: u64)
    ensures
        shared.arrive(target, now).position(now) == target,
        shared.arrive(target, now).video_q.len() == 0,
        shared.arrive(target, now).audio_buf.len() == 0,
        !shared.arrive(target, now).eof,
        shared.arrive(target, now).playing == shared.playing,
{
    law_no_sound_takes_no_time(Moment::spec_at(target), 0, shared.out_sample_rate);
}

/// The pictures that are dropped are the ones in front of the first that is
/// not out of date, and all of those.
pub proof fn law_only_stale_pictures_are_dropped(q: Seq<QueuedFrame>, moment: Moment, rate: u32)
    ensures
        stale_count(q, moment, rate) <= q.len(),
        forall|i: int|
            0 <= i < stale_count(q, moment, rate) ==> stale(#[trigger] q[i].pts, moment, rate),
        stale_count(q, moment, rate) < q.len() ==> !stale(
            q[stale_count(q, moment, rate) as int].pts,
            moment,
            rate,
        ),
    decreases q.len(),
{
    if q.len() > 0 && stale(q[0].pts, moment, rate) {
        let rest = q.skip(1);
        law_only_stale_pictures_are_dropped(rest, moment, rate);
        let k = stale_count(q, moment, rate);
        assert forall|i: int| 0 <= i < k implies stale(#[trigger] q[i].pts, moment, rate) by {
            if i > 0 {
                assert(rest[i - 1] == q[i]);
            }
        }
        if k < q.len() {
            assert(rest[k - 1] == q[k as int]);
        }
    }
}

/// A picture is shown neither before its time nor when it is out of date.
pub proof fn law_shown_picture_is_in_time(shared: SharedModel, moment: Moment)
    requires
        shared.drop_stale(moment).due(moment),
    ensures
        ({
            let pts = shared.drop_stale(moment).video_q[0].pts;
            let rate = shared.out_sample_rate;
            pts.over_at(moment, rate) && !pts.long_over_at(LATE_FRAME_DROP_NANOS, moment, rate)
        }),
{
    law_only_stale_pictures_are_dropped(shared.video_q, moment, shared.out_sample_rate);
}

/// The queue holds pictures of one stream in the order of their times.
pub open spec fn in_order(q: Seq<QueuedFrame>) -> bool {
    forall|i: int, j: int|
        #![trigger q[i], q[j]]
        0 <= i <= j < q.len() ==> q[i].pts.unit == q[j].pts.unit && q[i].pts.ticks
            <= q[j].pts.ticks
}

/// Pictures that were queued in the order of their times are shown in it: what
/// stays in the queue is in order and not before the one that is shown.
pub proof fn law_pictures_are_shown_in_order(shared: SharedModel, moment: Moment)
    requires
        in_order(shared.video_q),
        shared.drop_stale(moment).due(moment),
    ensures
        ({
            let rest = shared.drop_stale(moment);
            &&& in_order(rest.drop_front().video_q)
            &&& forall|i: int|
                0 <= i < rest.drop_front().video_q.len() ==> rest.video_q[0].pts.ticks <= (
                #[trigger] rest.drop_front().video_q[i]).pts.ticks
        }),
{
    let k = stale_count(shared.video_q, moment, shared.out_sample_rate) as int;
    law_only_stale_pictures_are_dropped(shared.video_q, moment, shared.out_sample_rate);
    let rest = shared.drop_stale(moment);
    let left = rest.drop_front().video_q;
    assert(rest.video_q[0] == shared.video_q[k]);
    assert forall|i: int| 0 <= i < left.len() implies #[trigger] left[i] == shared.video_q[k + 1
        + i] by {}
}

/// A queue in order stays so when a picture of the same stream is queued that
/// is not before the last one.
pub proof fn law_queue_in_order_stays_so(shared: SharedModel, frame: QueuedFrame)
    requires
        in_order(shared.video_q),
        shared.video_q.len() > 0 ==> shared.video_q.last().pts.unit == frame.pts.unit
            && shared.video_q.last().pts.ticks <= frame.pts.ticks,
    ensures
        in_order(shared.queue_frame(frame).video_q),
{
    let q = shared.video_q;
    let longer = shared.queue_frame(frame).video_q;
    assert forall|i: int, j: int|
        #![trigger longer[i], longer[j]]
        0 <= i <= j < longer.len() implies longer[i].pts.unit == longer[j].pts.unit
        && longer[i].pts.ticks <= longer[j].pts.ticks by {
        if j < q.len() {
            assert(longer[i] == q[i] && longer[j] == q[j]);
        } else if i < q.len() {
            assert(longer[i] == q[i] && q.last() == q[q.len() - 1]);
        }
    }
}

/// Taking pictures does not move the clock and takes no sound.
pub proof fn law_taking_pictures_leaves_clock_and_sound(
    shared: SharedModel,
    moment: Moment,
    now: u64,
)
    ensures
        shared.drop_stale(moment).position(now) == shared.position(now),
        shared.drop_stale(moment).drop_front().position(now) == shared.position(now),
        shared.drop_stale(moment).drop_front().audio_buf == shared.audio_buf,
{
}

/// Samples come out as they went in: in the order of their bytes, behind those
/// that waited before, none lost and none added.
pub proof fn law_queued_sound_comes_out(
    shared: SharedModel,
    raw: Seq<u8>,
    frames: usize,
    now: u64,
)
    requires
        shared.playing,
        spec_packed_samples(raw, frames * shared.out_channels) is Some,
    ensures
        ({
            let samples = spec_packed_samples(raw, frames * shared.out_channels)->0;
            let n = shared.audio_buf.len() + samples.len();
            let queued = shared.queue_sound(raw, frames);
            &&& samples.len() == frames * shared.out_channels
            &&& queued.sound(n) == shared.audio_buf + samples
            &&& queued.after_sound(n, now).audio_buf.len() == 0
        }),
{
    let samples = spec_packed_samples(raw, frames * shared.out_channels)->0;
    let n = shared.audio_buf.len() + samples.len();
    assert(frames * shared.out_channels >= 0) by (nonlinear_arith)
        requires
            frames >= 0,
            shared.out_channels >= 0,
    ;
    assert(shared.queue_sound(raw, frames).sound(n) =~= shared.audio_buf + samples);
}

/// It makes no difference in how many requests the device asks for its
/// samples, if it asks for whole frames.
pub proof fn law_sound_in_pieces(shared: SharedModel, n: nat, m: nat, now: u64, later: u64)
    requires
        n % (if shared.out_channels == 0 {
            1
        } else {
            shared.out_channels as nat
        }) == 0,
    ensures
        shared.sound(n) + shared.after_sound(n, now).sound(m) == shared.sound(n + m),
        shared.after_sound(n, now).after_sound(m, later) == shared.after_sound(n + m, now),
{
    assert(shared.sound(n) + shared.after_sound(n, now).sound(m) =~= shared.sound(n + m));
    let c = if shared.out_channels == 0 {
        1
    } else {
        shared.out_channels as int
    };
    lemma_counts_add_up(shared.start_sound(now).audio_frames_played, n, m, c);
    assert(shared.after_sound(n, now).after_sound(m, later).audio_buf =~= shared.after_sound(
        n + m,
        now,
    ).audio_buf);
}

proof fn lemma_counts_add_up(played: u64, n: nat, m: nat, c: int)
    requires
        c > 0,
        n as int % c == 0,
    ensures
        (((played + n as int / c) % 0x1_0000_0000_0000_0000) + m as int / c)
            % 0x1_0000_0000_0000_0000 == (played + (n + m) as int / c) % 0x1_0000_0000_0000_0000,
{
    let q = n as int / c;
    vstd::arithmetic::div_mod::lemma_fundamental_div_mod(n as int, c);
    assert((n + m) as int == q * c + m) by (nonlinear_arith)
        requires
            n as int == c * q + n as int % c,
            n as int % c == 0,
    ;
    vstd::arithmetic::div_mod::lemma_hoist_over_denominator(m as int, q, c as nat);
    assert((n + m) as int / c == q + m as int / c);
    vstd::arithmetic::div_mod::lemma_add_mod_noop(
        played + q,
        m as int / c,
        0x1_0000_0000_0000_0000,
    );
    vstd::arithmetic::div_mod::lemma_add_mod_noop(
        (played + q) % 0x1_0000_0000_0000_0000,
        m as int / c,
        0x1_0000_0000_0000_0000,
    );
}

/// The model of a player shows each of its fields as it is.
pub proof fn law_model_shows_every_field(shared: Shared)
    ensures
        shared@.video_q == shared.video_q@,
        shared@.audio_buf == shared.audio_buf@,
        shared@.audio_frames_played == shared.audio_frames_played,
        shared@.audio_started == shared.audio_started,
        shared@.out_sample_rate == shared.out_sample_rate,
        shared@.out_channels == shared.out_channels,
        shared@.has_audio == shared.has_audio,
        shared@.seek_to == shared.seek_to,
        shared@.playing == shared.playing,
        shared@.stop == shared.stop,
        shared@.eof == shared.eof,
        shared@.clock_base_pts == shared.clock_base_pts,
        shared@.clock_base_wall == shared.clock_base_wall,
        shared@.frozen_at == shared.frozen_at,
{
}

/// A new player stands at zero whatever time it is, with nothing decoded, and
/// is neither told to play nor to jump nor to end.
pub proof fn law_new_player_stands_at_zero(has_audio: bool, now: u64)
    ensures
        ({
            let new = SharedModel::idle(has_audio);
            &&& new.position(now) == 0 && new.moment(now).rest == 0
            &&& new.video_q.len() == 0 && new.audio_buf.len() == 0
            &&& new.has_audio == has_audio && !new.audio_started && new.audio_frames_played == 0
            &&& new.out_sample_rate == 48_000 && new.out_channels == 2
            &&& !new.playing && !new.stop && !new.eof
            &&& new.seek_to is None && new.frozen_at is None && new.clock_base_wall is None
            &&& new.clock_base_pts.nanos == 0 && new.clock_base_pts.rest == 0
        }),
{
}

/// The position is what is held while a jump is asked for. Else, once the
/// device has asked for sound, it is the base and exactly the time of all
/// frames handed out since; and without sound it is the base and the wall time
/// since the clock was started, if the player plays. Only the latest position
/// there is stops it.
pub proof fn law_position_is_base_and_what_was_played(shared: SharedModel, now: u64)
    ensures
        ({
            let base = shared.clock_base_pts;
            let parts = if shared.out_sample_rate == 0 {
                1
            } else {
                shared.out_sample_rate as int
            };
            let total = base.nanos * parts + base.rest + shared.audio_frames_played
                * 1_000_000_000;
            let read = shared.moment(now);
            let by_sound = shared.has_audio && shared.audio_started;
            &&& shared.position(now) == read.nanos
            &&& shared.clock(now) == (SharedModel { frozen_at: None, ..shared }).moment(now)
            &&& shared.frozen_at matches Some(held) ==> read == held
            &&& shared.frozen_at is None && by_sound ==> {
                &&& read.rest < parts
                &&& total < 0x8000_0000_0000_0000 * parts ==> read.nanos * parts + read.rest
                    == total
                &&& total >= 0x8000_0000_0000_0000 * parts ==> read.nanos == i64::MAX
            }
            &&& shared.frozen_at is None && !by_sound ==> {
                let since = match shared.clock_base_wall {
                    Some(start) => if shared.playing && now >= start {
                        now - start
                    } else {
                        0
                    },
                    None => 0,
                };
                &&& read.rest == base.rest
                &&& base.nanos + since <= i64::MAX ==> read.nanos == base.nanos + since
                &&& base.nanos + since > i64::MAX ==> read.nanos == i64::MAX
            }
        }),
{
    law_sound_takes_exactly_its_time(
        shared.clock_base_pts,
        shared.audio_frames_played,
        shared.out_sample_rate,
    );
}

/// Playing sets the player going, and starts the clock only if it did not go
/// yet; nothing else changes.
pub proof fn law_play_starts_the_clock_once(shared: SharedModel, now: u64)
    ensures
        shared.play(now).playing,
        shared.playing ==> shared.play(now) == shared,
        !shared.playing ==> shared.play(now).clock_base_wall == Some(now),
        (SharedModel {
            playing: shared.playing,
            clock_base_wall: shared.clock_base_wall,
            ..shared.play(now)
        }) == shared,
{
}

/// Pausing makes the position of that moment the clock's base, with no sound
/// counted since; closing does the same and tells the thread to end. Nothing
/// else changes.
pub proof fn law_pause_and_close_stop_the_clock(shared: SharedModel, now: u64)
    ensures
        ({
            let paused = shared.pause(now);
            &&& !paused.playing
            &&& paused.clock_base_pts == shared.moment(now)
            &&& shared.has_audio ==> paused.audio_frames_played == 0
            &&& !shared.has_audio ==> paused.audio_frames_played == shared.audio_frames_played
            &&& (SharedModel {
                playing: shared.playing,
                clock_base_pts: shared.clock_base_pts,
                audio_frames_played: shared.audio_frames_played,
                ..paused
            }) == shared
            &&& shared.close(now).stop
            &&& (SharedModel { stop: shared.stop, ..shared.close(now) }) == paused
        }),
{
}

/// A jump is asked for to the very target that was named, any earlier request
/// is forgotten, and the position of that moment is held; the file counts as
/// not at its end. Nothing else changes.
pub proof fn law_seek_asks_for_the_target(shared: SharedModel, target: i64, now: u64)
    ensures
        ({
            let asked = shared.request_seek(target, now);
            &&& asked.seek_to == Some(target)
            &&& asked.frozen_at == Some(shared.moment(now))
            &&& !asked.eof
            &&& (SharedModel {
                seek_to: shared.seek_to,
                frozen_at: shared.frozen_at,
                eof: shared.eof,
                ..asked
            }) == shared
        }),
{
}

/// A jump that was made leaves the clock at the target from that wall time on,
/// with no sound counted, and nothing decoded. The position is held further
/// only for a newer request. Nothing else changes.
pub proof fn law_jump_sets_the_clock_to_the_target(shared: SharedModel, target: i64, now: u64)
    ensures
        ({
            let there = shared.arrive(target, now);
            &&& there.clock_base_pts.nanos == target && there.clock_base_pts.rest == 0
            &&& there.clock_base_wall == Some(now)
            &&& there.audio_frames_played == 0
            &&& there.video_q.len() == 0 && there.audio_buf.len() == 0
            &&& !there.eof
            &&& shared.seek_to is None ==> there.frozen_at is None
            &&& shared.seek_to is Some ==> there.frozen_at == Some(Moment { nanos: target, rest: 0 })
            &&& (SharedModel {
                clock_base_pts: shared.clock_base_pts,
                clock_base_wall: shared.clock_base_wall,
                audio_frames_played: shared.audio_frames_played,
                video_q: shared.video_q,
                audio_buf: shared.audio_buf,
                eof: shared.eof,
                frozen_at: shared.frozen_at,
                ..there
            }) == shared
            &&& (SharedModel {
                video_q: shared.video_q,
                audio_buf: shared.audio_buf,
                eof: shared.eof,
                frozen_at: None,
                ..there
            }) == shared.reset_clock(target, now)
        }),
{
}

/// A jump that was refused lets the position go again, unless there is a newer
/// request. Nothing else changes.
pub proof fn law_refusal_lets_the_position_go(shared: SharedModel)
    ensures
        shared.seek_to is None ==> shared.stay().frozen_at is None,
        shared.seek_to is Some ==> shared.stay().frozen_at == shared.frozen_at,
        (SharedModel { frozen_at: shared.frozen_at, ..shared.stay() }) == shared,
{
}

/// The device gets as many samples as it asks for. While the player plays, the
/// first are those that have waited longest, in the order in which they came,
/// and all others are silence; while it is paused, all are.
pub proof fn law_device_hears_what_waited_longest(shared: SharedModel, n: nat, i: int)
    requires
        0 <= i < n,
    ensures
        shared.sound(n).len() == n,
        shared.playing && i < shared.audio_buf.len() ==> shared.sound(n)[i] == shared.audio_buf[i],
        !shared.playing || i >= shared.audio_buf.len() ==> shared.sound(n)[i] == Sample(0, 0, 0, 0),
{
}

/// Samples leave the buffer as they are handed out: those behind them move up,
/// in their order, and none leaves while the player is paused.
pub proof fn law_handed_out_samples_leave(shared: SharedModel, n: nat, now: u64)
    ensures
        ({
            let left = shared.after_sound(n, now).audio_buf;
            &&& !shared.playing ==> left == shared.audio_buf
            &&& shared.playing && n >= shared.audio_buf.len() ==> left.len() == 0
            &&& shared.playing && n < shared.audio_buf.len() ==> {
                &&& left.len() == shared.audio_buf.len() - n
                &&& forall|i: int|
                    0 <= i < left.len() ==> #[trigger] left[i] == shared.audio_buf[i + n]
            }
        }),
{
}

/// The clock counts whole frames: `frames` of them are in `n` samples if there
/// is one sample for each channel and less than a further frame is left. They
/// are added while the player plays, to a counter of 64 bits. The first time,
/// a player with sound counts from the position of that moment. Nothing else
/// but the buffer changes.
pub proof fn law_whole_frames_are_counted(shared: SharedModel, n: nat, frames: nat, now: u64)
    requires
        ({
            let channels = if shared.out_channels == 0 {
                1
            } else {
                shared.out_channels as int
            };
            frames * channels <= n < (frames + 1) * channels
        }),
    ensures
        ({
            let after = shared.after_sound(n, now);
            let first = shared.has_audio && !shared.audio_started;
            let before = if first {
                0
            } else {
                shared.audio_frames_played as int
            };
            let added = if shared.playing {
                frames as int
            } else {
                0
            };
            &&& after.audio_frames_played == (before + added) % 0x1_0000_0000_0000_0000
            &&& first ==> after.audio_started && after.clock_base_pts.nanos == shared.clock(now).nanos
                && after.clock_base_pts.rest == 0
            &&& !first ==> after.audio_started == shared.audio_started && after.clock_base_pts
                == shared.clock_base_pts
            &&& (SharedModel {
                audio_buf: shared.audio_buf,
                audio_frames_played: shared.audio_frames_played,
                audio_started: shared.audio_started,
                clock_base_pts: shared.clock_base_pts,
                ..after
            }) == shared
        }),
{
    let channels = if shared.out_channels == 0 {
        1
    } else {
        shared.out_channels as int
    };
    let rest = n - frames * channels;
    assert((frames + 1) * channels == frames * channels + channels) by (nonlinear_arith);
    vstd::arithmetic::div_mod::lemma_fundamental_div_mod_converse(
        n as int,
        channels,
        frames as int,
        rest,
    );
    assert(shared.frames_in(n) == frames);
    assert(0 <= shared.audio_frames_played < 0x1_0000_0000_0000_0000);
    vstd::arithmetic::div_mod::lemma_small_mod(
        shared.audio_frames_played as nat,
        0x1_0000_0000_0000_0000,
    );
}

/// A picture is handed out exactly if it is the first one that is not late and
/// its time has come. Late is a picture whose time and a tenth of a second more
/// lie before the clock's reading; its time has come if it does not lie after
/// that reading. All late pictures in front of it are dropped, and no other;
/// those behind it stay in their order, and nothing else changes.
pub proof fn law_first_picture_in_time_is_handed_out(shared: SharedModel, moment: Moment, k: int)
    ensures
        ({
            let q = shared.video_q;
            let parts = if shared.out_sample_rate == 0 {
                1
            } else {
                shared.out_sample_rate as int
            };
            let num = |f: QueuedFrame|
                if f.pts.unit.den > 0 {
                    f.pts.unit.num as int
                } else {
                    0
                };
            let den = |f: QueuedFrame|
                if f.pts.unit.den > 0 {
                    f.pts.unit.den as int
                } else {
                    1
                };
            let time = |f: QueuedFrame| f.pts.ticks * num(f) * 1_000_000_000 * parts;
            let reading = |f: QueuedFrame| (moment.nanos * parts + moment.rest) * den(f);
            let late = |f: QueuedFrame| time(f) + 100_000_000 * parts * den(f) < reading(f);
            let rest = shared.drop_stale(moment);
            &&& 0 <= k <= q.len() && (forall|i: int| 0 <= i < k ==> late(#[trigger] q[i])) && (k
                < q.len() ==> !late(q[k])) ==> {
                &&& rest.video_q == q.skip(k)
                &&& rest.due(moment) <==> k < q.len() && time(q[k]) <= reading(q[k])
                &&& k < q.len() ==> rest.video_q[0] == q[k] && rest.drop_front().video_q == q.skip(
                    k + 1,
                )
            }
            &&& (SharedModel { video_q: q, ..rest }) == shared
            &&& (SharedModel { video_q: q, ..rest.drop_front() }) == shared
        }),
{
    let q = shared.video_q;
    let rate = shared.out_sample_rate;
    let count = stale_count(q, moment, rate);
    law_only_stale_pictures_are_dropped(q, moment, rate);
    assert forall|i: int| 0 <= i < q.len() implies {
        let parts = if rate == 0 {
            1
        } else {
            rate as int
        };
        let f = #[trigger] q[i];
        let num = if f.pts.unit.den > 0 {
            f.pts.unit.num as int
        } else {
            0
        };
        let den = if f.pts.unit.den > 0 {
            f.pts.unit.den as int
        } else {
            1
        };
        let time = f.pts.ticks * num * 1_000_000_000 * parts;
        let reading = (moment.nanos * parts + moment.rest) * den;
        &&& stale(f.pts, moment, rate) <==> time + 100_000_000 * parts * den < reading
        &&& f.pts.over_at(moment, rate) <==> time <= reading
    } by {
        crate::time::law_times_are_compared_exactly(
            q[i].pts,
            LATE_FRAME_DROP_NANOS,
            moment,
            rate,
        );
    }
    if count < q.len() {
        assert(!stale(q[count as int].pts, moment, rate));
    }
    if 0 <= k < count {
        assert(stale(q[k].pts, moment, rate));
    }
    assert(q.skip(k).skip(1) =~= q.skip(k + 1) || !(0 <= k < q.len()));
}

/// A picture that is queued stands behind all others, as it is; those keep
/// their places. Nothing else changes.
pub proof fn law_queued_picture_is_the_last(shared: SharedModel, frame: QueuedFrame)
    ensures
        ({
            let q = shared.queue_frame(frame).video_q;
            &&& q.len() == shared.video_q.len() + 1
            &&& q[q.len() - 1] == frame
            &&& forall|i: int| 0 <= i < shared.video_q.len() ==> #[trigger] q[i] == shared.video_q[i]
            &&& (SharedModel { video_q: shared.video_q, ..shared.queue_frame(frame) }) == shared
        }),
{
}

/// The device hears the bytes that were queued: behind all samples that waited
/// before come, for each of the frames, one for each channel, and the `i`th of
/// them is made of the bytes `4 * i` to `4 * i + 3` in their order. Too few
/// bytes are left out as a whole. Nothing else changes.
pub proof fn law_device_hears_the_bytes_in_order(
    shared: SharedModel,
    raw: Seq<u8>,
    frames: usize,
    n: nat,
    i: int,
)
    ensures
        ({
            let count = frames * shared.out_channels;
            let waited = shared.audio_buf.len();
            let queued = shared.queue_sound(raw, frames);
            &&& raw.len() < 4 * count ==> queued == shared
            &&& raw.len() >= 4 * count ==> {
                &&& queued.audio_buf.len() == waited + count
                &&& 0 <= i < waited ==> queued.audio_buf[i] == shared.audio_buf[i]
                &&& 0 <= i < count ==> queued.audio_buf[waited + i] == Sample(
                    raw[4 * i],
                    raw[4 * i + 1],
                    raw[4 * i + 2],
                    raw[4 * i + 3],
                )
                &&& shared.playing && 0 <= i < count && waited + i < n ==> queued.sound(n)[waited
                    + i] == Sample(raw[4 * i], raw[4 * i + 1], raw[4 * i + 2], raw[4 * i + 3])
                &&& (SharedModel { audio_buf: shared.audio_buf, ..queued }) == shared
            }
        }),
{
    assert(frames * shared.out_channels >= 0) by (nonlinear_arith)
        requires
            frames >= 0,
            shared.out_channels >= 0,
    ;
    law_samples_keep_their_bytes(raw, (frames * shared.out_channels) as nat);
}

/// Decoding waits exactly if ninety pictures wait or if two seconds of sound
/// do.
pub proof fn law_enough_is_ninety_pictures_or_two_seconds(shared: SharedModel)
    ensures
        shared.audio_limit() == 2 * (shared.out_sample_rate * shared.out_channels),
        shared.full() <==> shared.video_q.len() >= 90 || shared.audio_buf.len() >= 2 * (
        shared.out_sample_rate * shared.out_channels),
{
    assert(AUDIO_AHEAD_SECONDS == 2);
}

/// Each operation on the shared state does what its model says.
pub proof fn law_operations_follow_the_model(
    shared: &mut Shared,
    target: i64,
    now: u64,
    frame: QueuedFrame,
    raw: &[u8],
    frames: usize,
)
    ensures
        call_ensures(Shared::play, (shared, now), ()) ==> final(shared)@ == old(shared)@.play(now),
        call_ensures(Shared::pause, (shared, now), ()) ==> final(shared)@ == old(shared)@.pause(
            now,
        ),
        call_ensures(Shared::close, (shared, now), ()) ==> final(shared)@ == old(shared)@.close(
            now,
        ),
        call_ensures(Shared::reset_clock, (shared, target, now), ()) ==> final(shared)@ == old(
            shared,
        )@.reset_clock(target, now),
        call_ensures(Shared::request_seek, (shared, target, now), ()) ==> final(shared)@ == old(
            shared,
        )@.request_seek(target, now),
        call_ensures(Shared::arrive, (shared, target, now), ()) ==> final(shared)@ == old(
            shared,
        )@.arrive(target, now),
        call_ensures(Shared::stay, (shared,), ()) ==> final(shared)@ == old(shared)@.stay(),
        call_ensures(Shared::queue_frame, (shared, frame), ()) ==> final(shared)@ == old(
            shared,
        )@.queue_frame(frame),
        call_ensures(Shared::queue_sound, (shared, raw, frames), ()) ==> final(shared)@ == old(
            shared,
        )@.queue_sound(raw@, frames),
{
}

/// What is read of the shared state is what its model says, and reading it
/// takes nothing away.
pub proof fn law_readings_follow_the_model(
    shared: &Shared,
    now: u64,
    moment: Moment,
    position: i64,
    full: bool,
    has_audio: bool,
    new: Shared,
)
    ensures
        call_ensures(Shared::clock, (shared, now), moment) ==> moment == shared@.clock(now),
        call_ensures(Shared::moment, (shared, now), moment) ==> moment == shared@.moment(now),
        call_ensures(Shared::position, (shared, now), position) ==> position == shared@.position(
            now,
        ),
        call_ensures(Shared::is_full, (shared,), full) ==> (full <==> shared.video_q@.len() >= 90
            || shared.audio_buf@.len() >= 2 * (shared.out_sample_rate * shared.out_channels)),
        call_ensures(Shared::new, (has_audio,), new) ==> new@ == SharedModel::idle(has_audio),
{
    law_enough_is_ninety_pictures_or_two_seconds(shared@);
}

/// The device is filled with the samples that waited longest while the player
/// plays, each once and in order, with silence behind them, and with silence
/// alone while it is paused. They then have left the buffer.
pub proof fn law_device_is_filled_in_order(
    shared: &mut Shared,
    out: &mut Vec<Sample>,
    now: u64,
    i: int,
)
    requires
        call_ensures(Shared::fill_audio, (shared, out, now), ()),
    ensures
        ({
            let waiting = old(shared).audio_buf@;
            let left = final(shared).audio_buf@;
            let n = old(out)@.len();
            let playing = old(shared).playing;
            &&& final(out)@.len() == n
            &&& 0 <= i < n ==> final(out)@[i] == if playing && i < waiting.len() {
                waiting[i]
            } else {
                Sample(0, 0, 0, 0)
            }
            &&& !playing ==> left == waiting
            &&& playing ==> left.len() == if n < waiting.len() {
                waiting.len() - n
            } else {
                0
            }
            &&& playing && 0 <= i < left.len() ==> left[i] == waiting[i + n]
            &&& final(shared)@ == old(shared)@.after_sound(n, now)
        }),
{
    law_handed_out_samples_leave(old(shared)@, old(out)@.len(), now);
}

/// A picture that is taken at a moment is the first that is not late then, if
/// its time has come.
pub proof fn law_taken_picture_is_the_first_in_time(
    shared: &mut Shared,
    moment: Moment,
    frame: Option<QueuedFrame>,
)
    requires
        call_ensures(Shared::take_due_frame, (shared, moment), frame),
    ensures
        ({
            let rest = old(shared)@.drop_stale(moment);
            &&& frame is Some <==> rest.due(moment)
            &&& rest.due(moment) ==> frame == Some(rest.video_q[0]) && final(shared)@
                == rest.drop_front()
            &&& !rest.due(moment) ==> final(shared)@ == rest
        }),
{
}

} // verus!
