//! The player as its caller sees it.
use crate::error::MediaError;
use crate::image::{shape_fault, shows, RgbImage};
use crate::info::VideoProbe;
use crate::shared::{QueuedFrame, Shared, SharedModel};
use crate::time::{Rational, StreamSpan};
use vstd::prelude::*;

verus! {

/// Pictures a second of a stream that names no rate.
pub const DEFAULT_FPS: i32 = 30;

/// How the sound device wants its samples.
#[derive(Clone, Copy, Debug, PartialEq, Eq, Structural)]
pub enum OutputFormat {
    /// Floating-point numbers of four bytes.
    F32,
    /// Any other form.
    Other,
}

/// What the sound device works with.
#[derive(Clone, Copy, Debug, PartialEq, Eq, Structural)]
pub struct OutputConfig {
    /// Frames of sound a second.
    pub sample_rate: u32,
    pub channels: u16,
    pub format: OutputFormat,
}

/// The search for a sound device has ended with `config`, or with none. The
/// player takes over its rate and its channels, and goes on without sound if
/// there is no device or if it does not take the samples as they are.
pub open spec fn configured(shared: SharedModel, config: Option<OutputConfig>) -> SharedModel {
    if !shared.has_audio {
        shared
    } else {
        match config {
            Some(config) => SharedModel {
                out_sample_rate: config.sample_rate,
                out_channels: config.channels,
                has_audio: config.format is F32,
                ..shared
            },
            None => SharedModel { has_audio: false, ..shared },
        }
    }
}

/// The stream to the sound device runs, or could not be made: then the player
/// goes on without sound.
pub open spec fn connected(shared: SharedModel, stream_runs: bool) -> SharedModel {
    SharedModel { has_audio: shared.has_audio && stream_runs, ..shared }
}

/// The picture of a frame with its time; refused if the bytes of the frame are
/// not those of `height` rows of `width` pixels.
pub fn frame_image(frame: QueuedFrame, width: u32, height: u32) -> (r: Result<
    (RgbImage, StreamSpan),
    MediaError,
>)
    ensures
        match shape_fault(height as int, width as int, frame.rgb@.len() as int) {
            Some(fault) => r == Err::<(RgbImage, StreamSpan), MediaError>(
                MediaError::Array(fault),
            ),
            None => {
                &&& r matches Ok((image, pts))
                &&& pts == frame.pts
                &&& shows(image, frame.rgb@, height as int, width as int)
            },
        },
{
    let pts = frame.pts;
    match RgbImage::from_pixels(frame.rgb, width, height) {
        Ok(image) => Ok((image, pts)),
        Err(error) => Err(error),
    }
}

/// A player of one file.
#[derive(Debug)]
pub struct PlayerEngine {
    pub shared: Shared,
    pub duration: StreamSpan,
    pub width: u32,
    pub height: u32,
    /// Pictures a second.
    pub fps: Rational,
    /// The file has sound and the sound device takes it.
    pub has_audio: bool,
}

impl PlayerEngine {
    /// All but the shared state is the same.
    pub open spec fn same_file(self, other: PlayerEngine) -> bool {
        &&& self.same_pictures(other)
        &&& self.has_audio == other.has_audio
    }

    /// All but the shared state and the sound is the same.
    pub open spec fn same_pictures(self, other: PlayerEngine) -> bool {
        &&& self.duration == other.duration
        &&& self.width == other.width
        &&& self.height == other.height
        &&& self.fps == other.fps
    }

    /// A player for a file with this video stream, and with sound or without.
    /// A stream without a time base has no length, one without a rate has
    /// thirty pictures a second.
    pub fn new(video: &VideoProbe, has_audio: bool) -> (player: PlayerEngine)
        ensures
            player.shared@ == SharedModel::idle(has_audio),
            player.duration == (StreamSpan {
                ticks: video.duration,
                unit: video.time_base.spec_time_base(),
            }),
            player.width == video.width,
            player.height == video.height,
            player.fps == video.frame_rate.spec_or(Rational { num: DEFAULT_FPS, den: 1 }),
            player.has_audio == has_audio,
    {
        PlayerEngine {
            shared: Shared::new(has_audio),
            duration: StreamSpan { ticks: video.duration, unit: video.time_base.time_base() },
            width: video.width,
            height: video.height,
            fps: video.frame_rate.or(Rational { num: DEFAULT_FPS, den: 1 }),
            has_audio,
        }
    }

    /// Takes in what the search for a sound device found, and says whether a
    /// stream to it is to be made.
    pub fn configure_sound(&mut self, config: Option<OutputConfig>) -> (make_stream: bool)
        ensures
            final(self).shared@ == configured(old(self).shared@, config),
            final(self).has_audio == final(self).shared@.has_audio,
            final(self).same_pictures(*old(self)),
            make_stream == final(self).shared@.has_audio,
    {
        if self.shared.has_audio {
            match config {
                Some(config) => {
                    self.shared.out_sample_rate = config.sample_rate;
                    self.shared.out_channels = config.channels;
                    self.shared.has_audio = config.format == OutputFormat::F32;
                },
                None => {
                    self.shared.has_audio = false;
                },
            }
        }
        self.has_audio = self.shared.has_audio;
        self.has_audio
    }

    /// Takes in whether the stream to the sound device runs.
    pub fn connect_sound(&mut self, stream_runs: bool)
        ensures
            final(self).shared@ == connected(old(self).shared@, stream_runs),
            final(self).has_audio == final(self).shared@.has_audio,
            final(self).same_pictures(*old(self)),
    {
        if !stream_runs {
            self.shared.has_audio = false;
        }
        self.has_audio = self.shared.has_audio;
    }

    /// Starts playing, or goes on.
    pub fn play(&mut self, now: u64)
        ensures
            final(self).shared@ == old(self).shared@.play(now),
            final(self).same_file(*old(self)),
    {
        self.shared.play(now);
    }

    /// Pauses; the decode thread then reads no new packets.
    pub fn pause(&mut self, now: u64)
        ensures
            final(self).shared@ == old(self).shared@.pause(now),
            final(self).same_file(*old(self)),
    {
        self.shared.pause(now);
    }

    /// Asks for a jump to `target` nanoseconds. It does not wait: the decode
    /// thread does the jump, and the position stands still until then.
    pub fn seek(&mut self, target: i64, now: u64)
        ensures
            final(self).shared@ == old(self).shared@.request_seek(target, now),
            final(self).same_file(*old(self)),
    {
        self.shared.request_seek(target, now);
    }

    /// The position at wall time `now`, in whole nanoseconds.
    pub fn position(&self, now: u64) -> (position: i64)
        ensures
            position == self.shared@.position(now),
    {
        self.shared.position(now)
    }

    /// Whether the file is at its end and every picture has been taken.
    pub fn is_eof(&self) -> (at_end: bool)
        ensures
            at_end == (self.shared@.eof && self.shared@.video_q.len() == 0),
    {
        self.shared.eof && self.shared.video_q.len() == 0
    }

    /// The next picture as it was queued, if its time has come at wall time
    /// `now`. Pictures that are out of date by then are dropped first.
    pub fn next_frame(&mut self, now: u64) -> (frame: Option<QueuedFrame>)
        ensures
            final(self).same_file(*old(self)),
            ({
                let moment = old(self).shared@.moment(now);
                let rest = old(self).shared@.drop_stale(moment);
                if rest.due(moment) {
                    &&& frame == Some(rest.video_q[0])
                    &&& final(self).shared@ == rest.drop_front()
                } else {
                    &&& frame is None
                    &&& final(self).shared@ == rest
                }
            }),
    {
        let moment = self.shared.moment(now);
        self.shared.take_due_frame(moment)
    }

    /// The next picture and its time, if its time has come at wall time `now`.
    /// Pictures that are out of date by then are dropped first. A picture whose
    /// bytes do not have the player's size is taken off the queue and reported.
    pub fn get_frame(&mut self, now: u64) -> (r: Result<Option<(RgbImage, StreamSpan)>, MediaError>)
        ensures
            final(self).same_file(*old(self)),
            ({
                let moment = old(self).shared@.moment(now);
                let rest = old(self).shared@.drop_stale(moment);
                let front = rest.video_q[0];
                if !rest.due(moment) {
                    &&& r == Ok::<Option<(RgbImage, StreamSpan)>, MediaError>(None)
                    &&& final(self).shared@ == rest
                } else {
                    &&& final(self).shared@ == rest.drop_front()
                    &&& match shape_fault(
                        old(self).height as int,
                        old(self).width as int,
                        front.rgb@.len() as int,
                    ) {
                        Some(fault) => r == Err::<Option<(RgbImage, StreamSpan)>, MediaError>(
                            MediaError::Array(fault),
                        ),
                        None => {
                            &&& r matches Ok(Some((image, pts)))
                            &&& pts == front.pts
                            &&& shows(
                                image,
                                front.rgb@,
                                old(self).height as int,
                                old(self).width as int,
                            )
                        },
                    }
                }
            }),
    {
        match self.next_frame(now) {
            None => Ok(None),
            Some(frame) => match frame_image(frame, self.width, self.height) {
                Ok(picture) => Ok(Some(picture)),
                Err(error) => Err(error),
            },
        }
    }

    /// Stops playing and tells the decode thread to end.
    pub fn close(&mut self, now: u64)
        ensures
            final(self).shared@ == old(self).shared@.close(now),
            final(self).same_file(*old(self)),
    {
        self.shared.close(now);
    }
}

/// A player has sound exactly if the file has some, there is a device that
/// takes the samples as they are, and the stream to it runs. Otherwise it is
/// a player of pictures alone; only the sound and its form are ever set up.
pub proof fn law_sound_needs_file_device_and_stream(
    shared: SharedModel,
    config: Option<OutputConfig>,
    stream_runs: bool,
)
    ensures
        ({
            let after = connected(configured(shared, config), stream_runs);
            &&& after.has_audio <==> shared.has_audio && config is Some && config->0.format is F32
                && stream_runs
            &&& after == (SharedModel {
                has_audio: after.has_audio,
                out_sample_rate: after.out_sample_rate,
                out_channels: after.out_channels,
                ..shared
            })
        }),
{
}

/// A player with sound takes over exactly the rate and the channels of the
/// device that was found, also where it then goes on without sound; without a
/// device, or without sound in the file, it keeps its own.
pub proof fn law_sound_takes_the_form_of_the_device(
    shared: SharedModel,
    config: Option<OutputConfig>,
    stream_runs: bool,
)
    ensures
        ({
            let after = connected(configured(shared, config), stream_runs);
            &&& shared.has_audio && config is Some ==> after.out_sample_rate
                == config->0.sample_rate && after.out_channels == config->0.channels
            &&& !shared.has_audio || config is None ==> after.out_sample_rate
                == shared.out_sample_rate && after.out_channels == shared.out_channels
            &&& configured(shared, config).has_audio <==> shared.has_audio && config is Some
                && config->0.format is F32
        }),
{
}

/// Players of the same file agree on everything that the file decides.
pub proof fn law_same_file_has_the_same_facts(player: PlayerEngine, other: PlayerEngine)
    ensures
        player.same_file(other) <==> {
            &&& player.duration == other.duration
            &&& player.width == other.width
            &&& player.height == other.height
            &&& player.fps == other.fps
            &&& player.has_audio == other.has_audio
        },
        player.same_pictures(other) <==> {
            &&& player.duration == other.duration
            &&& player.width == other.width
            &&& player.height == other.height
            &&& player.fps == other.fps
        },
{
}

/// Whatever file a player is made for, it has the size of its pictures, its
/// rate or thirty a second where it names none, and the length of its stream,
/// which is nothing without a time base; it stands at zero and does not play.
pub proof fn law_new_player_has_the_facts_of_the_file(
    video: &VideoProbe,
    has_audio: bool,
    player: PlayerEngine,
)
    requires
        call_ensures(PlayerEngine::new, (video, has_audio), player),
    ensures
        player.width == video.width && player.height == video.height,
        video.frame_rate.den > 0 ==> player.fps == video.frame_rate,
        video.frame_rate.den <= 0 ==> player.fps.num == 30 && player.fps.den == 1,
        player.duration.ticks == video.duration,
        video.time_base.den > 0 ==> player.duration.unit == video.time_base,
        video.time_base.den <= 0 ==> player.duration.unit.num == 0 && player.duration.unit.den == 1,
        player.has_audio == has_audio && player.shared.has_audio == has_audio,
        !player.shared.playing && !player.shared.stop && !player.shared.eof,
        player.shared.seek_to is None && player.shared.frozen_at is None,
        player.shared.video_q@.len() == 0 && player.shared.audio_buf@.len() == 0,
        player.shared.clock_base_pts.nanos == 0 && player.shared.clock_base_pts.rest == 0,
{
}

/// Setting up the sound decides whether the player has any, and in which form,
/// and touches nothing else.
pub proof fn law_sound_set_up_touches_only_the_sound(
    player: &mut PlayerEngine,
    config: Option<OutputConfig>,
    make_stream: bool,
    connecting: &mut PlayerEngine,
    stream_runs: bool,
)
    requires
        call_ensures(PlayerEngine::configure_sound, (player, config), make_stream),
        call_ensures(PlayerEngine::connect_sound, (connecting, stream_runs), ()),
    ensures
        make_stream <==> old(player).shared.has_audio && config is Some && config->0.format is F32,
        final(player).has_audio == make_stream && final(player).shared.has_audio == make_stream,
        old(player).shared.has_audio && config is Some ==> final(player).shared.out_sample_rate
            == config->0.sample_rate && final(player).shared.out_channels == config->0.channels,
        final(player).width == old(player).width && final(player).height == old(player).height,
        final(player).fps == old(player).fps && final(player).duration == old(player).duration,
        final(player).shared@ == (SharedModel {
            has_audio: make_stream,
            out_sample_rate: final(player).shared.out_sample_rate,
            out_channels: final(player).shared.out_channels,
            ..old(player).shared@
        }),
        final(connecting).shared.has_audio <==> old(connecting).shared.has_audio && stream_runs,
        final(connecting).has_audio == final(connecting).shared.has_audio,
        final(connecting).width == old(connecting).width && final(connecting).height == old(
            connecting,
        ).height,
        final(connecting).fps == old(connecting).fps && final(connecting).duration == old(
            connecting,
        ).duration,
        final(connecting).shared@ == (SharedModel {
            has_audio: final(connecting).shared.has_audio,
            ..old(connecting).shared@
        }),
{
}

/// A player that plays goes on from where it stood: right after the call the
/// position is the same, and where no sound counts and no jump is asked for, it
/// later is that position and the time that went by.
pub proof fn law_playing_goes_on_from_where_it_stood(
    player: &mut PlayerEngine,
    now: u64,
    later: u64,
    before: i64,
    after: i64,
)
    requires
        call_ensures(PlayerEngine::play, (player, now), ()),
        call_ensures(PlayerEngine::position, (&*old(player), now), before),
        call_ensures(PlayerEngine::position, (&*final(player), later), after),
        now <= later,
    ensures
        final(player).shared.playing,
        now == later ==> after == before,
        !old(player).shared.playing && old(player).shared.frozen_at is None && !(old(
            player,
        ).shared.has_audio && old(player).shared.audio_started) ==> after == if before + (later
            - now) > i64::MAX {
            i64::MAX as int
        } else {
            before + (later - now)
        },
        final(player).shared.video_q@ == old(player).shared.video_q@,
        final(player).shared.audio_buf@ == old(player).shared.audio_buf@,
        final(player).shared.seek_to == old(player).shared.seek_to,
        final(player).shared.eof == old(player).shared.eof,
        final(player).shared.stop == old(player).shared.stop,
        final(player).same_file(*old(player)),
{
}

/// A player that was paused or closed stands where it stood, whatever time goes
/// by, and keeps all that it has decoded; a closed one has told its thread to
/// end.
pub proof fn law_stopping_keeps_the_position(
    player: &mut PlayerEngine,
    closing: bool,
    now: u64,
    later: u64,
    before: i64,
    after: i64,
)
    requires
        closing ==> call_ensures(PlayerEngine::close, (player, now), ()),
        !closing ==> call_ensures(PlayerEngine::pause, (player, now), ()),
        call_ensures(PlayerEngine::position, (&*old(player), now), before),
        call_ensures(PlayerEngine::position, (&*final(player), later), after),
    ensures
        after == before,
        !final(player).shared.playing,
        final(player).shared.stop <==> closing || old(player).shared.stop,
        final(player).shared.video_q@ == old(player).shared.video_q@,
        final(player).shared.audio_buf@ == old(player).shared.audio_buf@,
        final(player).shared.seek_to == old(player).shared.seek_to,
        final(player).shared.eof == old(player).shared.eof,
        final(player).same_file(*old(player)),
{
    crate::shared::law_pause_holds_the_position(old(player).shared@, now, later);
    assert(old(player).shared@.close(now).moment(later) == old(player).shared@.pause(now).moment(
        later,
    ));
}

/// A seek asks for its own target, holds the position that the player had, and
/// keeps all that was decoded until the jump is made.
pub proof fn law_seeking_asks_for_the_target_and_waits(
    player: &mut PlayerEngine,
    target: i64,
    now: u64,
    later: u64,
    before: i64,
    after: i64,
)
    requires
        call_ensures(PlayerEngine::seek, (player, target, now), ()),
        call_ensures(PlayerEngine::position, (&*old(player), now), before),
        call_ensures(PlayerEngine::position, (&*final(player), later), after),
    ensures
        final(player).shared.seek_to == Some(target),
        after == before,
        !final(player).shared.eof,
        final(player).shared.playing == old(player).shared.playing,
        final(player).shared.stop == old(player).shared.stop,
        final(player).shared.video_q@ == old(player).shared.video_q@,
        final(player).shared.audio_buf@ == old(player).shared.audio_buf@,
        final(player).same_file(*old(player)),
{
}

/// The position that is reported is the base and what was played since: the
/// time of the sound, rounded down to a nanosecond, or the wall time.
pub proof fn law_reported_position_is_what_was_played(
    player: &PlayerEngine,
    now: u64,
    position: i64,
)
    requires
        call_ensures(PlayerEngine::position, (player, now), position),
    ensures
        player.shared.frozen_at matches Some(held) ==> position == held.nanos,
        player.shared.frozen_at is None && player.shared.has_audio && player.shared.audio_started
            && player.shared.out_sample_rate > 0 ==> {
            let rate = player.shared.out_sample_rate as int;
            let base = player.shared.clock_base_pts;
            let total = base.nanos * rate + base.rest + player.shared.audio_frames_played
                * 1_000_000_000;
            &&& total < 0x8000_0000_0000_0000 * rate ==> position * rate <= total < position * rate
                + rate
            &&& total >= 0x8000_0000_0000_0000 * rate ==> position == i64::MAX
        },
        player.shared.frozen_at is None && !(player.shared.has_audio
            && player.shared.audio_started) ==> {
            let base = player.shared.clock_base_pts.nanos;
            let since = match player.shared.clock_base_wall {
                Some(start) => if player.shared.playing && now >= start {
                    now - start
                } else {
                    0
                },
                None => 0,
            };
            &&& base + since <= i64::MAX ==> position == base + since
            &&& base + since > i64::MAX ==> position == i64::MAX
        },
{
    crate::shared::law_position_is_base_and_what_was_played(player.shared@, now);
}

/// The end is reported exactly if the file is at its end and no picture waits.
pub proof fn law_end_needs_an_empty_queue(player: &PlayerEngine, at_end: bool)
    requires
        call_ensures(PlayerEngine::is_eof, (player,), at_end),
    ensures
        at_end <==> player.shared.eof && player.shared.video_q@.len() == 0,
{
}

/// The picture that is handed out at wall time `now` is the first that is not
/// late by more than a tenth of a second, if its time is not after the exact
/// position; else there is none. All before it are dropped, none behind it is,
/// and nothing but the queue changes.
pub proof fn law_picture_in_time_is_handed_out(
    player: &mut PlayerEngine,
    now: u64,
    frame: Option<QueuedFrame>,
    k: int,
)
    requires
        call_ensures(PlayerEngine::next_frame, (player, now), frame),
    ensures
        ({
            let q = old(player).shared.video_q@;
            let moment = old(player).shared@.moment(now);
            let parts = if old(player).shared.out_sample_rate == 0 {
                1
            } else {
                old(player).shared.out_sample_rate as int
            };
            let num = |f: QueuedFrame|
                if f.pts.unit.den > 0 {
                    f.pts.unit.num as int
                } else {
                    0
                };
            let den = |f: QueuedFrame|
                if f.pts.unit.den > 0 {
                    f.pts.unit.den as int
                } else {
                    1
                };
            let time = |f: QueuedFrame| f.pts.ticks * num(f) * 1_000_000_000 * parts;
            let reading = |f: QueuedFrame| (moment.nanos * parts + moment.rest) * den(f);
            let late = |f: QueuedFrame| time(f) + 100_000_000 * parts * den(f) < reading(f);
            let left = final(player).shared.video_q@;
            &&& 0 <= k <= q.len() && (forall|i: int| 0 <= i < k ==> late(#[trigger] q[i])) && (k
                < q.len() ==> !late(q[k])) ==> if k < q.len() && time(q[k]) <= reading(q[k]) {
                &&& frame == Some(q[k])
                &&& left == q.skip(k + 1)
            } else {
                &&& frame is None
                &&& left == q.skip(k)
            }
            &&& final(player).shared@ == (SharedModel { video_q: left, ..old(player).shared@ })
            &&& final(player).same_file(*old(player))
        }),
{
    let moment = old(player).shared@.moment(now);
    crate::shared::law_first_picture_in_time_is_handed_out(old(player).shared@, moment, k);
}

/// A picture is handed out with its own bytes and its own time, or refused
/// because it does not have three bytes for each pixel of the player.
pub proof fn law_handed_out_picture_is_the_queued_one(
    frame: QueuedFrame,
    width: u32,
    height: u32,
    r: Result<(RgbImage, StreamSpan), MediaError>,
)
    requires
        call_ensures(frame_image, (frame, width, height), r),
    ensures
        r matches Ok((image, pts)) ==> pts == frame.pts && crate::image::image_pixels(image)
            == frame.rgb@ && crate::image::image_shape(image) == (
            height as usize,
            width as usize,
            3usize,
        ) && frame.rgb@.len() == 3 * (height * width),
        r matches Err(error) ==> error is Array,
        frame.rgb@.len() == 3 * (height * width) && width > 0 && height > 0 && frame.rgb@.len()
            <= isize::MAX ==> r is Ok,
{
    crate::image::law_picture_needs_three_bytes_for_each_pixel(height, width, frame.rgb@.len());
}

/// Handing out a picture as an array and as it was queued is the same: there is
/// none in the same cases, the queue is left the same, and the picture has the
/// bytes and the time of the frame.
pub proof fn law_picture_and_frame_are_handed_out_alike(
    player: &mut PlayerEngine,
    other: &mut PlayerEngine,
    now: u64,
    r: Result<Option<(RgbImage, StreamSpan)>, MediaError>,
    frame: Option<QueuedFrame>,
)
    requires
        *old(player) == *old(other),
        call_ensures(PlayerEngine::get_frame, (player, now), r),
        call_ensures(PlayerEngine::next_frame, (other, now), frame),
    ensures
        final(player).shared@ == final(other).shared@,
        final(player).same_file(*final(other)),
        frame is None <==> r == Ok::<Option<(RgbImage, StreamSpan)>, MediaError>(None),
        r matches Ok(Some((image, pts))) ==> {
            &&& frame matches Some(front)
            &&& pts == front.pts
            &&& crate::image::image_pixels(image) == front.rgb@
            &&& crate::image::image_shape(image).0 == old(player).height
            &&& crate::image::image_shape(image).1 == old(player).width
            &&& crate::image::image_shape(image).2 == 3
        },
        frame matches Some(front) ==> (r is Err <==> shape_fault(
            old(player).height as int,
            old(player).width as int,
            front.rgb@.len() as int,
        ) is Some),
{
}

} // verus!
