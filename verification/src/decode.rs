//! The decode thread as a machine: it names the next thing to do with the
//! demuxer, the decoders and the converters, is told how that went, and keeps
//! the shared state up to date.
use crate::shared::{
    law_model_shows_every_field, QueuedFrame, Shared, SharedModel, MAX_VIDEO_FRAMES,
};
use crate::time::{av_time_base_ts, spec_av_time_base_ts, Rational, StreamSpan};
use vstd::prelude::*;

verus! {

/// How long a paused player waits before it looks again.
pub const PAUSED_SLEEP_MILLIS: u64 = 10;

/// How long a player waits that has decoded enough.
pub const FULL_SLEEP_MILLIS: u64 = 5;

/// How long a player waits at the end of the file.
pub const END_SLEEP_MILLIS: u64 = 20;

/// One of the two streams that are decoded.
#[derive(Clone, Copy, Debug, PartialEq, Eq, Structural)]
pub enum Track {
    Video,
    Audio,
}

/// The channel layout that the resampler converts from.
#[derive(Clone, Copy, Debug, PartialEq, Eq, Structural)]
pub enum SourceLayout {
    /// The layout that the frame names.
    OfFrame,
    /// The usual layout for this many channels.
    DefaultFor { channels: u16 },
}

/// What is to be done next.
#[derive(Clone, Copy, Debug, PartialEq, Eq, Structural)]
pub enum DecodeAction {
    /// End the thread.
    Exit,
    /// Move the demuxer to this timestamp of its global time base.
    SeekInput { timestamp: i64 },
    /// Empty the decoders.
    FlushDecoders,
    /// Wait.
    Sleep { millis: u64 },
    /// Read a packet.
    ReadPacket,
    /// Give the packet to the track's decoder.
    SendPacket { track: Track },
    /// Tell the decoders that no packet follows.
    SendEof,
    /// Take a frame from the track's decoder.
    ReceiveFrame { track: Track },
    /// Convert the picture to packed red, green and blue bytes.
    ScaleFrame,
    /// Make the resampler.
    CreateResampler { layout: SourceLayout },
    /// Convert the sound to the device's format.
    Resample,
}

/// How the last action went.
#[derive(Debug)]
pub enum DecodeEvent {
    /// The thread has begun, or an action without an outcome is done.
    Done,
    /// Whether the demuxer has moved.
    SeekFinished { moved: bool },
    /// A packet of this stream was read.
    Packet { index: usize },
    /// There is no further packet.
    EndOfInput,
    /// Whether the decoder took the packet.
    PacketSent { accepted: bool },
    /// A picture with this timestamp came out.
    VideoFrame { timestamp: Option<i64> },
    /// Sound came out, with the layout as bits and the decoder's channels.
    AudioFrame { layout_bits: u64, channels: u16 },
    /// No frame came out.
    NoFrame,
    /// The picture in packed bytes.
    Scaled { rgb: Vec<u8> },
    /// The picture could not be converted.
    ScaleFailed,
    /// Whether there is a resampler now.
    ResamplerMade { made: bool },
    /// So many frames of converted sound, at the start of these bytes.
    Resampled { frames: usize, raw: Vec<u8> },
    /// The sound could not be converted.
    ResampleFailed,
}

/// What the machine waits for.
#[derive(Clone, Copy, Debug, PartialEq, Eq, Structural)]
pub enum Phase {
    Idle { millis: u64 },
    Seeking { target: i64 },
    Flushing { target: i64 },
    Reading,
    Sending { track: Track },
    SendingEof,
    Receiving { track: Track },
    Scaling { pts: StreamSpan },
    MakingResampler { layout: SourceLayout },
    Resampling,
    Finished,
}

/// The decode thread.
#[derive(Clone, Copy, Debug, PartialEq, Eq, Structural)]
pub struct DecodeLoop {
    pub video_idx: Option<usize>,
    pub audio_idx: Option<usize>,
    /// There is a decoder for the pictures.
    pub video_decoder: bool,
    /// There is a decoder for the sound.
    pub audio_decoder: bool,
    pub video_time_base: Rational,
    pub resampler_ready: bool,
    /// The decoders are giving out what they hold at the end of the file.
    pub draining: bool,
    pub phase: Phase,
}

impl Phase {
    /// What has to be done in this phase.
    pub open spec fn spec_action(self) -> DecodeAction {
        match self {
            Phase::Idle { millis } => DecodeAction::Sleep { millis },
            Phase::Seeking { target } => DecodeAction::SeekInput {
                timestamp: spec_av_time_base_ts(target),
            },
            Phase::Flushing { .. } => DecodeAction::FlushDecoders,
            Phase::Reading => DecodeAction::ReadPacket,
            Phase::Sending { track } => DecodeAction::SendPacket { track },
            Phase::SendingEof => DecodeAction::SendEof,
            Phase::Receiving { track } => DecodeAction::ReceiveFrame { track },
            Phase::Scaling { .. } => DecodeAction::ScaleFrame,
            Phase::MakingResampler { layout } => DecodeAction::CreateResampler { layout },
            Phase::Resampling => DecodeAction::Resample,
            Phase::Finished => DecodeAction::Exit,
        }
    }

    /// The events that answer what is done in this phase.
    pub open spec fn expects(self, event: DecodeEvent) -> bool {
        match self {
            Phase::Idle { .. } => event is Done,
            Phase::Seeking { .. } => event is SeekFinished,
            Phase::Flushing { .. } => event is Done,
            Phase::Reading => event is Packet || event is EndOfInput,
            Phase::Sending { .. } => event is PacketSent,
            Phase::SendingEof => event is Done,
            Phase::Receiving { track: Track::Video } => event is VideoFrame || event is NoFrame,
            Phase::Receiving { track: Track::Audio } => event is AudioFrame || event is NoFrame,
            Phase::Scaling { .. } => event is Scaled || event is ScaleFailed,
            Phase::MakingResampler { .. } => event is ResamplerMade,
            Phase::Resampling => event is Resampled || event is ResampleFailed,
            Phase::Finished => false,
        }
    }

    /// What has to be done in this phase.
    pub fn action(&self) -> (action: DecodeAction)
        ensures
            action == self.spec_action(),
    {
        match *self {
            Phase::Idle { millis } => DecodeAction::Sleep { millis },
            Phase::Seeking { target } => DecodeAction::SeekInput {
                timestamp: av_time_base_ts(target),
            },
            Phase::Flushing { .. } => DecodeAction::FlushDecoders,
            Phase::Reading => DecodeAction::ReadPacket,
            Phase::Sending { track } => DecodeAction::SendPacket { track },
            Phase::SendingEof => DecodeAction::SendEof,
            Phase::Receiving { track } => DecodeAction::ReceiveFrame { track },
            Phase::Scaling { .. } => DecodeAction::ScaleFrame,
            Phase::MakingResampler { layout } => DecodeAction::CreateResampler { layout },
            Phase::Resampling => DecodeAction::Resample,
            Phase::Finished => DecodeAction::Exit,
        }
    }
}

/// The layout to convert from: the frame's own, or where that names no
/// channel, the usual one for the decoder's channels.
pub open spec fn spec_source_layout(layout_bits: u64, channels: u16) -> SourceLayout {
    if layout_bits != 0 {
        SourceLayout::OfFrame
    } else {
        SourceLayout::DefaultFor { channels }
    }
}

/// The decode thread and the shared state together.
#[verifier::ext_equal]
pub struct Decoding {
    pub machine: DecodeLoop,
    pub shared: SharedModel,
}

impl Decoding {
    /// In another phase.
    pub open spec fn to(self, phase: Phase) -> Decoding {
        Decoding { machine: DecodeLoop { phase, ..self.machine }, ..self }
    }

    /// With another shared state.
    pub open spec fn with(self, shared: SharedModel) -> Decoding {
        Decoding { shared, ..self }
    }

    /// There is a decoder for this track.
    pub open spec fn decodes(self, track: Track) -> bool {
        match track {
            Track::Video => self.machine.video_decoder,
            Track::Audio => self.machine.audio_decoder,
        }
    }

    /// The track that packets of this stream belong to. A stream that is
    /// neither of the two belongs to none.
    pub open spec fn track_of(self, index: usize) -> Option<Track> {
        if self.machine.video_idx == Some(index) {
            Some(Track::Video)
        } else if self.machine.audio_idx == Some(index) {
            Some(Track::Audio)
        } else {
            None
        }
    }

    /// Reads on, or waits while the player is paused or has decoded enough.
    pub open spec fn pace(self) -> Decoding {
        if !self.shared.playing {
            self.to(Phase::Idle { millis: PAUSED_SLEEP_MILLIS })
        } else if self.shared.full() {
            self.to(Phase::Idle { millis: FULL_SLEEP_MILLIS })
        } else {
            self.to(Phase::Reading)
        }
    }

    /// The start of a round: ends, jumps or reads on.
    pub open spec fn round(self) -> Decoding {
        if self.shared.stop {
            self.to(Phase::Finished)
        } else {
            match self.shared.seek_to {
                Some(target) => self.with(SharedModel { seek_to: None, ..self.shared }).to(
                    Phase::Seeking { target },
                ),
                None => self.pace(),
            }
        }
    }

    /// A packet of stream `index` was read.
    pub open spec fn packet(self, index: usize) -> Decoding {
        match self.track_of(index) {
            Some(track) if self.decodes(track) => self.to(Phase::Sending { track }),
            _ => self.round(),
        }
    }

    /// The decoders hold nothing any more: the file is at its end.
    pub open spec fn drained(self) -> Decoding {
        Decoding {
            machine: DecodeLoop { draining: false, ..self.machine },
            shared: SharedModel { eof: true, ..self.shared },
        }.to(Phase::Idle { millis: END_SLEEP_MILLIS })
    }

    /// The decoder of `track` has no further frame now.
    pub open spec fn frames_over(self, track: Track) -> Decoding {
        if !self.machine.draining {
            self.round()
        } else if track is Video && self.machine.audio_decoder {
            self.to(Phase::Receiving { track: Track::Audio })
        } else {
            self.drained()
        }
    }

    /// The decoders know that no packet follows: takes what they still hold.
    pub open spec fn drain(self) -> Decoding {
        let draining = Decoding {
            machine: DecodeLoop { draining: true, ..self.machine },
            ..self
        };
        if self.machine.video_decoder {
            draining.to(Phase::Receiving { track: Track::Video })
        } else if self.machine.audio_decoder {
            draining.to(Phase::Receiving { track: Track::Audio })
        } else {
            self.drained()
        }
    }

    /// What `event` leads to at wall time `now`. An event that answers
    /// something else than what was to be done changes nothing.
    pub open spec fn step(self, event: DecodeEvent, now: u64) -> Decoding {
        match (self.machine.phase, event) {
            (Phase::Idle { .. }, DecodeEvent::Done) => self.round(),
            (Phase::Seeking { target }, DecodeEvent::SeekFinished { moved }) => if moved {
                self.to(Phase::Flushing { target })
            } else {
                self.with(self.shared.stay()).pace()
            },
            (Phase::Flushing { target }, DecodeEvent::Done) => self.with(
                self.shared.arrive(target, now),
            ).pace(),
            (Phase::Reading, DecodeEvent::Packet { index }) => self.packet(index),
            (Phase::Reading, DecodeEvent::EndOfInput) => self.to(Phase::SendingEof),
            (Phase::SendingEof, DecodeEvent::Done) => self.drain(),
            (Phase::Sending { track }, DecodeEvent::PacketSent { accepted }) => if accepted {
                self.to(Phase::Receiving { track })
            } else {
                self.round()
            },
            (Phase::Receiving { track }, DecodeEvent::NoFrame) => self.frames_over(track),
            (
                Phase::Receiving { track: Track::Video },
                DecodeEvent::VideoFrame { timestamp },
            ) => self.to(
                Phase::Scaling { pts: self.machine.pts(timestamp) },
            ),
            (Phase::Scaling { pts }, DecodeEvent::Scaled { rgb }) => self.with(
                self.shared.queue_frame(QueuedFrame { rgb, pts }),
            ).to(Phase::Receiving { track: Track::Video }),
            (Phase::Scaling { .. }, DecodeEvent::ScaleFailed) => self.to(
                Phase::Receiving { track: Track::Video },
            ),
            (
                Phase::Receiving { track: Track::Audio },
                DecodeEvent::AudioFrame { layout_bits, channels },
            ) => if self.machine.resampler_ready {
                self.to(Phase::Resampling)
            } else {
                self.to(
                    Phase::MakingResampler { layout: spec_source_layout(layout_bits, channels) },
                )
            },
            (Phase::MakingResampler { .. }, DecodeEvent::ResamplerMade { made }) => if made {
                Decoding {
                    machine: DecodeLoop { resampler_ready: true, ..self.machine },
                    ..self
                }.to(Phase::Resampling)
            } else {
                self.to(Phase::Receiving { track: Track::Audio })
            },
            (Phase::Resampling, DecodeEvent::Resampled { frames, raw }) => self.with(
                self.shared.queue_sound(raw@, frames),
            ).to(Phase::Receiving { track: Track::Audio }),
            (Phase::Resampling, DecodeEvent::ResampleFailed) => self.to(
                Phase::Receiving { track: Track::Audio },
            ),
            _ => self,
        }
    }
}

impl DecodeLoop {
    /// The decode thread at its start. Sound is decoded only if the player
    /// plays it.
    pub fn new(
        video_idx: Option<usize>,
        audio_idx: Option<usize>,
        video_opened: bool,
        audio_opened: bool,
        video_time_base: Rational,
        has_audio: bool,
    ) -> (machine: DecodeLoop)
        ensures
            machine == (DecodeLoop {
                video_idx,
                audio_idx,
                video_decoder: video_idx is Some && video_opened,
                audio_decoder: audio_idx is Some && audio_opened && has_audio,
                video_time_base: video_time_base.spec_time_base(),
                resampler_ready: false,
                draining: false,
                phase: Phase::Idle { millis: 0 },
            }),
    {
        DecodeLoop {
            video_idx,
            audio_idx,
            video_decoder: video_idx.is_some() && video_opened,
            audio_decoder: audio_idx.is_some() && audio_opened && has_audio,
            video_time_base: video_time_base.time_base(),
            resampler_ready: false,
            draining: false,
            phase: Phase::Idle { millis: 0 },
        }
    }

    /// The time of a picture with this timestamp; one without stands at zero.
    pub open spec fn pts(self, timestamp: Option<i64>) -> StreamSpan {
        StreamSpan { ticks: timestamp.unwrap_or(0), unit: self.video_time_base }
    }

    /// The machine and the shared state together.
    pub open spec fn with(self, shared: SharedModel) -> Decoding {
        Decoding { machine: self, shared }
    }

    fn pace(&mut self, shared: &Shared)
        ensures
            final(self).with(shared@) == old(self).with(shared@).pace(),
    {
        if !shared.playing {
            self.phase = Phase::Idle { millis: PAUSED_SLEEP_MILLIS };
        } else if shared.is_full() {
            self.phase = Phase::Idle { millis: FULL_SLEEP_MILLIS };
        } else {
            self.phase = Phase::Reading;
        }
    }

    fn round(&mut self, shared: &mut Shared)
        ensures
            final(self).with(final(shared)@) == old(self).with(old(shared)@).round(),
    {
        if shared.stop {
            self.phase = Phase::Finished;
        } else {
            match shared.seek_to {
                Some(target) => {
                    shared.seek_to = None;
                    self.phase = Phase::Seeking { target };
                },
                None => self.pace(shared),
            }
        }
    }

    fn packet(&mut self, shared: &mut Shared, index: usize)
        ensures
            final(self).with(final(shared)@) == old(self).with(old(shared)@).packet(index),
    {
        let of_video = match self.video_idx {
            Some(i) => i == index,
            None => false,
        };
        let of_audio = match self.audio_idx {
            Some(i) => i == index,
            None => false,
        };
        if of_video {
            if self.video_decoder {
                self.phase = Phase::Sending { track: Track::Video };
            } else {
                self.round(shared);
            }
        } else if of_audio && self.audio_decoder {
            self.phase = Phase::Sending { track: Track::Audio };
        } else {
            self.round(shared);
        }
    }

    fn drained(&mut self, shared: &mut Shared)
        ensures
            final(self).with(final(shared)@) == old(self).with(old(shared)@).drained(),
    {
        self.draining = false;
        shared.eof = true;
        self.phase = Phase::Idle { millis: END_SLEEP_MILLIS };
    }

    fn frames_over(&mut self, shared: &mut Shared, track: Track)
        ensures
            final(self).with(final(shared)@) == old(self).with(old(shared)@).frames_over(track),
    {
        if !self.draining {
            self.round(shared);
        } else if track == Track::Video && self.audio_decoder {
            self.phase = Phase::Receiving { track: Track::Audio };
        } else {
            self.drained(shared);
        }
    }

    fn drain(&mut self, shared: &mut Shared)
        ensures
            final(self).with(final(shared)@) == old(self).with(old(shared)@).drain(),
    {
        if self.video_decoder {
            self.draining = true;
            self.phase = Phase::Receiving { track: Track::Video };
        } else if self.audio_decoder {
            self.draining = true;
            self.phase = Phase::Receiving { track: Track::Audio };
        } else {
            self.drained(shared);
        }
    }

    /// Takes in how the last action went and names the next one. An event that
    /// answers something else changes nothing, and the same action is named
    /// again.
    pub fn step(&mut self, shared: &mut Shared, event: DecodeEvent, now: u64) -> (action:
        DecodeAction)
        ensures
            final(self).with(final(shared)@) == old(self).with(old(shared)@).step(event, now),
            action == final(self).phase.spec_action(),
    {
        match (self.phase, event) {
            (Phase::Idle { .. }, DecodeEvent::Done) => self.round(shared),
            (Phase::Seeking { target }, DecodeEvent::SeekFinished { moved }) => {
                if moved {
                    self.phase = Phase::Flushing { target };
                } else {
                    shared.stay();
                    self.pace(shared);
                }
            },
            (Phase::Flushing { target }, DecodeEvent::Done) => {
                shared.arrive(target, now);
                self.pace(shared);
            },
            (Phase::Reading, DecodeEvent::Packet { index }) => self.packet(shared, index),
            (Phase::Reading, DecodeEvent::EndOfInput) => {
                self.phase = Phase::SendingEof;
            },
            (Phase::SendingEof, DecodeEvent::Done) => self.drain(shared),
            (Phase::Sending { track }, DecodeEvent::PacketSent { accepted }) => {
                if accepted {
                    self.phase = Phase::Receiving { track };
                } else {
                    self.round(shared);
                }
            },
            (Phase::Receiving { track }, DecodeEvent::NoFrame) => self.frames_over(shared, track),
            (Phase::Receiving { track: Track::Video }, DecodeEvent::VideoFrame { timestamp }) => {
                let ticks: i64 = match timestamp {
                    Some(ticks) => ticks,
                    None => 0,
                };
                self.phase = Phase::Scaling {
                    pts: StreamSpan { ticks, unit: self.video_time_base },
                };
            },
            (Phase::Scaling { pts }, DecodeEvent::Scaled { rgb }) => {
                shared.queue_frame(QueuedFrame { rgb, pts });
                self.phase = Phase::Receiving { track: Track::Video };
            },
            (Phase::Scaling { .. }, DecodeEvent::ScaleFailed) => {
                self.phase = Phase::Receiving { track: Track::Video };
            },
            (
                Phase::Receiving { track: Track::Audio },
                DecodeEvent::AudioFrame { layout_bits, channels },
            ) => {
                if self.resampler_ready {
                    self.phase = Phase::Resampling;
                } else if layout_bits != 0 {
                    self.phase = Phase::MakingResampler { layout: SourceLayout::OfFrame };
                } else {
                    self.phase = Phase::MakingResampler {
                        layout: SourceLayout::DefaultFor { channels },
                    };
                }
            },
            (Phase::MakingResampler { .. }, DecodeEvent::ResamplerMade { made }) => {
                if made {
                    self.resampler_ready = true;
                    self.phase = Phase::Resampling;
                } else {
                    self.phase = Phase::Receiving { track: Track::Audio };
                }
            },
            (Phase::Resampling, DecodeEvent::Resampled { frames, raw }) => {
                shared.queue_sound(raw.as_slice(), frames);
                self.phase = Phase::Receiving { track: Track::Audio };
            },
            (Phase::Resampling, DecodeEvent::ResampleFailed) => {
                self.phase = Phase::Receiving { track: Track::Audio };
            },
            _ => {},
        }
        self.phase.action()
    }
}

impl Decoding {
    /// A jump is under way.
    pub open spec fn jumping(self) -> bool {
        self.machine.phase is Seeking || self.machine.phase is Flushing
    }

    /// The machine is in order, and the position is held exactly while a jump
    /// is asked for or under way.
    pub open spec fn wf(self) -> bool {
        &&& self.shared.frozen_at is Some <==> self.shared.seek_to is Some || self.jumping()
        &&& self.works_in_order()
    }

    /// The machine works only with decoders and converters that there are,
    /// and drains only while it takes frames.
    pub open spec fn works_in_order(self) -> bool {
        match self.machine.phase {
            Phase::Sending { track } => self.decodes(track) && !self.machine.draining,
            Phase::Receiving { track } => self.decodes(track),
            Phase::Scaling { .. } => self.machine.video_decoder,
            Phase::MakingResampler { .. } => self.machine.audio_decoder
                && !self.machine.resampler_ready,
            Phase::Resampling => self.machine.audio_decoder && self.machine.resampler_ready,
            _ => !self.machine.draining,
        }
    }
}

/// A decode thread at its start is in order, with a player that was asked for
/// no jump yet; every event keeps it so, and so does all that the caller and
/// the sound device do.
pub proof fn law_every_event_keeps_the_machine_in_order(
    decoding: Decoding,
    event: DecodeEvent,
    target: i64,
    n: nat,
    now: u64,
)
    ensures
        decoding.machine.phase is Idle && !decoding.machine.draining
            && decoding.shared.frozen_at is None && decoding.shared.seek_to is None
            ==> decoding.wf(),
        decoding.wf() ==> {
            let shared = decoding.shared;
            let taken = shared.drop_stale(shared.moment(now));
            &&& decoding.step(event, now).wf()
            &&& decoding.with(shared.play(now)).wf()
            &&& decoding.with(shared.pause(now)).wf()
            &&& decoding.with(shared.close(now)).wf()
            &&& decoding.with(shared.request_seek(target, now)).wf()
            &&& decoding.with(shared.after_sound(n, now)).wf()
            &&& decoding.with(taken).wf()
            &&& decoding.with(taken.drop_front()).wf()
        },
{
}

/// A packet is read only while the player plays and has not decoded enough; so
/// a paused player reads none.
pub proof fn law_reads_only_when_playing_with_room(
    decoding: Decoding,
    event: DecodeEvent,
    now: u64,
)
    requires
        decoding.machine.phase.expects(event),
        decoding.step(event, now).machine.phase.spec_action() is ReadPacket,
    ensures
        decoding.step(event, now).shared.playing,
        decoding.step(event, now).shared.video_q.len() < MAX_VIDEO_FRAMES,
        decoding.step(event, now).shared.audio_buf.len() < decoding.shared.audio_limit(),
{
}

/// A player that has decoded enough pictures or enough sound reads no packet
/// of either until some were taken.
pub proof fn law_enough_of_either_stops_decoding(decoding: Decoding)
    requires
        decoding.shared.playing,
        !decoding.shared.stop,
        decoding.shared.seek_to is None,
        decoding.shared.video_q.len() >= MAX_VIDEO_FRAMES || decoding.shared.audio_buf.len()
            >= decoding.shared.audio_limit(),
    ensures
        decoding.round() == decoding.to(Phase::Idle { millis: FULL_SLEEP_MILLIS }),
{
}

/// One turn of the decode thread: what the shared state is when it comes, and
/// how the last action went.
pub struct Turn {
    pub shared: SharedModel,
    pub event: DecodeEvent,
    pub now: u64,
}

/// The decode thread after these turns.
pub open spec fn after_turns(start: Decoding, turns: Seq<Turn>) -> Decoding
    decreases turns.len(),
{
    if turns.len() == 0 {
        start
    } else {
        let turn = turns.last();
        after_turns(start, turns.drop_last()).with(turn.shared).step(turn.event, turn.now)
    }
}

/// Between two turns nobody else puts pictures into the queue: whatever the
/// caller and the sound device do, it does not grow.
pub open spec fn only_decoding_queues(start: Decoding, turns: Seq<Turn>) -> bool
    decreases turns.len(),
{
    turns.len() > 0 ==> {
        &&& only_decoding_queues(start, turns.drop_last())
        &&& turns.last().shared.video_q.len() <= after_turns(
            start,
            turns.drop_last(),
        ).shared.video_q.len()
    }
}

/// How many pictures were queued since a packet was last asked for.
pub open spec fn pictures_given(start: Decoding, turns: Seq<Turn>) -> nat
    decreases turns.len(),
{
    if turns.len() == 0 || after_turns(start, turns).machine.phase is Reading {
        0
    } else {
        let before = after_turns(start, turns.drop_last());
        let given = pictures_given(start, turns.drop_last());
        if before.machine.phase is Scaling && turns.last().event is Scaled {
            given + 1
        } else {
            given
        }
    }
}

/// No packet, and not the end of the file either, makes the decoder give out
/// more than `k` pictures.
pub open spec fn gives_at_most(start: Decoding, turns: Seq<Turn>, k: nat) -> bool
    decreases turns.len(),
{
    &&& pictures_given(start, turns) <= k
    &&& turns.len() > 0 ==> gives_at_most(start, turns.drop_last(), k)
}

/// The queue of pictures is bounded, however long the player runs: where no
/// packet gives more than `k` pictures, it holds fewer than the limit and `k`
/// more.
pub proof fn law_picture_queue_is_bounded(start: Decoding, turns: Seq<Turn>, k: nat)
    requires
        start.machine.phase is Idle,
        start.shared.video_q.len() < MAX_VIDEO_FRAMES + k,
        only_decoding_queues(start, turns),
        gives_at_most(start, turns, k),
    ensures
        after_turns(start, turns).shared.video_q.len() < MAX_VIDEO_FRAMES + k,
{
    lemma_given_pictures_bound_the_queue(start, turns, k);
}

proof fn lemma_given_pictures_bound_the_queue(start: Decoding, turns: Seq<Turn>, k: nat)
    requires
        start.machine.phase is Idle,
        start.shared.video_q.len() < MAX_VIDEO_FRAMES + k,
        only_decoding_queues(start, turns),
        gives_at_most(start, turns, k),
    ensures
        ({
            let now = after_turns(start, turns);
            let working = match now.machine.phase {
                Phase::Idle { .. } => false,
                Phase::Seeking { .. } => false,
                Phase::Flushing { .. } => false,
                Phase::Finished => false,
                _ => true,
            };
            &&& now.shared.video_q.len() < MAX_VIDEO_FRAMES + k
            &&& working ==> now.shared.video_q.len() < MAX_VIDEO_FRAMES + pictures_given(
                start,
                turns,
            )
        }),
    decreases turns.len(),
{
    if turns.len() > 0 {
        lemma_given_pictures_bound_the_queue(start, turns.drop_last(), k);
    }
}

/// Between two turns nobody else puts samples into the buffer, and the form of
/// the sound stays: whatever the caller and the sound device do, the buffer
/// does not grow.
pub open spec fn only_decoding_queues_sound(start: Decoding, turns: Seq<Turn>) -> bool
    decreases turns.len(),
{
    turns.len() > 0 ==> {
        let before = after_turns(start, turns.drop_last()).shared;
        let found = turns.last().shared;
        &&& only_decoding_queues_sound(start, turns.drop_last())
        &&& found.audio_buf.len() <= before.audio_buf.len()
        &&& found.out_sample_rate == before.out_sample_rate
        &&& found.out_channels == before.out_channels
    }
}

/// How many samples were queued since a packet was last asked for.
pub open spec fn samples_given(start: Decoding, turns: Seq<Turn>) -> nat
    decreases turns.len(),
{
    let now = after_turns(start, turns);
    if turns.len() == 0 || now.machine.phase is Reading {
        0
    } else {
        let before = after_turns(start, turns.drop_last());
        let given = samples_given(start, turns.drop_last());
        if before.machine.phase is Resampling && turns.last().event is Resampled {
            (given + (now.shared.audio_buf.len() - turns.last().shared.audio_buf.len())) as nat
        } else {
            given
        }
    }
}

/// No packet, and not the end of the file either, makes the decoder give out
/// more than `k` samples.
pub open spec fn gives_at_most_samples(start: Decoding, turns: Seq<Turn>, k: nat) -> bool
    decreases turns.len(),
{
    &&& samples_given(start, turns) <= k
    &&& turns.len() > 0 ==> gives_at_most_samples(start, turns.drop_last(), k)
}

/// The buffer of samples is bounded, however long the player runs: where no
/// packet gives more than `k` samples, it holds fewer than two seconds of sound
/// and `k` more.
pub proof fn law_sound_buffer_is_bounded(start: Decoding, turns: Seq<Turn>, k: nat)
    requires
        start.machine.phase is Idle,
        start.shared.audio_buf.len() < start.shared.audio_limit() + k,
        only_decoding_queues_sound(start, turns),
        gives_at_most_samples(start, turns, k),
    ensures
        ({
            let now = after_turns(start, turns).shared;
            &&& now.audio_limit() == start.shared.audio_limit()
            &&& now.audio_buf.len() < now.audio_limit() + k
        }),
{
    lemma_given_samples_bound_the_buffer(start, turns, k);
}

proof fn lemma_given_samples_bound_the_buffer(start: Decoding, turns: Seq<Turn>, k: nat)
    requires
        start.machine.phase is Idle,
        start.shared.audio_buf.len() < start.shared.audio_limit() + k,
        only_decoding_queues_sound(start, turns),
        gives_at_most_samples(start, turns, k),
    ensures
        ({
            let now = after_turns(start, turns);
            let limit = start.shared.audio_limit();
            let working = match now.machine.phase {
                Phase::Idle { .. } => false,
                Phase::Seeking { .. } => false,
                Phase::Flushing { .. } => false,
                Phase::Finished => false,
                _ => true,
            };
            &&& now.shared.out_sample_rate == start.shared.out_sample_rate
            &&& now.shared.out_channels == start.shared.out_channels
            &&& now.shared.audio_buf.len() < limit + k
            &&& working ==> now.shared.audio_buf.len() < limit + samples_given(start, turns)
        }),
    decreases turns.len(),
{
    if turns.len() > 0 {
        lemma_given_samples_bound_the_buffer(start, turns.drop_last(), k);
        let turn = turns.last();
        law_queues_grow_at_the_back(
            after_turns(start, turns.drop_last()).with(turn.shared),
            turn.event,
            turn.now,
        );
    }
}

/// Every wait, every packet and the last frame of every packet is followed by
/// a new round, in which the player looks at what it was told.
pub proof fn law_work_ends_in_a_round(decoding: Decoding, now: u64)
    requires
        !decoding.machine.draining,
    ensures
        decoding.machine.phase is Idle ==> decoding.step(DecodeEvent::Done, now)
            == decoding.round(),
        decoding.machine.phase is Sending ==> decoding.step(
            DecodeEvent::PacketSent { accepted: false },
            now,
        ) == decoding.round(),
        decoding.machine.phase is Receiving ==> decoding.step(DecodeEvent::NoFrame, now)
            == decoding.round(),
{
}

/// A player told to stop ends its thread in the next round, only such a player
/// does, and a thread that has ended stays ended.
pub proof fn law_stop_ends_the_thread(decoding: Decoding, event: DecodeEvent, now: u64)
    ensures
        decoding.shared.stop ==> decoding.round() == decoding.to(Phase::Finished),
        decoding.step(event, now).machine.phase is Finished ==> decoding.shared.stop
            || decoding.machine.phase is Finished,
        decoding.machine.phase is Finished ==> decoding.step(event, now) == decoding,
        decoding.shared.stop ==> decoding.step(event, now).shared.stop,
{
}

/// A jump that the demuxer makes: in the next round it is asked for the right
/// microsecond, the decoders are emptied, and then the position is the one
/// asked for and nothing decoded before is left.
pub proof fn law_seek_arrives(decoding: Decoding, target: i64, t1: u64, t2: u64)
    requires
        !decoding.shared.stop,
        decoding.shared.seek_to == Some(target),
    ensures
        ({
            let asked = decoding.round();
            let moved = asked.step(DecodeEvent::SeekFinished { moved: true }, t1);
            let there = moved.step(DecodeEvent::Done, t2);
            &&& asked.machine.phase.spec_action() == DecodeAction::SeekInput {
                timestamp: spec_av_time_base_ts(target),
            }
            &&& moved.machine.phase.spec_action() is FlushDecoders
            &&& there.shared.position(t2) == target
            &&& there.shared.video_q.len() == 0
            &&& there.shared.audio_buf.len() == 0
            &&& !there.shared.eof
            &&& there.shared.seek_to is None && there.shared.frozen_at is None
            &&& there.shared.playing == decoding.shared.playing
        }),
{
    crate::shared::law_arrival_is_at_the_target(
        SharedModel { seek_to: None, ..decoding.shared },
        target,
        t2,
    );
}

/// A jump that the demuxer refuses leaves the player as it was, with the
/// request done: the position is what the clock shows, as if none had been
/// asked for.
pub proof fn law_refused_seek_changes_nothing(
    decoding: Decoding,
    shared: SharedModel,
    target: i64,
    asked: u64,
    now: u64,
)
    requires
        decoding.shared == shared.request_seek(target, asked),
        !shared.stop,
        shared.seek_to is None,
        shared.frozen_at is None,
    ensures
        decoding.round().step(DecodeEvent::SeekFinished { moved: false }, now).shared == (
        SharedModel { eof: false, ..shared }),
{
}

/// Decoding moves the clock only by a jump, and never starts or pauses the
/// player. The position is held until the jump is made or refused.
pub proof fn law_only_a_jump_moves_the_clock(
    decoding: Decoding,
    event: DecodeEvent,
    now: u64,
    later: u64,
)
    ensures
        ({
            let next = decoding.step(event, now).shared;
            let made = decoding.machine.phase is Flushing && event is Done;
            let refused = decoding.machine.phase is Seeking && event == (
            DecodeEvent::SeekFinished { moved: false });
            &&& !made ==> next.clock(later) == decoding.shared.clock(later)
            &&& !made && !refused ==> next.frozen_at == decoding.shared.frozen_at
                && next.position(later) == decoding.shared.position(later)
            &&& next.playing == decoding.shared.playing
        }),
{
}

/// Pictures enter the queue behind all others, one at a time, as they were
/// converted; otherwise the queue stays or, after a jump, is emptied. The
/// same holds of the samples, which enter as many at a time as there are.
pub proof fn law_queues_grow_at_the_back(decoding: Decoding, event: DecodeEvent, now: u64)
    ensures
        ({
            let next = decoding.step(event, now).shared;
            let jumped = decoding.machine.phase is Flushing && event is Done;
            &&& jumped ==> next.video_q.len() == 0 && next.audio_buf.len() == 0
            &&& !jumped ==> {
                &&& next.video_q == decoding.shared.video_q || (event matches DecodeEvent::Scaled {
                    rgb,
                } && next.video_q.len() == decoding.shared.video_q.len() + 1
                    && next.video_q.last().rgb == rgb && next.video_q.drop_last()
                    == decoding.shared.video_q)
                &&& decoding.shared.audio_buf.is_prefix_of(next.audio_buf)
            }
        }),
{
    let shared = decoding.shared;
    let next = decoding.step(event, now).shared;
    if let (Phase::Scaling { pts }, DecodeEvent::Scaled { rgb }) = (decoding.machine.phase, event) {
        assert(next.video_q.drop_last() =~= shared.video_q);
    }
    assert(shared.audio_buf.is_prefix_of(shared.audio_buf));
}

/// A picture that the decoder gives out is queued with its time, also one that
/// it gives out only at the end of the file.
pub proof fn law_decoded_picture_is_queued(
    decoding: Decoding,
    timestamp: Option<i64>,
    rgb: Vec<u8>,
    t1: u64,
    t2: u64,
)
    requires
        decoding.machine.phase == (Phase::Receiving { track: Track::Video }),
    ensures
        ({
            let pts = decoding.machine.pts(timestamp);
            let next = decoding.step(DecodeEvent::VideoFrame { timestamp }, t1).step(
                DecodeEvent::Scaled { rgb },
                t2,
            );
            &&& next.shared == decoding.shared.queue_frame(QueuedFrame { rgb, pts })
            &&& next.machine == decoding.machine
        }),
{
}

/// The last answer to a request for a packet was that there is no further one.
pub open spec fn input_ended(start: Decoding, turns: Seq<Turn>) -> bool
    decreases turns.len(),
{
    turns.len() > 0 && {
        let reading = after_turns(start, turns.drop_last()).machine.phase is Reading;
        let event = turns.last().event;
        if reading && (event is Packet || event is EndOfInput) {
            event is EndOfInput
        } else {
            input_ended(start, turns.drop_last())
        }
    }
}

/// Since the last answer to a request for a packet, the decoder of `track` was
/// asked for frames, and its last answer was that it has none.
pub open spec fn ran_dry(start: Decoding, turns: Seq<Turn>, track: Track) -> bool
    decreases turns.len(),
{
    turns.len() > 0 && {
        let phase = after_turns(start, turns.drop_last()).machine.phase;
        let event = turns.last().event;
        if phase is Reading && (event is Packet || event is EndOfInput) {
            false
        } else if phase == (Phase::Receiving { track }) && phase.expects(event) {
            event is NoFrame
        } else {
            ran_dry(start, turns.drop_last(), track)
        }
    }
}

/// The end of the file is reported only when no packet is left and every
/// decoder has given out all that it held: the last answer of the demuxer was
/// that the input is at its end, and since then the last answer of each decoder
/// was that it has no further frame.
pub proof fn law_end_comes_after_the_last_frame(start: Decoding, turns: Seq<Turn>)
    requires
        start.machine.phase is Idle,
        start.works_in_order(),
        turns.len() > 0,
        !turns.last().shared.eof,
        after_turns(start, turns).shared.eof,
    ensures
        input_ended(start, turns),
        start.decodes(Track::Video) ==> ran_dry(start, turns, Track::Video),
        start.decodes(Track::Audio) ==> ran_dry(start, turns, Track::Audio),
{
    lemma_draining_follows_the_end_of_input(start, turns.drop_last());
}

proof fn lemma_draining_follows_the_end_of_input(start: Decoding, turns: Seq<Turn>)
    requires
        start.machine.phase is Idle,
        start.works_in_order(),
    ensures
        ({
            let now = after_turns(start, turns);
            let with_sound = match now.machine.phase {
                Phase::Receiving { track } => track is Audio,
                Phase::MakingResampler { .. } => true,
                Phase::Resampling => true,
                _ => false,
            };
            &&& now.works_in_order()
            &&& now.machine.video_decoder == start.machine.video_decoder
            &&& now.machine.audio_decoder == start.machine.audio_decoder
            &&& now.machine.phase is SendingEof || now.machine.draining ==> input_ended(
                start,
                turns,
            )
            &&& now.machine.draining && with_sound && start.machine.video_decoder ==> ran_dry(
                start,
                turns,
                Track::Video,
            )
        }),
    decreases turns.len(),
{
    if turns.len() > 0 {
        lemma_draining_follows_the_end_of_input(start, turns.drop_last());
    }
}

/// The step that reports the end of the file is the one in which the last
/// decoder runs dry; where there is no decoder, it is the one right behind the
/// end of the input.
pub proof fn law_end_is_reported_by_the_last_decoder(
    decoding: Decoding,
    event: DecodeEvent,
    now: u64,
)
    requires
        decoding.wf(),
        !decoding.shared.eof,
    ensures
        ({
            let last = if decoding.machine.audio_decoder {
                Track::Audio
            } else {
                Track::Video
            };
            decoding.step(event, now).shared.eof <==> if decoding.machine.video_decoder
                || decoding.machine.audio_decoder {
                &&& decoding.machine.draining
                &&& decoding.machine.phase == (Phase::Receiving { track: last })
                &&& event is NoFrame
            } else {
                &&& decoding.machine.phase is SendingEof
                &&& event is Done
            }
        }),
{
}

/// A closed player ends its thread as soon as the thread looks: after a wait, a
/// packet that it passes over, or the last frame of a packet. Nothing else
/// changes in that step, and none of the pictures and samples that wait is lost.
pub proof fn law_closed_player_ends_its_thread(
    decoding: Decoding,
    closed_at: u64,
    index: usize,
    now: u64,
)
    requires
        !decoding.machine.draining,
    ensures
        ({
            let closed = decoding.with(decoding.shared.close(closed_at));
            let ended = closed.to(Phase::Finished);
            &&& closed.machine.phase is Idle ==> closed.step(DecodeEvent::Done, now) == ended
            &&& closed.machine.phase is Sending ==> closed.step(
                DecodeEvent::PacketSent { accepted: false },
                now,
            ) == ended
            &&& closed.machine.phase is Receiving ==> closed.step(DecodeEvent::NoFrame, now)
                == ended
            &&& closed.machine.phase is Reading && (closed.track_of(index) is None
                || !closed.decodes(closed.track_of(index)->0)) ==> closed.step(
                DecodeEvent::Packet { index },
                now,
            ) == ended
            &&& ended.shared.video_q == decoding.shared.video_q
            &&& ended.shared.audio_buf == decoding.shared.audio_buf
        }),
{
}

/// A thread that has ended never changes anything again: after any turns the
/// shared state is as the last turn found it.
pub proof fn law_ended_thread_changes_nothing(start: Decoding, turns: Seq<Turn>)
    requires
        start.machine.phase is Finished,
    ensures
        after_turns(start, turns).machine == start.machine,
        turns.len() > 0 ==> after_turns(start, turns).shared == turns.last().shared,
    decreases turns.len(),
{
    if turns.len() > 0 {
        law_ended_thread_changes_nothing(start, turns.drop_last());
    }
}

/// Packets of streams that are not played, or that have no decoder, are
/// passed over: they change neither queue.
pub proof fn law_other_streams_are_passed_over(decoding: Decoding, index: usize, now: u64)
    requires
        decoding.machine.phase is Reading,
        decoding.track_of(index) matches Some(track) ==> !decoding.decodes(track),
    ensures
        decoding.step(DecodeEvent::Packet { index }, now) == decoding.round(),
        decoding.round().shared.video_q == decoding.shared.video_q,
        decoding.round().shared.audio_buf == decoding.shared.audio_buf,
{
}

/// Machine and shared state are put together and taken apart without change.
pub proof fn law_machine_and_state_stay_what_they_are(
    decoding: Decoding,
    machine: DecodeLoop,
    shared: SharedModel,
    phase: Phase,
)
    ensures
        machine.with(shared).machine == machine,
        machine.with(shared).shared == shared,
        decoding.with(shared).machine == decoding.machine,
        decoding.with(shared).shared == shared,
        decoding.to(phase).shared == decoding.shared,
        decoding.to(phase).machine.phase == phase,
        (DecodeLoop { phase: decoding.machine.phase, ..decoding.to(phase).machine })
            == decoding.machine,
{
}

/// What is named to be done is what the machine waits for: as long a wait, the
/// same track and the same layout, and for a jump the microsecond that holds
/// the target, cut off towards zero.
pub proof fn law_machine_names_what_it_waits_for(phase: Phase)
    ensures
        phase matches Phase::Idle { millis } ==> phase.spec_action() == (DecodeAction::Sleep {
            millis,
        }),
        phase matches Phase::Seeking { target } ==> {
            &&& phase.spec_action() matches DecodeAction::SeekInput { timestamp }
            &&& target >= 0 ==> 0 <= target - timestamp * 1_000 < 1_000
            &&& target <= 0 ==> 0 <= timestamp * 1_000 - target < 1_000
        },
        phase is Flushing ==> phase.spec_action() is FlushDecoders,
        phase is Reading ==> phase.spec_action() is ReadPacket,
        phase matches Phase::Sending { track } ==> phase.spec_action() == (
        DecodeAction::SendPacket { track }),
        phase is SendingEof ==> phase.spec_action() is SendEof,
        phase matches Phase::Receiving { track } ==> phase.spec_action() == (
        DecodeAction::ReceiveFrame { track }),
        phase is Scaling ==> phase.spec_action() is ScaleFrame,
        phase matches Phase::MakingResampler { layout } ==> phase.spec_action() == (
        DecodeAction::CreateResampler { layout }),
        phase is Resampling ==> phase.spec_action() is Resample,
        phase is Finished ==> phase.spec_action() is Exit,
{
}

/// What a round does: a player told to stop ends; else one asked for a jump
/// makes it, to that target; else a paused one waits ten milliseconds, one with
/// ninety pictures or two seconds of sound waits five, and any other reads a
/// packet. Only the request for the jump is taken away.
pub proof fn law_round_stops_jumps_waits_or_reads(decoding: Decoding, now: u64)
    requires
        decoding.machine.phase is Idle,
    ensures
        ({
            let shared = decoding.shared;
            let next = decoding.step(DecodeEvent::Done, now);
            let enough = shared.video_q.len() >= 90 || shared.audio_buf.len() >= 2 * (
            shared.out_sample_rate * shared.out_channels);
            &&& (DecodeLoop { phase: decoding.machine.phase, ..next.machine }) == decoding.machine
            &&& next.shared == if shared.stop {
                shared
            } else {
                SharedModel { seek_to: None, ..shared }
            }
            &&& if shared.stop {
                next.machine.phase is Finished
            } else if shared.seek_to is Some {
                next.machine.phase == (Phase::Seeking { target: shared.seek_to->0 })
            } else if !shared.playing {
                next.machine.phase == (Phase::Idle { millis: 10 })
            } else if enough {
                next.machine.phase == (Phase::Idle { millis: 5 })
            } else {
                next.machine.phase is Reading
            }
        }),
{
    crate::shared::law_enough_is_ninety_pictures_or_two_seconds(decoding.shared);
}

/// A packet goes to the decoder of its own stream, the pictures' first where
/// both are the same. One of another stream, one without a decoder and one that
/// the decoder refuses are followed by a round at once, and one that it took by
/// that decoder's frames and then by a round.
pub proof fn law_packet_goes_to_its_decoder(
    decoding: Decoding,
    index: usize,
    track: Track,
    now: u64,
)
    ensures
        ({
            let machine = decoding.machine;
            let shared = decoding.shared;
            let round = (Decoding {
                machine: DecodeLoop { phase: Phase::Idle { millis: 0 }, ..machine },
                shared,
            }).step(DecodeEvent::Done, now);
            let read = decoding.step(DecodeEvent::Packet { index }, now);
            let of_video = machine.video_idx == Some(index);
            let of_audio = !of_video && machine.audio_idx == Some(index);
            let sending = |track: Track|
                Decoding {
                    machine: DecodeLoop { phase: Phase::Sending { track }, ..machine },
                    shared,
                };
            &&& machine.phase is Reading ==> read == if of_video && machine.video_decoder {
                sending(Track::Video)
            } else if of_audio && machine.audio_decoder {
                sending(Track::Audio)
            } else {
                round
            }
            &&& machine.phase == (Phase::Sending { track }) ==> {
                let taken = decoding.step(DecodeEvent::PacketSent { accepted: true }, now);
                let refused = decoding.step(DecodeEvent::PacketSent { accepted: false }, now);
                &&& taken.shared == shared
                &&& taken.machine == (DecodeLoop { phase: Phase::Receiving { track }, ..machine })
                &&& refused == round
            }
            &&& machine.phase is Receiving && !machine.draining ==> decoding.step(
                DecodeEvent::NoFrame,
                now,
            ) == round
        }),
{
}

/// A picture keeps its time and its bytes on its way into the queue: one that
/// the decoder gives out with timestamp `t` stands there with `t` ticks of the
/// unit of the stream, one without a timestamp with none, behind all others. A
/// picture that cannot be converted is left out. Nothing else changes, and the
/// decoder is asked for the next one.
pub proof fn law_picture_is_queued_with_its_own_time(
    decoding: Decoding,
    t: i64,
    rgb: Vec<u8>,
    t1: u64,
    t2: u64,
)
    requires
        decoding.machine.phase == (Phase::Receiving { track: Track::Video }),
    ensures
        ({
            let q = decoding.shared.video_q;
            let unit = decoding.machine.video_time_base;
            let with_time = decoding.step(DecodeEvent::VideoFrame { timestamp: Some(t) }, t1);
            let without = decoding.step(DecodeEvent::VideoFrame { timestamp: None }, t1);
            let queued = with_time.step(DecodeEvent::Scaled { rgb }, t2);
            let timeless = without.step(DecodeEvent::Scaled { rgb }, t2);
            &&& with_time.machine.phase is Scaling && without.machine.phase is Scaling
            &&& with_time.shared == decoding.shared
            &&& queued.shared.video_q.len() == q.len() + 1
            &&& queued.shared.video_q.last().pts == (StreamSpan { ticks: t, unit })
            &&& queued.shared.video_q.last().rgb == rgb
            &&& forall|i: int| 0 <= i < q.len() ==> #[trigger] queued.shared.video_q[i] == q[i]
            &&& (SharedModel { video_q: q, ..queued.shared }) == decoding.shared
            &&& queued.machine == decoding.machine
            &&& timeless.shared.video_q.len() == q.len() + 1
            &&& timeless.shared.video_q.last().pts == (StreamSpan { ticks: 0, unit })
            &&& timeless.shared.video_q.last().rgb == rgb
            &&& forall|i: int| 0 <= i < q.len() ==> #[trigger] timeless.shared.video_q[i] == q[i]
            &&& (SharedModel { video_q: q, ..timeless.shared }) == decoding.shared
            &&& timeless.machine == decoding.machine
            &&& with_time.step(DecodeEvent::ScaleFailed, t2) == decoding
            &&& without.step(DecodeEvent::ScaleFailed, t2) == decoding
        }),
{
}

/// Sound is converted with one converter, made for the first frame from the
/// layout that it names, or where it names no channel, from the usual one for
/// the decoder's channels. Until it is made, sound is left out.
pub proof fn law_sound_is_converted_from_its_layout(
    decoding: Decoding,
    layout_bits: u64,
    channels: u16,
    t1: u64,
    t2: u64,
)
    requires
        decoding.machine.phase == (Phase::Receiving { track: Track::Audio }),
    ensures
        ({
            let machine = decoding.machine;
            let heard = decoding.step(DecodeEvent::AudioFrame { layout_bits, channels }, t1);
            let made = heard.step(DecodeEvent::ResamplerMade { made: true }, t2);
            &&& heard.shared == decoding.shared
            &&& machine.resampler_ready ==> heard.machine == (DecodeLoop {
                phase: Phase::Resampling,
                ..machine
            })
            &&& !machine.resampler_ready ==> {
                &&& heard.machine == (DecodeLoop { phase: heard.machine.phase, ..machine })
                &&& heard.machine.phase matches Phase::MakingResampler { layout }
                &&& layout_bits != 0 ==> layout is OfFrame
                &&& layout_bits == 0 ==> layout == (SourceLayout::DefaultFor { channels })
                &&& made.shared == decoding.shared
                &&& made.machine == (DecodeLoop {
                    phase: Phase::Resampling,
                    resampler_ready: true,
                    ..machine
                })
                &&& heard.step(DecodeEvent::ResamplerMade { made: false }, t2) == decoding
            }
        }),
{
}

/// Sound keeps its bytes on its way into the buffer: behind all samples that
/// waited before come one for each channel of each frame, and the `i`th is made
/// of the bytes `4 * i` to `4 * i + 3`. Sound with too few bytes, and sound that
/// cannot be converted, is left out. The decoder is then asked for more.
pub proof fn law_sound_is_queued_with_its_own_bytes(
    decoding: Decoding,
    frames: usize,
    raw: Vec<u8>,
    i: int,
    now: u64,
)
    requires
        decoding.machine.phase is Resampling,
    ensures
        ({
            let shared = decoding.shared;
            let asking = DecodeLoop {
                phase: Phase::Receiving { track: Track::Audio },
                ..decoding.machine
            };
            let next = decoding.step(DecodeEvent::Resampled { frames, raw }, now);
            let failed = decoding.step(DecodeEvent::ResampleFailed, now);
            let count = frames * shared.out_channels;
            let waited = shared.audio_buf.len();
            &&& next.machine == asking
            &&& raw@.len() < 4 * count ==> next.shared == shared
            &&& raw@.len() >= 4 * count ==> {
                let buf = next.shared.audio_buf;
                &&& buf.len() == waited + count
                &&& 0 <= i < waited ==> buf[i] == shared.audio_buf[i]
                &&& 0 <= i < count ==> buf[waited + i].0 == raw@[4 * i] && buf[waited + i].1
                    == raw@[4 * i + 1] && buf[waited + i].2 == raw@[4 * i + 2] && buf[waited + i].3
                    == raw@[4 * i + 3]
                &&& (SharedModel { audio_buf: shared.audio_buf, ..next.shared }) == shared
            }
            &&& failed.machine == asking
            &&& failed.shared == shared
        }),
{
    crate::shared::law_device_hears_the_bytes_in_order(decoding.shared, raw@, frames, 0, i);
}

/// A jump leads where it was asked to: whatever the player did before, if it
/// was not told to stop, the demuxer is asked for the microsecond that holds
/// the target, and once it has moved and the decoders are empty, the position
/// is the target, the clock goes on from there, and nothing decoded before is
/// left.
pub proof fn law_jump_leads_to_the_target(
    machine: DecodeLoop,
    shared: SharedModel,
    target: i64,
    asked_at: u64,
    t1: u64,
    t2: u64,
    t3: u64,
)
    requires
        machine.phase is Idle,
        !shared.stop,
    ensures
        ({
            let asked = Decoding { machine, shared: shared.request_seek(target, asked_at) };
            let seeking = asked.step(DecodeEvent::Done, t1);
            let moved = seeking.step(DecodeEvent::SeekFinished { moved: true }, t2);
            let there = moved.step(DecodeEvent::Done, t3).shared;
            &&& asked.shared.position(t1) == shared.position(asked_at)
            &&& seeking.machine.phase.spec_action() matches DecodeAction::SeekInput { timestamp }
            &&& target >= 0 ==> 0 <= target - timestamp * 1_000 < 1_000
            &&& target <= 0 ==> 0 <= timestamp * 1_000 - target < 1_000
            &&& moved.machine.phase.spec_action() is FlushDecoders
            &&& seeking.shared.position(t2) == shared.position(asked_at)
            &&& moved.shared.position(t3) == shared.position(asked_at)
            &&& there.position(t3) == target
            &&& there.clock_base_pts.nanos == target && there.clock_base_pts.rest == 0
            &&& there.clock_base_wall == Some(t3) && there.audio_frames_played == 0
            &&& there.video_q.len() == 0 && there.audio_buf.len() == 0
            &&& there.seek_to is None && there.frozen_at is None && !there.eof
            &&& there.playing == shared.playing && there.has_audio == shared.has_audio
            &&& there.audio_started == shared.audio_started && !there.stop
            &&& there.out_sample_rate == shared.out_sample_rate
            &&& there.out_channels == shared.out_channels
        }),
{
    crate::shared::law_arrival_is_at_the_target(
        SharedModel { seek_to: None, ..shared.request_seek(target, asked_at) },
        target,
        t3,
    );
}

/// After a jump that was made or refused the machine goes on as in a round, but
/// looks for orders only in the next: a paused player waits ten milliseconds,
/// one that has enough waits five, and any other reads a packet. A refused jump
/// changes nothing but that the position is let go, unless there is a newer
/// request.
pub proof fn law_machine_goes_on_after_a_jump(decoding: Decoding, target: i64, now: u64)
    requires
        decoding.machine.phase == (Phase::Seeking { target }) || decoding.machine.phase == (
        Phase::Flushing { target }),
    ensures
        ({
            let shared = decoding.shared;
            let refused = decoding.machine.phase is Seeking;
            let event = if refused {
                DecodeEvent::SeekFinished { moved: false }
            } else {
                DecodeEvent::Done
            };
            let next = decoding.step(event, now);
            let enough = next.shared.video_q.len() >= 90 || next.shared.audio_buf.len() >= 2 * (
            next.shared.out_sample_rate * next.shared.out_channels);
            &&& refused ==> (SharedModel { frozen_at: shared.frozen_at, ..next.shared }) == shared
            &&& refused && shared.seek_to is None ==> next.shared.frozen_at is None
            &&& refused && shared.seek_to is Some ==> next.shared.frozen_at == shared.frozen_at
            &&& !refused ==> next.shared == shared.arrive(target, now)
            &&& (DecodeLoop { phase: decoding.machine.phase, ..next.machine }) == decoding.machine
            &&& if !shared.playing {
                next.machine.phase == (Phase::Idle { millis: 10 })
            } else if enough {
                next.machine.phase == (Phase::Idle { millis: 5 })
            } else {
                next.machine.phase is Reading
            }
            &&& refused ==> decoding.step(DecodeEvent::SeekFinished { moved: true }, now)
                == Decoding {
                machine: DecodeLoop { phase: Phase::Flushing { target }, ..decoding.machine },
                shared,
            }
        }),
{
    let event = if decoding.machine.phase is Seeking {
        DecodeEvent::SeekFinished { moved: false }
    } else {
        DecodeEvent::Done
    };
    crate::shared::law_enough_is_ninety_pictures_or_two_seconds(decoding.step(event, now).shared);
}

/// At the end of the file the decoders are told so and then asked for all that
/// they hold, the pictures' first; when the last has no more, the end is
/// reported, nothing else of the shared state has changed, and the machine
/// waits twenty milliseconds.
pub proof fn law_end_of_file_empties_the_decoders(decoding: Decoding, now: u64)
    ensures
        ({
            let machine = decoding.machine;
            let shared = decoding.shared;
            let taking = |track: Track|
                Decoding {
                    machine: DecodeLoop {
                        phase: Phase::Receiving { track },
                        draining: true,
                        ..machine
                    },
                    shared,
                };
            let ended = Decoding {
                machine: DecodeLoop {
                    phase: Phase::Idle { millis: 20 },
                    draining: false,
                    ..machine
                },
                shared: SharedModel { eof: true, ..shared },
            };
            &&& machine.phase is Reading ==> decoding.step(DecodeEvent::EndOfInput, now)
                == Decoding {
                machine: DecodeLoop { phase: Phase::SendingEof, ..machine },
                shared,
            }
            &&& machine.phase is SendingEof ==> decoding.step(DecodeEvent::Done, now)
                == if machine.video_decoder {
                taking(Track::Video)
            } else if machine.audio_decoder {
                taking(Track::Audio)
            } else {
                ended
            }
            &&& machine.phase == (Phase::Receiving { track: Track::Video }) && machine.draining
                ==> decoding.step(DecodeEvent::NoFrame, now) == if machine.audio_decoder {
                taking(Track::Audio)
            } else {
                ended
            }
            &&& machine.phase == (Phase::Receiving { track: Track::Audio }) && machine.draining
                ==> decoding.step(DecodeEvent::NoFrame, now) == ended
        }),
{
}

/// The streams, their decoders and the unit of their times stay what they are,
/// and a converter that was made is kept.
pub proof fn law_machine_keeps_its_streams(decoding: Decoding, event: DecodeEvent, now: u64)
    ensures
        ({
            let next = decoding.step(event, now).machine;
            let machine = decoding.machine;
            &&& next.video_idx == machine.video_idx && next.audio_idx == machine.audio_idx
            &&& next.video_decoder == machine.video_decoder
            &&& next.audio_decoder == machine.audio_decoder
            &&& next.video_time_base == machine.video_time_base
            &&& machine.resampler_ready ==> next.resampler_ready
        }),
{
}

/// An answer to something else than what was to be done changes nothing.
pub proof fn law_stray_answers_do_not_move_the_machine(
    decoding: Decoding,
    event: DecodeEvent,
    now: u64,
)
    requires
        match decoding.machine.phase {
            Phase::Idle { .. } => event !is Done,
            Phase::Seeking { .. } => event !is SeekFinished,
            Phase::Flushing { .. } => event !is Done,
            Phase::Reading => event !is Packet && event !is EndOfInput,
            Phase::Sending { .. } => event !is PacketSent,
            Phase::SendingEof => event !is Done,
            Phase::Receiving { track: Track::Video } => event !is VideoFrame && event !is NoFrame,
            Phase::Receiving { track: Track::Audio } => event !is AudioFrame && event !is NoFrame,
            Phase::Scaling { .. } => event !is Scaled && event !is ScaleFailed,
            Phase::MakingResampler { .. } => event !is ResamplerMade,
            Phase::Resampling => event !is Resampled && event !is ResampleFailed,
            Phase::Finished => true,
        },
    ensures
        decoding.step(event, now) == decoding,
{
}

/// The decode thread begins with the streams that were found, a decoder for
/// each that could be opened, but for the sound only if the player has some,
/// and the unit of the pictures' times.
pub proof fn law_decode_thread_begins_with_its_streams(
    video_idx: Option<usize>,
    audio_idx: Option<usize>,
    video_opened: bool,
    audio_opened: bool,
    video_time_base: Rational,
    has_audio: bool,
    machine: DecodeLoop,
)
    requires
        call_ensures(
            DecodeLoop::new,
            (video_idx, audio_idx, video_opened, audio_opened, video_time_base, has_audio),
            machine,
        ),
    ensures
        machine.video_idx == video_idx && machine.audio_idx == audio_idx,
        machine.video_decoder <==> video_idx is Some && video_opened,
        machine.audio_decoder <==> audio_idx is Some && audio_opened && has_audio,
        video_time_base.den > 0 ==> machine.video_time_base == video_time_base,
        video_time_base.den <= 0 ==> machine.video_time_base.num == 0
            && machine.video_time_base.den == 1,
        !machine.resampler_ready && !machine.draining && machine.phase is Idle,
{
}

/// A step of the machine takes both the machine and the shared state one step
/// on, and names what is to be done in the phase that it comes to.
pub proof fn law_step_moves_machine_and_state_together(
    machine: &mut DecodeLoop,
    shared: &mut Shared,
    event: DecodeEvent,
    now: u64,
    action: DecodeAction,
)
    requires
        call_ensures(DecodeLoop::step, (machine, shared, event, now), action),
    ensures
        ({
            let before = Decoding { machine: *old(machine), shared: old(shared)@ };
            &&& *final(machine) == before.step(event, now).machine
            &&& final(shared)@ == before.step(event, now).shared
            &&& action == final(machine).phase.spec_action()
        }),
{
}

/// A picture that is converted enters the queue by one call, with the time that
/// it was given out with by the call before: its own timestamp in the unit of
/// the stream, or zero.
pub proof fn law_two_calls_queue_the_picture(
    machine: &mut DecodeLoop,
    shared: &mut Shared,
    timestamp: Option<i64>,
    t1: u64,
    a1: DecodeAction,
    machine2: &mut DecodeLoop,
    shared2: &mut Shared,
    rgb: Vec<u8>,
    t2: u64,
    a2: DecodeAction,
)
    requires
        old(machine).phase == (Phase::Receiving { track: Track::Video }),
        call_ensures(
            DecodeLoop::step,
            (machine, shared, DecodeEvent::VideoFrame { timestamp }, t1),
            a1,
        ),
        *old(machine2) == *final(machine),
        old(shared2)@ == final(shared)@,
        call_ensures(DecodeLoop::step, (machine2, shared2, DecodeEvent::Scaled { rgb }, t2), a2),
    ensures
        ({
            let q = old(shared).video_q@;
            let longer = final(shared2).video_q@;
            &&& a1 is ScaleFrame
            &&& a2 == (DecodeAction::ReceiveFrame { track: Track::Video })
            &&& longer.len() == q.len() + 1
            &&& longer.last().rgb == rgb
            &&& longer.last().pts.ticks == match timestamp {
                Some(t) => t,
                None => 0,
            }
            &&& longer.last().pts.unit == old(machine).video_time_base
            &&& forall|i: int| 0 <= i < q.len() ==> #[trigger] longer[i] == q[i]
        }),
{
    law_model_shows_every_field(*old(shared));
    law_model_shows_every_field(*final(shared2));
    assert(final(shared)@ == old(shared)@);
}

} // verus!
