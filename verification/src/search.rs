//! Finding one picture in a video: the one at a given time, or the next one.
use crate::error::MediaError;
use crate::info::{MediaInfo, MediaProbe, VideoProbe};
use crate::time::{spec_stream_ticks, stream_ticks, Rational, StreamSpan};
use vstd::prelude::*;

verus! {

/// A search for a time gives up on a packet that comes after more than this
/// many others.
pub const MAX_SEARCHED_PACKETS: u32 = 200;

/// The video stream that single pictures are taken from.
#[derive(Debug)]
pub struct VideoDecoder {
    pub stream_idx: usize,
    pub time_base: Rational,
    pub duration: StreamSpan,
    pub width: u32,
    pub height: u32,
    pub codec: String,
}

/// What is searched.
#[derive(Clone, Copy, Debug, PartialEq, Eq, Structural)]
pub enum Goal {
    /// The first picture at this tick of the stream or after it.
    At { target_ts: i64 },
    /// The next picture.
    Next,
}

/// What is to be done next.
#[derive(Clone, Copy, Debug, PartialEq, Eq, Structural)]
pub enum SearchAction {
    /// Read a packet.
    ReadPacket,
    /// Give the packet to the decoder.
    SendPacket,
    /// Take a picture from the decoder.
    ReceiveFrame,
    /// Look at the outcome.
    Finish,
}

/// How the last action went.
#[derive(Debug)]
pub enum SearchEvent {
    /// A packet of this stream was read.
    Packet { index: usize },
    /// There is no further packet.
    EndOfInput,
    /// The decoder took the packet.
    PacketSent,
    /// The decoder refused the packet, with these words.
    SendFailed { detail: String },
    /// A picture with this timestamp came out.
    Frame { timestamp: Option<i64> },
    /// No picture came out.
    NoFrame,
}

/// What the search waits for.
#[derive(Clone, Copy, Debug, PartialEq, Eq, Structural)]
pub enum SearchPhase {
    Reading,
    Sending,
    Receiving,
    Ended,
}

/// A search through the packets of a file: it names the next thing to do with
/// the demuxer and the decoder and is told how that went.
#[derive(Debug)]
pub struct FrameSearch {
    pub stream_idx: usize,
    pub goal: Goal,
    /// Packets seen, in a search for a time.
    pub packet_count: u32,
    /// The decoder gave out a picture.
    pub got_frame: bool,
    /// Why the search broke off, if it did.
    pub failure: Option<MediaError>,
    pub phase: SearchPhase,
}

impl VideoDecoder {
    /// The decoder is the one for this stream.
    pub open spec fn decodes(self, video: VideoProbe) -> bool {
        &&& self.stream_idx == video.index
        &&& self.time_base == video.time_base.spec_time_base()
        &&& self.duration == (StreamSpan {
            ticks: video.duration,
            unit: video.time_base.spec_time_base(),
        })
        &&& self.width == video.width
        &&& self.height == video.height
        &&& self.codec == video.codec_id
    }

    /// The video stream as it was found. Without a time base it has no length.
    pub fn new(video: VideoProbe) -> (decoder: VideoDecoder)
        ensures
            decoder.decodes(video),
    {
        let time_base = video.time_base.time_base();
        VideoDecoder {
            stream_idx: video.index,
            time_base,
            duration: StreamSpan { ticks: video.duration, unit: time_base },
            width: video.width,
            height: video.height,
            codec: video.codec_id,
        }
    }

    /// Starts the search for the picture at `nanos`, at the nearest tick of the
    /// stream.
    pub fn seek_frame(&self, nanos: i64) -> (search: FrameSearch)
        ensures
            search == FrameSearch::start(
                self.stream_idx,
                Goal::At { target_ts: spec_stream_ticks(nanos, self.time_base) },
            ),
    {
        FrameSearch::begin(
            self.stream_idx,
            Goal::At { target_ts: stream_ticks(nanos, self.time_base) },
        )
    }

    /// Starts the search for the next picture.
    pub fn read_next_frame(&self) -> (search: FrameSearch)
        ensures
            search == FrameSearch::start(self.stream_idx, Goal::Next),
    {
        FrameSearch::begin(self.stream_idx, Goal::Next)
    }
}

impl SearchPhase {
    /// What has to be done in this phase.
    pub open spec fn spec_action(self) -> SearchAction {
        match self {
            SearchPhase::Reading => SearchAction::ReadPacket,
            SearchPhase::Sending => SearchAction::SendPacket,
            SearchPhase::Receiving => SearchAction::ReceiveFrame,
            SearchPhase::Ended => SearchAction::Finish,
        }
    }

    /// What has to be done in this phase.
    pub fn action(&self) -> (action: SearchAction)
        ensures
            action == self.spec_action(),
    {
        match self {
            SearchPhase::Reading => SearchAction::ReadPacket,
            SearchPhase::Sending => SearchAction::SendPacket,
            SearchPhase::Receiving => SearchAction::ReceiveFrame,
            SearchPhase::Ended => SearchAction::Finish,
        }
    }
}

impl FrameSearch {
    /// A search that has seen nothing yet.
    pub open spec fn start(stream_idx: usize, goal: Goal) -> FrameSearch {
        FrameSearch {
            stream_idx,
            goal,
            packet_count: 0,
            got_frame: false,
            failure: None,
            phase: SearchPhase::Reading,
        }
    }

    fn begin(stream_idx: usize, goal: Goal) -> (search: FrameSearch)
        ensures
            search == FrameSearch::start(stream_idx, goal),
    {
        FrameSearch {
            stream_idx,
            goal,
            packet_count: 0,
            got_frame: false,
            failure: None,
            phase: SearchPhase::Reading,
        }
    }

    /// In another phase.
    pub open spec fn to(self, phase: SearchPhase) -> FrameSearch {
        FrameSearch { phase, ..self }
    }

    /// Broken off.
    pub open spec fn fail(self, error: MediaError) -> FrameSearch {
        FrameSearch { failure: Some(error), phase: SearchPhase::Ended, ..self }
    }

    /// The search gives up on a further packet.
    pub open spec fn exhausted(self) -> bool {
        self.goal is At && self.packet_count > MAX_SEARCHED_PACKETS
    }

    /// With one more packet seen; only a search for a time counts them.
    pub open spec fn count_packet(self) -> FrameSearch {
        match self.goal {
            Goal::At { .. } => FrameSearch {
                packet_count: (self.packet_count + 1) as u32,
                ..self
            },
            Goal::Next => self,
        }
    }

    /// A picture with this timestamp ends the search. One without a timestamp
    /// counts as zero.
    pub open spec fn satisfied_by(self, timestamp: Option<i64>) -> bool {
        match self.goal {
            Goal::At { target_ts } => timestamp.unwrap_or(0) >= target_ts,
            Goal::Next => true,
        }
    }

    /// What the search reports if the decoder refuses a packet, with the
    /// decoder's words.
    pub open spec fn refusal(self, detail: String) -> MediaError {
        match self.goal {
            Goal::At { .. } => MediaError::SendSeekPacket(detail),
            Goal::Next => MediaError::SendPacket(detail),
        }
    }

    /// What `event` leads to. Only packets of the stream go to the decoder. A
    /// search for a time that has seen too many packets gives up. An event that
    /// answers something else than what was to be done changes nothing.
    pub open spec fn after(self, event: SearchEvent) -> FrameSearch {
        match (self.phase, event) {
            (SearchPhase::Reading, SearchEvent::Packet { index }) => if self.exhausted() {
                self.fail(MediaError::FrameNotFound)
            } else if index == self.stream_idx {
                self.count_packet().to(SearchPhase::Sending)
            } else {
                self.count_packet()
            },
            (SearchPhase::Reading, SearchEvent::EndOfInput) => self.to(SearchPhase::Ended),
            (SearchPhase::Sending, SearchEvent::PacketSent) => self.to(SearchPhase::Receiving),
            (SearchPhase::Sending, SearchEvent::SendFailed { detail }) => self.fail(
                self.refusal(detail),
            ),
            (SearchPhase::Receiving, SearchEvent::Frame { timestamp }) => FrameSearch {
                got_frame: true,
                phase: if self.satisfied_by(timestamp) {
                    SearchPhase::Ended
                } else {
                    SearchPhase::Receiving
                },
                ..self
            },
            (SearchPhase::Receiving, SearchEvent::NoFrame) => self.to(SearchPhase::Reading),
            _ => self,
        }
    }

    /// What an ended search comes to. If it did not break off, it succeeds if
    /// the decoder gave out any picture, at the end of the file also one that
    /// lies before the target.
    pub open spec fn outcome(self) -> Result<(), MediaError> {
        match self.failure {
            Some(error) => Err(error),
            None => if self.got_frame {
                Ok(())
            } else {
                match self.goal {
                    Goal::At { .. } => Err(MediaError::UnreadableFrame),
                    Goal::Next => Err(MediaError::EndOfVideo),
                }
            },
        }
    }

    /// Takes in how the last action went and names the next one.
    pub fn step(&mut self, event: SearchEvent) -> (action: SearchAction)
        ensures
            *final(self) == old(self).after(event),
            action == final(self).phase.spec_action(),
    {
        match (self.phase, event) {
            (SearchPhase::Reading, SearchEvent::Packet { index }) => self.packet(index),
            (SearchPhase::Reading, SearchEvent::EndOfInput) => {
                self.phase = SearchPhase::Ended;
            },
            (SearchPhase::Sending, SearchEvent::PacketSent) => {
                self.phase = SearchPhase::Receiving;
            },
            (SearchPhase::Sending, SearchEvent::SendFailed { detail }) => {
                self.failure = Some(
                    match self.goal {
                        Goal::At { .. } => MediaError::SendSeekPacket(detail),
                        Goal::Next => MediaError::SendPacket(detail),
                    },
                );
                self.phase = SearchPhase::Ended;
            },
            (SearchPhase::Receiving, SearchEvent::Frame { timestamp }) => self.frame(timestamp),
            (SearchPhase::Receiving, SearchEvent::NoFrame) => {
                self.phase = SearchPhase::Reading;
            },
            _ => {},
        }
        self.phase.action()
    }

    fn packet(&mut self, index: usize)
        requires
            old(self).phase is Reading,
        ensures
            *final(self) == old(self).after(SearchEvent::Packet { index }),
    {
        if let Goal::At { .. } = self.goal {
            if self.packet_count > MAX_SEARCHED_PACKETS {
                self.failure = Some(MediaError::FrameNotFound);
                self.phase = SearchPhase::Ended;
                return;
            }
            self.packet_count = self.packet_count + 1;
        }
        if index == self.stream_idx {
            self.phase = SearchPhase::Sending;
        }
    }

    fn frame(&mut self, timestamp: Option<i64>)
        requires
            old(self).phase is Receiving,
        ensures
            *final(self) == old(self).after(SearchEvent::Frame { timestamp }),
    {
        self.got_frame = true;
        let found = match self.goal {
            Goal::At { target_ts } => match timestamp {
                Some(ts) => ts >= target_ts,
                None => 0 >= target_ts,
            },
            Goal::Next => true,
        };
        if found {
            self.phase = SearchPhase::Ended;
        }
    }

    /// What the search has come to.
    pub fn finish(self) -> (r: Result<(), MediaError>)
        ensures
            r == self.outcome(),
    {
        match self.failure {
            Some(error) => Err(error),
            None => {
                if self.got_frame {
                    Ok(())
                } else {
                    match self.goal {
                        Goal::At { .. } => Err(MediaError::UnreadableFrame),
                        Goal::Next => Err(MediaError::EndOfVideo),
                    }
                }
            },
        }
    }
}

/// A decoder and a description of the same file agree on the stream: the
/// codec's short name is the same, and so is the length, but for a stream
/// without a time base, which has no length for the decoder.
pub proof fn law_decoder_and_description_agree(
    decoder: VideoDecoder,
    video: VideoProbe,
    info: MediaInfo,
    file_path: &str,
    probe: MediaProbe,
)
    requires
        decoder.decodes(video),
        info.describes(file_path, probe),
        video.time_base == probe.time_base,
        video.duration == probe.duration,
        video.codec_id == probe.codec_id,
    ensures
        decoder.codec == info.codec_id,
        probe.time_base.den > 0 ==> decoder.time_base == probe.time_base && decoder.duration
            == info.duration,
        probe.time_base.den <= 0 ==> decoder.time_base == (Rational { num: 0, den: 1 })
            && decoder.duration.unit == (Rational { num: 0, den: 1 }),
{
}

/// The search after these events.
pub open spec fn after_events(search: FrameSearch, events: Seq<SearchEvent>) -> FrameSearch
    decreases events.len(),
{
    if events.len() == 0 {
        search
    } else {
        after_events(search, events.drop_last()).after(events.last())
    }
}

/// The `i`th event is a picture that the search took from the decoder.
pub open spec fn takes_picture(search: FrameSearch, events: Seq<SearchEvent>, i: int) -> bool {
    &&& 0 <= i < events.len()
    &&& after_events(search, events.take(i)).phase is Receiving
    &&& events[i] is Frame
}

/// The `i`th event is a packet that was refused by the decoder.
pub open spec fn loses_packet(search: FrameSearch, events: Seq<SearchEvent>, i: int) -> bool {
    &&& 0 <= i < events.len()
    &&& after_events(search, events.take(i)).phase is Sending
    &&& events[i] is SendFailed
}

/// How many packets the search has taken in.
pub open spec fn packets_taken(search: FrameSearch, events: Seq<SearchEvent>) -> nat
    decreases events.len(),
{
    if events.len() == 0 {
        0
    } else {
        let before = after_events(search, events.drop_last());
        packets_taken(search, events.drop_last()) + if before.phase is Reading && events.last() is
            Packet && !before.exhausted() {
            1nat
        } else {
            0
        }
    }
}

/// A search ends with the first picture that will do, and stays ended: no
/// picture that it took before would have done. It ends otherwise only at the
/// end of the file, with a packet that the decoder refuses, or when it gives
/// up.
pub proof fn law_search_ends_with_the_first_picture_that_will_do(
    stream_idx: usize,
    goal: Goal,
    events: Seq<SearchEvent>,
)
    ensures
        ({
            let start = FrameSearch::start(stream_idx, goal);
            let end = after_events(start, events);
            &&& forall|i: int| #[trigger]
                takes_picture(start, events, i) && start.satisfied_by(events[i]->timestamp)
                    ==> end == after_events(start, events.take(i + 1)) && end.phase is Ended
                    && end.outcome() is Ok
            &&& end.phase is Ended ==> {
                ||| exists|i: int| #[trigger]
                    takes_picture(start, events, i) && start.satisfied_by(events[i]->timestamp)
                ||| end.failure is Some
                ||| exists|i: int|
                    0 <= i < events.len() && #[trigger] events[i] is EndOfInput && after_events(
                        start,
                        events.take(i),
                    ).phase is Reading
            }
        }),
    decreases events.len(),
{
    let start = FrameSearch::start(stream_idx, goal);
    let end = after_events(start, events);
    lemma_search_keeps_its_goal(stream_idx, goal, events);
    if events.len() > 0 {
        let n = events.len() - 1;
        let earlier = events.drop_last();
        let before = after_events(start, earlier);
        assert(events.take(n) =~= earlier);
        assert(events.take(n + 1) =~= events);
        law_search_ends_with_the_first_picture_that_will_do(stream_idx, goal, earlier);
        lemma_search_keeps_its_goal(stream_idx, goal, earlier);
        assert forall|i: int| #[trigger]
            takes_picture(start, events, i) && start.satisfied_by(events[i]->timestamp) implies end
            == after_events(start, events.take(i + 1)) && end.phase is Ended
            && end.outcome() is Ok by {
            if i < n {
                assert(events.take(i) =~= earlier.take(i));
                assert(events.take(i + 1) =~= earlier.take(i + 1));
                assert(takes_picture(start, earlier, i));
            }
        }
        if end.phase is Ended {
            if before.phase is Ended {
                if exists|i: int| #[trigger]
                    takes_picture(start, earlier, i) && start.satisfied_by(
                        earlier[i]->timestamp,
                    ) {
                    let i = choose|i: int| #[trigger]
                        takes_picture(start, earlier, i) && start.satisfied_by(
                            earlier[i]->timestamp,
                        );
                    assert(events.take(i) =~= earlier.take(i));
                    assert(takes_picture(start, events, i));
                } else if before.failure is None {
                    let i = choose|i: int|
                        0 <= i < earlier.len() && #[trigger] earlier[i] is EndOfInput
                            && after_events(start, earlier.take(i)).phase is Reading;
                    assert(events.take(i) =~= earlier.take(i));
                    assert(events[i] is EndOfInput);
                }
            } else if before.phase is Receiving {
                assert(takes_picture(start, events, n));
            } else if before.phase is Reading && events.last() is EndOfInput {
                assert(events[n] is EndOfInput);
            }
        }
    }
}

proof fn lemma_search_keeps_its_goal(stream_idx: usize, goal: Goal, events: Seq<SearchEvent>)
    ensures
        ({
            let start = FrameSearch::start(stream_idx, goal);
            let end = after_events(start, events);
            &&& end.stream_idx == stream_idx
            &&& end.goal == goal
            &&& end.failure is Some ==> end.phase is Ended
            &&& goal is At ==> end.packet_count == packets_taken(start, events)
            &&& goal is At ==> packets_taken(start, events) <= MAX_SEARCHED_PACKETS + 1
        }),
    decreases events.len(),
{
    if events.len() > 0 {
        lemma_search_keeps_its_goal(stream_idx, goal, events.drop_last());
    }
}

/// A search for the next picture fails with the end of the video exactly if
/// the packets run out before the decoder gives out a picture, where the
/// decoder refuses none. Once the file is at its end, a further search fails
/// in the same way.
pub proof fn law_end_of_video_comes_without_a_picture(
    stream_idx: usize,
    events: Seq<SearchEvent>,
)
    requires
        forall|i: int| !loses_packet(FrameSearch::start(stream_idx, Goal::Next), events, i),
        after_events(FrameSearch::start(stream_idx, Goal::Next), events).phase is Ended,
    ensures
        ({
            let start = FrameSearch::start(stream_idx, Goal::Next);
            let end = after_events(start, events);
            let without = forall|i: int| !takes_picture(start, events, i);
            let again = after_events(start, seq![SearchEvent::EndOfInput]);
            &&& end.outcome() == if without {
                Err::<(), MediaError>(MediaError::EndOfVideo)
            } else {
                Ok(())
            }
            &&& again.phase is Ended
            &&& again.outcome() == Err::<(), MediaError>(MediaError::EndOfVideo)
        }),
{
    let start = FrameSearch::start(stream_idx, Goal::Next);
    lemma_what_a_search_has_seen(stream_idx, Goal::Next, events);
    lemma_search_keeps_its_goal(stream_idx, Goal::Next, events);
    reveal_with_fuel(after_events, 2);
    assert(seq![SearchEvent::EndOfInput].drop_last() =~= Seq::empty());
}

/// A search has a picture exactly if it took one from the decoder, and has
/// failed exactly if the decoder refused a packet or the search gave up.
proof fn lemma_what_a_search_has_seen(stream_idx: usize, goal: Goal, events: Seq<SearchEvent>)
    ensures
        ({
            let start = FrameSearch::start(stream_idx, goal);
            let end = after_events(start, events);
            &&& end.got_frame <==> exists|i: int| takes_picture(start, events, i)
            &&& end.failure is Some ==> end.failure == Some(MediaError::FrameNotFound) && goal is At
                || exists|i: int| loses_packet(start, events, i)
        }),
    decreases events.len(),
{
    let start = FrameSearch::start(stream_idx, goal);
    if events.len() > 0 {
        let n = events.len() - 1;
        let earlier = events.drop_last();
        let before = after_events(start, earlier);
        lemma_what_a_search_has_seen(stream_idx, goal, earlier);
        lemma_search_keeps_its_goal(stream_idx, goal, earlier);
        assert(events.take(n) =~= earlier);
        assert forall|i: int| 0 <= i < n implies takes_picture(start, events, i) == takes_picture(
            start,
            earlier,
            i,
        ) && loses_packet(start, events, i) == loses_packet(start, earlier, i) by {
            assert(events.take(i) =~= earlier.take(i));
        }
        if before.got_frame {
            let i = choose|i: int| takes_picture(start, earlier, i);
            assert(takes_picture(start, events, i));
        }
        if before.failure is Some && exists|i: int| loses_packet(start, earlier, i) {
            let i = choose|i: int| loses_packet(start, earlier, i);
            assert(loses_packet(start, events, i));
        }
        if before.phase is Receiving && events.last() is Frame {
            assert(takes_picture(start, events, n));
        }
        if before.phase is Sending && events.last() is SendFailed {
            assert(loses_packet(start, events, n));
        }
    }
}

/// A search for a time takes in two hundred and one packets and gives up on
/// the next, exactly then; a search for the next picture takes in all there
/// are.
pub proof fn law_search_for_a_time_gives_up(
    stream_idx: usize,
    goal: Goal,
    events: Seq<SearchEvent>,
    index: usize,
)
    requires
        after_events(FrameSearch::start(stream_idx, goal), events).phase is Reading,
    ensures
        ({
            let start = FrameSearch::start(stream_idx, goal);
            let now = after_events(start, events);
            let next = now.after(SearchEvent::Packet { index });
            let gives_up = goal is At && packets_taken(start, events) > 200;
            &&& goal is At ==> packets_taken(start, events) <= 201
            &&& now.failure is None
            &&& gives_up ==> next.phase is Ended && next.outcome() == Err::<(), MediaError>(
                MediaError::FrameNotFound,
            )
            &&& !gives_up ==> next.phase is Reading || next.phase is Sending
        }),
{
    lemma_search_keeps_its_goal(stream_idx, goal, events);
}

/// A decoder has of the stream what was found of it. A stream without a
/// positive denominator in its time base has no length.
pub proof fn law_decoder_has_what_was_found(decoder: VideoDecoder, video: VideoProbe)
    requires
        decoder.decodes(video),
    ensures
        decoder.stream_idx == video.index,
        decoder.width == video.width,
        decoder.height == video.height,
        decoder.codec == video.codec_id,
        decoder.duration.ticks == video.duration,
        decoder.duration.unit == decoder.time_base,
        video.time_base.den > 0 ==> decoder.time_base == video.time_base,
        video.time_base.den <= 0 ==> decoder.time_base.num == 0 && decoder.time_base.den == 1,
{
}

/// A search begins by reading, with nothing seen, for the goal and in the
/// stream that were named.
pub proof fn law_search_begins_with_nothing_seen(stream_idx: usize, goal: Goal)
    ensures
        ({
            let start = FrameSearch::start(stream_idx, goal);
            &&& start.stream_idx == stream_idx && start.goal == goal
            &&& start.packet_count == 0 && !start.got_frame && start.failure is None
            &&& start.phase is Reading
        }),
{
}

/// What is named to be done is what the search waits for.
pub proof fn law_search_names_what_it_waits_for(phase: SearchPhase)
    ensures
        phase is Reading <==> phase.spec_action() is ReadPacket,
        phase is Sending <==> phase.spec_action() is SendPacket,
        phase is Receiving <==> phase.spec_action() is ReceiveFrame,
        phase is Ended <==> phase.spec_action() is Finish,
{
}

/// Of the packets that are read, all of the stream go to the decoder and no
/// other does. A search for a time counts them and breaks off with the one that
/// comes when it has counted more than two hundred; a search for the next
/// picture does neither.
pub proof fn law_packets_of_the_stream_are_sent(search: FrameSearch, index: usize)
    requires
        search.phase is Reading,
    ensures
        ({
            let next = search.after(SearchEvent::Packet { index });
            let gives_up = search.goal is At && search.packet_count > 200;
            &&& gives_up ==> next.phase is Ended && next.failure == Some(MediaError::FrameNotFound)
                && next.packet_count == search.packet_count
            &&& !gives_up ==> {
                &&& next.phase is Sending <==> index == search.stream_idx
                &&& next.phase is Reading <==> index != search.stream_idx
                &&& next.failure == search.failure
                &&& next.packet_count == search.packet_count + if search.goal is At {
                    1int
                } else {
                    0
                }
            }
            &&& next.got_frame == search.got_frame
            &&& next.goal == search.goal && next.stream_idx == search.stream_idx
        }),
{
}

/// A packet that the decoder took is followed by taking pictures until it has
/// none, and then by the next packet; one that it refused ends the search with
/// the decoder's own words. At the end of the file the search ends.
pub proof fn law_search_goes_from_packet_to_pictures(search: FrameSearch, detail: String)
    ensures
        search.phase is Sending ==> {
            let sent = search.after(SearchEvent::PacketSent);
            let refused = search.after(SearchEvent::SendFailed { detail });
            &&& sent.phase is Receiving
            &&& (FrameSearch { phase: search.phase, ..sent }) == search
            &&& refused.phase is Ended
            &&& refused.failure == Some(
                if search.goal is At {
                    MediaError::SendSeekPacket(detail)
                } else {
                    MediaError::SendPacket(detail)
                },
            )
            &&& (FrameSearch { phase: search.phase, failure: search.failure, ..refused }) == search
        },
        search.phase is Receiving ==> {
            let dry = search.after(SearchEvent::NoFrame);
            &&& dry.phase is Reading
            &&& (FrameSearch { phase: search.phase, ..dry }) == search
        },
        search.phase is Reading ==> {
            let end = search.after(SearchEvent::EndOfInput);
            &&& end.phase is Ended
            &&& (FrameSearch { phase: search.phase, ..end }) == search
        },
{
}

/// An answer to something else than what was to be done changes nothing, and
/// an ended search stays as it is.
pub proof fn law_stray_answers_do_not_move_the_search(search: FrameSearch, event: SearchEvent)
    ensures
        search.phase is Reading && event !is Packet && event !is EndOfInput ==> search.after(event)
            == search,
        search.phase is Sending && event !is PacketSent && event !is SendFailed ==> search.after(
            event,
        ) == search,
        search.phase is Receiving && event !is Frame && event !is NoFrame ==> search.after(event)
            == search,
        search.phase is Ended ==> search.after(event) == search,
{
}

/// A picture ends a search for a time exactly if its timestamp, or zero where
/// it has none, is not before the target; a search for the next picture ends
/// with any. Either way a picture was found, and nothing else changes.
pub proof fn law_picture_at_the_target_ends_the_search(
    search: FrameSearch,
    timestamp: Option<i64>,
)
    requires
        search.phase is Receiving,
    ensures
        ({
            let next = search.after(SearchEvent::Frame { timestamp });
            let tick = match timestamp {
                Some(t) => t,
                None => 0,
            };
            &&& next.got_frame
            &&& search.goal matches Goal::At { target_ts } ==> {
                &&& tick >= target_ts ==> next.phase is Ended
                &&& tick < target_ts ==> next.phase is Receiving
            }
            &&& search.goal is Next ==> next.phase is Ended
            &&& (FrameSearch { phase: search.phase, got_frame: search.got_frame, ..next }) == search
        }),
{
}

/// A search for a time that ends with a picture, and not at the end of the file
/// or because it broke off, ends with one at the target or after it: its
/// timestamp, or zero where it has none, is at least the target tick. Every
/// picture that was taken before has a smaller one.
pub proof fn law_search_for_a_time_ends_at_the_target(
    stream_idx: usize,
    target_ts: i64,
    events: Seq<SearchEvent>,
)
    requires
        events.len() > 0,
        ({
            let start = FrameSearch::start(stream_idx, Goal::At { target_ts });
            &&& after_events(start, events.drop_last()).phase !is Ended
            &&& after_events(start, events).phase is Ended
            &&& after_events(start, events).failure is None
            &&& events.last() !is EndOfInput
        }),
    ensures
        events.last() matches SearchEvent::Frame { timestamp } && (match timestamp {
            Some(t) => t >= target_ts,
            None => 0 >= target_ts,
        }),
        forall|i: int|
            #![trigger events[i]]
            0 <= i < events.len() - 1 && events[i] is Frame && after_events(
                FrameSearch::start(stream_idx, Goal::At { target_ts }),
                events.take(i),
            ).phase is Receiving ==> (match events[i]->timestamp {
                Some(t) => t < target_ts,
                None => 0 < target_ts,
            }),
{
    let goal = Goal::At { target_ts };
    let start = FrameSearch::start(stream_idx, goal);
    let earlier = events.drop_last();
    lemma_search_keeps_its_goal(stream_idx, goal, earlier);
    assert forall|i: int|
        #![trigger events[i]]
        0 <= i < events.len() - 1 && events[i] is Frame && after_events(
            start,
            events.take(i),
        ).phase is Receiving implies (match events[i]->timestamp {
        Some(t) => t < target_ts,
        None => 0 < target_ts,
    }) by {
        assert(events.take(i) =~= earlier.take(i));
        assert(takes_picture(start, earlier, i));
        law_search_ends_with_the_first_picture_that_will_do(stream_idx, goal, earlier);
    }
}

/// What an ended search comes to: its failure if it broke off; else success if
/// there was any picture, and else that there was none to read or, for the next
/// picture, that the video is at its end.
pub proof fn law_outcome_follows_what_was_seen(search: FrameSearch)
    ensures
        search.failure matches Some(error) ==> search.outcome() == Err::<(), MediaError>(error),
        search.failure is None && search.got_frame ==> search.outcome() is Ok,
        search.failure is None && !search.got_frame && search.goal is At ==> search.outcome()
            == Err::<(), MediaError>(MediaError::UnreadableFrame),
        search.failure is None && !search.got_frame && search.goal is Next ==> search.outcome()
            == Err::<(), MediaError>(MediaError::EndOfVideo),
{
}

/// A decoder searches in its own stream: for a time, for the tick that is
/// nearest to it, and for the next picture, for any.
pub proof fn law_decoder_searches_its_own_stream(
    decoder: &VideoDecoder,
    nanos: i64,
    at: FrameSearch,
    next: FrameSearch,
)
    requires
        call_ensures(VideoDecoder::seek_frame, (decoder, nanos), at),
        call_ensures(VideoDecoder::read_next_frame, (decoder,), next),
    ensures
        at.stream_idx == decoder.stream_idx && next.stream_idx == decoder.stream_idx,
        at.goal == (Goal::At { target_ts: spec_stream_ticks(nanos, decoder.time_base) }),
        next.goal is Next,
        at.phase is Reading && at.packet_count == 0 && !at.got_frame && at.failure is None,
        next.phase is Reading && next.packet_count == 0 && !next.got_frame && next.failure is None,
{
}

/// A decoder that is made for a stream is the one for that stream.
pub proof fn law_new_decoder_has_what_was_found(video: VideoProbe, decoder: VideoDecoder)
    requires
        call_ensures(VideoDecoder::new, (video,), decoder),
    ensures
        decoder.stream_idx == video.index,
        decoder.width == video.width && decoder.height == video.height,
        decoder.codec == video.codec_id,
        decoder.duration.ticks == video.duration,
        decoder.duration.unit == decoder.time_base,
        video.time_base.den > 0 ==> decoder.time_base == video.time_base,
        video.time_base.den <= 0 ==> decoder.time_base.num == 0 && decoder.time_base.den == 1,
{
}

/// A call of the search takes it one event on and names what is to be done
/// next; its last call says what it has come to.
pub proof fn law_search_calls_follow_the_events(
    search: &mut FrameSearch,
    event: SearchEvent,
    action: SearchAction,
    ended: FrameSearch,
    r: Result<(), MediaError>,
)
    requires
        call_ensures(FrameSearch::step, (search, event), action),
        call_ensures(FrameSearch::finish, (ended,), r),
    ensures
        *final(search) == old(search).after(event),
        action == final(search).phase.spec_action(),
        r is Ok <==> ended.failure is None && ended.got_frame,
        r == ended.outcome(),
{
}

/// A picture that comes out while a search for a time takes pictures ends it by
/// that call exactly if its timestamp, or zero where it has none, is at least
/// the target; else the decoder is asked for the next one.
pub proof fn law_call_with_a_picture_at_the_target_ends_the_search(
    search: &mut FrameSearch,
    timestamp: Option<i64>,
    action: SearchAction,
)
    requires
        call_ensures(FrameSearch::step, (search, SearchEvent::Frame { timestamp }), action),
        old(search).phase is Receiving,
    ensures
        old(search).goal matches Goal::At { target_ts } ==> {
            let tick = match timestamp {
                Some(t) => t,
                None => 0,
            };
            &&& tick >= target_ts ==> action is Finish
            &&& tick < target_ts ==> action is ReceiveFrame
        },
        old(search).goal is Next ==> action is Finish,
        final(search).got_frame,
{
}

} // verus!
