//! What is known of a file before any of it is decoded.
use crate::time::{Rational, StreamSpan};
use vstd::prelude::*;

verus! {

/// What the demuxer and the decoder report of a video stream that is to be
/// decoded.
#[derive(Debug)]
pub struct VideoProbe {
    pub index: usize,
    pub time_base: Rational,
    /// Length in ticks of the time base.
    pub duration: i64,
    pub frame_rate: Rational,
    pub codec_id: String,
    pub width: u32,
    pub height: u32,
}

/// What the demuxer reports of a file and its video stream, and what is known
/// of the codec without decoding.
#[derive(Debug)]
pub struct MediaProbe {
    pub time_base: Rational,
    /// Length in ticks of the time base.
    pub duration: i64,
    pub frame_rate: Rational,
    pub codec_id: String,
    /// The codec in words, if there is a decoder for it.
    pub codec: Option<String>,
    /// Bits a second of the whole file.
    pub bitrate: i64,
    /// Width and height, if the decoder could be opened.
    pub size: Option<(u32, u32)>,
}

/// A description of a media file.
#[derive(Debug)]
pub struct MediaInfo {
    pub path: String,
    pub duration: StreamSpan,
    pub width: u32,
    pub height: u32,
    /// Pictures a second.
    pub fps: Rational,
    pub codec: String,
    pub codec_id: String,
    pub bitrate: i64,
}

impl MediaInfo {
    /// This is the description of the file at `file_path`.
    pub open spec fn describes(self, file_path: &str, probe: MediaProbe) -> bool {
        &&& self.path@ == file_path@
        &&& self.duration == (StreamSpan { ticks: probe.duration, unit: probe.time_base })
        &&& (self.width, self.height) == match probe.size {
            Some(size) => size,
            None => (0u32, 0u32),
        }
        &&& self.fps == probe.frame_rate.spec_or(Rational { num: 0, den: 1 })
        &&& self.codec@ == match probe.codec {
            Some(codec) => codec@,
            None => "Tidak diketahui"@,
        }
        &&& self.codec_id == probe.codec_id
        &&& self.bitrate == probe.bitrate
    }

    /// The description of the file at `file_path`. A stream without a rate has
    /// no pictures a second, a codec without a decoder is unknown, and a
    /// picture that cannot be opened has no size.
    pub fn new(file_path: &str, probe: MediaProbe) -> (info: MediaInfo)
        ensures
            info.describes(file_path, probe),
    {
        let (width, height) = match probe.size {
            Some(size) => size,
            None => (0u32, 0u32),
        };
        MediaInfo {
            path: file_path.to_owned(),
            duration: StreamSpan { ticks: probe.duration, unit: probe.time_base },
            width,
            height,
            fps: probe.frame_rate.or(Rational { num: 0, den: 1 }),
            codec: match probe.codec {
                Some(codec) => codec,
                None => "Tidak diketahui".to_owned(),
            },
            codec_id: probe.codec_id,
            bitrate: probe.bitrate,
        }
    }
}

/// A description says of a file what was found of it, each thing in its place,
/// and nothing, zero or unknown where nothing was found.
pub proof fn law_description_says_what_was_found(
    info: MediaInfo,
    file_path: &str,
    probe: MediaProbe,
)
    requires
        info.describes(file_path, probe),
    ensures
        info.path@ == file_path@,
        info.duration.ticks == probe.duration,
        info.duration.unit == probe.time_base,
        probe.size matches Some((width, height)) ==> info.width == width && info.height == height,
        probe.size is None ==> info.width == 0 && info.height == 0,
        probe.frame_rate.den > 0 ==> info.fps == probe.frame_rate,
        probe.frame_rate.den <= 0 ==> info.fps.num == 0 && info.fps.den == 1,
        probe.codec matches Some(codec) ==> info.codec@ == codec@,
        probe.codec is None ==> info.codec@ == "Tidak diketahui"@,
        info.codec_id == probe.codec_id,
        info.bitrate == probe.bitrate,
{
}

/// A description that is made says of the file what was found of it.
pub proof fn law_new_description_says_what_was_found(
    file_path: &str,
    probe: MediaProbe,
    info: MediaInfo,
)
    requires
        call_ensures(MediaInfo::new, (file_path, probe), info),
    ensures
        info.path@ == file_path@,
        info.duration.ticks == probe.duration && info.duration.unit == probe.time_base,
        probe.size matches Some((width, height)) ==> info.width == width && info.height == height,
        probe.size is None ==> info.width == 0 && info.height == 0,
        probe.frame_rate.den > 0 ==> info.fps == probe.frame_rate,
        probe.frame_rate.den <= 0 ==> info.fps.num == 0 && info.fps.den == 1,
        probe.codec matches Some(codec) ==> info.codec@ == codec@,
        probe.codec is None ==> info.codec@ == "Tidak diketahui"@,
        info.codec_id == probe.codec_id,
        info.bitrate == probe.bitrate,
{
}

} // verus!
