# media_engine

The rules of a media player with synchronized pictures and sound, verified with
Verus, and a Python module around them.

`src/` is the verified library. It opens no file, talks to no device and reads
no clock; it decides, and its contracts say what.

- `time`: stream time, played time and the conversions between them
- `shared`: the clock, the queue of pictures and the buffer of samples
- `player`: the player as its caller sees it
- `decode`: the decode thread as a machine of actions and events
- `search`: finding one picture in a video, as a machine of actions and events
- `image`, `sample`: packed pictures and samples
- `info`: what is known of a file before it is decoded
- `error`: what can go wrong, which exception it becomes and what it says

Time is kept in nanoseconds, with an exact rest where sound counts, and in ticks
of a stream's time base, never in floating point. The clock counts the sound
that was handed to the device; without sound, and until the device first asks
for some, it counts the time that goes by. While a jump is asked for it stands
still. A paused player is silent and its clock stands still too, so that it goes
on exactly where it was paused; a closed one does not go on. At the end of a
file the decoders give out every picture that they still hold before the end is
reported.

`app/` is the Python module: FFmpeg for demuxing, decoding, scaling and
resampling, cpal for sound, NumPy for pictures.

The contracts of three `ndarray` functions are trusted: see `src/image.rs`.
