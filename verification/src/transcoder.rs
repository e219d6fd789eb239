//! The fixed invocation of the external transcoder.
//!
//! The transcoder is an external program launched once at startup with
//! an argument list fixed by policy: stream the RTSP source without
//! re-encoding into 1-second MPEG-TS segments named `live-%08d.ts`,
//! retain two of them, and keep the playlist `index.m3u8` beside them.
//! The process must run with the segment directory as its working
//! directory so the relative output paths land there. Spawning and
//! supervising the process is operating-system work done outside this
//! module; the exact argument list is decided here.

use vstd::prelude::*;
use vstd::string::StringExecFns;

verus! {

/// The length of each HLS segment, in seconds.
pub const SEGMENT_LENGTH_SECS: u64 = 1;

/// How many segments the transcoder retains in the directory and lists
/// in the playlist.
pub const SEGMENT_COUNT: u64 = 2;

/// How many segment lengths of an unchanged fragment set the watchdog
/// tolerates before declaring a stall. A tunable policy constant.
pub const GRACE_MULTIPLIER: u64 = 10;

/// The watchdog sampling period, in seconds: one full grace period.
pub const WATCHDOG_PERIOD_SECS: u64 = SEGMENT_LENGTH_SECS * GRACE_MULTIPLIER;

/// The name of the external transcoder program.
pub fn transcoder_program() -> (r: &'static str)
    ensures
        r@ == "gst-launch-1.0"@,
{
    "gst-launch-1.0"
}

/// The full transcoder argument list for a given RTSP source URL: the
/// source element with its location, the depay/parse/remux pipeline,
/// and the HLS sink with the retention policy, the segment name
/// template `live-%08d.ts` (which the fragment-path grammar mirrors)
/// and the playlist name `index.m3u8`.
pub open spec fn spec_transcoder_args(source: Seq<char>) -> Seq<Seq<char>> {
    seq![
        "rtspsrc"@,
        "location="@ + source,
        "!"@,
        "queue"@,
        "!"@,
        "rtph264depay"@,
        "!"@,
        "h264parse"@,
        "!"@,
        "mpegtsmux"@,
        "!"@,
        "hlssink"@,
        "max-files=2"@,
        "playlist-length=2"@,
        "target-duration=1"@,
        "playlist-location=index.m3u8"@,
        "location=live-%08d.ts"@,
    ]
}

/// Builds the transcoder argument list for `source`.
pub fn transcoder_args(source: &str) -> (args: Vec<String>)
    ensures
        args@.map_values(|a: String| a@) == spec_transcoder_args(source@),
{
    let mut args: Vec<String> = Vec::new();
    args.push(String::from_str("rtspsrc"));
    args.push(String::from_str("location=").concat(source));
    args.push(String::from_str("!"));
    args.push(String::from_str("queue"));
    args.push(String::from_str("!"));
    args.push(String::from_str("rtph264depay"));
    args.push(String::from_str("!"));
    args.push(String::from_str("h264parse"));
    args.push(String::from_str("!"));
    args.push(String::from_str("mpegtsmux"));
    args.push(String::from_str("!"));
    args.push(String::from_str("hlssink"));
    args.push(String::from_str("max-files=2"));
    args.push(String::from_str("playlist-length=2"));
    args.push(String::from_str("target-duration=1"));
    args.push(String::from_str("playlist-location=index.m3u8"));
    args.push(String::from_str("location=live-%08d.ts"));
    proof {
        assert(args@.map_values(|a: String| a@) =~= spec_transcoder_args(source@));
    }
    args
}

} // verus!
