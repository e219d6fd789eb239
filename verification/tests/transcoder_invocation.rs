//! Tests for the fixed transcoder invocation.

use rtsp2hls::transcoder::{
    transcoder_args, transcoder_program, GRACE_MULTIPLIER, SEGMENT_COUNT, SEGMENT_LENGTH_SECS,
    WATCHDOG_PERIOD_SECS,
};

#[test]
fn policy_constants() {
    assert_eq!(SEGMENT_LENGTH_SECS, 1);
    assert_eq!(SEGMENT_COUNT, 2);
    assert_eq!(GRACE_MULTIPLIER, 10);
    assert_eq!(WATCHDOG_PERIOD_SECS, 10);
    assert_eq!(transcoder_program(), "gst-launch-1.0");
}

#[test]
fn argument_list_is_fixed_up_to_the_source() {
    let args = transcoder_args("rtsp://cam.example/1");
    let expected: Vec<String> = [
        "rtspsrc",
        "location=rtsp://cam.example/1",
        "!",
        "queue",
        "!",
        "rtph264depay",
        "!",
        "h264parse",
        "!",
        "mpegtsmux",
        "!",
        "hlssink",
        "max-files=2",
        "playlist-length=2",
        "target-duration=1",
        "playlist-location=index.m3u8",
        "location=live-%08d.ts",
    ]
    .iter()
    .map(|a| a.to_string())
    .collect();
    assert_eq!(args, expected);
}

#[test]
fn source_is_spliced_into_the_location_argument() {
    let args = transcoder_args("rtsps://192.168.178.69:322/streaming/live/1");
    assert_eq!(args[1], "location=rtsps://192.168.178.69:322/streaming/live/1");
}
