use video_probe::decode::decode_report;
use video_probe::dialog::{chosen_path, video_extensions};
use video_probe::json::Json;
use video_probe::probe::{
    get_video_info, probe_args, probe_program, run_outcome, video_info, ProbeError, RunOutput,
    VideoInfo,
};
use video_probe::rate::FrameRate;

fn ok_run(stdout: &str) -> Result<RunOutput, String> {
    Ok(RunOutput { success: true, stdout: stdout.as_bytes().to_vec(), stderr: String::new() })
}

fn probe_json(stdout: &str) -> Result<VideoInfo, ProbeError> {
    get_video_info(ok_run(stdout))
}

fn fps_of(info: &VideoInfo) -> f32 {
    match &info.frame_rate {
        Some(r) => match (r.numerator.parse::<f32>(), r.denominator.parse::<f32>()) {
            (Ok(n), Ok(d)) => n / d,
            _ => 0.0,
        },
        None => 0.0,
    }
}

fn duration_of(info: &VideoInfo) -> f32 {
    info.duration.as_deref().unwrap_or("0").parse::<f32>().unwrap_or(0.0)
}

fn parse_message(r: Result<VideoInfo, ProbeError>) -> String {
    match r {
        Err(ProbeError::Parse(m)) => m,
        Err(e) => panic!("unexpected error {}", e.message()),
        Ok(_) => panic!("unexpected success"),
    }
}

const FULL: &str = r#"{"streams":[{"codec_type":"audio","codec_name":"aac"},
{"codec_type":"video","codec_name":"h264","width":1920,"height":1080,"r_frame_rate":"30000/1001"}],
"format":{"duration":"12.5"}}"#;

#[test]
fn full_report_gives_all_fields() {
    let info = probe_json(FULL).unwrap();
    assert_eq!(info.width, 1920);
    assert_eq!(info.height, 1080);
    assert_eq!(info.codec, "h264");
    assert_eq!(info.duration.as_deref(), Some("12.5"));
    assert_eq!(duration_of(&info), 12.5);
    let rate = info.frame_rate.as_ref().unwrap();
    assert_eq!(rate.numerator, "30000");
    assert_eq!(rate.denominator, "1001");
    assert!((fps_of(&info) - 29.97).abs() < 0.01);
}

#[test]
fn missing_streams_is_invalid_output() {
    let m = parse_message(probe_json(r#"{"format":{"duration":"3.0"},"other":[1,2]}"#));
    assert_eq!(m, "invalid probe output");
}

#[test]
fn streams_not_an_array_is_invalid_output() {
    let m = parse_message(probe_json(r#"{"streams":{"codec_type":"video"}}"#));
    assert_eq!(m, "invalid probe output");
}

#[test]
fn only_audio_has_no_video_stream() {
    let m = parse_message(probe_json(r#"{"streams":[{"codec_type":"audio","codec_name":"aac"}]}"#));
    assert_eq!(m, "no video stream");
}

#[test]
fn empty_streams_has_no_video_stream() {
    let m = parse_message(probe_json(r#"{"streams":[]}"#));
    assert_eq!(m, "no video stream");
}

#[test]
fn missing_frame_rate_gives_zero_fps() {
    let info = probe_json(
        r#"{"streams":[{"codec_type":"video","codec_name":"vp9","width":640,"height":360}],
        "format":{"duration":"7.25"}}"#,
    )
    .unwrap();
    assert!(info.frame_rate.is_none());
    assert_eq!(fps_of(&info), 0.0);
    assert_eq!(info.width, 640);
    assert_eq!(info.height, 360);
    assert_eq!(info.codec, "vp9");
    assert_eq!(duration_of(&info), 7.25);
}

#[test]
fn missing_fields_default() {
    let info = probe_json(r#"{"streams":[{"codec_type":"video"}]}"#).unwrap();
    assert_eq!(info.width, 0);
    assert_eq!(info.height, 0);
    assert_eq!(info.codec, "");
    assert!(info.duration.is_none());
    assert_eq!(duration_of(&info), 0.0);
    assert!(info.frame_rate.is_none());
}

#[test]
fn fractional_width_defaults_to_zero() {
    let info = probe_json(r#"{"streams":[{"codec_type":"video","width":12.5,"height":"720"}]}"#).unwrap();
    assert_eq!(info.width, 0);
    assert_eq!(info.height, 0);
}

#[test]
fn first_video_stream_is_taken() {
    let info = probe_json(
        r#"{"streams":[{"codec_type":"video","codec_name":"mjpeg"},{"codec_type":"video","codec_name":"h264"}]}"#,
    )
    .unwrap();
    assert_eq!(info.codec, "mjpeg");
}

#[test]
fn rate_with_two_slashes_is_absent() {
    let info = probe_json(r#"{"streams":[{"codec_type":"video","r_frame_rate":"30/1/2"}]}"#).unwrap();
    assert!(info.frame_rate.is_none());
}

#[test]
fn rate_without_slash_is_absent() {
    let info = probe_json(r#"{"streams":[{"codec_type":"video","r_frame_rate":"25"}]}"#).unwrap();
    assert!(info.frame_rate.is_none());
    assert_eq!(fps_of(&info), 0.0);
}

#[test]
fn rate_with_bad_half_gives_zero_fps() {
    let info = probe_json(r#"{"streams":[{"codec_type":"video","r_frame_rate":"abc/1"}]}"#).unwrap();
    assert_eq!(info.frame_rate.as_ref().unwrap().numerator, "abc");
    assert_eq!(fps_of(&info), 0.0);
}

#[test]
fn frame_rate_split() {
    let r = FrameRate::parse("25/1").unwrap();
    assert_eq!(r.numerator, "25");
    assert_eq!(r.denominator, "1");
    let r = FrameRate::parse("/").unwrap();
    assert_eq!(r.numerator, "");
    assert_eq!(r.denominator, "");
    assert!(FrameRate::parse("").is_none());
}

#[test]
fn not_json_is_parse_error() {
    match probe_json("not json at all") {
        Err(ProbeError::Parse(m)) => assert!(!m.is_empty()),
        _ => panic!("expected a parse error"),
    }
}

#[test]
fn failed_run_keeps_stderr_verbatim() {
    let run = Ok(RunOutput {
        success: false,
        stdout: b"{}".to_vec(),
        stderr: String::from("movie.mp4: No such file or directory\n"),
    });
    match get_video_info(run) {
        Err(ProbeError::Process(m)) => assert_eq!(m, "movie.mp4: No such file or directory\n"),
        _ => panic!("expected a process error"),
    }
}

#[test]
fn launch_failure_is_launch_error() {
    let e = get_video_info(Err(String::from("No such file or directory (os error 2)"))).err().unwrap();
    assert!(matches!(e, ProbeError::Launch(_)));
    assert_eq!(e.message(), "No such file or directory (os error 2)");
}

#[test]
fn successful_run_hands_on_stdout() {
    let out = run_outcome(ok_run("{\"a\":1}")).ok().unwrap();
    assert_eq!(out, b"{\"a\":1}".to_vec());
}

#[test]
fn decoded_report_keeps_structure() {
    let doc = decode_report(br#"{"n":18446744073709551615,"s":"x","a":[null,true,-3]}"#).ok().unwrap();
    match doc.member("n") {
        Some(Json::Number(t)) => assert_eq!(t, "18446744073709551615"),
        _ => panic!("expected a non-i64 number"),
    }
    assert_eq!(doc.member("s").unwrap().as_str(), Some("x"));
    let a = doc.member("a").unwrap().as_array().unwrap();
    assert_eq!(a.len(), 3);
    assert!(matches!(a[0], Json::Null));
    assert!(matches!(a[1], Json::Bool(true)));
    assert_eq!(a[2].as_i64(), Some(-3));
    assert!(doc.member("missing").is_none());
}

#[test]
fn video_info_on_built_document() {
    let stream = Json::Object(vec![
        (String::from("codec_type"), Json::Str(String::from("video"))),
        (String::from("width"), Json::Int(4096)),
    ]);
    let doc = Json::Object(vec![(String::from("streams"), Json::Array(vec![stream]))]);
    let info = video_info(&doc).ok().unwrap();
    assert_eq!(info.width, 4096);
    assert_eq!(info.height, 0);
}

#[test]
fn probe_command_line() {
    assert_eq!(probe_program(), "ffprobe");
    assert_eq!(
        probe_args("/videos/a b.mkv"),
        vec!["-v", "quiet", "-print_format", "json", "-show_streams", "-show_format", "/videos/a b.mkv"]
    );
}

#[test]
fn cancelled_dialog_is_absent() {
    assert_eq!(chosen_path(None), None);
    assert_eq!(chosen_path(Some(String::new())), None);
    assert_eq!(chosen_path(Some(String::from("/tmp/out"))), Some(String::from("/tmp/out")));
}

#[test]
fn dialog_filter_extensions() {
    assert_eq!(video_extensions(), vec!["mp4", "avi", "mkv", "mov", "webm"]);
}
