use vstd::prelude::*;
use vstd::string::StringExecFns;
use crate::json::{Json, JsonView, json_view, views_of, member, text_of, int_of, elements_of};
use crate::rate::{FrameRate, rate_halves};
use crate::decode::{decode_report, is_json, json_doc};

verus! {

/// Basic metadata of a video, as read from the prober's report.
///
/// The duration and the frame rate stay in the report's own text form:
/// the duration as its decimal text, the frame rate as its two halves.
#[derive(Debug)]
pub struct VideoInfo {
    pub duration: Option<String>,
    pub width: i32,
    pub height: i32,
    pub frame_rate: Option<FrameRate>,
    pub codec: String,
}

/// Why a probe failed.
#[derive(Debug)]
pub enum ProbeError {
    /// The prober could not be started; the system's error text.
    Launch(String),
    /// The prober ran and reported failure; its diagnostic stream.
    Process(String),
    /// Its report was not JSON, or lacked the expected structure.
    Parse(String),
}

/// What one run of the prober gave back.
#[derive(Debug)]
pub struct RunOutput {
    pub success: bool,
    pub stdout: Vec<u8>,
    pub stderr: String,
}

pub struct VideoInfoModel {
    pub duration: Option<Seq<char>>,
    pub width: i32,
    pub height: i32,
    pub frame_rate: Option<(Seq<char>, Seq<char>)>,
    pub codec: Seq<char>,
}

pub enum ErrorModel {
    Launch(Seq<char>),
    Process(Seq<char>),
    Parse(Seq<char>),
}

impl View for VideoInfo {
    type V = VideoInfoModel;

    open spec fn view(&self) -> VideoInfoModel {
        VideoInfoModel {
            duration: match self.duration {
                Some(d) => Some(d@),
                None => None,
            },
            width: self.width,
            height: self.height,
            frame_rate: match self.frame_rate {
                Some(f) => Some(f.halves()),
                None => None,
            },
            codec: self.codec@,
        }
    }
}

impl View for ProbeError {
    type V = ErrorModel;

    open spec fn view(&self) -> ErrorModel {
        match self {
            ProbeError::Launch(m) => ErrorModel::Launch(m@),
            ProbeError::Process(m) => ErrorModel::Process(m@),
            ProbeError::Parse(m) => ErrorModel::Parse(m@),
        }
    }
}

pub open spec fn result_view<T: View>(r: Result<T, ProbeError>) -> Result<T::V, ErrorModel> {
    match r {
        Ok(v) => Ok(v@),
        Err(e) => Err(e@),
    }
}

pub open spec fn invalid_output_text() -> Seq<char> {
    "invalid probe output"@
}

pub open spec fn no_video_text() -> Seq<char> {
    "no video stream"@
}

/// A stream descriptor whose declared type is "video".
pub open spec fn is_video(s: JsonView) -> bool {
    text_of(member(s, "codec_type"@)) == Some("video"@)
}

/// The first video stream at or after position `i`.
pub open spec fn first_video_from(ss: Seq<JsonView>, i: int) -> Option<JsonView>
    decreases ss.len() - i,
{
    if i < 0 || i >= ss.len() {
        None
    } else if is_video(ss[i]) {
        Some(ss[i])
    } else {
        first_video_from(ss, i + 1)
    }
}

pub open spec fn member_of(j: Option<JsonView>, key: Seq<char>) -> Option<JsonView> {
    match j {
        Some(v) => member(v, key),
        None => None,
    }
}

/// A pixel count: the member's integer, or 0.
pub open spec fn dimension(s: JsonView, key: Seq<char>) -> i32 {
    match int_of(member(s, key)) {
        Some(n) => n as i32,
        None => 0,
    }
}

/// What a video stream descriptor and the report around it say.
pub open spec fn stream_model(doc: JsonView, s: JsonView) -> VideoInfoModel {
    VideoInfoModel {
        duration: text_of(member_of(member(doc, "format"@), "duration"@)),
        width: dimension(s, "width"@),
        height: dimension(s, "height"@),
        frame_rate: match text_of(member(s, "r_frame_rate"@)) {
            Some(t) => rate_halves(t),
            None => None,
        },
        codec: match text_of(member(s, "codec_name"@)) {
            Some(c) => c,
            None => Seq::empty(),
        },
    }
}

/// The metadata that a parsed report gives, or why it gives none.
pub open spec fn report_model(doc: JsonView) -> Result<VideoInfoModel, ErrorModel> {
    match elements_of(member(doc, "streams"@)) {
        None => Err(ErrorModel::Parse(invalid_output_text())),
        Some(ss) => match first_video_from(ss, 0) {
            None => Err(ErrorModel::Parse(no_video_text())),
            Some(s) => Ok(stream_model(doc, s)),
        },
    }
}

/// What a run of the prober leads to before its report is read: the report's
/// bytes, or the failure.
pub open spec fn run_model(run: Result<RunOutput, String>) -> Result<Seq<u8>, ErrorModel> {
    match run {
        Err(e) => Err(ErrorModel::Launch(e@)),
        Ok(out) => if out.success {
            Ok(out.stdout@)
        } else {
            Err(ErrorModel::Process(out.stderr@))
        },
    }
}

impl ProbeError {
    /// The error as the text that crosses the command boundary.
    pub fn message(&self) -> (r: String)
        ensures
            r@ == match self@ {
                ErrorModel::Launch(m) => m,
                ErrorModel::Process(m) => m,
                ErrorModel::Parse(m) => m,
            },
    {
        match self {
            ProbeError::Launch(m) => m.clone(),
            ProbeError::Process(m) => m.clone(),
            ProbeError::Parse(m) => m.clone(),
        }
    }
}

/// The program that reports on a media file.
pub fn probe_program() -> (r: String)
    ensures
        r@ == "ffprobe"@,
{
    String::from_str("ffprobe")
}

/// The prober's arguments for `path`: quiet, JSON output, with the stream and
/// container sections, then the path itself.
pub fn probe_args(path: &str) -> (r: Vec<String>)
    ensures
        r@.len() == 7,
        r@[0]@ == "-v"@,
        r@[1]@ == "quiet"@,
        r@[2]@ == "-print_format"@,
        r@[3]@ == "json"@,
        r@[4]@ == "-show_streams"@,
        r@[5]@ == "-show_format"@,
        r@[6]@ == path@,
{
    let mut r: Vec<String> = Vec::new();
    r.push(String::from_str("-v"));
    r.push(String::from_str("quiet"));
    r.push(String::from_str("-print_format"));
    r.push(String::from_str("json"));
    r.push(String::from_str("-show_streams"));
    r.push(String::from_str("-show_format"));
    r.push(String::from_str(path));
    r
}

/// Checks how the prober's run ended: its report when it ran and succeeded,
/// else the launch error or its diagnostic text, verbatim.
pub fn run_outcome(run: Result<RunOutput, String>) -> (r: Result<Vec<u8>, ProbeError>)
    ensures
        match r {
            Ok(b) => run_model(run) == Ok::<Seq<u8>, ErrorModel>(b@),
            Err(e) => run_model(run) == Err::<Seq<u8>, ErrorModel>(e@),
        },
{
    match run {
        Err(e) => Err(ProbeError::Launch(e)),
        Ok(out) => {
            if out.success {
                Ok(out.stdout)
            } else {
                Err(ProbeError::Process(out.stderr))
            }
        },
    }
}

/// The first stream descriptor whose declared type is "video".
pub fn first_video_stream(streams: &Vec<Json>) -> (r: Option<&Json>)
    ensures
        r is Some <==> first_video_from(views_of(streams@), 0) is Some,
        r is Some ==> json_view(*r->0) == first_video_from(views_of(streams@), 0)->0,
{
    let video = String::from_str("video");
    let mut i: usize = 0;
    while i < streams.len()
        invariant
            i <= streams@.len(),
            video@ == "video"@,
            first_video_from(views_of(streams@), 0) == first_video_from(views_of(streams@), i as int),
        decreases streams.len() - i,
    {
        let s = &streams[i];
        let found = match s.member("codec_type") {
            Some(t) => match t.as_str() {
                Some(k) => String::from_str(k).eq(&video),
                None => false,
            },
            None => false,
        };
        assert(found == is_video(views_of(streams@)[i as int]));
        if found {
            return Some(s);
        }
        i = i + 1;
    }
    None
}

/// A pixel count from a stream descriptor: the member's integer, or 0.
fn read_dimension(s: &Json, key: &str) -> (r: i32)
    ensures
        r == dimension(json_view(*s), key@),
{
    let n: i64 = match s.member(key) {
        Some(v) => match v.as_i64() {
            Some(n) => n,
            None => 0,
        },
        None => 0,
    };
    n as i32
}

/// The text of a string member, if it has one.
fn read_text(j: Option<&Json>) -> (r: Option<String>)
    ensures
        r is Some <==> text_of(match j { Some(v) => Some(json_view(*v)), None => None }) is Some,
        r is Some ==> r->0@ == text_of(match j { Some(v) => Some(json_view(*v)), None => None })->0,
{
    match j {
        Some(v) => match v.as_str() {
            Some(t) => Some(String::from_str(t)),
            None => None,
        },
        None => None,
    }
}

/// Reads the metadata of the first video stream out of a parsed report.
///
/// Fails with a parse error when the report has no "streams" array, or when
/// none of its streams is a video stream. Missing sub-fields are no error:
/// width and height default to 0, the codec to empty text, and the duration
/// and frame rate to absent.
pub fn video_info(doc: &Json) -> (r: Result<VideoInfo, ProbeError>)
    ensures
        result_view(r) == report_model(json_view(*doc)),
{
    let streams = match doc.member("streams") {
        Some(v) => v.as_array(),
        None => None,
    };
    let streams = match streams {
        Some(ss) => ss,
        None => {
            return Err(ProbeError::Parse(String::from_str("invalid probe output")));
        },
    };
    let s = match first_video_stream(streams) {
        Some(s) => s,
        None => {
            return Err(ProbeError::Parse(String::from_str("no video stream")));
        },
    };
    let width = read_dimension(s, "width");
    let height = read_dimension(s, "height");
    let frame_rate = match read_text(s.member("r_frame_rate")) {
        Some(t) => FrameRate::parse(t.as_str()),
        None => None,
    };
    let codec = match read_text(s.member("codec_name")) {
        Some(c) => c,
        None => String::new(),
    };
    let format = doc.member("format");
    let duration = match format {
        Some(f) => read_text(f.member("duration")),
        None => None,
    };
    let r = VideoInfo { duration, width, height, frame_rate, codec };
    Ok(r)
}

/// A report without a "streams" array (the member absent, or not an array)
/// fails as invalid output, whatever else it holds.
pub proof fn lemma_missing_streams_is_invalid(doc: JsonView)
    requires
        elements_of(member(doc, "streams"@)) is None,
    ensures
        report_model(doc) == Err::<VideoInfoModel, ErrorModel>(
            ErrorModel::Parse(invalid_output_text()),
        ),
{
}

/// A report whose streams hold no video stream fails as having none.
pub proof fn lemma_no_video_stream(doc: JsonView, streams: Seq<JsonView>)
    requires
        elements_of(member(doc, "streams"@)) == Some(streams),
        forall|i: int| 0 <= i < streams.len() ==> !is_video(#[trigger] streams[i]),
    ensures
        report_model(doc) == Err::<VideoInfoModel, ErrorModel>(
            ErrorModel::Parse(no_video_text()),
        ),
{
    assert forall|i: int| 0 <= i <= streams.len() implies first_video_from(streams, i) is None by {
        lemma_no_video_from(streams, i);
    }
}

proof fn lemma_no_video_from(ss: Seq<JsonView>, i: int)
    requires
        0 <= i <= ss.len(),
        forall|j: int| 0 <= j < ss.len() ==> !is_video(#[trigger] ss[j]),
    ensures
        first_video_from(ss, i) is None,
    decreases ss.len() - i,
{
    if i < ss.len() {
        lemma_no_video_from(ss, i + 1);
    }
}

/// When the video stream has no frame rate member, the frame rate is absent
/// and every other field is still read from the report.
pub proof fn lemma_missing_frame_rate(doc: JsonView, streams: Seq<JsonView>, s: JsonView)
    requires
        elements_of(member(doc, "streams"@)) == Some(streams),
        first_video_from(streams, 0) == Some(s),
        member(s, "r_frame_rate"@) is None,
    ensures
        report_model(doc) is Ok,
        report_model(doc)->Ok_0.frame_rate is None,
        report_model(doc)->Ok_0.width == dimension(s, "width"@),
        report_model(doc)->Ok_0.height == dimension(s, "height"@),
        report_model(doc)->Ok_0.codec == stream_model(doc, s).codec,
        report_model(doc)->Ok_0.duration == text_of(member_of(member(doc, "format"@), "duration"@)),
{
}

/// A run that ends in failure fails the probe with its diagnostic text,
/// unchanged.
pub proof fn lemma_failed_run_keeps_diagnostics(out: RunOutput)
    requires
        !out.success,
    ensures
        run_model(Ok(out)) == Err::<Seq<u8>, ErrorModel>(ErrorModel::Process(out.stderr@)),
{
}

/// The whole probe after the prober has run: how the run ended, then its
/// report parsed, then the metadata read out of it.
///
/// A launch failure or a failed run is passed on verbatim; a report that is
/// not JSON is a parse error; a JSON report gives what `video_info` gives
/// for it.
pub fn get_video_info(run: Result<RunOutput, String>) -> (r: Result<VideoInfo, ProbeError>)
    ensures
        run_model(run) is Err ==> result_view(r) == Err::<VideoInfoModel, ErrorModel>(
            run_model(run)->Err_0,
        ),
        run_model(run) is Ok && !is_json(run_model(run)->Ok_0) ==> r matches Err(
            ProbeError::Parse(_),
        ),
        run_model(run) is Ok && is_json(run_model(run)->Ok_0) ==> result_view(r) == report_model(
            json_doc(run_model(run)->Ok_0),
        ),
{
    let bytes = match run_outcome(run) {
        Ok(b) => b,
        Err(e) => {
            return Err(e);
        },
    };
    match decode_report(bytes.as_slice()) {
        Ok(doc) => video_info(&doc),
        Err(m) => Err(ProbeError::Parse(m)),
    }
}

} // verus!
