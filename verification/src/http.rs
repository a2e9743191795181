//! The logic of the platform's HTTP API: request parsing and validation,
//! range requests, content types, and the response records.

use vstd::prelude::*;
use vstd::string::StrSliceExecFns;
use vstd::string::StringExecFns;
use vstd::arithmetic::power::pow;
use crate::media_files::hex_digit;
use crate::forwarding::StreamConfig;
use crate::text::{
    chars_of, count_char, count_of, find_char_from, find_from, parse_u64_of, parse_u64_range,
    str_equals,
};

verus! {

/// HTTP status codes that the API answers with.
#[derive(Debug, Clone, Copy, PartialEq, Eq, Structural)]
pub enum HttpStatus {
    Success,
    NoContent,
    PartialContent,
    BadRequest,
    NotFound,
    InternalServerError,
    ServiceUnavailable,
}

impl HttpStatus {
    /// The numeric code.
    pub fn code(&self) -> (c: u16)
        ensures
            c == match *self {
                HttpStatus::Success => 200u16,
                HttpStatus::NoContent => 204,
                HttpStatus::PartialContent => 206,
                HttpStatus::BadRequest => 400,
                HttpStatus::NotFound => 404,
                HttpStatus::InternalServerError => 500,
                HttpStatus::ServiceUnavailable => 503,
            },
    {
        match self {
            HttpStatus::Success => 200,
            HttpStatus::NoContent => 204,
            HttpStatus::PartialContent => 206,
            HttpStatus::BadRequest => 400,
            HttpStatus::NotFound => 404,
            HttpStatus::InternalServerError => 500,
            HttpStatus::ServiceUnavailable => 503,
        }
    }
}

/// The envelope of every API answer.
#[derive(Debug, Clone)]
pub struct ApiResponse<T> {
    /// `success` or `error`.
    pub status: String,
    pub data: Option<T>,
    pub error: Option<String>,
}

impl<T> ApiResponse<T> {
    /// A successful answer carrying `data`.
    pub fn success(data: T) -> (r: Self)
        ensures
            r.status@ == "success"@,
            r.data == Some(data),
            r.error.is_none(),
    {
        ApiResponse { status: "success".to_owned(), data: Some(data), error: None }
    }

    /// A failed answer carrying `message`.
    pub fn error(message: String) -> (r: ApiResponse<()>)
        ensures
            r.status@ == "error"@,
            r.data.is_none(),
            r.error == Some(message),
    {
        ApiResponse { status: "error".to_owned(), data: None, error: Some(message) }
    }
}

/// `bytes=` as characters.
pub open spec fn bytes_prefix() -> Seq<char> {
    seq!['b', 'y', 't', 'e', 's', '=']
}

/// The byte range that a `Range` header asks of a file of `file_size`
/// bytes: `bytes=START-END` or `bytes=START-`, with exactly one dash, both
/// numbers as `str::parse::<u64>` reads them, an open end meaning the last
/// byte, and the range inside the file with `START <= END`.
pub open spec fn range_of(s: Seq<char>, file_size: u64) -> Option<(u64, u64)> {
    if s.len() < 6 || s.take(6) != bytes_prefix() {
        None
    } else {
        let rest = s.skip(6);
        if count_char(rest, '-') != 1 {
            None
        } else {
            let d = find_from(rest, '-', 0).unwrap();
            match parse_u64_of(rest.take(d)) {
                None => None,
                Some(start) => {
                    let end_opt = if d + 1 == rest.len() {
                        Some((file_size - 1) as u64)
                    } else {
                        parse_u64_of(rest.skip(d + 1))
                    };
                    match end_opt {
                        None => None,
                        Some(end) => if start > end || end >= file_size {
                            None
                        } else {
                            Some((start, end))
                        },
                    }
                },
            }
        }
    }
}

/// The headers on which computing the open end of the range underflows:
/// a well-formed start with an open end on an empty file.
pub open spec fn range_end_underflows(s: Seq<char>, file_size: u64) -> bool {
    &&& s.len() >= 6
    &&& s.take(6) == bytes_prefix()
    &&& count_char(s.skip(6), '-') == 1
    &&& parse_u64_of(s.skip(6).take(find_from(s.skip(6), '-', 0).unwrap())).is_some()
    &&& find_from(s.skip(6), '-', 0).unwrap() + 1 == s.skip(6).len()
    &&& file_size == 0
}

pub(crate) proof fn lemma_find_within(s: Seq<char>, c: char, from: int)
    requires
        0 <= from,
    ensures
        find_from(s, c, from) matches Some(i) ==> from <= i < s.len() && s[i] == c,
        count_char(s, c) > 0 && from == 0 ==> find_from(s, c, from).is_some(),
    decreases s.len() - from,
{
    if from < s.len() && s[from] != c {
        lemma_find_within(s, c, from + 1);
    }
    if count_char(s, c) > 0 && from == 0 {
        lemma_count_has(s, c);
        let k = choose|k: int| 0 <= k < s.len() && s[k] == c;
        lemma_find_reaches(s, c, 0, k);
    }
}

proof fn lemma_count_has(s: Seq<char>, c: char)
    requires
        count_char(s, c) > 0,
    ensures
        exists|k: int| 0 <= k < s.len() && s[k] == c,
    decreases s.len(),
{
    if s.last() == c {
        assert(s[s.len() - 1] == c);
    } else {
        lemma_count_has(s.drop_last(), c);
        let k = choose|k: int| 0 <= k < s.drop_last().len() && s.drop_last()[k] == c;
        assert(s[k] == c);
    }
}

proof fn lemma_find_reaches(s: Seq<char>, c: char, from: int, k: int)
    requires
        0 <= from <= k < s.len(),
        s[k] == c,
    ensures
        find_from(s, c, from).is_some(),
    decreases k - from,
{
    if s[from] != c {
        lemma_find_reaches(s, c, from + 1, k);
    }
}

/// Parses a `Range` header against a file of `file_size` bytes.
pub fn parse_range(range_str: &str, file_size: u64) -> (r: Option<(u64, u64)>)
    requires
        !range_end_underflows(range_str@, file_size),
    ensures
        r == range_of(range_str@, file_size),
{
    let s = chars_of(range_str);
    let n = s.len();
    if n < 6 || s[0] != 'b' || s[1] != 'y' || s[2] != 't' || s[3] != 'e' || s[4] != 's' || s[5]
        != '=' {
        proof {
            if n >= 6 {
                assert(s@.take(6) != bytes_prefix()) by {
                    assert(s@.take(6)[0] == s@[0] && s@.take(6)[1] == s@[1] && s@.take(6)[2]
                        == s@[2] && s@.take(6)[3] == s@[3] && s@.take(6)[4] == s@[4]
                        && s@.take(6)[5] == s@[5]);
                }
            }
        }
        return None;
    }
    assert(s@.take(6) =~= bytes_prefix());
    let mut rest: Vec<char> = Vec::new();
    let mut i: usize = 6;
    while i < n
        invariant
            n == s@.len(),
            6 <= i <= n,
            rest@ == s@.subrange(6, i as int),
        decreases n - i,
    {
        rest.push(s[i]);
        proof {
            assert(rest@ =~= s@.subrange(6, i + 1));
        }
        i = i + 1;
    }
    assert(rest@ =~= s@.skip(6));
    if count_of(&rest, '-') != 1 {
        return None;
    }
    proof {
        lemma_find_within(rest@, '-', 0);
    }
    let d = match find_char_from(&rest, '-', 0) {
        Some(d) => d,
        None => {
            return None;
        },
    };
    assert(rest@.take(d as int) =~= rest@.subrange(0, d as int));
    let start = match parse_u64_range(&rest, 0, d) {
        Some(v) => v,
        None => {
            return None;
        },
    };
    let end = if d + 1 == rest.len() {
        file_size - 1
    } else {
        assert(rest@.skip(d + 1) =~= rest@.subrange(d + 1, rest@.len() as int));
        match parse_u64_range(&rest, d + 1, rest.len()) {
            Some(v) => v,
            None => {
                return None;
            },
        }
    };
    if start > end || end >= file_size {
        return None;
    }
    Some((start, end))
}

/// Law: a parsed range lies inside the file and is not empty.
pub proof fn lemma_range_inside_file(s: Seq<char>, file_size: u64)
    requires
        range_of(s, file_size).is_some(),
    ensures
        range_of(s, file_size).unwrap().0 <= range_of(s, file_size).unwrap().1 < file_size,
{
}

/// The file-name extension of a path, as `Path::extension` gives it, when
/// it is valid UTF-8.
pub uninterp spec fn utf8_extension_of(path: std::path::PathBuf) -> Option<Seq<char>>;

/// The file-name extension of a path, as `Path::extension` gives it,
/// when it is valid UTF-8.
#[verifier::external_body]
fn path_extension(path: &std::path::PathBuf) -> (r: Option<String>)
    ensures
        match r {
            Some(e) => utf8_extension_of(*path) == Some(e@),
            None => utf8_extension_of(*path).is_none(),
        },
{
    path.extension().and_then(|e| e.to_str()).map(|e| e.to_string())
}

/// The content type served for a file-name extension.
pub open spec fn content_type_of(ext: Option<Seq<char>>) -> Seq<char> {
    match ext {
        Some(e) => if e == "mp4"@ {
            "video/mp4"@
        } else if e == "h264"@ || e == "264"@ {
            "video/h264"@
        } else if e == "webm"@ {
            "video/webm"@
        } else {
            "application/octet-stream"@
        },
        None => "application/octet-stream"@,
    }
}

/// The content type for a file-name extension.
pub fn content_type_for_extension(ext: Option<&str>) -> (r: &'static str)
    ensures
        r@ == content_type_of(
            match ext {
                Some(e) => Some(e@),
                None => None,
            },
        ),
{
    match ext {
        Some(e) => {
            if str_equals(e, "mp4") {
                "video/mp4"
            } else if str_equals(e, "h264") || str_equals(e, "264") {
                "video/h264"
            } else if str_equals(e, "webm") {
                "video/webm"
            } else {
                "application/octet-stream"
            }
        },
        None => "application/octet-stream",
    }
}

/// The content type of a file, from its extension.
pub fn get_content_type(file_path: &std::path::PathBuf) -> (r: &'static str)
    ensures
        r@ == content_type_of(utf8_extension_of(*file_path)),
{
    let ext = path_extension(file_path);
    let r = match &ext {
        Some(e) => content_type_for_extension(Some(e.as_str())),
        None => content_type_for_extension(None),
    };
    proof {
        match ext {
            Some(e) => {
                assert(r@ == content_type_of(Some(e@)));
            },
            None => {
                assert(r@ == content_type_of(None));
            },
        }
    }
    r
}

/// The device id and file name of a file id `DEVICE_NN_NAME`: the text
/// before the second underscore, and the text after it.
pub open spec fn split_file_id_of(s: Seq<char>) -> Option<(Seq<char>, Seq<char>)> {
    match find_from(s, '_', 0) {
        None => None,
        Some(i) => match find_from(s, '_', i + 1) {
            None => None,
            Some(j) => Some((s.take(j), s.skip(j + 1))),
        },
    }
}

/// Splits a file id into the device id and the file name.
pub fn split_file_id(file_id: &str) -> (r: Option<(String, String)>)
    ensures
        match split_file_id_of(file_id@) {
            None => r.is_none(),
            Some((d, f)) => r matches Some((dd, ff)) && dd@ == d && ff@ == f,
        },
{
    let s = chars_of(file_id);
    let i = match find_char_from(&s, '_', 0) {
        Some(i) => i,
        None => {
            return None;
        },
    };
    proof {
        lemma_find_within(s@, '_', 0);
    }
    let j = match find_char_from(&s, '_', i + 1) {
        Some(j) => j,
        None => {
            return None;
        },
    };
    proof {
        lemma_find_within(s@, '_', i + 1);
    }
    let n = file_id.unicode_len();
    let device = file_id.substring_char(0, j).to_owned();
    let name = file_id.substring_char(j + 1, n).to_owned();
    proof {
        assert(device@ =~= file_id@.take(j as int));
        assert(name@ =~= file_id@.skip(j + 1));
    }
    Some((device, name))
}

/// Law: the device id of a split file id, an underscore and the file name
/// give the file id back.
pub proof fn lemma_split_file_id_rejoins(s: Seq<char>)
    requires
        split_file_id_of(s).is_some(),
    ensures
        split_file_id_of(s).unwrap().0 + seq!['_'] + split_file_id_of(s).unwrap().1 == s,
{
    let i = find_from(s, '_', 0).unwrap();
    lemma_find_within(s, '_', 0);
    lemma_find_within(s, '_', i + 1);
    let j = find_from(s, '_', i + 1).unwrap();
    assert(s.take(j) + seq!['_'] + s.skip(j + 1) =~= s);
}

/// What `str::to_lowercase` makes of a string.
pub uninterp spec fn lowercase_of(s: Seq<char>) -> Seq<char>;

/// The string in lower case, as `str::to_lowercase` gives it.
#[verifier::external_body]
pub(crate) fn to_lowercase(s: &str) -> (r: String)
    ensures
        r@ == lowercase_of(s@),
{
    s.to_lowercase()
}

/// The two kinds of stream.
#[derive(Debug, Clone, Copy, PartialEq, Eq, Structural)]
pub enum StreamKind {
    Live,
    Playback,
}

/// The stream kind that a mode name selects, ignoring case.
pub open spec fn stream_kind_of(mode: Seq<char>) -> Option<StreamKind> {
    if lowercase_of(mode) == "live"@ {
        Some(StreamKind::Live)
    } else if lowercase_of(mode) == "playback"@ {
        Some(StreamKind::Playback)
    } else {
        None
    }
}

/// Parses a stream mode, ignoring case.
pub fn parse_stream_mode(mode: &str) -> (r: Option<StreamKind>)
    ensures
        r == stream_kind_of(mode@),
{
    let lower = to_lowercase(mode);
    if str_equals(lower.as_str(), "live") {
        Some(StreamKind::Live)
    } else if str_equals(lower.as_str(), "playback") {
        Some(StreamKind::Playback)
    } else {
        None
    }
}

/// Validated control commands of a stream.
#[derive(Debug, Clone, Copy, PartialEq, Eq, Structural)]
pub enum StreamCommand {
    Pause,
    Resume,
    /// Seek to a position (microseconds).
    Seek(i64),
    /// Set the playback rate (thousandths).
    SetRate(i64),
    Stop,
}

/// The command that a control request names, ignoring case; `seek` needs
/// a position and `set_rate` a rate.
pub open spec fn stream_command_of(
    command: Seq<char>,
    position_us: Option<i64>,
    rate_milli: Option<i64>,
) -> Result<StreamCommand, HttpStatus> {
    let c = lowercase_of(command);
    if c == "pause"@ {
        Ok(StreamCommand::Pause)
    } else if c == "resume"@ {
        Ok(StreamCommand::Resume)
    } else if c == "seek"@ {
        match position_us {
            Some(p) => Ok(StreamCommand::Seek(p)),
            None => Err(HttpStatus::BadRequest),
        }
    } else if c == "set_rate"@ {
        match rate_milli {
            Some(r) => Ok(StreamCommand::SetRate(r)),
            None => Err(HttpStatus::BadRequest),
        }
    } else if c == "stop"@ {
        Ok(StreamCommand::Stop)
    } else {
        Err(HttpStatus::BadRequest)
    }
}

/// Parses a control request.
pub fn parse_stream_command(command: &str, position_us: Option<i64>, rate_milli: Option<i64>) -> (r:
    Result<StreamCommand, HttpStatus>)
    ensures
        r == stream_command_of(command@, position_us, rate_milli),
{
    let lower = to_lowercase(command);
    let c = lower.as_str();
    if str_equals(c, "pause") {
        Ok(StreamCommand::Pause)
    } else if str_equals(c, "resume") {
        Ok(StreamCommand::Resume)
    } else if str_equals(c, "seek") {
        match position_us {
            Some(p) => Ok(StreamCommand::Seek(p)),
            None => Err(HttpStatus::BadRequest),
        }
    } else if str_equals(c, "set_rate") {
        match rate_milli {
            Some(r) => Ok(StreamCommand::SetRate(r)),
            None => Err(HttpStatus::BadRequest),
        }
    } else if str_equals(c, "stop") {
        Ok(StreamCommand::Stop)
    } else {
        Err(HttpStatus::BadRequest)
    }
}

/// Starts a live stream (the request body).
#[derive(Debug, Clone)]
pub struct StartLiveStreamRequest {
    pub client_id: String,
}

/// Answer to starting a live stream.
#[derive(Debug, Clone)]
pub struct StartLiveStreamResponse {
    pub session_id: String,
    pub stream_url: String,
}

/// Answer to starting a playback.
#[derive(Debug, Clone)]
pub struct StartPlaybackResponse {
    pub session_id: String,
    pub playback_url: String,
}

/// Stream options of a start request.
#[derive(Debug, Clone)]
pub struct StreamConfigRequest {
    pub client_id: String,
    pub low_latency_mode: Option<bool>,
    pub target_latency_ms: Option<u32>,
}

/// Answer to starting a unified stream.
#[derive(Debug, Clone)]
pub struct UnifiedStreamStartResponse {
    pub session_id: String,
    pub stream_url: String,
    pub control_url: String,
    pub estimated_latency_ms: u32,
}

/// Answer to a control request.
#[derive(Debug, Clone)]
pub struct StreamControlResponse {
    pub status: String,
    pub current_state: String,
}

/// The stream configuration of a start request: the requested options
/// over the defaults, low latency and 100 ms when an option is missing.
pub fn stream_config_for(req: &Option<StreamConfigRequest>) -> (c: StreamConfig)
    ensures
        c.latency_alert_threshold_ms == 200,
        c.buffer_config.min_buffer_ms == 100,
        c.buffer_config.target_buffer_ms == 500,
        c.buffer_config.max_buffer_ms == 2000,
        match req {
            None => c.low_latency && c.target_latency_ms == 100,
            Some(r) => c.low_latency == match r.low_latency_mode {
                Some(b) => b,
                None => true,
            } && c.target_latency_ms == match r.target_latency_ms {
                Some(t) => t,
                None => 100u32,
            },
        },
{
    let d = StreamConfig::default();
    match req {
        None => d,
        Some(r) => StreamConfig {
            low_latency: match r.low_latency_mode {
                Some(b) => b,
                None => true,
            },
            target_latency_ms: match r.target_latency_ms {
                Some(t) => t,
                None => 100,
            },
            ..d
        },
    }
}

/// What a unified start request asks for, once validated.
#[derive(Debug, Clone)]
pub enum StartPlan {
    Live { device_id: String },
    Playback { file_id: String },
}

/// Validates a unified start request: the mode selects the kind, and a
/// live stream needs a device id and a playback a file id.
pub fn plan_stream_start(mode: &str, device_id: Option<String>, file_id: Option<String>) -> (r:
    Result<StartPlan, HttpStatus>)
    ensures
        match stream_kind_of(mode@) {
            Some(StreamKind::Live) => match device_id {
                Some(d) => r matches Ok(StartPlan::Live { device_id: dd }) && dd == d,
                None => r == Err::<StartPlan, HttpStatus>(HttpStatus::BadRequest),
            },
            Some(StreamKind::Playback) => match file_id {
                Some(f) => r matches Ok(StartPlan::Playback { file_id: ff }) && ff == f,
                None => r == Err::<StartPlan, HttpStatus>(HttpStatus::BadRequest),
            },
            None => r == Err::<StartPlan, HttpStatus>(HttpStatus::BadRequest),
        },
{
    match parse_stream_mode(mode) {
        Some(StreamKind::Live) => match device_id {
            Some(d) => Ok(StartPlan::Live { device_id: d }),
            None => Err(HttpStatus::BadRequest),
        },
        Some(StreamKind::Playback) => match file_id {
            Some(f) => Ok(StartPlan::Playback { file_id: f }),
            None => Err(HttpStatus::BadRequest),
        },
        None => Err(HttpStatus::BadRequest),
    }
}

/// The 32 hexadecimal digits of a 128-bit value, most significant first.
pub open spec fn hex_digits_128(v: u128) -> Seq<char> {
    Seq::new(32, |i: int| hex_digit((v as int / pow(16, (31 - i) as nat)) % 16))
}

/// An identifier as `uuid` writes the UUID of that 128-bit value: its 32
/// lowercase hexadecimal digits, most significant first, in groups of 8,
/// 4, 4, 4 and 12 joined by hyphens.
pub open spec fn uuid_text(id: u128) -> Seq<char> {
    let h = hex_digits_128(id);
    h.subrange(0, 8) + seq!['-'] + h.subrange(8, 12) + seq!['-'] + h.subrange(12, 16) + seq!['-']
        + h.subrange(16, 20) + seq!['-'] + h.subrange(20, 32)
}

/// `Uuid::from_u128(id)` as its `Display` writes it (the hyphenated form).
#[verifier::external_body]
fn uuid_string(id: u128) -> (r: String)
    ensures
        r@ == uuid_text(id),
{
    uuid::Uuid::from_u128(id).to_string()
}

/// `prefix`, the identifier as text, and `suffix`.
pub(crate) fn with_uuid(prefix: &str, id: u128, suffix: &str) -> (r: String)
    ensures
        r@ == prefix@ + uuid_text(id) + suffix@,
{
    let mut r = prefix.to_owned();
    r.append(uuid_string(id).as_str());
    r.append(suffix);
    r
}

/// The identifier as text.
pub fn session_id_text(id: u128) -> (r: String)
    ensures
        r@ == uuid_text(id),
{
    uuid_string(id)
}

/// The URL of the segment stream of a session.
pub fn stream_url(session_id: u128) -> (r: String)
    ensures
        r@ == "/api/v1/stream/"@ + uuid_text(session_id) + "/segments"@,
{
    with_uuid("/api/v1/stream/", session_id, "/segments")
}

/// The control URL of a session.
pub fn control_url(session_id: u128) -> (r: String)
    ensures
        r@ == "/api/v1/stream/"@ + uuid_text(session_id) + "/control"@,
{
    with_uuid("/api/v1/stream/", session_id, "/control")
}

/// The URL of the playback segments of a session.
pub fn playback_url(session_id: u128) -> (r: String)
    ensures
        r@ == "/api/v1/playback/"@ + uuid_text(session_id) + "/segments"@,
{
    with_uuid("/api/v1/playback/", session_id, "/segments")
}

/// The answer to a started unified stream.
pub fn unified_start_response(session_id: u128, config: &StreamConfig) -> (r: UnifiedStreamStartResponse)
    ensures
        r.session_id@ == uuid_text(session_id),
        r.stream_url@ == "/api/v1/stream/"@ + uuid_text(session_id) + "/segments"@,
        r.control_url@ == "/api/v1/stream/"@ + uuid_text(session_id) + "/control"@,
        r.estimated_latency_ms == config.target_latency_ms,
{
    UnifiedStreamStartResponse {
        session_id: session_id_text(session_id),
        stream_url: stream_url(session_id),
        control_url: control_url(session_id),
        estimated_latency_ms: config.target_latency_ms,
    }
}

/// Law: a control request names its command by the command word alone,
/// in any case: `pause`, `resume` and `stop` give that command whatever
/// position and rate come with them; `seek` gives a seek to the position
/// given and `set_rate` a change to the rate given (a bad request without
/// one); any other word is a bad request. Only the `seek` and `set_rate`
/// words look at the position or the rate.
pub proof fn lemma_stream_command_words(
    command: Seq<char>,
    position_us: Option<i64>,
    rate_milli: Option<i64>,
    other_position_us: Option<i64>,
    other_rate_milli: Option<i64>,
)
    ensures
        lowercase_of(command) == "pause"@ ==> stream_command_of(command, position_us, rate_milli)
            == Ok::<StreamCommand, HttpStatus>(StreamCommand::Pause),
        lowercase_of(command) == "resume"@ ==> stream_command_of(command, position_us, rate_milli)
            == Ok::<StreamCommand, HttpStatus>(StreamCommand::Resume),
        lowercase_of(command) == "stop"@ ==> stream_command_of(command, position_us, rate_milli)
            == Ok::<StreamCommand, HttpStatus>(StreamCommand::Stop),
        lowercase_of(command) == "seek"@ ==> stream_command_of(command, position_us, rate_milli)
            == match position_us {
            Some(p) => Ok(StreamCommand::Seek(p)),
            None => Err(HttpStatus::BadRequest),
        },
        lowercase_of(command) == "set_rate"@ ==> stream_command_of(command, position_us, rate_milli)
            == match rate_milli {
            Some(r) => Ok(StreamCommand::SetRate(r)),
            None => Err(HttpStatus::BadRequest),
        },
        stream_command_of(command, position_us, rate_milli) == Ok::<StreamCommand, HttpStatus>(
            StreamCommand::Resume,
        ) ==> lowercase_of(command) == "resume"@,
        stream_command_of(command, position_us, rate_milli) == Ok::<StreamCommand, HttpStatus>(
            StreamCommand::Pause,
        ) ==> lowercase_of(command) == "pause"@,
        stream_command_of(command, position_us, rate_milli) == Ok::<StreamCommand, HttpStatus>(
            StreamCommand::Stop,
        ) ==> lowercase_of(command) == "stop"@,
        lowercase_of(command) != "seek"@ && lowercase_of(command) != "set_rate"@ ==> stream_command_of(
            command,
            position_us,
            rate_milli,
        ) == stream_command_of(command, other_position_us, other_rate_milli),
        lowercase_of(command) != "pause"@ && lowercase_of(command) != "resume"@ && lowercase_of(command)
            != "stop"@ && lowercase_of(command) != "seek"@ && lowercase_of(command) != "set_rate"@
            ==> stream_command_of(command, position_us, rate_milli) is Err,
{
    reveal_strlit("pause");
    reveal_strlit("resume");
    reveal_strlit("seek");
    reveal_strlit("set_rate");
    reveal_strlit("stop");
    assert("pause"@.len() == 5 && "resume"@.len() == 6 && "seek"@.len() == 4);
    assert("set_rate"@.len() == 8 && "stop"@.len() == 4);
    assert("stop"@[1] != "seek"@[1]);
    assert("resume"@ != "pause"@);
    assert("stop"@ != "pause"@ && "stop"@ != "resume"@ && "stop"@ != "seek"@ && "stop"@ != "set_rate"@);
}

} // verus!
