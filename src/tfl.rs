//! The upstream client: authenticated request addresses for each query, and
//! the triage of what the upstream answers.

use vstd::prelude::*;

use crate::error::AppError;

verus! {

/// The fixed origin of the upstream API.
pub open spec fn base_url() -> Seq<char> {
    "https://api.tfl.gov.uk"@
}

/// The name of the query parameter that carries the application id.
pub open spec fn app_id_param() -> Seq<char> {
    "app_id"@
}

/// The name of the query parameter that carries the application key.
pub open spec fn app_key_param() -> Seq<char> {
    "app_key"@
}

/// The application id used when none is configured.
pub open spec fn default_app_id() -> Seq<char> {
    "tb8-rs"@
}

/// Credentials for the upstream API; immutable once built, so one client can
/// be shared by any number of concurrent callers.
#[derive(Debug, PartialEq, Eq)]
pub struct TflClient {
    pub app_id: String,
    pub app_key: String,
}

/// A fully qualified GET request: the address without its query, and the
/// query pairs in the order they are appended.
#[derive(Debug, PartialEq, Eq)]
pub struct RequestUrl {
    pub url: String,
    pub query: Vec<(String, String)>,
}

/// `r` is the request for resource `path`: the origin followed by the path,
/// carrying both credentials of `c`.
pub open spec fn is_request_for(r: RequestUrl, c: TflClient, path: Seq<char>) -> bool {
    &&& r.url@ == base_url() + path
    &&& r.query@.len() == 2
    &&& r.query@[0].0@ == app_id_param()
    &&& r.query@[0].1@ == c.app_id@
    &&& r.query@[1].0@ == app_key_param()
    &&& r.query@[1].1@ == c.app_key@
}

/// What `Url::parse` reports on `s`: `None` when it accepts the address,
/// otherwise its error message.
pub uninterp spec fn url_error(s: Seq<char>) -> Option<Seq<char>>;

/// Relies on `reqwest::Url::parse` (the `url` crate) and the `Display` of its
/// error: reports why an address is rejected, or `None` when it parses.
#[verifier::external_body]
fn url_parse_error(s: &str) -> (r: Option<String>)
    ensures
        match r {
            Some(m) => url_error(s@) == Some(m@),
            None => url_error(s@).is_none(),
        },
{
    reqwest::Url::parse(s).err().map(|e| e.to_string())
}

/// The address and query pairs of a request, as plain sequences.
pub open spec fn request_view(r: RequestUrl) -> (Seq<char>, Seq<(Seq<char>, Seq<char>)>) {
    (r.url@, r.query@.map_values(|p: (String, String)| (p.0@, p.1@)))
}

/// A request depends on the client and the resource path alone: two builds
/// of one path with one client, from any number of concurrent callers,
/// agree on the outcome, the address and the query pairs.
pub proof fn lemma_build_depends_only_on_inputs(
    c: TflClient,
    path: Seq<char>,
    r1: Result<RequestUrl, AppError>,
    r2: Result<RequestUrl, AppError>,
)
    requires
        built(r1, c, path),
        built(r2, c, path),
    ensures
        r1 is Ok <==> r2 is Ok,
        r1 matches Ok(u1) ==> r2 matches Ok(u2) && request_view(u1) == request_view(u2),
        r1 matches Err(AppError::InternalError(m1)) ==> r2 matches Err(AppError::InternalError(m2))
            && m1@ == m2@,
{
    if let Ok(u1) = r1 {
        if let Ok(u2) = r2 {
            assert(request_view(u1).1 =~= request_view(u2).1);
        }
    }
}

/// The outcome of building the request for `path`.
pub open spec fn build_ok(path: Seq<char>) -> bool {
    url_error(base_url() + path).is_none()
}

pub open spec fn url_failure_message(path: Seq<char>) -> Seq<char> {
    "Failed to parse URL: "@ + url_error(base_url() + path).unwrap()
}

/// `r` is what `build_url` returns for `path`.
pub open spec fn built(r: Result<RequestUrl, AppError>, c: TflClient, path: Seq<char>) -> bool {
    match r {
        Ok(u) => build_ok(path) && is_request_for(u, c, path),
        Err(e) => !build_ok(path) && (match e {
            AppError::InternalError(m) => m@ == url_failure_message(path),
            _ => false,
        }),
    }
}

pub open spec fn line_path(id: Seq<char>) -> Seq<char> {
    "/Line/"@ + id
}

pub open spec fn mode_path(mode: Seq<char>) -> Seq<char> {
    "/Line/Mode/"@ + mode
}

pub open spec fn arrivals_path(id: Seq<char>) -> Seq<char> {
    "/Line/"@ + id + "/Arrivals"@
}

pub open spec fn arrivals_at_stop_path(id: Seq<char>, stop: Seq<char>) -> Seq<char> {
    "/Line/"@ + id + "/Arrivals/"@ + stop
}

pub open spec fn line_disruption_path(id: Seq<char>) -> Seq<char> {
    "/Line/"@ + id + "/Disruption"@
}

pub open spec fn mode_disruption_path(mode: Seq<char>) -> Seq<char> {
    "/Line/Mode/"@ + mode + "/Disruption"@
}

impl TflClient {
    /// A client with the given credentials; a missing id falls back to the
    /// default one.
    pub fn new(app_id: Option<String>, app_key: String) -> (r: TflClient)
        ensures
            r.app_key@ == app_key@,
            match app_id {
                Some(id) => r.app_id@ == id@,
                None => r.app_id@ == default_app_id(),
            },
    {
        let app_id = match app_id {
            Some(id) => id,
            None => String::from_str("tb8-rs"),
        };
        TflClient { app_id, app_key }
    }

    /// The authenticated request for resource `path` under the fixed origin.
    pub fn build_url(&self, path: &str) -> (r: Result<RequestUrl, AppError>)
        ensures
            built(r, *self, path@),
    {
        let url = String::from_str("https://api.tfl.gov.uk").concat(path);
        match url_parse_error(url.as_str()) {
            Some(m) => Err(
                AppError::InternalError(String::from_str("Failed to parse URL: ").concat(m.as_str())),
            ),
            None => {
                let mut query: Vec<(String, String)> = Vec::new();
                query.push((String::from_str("app_id"), self.app_id.clone()));
                query.push((String::from_str("app_key"), self.app_key.clone()));
                Ok(RequestUrl { url, query })
            },
        }
    }

    /// The request for every line.
    pub fn lines_request(&self) -> (r: Result<RequestUrl, AppError>)
        ensures
            built(r, *self, "/Line"@),
    {
        self.build_url("/Line")
    }

    /// The request for the lines matching `line_id`.
    pub fn line_by_id_request(&self, line_id: &str) -> (r: Result<RequestUrl, AppError>)
        ensures
            built(r, *self, line_path(line_id@)),
    {
        let path = String::from_str("/Line/").concat(line_id);
        self.build_url(path.as_str())
    }

    /// The request for the lines of transport mode `mode`.
    pub fn lines_by_mode_request(&self, mode: &str) -> (r: Result<RequestUrl, AppError>)
        ensures
            built(r, *self, mode_path(mode@)),
    {
        let path = String::from_str("/Line/Mode/").concat(mode);
        self.build_url(path.as_str())
    }

    /// The request for the predicted arrivals of line `line_id`.
    pub fn arrivals_by_line_request(&self, line_id: &str) -> (r: Result<RequestUrl, AppError>)
        ensures
            built(r, *self, arrivals_path(line_id@)),
    {
        let path = String::from_str("/Line/").concat(line_id).concat("/Arrivals");
        self.build_url(path.as_str())
    }

    /// The request for the predicted arrivals of line `line_id` at `stop_id`.
    pub fn arrivals_by_line_at_stop_request(&self, line_id: &str, stop_id: &str) -> (r: Result<
        RequestUrl,
        AppError,
    >)
        ensures
            built(r, *self, arrivals_at_stop_path(line_id@, stop_id@)),
    {
        let path = String::from_str("/Line/").concat(line_id).concat("/Arrivals/").concat(stop_id);
        self.build_url(path.as_str())
    }

    /// The request for the disruptions of line `line_id`.
    pub fn disruptions_by_line_request(&self, line_id: &str) -> (r: Result<RequestUrl, AppError>)
        ensures
            built(r, *self, line_disruption_path(line_id@)),
    {
        let path = String::from_str("/Line/").concat(line_id).concat("/Disruption");
        self.build_url(path.as_str())
    }

    /// The request for the disruptions of transport mode `mode`.
    pub fn disruptions_by_mode_request(&self, mode: &str) -> (r: Result<RequestUrl, AppError>)
        ensures
            built(r, *self, mode_disruption_path(mode@)),
    {
        let path = String::from_str("/Line/Mode/").concat(mode).concat("/Disruption");
        self.build_url(path.as_str())
    }
}


/// Whether an HTTP status is in the success range.
pub open spec fn is_success_spec(code: u16) -> bool {
    200 <= code <= 299
}

/// Whether an HTTP status is in the success range.
pub fn is_success(code: u16) -> (r: bool)
    ensures
        r == is_success_spec(code),
{
    200 <= code && code <= 299
}

/// The decimal digit `d` as a character.
pub open spec fn digit_char(d: int) -> char {
    if d == 0 { '0' }
    else if d == 1 { '1' }
    else if d == 2 { '2' }
    else if d == 3 { '3' }
    else if d == 4 { '4' }
    else if d == 5 { '5' }
    else if d == 6 { '6' }
    else if d == 7 { '7' }
    else if d == 8 { '8' }
    else { '9' }
}

/// The three decimal digits of a status code between 100 and 999.
pub open spec fn three_digits(code: u16) -> Seq<char> {
    let c = code as int;
    seq![digit_char(c / 100), digit_char((c / 10) % 10), digit_char(c % 10)]
}

/// How `http::StatusCode` displays the code: its digits, a space, and its
/// canonical reason phrase.
pub uninterp spec fn status_display(code: u16) -> Seq<char>;

/// Relies on `reqwest::StatusCode::from_u16`, which accepts 100 to 999, and
/// on its `Display`, which writes the code's digits, a space, then the reason.
#[verifier::external_body]
fn status_text(code: u16) -> (r: String)
    requires
        100 <= code <= 999,
    ensures
        r@ == status_display(code),
        r@.len() >= 4,
        r@.subrange(0, 3) == three_digits(code),
        r@[3] == ' ',
{
    match reqwest::StatusCode::from_u16(code) {
        Ok(status) => status.to_string(),
        Err(_) => String::new(),
    }
}

/// The text used when the body of a failed response cannot be read.
pub open spec fn unknown_error_text() -> Seq<char> {
    "Unknown error"@
}

/// The message of the failure for status `code` with body `body`.
pub open spec fn http_error_message(code: u16, body: Option<Seq<char>>) -> Seq<char> {
    "HTTP error "@ + status_display(code) + ": "@ + match body {
        Some(b) => b,
        None => unknown_error_text(),
    }
}

/// The failure for an upstream answer with a non-success status `code`,
/// carrying the status and the response body (`None` when it could not be
/// read).
pub fn http_error(code: u16, body: Option<String>) -> (r: AppError)
    requires
        100 <= code <= 999,
    ensures
        status_display(code).len() >= 4,
        status_display(code).subrange(0, 3) == three_digits(code),
        status_display(code)[3] == ' ',
        match r {
            AppError::InternalError(m) => m@ == http_error_message(
                code,
                match body {
                    Some(b) => Some(b@),
                    None => None,
                },
            ),
            _ => false,
        },
{
    let text = match body {
        Some(b) => b,
        None => String::from_str("Unknown error"),
    };
    let status = status_text(code);
    AppError::InternalError(
        String::from_str("HTTP error ").concat(status.as_str()).concat(": ").concat(text.as_str()),
    )
}

/// The text `String::from_utf8_lossy` makes of the bytes.
pub uninterp spec fn lossy_text(b: Seq<u8>) -> Seq<char>;

/// Relies on `String::from_utf8_lossy`: the bytes as text, invalid sequences
/// replaced.
#[verifier::external_body]
fn utf8_lossy(b: &[u8]) -> (r: String)
    ensures
        r@ == lossy_text(b@),
{
    String::from_utf8_lossy(b).into_owned()
}

/// The failure for a body that did not decode into the expected shape: the
/// decoder's path and message, and the whole body kept as text.
pub fn deserialization_error(path: String, message: String, body: &[u8]) -> (r: AppError)
    ensures
        match r {
            AppError::DeserializationError { path: p, message: m, raw_data } => p@ == path@
                && m@ == message@ && raw_data.is_some() && raw_data.unwrap()@ == lossy_text(
                body@,
            ),
            _ => false,
        },
{
    let raw = utf8_lossy(body);
    AppError::DeserializationError { path, message, raw_data: Some(raw) }
}

} // verus!
