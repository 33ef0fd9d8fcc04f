//! What the route handlers decide: the query parameters they take, the
//! upstream requests a query fans out to, and the envelope around results.

use vstd::prelude::*;

use crate::error::AppError;
use crate::text::{split_on, split_spec, str_eq, trim, trim_spec, views};
use crate::tfl::{
    arrivals_at_stop_path, arrivals_path, build_ok, is_request_for, mode_disruption_path,
    RequestUrl, TflClient,
};

verus! {

/// Query of the line and station listings; an absent query means "all".
#[derive(Debug, PartialEq, Eq)]
pub struct SqlQuery {
    pub query: Option<String>,
}

/// Query of the arrival routes: line ids or a station id, and optionally a
/// comma-separated list of lines.
#[derive(Debug, PartialEq, Eq)]
pub struct ArrivalsQuery {
    pub query: String,
    pub lines: Option<String>,
}

/// Query of the disruption route: a comma-separated list of modes.
#[derive(Debug, PartialEq, Eq)]
pub struct DisruptionQuery {
    pub query: String,
}

pub open spec fn default_sql_query() -> Seq<char> {
    "SELECT * FROM self;"@
}

pub open spec fn default_lines() -> Seq<char> {
    "tube"@
}

/// The comma-separated list of lines, `tube` when none was given.
pub open spec fn lines_list(lines: Option<String>) -> Seq<char> {
    match lines {
        Some(l) => l@,
        None => default_lines(),
    }
}

impl SqlQuery {
    /// The query to echo back, the default one when none was given.
    pub fn query_or_default(&self) -> (r: String)
        ensures
            match self.query {
                Some(q) => r@ == q@,
                None => r@ == default_sql_query(),
            },
    {
        match &self.query {
            Some(q) => q.clone(),
            None => String::from_str("SELECT * FROM self;"),
        }
    }
}

impl ArrivalsQuery {
    /// The list of lines, `tube` when none was given.
    pub fn lines_or_default(&self) -> (r: String)
        ensures
            match self.lines {
                Some(l) => r@ == l@,
                None => r@ == default_lines(),
            },
    {
        match &self.lines {
            Some(l) => l.clone(),
            None => String::from_str("tube"),
        }
    }
}

/// The modes whose disruptions may be asked for.
pub open spec fn allowed_mode(m: Seq<char>) -> bool {
    m == "tube"@ || m == "overground"@ || m == "dlr"@ || m == "elizabeth-line"@
}

/// Whether `m` is one of the modes whose disruptions may be asked for.
pub fn is_allowed_mode(m: &str) -> (r: bool)
    ensures
        r == allowed_mode(m@),
{
    str_eq(m, "tube") || str_eq(m, "overground") || str_eq(m, "dlr") || str_eq(m, "elizabeth-line")
}

/// The requests for the arrivals of each comma-separated line id of
/// `query`, trimmed, in list order; the first address that does not build
/// ends the plan with its failure.
pub fn arrivals_by_lines_requests(client: &TflClient, query: &str) -> (r: Result<
    Vec<RequestUrl>,
    AppError,
>)
    ensures
        ({
            let ids = split_spec(query@, ',');
            &&& r is Ok <==> forall|i: int|
                0 <= i < ids.len() ==> build_ok(arrivals_path(trim_spec(#[trigger] ids[i])))
            &&& r matches Ok(v) ==> v@.len() == ids.len() && forall|i: int|
                0 <= i < ids.len() ==> is_request_for(
                    #[trigger] v@[i],
                    *client,
                    arrivals_path(trim_spec(ids[i])),
                )
            &&& r matches Err(e) ==> e is InternalError
        }),
{
    let ids = split_on(query, ',');
    let ghost idv = views(ids@);
    let mut plan: Vec<RequestUrl> = Vec::new();
    let mut i: usize = 0;
    while i < ids.len()
        invariant
            idv == views(ids@),
            idv == split_spec(query@, ','),
            i <= ids@.len(),
            plan@.len() == i,
            forall|j: int|
                0 <= j < i ==> build_ok(arrivals_path(trim_spec(#[trigger] idv[j]))),
            forall|j: int|
                0 <= j < i ==> is_request_for(
                    #[trigger] plan@[j],
                    *client,
                    arrivals_path(trim_spec(idv[j])),
                ),
        decreases ids@.len() - i,
    {
        let id = trim(ids[i].as_str());
        assert(idv[i as int] == ids@[i as int]@);
        match client.arrivals_by_line_request(id) {
            Ok(u) => {
                plan.push(u);
            },
            Err(e) => {
                return Err(e);
            },
        }
        i = i + 1;
    }
    Ok(plan)
}

/// The requests for the arrivals at `station` of each comma-separated line
/// of `lines` (`tube` when absent), trimmed, in list order.
pub fn arrivals_by_station_requests(client: &TflClient, station: &str, lines: Option<String>) -> (r:
    Result<Vec<RequestUrl>, AppError>)
    ensures
        ({
            let ids = split_spec(lines_list(lines), ',');
            &&& r is Ok <==> forall|i: int|
                0 <= i < ids.len() ==> build_ok(
                    arrivals_at_stop_path(trim_spec(#[trigger] ids[i]), station@),
                )
            &&& r matches Ok(v) ==> v@.len() == ids.len() && forall|i: int|
                0 <= i < ids.len() ==> is_request_for(
                    #[trigger] v@[i],
                    *client,
                    arrivals_at_stop_path(trim_spec(ids[i]), station@),
                )
            &&& r matches Err(e) ==> e is InternalError
        }),
{
    let ghost wanted = lines_list(lines);
    let list = match lines {
        Some(l) => l,
        None => String::from_str("tube"),
    };
    assert(list@ == wanted);
    let ids = split_on(list.as_str(), ',');
    let ghost idv = views(ids@);
    let mut plan: Vec<RequestUrl> = Vec::new();
    let mut i: usize = 0;
    while i < ids.len()
        invariant
            idv == views(ids@),
            idv == split_spec(list@, ','),
            list@ == wanted,
            wanted == lines_list(lines),
            i <= ids@.len(),
            plan@.len() == i,
            forall|j: int|
                0 <= j < i ==> build_ok(arrivals_at_stop_path(trim_spec(#[trigger] idv[j]), station@)),
            forall|j: int|
                0 <= j < i ==> is_request_for(
                    #[trigger] plan@[j],
                    *client,
                    arrivals_at_stop_path(trim_spec(idv[j]), station@),
                ),
        decreases ids@.len() - i,
    {
        let id = trim(ids[i].as_str());
        assert(idv[i as int] == ids@[i as int]@);
        match client.arrivals_by_line_at_stop_request(id, station) {
            Ok(u) => {
                plan.push(u);
            },
            Err(e) => {
                assert(!build_ok(arrivals_at_stop_path(trim_spec(idv[i as int]), station@)));
                return Err(e);
            },
        }
        i = i + 1;
    }
    Ok(plan)
}

/// The requests for the disruptions of each comma-separated mode of
/// `query`, in list order. Every mode is checked against the allowed ones
/// before any request is planned: the first one that is not allowed gives a
/// `ParseError` naming it.
pub fn disruption_requests(client: &TflClient, query: &str) -> (r: Result<
    Vec<RequestUrl>,
    AppError,
>)
    ensures
        ({
            let modes = split_spec(query@, ',');
            &&& (forall|i: int| 0 <= i < modes.len() ==> allowed_mode(#[trigger] modes[i]))
                <==> !(r matches Err(AppError::ParseError(_)))
            &&& r matches Err(AppError::ParseError(m)) ==> exists|i: int|
                0 <= i < modes.len() && !allowed_mode(#[trigger] modes[i]) && (forall|j: int|
                    0 <= j < i ==> allowed_mode(#[trigger] modes[j])) && m@ == "Invalid mode: "@
                    + modes[i]
            &&& r is Ok <==> (forall|i: int|
                0 <= i < modes.len() ==> allowed_mode(#[trigger] modes[i])) && (forall|i: int|
                0 <= i < modes.len() ==> build_ok(mode_disruption_path(#[trigger] modes[i])))
            &&& r matches Ok(v) ==> v@.len() == modes.len() && forall|i: int|
                0 <= i < modes.len() ==> is_request_for(
                    #[trigger] v@[i],
                    *client,
                    mode_disruption_path(modes[i]),
                )
            &&& r matches Err(e) ==> e is ParseError || e is InternalError
        }),
{
    let modes = split_on(query, ',');
    let ghost mv = views(modes@);
    let mut k: usize = 0;
    while k < modes.len()
        invariant
            mv == views(modes@),
            mv == split_spec(query@, ','),
            k <= modes@.len(),
            forall|j: int| 0 <= j < k ==> allowed_mode(#[trigger] mv[j]),
        decreases modes@.len() - k,
    {
        assert(mv[k as int] == modes@[k as int]@);
        if !is_allowed_mode(modes[k].as_str()) {
            let m = String::from_str("Invalid mode: ").concat(modes[k].as_str());
            return Err(AppError::ParseError(m));
        }
        k = k + 1;
    }
    let mut plan: Vec<RequestUrl> = Vec::new();
    let mut i: usize = 0;
    while i < modes.len()
        invariant
            mv == views(modes@),
            mv == split_spec(query@, ','),
            forall|j: int| 0 <= j < mv.len() ==> allowed_mode(#[trigger] mv[j]),
            i <= modes@.len(),
            plan@.len() == i,
            forall|j: int| 0 <= j < i ==> build_ok(mode_disruption_path(#[trigger] mv[j])),
            forall|j: int|
                0 <= j < i ==> is_request_for(
                    #[trigger] plan@[j],
                    *client,
                    mode_disruption_path(mv[j]),
                ),
        decreases modes@.len() - i,
    {
        assert(mv[i as int] == modes@[i as int]@);
        match client.disruptions_by_mode_request(modes[i].as_str()) {
            Ok(u) => {
                plan.push(u);
            },
            Err(e) => {
                return Err(e);
            },
        }
        i = i + 1;
    }
    Ok(plan)
}


/// Appends the results of one upstream call to those gathered so far,
/// keeping both in order.
pub fn extend_results<T>(acc: &mut Vec<T>, batch: Vec<T>)
    ensures
        final(acc)@ == old(acc)@ + batch@,
{
    let mut batch = batch;
    acc.append(&mut batch);
}

/// A wall-clock instant, in microseconds since the Unix epoch.
#[derive(Debug, Clone, Copy, PartialEq, Eq)]
pub struct Timestamp {
    pub micros: i64,
}

/// Timing and query information attached to every answer.
#[derive(Debug, PartialEq, Eq)]
pub struct MetaData {
    pub request_time: Timestamp,
    pub response_time: Timestamp,
    /// Time elapsed since the request started, in nanoseconds.
    pub response_latency: u128,
    pub query: String,
}

impl MetaData {
    /// The response is never stamped before the request.
    pub open spec fn wf(&self) -> bool {
        self.request_time.micros <= self.response_time.micros
    }
}

/// A successful answer.
#[derive(Debug, PartialEq, Eq)]
pub struct Response<T> {
    pub context: MetaData,
    pub success: bool,
    pub results: Vec<T>,
}

/// A failed answer.
#[derive(Debug, PartialEq, Eq)]
pub struct ErrorResponse {
    pub context: MetaData,
    pub success: bool,
    pub error: String,
}

#[verifier::external_type_specification]
#[verifier::external_body]
pub struct ExInstant(std::time::Instant);

#[verifier::external_type_specification]
#[verifier::external_body]
pub struct ExSystemTime(std::time::SystemTime);

#[verifier::external_type_specification]
#[verifier::external_body]
pub struct ExSystemTimeError(std::time::SystemTimeError);

/// Relies on `SystemTime::now`: the current wall clock, which may step
/// backwards between two readings.
#[verifier::external_body]
fn system_now() -> (r: std::time::SystemTime) {
    std::time::SystemTime::now()
}

/// Relies on `SystemTime::duration_since` with the Unix epoch: the time
/// since the epoch, or an error when `t` lies before it.
#[verifier::external_body]
fn since_epoch(t: &std::time::SystemTime) -> (r: Result<
    std::time::Duration,
    std::time::SystemTimeError,
>) {
    t.duration_since(std::time::UNIX_EPOCH)
}

/// Relies on `SystemTimeError::duration`: how far before the epoch the
/// reading lay.
#[verifier::external_body]
fn before_epoch(e: &std::time::SystemTimeError) -> (r: std::time::Duration) {
    e.duration()
}

/// Relies on `Duration::as_micros`: the whole duration in microseconds.
#[verifier::external_body]
fn duration_micros(d: &std::time::Duration) -> (r: u128) {
    d.as_micros()
}

/// The signed microsecond offset from the epoch of a reading that lies
/// `micros` after it (`after`) or before it, saturating at the range of `i64`.
pub open spec fn offset_micros(after: bool, micros: u128) -> int {
    let m: int = if micros > i64::MAX { i64::MAX as int } else { micros as int };
    if after {
        m
    } else {
        -m
    }
}

/// A signed microsecond offset from the epoch, saturating at the range of
/// `i64`.
pub fn to_offset_micros(after: bool, micros: u128) -> (r: i64)
    ensures
        r as int == offset_micros(after, micros),
{
    let capped: i64 = if micros > i64::MAX as u128 {
        i64::MAX
    } else {
        micros as i64
    };
    if after {
        capped
    } else {
        -capped
    }
}

/// The wall clock now, in microseconds since the Unix epoch; a clock set
/// before the epoch gives a negative value, never a panic.
fn wall_clock_micros() -> (r: i64) {
    let now = system_now();
    match since_epoch(&now) {
        Ok(d) => to_offset_micros(true, duration_micros(&d)),
        Err(e) => {
            let d = before_epoch(&e);
            to_offset_micros(false, duration_micros(&d))
        },
    }
}

/// Relies on `Instant::elapsed`: the monotonic time since `start`.
#[verifier::external_body]
fn elapsed(start: &std::time::Instant) -> (r: std::time::Duration) {
    start.elapsed()
}

/// Relies on `Duration::as_nanos`: the whole duration in nanoseconds.
#[verifier::external_body]
fn duration_nanos(d: &std::time::Duration) -> (r: u128) {
    d.as_nanos()
}

/// The metadata of an answer to `query` whose handling began at
/// `start_time`: two wall-clock readings, the later one never before the
/// earlier, and the monotonic time elapsed.
pub fn create_metadata(start_time: std::time::Instant, query: &str) -> (r: MetaData)
    ensures
        r.wf(),
        r.query@ == query@,
{
    let request_time = Timestamp { micros: wall_clock_micros() };
    let reading = wall_clock_micros();
    let response_time = if reading < request_time.micros {
        request_time
    } else {
        Timestamp { micros: reading }
    };
    let d = elapsed(&start_time);
    let response_latency = duration_nanos(&d);
    MetaData { request_time, response_time, response_latency, query: query.to_string() }
}

/// A successful answer to `query` carrying `results` unchanged.
pub fn create_response<T>(start_time: std::time::Instant, query: &str, results: Vec<T>) -> (r:
    Response<T>)
    ensures
        r.success,
        r.results@ == results@,
        r.context.wf(),
        r.context.query@ == query@,
{
    Response { context: create_metadata(start_time, query), success: true, results }
}

/// A failed answer to `query` carrying the message `error`.
pub fn create_error_response(start_time: std::time::Instant, query: &str, error: String) -> (r:
    ErrorResponse)
    ensures
        !r.success,
        r.error@ == error@,
        r.context.wf(),
        r.context.query@ == query@,
{
    ErrorResponse { context: create_metadata(start_time, query), success: false, error }
}

} // verus!
