use crate::transport::{
    build_request, is_header_name, is_header_value, is_token, parse_header_name,
    parse_header_value, parse_method, url_accepted, MAX_HEADERS,
};
use reqwest::Request as HttpRequest;
use vstd::prelude::*;

verus! {

/// Why a probe request could not be built, or the HTTP client could not be made.
#[derive(Debug, Clone, Copy, PartialEq, Eq, Structural)]
pub enum HealthError {
    /// The method is not a valid HTTP token.
    InvalidMethod,
    /// A header name or value holds characters that HTTP does not allow there.
    InvalidHeader,
    /// The body file could not be read as text.
    BodyUnreadable,
    /// The HTTP client refused the URL.
    InvalidRequest,
    /// The HTTP client could not be constructed.
    ClientBuild,
}

/// Timing and retry policy, all durations in milliseconds.
#[derive(Debug, Clone)]
pub struct Grace {
    check_interval_ms: u64,
    check_interval_failed_ms: Option<u64>,
    retry_count: u32,
    timeout_ms: u64,
    wait_after_command_ms: u64,
}

pub const DEFAULT_CHECK_INTERVAL_MS: u64 = 1_000;

pub const DEFAULT_RETRY_COUNT: u32 = 3;

pub const DEFAULT_TIMEOUT_MS: u64 = 30_000;

pub const DEFAULT_WAIT_AFTER_COMMAND_MS: u64 = 30_000;

/// The value given, or the default when it was left out.
pub open spec fn or_default<T>(v: Option<T>, d: T) -> T {
    match v {
        Some(x) => x,
        None => d,
    }
}

impl Grace {
    pub closed spec fn spec_check_interval_ms(&self) -> u64 {
        self.check_interval_ms
    }

    /// The delay after a failed check: its own setting, else `check_interval`.
    pub closed spec fn spec_check_interval_failed_ms(&self) -> u64 {
        or_default(self.check_interval_failed_ms, self.check_interval_ms)
    }

    pub closed spec fn spec_retry_count(&self) -> u32 {
        self.retry_count
    }

    pub closed spec fn spec_timeout_ms(&self) -> u64 {
        self.timeout_ms
    }

    pub closed spec fn spec_wait_after_command_ms(&self) -> u64 {
        self.wait_after_command_ms
    }

    /// Builds a policy from the settings present in a configuration; each one
    /// left out takes its default.
    pub fn new(
        check_interval_ms: Option<u64>,
        check_interval_failed_ms: Option<u64>,
        retry_count: Option<u32>,
        timeout_ms: Option<u64>,
        wait_after_command_ms: Option<u64>,
    ) -> (g: Grace)
        ensures
            g.spec_check_interval_ms() == or_default(check_interval_ms, DEFAULT_CHECK_INTERVAL_MS),
            g.spec_check_interval_failed_ms() == or_default(
                check_interval_failed_ms,
                g.spec_check_interval_ms(),
            ),
            g.spec_retry_count() == or_default(retry_count, DEFAULT_RETRY_COUNT),
            g.spec_timeout_ms() == or_default(timeout_ms, DEFAULT_TIMEOUT_MS),
            g.spec_wait_after_command_ms() == or_default(
                wait_after_command_ms,
                DEFAULT_WAIT_AFTER_COMMAND_MS,
            ),
    {
        Grace {
            check_interval_ms: match check_interval_ms {
                Some(v) => v,
                None => Grace::default_check_interval(),
            },
            check_interval_failed_ms,
            retry_count: match retry_count {
                Some(v) => v,
                None => Grace::default_retry_count(),
            },
            timeout_ms: match timeout_ms {
                Some(v) => v,
                None => Grace::default_timeout(),
            },
            wait_after_command_ms: match wait_after_command_ms {
                Some(v) => v,
                None => Grace::default_wait_after_command(),
            },
        }
    }

    /// One second.
    pub fn default_check_interval() -> (r: u64)
        ensures
            r == DEFAULT_CHECK_INTERVAL_MS,
    {
        DEFAULT_CHECK_INTERVAL_MS
    }

    /// Three consecutive failures.
    pub fn default_retry_count() -> (r: u32)
        ensures
            r == DEFAULT_RETRY_COUNT,
    {
        DEFAULT_RETRY_COUNT
    }

    /// Thirty seconds.
    pub fn default_timeout() -> (r: u64)
        ensures
            r == DEFAULT_TIMEOUT_MS,
    {
        DEFAULT_TIMEOUT_MS
    }

    /// Thirty seconds.
    pub fn default_wait_after_command() -> (r: u64)
        ensures
            r == DEFAULT_WAIT_AFTER_COMMAND_MS,
    {
        DEFAULT_WAIT_AFTER_COMMAND_MS
    }

    /// Delay after a successful check, in milliseconds.
    pub fn check_interval(&self) -> (r: u64)
        ensures
            r == self.spec_check_interval_ms(),
    {
        self.check_interval_ms
    }

    /// Delay after a tolerated failed check, in milliseconds.
    pub fn check_interval_failed(&self) -> (r: u64)
        ensures
            r == self.spec_check_interval_failed_ms(),
    {
        match self.check_interval_failed_ms {
            Some(v) => v,
            None => self.check_interval(),
        }
    }

    /// Consecutive failures tolerated before the command runs.
    pub fn retry_count(&self) -> (r: u32)
        ensures
            r == self.spec_retry_count(),
    {
        self.retry_count
    }

    /// Connection timeout of every probe, in milliseconds.
    pub fn timeout(&self) -> (r: u64)
        ensures
            r == self.spec_timeout_ms(),
    {
        self.timeout_ms
    }

    /// Delay after the command has run, in milliseconds.
    pub fn wait_after_command(&self) -> (r: u64)
        ensures
            r == self.spec_wait_after_command_ms(),
    {
        self.wait_after_command_ms
    }
}


/// Where the body of a probe request comes from.
#[derive(Debug, Clone)]
pub enum Body {
    /// No content.
    Empty,
    /// This text.
    String(String),
    /// The text of the file at this path, read when the request is built.
    File(String),
}

impl Body {
    /// The text that the body resolves to, given what reading its file gave
    /// (`None` when it could not be read as text); `None` when unreadable.
    pub open spec fn spec_text(&self, file_text: Option<String>) -> Option<Seq<char>> {
        match self {
            Body::Empty => Some(Seq::empty()),
            Body::String(s) => Some(s@),
            Body::File(_) => match file_text {
                Some(t) => Some(t@),
                None => None,
            },
        }
    }

    /// The path whose text the body needs, if any.
    pub fn file_path(&self) -> (r: Option<&String>)
        ensures
            r == (match self {
                Body::File(p) => Some(p),
                _ => None,
            }),
    {
        match self {
            Body::File(p) => Some(p),
            _ => None,
        }
    }

    /// Resolves the body to its text. `file_text` is the content of the body's
    /// file as read by the caller (`None` when it could not be read as text);
    /// it is ignored by the other variants.
    pub fn as_body(&self, file_text: Option<String>) -> (r: Result<String, HealthError>)
        ensures
            match self.spec_text(file_text) {
                Some(t) => r is Ok && r->Ok_0@ == t,
                None => r == Err::<String, HealthError>(HealthError::BodyUnreadable),
            },
    {
        match self {
            Body::Empty => Ok(String::new()),
            Body::String(s) => Ok(s.clone()),
            Body::File(_) => match file_text {
                Some(t) => Ok(t),
                None => Err(HealthError::BodyUnreadable),
            },
        }
    }
}

/// Every header pair has a valid name and a valid value.
pub open spec fn headers_valid(h: Seq<(String, String)>) -> bool {
    forall|i: int|
        0 <= i < h.len() ==> is_header_name((#[trigger] h[i]).0@) && is_header_value(h[i].1@)
}

/// The probe request.
#[derive(Debug, Clone)]
pub struct Request {
    /// The HTTP method to use.
    pub method: String,
    /// The URL to send the request to.
    pub url: String,
    /// The headers to send, in order; a name may repeat.
    pub headers: Vec<(String, String)>,
    /// The body to send.
    pub body: Body,
}

impl Request {
    /// Builds the probe request. `file_text` is the content of the body's file
    /// when the body is `Body::File` (`None` when it could not be read).
    /// The method is checked first, then the headers in order, then the body,
    /// then the URL.
    pub fn make_request(&self, client: &reqwest::Client, file_text: Option<String>) -> (r: Result<
        HttpRequest,
        HealthError,
    >)
        requires
            self.headers@.len() <= MAX_HEADERS,
        ensures
            !is_token(self.method@) ==> r == Err::<HttpRequest, HealthError>(
                HealthError::InvalidMethod,
            ),
            is_token(self.method@) && !headers_valid(self.headers@) ==> r == Err::<
                HttpRequest,
                HealthError,
            >(HealthError::InvalidHeader),
            is_token(self.method@) && headers_valid(self.headers@) && self.body.spec_text(
                file_text,
            ) is None ==> r == Err::<HttpRequest, HealthError>(HealthError::BodyUnreadable),
            is_token(self.method@) && headers_valid(self.headers@) && self.body.spec_text(
                file_text,
            ) is Some ==> (r is Ok <==> url_accepted(self.url@)),
            is_token(self.method@) && headers_valid(self.headers@) && self.body.spec_text(
                file_text,
            ) is Some && !url_accepted(self.url@) ==> r == Err::<HttpRequest, HealthError>(
                HealthError::InvalidRequest,
            ),
    {
        let method = match parse_method(self.method.as_str()) {
            Some(m) => m,
            None => return Err(HealthError::InvalidMethod),
        };
        let mut pairs: Vec<(reqwest::header::HeaderName, reqwest::header::HeaderValue)> =
            Vec::new();
        let n = self.headers.len();
        let mut i: usize = 0;
        while i < n
            invariant
                is_token(self.method@),
                n == self.headers@.len(),
                n <= MAX_HEADERS,
                i <= n,
                pairs@.len() == i,
                headers_valid(self.headers@.subrange(0, i as int)),
            decreases n - i,
        {
            let name = match parse_header_name(self.headers[i].0.as_str()) {
                Some(v) => v,
                None => {
                    assert(!headers_valid(self.headers@)) by {
                        assert(!is_header_name(self.headers@[i as int].0@));
                    }
                    return Err(HealthError::InvalidHeader);
                },
            };
            let value = match parse_header_value(self.headers[i].1.as_str()) {
                Some(v) => v,
                None => {
                    assert(!headers_valid(self.headers@)) by {
                        assert(!is_header_value(self.headers@[i as int].1@));
                    }
                    return Err(HealthError::InvalidHeader);
                },
            };
            pairs.push((name, value));
            proof {
                assert forall|j: int| 0 <= j < i + 1 implies is_header_name(
                    (#[trigger] self.headers@.subrange(0, i + 1)[j]).0@,
                ) && is_header_value(self.headers@.subrange(0, i + 1)[j].1@) by {
                    if j < i {
                        assert(self.headers@.subrange(0, i + 1)[j] == self.headers@.subrange(
                            0,
                            i as int,
                        )[j]);
                    }
                }
            }
            i = i + 1;
        }
        assert(self.headers@.subrange(0, n as int) =~= self.headers@);
        let body = match self.body.as_body(file_text) {
            Ok(b) => b,
            Err(e) => return Err(e),
        };
        match build_request(client, method, self.url.as_str(), pairs, body) {
            Ok(req) => Ok(req),
            Err(_) => Err(HealthError::InvalidRequest),
        }
    }
}

/// The command run when the probe has failed beyond the tolerance.
#[derive(Debug, Clone)]
pub struct Command {
    /// A shell command line.
    pub command: String,
    /// The directory to run it in; the current directory when absent.
    pub working_dir: Option<String>,
}

/// The whole configuration of the watchdog.
#[derive(Debug)]
pub struct Config {
    /// The health request to make periodically.
    pub request: Request,
    /// The command to run when the health check fails.
    pub command: Command,
    /// Timing and retry policy.
    pub grace: Grace,
}

} // verus!
