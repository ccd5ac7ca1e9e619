use vstd::prelude::*;

use crate::http::{ascii_text, header_is_text, is_header_text};
use crate::networking::IpAddress;
use crate::session::Uuid;
use crate::text::{decimal, hex_digit, push_decimal, push_signed_decimal, signed_decimal, str_starts_with,
    trim_chars, trim_end_by, trim_end_char, trim_end_newlines, trim_str, trim_trailing_newlines};

verus! {

/// Where the log is written.
pub enum Target {
    Stderr,
    File(String),
}

/// A value that is written into a log line.
pub trait LogText {
    /// How the value is displayed.
    spec fn spec_text(&self) -> Seq<char>;

    /// How the value is shown for debugging.
    spec fn spec_debug_text(&self) -> Seq<char>;

    fn text(&self) -> (s: String)
        ensures
            s@ == self.spec_text(),
    ;

    fn debug_text(&self) -> (s: String)
        ensures
            s@ == self.spec_debug_text(),
    ;
}

impl LogText for u8 {
    open spec fn spec_text(&self) -> Seq<char> {
        decimal(*self as nat)
    }

    open spec fn spec_debug_text(&self) -> Seq<char> {
        decimal(*self as nat)
    }

    fn text(&self) -> (s: String) {
        let mut s = String::new();
        push_decimal(&mut s, *self as u64);
        assert(s@ =~= decimal(*self as nat));
        s
    }

    fn debug_text(&self) -> (s: String) {
        self.text()
    }
}

/// An optional value in a log line, written `-` when absent.
#[derive(PartialEq, Eq)]
pub enum LogOption<T> {
    Absent,
    Present(T),
}

impl<T> From<Option<T>> for LogOption<T> {
    fn from(opt: Option<T>) -> (r: Self) {
        match opt {
            None => LogOption::Absent,
            Some(v) => LogOption::Present(v),
        }
    }
}

impl<T> vstd::std_specs::convert::FromSpecImpl<Option<T>> for LogOption<T> {
    open spec fn obeys_from_spec() -> bool {
        true
    }

    open spec fn from_spec(opt: Option<T>) -> LogOption<T> {
        match opt {
            None => LogOption::Absent,
            Some(v) => LogOption::Present(v),
        }
    }
}

impl<T: LogText> LogOption<T> {
    pub open spec fn spec_text(&self) -> Seq<char> {
        match self {
            LogOption::Absent => "-"@,
            LogOption::Present(v) => v.spec_text(),
        }
    }

    pub open spec fn spec_debug_text(&self) -> Seq<char> {
        match self {
            LogOption::Absent => "\"-\""@,
            LogOption::Present(v) => v.spec_debug_text(),
        }
    }

    /// How the value is displayed: `-` when absent.
    pub fn to_string(&self) -> (s: String)
        ensures
            s@ == self.spec_text(),
    {
        match self {
            LogOption::Absent => String::from_str("-"),
            LogOption::Present(v) => v.text(),
        }
    }

    /// How the value is shown for debugging: `"-"`, quotes included, when absent.
    pub fn debug_string(&self) -> (s: String)
        ensures
            s@ == self.spec_debug_text(),
    {
        match self {
            LogOption::Absent => String::from_str("\"-\""),
            LogOption::Present(v) => v.debug_text(),
        }
    }
}

/// Severity of an event that a worker reports.
#[derive(Clone, Copy, PartialEq, Eq, Structural, Debug)]
pub enum FaucetTracingLevel {
    Error,
    Warn,
    Info,
    Debug,
    Trace,
}

impl FaucetTracingLevel {
    pub open spec fn spec_name(self) -> Seq<char> {
        match self {
            FaucetTracingLevel::Trace => "trace"@,
            FaucetTracingLevel::Debug => "debug"@,
            FaucetTracingLevel::Error => "error"@,
            FaucetTracingLevel::Warn => "warn"@,
            FaucetTracingLevel::Info => "info"@,
        }
    }

    /// The lower case name of the level.
    pub fn as_str(self) -> (s: &'static str)
        ensures
            s@ == self.spec_name(),
    {
        match self {
            FaucetTracingLevel::Trace => "trace",
            FaucetTracingLevel::Debug => "debug",
            FaucetTracingLevel::Error => "error",
            FaucetTracingLevel::Warn => "warn",
            FaucetTracingLevel::Info => "info",
        }
    }
}

/// What is logged of the worker that served a request.
#[derive(Clone, Copy)]
pub struct StateData {
    pub uuid: Uuid,
    pub ip: IpAddress,
    pub worker_route: Option<&'static str>,
    pub worker_id: usize,
    pub target: &'static str,
}

/// What is logged of one request.
pub struct HttpLogData {
    pub state_data: StateData,
    pub method: String,
    /// The request target, as `Uri`'s `Display` writes it.
    pub uri: String,
    /// The path of the request target.
    pub path: String,
    /// The query of the request target, where it has one.
    pub query: Option<String>,
    /// The protocol version, as `Version`'s `Debug` writes it (`HTTP/1.1`).
    pub version: String,
    pub status: i16,
    /// The raw `User-Agent` header, where the request has one.
    pub user_agent: LogOption<Vec<u8>>,
    pub elapsed: i64,
}

/// The columns stored for one request.
pub struct HttpEventRow {
    pub uuid: Uuid,
    pub target: &'static str,
    pub worker_route: Option<&'static str>,
    pub worker_id: i32,
    pub ip: IpAddress,
    pub method: String,
    pub path: String,
    pub query: Option<String>,
    pub http_version: String,
    pub status: i16,
    pub user_agent: Option<String>,
    pub elapsed: i64,
}

/// The characters of ASCII bytes.
pub open spec fn ascii_chars(b: Seq<u8>) -> Seq<char> {
    b.map_values(|x: u8| x as char)
}

impl HttpLogData {
    /// The columns stored for the request: an empty query is stored as
    /// none, the user agent only where it reads as text, and the worker id
    /// as a 32-bit number (it wraps, as `as i32` does).
    pub fn to_event_row(&self) -> (r: HttpEventRow)
        ensures
            r.uuid == self.state_data.uuid,
            r.target == self.state_data.target,
            r.worker_route == self.state_data.worker_route,
            r.worker_id == self.state_data.worker_id as i32,
            r.ip == self.state_data.ip,
            r.method@ == self.method@,
            r.path@ == self.path@,
            match self.query {
                Some(q) => if q@.len() == 0 {
                    r.query is None
                } else {
                    r.query matches Some(rq) && rq@ == q@
                },
                None => r.query is None,
            },
            r.http_version@ == self.version@,
            r.status == self.status,
            match self.user_agent {
                LogOption::Present(v) => if is_header_text(v@) {
                    r.user_agent matches Some(u) && u@ == ascii_chars(v@)
                } else {
                    r.user_agent is None
                },
                LogOption::Absent => r.user_agent is None,
            },
            r.elapsed == self.elapsed,
    {
        let query = match &self.query {
            Some(q) => {
                if q.as_str().unicode_len() == 0 {
                    None
                } else {
                    Some(q.clone())
                }
            },
            None => None,
        };
        let user_agent = match &self.user_agent {
            LogOption::Present(v) => {
                if header_is_text(v.as_slice()) {
                    Some(ascii_text(v.as_slice()))
                } else {
                    None
                }
            },
            LogOption::Absent => None,
        };
        HttpEventRow {
            uuid: self.state_data.uuid,
            target: self.state_data.target,
            worker_route: self.state_data.worker_route,
            worker_id: self.state_data.worker_id as i32,
            ip: self.state_data.ip,
            method: self.method.clone(),
            path: self.path.clone(),
            query,
            http_version: self.version.clone(),
            status: self.status,
            user_agent,
            elapsed: self.elapsed,
        }
    }
}

/// A byte that a header value may hold: anything but a control
/// character, a horizontal tab excepted.
pub open spec fn is_header_value_byte(b: u8) -> bool {
    (b >= 32 && b != 127) || b == 9
}

/// The bytes of a valid header value.
pub open spec fn is_header_value(v: Seq<u8>) -> bool {
    forall|i: int| 0 <= i < v.len() ==> is_header_value_byte(#[trigger] v[i])
}

/// The lower case hexadecimal text of a byte, without leading zeros.
pub open spec fn hex_byte(b: u8) -> Seq<char> {
    if b < 16 {
        seq![hex_digit(b as nat)]
    } else {
        seq![hex_digit((b / 16) as nat), hex_digit((b % 16) as nat)]
    }
}

/// How one byte of a header value is shown for debugging: a visible ASCII
/// character or a tab as itself, a double quote escaped with a backslash,
/// any other byte as `\x` and its hexadecimal value.
pub open spec fn escape_header_byte(b: u8) -> Seq<char> {
    if b == 34 {
        seq!['\\', '"']
    } else if (32 <= b && b < 127) || b == 9 {
        seq![b as char]
    } else {
        seq!['\\', 'x'] + hex_byte(b)
    }
}

/// The escaped bytes of a header value, as its `Debug` writes them between
/// the quotes.
pub open spec fn header_debug_body(v: Seq<u8>) -> Seq<char>
    decreases v.len(),
{
    if v.len() == 0 {
        Seq::empty()
    } else {
        header_debug_body(v.drop_last()) + escape_header_byte(v.last())
    }
}

/// How a header value is shown for debugging: its escaped bytes in double
/// quotes.
pub open spec fn header_debug(v: Seq<u8>) -> Seq<char> {
    seq!['"'] + header_debug_body(v) + seq!['"']
}

/// `Debug` of `hyper::http::HeaderValue` built by `HeaderValue::from_bytes`
/// from valid bytes: the contract claims that it writes the bytes between
/// double quotes, visible ASCII characters and tabs as they are, a double
/// quote as `\"`, and any other byte as `\x` with its lower case hexadecimal
/// value (the value is not marked sensitive, so it is shown).
#[verifier::external_body]
fn header_value_debug(bytes: &[u8]) -> (s: String)
    requires
        is_header_value(bytes@),
    ensures
        s@ == header_debug(bytes@),
{
    match hyper::http::HeaderValue::from_bytes(bytes) {
        Ok(v) => format!("{:?}", v),
        Err(_) => String::new(),
    }
}

/// The route of a worker as it stands in a log line: without trailing
/// slashes, empty where the worker has none.
pub open spec fn route_text(route: Option<&'static str>) -> Seq<char> {
    match route {
        Some(r) => trim_end_by(r@, |c: char| c == '/'),
        None => Seq::empty(),
    }
}

/// How the user agent of a request stands in a log line.
pub open spec fn user_agent_text(ua: LogOption<Vec<u8>>) -> Seq<char> {
    match ua {
        LogOption::Present(v) => header_debug(v@),
        LogOption::Absent => "\"-\""@,
    }
}

impl HttpLogData {
    /// The user agent, where there is one, holds the bytes of a valid
    /// header value.
    pub open spec fn wf(&self) -> bool {
        match self.user_agent {
            LogOption::Present(v) => is_header_value(v@),
            LogOption::Absent => true,
        }
    }

    /// The log line of a request whose client address `ip` writes as
    /// `ip_text`: `{ip} "{method} {route}{uri} {version}" {status}
    /// {user agent} {elapsed}`.
    pub open spec fn spec_log_line(&self, ip_text: Seq<char>) -> Seq<char> {
        ip_text + " \""@ + self.method@ + " "@ + route_text(self.state_data.worker_route)
            + self.uri@ + " "@ + self.version@ + "\" "@ + signed_decimal(self.status as int)
            + " "@ + user_agent_text(self.user_agent) + " "@ + signed_decimal(self.elapsed as int)
    }

    /// Writes the log line of the request; `ip_text` is the client address
    /// as `IpAddr`'s `Display` writes it.
    pub fn log_line(&self, ip_text: &str) -> (line: String)
        requires
            self.wf(),
        ensures
            line@ == self.spec_log_line(ip_text@),
    {
        proof {
            reveal_strlit(" \"");
            reveal_strlit(" ");
            reveal_strlit("\" ");
            reveal_strlit("\"-\"");
        }
        let mut line = String::from_str(ip_text);
        line.append(" \"");
        line.append(self.method.as_str());
        line.append(" ");
        match self.state_data.worker_route {
            Some(r) => {
                let t = trim_end_char(r, '/');
                line.append(t.as_str());
            },
            None => {},
        }
        line.append(self.uri.as_str());
        line.append(" ");
        line.append(self.version.as_str());
        line.append("\" ");
        push_signed_decimal(&mut line, self.status as i64);
        line.append(" ");
        match &self.user_agent {
            LogOption::Present(v) => {
                let d = header_value_debug(v.as_slice());
                line.append(d.as_str());
            },
            LogOption::Absent => {
                line.append("\"-\"");
            },
        }
        line.append(" ");
        push_signed_decimal(&mut line, self.elapsed);
        assert(line@ =~= self.spec_log_line(ip_text@));
        line
    }
}

/// The size of the log file after `written` more bytes went into a file of
/// `current` bytes, and whether the file is then backed up and emptied:
/// that happens once it exceeds the limit (no limit means the largest
/// `u64`).
pub open spec fn spec_log_file_step(current: u64, written: u64, max_file_size: Option<u64>) -> (
    u64,
    bool,
) {
    let max = match max_file_size {
        Some(m) => m,
        None => u64::MAX,
    };
    let size = current + written;
    if size > max {
        (0, true)
    } else {
        (size as u64, false)
    }
}

/// Accounts for `written` bytes that went into the log file: the new size
/// of the file, and whether it must now be rotated (copied to the backup
/// and truncated).
pub fn log_file_step(current: u64, written: u64, max_file_size: Option<u64>) -> (r: (u64, bool))
    requires
        current + written <= u64::MAX,
    ensures
        r == spec_log_file_step(current, written, max_file_size),
{
    let max = match max_file_size {
        Some(m) => m,
        None => u64::MAX,
    };
    let size = current + written;
    if size > max {
        (0, true)
    } else {
        (size, false)
    }
}

/// A log file that is within its limit stays within it: after each write
/// it is either no larger than the limit or emptied.
pub proof fn lemma_log_file_stays_bounded(current: u64, written: u64, max: u64)
    requires
        current <= max,
        current + written <= u64::MAX,
    ensures
        spec_log_file_step(current, written, Some(max)).0 <= max,
        spec_log_file_step(current, written, Some(max)).1 <==> current + written > max,
{
}

/// The file that keeps the previous log when the log file is rotated: the
/// log file's path with `.bak` appended.
pub fn backup_path(path: &str) -> (r: String)
    ensures
        r@ == path@ + ".bak"@,
{
    let mut r = String::from_str(path);
    r.append(".bak");
    r
}

/// The marker that starts a line in which a worker reports an event.
pub const FAUCET_EVENT_PREFIX: &'static str = "{{ faucet_event }}:";

/// A line of a worker's output, sorted.
pub enum FaucetLine {
    /// Ordinary output.
    Output(String),
    /// An event: `raw` is the text after the marker, `json` the same without
    /// surrounding white space, which is read as an event.
    Event { raw: String, json: String },
}

/// How a line of output is sorted: trailing newlines are dropped; a line
/// that starts with the marker is an event whose text follows the marker's
/// colon (the marker holds no other colon); any other line is output.
pub open spec fn spec_classify(content: Seq<char>) -> (bool, Seq<char>) {
    let line = trim_trailing_newlines(content);
    let prefix = FAUCET_EVENT_PREFIX@;
    if prefix.len() <= line.len() && line.subrange(0, prefix.len() as int) == prefix {
        (true, line.subrange(prefix.len() as int, line.len() as int))
    } else {
        (false, line)
    }
}

/// Sorts a line of a worker's output into ordinary output and reported
/// events.
pub fn parse_faucet_event(content: &str) -> (r: FaucetLine)
    ensures
        match r {
            FaucetLine::Output(o) => spec_classify(content@) == (false, o@),
            FaucetLine::Event { raw, json } => spec_classify(content@) == (true, raw@) && json@
                == trim_chars(raw@),
        },
{
    let line = trim_end_newlines(content);
    let l = line.as_str();
    if !str_starts_with(l, FAUCET_EVENT_PREFIX) {
        return FaucetLine::Output(line);
    }
    let n = l.unicode_len();
    let m = FAUCET_EVENT_PREFIX.unicode_len();
    let rest = l.substring_char(m, n);
    let json = trim_str(rest);
    FaucetLine::Event { raw: String::from_str(rest), json }
}

} // verus!
