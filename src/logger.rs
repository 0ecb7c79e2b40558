use vstd::prelude::*;
use vstd::string::*;
use crate::level::{enabled, is_enabled, Level};
use crate::record::{line_of, Record, RecordView, SerializableRecord, Src};
use crate::wire::{encode_value, no_newline, text_of};

verus! {

pub open spec fn is_digit(c: char) -> bool {
    '0' <= c && c <= '9'
}

/// An RFC 3339 UTC timestamp as `%Y-%m-%dT%H:%M:%SZ` writes it: a year of at
/// least one digit, then `-MM-DDTHH:MM:SSZ` with two digits in each field.
pub open spec fn rfc3339_utc(t: Seq<char>) -> bool {
    let n = t.len() as int;
    &&& n >= 17
    &&& forall|i: int| 0 <= i < n - 16 ==> is_digit(#[trigger] t[i])
    &&& t[n - 16] == '-'
    &&& is_digit(t[n - 15]) && is_digit(t[n - 14])
    &&& t[n - 13] == '-'
    &&& is_digit(t[n - 12]) && is_digit(t[n - 11])
    &&& t[n - 10] == 'T'
    &&& is_digit(t[n - 9]) && is_digit(t[n - 8])
    &&& t[n - 7] == ':'
    &&& is_digit(t[n - 6]) && is_digit(t[n - 5])
    &&& t[n - 4] == ':'
    &&& is_digit(t[n - 3]) && is_digit(t[n - 2])
    &&& t[n - 1] == 'Z'
}

/// Relies on time::now_utc and Tm::rfc3339: the current UTC time, which
/// `rfc3339` writes as `%Y-%m-%dT%H:%M:%SZ` (offset zero), every field but the
/// year padded to two digits.
#[verifier::external_body]
fn now_rfc3339() -> (r: String)
    ensures
        rfc3339_utc(r@),
{
    time::now_utc().rfc3339().to_string()
}

/// What a logger holds, as values.
pub struct LoggerState {
    /// Everything written so far.
    pub output: Seq<char>,
    pub minimum: Level,
    pub name: Seq<char>,
    pub hostname: Seq<char>,
    pub pid: nat,
}

/// A named logger that writes one JSON line per accepted record to the text
/// sink it owns.
pub struct JsonLogger {
    out: String,
    level: Level,
    name: String,
    hostname: String,
    pid: u32,
}

impl View for JsonLogger {
    type V = LoggerState;

    closed spec fn view(&self) -> LoggerState {
        LoggerState {
            output: self.out@,
            minimum: self.level,
            name: self.name@,
            hostname: self.hostname@,
            pid: self.pid as nat,
        }
    }
}

/// The fields of the line for a record with message `msg` and call site
/// (`file`, `line`, `module`), written at `time` with payload text `data`.
pub open spec fn record_fields(
    st: LoggerState,
    level: Level,
    msg: Seq<char>,
    file: Seq<char>,
    line: nat,
    module: Seq<char>,
    time: Seq<char>,
    data: Option<Seq<char>>,
) -> RecordView {
    RecordView {
        level: level.weight(),
        name: st.name,
        hostname: st.hostname,
        pid: st.pid,
        time,
        msg,
        file,
        line,
        module,
        data,
    }
}

/// The line that one accepted call appends, for the clock reading `time` and
/// the payload's JSON text `payload` (unused without a payload).
#[verifier::opaque]
pub open spec fn appended(
    before: LoggerState,
    level: Level,
    msg: Seq<char>,
    file: Seq<char>,
    line: nat,
    module: Seq<char>,
    has_data: bool,
    time: Seq<char>,
    payload: Seq<char>,
) -> Seq<char> {
    line_of(
        record_fields(
            before,
            level,
            msg,
            file,
            line,
            module,
            time,
            if has_data { Some(payload) } else { None },
        ),
    )
}

/// The effect of one call on a logger: identity and threshold kept; nothing
/// written below the threshold; else the record's line, stamped with a UTC
/// clock reading `time` and carrying the payload's single-line JSON text
/// `payload` when there is one, appended after everything written before.
pub open spec fn logged(
    before: LoggerState,
    after: LoggerState,
    level: Level,
    msg: Seq<char>,
    file: Seq<char>,
    line: nat,
    module: Seq<char>,
    has_data: bool,
) -> bool {
    &&& after.minimum == before.minimum
    &&& after.name == before.name
    &&& after.hostname == before.hostname
    &&& after.pid == before.pid
    &&& !enabled(before.minimum, level) ==> after.output == before.output
    &&& enabled(before.minimum, level) ==> exists|time: Seq<char>, payload: Seq<char>|
        rfc3339_utc(time) && no_newline(payload) && after.output == before.output
            + #[trigger] appended(
            before,
            level,
            msg,
            file,
            line,
            module,
            has_data,
            time,
            payload,
        )
}

impl JsonLogger {
    /// A logger named `name` with the host's name and the process id, as
    /// looked up once by the caller; the threshold starts at `Info`.
    pub fn new(name: &str, hostname: String, pid: u32) -> (r: JsonLogger)
        ensures
            r@.output == Seq::<char>::empty(),
            r@.minimum == Level::Info,
            r@.name == name@,
            r@.hostname == hostname@,
            r@.pid == pid as nat,
    {
        JsonLogger { out: String::new(), level: Level::Info, name: String::from_str(name), hostname, pid }
    }

    pub fn set_minimum_level(&mut self, level: Level)
        ensures
            final(self)@ == (LoggerState { minimum: level, ..old(self)@ }),
    {
        self.level = level;
    }

    pub fn minimum_level(&self) -> (r: Level)
        ensures
            r == self@.minimum,
    {
        self.level
    }

    pub fn is_enabled(&self, level: Level) -> (r: bool)
        ensures
            r == enabled(self@.minimum, level),
    {
        is_enabled(self.level, level)
    }

    /// Everything written so far.
    pub fn output(&self) -> (r: &str)
        ensures
            r@ == self@.output,
    {
        self.out.as_str()
    }

    /// Hands out what was written and leaves the sink empty.
    pub fn take_output(&mut self) -> (r: String)
        ensures
            r@ == old(self)@.output,
            final(self)@ == (LoggerState { output: Seq::empty(), ..old(self)@ }),
    {
        let r = self.out.clone();
        self.out = String::new();
        r
    }

    /// Filters the record against the threshold and, when it passes, writes
    /// its line stamped with the current time.
    pub fn log(&mut self, record: Record)
        requires
            record.level.is_severity(),
        ensures
            logged(
                old(self)@,
                final(self)@,
                record.level,
                record.msg@,
                record.src.file@,
                record.src.line as nat,
                record.src.module@,
                record.data is Some,
            ),
    {
        if !is_enabled(self.level, record.level) {
            return;
        }
        let has_data = record.data.is_some();
        let payload = match &record.data {
            Some(v) => Some(encode_value(v)),
            None => None,
        };
        let ghost pv: Seq<char> = match text_of(payload) {
            Some(t) => t,
            None => Seq::empty(),
        };
        let time = now_rfc3339();
        let r = SerializableRecord {
            level: record.level.value(),
            name: self.name.clone(),
            hostname: self.hostname.clone(),
            pid: self.pid,
            time,
            msg: record.msg,
            src: record.src,
            data: payload,
        };
        let ghost fields = record_fields(
            old(self)@,
            record.level,
            r.msg@,
            r.src.file@,
            r.src.line as nat,
            r.src.module@,
            r.time@,
            if has_data { Some(pv) } else { None },
        );
        assert(r@ == fields);
        let l = r.to_line();
        self.out.append(l.as_str());
        proof {
            reveal(appended);
        }
        assert(self@.output == old(self)@.output + appended(
            old(self)@,
            record.level,
            fields.msg,
            fields.file,
            fields.line,
            fields.module,
            has_data,
            fields.time,
            pv,
        ));
    }

    /// Logs `msg` at `Fatal`, with an optional payload.
    pub fn fatal(&mut self, msg: &str, src: Src, data: Option<rustc_serialize::json::Json>)
        ensures
            logged(
                old(self)@,
                final(self)@,
                Level::Fatal,
                msg@,
                src.file@,
                src.line as nat,
                src.module@,
                data is Some,
            ),
    {
        self.log(Record { level: Level::Fatal, msg: String::from_str(msg), data, src });
    }

    /// Logs `msg` at `Error`, with an optional payload.
    pub fn error(&mut self, msg: &str, src: Src, data: Option<rustc_serialize::json::Json>)
        ensures
            logged(
                old(self)@,
                final(self)@,
                Level::Error,
                msg@,
                src.file@,
                src.line as nat,
                src.module@,
                data is Some,
            ),
    {
        self.log(Record { level: Level::Error, msg: String::from_str(msg), data, src });
    }

    /// Logs `msg` at `Warn`, with an optional payload.
    pub fn warn(&mut self, msg: &str, src: Src, data: Option<rustc_serialize::json::Json>)
        ensures
            logged(
                old(self)@,
                final(self)@,
                Level::Warn,
                msg@,
                src.file@,
                src.line as nat,
                src.module@,
                data is Some,
            ),
    {
        self.log(Record { level: Level::Warn, msg: String::from_str(msg), data, src });
    }

    /// Logs `msg` at `Info`, with an optional payload.
    pub fn info(&mut self, msg: &str, src: Src, data: Option<rustc_serialize::json::Json>)
        ensures
            logged(
                old(self)@,
                final(self)@,
                Level::Info,
                msg@,
                src.file@,
                src.line as nat,
                src.module@,
                data is Some,
            ),
    {
        self.log(Record { level: Level::Info, msg: String::from_str(msg), data, src });
    }

    /// Logs `msg` at `Debug`, with an optional payload.
    pub fn debug(&mut self, msg: &str, src: Src, data: Option<rustc_serialize::json::Json>)
        ensures
            logged(
                old(self)@,
                final(self)@,
                Level::Debug,
                msg@,
                src.file@,
                src.line as nat,
                src.module@,
                data is Some,
            ),
    {
        self.log(Record { level: Level::Debug, msg: String::from_str(msg), data, src });
    }

    /// Logs `msg` at `Trace`, with an optional payload.
    pub fn trace(&mut self, msg: &str, src: Src, data: Option<rustc_serialize::json::Json>)
        ensures
            logged(
                old(self)@,
                final(self)@,
                Level::Trace,
                msg@,
                src.file@,
                src.line as nat,
                src.module@,
                data is Some,
            ),
    {
        self.log(Record { level: Level::Trace, msg: String::from_str(msg), data, src });
    }
}

} // verus!
