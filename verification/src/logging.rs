//! Structured application logs (the standard app-log record).
use std::collections::HashMap;

use vstd::prelude::*;

verus! {

/// The kind of a log record.
#[derive(Debug, Clone, Copy, PartialEq, Eq, Structural)]
pub enum LogType {
    AppLog,
    ReqLog,
    ReqExLog,
    ResLog,
    ResExLog,
}

/// The severity of a log record.
#[derive(Debug, Clone, Copy, PartialEq, Eq, Structural)]
pub enum LogLevel {
    Debug,
    Info,
    Warn,
    Error,
}

/// The wire name of a log type (screaming snake case).
pub open spec fn log_type_name(t: LogType) -> Seq<char> {
    match t {
        LogType::AppLog => "APP_LOG"@,
        LogType::ReqLog => "REQ_LOG"@,
        LogType::ReqExLog => "REQ_EX_LOG"@,
        LogType::ResLog => "RES_LOG"@,
        LogType::ResExLog => "RES_EX_LOG"@,
    }
}

impl LogType {
    pub fn name(&self) -> (r: &'static str)
        ensures
            r@ == log_type_name(*self),
    {
        match self {
            LogType::AppLog => "APP_LOG",
            LogType::ReqLog => "REQ_LOG",
            LogType::ReqExLog => "REQ_EX_LOG",
            LogType::ResLog => "RES_LOG",
            LogType::ResExLog => "RES_EX_LOG",
        }
    }
}

/// The wire name of a log level (lower case).
pub open spec fn log_level_name(l: LogLevel) -> Seq<char> {
    match l {
        LogLevel::Debug => "debug"@,
        LogLevel::Info => "info"@,
        LogLevel::Warn => "warn"@,
        LogLevel::Error => "error"@,
    }
}

impl LogLevel {
    pub fn name(&self) -> (r: &'static str)
        ensures
            r@ == log_level_name(*self),
    {
        match self {
            LogLevel::Debug => "debug",
            LogLevel::Info => "info",
            LogLevel::Warn => "warn",
            LogLevel::Error => "error",
        }
    }
}

/// An HTTP request as it is logged.
pub struct LogRequest {
    pub id: String,
    pub host: String,
    pub headers: HashMap<String, String>,
    pub url: String,
    pub method: String,
    pub body: serde_json::Value,
}

/// An HTTP response as it is logged.
pub struct LogResponse {
    pub status_code: u32,
    pub headers: HashMap<String, String>,
    pub body: serde_json::Value,
}

/// One log record.
pub struct StdAppLog {
    pub event_date_time: String,
    pub log_type: LogType,
    pub app_id: Option<String>,
    pub app_version: Option<String>,
    pub app_address: Option<String>,
    pub geo_location: Option<String>,
    pub service_id: Option<String>,
    pub service_version: Option<String>,
    pub service_pod_name: Option<String>,
    pub code_location: Option<String>,
    pub caller_channel_name: Option<String>,
    pub caller_user: Option<String>,
    pub caller_address: Option<String>,
    pub correlation_id: Option<String>,
    pub request_id: Option<String>,
    pub trace_id: Option<String>,
    pub span_id: Option<String>,
    pub level: LogLevel,
    pub execution_time: Option<u32>,
    pub message: Option<String>,
    pub request: Option<LogRequest>,
    pub response: Option<LogResponse>,
}

/// The current UTC time as `%Y-%m-%dT%H:%M:%S%.3fZ`
/// (`chrono::Utc::now().format(..)`). It depends on the clock, so nothing
/// is stated of it.
#[verifier::external_body]
fn now_timestamp() -> (r: String) {
    chrono::Utc::now().format("%Y-%m-%dT%H:%M:%S%.3fZ").to_string()
}

/// A record of the given type and level with only the time set.
pub open spec fn bare_record(r: StdAppLog, t: LogType, level: LogLevel) -> bool {
    &&& r.log_type == t
    &&& r.level == level
    &&& r.app_id is None
    &&& r.app_version is None
    &&& r.app_address is None
    &&& r.geo_location is None
    &&& r.service_id is None
    &&& r.service_version is None
    &&& r.service_pod_name is None
    &&& r.code_location is None
    &&& r.caller_channel_name is None
    &&& r.caller_user is None
    &&& r.caller_address is None
    &&& r.correlation_id is None
    &&& r.request_id is None
    &&& r.trace_id is None
    &&& r.span_id is None
    &&& r.execution_time is None
}

impl StdAppLog {
    fn base(log_type: LogType, level: LogLevel) -> (r: Self)
        ensures
            bare_record(r, log_type, level),
            r.message is None,
            r.request is None,
            r.response is None,
    {
        StdAppLog {
            event_date_time: now_timestamp(),
            log_type,
            app_id: None,
            app_version: None,
            app_address: None,
            geo_location: None,
            service_id: None,
            service_version: None,
            service_pod_name: None,
            code_location: None,
            caller_channel_name: None,
            caller_user: None,
            caller_address: None,
            correlation_id: None,
            request_id: None,
            trace_id: None,
            span_id: None,
            level,
            execution_time: None,
            message: None,
            request: None,
            response: None,
        }
    }

    /// An application log carrying a message.
    pub fn app(level: LogLevel, message: &str) -> (r: Self)
        ensures
            bare_record(r, LogType::AppLog, level),
            r.message matches Some(m) && m@ == message@,
            r.request is None,
            r.response is None,
    {
        let mut r = Self::base(LogType::AppLog, level);
        r.message = Some(String::from_str(message));
        r
    }

    /// A request log.
    pub fn req(level: LogLevel, request: LogRequest) -> (r: Self)
        ensures
            bare_record(r, LogType::ReqLog, level),
            r.message is None,
            r.request == Some(request),
            r.response is None,
    {
        let mut r = Self::base(LogType::ReqLog, level);
        r.request = Some(request);
        r
    }

    /// A response log.
    pub fn res(level: LogLevel, response: LogResponse) -> (r: Self)
        ensures
            bare_record(r, LogType::ResLog, level),
            r.message is None,
            r.request is None,
            r.response == Some(response),
    {
        let mut r = Self::base(LogType::ResLog, level);
        r.response = Some(response);
        r
    }

    /// A log of a request to an outside service.
    pub fn req_ex(level: LogLevel, request: LogRequest) -> (r: Self)
        ensures
            bare_record(r, LogType::ReqExLog, level),
            r.message is None,
            r.request == Some(request),
            r.response is None,
    {
        let mut r = Self::base(LogType::ReqExLog, level);
        r.request = Some(request);
        r
    }

    /// A log of a response from an outside service.
    pub fn res_ex(level: LogLevel, response: LogResponse) -> (r: Self)
        ensures
            bare_record(r, LogType::ResExLog, level),
            r.message is None,
            r.request is None,
            r.response == Some(response),
    {
        let mut r = Self::base(LogType::ResExLog, level);
        r.response = Some(response);
        r
    }

    pub fn with_app_id(self, id: &str) -> (r: Self)
        ensures
            r == (StdAppLog { app_id: r.app_id, ..self }),
            r.app_id matches Some(v) && v@ == id@,
    {
        let mut s = self;
        s.app_id = Some(String::from_str(id));
        s
    }

    pub fn with_app_version(self, v: &str) -> (r: Self)
        ensures
            r == (StdAppLog { app_version: r.app_version, ..self }),
            r.app_version matches Some(x) && x@ == v@,
    {
        let mut s = self;
        s.app_version = Some(String::from_str(v));
        s
    }

    pub fn with_app_address(self, addr: &str) -> (r: Self)
        ensures
            r == (StdAppLog { app_address: r.app_address, ..self }),
            r.app_address matches Some(x) && x@ == addr@,
    {
        let mut s = self;
        s.app_address = Some(String::from_str(addr));
        s
    }

    pub fn with_service_id(self, id: &str) -> (r: Self)
        ensures
            r == (StdAppLog { service_id: r.service_id, ..self }),
            r.service_id matches Some(x) && x@ == id@,
    {
        let mut s = self;
        s.service_id = Some(String::from_str(id));
        s
    }

    pub fn with_code_location(self, loc: &str) -> (r: Self)
        ensures
            r == (StdAppLog { code_location: r.code_location, ..self }),
            r.code_location matches Some(x) && x@ == loc@,
    {
        let mut s = self;
        s.code_location = Some(String::from_str(loc));
        s
    }

    pub fn with_correlation_id(self, id: &str) -> (r: Self)
        ensures
            r == (StdAppLog { correlation_id: r.correlation_id, ..self }),
            r.correlation_id matches Some(x) && x@ == id@,
    {
        let mut s = self;
        s.correlation_id = Some(String::from_str(id));
        s
    }

    pub fn with_request_id(self, id: &str) -> (r: Self)
        ensures
            r == (StdAppLog { request_id: r.request_id, ..self }),
            r.request_id matches Some(x) && x@ == id@,
    {
        let mut s = self;
        s.request_id = Some(String::from_str(id));
        s
    }

    pub fn with_trace_id(self, id: &str) -> (r: Self)
        ensures
            r == (StdAppLog { trace_id: r.trace_id, ..self }),
            r.trace_id matches Some(x) && x@ == id@,
    {
        let mut s = self;
        s.trace_id = Some(String::from_str(id));
        s
    }

    pub fn with_span_id(self, id: &str) -> (r: Self)
        ensures
            r == (StdAppLog { span_id: r.span_id, ..self }),
            r.span_id matches Some(x) && x@ == id@,
    {
        let mut s = self;
        s.span_id = Some(String::from_str(id));
        s
    }

    pub fn with_execution_time(self, ms: u32) -> (r: Self)
        ensures
            r == (StdAppLog { execution_time: Some(ms), ..self }),
    {
        let mut s = self;
        s.execution_time = Some(ms);
        s
    }

    pub fn with_message(self, msg: &str) -> (r: Self)
        ensures
            r == (StdAppLog { message: r.message, ..self }),
            r.message matches Some(x) && x@ == msg@,
    {
        let mut s = self;
        s.message = Some(String::from_str(msg));
        s
    }

    pub fn with_caller_address(self, addr: &str) -> (r: Self)
        ensures
            r == (StdAppLog { caller_address: r.caller_address, ..self }),
            r.caller_address matches Some(x) && x@ == addr@,
    {
        let mut s = self;
        s.caller_address = Some(String::from_str(addr));
        s
    }
}

} // verus!
