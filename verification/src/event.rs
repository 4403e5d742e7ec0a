//! The event model: a fully populated record built from one accepted
//! log line, and the tagged field value a single capture turns into.

use vstd::prelude::*;
use crate::timestamp::{Timestamp, ts_valid};

verus! {

/// A parsed field: a timezone-aware timestamp, verbatim text, or an
/// unsigned 64-bit count. No other kinds exist.
#[derive(Debug, Clone, PartialEq)]
pub enum LogFieldValue {
    Timestamp(Timestamp),
    Text(String),
    Int(u64),
}

/// Model of a parsed field value.
#[verifier::ext_equal]
pub ghost enum FieldV {
    Timestamp(Timestamp),
    Text(Seq<char>),
    Int(u64),
}

impl View for LogFieldValue {
    type V = FieldV;

    open spec fn view(&self) -> FieldV {
        match self {
            LogFieldValue::Timestamp(t) => FieldV::Timestamp(*t),
            LogFieldValue::Text(s) => FieldV::Text(s@),
            LogFieldValue::Int(n) => FieldV::Int(*n),
        }
    }
}

/// Mathematical model of an event: one value per field name of the
/// active format. `referrer` and `user_agent` are present exactly for
/// the Combined format.
#[verifier::ext_equal]
pub ghost struct EventV {
    pub remote_host: Seq<char>,
    pub rfc931: Seq<char>,
    pub username: Seq<char>,
    pub timestamp: Timestamp,
    pub request_url: Seq<char>,
    pub method: Seq<char>,
    pub request_uri: Seq<char>,
    pub protocol: Seq<char>,
    pub status_code: u64,
    pub bytes: u64,
    pub referrer: Option<Seq<char>>,
    pub user_agent: Option<Seq<char>>,
}

/// An event is well formed when its timestamp denotes a real point in
/// time and the two Combined-only fields are present or absent together.
pub open spec fn event_wf(ev: EventV) -> bool {
    ts_valid(ev.timestamp) && (ev.referrer is Some <==> ev.user_agent is Some)
}

/// An immutable named-field record built from one parsed line. Under the
/// original wire schema the `rfc931` field is serialized under the key
/// `some_nonsense`.
#[derive(Debug, Clone, PartialEq)]
pub struct LogEvent {
    pub remote_host: String,
    pub rfc931: String,
    pub username: String,
    pub timestamp: Timestamp,
    pub request_url: String,
    pub method: String,
    pub request_uri: String,
    pub protocol: String,
    pub status_code: u64,
    pub bytes: u64,
    pub referrer: Option<String>,
    pub user_agent: Option<String>,
}

impl View for LogEvent {
    type V = EventV;

    open spec fn view(&self) -> EventV {
        EventV {
            remote_host: self.remote_host@,
            rfc931: self.rfc931@,
            username: self.username@,
            timestamp: self.timestamp,
            request_url: self.request_url@,
            method: self.method@,
            request_uri: self.request_uri@,
            protocol: self.protocol@,
            status_code: self.status_code,
            bytes: self.bytes,
            referrer: match self.referrer {
                Some(r) => Some(r@),
                None => None,
            },
            user_agent: match self.user_agent {
                Some(a) => Some(a@),
                None => None,
            },
        }
    }
}

/// The event read as a mapping: the typed value under one field name,
/// or nothing for a name the active format does not populate.
pub open spec fn field_of(ev: EventV, name: Seq<char>) -> Option<FieldV> {
    if name == "remote_host"@ {
        Some(FieldV::Text(ev.remote_host))
    } else if name == "some_nonsense"@ {
        Some(FieldV::Text(ev.rfc931))
    } else if name == "username"@ {
        Some(FieldV::Text(ev.username))
    } else if name == "@timestamp"@ {
        Some(FieldV::Timestamp(ev.timestamp))
    } else if name == "request_url"@ {
        Some(FieldV::Text(ev.request_url))
    } else if name == "method"@ {
        Some(FieldV::Text(ev.method))
    } else if name == "request_uri"@ {
        Some(FieldV::Text(ev.request_uri))
    } else if name == "protocol"@ {
        Some(FieldV::Text(ev.protocol))
    } else if name == "status_code"@ {
        Some(FieldV::Int(ev.status_code))
    } else if name == "bytes"@ {
        Some(FieldV::Int(ev.bytes))
    } else if name == "referrer"@ {
        match ev.referrer {
            Some(x) => Some(FieldV::Text(x)),
            None => None,
        }
    } else if name == "user_agent"@ {
        match ev.user_agent {
            Some(x) => Some(FieldV::Text(x)),
            None => None,
        }
    } else {
        None
    }
}

impl LogEvent {
    /// Look one field up by its output name, as the mapping `field_of`
    /// denotes.
    pub fn get(&self, name: &str) -> (r: Option<LogFieldValue>)
        ensures
            match r {
                Some(v) => field_of(self@, name@) == Some(v@),
                None => field_of(self@, name@) is None,
            },
    {
        if crate::scan::str_eq(name, "remote_host") {
            Some(LogFieldValue::Text(self.remote_host.clone()))
        } else if crate::scan::str_eq(name, "some_nonsense") {
            Some(LogFieldValue::Text(self.rfc931.clone()))
        } else if crate::scan::str_eq(name, "username") {
            Some(LogFieldValue::Text(self.username.clone()))
        } else if crate::scan::str_eq(name, "@timestamp") {
            Some(LogFieldValue::Timestamp(self.timestamp))
        } else if crate::scan::str_eq(name, "request_url") {
            Some(LogFieldValue::Text(self.request_url.clone()))
        } else if crate::scan::str_eq(name, "method") {
            Some(LogFieldValue::Text(self.method.clone()))
        } else if crate::scan::str_eq(name, "request_uri") {
            Some(LogFieldValue::Text(self.request_uri.clone()))
        } else if crate::scan::str_eq(name, "protocol") {
            Some(LogFieldValue::Text(self.protocol.clone()))
        } else if crate::scan::str_eq(name, "status_code") {
            Some(LogFieldValue::Int(self.status_code))
        } else if crate::scan::str_eq(name, "bytes") {
            Some(LogFieldValue::Int(self.bytes))
        } else if crate::scan::str_eq(name, "referrer") {
            match &self.referrer {
                Some(x) => Some(LogFieldValue::Text(x.clone())),
                None => None,
            }
        } else if crate::scan::str_eq(name, "user_agent") {
            match &self.user_agent {
                Some(x) => Some(LogFieldValue::Text(x.clone())),
                None => None,
            }
        } else {
            None
        }
    }
}

} // verus!
