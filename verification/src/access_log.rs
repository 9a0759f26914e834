//! The relay server's access log: its entries, the daily files they go to, and
//! which files are old enough to delete. The caller does the file I/O and reads
//! the clock.
use vstd::prelude::*;
use chrono::Datelike;
use crate::text::{copy_text, concat3, strip_prefix_text, strip_suffix_text};

verus! {

/// One line of the access log.
#[derive(Debug, Clone)]
pub enum LogEntry {
    /// An HTTP request answered by the server.
    HttpRequest {
        tunnel_id: String,
        method: String,
        path: String,
        status: u16,
        duration_ms: u64,
        timestamp: String,
    },
    /// A tunnel client registered.
    TunnelConnected {
        tunnel_id: String,
        subdomain: String,
        local_port: u16,
        timestamp: String,
    },
    /// A tunnel client went away.
    TunnelDisconnected {
        tunnel_id: String,
        timestamp: String,
    },
}

/// The entry for an answered HTTP request; requests are not tied to a tunnel yet,
/// so the tunnel id is empty.
pub fn http_request_entry(method: &str, path: &str, status: u16, duration_ms: u64, timestamp: &str) -> (r: LogEntry)
    ensures
        r matches LogEntry::HttpRequest { tunnel_id: t, method: m, path: p, status: s, duration_ms: d, timestamp: ts }
            && t@.len() == 0 && m@ == method@ && p@ == path@ && s == status && d == duration_ms && ts@ == timestamp@,
{
    LogEntry::HttpRequest {
        tunnel_id: String::new(),
        method: copy_text(method),
        path: copy_text(path),
        status,
        duration_ms,
        timestamp: copy_text(timestamp),
    }
}

/// The entry for a tunnel that came up.
pub fn tunnel_connected_entry(tunnel_id: &str, subdomain: &str, local_port: u16, timestamp: &str) -> (r: LogEntry)
    ensures
        r matches LogEntry::TunnelConnected { tunnel_id: t, subdomain: s, local_port: p, timestamp: ts }
            && t@ == tunnel_id@ && s@ == subdomain@ && p == local_port && ts@ == timestamp@,
{
    LogEntry::TunnelConnected {
        tunnel_id: copy_text(tunnel_id),
        subdomain: copy_text(subdomain),
        local_port,
        timestamp: copy_text(timestamp),
    }
}

/// The entry for a tunnel that went down.
pub fn tunnel_disconnected_entry(tunnel_id: &str, timestamp: &str) -> (r: LogEntry)
    ensures
        r matches LogEntry::TunnelDisconnected { tunnel_id: t, timestamp: ts } && t@ == tunnel_id@ && ts@ == timestamp@,
{
    LogEntry::TunnelDisconnected { tunnel_id: copy_text(tunnel_id), timestamp: copy_text(timestamp) }
}

/// Days a log file is kept.
pub const LOG_RETENTION_DAYS: i64 = 7;

/// The file a day's entries go to: "access-<date>.log".
pub open spec fn log_file_name_of(date_text: Seq<char>) -> Seq<char> {
    "access-"@ + date_text + ".log"@
}

/// The file a day's entries go to, for the date written as `date_text`.
pub fn log_file_name(date_text: &str) -> (r: String)
    ensures
        r@ == log_file_name_of(date_text@),
{
    concat3("access-", date_text, ".log")
}

/// The date part of a log file's name: what lies between "access-" and ".log".
pub open spec fn log_file_date_of(name: Seq<char>) -> Option<Seq<char>> {
    if name.len() >= 7 && name.subrange(0, 7) == "access-"@ {
        let rest = name.subrange(7, name.len() as int);
        if rest.len() >= 4 && rest.subrange(rest.len() - 4, rest.len() as int) == ".log"@ {
            Some(rest.subrange(0, rest.len() - 4))
        } else {
            None
        }
    } else {
        None
    }
}

/// The date part of a log file's name, when it has the log files' shape.
pub fn log_file_date(file_name: &str) -> (r: Option<String>)
    ensures
        match r {
            Some(d) => log_file_date_of(file_name@) == Some(d@),
            None => log_file_date_of(file_name@) is None,
        },
{
    proof {
        reveal_strlit("access-");
        reveal_strlit(".log");
    }
    match strip_prefix_text(file_name, "access-") {
        None => None,
        Some(rest) => strip_suffix_text(rest.as_str(), ".log"),
    }
}

/// The date a text names in the form "%Y-%m-%d", as (year, month, day), when
/// `chrono` reads it as a valid date.
pub uninterp spec fn iso_date_of(s: Seq<char>) -> Option<(i32, u32, u32)>;

/// `NaiveDate::parse_from_str(s, "%Y-%m-%d")` (`chrono`), as year, month and day:
/// a function of the text alone.
#[verifier::external_body]
fn parse_iso_date(s: &str) -> (r: Option<(i32, u32, u32)>)
    ensures
        r == iso_date_of(s@),
{
    match chrono::NaiveDate::parse_from_str(s, "%Y-%m-%d") {
        Ok(d) => Some((d.year(), d.month(), d.day())),
        Err(_) => None,
    }
}

/// Whether date `a` comes before date `b`.
pub open spec fn date_before(a: (i32, u32, u32), b: (i32, u32, u32)) -> bool {
    a.0 < b.0 || (a.0 == b.0 && (a.1 < b.1 || (a.1 == b.1 && a.2 < b.2)))
}

/// Whether date `a` comes before date `b`.
pub fn is_date_before(a: (i32, u32, u32), b: (i32, u32, u32)) -> (r: bool)
    ensures
        r == date_before(a, b),
{
    a.0 < b.0 || (a.0 == b.0 && (a.1 < b.1 || (a.1 == b.1 && a.2 < b.2)))
}

/// Whether a file is a log file of a day before `cutoff`, and so to be deleted.
pub open spec fn is_expired_log_file_name(name: Seq<char>, cutoff: (i32, u32, u32)) -> bool {
    match log_file_date_of(name) {
        Some(d) => match iso_date_of(d) {
            Some(x) => date_before(x, cutoff),
            None => false,
        },
        None => false,
    }
}

/// Whether the file named `file_name` is a log file of a day before `cutoff`.
/// Files of other names, or whose date does not read, are kept.
pub fn is_expired_log_file(file_name: &str, cutoff: (i32, u32, u32)) -> (r: bool)
    ensures
        r == is_expired_log_file_name(file_name@, cutoff),
{
    match log_file_date(file_name) {
        None => false,
        Some(d) => match parse_iso_date(d.as_str()) {
            Some(x) => is_date_before(x, cutoff),
            None => false,
        },
    }
}

/// Whether the writer must move to a new file: the day changed.
pub fn needs_rotation(today: (i32, u32, u32), current: (i32, u32, u32)) -> (r: bool)
    ensures
        r == (today != current),
{
    !(today.0 == current.0 && today.1 == current.1 && today.2 == current.2)
}

/// The date part of a day's log file name reads back: naming a file for a date
/// text and taking the date part of that name gives the text again.
pub proof fn law_log_file_name_round_trip(date_text: Seq<char>)
    ensures
        log_file_date_of(log_file_name_of(date_text)) == Some(date_text),
{
    reveal_strlit("access-");
    reveal_strlit(".log");
    let name = log_file_name_of(date_text);
    assert(name.subrange(0, 7) =~= "access-"@);
    let rest = name.subrange(7, name.len() as int);
    assert(rest =~= date_text + ".log"@);
    assert(rest.subrange(rest.len() - 4, rest.len() as int) =~= ".log"@);
    assert(rest.subrange(0, rest.len() - 4) =~= date_text);
}

} // verus!
