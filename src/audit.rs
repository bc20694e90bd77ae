//! The audit log: where it lives and the line written for each sent message.
use vstd::prelude::*;
use crate::config::{app_dir, app_dir_of, join_path, path_join};

verus! {

/// The line recorded for a message: when, to whom and with what subject.
/// The body is never part of it.
pub open spec fn log_line_of(timestamp: Seq<char>, to: Seq<char>, subject: Seq<char>) -> Seq<
    char,
> {
    timestamp + " | To: "@ + to + " | Subject: "@ + subject + "\n"@
}

/// The audit log's directory under the home directory.
pub open spec fn log_dir_of(home: Seq<char>) -> Seq<char> {
    path_join(app_dir_of(home), "logs"@)
}

/// The audit log file under the home directory.
pub open spec fn log_file_of(home: Seq<char>) -> Seq<char> {
    path_join(log_dir_of(home), "sent_emails.log"@)
}

/// The audit log's directory under `home`.
pub fn log_dir(home: &str) -> (r: String)
    ensures
        r@ == log_dir_of(home@),
{
    let dir = app_dir(home);
    join_path(dir.as_str(), "logs")
}

/// The audit log file under `home`.
pub fn log_file(home: &str) -> (r: String)
    ensures
        r@ == log_file_of(home@),
{
    let dir = log_dir(home);
    join_path(dir.as_str(), "sent_emails.log")
}

/// The log line for a message sent at `timestamp`.
pub fn log_line(timestamp: &str, to: &str, subject: &str) -> (r: String)
    ensures
        r@ == log_line_of(timestamp@, to@, subject@),
{
    let mut r = timestamp.to_string();
    r.append(" | To: ");
    r.append(to);
    r.append(" | Subject: ");
    r.append(subject);
    r.append("\n");
    r
}

/// Relies on chrono's `Utc::now` and `DateTime::format`: the current UTC
/// time written with the given strftime pattern, which chrono accepts, so
/// that turning it into a string does not fail. Nothing is promised of the
/// time itself.
#[verifier::external_body]
fn utc_now_formatted(pattern: &str) -> (r: String)
    requires
        pattern@ == "%Y-%m-%d %H:%M:%S"@,
{
    chrono::Utc::now().format(pattern).to_string()
}

/// The log line for a message sent now, stamped with the current UTC time
/// as `YYYY-MM-DD HH:MM:SS`.
pub fn audit_entry(to: &str, subject: &str) -> (r: String)
    ensures
        exists|t: Seq<char>| r@ == log_line_of(t, to@, subject@),
{
    let stamp = utc_now_formatted("%Y-%m-%d %H:%M:%S");
    log_line(stamp.as_str(), to, subject)
}

} // verus!
