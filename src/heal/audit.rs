//! The append-only log of healing attempts. Each record carries a fresh run
//! id, the time, the failure's file and message, and fingerprints (never the
//! text) of the prompt and of the fix.
use crate::heal::parser_rust::TestFailure;
use crate::heal::session::{outcome_name, HealOutcome};
use crate::oracle::hash::{compute_hash, sha256_hex};
use crate::oracle::store::{arg_is_text, sql_execute, sql_open, store_error, SqlArg, StoreError, StoreErrorKind};
use vstd::prelude::*;

verus! {

pub const INSERT_ATTEMPT_SQL: &'static str = "INSERT INTO healing_attempts (run_id, timestamp, file_path, error_msg, prompt_hash, diff_hash, outcome)
     VALUES (?1, ?2, ?3, ?4, ?5, ?6, ?7)";

/// One attempt as it is recorded.
#[derive(Debug, Clone)]
pub struct AuditRecord {
    pub run_id: String,
    pub timestamp: String,
    pub file_path: String,
    pub error_msg: String,
    pub prompt_hash: String,
    pub diff_hash: String,
    pub outcome: String,
}

pub struct AuditLog {
    conn: rusqlite::Connection,
}

/// Relies on `uuid::Uuid::new_v4`, hyphenated: a random identifier.
#[verifier::external_body]
fn fresh_run_id() -> String {
    uuid::Uuid::new_v4().to_string()
}

/// Relies on `std::time::SystemTime::now`, `duration_since(UNIX_EPOCH)` and
/// `chrono::DateTime::from_timestamp` with `to_rfc3339`: the current time, or
/// none when the clock reads before 1970 or out of chrono's range.
#[verifier::external_body]
fn now_rfc3339() -> Option<String> {
    let d = std::time::SystemTime::now().duration_since(std::time::UNIX_EPOCH).ok()?;
    let secs = i64::try_from(d.as_secs()).ok()?;
    chrono::DateTime::from_timestamp(secs, d.subsec_nanos()).map(|t| t.to_rfc3339())
}

/// The parameters of the attempt insert, in column order: run id, time,
/// file, message, prompt fingerprint, fix fingerprint, outcome.
pub fn attempt_args(rec: &AuditRecord) -> (r: Vec<SqlArg>)
    ensures
        r.len() == 7,
        arg_is_text(r[0], rec.run_id@),
        arg_is_text(r[1], rec.timestamp@),
        arg_is_text(r[2], rec.file_path@),
        arg_is_text(r[3], rec.error_msg@),
        arg_is_text(r[4], rec.prompt_hash@),
        arg_is_text(r[5], rec.diff_hash@),
        arg_is_text(r[6], rec.outcome@),
{
    let mut args: Vec<SqlArg> = Vec::new();
    args.push(SqlArg::Text(rec.run_id.clone()));
    args.push(SqlArg::Text(rec.timestamp.clone()));
    args.push(SqlArg::Text(rec.file_path.clone()));
    args.push(SqlArg::Text(rec.error_msg.clone()));
    args.push(SqlArg::Text(rec.prompt_hash.clone()));
    args.push(SqlArg::Text(rec.diff_hash.clone()));
    args.push(SqlArg::Text(rec.outcome.clone()));
    args
}

/// The record of an attempt with the given run id and time.
pub fn audit_record(
    failure: &TestFailure,
    prompt: &str,
    fix: &str,
    outcome: HealOutcome,
    run_id: String,
    timestamp: String,
) -> (r: AuditRecord)
    ensures
        r.run_id == run_id,
        r.timestamp == timestamp,
        r.file_path@ == failure.file_path@,
        r.error_msg@ == failure.error_message@,
        r.prompt_hash@ == sha256_hex(prompt@),
        r.diff_hash@ == sha256_hex(fix@),
        r.outcome@ == outcome_name(outcome),
{
    AuditRecord {
        run_id,
        timestamp,
        file_path: failure.file_path.clone(),
        error_msg: failure.error_message.clone(),
        prompt_hash: compute_hash(prompt),
        diff_hash: compute_hash(fix),
        outcome: outcome.name(),
    }
}

impl AuditLog {
    /// Opens the log in the store's database file.
    pub fn open(db_path: &str) -> (r: Result<AuditLog, StoreError>) {
        match sql_open(db_path) {
            Ok(conn) => Ok(AuditLog { conn }),
            Err(e) => Err(store_error(e)),
        }
    }

    /// Appends the record of one attempt, under a fresh run id and the
    /// current time: the insert is handed exactly the fields of the record
    /// returned (see `attempt_args`), fingerprints and never raw text.
    pub fn log_attempt(&self, failure: &TestFailure, prompt: &str, fix: &str, outcome: &HealOutcome) -> (r: Result<AuditRecord, StoreError>)
        ensures
            r matches Ok(rec) ==> rec.file_path@ == failure.file_path@ && rec.error_msg@
                == failure.error_message@ && rec.prompt_hash@ == sha256_hex(prompt@)
                && rec.diff_hash@ == sha256_hex(fix@) && rec.outcome@ == outcome_name(*outcome),
    {
        let timestamp = match now_rfc3339() {
            Some(t) => t,
            None => {
                return Err(
                    StoreError {
                        kind: StoreErrorKind::ClockOutOfRange,
                        message: "system clock out of range".to_owned(),
                    },
                )
            },
        };
        let rec = audit_record(failure, prompt, fix, *outcome, fresh_run_id(), timestamp);
        let args = attempt_args(&rec);
        match sql_execute(&self.conn, INSERT_ATTEMPT_SQL, &args) {
            Ok(_) => Ok(rec),
            Err(e) => Err(store_error(e)),
        }
    }
}

} // verus!
