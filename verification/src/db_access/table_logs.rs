//! The request log: how stored log rows are listed.
use vstd::prelude::*;

verus! {

/// A row of the logs table as it is stored.
#[derive(Debug)]
pub struct LogRecord {
    pub id: i64,
    pub api_name: String,
    pub request_date: i128,
    pub params: Option<String>,
}

/// A log entry as the service lists it.
#[derive(Debug)]
pub struct ULog {
    pub id: i32,
    pub api_name: String,
    pub request_date: i128,
    pub params: Option<String>,
}

/// The text of an optional string.
pub open spec fn opt_text(s: Option<String>) -> Option<Seq<char>> {
    match s {
        Some(t) => Some(t@),
        None => None,
    }
}

/// `l` lists the stored row `r`, its id narrowed to `i32`.
pub open spec fn lists_log(l: ULog, r: LogRecord) -> bool {
    &&& l.id == #[verifier::truncate] (r.id as i32)
    &&& l.api_name@ == r.api_name@
    &&& l.request_date == r.request_date
    &&& opt_text(l.params) == opt_text(r.params)
}

/// Lists the stored log rows, one entry per row, in the order given.
pub fn select_logs(rows: &Vec<LogRecord>) -> (logs: Vec<ULog>)
    ensures
        logs.len() == rows.len(),
        forall|i: int| 0 <= i < rows.len() ==> lists_log(#[trigger] logs[i], rows[i]),
        forall|i: int| 0 <= i < rows.len() ==> (#[trigger] logs[i]).id == #[verifier::truncate] (rows[i].id as i32),
        forall|i: int| 0 <= i < rows.len() ==> (#[trigger] logs[i]).api_name@ == rows[i].api_name@,
        forall|i: int| 0 <= i < rows.len() ==> (#[trigger] logs[i]).request_date == rows[i].request_date,
        forall|i: int| 0 <= i < rows.len() ==> opt_text((#[trigger] logs[i]).params) == opt_text(rows[i].params),
        forall|i: int| 0 <= i < rows.len() ==> ((#[trigger] logs[i]).params is Some <==> rows[i].params is Some),
{
    let mut logs: Vec<ULog> = Vec::new();
    for i in 0..rows.len()
        invariant
            logs.len() == i,
            forall|j: int| 0 <= j < i ==> lists_log(#[trigger] logs[j], rows[j]),
    {
        let row = &rows[i];
        let params = match &row.params {
            Some(p) => Some(p.clone()),
            None => None,
        };
        logs.push(
            ULog {
                id: #[verifier::truncate] (row.id as i32),
                api_name: row.api_name.clone(),
                request_date: row.request_date,
                params,
            },
        );
    }
    logs
}

} // verus!
