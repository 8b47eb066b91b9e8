use vstd::prelude::*;
use vstd::string::StringExecFns;

use crate::model::{ColInfo, DbError, RawCell, RawValue};

verus! {

/// The state one construction call leaves a backend connection in. Both
/// states are terminal: nothing transitions a connection afterward, and
/// every later operation only reads the state.
#[derive(Debug, Clone, PartialEq)]
pub enum ConnState {
    /// The pool came up; operations may be issued.
    Ready,
    /// Construction failed; the code and message of the original failure
    /// are kept for every later caller.
    Failed { code: String, message: String },
}

/// What the one-time construction attempt observed, handed in as plain
/// values by whatever performed the attempt.
#[derive(Debug, Clone, PartialEq)]
pub enum ConnectEvent {
    /// The pool connected (and, on the embedded backend, the baseline
    /// schema was applied).
    PoolReady,
    /// The driver refused the connection, with its code and message.
    PoolError { code: String, message: String },
    /// The embedded backend's backing file was absent and could not be
    /// created.
    FileUnavailable,
}

/// The single transition of the connection lifecycle: from unconstructed
/// to exactly one terminal state. A driver failure carries the driver's
/// own code and message into the `Failed` state; a file-creation failure
/// is reported under the fixed code `1`. Construction never aborts.
pub fn connect_outcome(ev: ConnectEvent) -> (s: ConnState)
    ensures
        match ev {
            ConnectEvent::PoolReady => s == ConnState::Ready,
            ConnectEvent::PoolError { code, message } => s == (ConnState::Failed {
                code,
                message,
            }),
            ConnectEvent::FileUnavailable => s matches ConnState::Failed { code, message }
                && code@ == "1"@ && message@ == "Error creating file"@,
        },
{
    match ev {
        ConnectEvent::PoolReady => ConnState::Ready,
        ConnectEvent::PoolError { code, message } => ConnState::Failed { code, message },
        ConnectEvent::FileUnavailable => ConnState::Failed {
            code: "1".to_owned(),
            message: "Error creating file".to_owned(),
        },
    }
}

/// Every operation consults the connection state before touching a
/// backend: a ready connection lets it proceed; a failed one makes it
/// return at once a connection error citing the original failure's code
/// and message, and the backend is never reached.
pub fn ensure_ready(state: &ConnState) -> (r: Result<(), DbError>)
    ensures
        match state {
            ConnState::Ready => r is Ok,
            ConnState::Failed { code, message } => r matches Err(e) && e matches
                DbError::Connection { code: c, message: m } && c@ == code@ && m@ == message@,
        },
{
    match state {
        ConnState::Ready => Ok(()),
        ConnState::Failed { code, message } => Err(
            DbError::Connection { code: code.clone(), message: message.clone() },
        ),
    }
}

// --- Introspection ------------------------------------------------------
//
// Both backends answer a catalog query with one row per column, in
// declaration order, shaped as six cells: ordinal, name, declared type,
// not-null flag as an integer, default literal (possibly null), and
// primary-key flag as an integer.

/// The ordinal, not-null and primary-key cells must hold a non-null
/// integer payload.
pub open spec fn spec_req_int(v: RawValue) -> Option<i64> {
    match v {
        RawValue::Int(Some(t)) => Some(t),
        _ => None,
    }
}

/// The name and declared-type cells must hold non-null text.
pub open spec fn spec_req_text(v: RawValue) -> Option<String> {
    match v {
        RawValue::Text(Some(t)) => Some(t),
        _ => None,
    }
}

/// The default-literal cell must hold text, null allowed.
pub open spec fn spec_opt_text(v: RawValue) -> Option<Option<String>> {
    match v {
        RawValue::Text(t) => Some(t),
        _ => None,
    }
}

/// The column descriptor a well-shaped catalog row denotes: the not-null
/// and primary-key flags are set exactly when their integer cell is 1,
/// as the embedded backend's catalog reports them. A row of any other
/// shape denotes nothing.
pub open spec fn spec_col_info_of(row: Seq<RawCell>) -> Option<ColInfo> {
    if row.len() == 6 && spec_req_int(row[0].value) is Some && spec_req_text(row[1].value)
        is Some && spec_req_text(row[2].value) is Some && spec_req_int(row[3].value) is Some
        && spec_opt_text(row[4].value) is Some && spec_req_int(row[5].value) is Some {
        Some(
            ColInfo {
                cid: spec_req_int(row[0].value)->Some_0,
                name: spec_req_text(row[1].value)->Some_0,
                ctype: spec_req_text(row[2].value)->Some_0,
                notnull: spec_req_int(row[3].value)->Some_0 == 1,
                dflt_value: spec_opt_text(row[4].value)->Some_0,
                pk: spec_req_int(row[5].value)->Some_0 == 1,
            },
        )
    } else {
        None
    }
}

fn req_int(v: &RawValue) -> (r: Option<i64>)
    ensures
        r == spec_req_int(*v),
{
    match v {
        RawValue::Int(Some(t)) => Some(*t),
        _ => None,
    }
}

fn req_text(v: &RawValue) -> (r: Option<String>)
    ensures
        r == spec_req_text(*v),
{
    match v {
        RawValue::Text(Some(t)) => Some(t.clone()),
        _ => None,
    }
}

fn opt_text(v: &RawValue) -> (r: Option<Option<String>>)
    ensures
        r == spec_opt_text(*v),
{
    match v {
        RawValue::Text(Some(t)) => Some(Some(t.clone())),
        RawValue::Text(None) => Some(None),
        _ => None,
    }
}

/// Maps one catalog row to its column descriptor; a row of the wrong
/// shape is a schema error, never a halt.
pub fn col_info_from_row(row: &Vec<RawCell>) -> (r: Result<ColInfo, DbError>)
    ensures
        r matches Ok(info) ==> spec_col_info_of(row@) == Some(info),
        r matches Err(e) ==> spec_col_info_of(row@) is None && (e matches DbError::Schema {
            message,
        } && message@ == "unexpected introspection row shape"@),
{
    if row.len() != 6 {
        return Err(
            DbError::Schema { message: "unexpected introspection row shape".to_owned() },
        );
    }
    let cid = req_int(&row[0].value);
    let name = req_text(&row[1].value);
    let ctype = req_text(&row[2].value);
    let notnull = req_int(&row[3].value);
    let dflt_value = opt_text(&row[4].value);
    let pk = req_int(&row[5].value);
    match (cid, name, ctype, notnull, dflt_value, pk) {
        (Some(cid), Some(name), Some(ctype), Some(notnull), Some(dflt_value), Some(pk)) => Ok(
            ColInfo { cid, name, ctype, notnull: notnull == 1, dflt_value, pk: pk == 1 },
        ),
        _ => Err(DbError::Schema { message: "unexpected introspection row shape".to_owned() }),
    }
}

/// Maps a catalog result to column descriptors, preserving the backend's
/// declaration order; the first ill-shaped row is reported as a schema
/// error.
#[verifier::loop_isolation(false)]
pub fn table_info_from_rows(rows: &Vec<Vec<RawCell>>) -> (r: Result<Vec<ColInfo>, DbError>)
    ensures
        r is Ok <==> (forall|i: int|
            0 <= i < rows@.len() ==> spec_col_info_of(#[trigger] rows@[i]@) is Some),
        r matches Ok(infos) ==> infos@.len() == rows@.len() && (forall|i: int|
            0 <= i < rows@.len() ==> spec_col_info_of(#[trigger] rows@[i]@) == Some(
                infos@[i],
            )),
        r matches Err(e) ==> e matches DbError::Schema { message } && message@
            == "unexpected introspection row shape"@,
{
    let mut infos: Vec<ColInfo> = Vec::new();
    let mut i: usize = 0;
    while i < rows.len()
        invariant
            i <= rows@.len(),
            infos@.len() == i,
            forall|j: int|
                0 <= j < i ==> spec_col_info_of(#[trigger] rows@[j]@) == Some(infos@[j]),
        decreases rows@.len() - i,
    {
        match col_info_from_row(&rows[i]) {
            Ok(info) => {
                infos.push(info);
            },
            Err(e) => {
                return Err(e);
            },
        }
        i = i + 1;
    }
    Ok(infos)
}

// --- Catalog statements and the baseline schema -------------------------

/// The embedded backend's native catalog query for one table.
pub fn embedded_introspection_sql(table: &str) -> (q: String)
    ensures
        q@ == "PRAGMA table_info("@ + table@ + ")"@,
{
    let mut q = "PRAGMA table_info(".to_owned();
    q.append(table);
    q.append(")");
    q
}

/// The server backend's native catalog query: one `$1` placeholder for
/// the table name, answering in the six-cell row shape the descriptor
/// mapping expects, in declaration order.
pub fn server_introspection_sql() -> (q: &'static str)
    ensures
        q@
            == "SELECT c.ordinal_position - 1, c.column_name, c.data_type, CASE WHEN c.is_nullable = 'NO' THEN 1 ELSE 0 END, c.column_default, CASE WHEN k.column_name IS NOT NULL THEN 1 ELSE 0 END FROM information_schema.columns c LEFT JOIN (SELECT kcu.column_name FROM information_schema.table_constraints tc JOIN information_schema.key_column_usage kcu ON tc.constraint_name = kcu.constraint_name WHERE tc.table_name = $1 AND tc.constraint_type = 'PRIMARY KEY') k ON k.column_name = c.column_name WHERE c.table_name = $1 ORDER BY c.ordinal_position"@,
{
    "SELECT c.ordinal_position - 1, c.column_name, c.data_type, CASE WHEN c.is_nullable = 'NO' THEN 1 ELSE 0 END, c.column_default, CASE WHEN k.column_name IS NOT NULL THEN 1 ELSE 0 END FROM information_schema.columns c LEFT JOIN (SELECT kcu.column_name FROM information_schema.table_constraints tc JOIN information_schema.key_column_usage kcu ON tc.constraint_name = kcu.constraint_name WHERE tc.table_name = $1 AND tc.constraint_type = 'PRIMARY KEY') k ON k.column_name = c.column_name WHERE c.table_name = $1 ORDER BY c.ordinal_position"
}

/// The idempotent baseline schema the embedded backend applies once per
/// construction: safe to run against a database that already has it.
pub fn bootstrap_sql() -> (q: &'static str)
    ensures
        q@
            == "CREATE TABLE IF NOT EXISTS users(id INTEGER NOT NULL PRIMARY KEY AUTOINCREMENT, email VARCHAR(100) UNIQUE NOT NULL, password VARCHAR(255) NOT NULL, role VARCHAR(20));"@,
{
    "CREATE TABLE IF NOT EXISTS users(id INTEGER NOT NULL PRIMARY KEY AUTOINCREMENT, email VARCHAR(100) UNIQUE NOT NULL, password VARCHAR(255) NOT NULL, role VARCHAR(20));"
}

/// The column descriptors a freshly bootstrapped embedded database
/// reports for its baseline table, in declaration order: `id` (primary
/// key, not null), `email` (not null), `password` (not null), `role`
/// (nullable).
pub fn bootstrap_columns() -> (v: Vec<ColInfo>)
    ensures
        v@.len() == 4,
        v@[0].cid == 0 && v@[0].name@ == "id"@ && v@[0].ctype@ == "INTEGER"@ && v@[0].notnull
            && v@[0].dflt_value is None && v@[0].pk,
        v@[1].cid == 1 && v@[1].name@ == "email"@ && v@[1].ctype@ == "VARCHAR(100)"@
            && v@[1].notnull && v@[1].dflt_value is None && !v@[1].pk,
        v@[2].cid == 2 && v@[2].name@ == "password"@ && v@[2].ctype@ == "VARCHAR(255)"@
            && v@[2].notnull && v@[2].dflt_value is None && !v@[2].pk,
        v@[3].cid == 3 && v@[3].name@ == "role"@ && v@[3].ctype@ == "VARCHAR(20)"@
            && !v@[3].notnull && v@[3].dflt_value is None && !v@[3].pk,
{
    let mut v: Vec<ColInfo> = Vec::new();
    v.push(
        ColInfo {
            cid: 0,
            name: "id".to_owned(),
            ctype: "INTEGER".to_owned(),
            notnull: true,
            dflt_value: None,
            pk: true,
        },
    );
    v.push(
        ColInfo {
            cid: 1,
            name: "email".to_owned(),
            ctype: "VARCHAR(100)".to_owned(),
            notnull: true,
            dflt_value: None,
            pk: false,
        },
    );
    v.push(
        ColInfo {
            cid: 2,
            name: "password".to_owned(),
            ctype: "VARCHAR(255)".to_owned(),
            notnull: true,
            dflt_value: None,
            pk: false,
        },
    );
    v.push(
        ColInfo {
            cid: 3,
            name: "role".to_owned(),
            ctype: "VARCHAR(20)".to_owned(),
            notnull: false,
            dflt_value: None,
            pk: false,
        },
    );
    v
}

} // verus!
