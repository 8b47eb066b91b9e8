use dblayer::bind::{check_bind, Backend};
use dblayer::conn::{
    bootstrap_columns, bootstrap_sql, connect_outcome, embedded_introspection_sql,
    table_info_from_rows, ConnState, ConnectEvent,
};
use dblayer::decode::{decode_row, kind_of_reported_type, to_raw};
use dblayer::model::{ColKind, ColType, DbError, RawCell, RawValue};

use sqlx::sqlite::{SqlitePoolOptions, SqliteRow};
use sqlx::{AssertSqlSafe, Column, Row, TypeInfo};

fn runtime() -> tokio::runtime::Runtime {
    tokio::runtime::Builder::new_current_thread()
        .enable_all()
        .build()
        .expect("runtime must build")
}

fn unique_suffix() -> u128 {
    std::time::SystemTime::now()
        .duration_since(std::time::UNIX_EPOCH)
        .expect("clock must be past the epoch")
        .as_nanos()
}

/// The extraction step a backend wrapper performs: each native cell is
/// read under the family its reported type selects and handed to the
/// library as plain values.
fn raw_cells(row: &SqliteRow) -> Vec<RawCell> {
    let mut cells = Vec::new();
    for i in 0..row.len() {
        let name = row.column(i).name().to_string();
        let reported = row.column(i).type_info().name().to_string();
        let value = match kind_of_reported_type(&reported) {
            Some(ColKind::Int) => RawValue::Int(row.get::<Option<i64>, _>(i)),
            Some(ColKind::Text) => RawValue::Text(row.get::<Option<String>, _>(i)),
            Some(ColKind::Real) => {
                RawValue::Real(row.get::<Option<f64>, _>(i).map(f64::to_bits))
            }
            Some(ColKind::Bool) => RawValue::Bool(row.get::<Option<bool>, _>(i)),
            _ => RawValue::Text(row.get::<Option<String>, _>(i)),
        };
        cells.push(RawCell {
            name,
            reported_type: reported,
            value,
        });
    }
    cells
}

#[test]
fn embedded_bootstrap_is_idempotent() {
    // Connecting twice against the same embedded file path neither
    // duplicates nor errors on the baseline table.
    let rt = runtime();
    rt.block_on(async {
        let path = format!("/tmp/dblayer_live_{}.db", unique_suffix());
        let dsn = format!("sqlite://{}?mode=rwc", path);
        for _ in 0..2 {
            let pool = SqlitePoolOptions::new()
                .connect(&dsn)
                .await
                .expect("embedded connect must succeed");
            sqlx::query(bootstrap_sql())
                .execute(&pool)
                .await
                .expect("bootstrap must be idempotent");
            pool.close().await;
        }
    });
}

#[test]
fn bootstrapped_schema_reports_four_descriptors() {
    // Introspection of a freshly bootstrapped embedded database, run
    // through the library's catalog mapping, yields the four expected
    // descriptors in declaration order.
    let rt = runtime();
    rt.block_on(async {
        let path = format!("/tmp/dblayer_schema_{}.db", unique_suffix());
        let dsn = format!("sqlite://{}?mode=rwc", path);
        let pool = SqlitePoolOptions::new().connect(&dsn).await.expect("connect");
        sqlx::query(bootstrap_sql()).execute(&pool).await.expect("bootstrap");

        let q = embedded_introspection_sql("users");
        let rows = sqlx::query(AssertSqlSafe(q))
            .fetch_all(&pool)
            .await
            .expect("catalog query");
        let raw: Vec<Vec<RawCell>> = rows
            .iter()
            .map(|row| {
                vec![
                    RawCell {
                        name: "cid".to_string(),
                        reported_type: "INTEGER".to_string(),
                        value: RawValue::Int(row.get::<Option<i64>, _>(0)),
                    },
                    RawCell {
                        name: "name".to_string(),
                        reported_type: "TEXT".to_string(),
                        value: RawValue::Text(row.get::<Option<String>, _>(1)),
                    },
                    RawCell {
                        name: "type".to_string(),
                        reported_type: "TEXT".to_string(),
                        value: RawValue::Text(row.get::<Option<String>, _>(2)),
                    },
                    RawCell {
                        name: "notnull".to_string(),
                        reported_type: "INTEGER".to_string(),
                        value: RawValue::Int(row.get::<Option<i64>, _>(3)),
                    },
                    RawCell {
                        name: "dflt_value".to_string(),
                        reported_type: "TEXT".to_string(),
                        value: RawValue::Text(row.get::<Option<String>, _>(4)),
                    },
                    RawCell {
                        name: "pk".to_string(),
                        reported_type: "INTEGER".to_string(),
                        value: RawValue::Int(row.get::<Option<i64>, _>(5)),
                    },
                ]
            })
            .collect();
        let infos = table_info_from_rows(&raw).expect("catalog rows must map");
        assert_eq!(infos, bootstrap_columns());
        pool.close().await;
    });
}

#[test]
fn execute_insert_affects_one_row() {
    // The insert into the baseline table reports exactly one affected
    // row, and the inserted values come back unchanged through the
    // decoder.
    let rt = runtime();
    rt.block_on(async {
        let path = format!("/tmp/dblayer_insert_{}.db", unique_suffix());
        let dsn = format!("sqlite://{}?mode=rwc", path);
        let pool = SqlitePoolOptions::new().connect(&dsn).await.expect("connect");
        sqlx::query(bootstrap_sql()).execute(&pool).await.expect("bootstrap");

        let email = format!("user{}@example.com", unique_suffix());
        let sql = "INSERT INTO users(email,password) VALUES(?,?)";
        let args = vec![
            ColType::String(Some(email.clone())),
            ColType::String(Some("hunter2hash".to_string())),
        ];
        check_bind(Backend::Embedded, sql, &args).expect("bind request must be valid");

        let mut q = sqlx::query(sql);
        for arg in &args {
            q = match to_raw(arg.clone()).expect("validated arguments bind") {
                RawValue::Int(t) => q.bind(t),
                RawValue::Real(t) => q.bind(t.map(f64::from_bits)),
                RawValue::Text(t) => q.bind(t),
                RawValue::Bool(t) => q.bind(t),
                RawValue::Temporal(t) => q.bind(t),
            };
        }
        let out = q.execute(&pool).await.expect("insert must succeed");
        assert_eq!(out.rows_affected(), 1);

        let rows = sqlx::query("SELECT id, email, role FROM users")
            .fetch_all(&pool)
            .await
            .expect("select");
        assert_eq!(rows.len(), 1);
        let rec = decode_row(raw_cells(&rows[0])).expect("row must decode");
        assert_eq!(
            rec.get(&"email".to_string()),
            Some(&ColType::String(Some(email)))
        );
        assert_eq!(rec.get(&"role".to_string()), Some(&ColType::String(None)));
        assert_eq!(rec.get(&"id".to_string()), Some(&ColType::Integer(Some(1))));
        pool.close().await;
    });
}

#[test]
fn driver_refusal_maps_to_a_query_error() {
    // Malformed SQL surfaces as the driver's message wrapped in the
    // query-error kind, never an abort.
    let rt = runtime();
    let err = rt.block_on(async {
        let path = format!("/tmp/dblayer_query_{}.db", unique_suffix());
        let dsn = format!("sqlite://{}?mode=rwc", path);
        let pool = SqlitePoolOptions::new().connect(&dsn).await.expect("connect");
        let out = sqlx::query("SELEC nonsense").fetch_all(&pool).await;
        pool.close().await;
        out.expect_err("malformed SQL must be refused")
    });
    let mapped = DbError::Query {
        message: err.to_string(),
    };
    assert_eq!(mapped.kind_name(), "query");
    match mapped {
        DbError::Query { message } => assert!(!message.is_empty()),
        other => panic!("expected a query error, got {:?}", other),
    }
}

#[test]
fn unreachable_embedded_path_ends_failed() {
    // A path that cannot be opened ends in the Failed state with a
    // non-empty code; nothing aborts.
    let rt = runtime();
    let state = rt.block_on(async {
        let attempt = SqlitePoolOptions::new()
            .connect("sqlite:///dblayer_no_such_dir/x.db")
            .await;
        match attempt {
            Ok(_) => ConnectEvent::PoolReady,
            Err(e) => match e.as_database_error() {
                Some(db) => ConnectEvent::PoolError {
                    code: db
                        .code()
                        .map(|c| c.to_string())
                        .unwrap_or_else(|| "driver".to_string()),
                    message: db.message().to_string(),
                },
                None => ConnectEvent::PoolError {
                    code: "io".to_string(),
                    message: e.to_string(),
                },
            },
        }
    });
    match connect_outcome(state) {
        ConnState::Failed { code, .. } => assert!(!code.is_empty()),
        ConnState::Ready => panic!("connecting into a missing directory must fail"),
    }
}

#[test]
fn malformed_dsn_ends_failed() {
    let rt = runtime();
    let state = rt.block_on(async {
        let attempt = SqlitePoolOptions::new().connect("not-a-dsn").await;
        match attempt {
            Ok(_) => ConnectEvent::PoolReady,
            Err(e) => ConnectEvent::PoolError {
                code: "config".to_string(),
                message: e.to_string(),
            },
        }
    });
    match connect_outcome(state) {
        ConnState::Failed { code, message } => {
            assert!(!code.is_empty());
            assert!(!message.is_empty());
        }
        ConnState::Ready => panic!("a malformed DSN must fail"),
    }
}
