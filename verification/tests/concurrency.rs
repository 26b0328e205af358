use std::time::Instant;

use fricu_server::error::AppError;
use fricu_server::load::{tally, LOAD_KEY};
use fricu_server::service::{run_leased, settle};
use fricu_server::store::{get_data, init_schema, put_data};
use r2d2::{Pool, PooledConnection};
use r2d2_sqlite::SqliteConnectionManager;
use serde_json::{Number, Value};

type Lease = PooledConnection<SqliteConnectionManager>;

fn pool_at(path: &str, size: u32) -> Pool<SqliteConnectionManager> {
    let pool = Pool::builder().max_size(size).build(SqliteConnectionManager::file(path)).unwrap();
    let mut conn = pool.get().unwrap();
    conn.execute_batch("DROP TABLE IF EXISTS kv_store").unwrap();
    init_schema(&mut conn).unwrap();
    pool
}

fn on_workers<T, F>(pool: &Pool<SqliteConnectionManager>, jobs: Vec<F>) -> Vec<Result<T, AppError>>
where
    T: Send + 'static,
    F: FnOnce(Lease) -> Result<T, AppError> + Send + 'static,
{
    let runtime = tokio::runtime::Builder::new_multi_thread()
        .worker_threads(2)
        .max_blocking_threads(16)
        .build()
        .unwrap();
    runtime.block_on(async {
        let mut handles = Vec::new();
        for job in jobs {
            let pool = pool.clone();
            handles.push(tokio::task::spawn_blocking(move || {
                run_leased(pool.get().map_err(|e| e.to_string()), job)
            }));
        }
        let mut answers = Vec::new();
        for handle in handles {
            answers.push(settle(handle.await.map_err(|e| e.to_string())));
        }
        answers
    })
}

fn activity() -> Value {
    let mut entry = serde_json::Map::new();
    entry.insert("date".to_string(), Value::String("2026-01-01T00:00:00Z".to_string()));
    entry.insert("sport".to_string(), Value::String("cycling".to_string()));
    entry.insert("durationSec".to_string(), Value::Number(Number::from(3600)));
    entry.insert("distanceKm".to_string(), Value::Number(Number::from_f64(40.1).unwrap()));
    entry.insert("tss".to_string(), Value::Number(Number::from(70)));
    entry.insert("normalizedPower".to_string(), Value::Number(Number::from(220)));
    Value::Array(vec![Value::Object(entry)])
}

#[test]
fn load_scenario_of_a_thousand_reads() {
    let pool = pool_at("/tmp/fricu_server_load_scenario.db", 16);
    let body = serde_json::to_string(&activity()).unwrap();
    {
        let mut conn = pool.get().unwrap();
        assert_eq!(put_data(&mut conn, LOAD_KEY, &body), Ok(()));
    }

    let start = Instant::now();
    let mut jobs = Vec::new();
    for _ in 0..1000 {
        jobs.push(|mut conn: Lease| get_data(&mut conn, LOAD_KEY));
    }
    let answers = on_workers(&pool, jobs);
    let elapsed = start.elapsed();

    assert_eq!(answers.len(), 1000);
    for answer in &answers {
        assert_eq!(*answer, Ok(activity()));
    }
    let outcomes: Vec<bool> = answers.iter().map(|answer| answer.is_ok()).collect();
    let report = tally(&outcomes, elapsed.as_millis());
    assert_eq!(report.total, 1000);
    assert_eq!(report.success, 1000);
    assert_eq!(report.failed, 0);
    assert!(report.passed());
    let throughput = (report.success as f64) / elapsed.as_secs_f64();
    assert!(throughput > 0.0);
}

#[test]
fn concurrent_writes_leave_one_whole_value() {
    let pool = pool_at("/tmp/fricu_server_concurrent_writes.db", 16);
    let started = {
        let conn = pool.get().unwrap();
        let now: i64 = conn.query_row("SELECT CAST(strftime('%s', 'now') AS INTEGER)", [], |row| row.get(0)).unwrap();
        now
    };

    let writers: i64 = 48;
    let mut jobs: Vec<Box<dyn FnOnce(Lease) -> Result<Option<Value>, AppError> + Send>> = Vec::new();
    for n in 0..writers {
        let body = format!("{{\"writer\":{},\"laps\":[{},{},{}]}}", n, n, n, n);
        jobs.push(Box::new(move |mut conn: Lease| put_data(&mut conn, "profile", &body).map(|()| None)));
        jobs.push(Box::new(|mut conn: Lease| get_data(&mut conn, "profile").map(Some)));
    }
    let answers = on_workers(&pool, jobs);

    let whole = |value: &Value| -> bool {
        if *value == Value::Object(serde_json::Map::new()) {
            return true;
        }
        match value.get("writer").and_then(Value::as_i64) {
            Some(n) => {
                let lap = Value::Number(Number::from(n));
                0 <= n && n < writers && value.get("laps") == Some(&Value::Array(vec![lap.clone(), lap.clone(), lap]))
            }
            None => false,
        }
    };
    for answer in &answers {
        match answer {
            Ok(None) => {}
            Ok(Some(seen)) => assert!(whole(seen), "a read saw {}", seen),
            Err(e) => panic!("a request failed: {:?}", e),
        }
    }

    let mut conn = pool.get().unwrap();
    let last = get_data(&mut conn, "profile").unwrap();
    assert!(whole(&last));
    assert_ne!(last, Value::Object(serde_json::Map::new()));
    let rows: i64 = conn.query_row("SELECT COUNT(*) FROM kv_store WHERE data_key = 'profile'", [], |row| row.get(0)).unwrap();
    assert_eq!(rows, 1);
    let (updated_at, now): (i64, i64) = conn
        .query_row(
            "SELECT updated_at, CAST(strftime('%s', 'now') AS INTEGER) FROM kv_store WHERE data_key = 'profile'",
            [],
            |row| Ok((row.get(0)?, row.get(1)?)),
        )
        .unwrap();
    assert!(started <= updated_at && updated_at <= now);
}

#[test]
fn callers_beyond_the_pool_wait_for_a_connection() {
    let pool = pool_at("/tmp/fricu_server_small_pool.db", 1);
    {
        let mut conn = pool.get().unwrap();
        assert_eq!(put_data(&mut conn, "events", "[\"ride\"]"), Ok(()));
    }
    let mut jobs = Vec::new();
    for _ in 0..200 {
        jobs.push(|mut conn: Lease| get_data(&mut conn, "events"));
    }
    let answers = on_workers(&pool, jobs);
    assert_eq!(answers.len(), 200);
    for answer in &answers {
        assert_eq!(*answer, Ok(Value::Array(vec![Value::String("ride".to_string())])));
    }
    assert_eq!(pool.max_size(), 1);
    assert!(pool.state().connections <= 1);
}

#[test]
fn lost_worker_is_a_join_error() {
    let pool = pool_at("/tmp/fricu_server_lost_worker.db", 2);
    let mut jobs: Vec<Box<dyn FnOnce(Lease) -> Result<Value, AppError> + Send>> = Vec::new();
    jobs.push(Box::new(|mut conn: Lease| get_data(&mut conn, "profile")));
    jobs.push(Box::new(|_conn: Lease| panic!("worker gave up")));
    jobs.push(Box::new(|mut conn: Lease| get_data(&mut conn, "settings")));
    let answers = on_workers(&pool, jobs);
    assert_eq!(answers[0], Ok(Value::Object(serde_json::Map::new())));
    match &answers[1] {
        Err(AppError::Join(msg)) => assert!(msg.contains("panicked"), "unexpected message: {}", msg),
        other => panic!("expected a join error, got {:?}", other),
    }
    assert_eq!(answers[2], Err(AppError::UnknownKey));
    let mut conn = pool.get().unwrap();
    assert_eq!(get_data(&mut conn, "profile"), Ok(Value::Object(serde_json::Map::new())));
}

#[test]
fn pool_failure_is_a_database_error() {
    let built = Pool::builder()
        .max_size(1)
        .connection_timeout(std::time::Duration::from_millis(200))
        .build(SqliteConnectionManager::file("/tmp/fricu_server_busy_pool.db"));
    let pool = built.unwrap();
    let held = pool.get().unwrap();
    let answer: Result<Value, AppError> =
        run_leased(pool.get().map_err(|e| e.to_string()), |mut conn: Lease| get_data(&mut conn, "profile"));
    match answer {
        Err(AppError::Db(msg)) => assert!(msg.contains("timed out"), "unexpected message: {}", msg),
        other => panic!("expected a database error, got {:?}", other),
    }
    drop(held);
}
