use fricu_server::error::AppError;
use fricu_server::service::{health, run_leased, settle, POOL_MAX_SIZE};

#[test]
fn pool_is_bounded_at_128() {
    assert_eq!(POOL_MAX_SIZE, 128);
}

#[test]
fn health_answers_ok() {
    assert_eq!(health(), "ok");
}

#[test]
fn run_leased_hands_the_connection_to_the_work() {
    let answer: Result<u32, AppError> = run_leased(Ok(41u32), |conn: u32| Ok(conn + 1));
    assert_eq!(answer, Ok(42));
}

#[test]
fn run_leased_keeps_the_error_of_the_work() {
    let answer: Result<u32, AppError> = run_leased(Ok(0u32), |_conn: u32| Err(AppError::UnknownKey));
    assert_eq!(answer, Err(AppError::UnknownKey));
}

#[test]
fn run_leased_without_a_connection_does_not_run_the_work() {
    let mut ran = false;
    let answer: Result<u32, AppError> = run_leased(Err::<u32, String>("timed out waiting for connection".to_string()), |conn: u32| {
        ran = true;
        Ok(conn)
    });
    assert_eq!(answer, Err(AppError::Db("timed out waiting for connection".to_string())));
    assert!(!ran);
}

#[test]
fn settle_passes_the_answer_of_the_work() {
    assert_eq!(settle(Ok(Ok::<u32, AppError>(7))), Ok(7));
    assert_eq!(
        settle(Ok(Err::<u32, AppError>(AppError::Db("disk I/O error".to_string())))),
        Err(AppError::Db("disk I/O error".to_string()))
    );
    assert_eq!(
        settle(Ok(Err::<u32, AppError>(AppError::Decode("bad".to_string())))),
        Err(AppError::Decode("bad".to_string()))
    );
}

#[test]
fn settle_reports_a_lost_worker_as_a_join_error() {
    assert_eq!(
        settle(Err::<Result<u32, AppError>, String>("task 3 panicked".to_string())),
        Err(AppError::Join("task 3 panicked".to_string()))
    );
}
