//! What the request layer needs around a storage operation: the bound of
//! the connection pool, how a worker's failures are told apart, and the
//! answer of the health probe.

use crate::error::AppError;
use vstd::prelude::*;

verus! {

/// Upper bound on the number of live connections in the pool. Callers
/// beyond it wait for a connection to be given back.
pub const POOL_MAX_SIZE: u32 = 128;

/// The word a health probe answers with once the service accepts requests.
pub fn health() -> (status: &'static str)
    ensures
        status@ == "ok"@,
{
    "ok"
}

/// Runs one unit of storage work on a leased connection. Where the pool
/// gave no connection the work does not run and the pool's message comes
/// back as a database error; otherwise the answer is that of the work. The
/// lease moves into the work, so no other work holds it meanwhile.
pub fn run_leased<C, T, F>(lease: Result<C, String>, work: F) -> (r: Result<T, AppError>) where
    F: FnOnce(C) -> Result<T, AppError>,

    requires
        lease matches Ok(conn) ==> call_requires(work, (conn,)),
    ensures
        match lease {
            Ok(conn) => call_ensures(work, (conn,), r),
            Err(reason) => r matches Err(AppError::Db(msg)) && msg@ == reason@,
        },
{
    match lease {
        Ok(conn) => work(conn),
        Err(reason) => Err(AppError::Db(reason)),
    }
}

/// Settles what came back from the worker that ran a unit of storage work:
/// the work's own answer where the worker finished, and a join error with
/// the runtime's message where the worker was lost. Neither hides the
/// other: a storage error of the work stays a storage error.
pub fn settle<T>(joined: Result<Result<T, AppError>, String>) -> (r: Result<T, AppError>)
    ensures
        match joined {
            Ok(answer) => r == answer,
            Err(reason) => r matches Err(AppError::Join(msg)) && msg@ == reason@,
        },
{
    match joined {
        Ok(answer) => answer,
        Err(reason) => Err(AppError::Join(reason)),
    }
}

} // verus!
