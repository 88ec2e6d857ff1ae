//! What the library takes from tokio, tokio-util and std without looking inside.

use tokio::task::{JoinError, JoinHandle};
use tokio::time::Instant;
use tokio_util::sync::CancellationToken;
use vstd::prelude::*;

verus! {

/// `tokio::time::Instant`, a reading of the monotonic clock.
#[verifier::external_type_specification]
#[verifier::external_body]
pub struct ExInstant(Instant);

/// `tokio::task::JoinHandle`, the handle of a spawned task.
#[verifier::external_type_specification]
#[verifier::external_body]
#[verifier::reject_recursive_types(T)]
pub struct ExJoinHandle<T>(JoinHandle<T>);

/// `tokio::task::JoinError`, which a `JoinHandle` may yield when awaited.
#[verifier::external_type_specification]
#[verifier::external_body]
pub struct ExJoinError(JoinError);

/// `tokio_util::sync::CancellationToken`, by which a task is told to stop.
#[verifier::external_type_specification]
#[verifier::external_body]
pub struct ExCancellationToken(CancellationToken);

/// `std::path::PathBuf`, the path of a workspace.
#[verifier::external_type_specification]
#[verifier::external_body]
pub struct ExPathBuf(std::path::PathBuf);

/// `tokio::time::Instant::now` reads the monotonic clock. The clock decides
/// the result, and nothing is claimed of it.
pub assume_specification[ Instant::now ]() -> (now: Instant)
;

/// `CancellationToken::new` makes a token that has not been cancelled. Whether
/// a token has been cancelled changes behind shared references, so nothing is
/// claimed of the value.
pub assume_specification[ CancellationToken::new ]() -> (token: CancellationToken)
;

} // verus!
