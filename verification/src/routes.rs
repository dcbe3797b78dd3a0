//! Request-level operations and the error kinds they answer with.

pub mod correlate;
pub mod run;
pub mod user;

use crate::gps::{has_trace, GpsPoint};
use crate::management::AuthorizedUser;
use crate::routes::correlate::{correlation_of, CorrelatePlease, Correlation};
use crate::routes::run::{live_submission_of, termination_refused, SubmitGpsPoint};
use crate::trekkie::Run;
use vstd::prelude::*;

verus! {

/// Answer to a request that can only succeed or fail.
#[derive(Debug, Clone, Copy, PartialEq, Eq, Structural)]
pub struct Response {
    pub success: bool,
}

/// The closed set of failures a request can end in.
#[derive(Debug, Clone, Copy, PartialEq, Eq, Structural)]
pub enum ServerError {
    /// Infrastructure failure: pool exhaustion, query failure, unreachable dependency.
    InternalError,
    /// Malformed payload or unparseable track data.
    BadClientData,
    /// No session, or one that names no known user.
    Unauthorized,
    /// A known user without the privilege the target needs.
    Forbidden,
    /// The target is in a state that does not admit the transition.
    Conflict,
    /// Reserved for features that are not built.
    NotImplemented,
}

impl ServerError {
    /// The HTTP status that stands for this failure.
    pub open spec fn spec_status_code(&self) -> u16 {
        match *self {
            ServerError::InternalError => 500,
            ServerError::BadClientData => 400,
            ServerError::Unauthorized => 401,
            ServerError::Forbidden => 403,
            ServerError::Conflict => 409,
            ServerError::NotImplemented => 501,
        }
    }

    /// The short text shown to the caller; it never carries infrastructure detail.
    pub open spec fn spec_message(&self) -> Seq<char> {
        match *self {
            ServerError::InternalError => "Internal Error"@,
            ServerError::BadClientData => "Bad Request"@,
            ServerError::Unauthorized => "Unauthorized"@,
            ServerError::Forbidden => "Forbidden"@,
            ServerError::Conflict => "Conflict"@,
            ServerError::NotImplemented => "Not Implemented"@,
        }
    }

    #[verifier::when_used_as_spec(spec_status_code)]
    pub fn status_code(&self) -> (code: u16)
        ensures
            code == self.spec_status_code(),
    {
        match self {
            ServerError::InternalError => 500,
            ServerError::BadClientData => 400,
            ServerError::Unauthorized => 401,
            ServerError::Forbidden => 403,
            ServerError::Conflict => 409,
            ServerError::NotImplemented => 501,
        }
    }

    pub fn message(&self) -> (text: String)
        ensures
            text@ == self.spec_message(),
    {
        match self {
            ServerError::InternalError => "Internal Error".to_owned(),
            ServerError::BadClientData => "Bad Request".to_owned(),
            ServerError::Unauthorized => "Unauthorized".to_owned(),
            ServerError::Forbidden => "Forbidden".to_owned(),
            ServerError::Conflict => "Conflict".to_owned(),
            ServerError::NotImplemented => "Not Implemented".to_owned(),
        }
    }
}

/// Every failure maps to a client or server error status, and no two kinds share one.
pub proof fn status_codes_are_distinct(a: ServerError, b: ServerError)
    ensures
        400 <= a.spec_status_code() < 600,
        a.spec_status_code() == b.spec_status_code() ==> a == b,
{
}

/// A user who neither owns a run nor administrates is refused by every
/// operation on it, whatever state the run is in and whatever else the
/// request holds: closing it, feeding it a live fix and correlating it all
/// end in `Forbidden`.
pub proof fn strangers_are_forbidden(
    run: Run,
    caller: AuthorizedUser,
    points: Seq<GpsPoint>,
    gps_point: SubmitGpsPoint,
    request: CorrelatePlease,
    default_window: i64,
)
    requires
        caller.id != run.owner,
        !caller.spec_is_admin(),
        request.run_id == run.id,
    ensures
        termination_refused(run, &caller, points) == Some(ServerError::Forbidden),
        live_submission_of(run, &caller, gps_point) == Err::<run::LiveSubmission, ServerError>(
            ServerError::Forbidden,
        ),
        correlation_of(Some(&run), &caller, request, default_window) == Err::<
            Correlation,
            ServerError,
        >(ServerError::Forbidden),
{
}

/// An administrator is never refused for want of ownership: on any run, of
/// any owner, no operation ends in `Forbidden`, and each goes ahead
/// wherever the run's state admits it.
pub proof fn administrators_pass_on_any_run(
    run: Run,
    caller: AuthorizedUser,
    points: Seq<GpsPoint>,
    gps_point: SubmitGpsPoint,
    request: CorrelatePlease,
    default_window: i64,
)
    requires
        caller.spec_is_admin(),
        request.run_id == run.id,
    ensures
        termination_refused(run, &caller, points) != Some(ServerError::Forbidden),
        live_submission_of(run, &caller, gps_point) != Err::<run::LiveSubmission, ServerError>(
            ServerError::Forbidden,
        ),
        correlation_of(Some(&run), &caller, request, default_window) != Err::<
            Correlation,
            ServerError,
        >(ServerError::Forbidden),
        !run.finished && has_trace(points, run.id) ==> termination_refused(run, &caller, points)
            is None,
        !run.finished ==> live_submission_of(run, &caller, gps_point) is Ok,
        run.finished ==> correlation_of(Some(&run), &caller, request, default_window) is Ok,
{
}

} // verus!
