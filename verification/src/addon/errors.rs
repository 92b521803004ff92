//! What an error of a request means for the tracker.

use crate::rest::ClientError;
use crate::text::{contains_text, has_text, join};
use crate::tracker::{ErrorView, MediaTrackerError, MediaTrackerResult};
use vstd::prelude::*;

verus! {

pub open spec fn mapped_error(err: ClientError) -> ErrorView {
    match err {
        ClientError::Unauthorized => ErrorView::reauth("Trakt rejected the token"@),
        ClientError::RateLimited { retry_after_secs } => ErrorView::Retryable {
            message: "Trakt rate limited"@,
            retry_after_secs: Some(retry_after_secs),
        },
        ClientError::Http { status, message, endpoint, body } => if status == 409 {
            ErrorView::retryable("trakt conflict \u{2014} treated as success"@)
        } else if status == 404 {
            ErrorView::permanent("Trakt could not match item: "@ + message@)
        } else {
            ErrorView::retryable(err.user_message_spec())
        },
        _ => ErrorView::retryable(err.user_message_spec()),
    }
}

/// What an error of a request means for the tracker. A conflict says that Trakt is already
/// scrobbling a title, or already has it in the history.
pub fn map_error(err: ClientError) -> (r: MediaTrackerError)
    ensures
        r@ == mapped_error(err),
{
    match &err {
        ClientError::Unauthorized => MediaTrackerError::reauth(
            "Trakt rejected the token".to_string(),
        ),
        ClientError::RateLimited { retry_after_secs } => MediaTrackerError::retry_after(
            "Trakt rate limited".to_string(),
            *retry_after_secs,
        ),
        ClientError::Http { status, message, endpoint: _, body: _ } => {
            if *status == 409 {
                MediaTrackerError::retryable("trakt conflict \u{2014} treated as success".to_string())
            } else if *status == 404 {
                MediaTrackerError::permanent(
                    join("Trakt could not match item: ", message.as_str()),
                )
            } else {
                MediaTrackerError::retryable(err.user_message())
            }
        },
        _ => MediaTrackerError::retryable(err.user_message()),
    }
}

/// Whether an error is a conflict: one that may go well another time and speaks of a conflict.
pub open spec fn is_conflict(e: ErrorView) -> bool {
    e matches ErrorView::Retryable { message, .. } && has_text(message, "conflict"@)
}

/// The result, where a conflict counts as success.
pub fn ignore_conflict(result: MediaTrackerResult<()>) -> (r: MediaTrackerResult<()>)
    ensures
        match result {
            Ok(_) => r == result,
            Err(e) => if is_conflict(e@) {
                r is Ok
            } else {
                r == result
            },
        },
{
    match result {
        Err(e) => {
            let conflict = match &e {
                MediaTrackerError::Retryable { message, retry_after_secs: _ } => contains_text(
                    message.as_str(),
                    "conflict",
                ),
                MediaTrackerError::Permanent { .. } => false,
            };
            if conflict {
                Ok(())
            } else {
                Err(e)
            }
        },
        Ok(u) => Ok(u),
    }
}

/// What became of a request whose answer does not matter, where a conflict counts as success.
pub open spec fn settled(reply: Result<(), ClientError>) -> Result<(), ErrorView> {
    match reply {
        Ok(_) => Ok(()),
        Err(e) => if is_conflict(mapped_error(e)) {
            Ok(())
        } else {
            Err(mapped_error(e))
        },
    }
}

/// What became of a request whose answer does not matter, where a conflict counts as success.
pub fn settle(reply: Result<(), ClientError>) -> (r: MediaTrackerResult<()>)
    ensures
        match r {
            Ok(_) => settled(reply) is Ok,
            Err(e) => settled(reply) == Err::<(), ErrorView>(e@),
        },
{
    match reply {
        Ok(u) => ignore_conflict(Ok(u)),
        Err(e) => ignore_conflict(Err(map_error(e))),
    }
}

/// A request that Trakt refuses with a conflict has succeeded.
pub proof fn lemma_conflict_is_success(
    message: String,
    endpoint: Option<String>,
    body: Option<String>,
)
    ensures
        settled(Err(ClientError::Http { status: 409, message, endpoint, body })) is Ok,
{
    let text = "trakt conflict \u{2014} treated as success"@;
    reveal_strlit("trakt conflict \u{2014} treated as success");
    reveal_strlit("conflict");
    assert(text.subrange(6, 6int + "conflict"@.len()) =~= "conflict"@);
}

/// A token that Trakt rejects, and a title that it does not find, are failures, and no others are
/// final.
pub proof fn lemma_final_failures(err: ClientError)
    ensures
        err is Unauthorized ==> settled(Err(err)) == Err::<(), ErrorView>(mapped_error(err))
            && mapped_error(err).needs_reauth(),
        mapped_error(err) is Permanent <==> err is Unauthorized || (err matches ClientError::Http {
            status,
            ..
        } && status == 404),
        mapped_error(err).needs_reauth() <==> err is Unauthorized,
{
}

/// What Trakt says of the time to wait is kept, and what it says went wrong is told. Only a token that
/// it rejects sends the user back to the login, and only that and a title that it does not find will
/// not go well another time.
pub proof fn lemma_errors_as_told(err: ClientError)
    ensures
        ({
            let e = mapped_error(err);
            &&& err matches ClientError::RateLimited { retry_after_secs } ==> (
            e matches ErrorView::Retryable { retry_after_secs: wait, .. } && wait == Some(
                retry_after_secs,
            ))
            &&& !(err is RateLimited) ==> (e matches ErrorView::Retryable {
                retry_after_secs: wait,
                ..
            } ==> wait is None)
            &&& err is Unauthorized ==> e is Permanent && e.needs_reauth()
            &&& !(err is Unauthorized) ==> !e.needs_reauth()
            &&& err matches ClientError::Http { status, message, .. } ==> {
                &&& status == 404 ==> e == (ErrorView::Permanent {
                    message: "Trakt could not match item: "@ + message@,
                    reauth_required: false,
                })
                &&& status != 404 && status != 409 ==> e == (ErrorView::Retryable {
                    message: message@,
                    retry_after_secs: None,
                })
            }
            &&& err matches ClientError::Transport(message) ==> e.message() == message@ && e
                is Retryable
            &&& err matches ClientError::Decode(message) ==> e.message() == message@ && e
                is Retryable
        }),
{
}

/// An answer is a success if Trakt says so or speaks of a conflict. Whatever else it says is told as
/// it is, and a rejected token and a title that is not found are never taken for a success.
pub proof fn lemma_only_conflicts_are_settled(reply: Result<(), ClientError>)
    ensures
        reply is Ok ==> settled(reply) is Ok,
        reply matches Err(err) ==> {
            &&& settled(reply) is Ok ==> mapped_error(err) is Retryable && has_text(
                mapped_error(err).message(),
                "conflict"@,
            )
            &&& settled(reply) matches Err(e) ==> e == mapped_error(err)
            &&& mapped_error(err) is Retryable && has_text(
                mapped_error(err).message(),
                "conflict"@,
            ) ==> settled(reply) is Ok
            &&& err is Unauthorized ==> settled(reply) is Err
            &&& err matches ClientError::Http { status, .. } ==> status == 404 ==> settled(reply)
                is Err
        },
{
}

/// What a rejected token, too many requests and a conflict are told as.
pub proof fn lemma_texts_of_errors(
    secs: u64,
    message: String,
    endpoint: Option<String>,
    body: Option<String>,
)
    ensures
        mapped_error(ClientError::Unauthorized).message() == "Trakt rejected the token"@,
        mapped_error(ClientError::RateLimited { retry_after_secs: secs }).message()
            == "Trakt rate limited"@,
        mapped_error(ClientError::Http { status: 409, message, endpoint, body }).message()
            == "trakt conflict \u{2014} treated as success"@,
        mapped_error(ClientError::Http { status: 409, message, endpoint, body }) is Retryable,
{
}

} // verus!
