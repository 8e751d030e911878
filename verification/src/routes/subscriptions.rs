//! The submission pipeline's decisions: the single validation step from raw
//! form data to a `NewSubscriber`, and the response owed for each outcome
//! of the storage insert. The transport decoding before it and the
//! insert itself are the surrounding server's work; they hand plain values
//! in and take plain values back.

use vstd::prelude::*;

use crate::domain::{
    email_rejection_reason, name_rejection_reason, valid_subscriber_email, valid_subscriber_name,
    NewSubscriber, SubscriberEmail, SubscriberName,
};
use crate::error::AppError;
use crate::routes::dto::SubscriptionFormData;
use crate::text::trimmed;

verus! {

/// A failed durable insert, carrying the backend's own description: logged
/// by the caller, never shown outside.
#[derive(Debug)]
pub struct StorageError {
    pub message: String,
}

impl NewSubscriber {
    /// The single validation step: parses the email, then the name, and
    /// fails on the first error, as a client error carrying the reason. No
    /// other path constructs a `NewSubscriber`.
    pub fn try_from(form: SubscriptionFormData) -> (r: Result<NewSubscriber, AppError>)
        ensures
            match r {
                Ok(subscriber) => valid_subscriber_email(form.email@) && valid_subscriber_name(
                    form.name@,
                ) && subscriber.email@ == form.email@ && subscriber.name@ == trimmed(form.name@),
                Err(e) => match e {
                    AppError::BadRequest(m) => if !valid_subscriber_email(form.email@) {
                        m@ == email_rejection_reason()
                    } else {
                        !valid_subscriber_name(form.name@) && m@ == name_rejection_reason(
                            form.name@,
                        )
                    },
                    _ => false,
                },
            },
    {
        let email = match SubscriberEmail::parse(form.email) {
            Ok(email) => email,
            Err(e) => {
                return Err(AppError::BadRequest(e.reason));
            },
        };
        let name = match SubscriberName::parse(form.name) {
            Ok(name) => name,
            Err(e) => {
                return Err(AppError::BadRequest(e.reason));
            },
        };
        Ok(NewSubscriber { email, name })
    }
}

/// The acknowledgment sent when a subscriber was stored.
pub open spec fn spec_success_message() -> Seq<char> {
    "New subscriber details has been saved"@
}

/// The opaque message a storage failure answers with; the backend's text
/// stays out of it.
pub open spec fn spec_storage_failure_message() -> Seq<char> {
    "Failed to save subscriber details"@
}

/// Turns the Storage Gateway's outcome into the handler's result: success
/// becomes the acknowledgment, a storage failure a server error with the
/// opaque message.
pub fn subscription_outcome(insert_result: Result<(), StorageError>) -> (r: Result<
    String,
    AppError,
>)
    ensures
        match r {
            Ok(msg) => insert_result is Ok && msg@ == spec_success_message(),
            Err(e) => insert_result is Err && match e {
                AppError::InternalServerError(m) => m@ == spec_storage_failure_message(),
                _ => false,
            },
        },
{
    match insert_result {
        Ok(_) => Ok(String::from_str("New subscriber details has been saved")),
        Err(_) => Err(
            AppError::InternalServerError(String::from_str("Failed to save subscriber details")),
        ),
    }
}

} // verus!
