use zero2prod::domain::NewSubscriber;
use zero2prod::error::AppError;
use zero2prod::routes::dto::SubscriptionFormData;
use zero2prod::routes::subscriptions::{subscription_outcome, StorageError};

#[test]
fn a_valid_form_becomes_a_new_subscriber() {
    let form = SubscriptionFormData {
        name: String::from("le guin"),
        email: String::from("ursula_le_guin@gmail.com"),
    };
    let subscriber = NewSubscriber::try_from(form).ok().expect("a valid form is accepted");
    assert_eq!(subscriber.email.as_str(), "ursula_le_guin@gmail.com");
    assert_eq!(subscriber.name.as_str(), "le guin");
}

#[test]
fn an_encoded_space_in_the_name_is_kept() {
    // What the transport decodes `name=le%20guin` into.
    let form = SubscriptionFormData {
        name: String::from("le guin"),
        email: String::from("ursula_le_guin@gmail.com"),
    };
    let subscriber = NewSubscriber::try_from(form).ok().expect("valid");
    assert_eq!(subscriber.name.as_str(), "le guin");
}

#[test]
fn an_empty_name_is_a_client_error() {
    let form = SubscriptionFormData {
        name: String::new(),
        email: String::from("ursula_le_guin@gmail.com"),
    };
    let e = NewSubscriber::try_from(form).err().expect("an empty name is rejected");
    match &e {
        AppError::BadRequest(m) => assert_eq!(m, "subscriber name is empty or whitespace-only"),
        _ => panic!("an invalid name must be a client error"),
    }
    let (status, body) = e.response_parts();
    assert_eq!(status, 400);
    assert_eq!(body, "{\"error\":\"subscriber name is empty or whitespace-only\"}");
}

#[test]
fn the_email_is_checked_first() {
    let form = SubscriptionFormData { name: String::new(), email: String::from("not-an-email") };
    let e = NewSubscriber::try_from(form).err().expect("both fields are invalid");
    match e {
        AppError::BadRequest(m) => assert_eq!(m, "subscriber email is not a valid email address"),
        _ => panic!("an invalid email must be a client error"),
    }
}

#[test]
fn a_successful_insert_is_acknowledged() {
    let r = subscription_outcome(Ok(()));
    assert_eq!(r.ok().expect("success passes through"), "New subscriber details has been saved");
}

#[test]
fn a_storage_failure_is_a_server_error_with_an_opaque_message() {
    let backend_detail = String::from("connection reset by peer");
    let r = subscription_outcome(Err(StorageError { message: backend_detail.clone() }));
    let e = r.err().expect("a storage failure is surfaced");
    let (status, body) = e.response_parts();
    assert_eq!(status, 500);
    assert_eq!(body, "{\"error\":\"Failed to save subscriber details\"}");
    assert!(!body.contains(&backend_detail), "the backend's text must not leak");
}

#[test]
fn unknown_failures_answer_with_an_opaque_body() {
    let (status, body) = AppError::Other(String::from("secret detail")).response_parts();
    assert_eq!(status, 500);
    assert_eq!(body, "{\"error\":\"Unknown error\"}");

    let (status, body) = AppError::ConfigError(String::from("bad port")).response_parts();
    assert_eq!(status, 500);
    assert_eq!(body, "{\"error\":\"Unknown error\"}");
}

#[test]
fn the_error_body_escapes_the_message() {
    let e = AppError::BadRequest(String::from("a \"quoted\\\" detail\nwith a newline"));
    let (status, body) = e.response_parts();
    assert_eq!(status, 400);
    assert_eq!(body, "{\"error\":\"a \\\"quoted\\\\\\\" detail\\nwith a newline\"}");
}
