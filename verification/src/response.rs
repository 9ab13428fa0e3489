//! The responses the service gives.

use vstd::prelude::*;
use vstd::string::*;
use crate::config::Config;
use crate::text::{decimal, decimal_digits};

verus! {

/// What goes back to the client.
#[derive(Clone, Debug, PartialEq, Eq)]
pub enum Response {
    /// Status 200 with an image as its body.
    Image {
        /// The `Content-Type` header.
        content_type: String,
        /// The `Access-Control-Allow-Origin` header.
        allow_origin: String,
        /// The `Cache-Control` header.
        cache_control: String,
        /// The image file.
        body: Vec<u8>,
    },
    /// A refusal or a failure, with a text as its body.
    Failure {
        /// The HTTP status.
        status: u16,
        /// The body shown to the client.
        message: String,
        /// What the operator's log is told; empty where nothing is logged.
        detail: String,
    },
}

/// A response as plain values.
pub enum ResponseView {
    Image { content_type: Seq<char>, allow_origin: Seq<char>, cache_control: Seq<char>, body: Seq<u8> },
    Failure { status: u16, message: Seq<char>, detail: Seq<char> },
}

impl View for Response {
    type V = ResponseView;

    open spec fn view(&self) -> ResponseView {
        match *self {
            Response::Image { content_type, allow_origin, cache_control, body } => {
                ResponseView::Image {
                    content_type: content_type@,
                    allow_origin: allow_origin@,
                    cache_control: cache_control@,
                    body: body@,
                }
            },
            Response::Failure { status, message, detail } => ResponseView::Failure {
                status,
                message: message@,
                detail: detail@,
            },
        }
    }
}

impl Response {
    /// The HTTP status of the response.
    pub fn status(&self) -> (code: u16)
        ensures
            code == match self@ {
                ResponseView::Image { .. } => 200u16,
                ResponseView::Failure { status, .. } => status,
            },
    {
        match self {
            Response::Image { .. } => 200,
            Response::Failure { status, .. } => *status,
        }
    }
}

/// The `Cache-Control` header for the two configured lifetimes.
pub open spec fn cache_control_text(max_age: u32, s_max_age: u32) -> Seq<char> {
    "public, max-age="@ + decimal_digits(max_age as nat) + ", s-maxage="@ + decimal_digits(
        s_max_age as nat,
    )
}

/// The response that carries an image: any origin may read it, and caches
/// may keep it for the configured lifetimes.
pub open spec fn image_response(
    content_type: Seq<char>,
    body: Seq<u8>,
    max_age: u32,
    s_max_age: u32,
) -> ResponseView {
    ResponseView::Image {
        content_type,
        allow_origin: "*"@,
        cache_control: cache_control_text(max_age, s_max_age),
        body,
    }
}

/// The response for a failure inside the service: status 500, a headline for
/// the client, and the headline with the cause for the log.
pub open spec fn internal_failure(headline: Seq<char>, cause: Seq<char>) -> ResponseView {
    ResponseView::Failure { status: 500, message: headline, detail: headline + ": "@ + cause }
}

/// The response for a request that is turned away: the message for the
/// client, nothing for the log.
pub open spec fn refusal(status: u16, message: Seq<char>) -> ResponseView {
    ResponseView::Failure { status, message, detail: Seq::empty() }
}

/// Writes the `Cache-Control` header.
pub fn cache_control(max_age: u32, s_max_age: u32) -> (header: String)
    ensures
        header@ == cache_control_text(max_age, s_max_age),
{
    let mut header = String::from_str("public, max-age=");
    header.append(decimal(max_age).as_str());
    header.append(", s-maxage=");
    header.append(decimal(s_max_age).as_str());
    header
}

/// Builds the response that carries an image.
pub fn create_image_response(content_type: &str, data: Vec<u8>, config: &Config) -> (response:
    Response)
    ensures
        response@ == image_response(content_type@, data@, config.max_age, config.s_max_age),
{
    Response::Image {
        content_type: String::from_str(content_type),
        allow_origin: String::from_str("*"),
        cache_control: cache_control(config.max_age, config.s_max_age),
        body: data,
    }
}

/// Builds the response for a failure inside the service.
pub fn create_failure_response(headline: &str, cause: &str) -> (response: Response)
    ensures
        response@ == internal_failure(headline@, cause@),
{
    let mut detail = String::from_str(headline);
    detail.append(": ");
    detail.append(cause);
    Response::Failure { status: 500, message: String::from_str(headline), detail }
}

/// Builds the response for a request that is turned away.
pub fn create_refusal(status: u16, message: String) -> (response: Response)
    ensures
        response@ == refusal(status, message@),
{
    let detail = String::new();
    Response::Failure { status, message, detail }
}

/// The response where the worker that was to transcode did not finish.
pub fn blocking_task_failed(cause: &str) -> (response: Response)
    ensures
        response@ == internal_failure("Blocking task failed"@, cause@),
{
    create_failure_response("Blocking task failed", cause)
}

} // verus!
