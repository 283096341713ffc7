//! The response classifier: every fallible remote operation ends in its
//! success value or in one uniform error of a code and a message.

use crate::constants::UNSTRUCTURED;
use crate::json::Json;
use crate::model::{Agent, Extraction, Sale, Transit};
use vstd::prelude::*;

verus! {

/// How a remote call failed.
#[derive(Debug, PartialEq, Eq)]
pub enum RemoteError {
    /// The service answered with an error status. `entity` is the body where it
    /// could be read as JSON.
    Response { status: u16, content: String, entity: Option<Json> },
    /// No answer was had or read: the connection, the encoding, the system.
    Transport { detail: String },
}

/// The uniform error. Code 0 with an empty message says that the payload had
/// no structured shape; it does not say that nothing went wrong.
#[derive(Clone, Debug, PartialEq, Eq)]
pub struct ClassifiedError {
    pub code: i32,
    pub message: String,
}

/// The code and the message of an error payload of the structured shape, an
/// object whose member `error` is an object with an integer `code` of 32 bits
/// and a string `message`; `None` for every other payload and for none.
pub open spec fn structured_error(entity: Option<Json>) -> Option<(int, Seq<char>)> {
    match entity {
        Some(body) => match body.member("error"@) {
            Some(error) => match (error.member("code"@), error.member("message"@)) {
                (Some(code), Some(message)) => match (code.integer(), message.text()) {
                    (Some(n), Some(m)) => if i32::MIN <= n <= i32::MAX {
                        Some((n, m))
                    } else {
                        None
                    },
                    _ => None,
                },
                _ => None,
            },
            None => None,
        },
        None => None,
    }
}

/// The code and the message that an error payload is classified as.
pub open spec fn classified(entity: Option<Json>) -> (int, Seq<char>) {
    match structured_error(entity) {
        Some(shape) => shape,
        None => (UNSTRUCTURED as int, Seq::empty()),
    }
}

/// Whether the classifier knows the level at which a call ended: it knows a
/// success and an error response, and nothing below.
pub open spec fn recognized<T>(response: Result<T, RemoteError>) -> bool {
    !(response matches Err(RemoteError::Transport { .. }))
}

/// Whether `result`, the error in it as code and message, is what the
/// classifier makes of `response`. A success is handed on as it came. An error
/// response becomes the code and the message of its payload where that has the
/// structured shape, and code 0 with no message where it has not. Nothing is the
/// classification of a failure below the response level.
pub open spec fn classifies<T>(
    response: Result<T, RemoteError>,
    result: Result<T, (int, Seq<char>)>,
) -> bool {
    match response {
        Ok(value) => result == Ok::<T, (int, Seq<char>)>(value),
        Err(RemoteError::Response { entity, .. }) => result == Err::<T, (int, Seq<char>)>(
            classified(entity),
        ),
        Err(RemoteError::Transport { .. }) => false,
    }
}

/// Whether `response` ended at a level that the classifier knows.
pub fn is_recognized<T>(response: &Result<T, RemoteError>) -> (known: bool)
    ensures
        known == recognized(*response),
{
    match response {
        Err(RemoteError::Transport { .. }) => false,
        _ => true,
    }
}

/// Classifies an error payload.
pub fn classify_entity(entity: &Option<Json>) -> (error: ClassifiedError)
    ensures
        error.shape() == classified(*entity),
{
    let unstructured = ClassifiedError { code: UNSTRUCTURED, message: String::new() };
    let body = match entity {
        Some(body) => body,
        None => { return unstructured; },
    };
    let error = match body.get("error") {
        Some(error) => error,
        None => { return unstructured; },
    };
    let code = match error.get("code") {
        Some(code) => code,
        None => { return unstructured; },
    };
    let message = match error.get("message") {
        Some(message) => message,
        None => { return unstructured; },
    };
    match (code.as_i64(), message.as_str()) {
        (Some(n), Some(m)) => {
            if -2147483648 <= n && n <= 2147483647 {
                ClassifiedError { code: n as i32, message: m.to_owned() }
            } else {
                unstructured
            }
        },
        _ => unstructured,
    }
}

impl ClassifiedError {
    /// The error as code and message.
    pub open spec fn shape(self) -> (int, Seq<char>) {
        (self.code as int, self.message@)
    }
}

/// A classifier's result with the error as code and message.
pub open spec fn shaped<T>(result: Result<T, ClassifiedError>) -> Result<T, (int, Seq<char>)> {
    match result {
        Ok(value) => Ok(value),
        Err(error) => Err(error.shape()),
    }
}

/// The classifier, one policy for every kind of operation. It is asked only for
/// outcomes of a level that it knows: a failure below the response level is
/// fatal to the attempt and is never made into an error of code 0.
pub fn classify<T>(response: Result<T, RemoteError>) -> (result: Result<T, ClassifiedError>)
    requires
        recognized(response),
    ensures
        classifies(response, shaped(result)),
{
    match response {
        Ok(value) => Ok(value),
        Err(RemoteError::Response { status: _, content: _, entity }) => Err(
            classify_entity(&entity),
        ),
        Err(RemoteError::Transport { detail: _ }) => {
            let never: Result<T, ClassifiedError> = vstd::pervasive::unreached();
            never
        },
    }
}

/// The error of a sale.
#[derive(Debug)]
pub struct SellCargoErrorParsed {
    pub code: i32,
    pub message: String,
}

/// The error of an extraction.
#[derive(Debug)]
pub struct ExtractResourcesErrorParsed {
    pub code: i32,
    pub message: String,
}

/// The error of a navigation.
#[derive(Debug)]
pub struct NavigateShipErrorParsed {
    pub code: i32,
    pub message: String,
}

/// The error of fetching the agent.
#[derive(Debug)]
pub struct GetMyAgentErrorParsed {
    pub code: i32,
    pub message: String,
}

impl SellCargoErrorParsed {
    /// The error as code and message.
    pub open spec fn shape(self) -> (int, Seq<char>) {
        (self.code as int, self.message@)
    }
}

impl ExtractResourcesErrorParsed {
    /// The error as code and message.
    pub open spec fn shape(self) -> (int, Seq<char>) {
        (self.code as int, self.message@)
    }
}

impl NavigateShipErrorParsed {
    /// The error as code and message.
    pub open spec fn shape(self) -> (int, Seq<char>) {
        (self.code as int, self.message@)
    }
}

impl GetMyAgentErrorParsed {
    /// The error as code and message.
    pub open spec fn shape(self) -> (int, Seq<char>) {
        (self.code as int, self.message@)
    }
}

/// Classifies the outcome of selling cargo.
pub fn sell_cargo_response_parser(response: Result<Sale, RemoteError>) -> (result: Result<
    Sale,
    SellCargoErrorParsed,
>)
    requires
        recognized(response),
    ensures
        classifies(
            response,
            match result {
                Ok(sale) => Ok(sale),
                Err(error) => Err(error.shape()),
            },
        ),
{
    match classify(response) {
        Ok(sale) => Ok(sale),
        Err(error) => Err(SellCargoErrorParsed { code: error.code, message: error.message }),
    }
}

/// Classifies the outcome of extracting resources.
pub fn extract_resources_response_parser(response: Result<Extraction, RemoteError>) -> (result:
    Result<Extraction, ExtractResourcesErrorParsed>)
    requires
        recognized(response),
    ensures
        classifies(
            response,
            match result {
                Ok(extraction) => Ok(extraction),
                Err(error) => Err(error.shape()),
            },
        ),
{
    match classify(response) {
        Ok(extraction) => Ok(extraction),
        Err(error) => Err(
            ExtractResourcesErrorParsed { code: error.code, message: error.message },
        ),
    }
}

/// Classifies the outcome of sending a ship to a waypoint.
pub fn travel_request_response_parser(response: Result<Transit, RemoteError>) -> (result: Result<
    Transit,
    NavigateShipErrorParsed,
>)
    requires
        recognized(response),
    ensures
        classifies(
            response,
            match result {
                Ok(transit) => Ok(transit),
                Err(error) => Err(error.shape()),
            },
        ),
{
    match classify(response) {
        Ok(transit) => Ok(transit),
        Err(error) => Err(NavigateShipErrorParsed { code: error.code, message: error.message }),
    }
}

/// Classifies the outcome of fetching the agent.
pub fn get_agent_response_parser(response: Result<Agent, RemoteError>) -> (result: Result<
    Agent,
    GetMyAgentErrorParsed,
>)
    requires
        recognized(response),
    ensures
        classifies(
            response,
            match result {
                Ok(agent) => Ok(agent),
                Err(error) => Err(error.shape()),
            },
        ),
{
    match classify(response) {
        Ok(agent) => Ok(agent),
        Err(error) => Err(GetMyAgentErrorParsed { code: error.code, message: error.message }),
    }
}

/// An error payload of the structured shape is classified as its own nested
/// code and message, exactly.
pub proof fn law_structured_payload_is_extracted(
    body: Json,
    error: Json,
    code: Json,
    message: Json,
)
    requires
        body.member("error"@) == Some(error),
        error.member("code"@) == Some(code),
        error.member("message"@) == Some(message),
        code.integer() is Some,
        i32::MIN <= code.integer().unwrap() <= i32::MAX,
        message.text() is Some,
    ensures
        classified(Some(body)) == (code.integer().unwrap(), message.text().unwrap()),
{
}

/// An error payload that has not the structured shape, in whichever way, is
/// classified as code 0 with an empty message; so is an error without payload.
pub proof fn law_unstructured_payload_is_zero(entity: Option<Json>)
    requires
        entity is None || entity.unwrap().member("error"@) is None || ({
            let error = entity.unwrap().member("error"@).unwrap();
            ||| error.member("code"@) is None
            ||| error.member("message"@) is None
            ||| error.member("code"@).unwrap().integer() is None
            ||| error.member("message"@).unwrap().text() is None
            ||| error.member("code"@).unwrap().integer().unwrap() < i32::MIN
            ||| error.member("code"@).unwrap().integer().unwrap() > i32::MAX
        }),
    ensures
        classified(entity) == (0int, Seq::<char>::empty()),
{
}

/// The classification of an error response does not depend on the kind of the
/// operation: it is a function of the payload alone, whatever the success
/// would have been.
pub proof fn law_one_policy_for_all_operations<S, T>(
    first: RemoteError,
    second: RemoteError,
    a: (int, Seq<char>),
    b: (int, Seq<char>),
)
    requires
        (first matches RemoteError::Response { entity, .. }
            && second matches RemoteError::Response { entity: other, .. } && entity == other),
        classifies(Err::<S, RemoteError>(first), Err::<S, (int, Seq<char>)>(a)),
        classifies(Err::<T, RemoteError>(second), Err::<T, (int, Seq<char>)>(b)),
    ensures
        a == b,
{
}

} // verus!
