use crate::definitions::{definition_json, definition_to_json};
use crate::error::Error;
use crate::json::{json_object_strings, lookup_string};
use crate::request_failure::{FailureKind, RequestFailure};
use crate::text::message_with_detail;
use cooplan_amqp_api_shared::api::input::request_result_error::{
    RequestResultError,
    RequestResultErrorKind,
};
use vstd::prelude::*;
use vstd::string::*;

verus! {

/// The name under which definitions are served.
pub const ELEMENT_NAME: &'static str = "definition";

/// The request parameter that names the wanted version.
pub const VERSION_KEY: &'static str = "version";

/// The one action served: get the definition at a version.
pub const GET_ACTION: &'static str = "get";

/// How a request for another action is answered.
pub const INVALID_ACTION: &'static str = "invalid action detected: ";

/// How a request without a version is answered.
pub const MISSING_VERSION: &'static str = "missing 'version' from request";

/// How a request whose version is no string is answered.
pub const VERSION_NOT_TEXT: &'static str = "failed to read 'version' as a string";

/// How a storage request that could not be sent is answered.
pub const STORAGE_SEND_FAILURE: &'static str = "failed to send storage request: ";

/// How a storage reply that never came is answered.
pub const STORAGE_RECEIVE_FAILURE: &'static str = "failed to receive reply from storage: ";

/// How a failure of the storage side is answered.
pub const STORAGE_FAILURE: &'static str = "failed to get latest definition: ";

/// How a definition that cannot be turned into JSON is answered.
pub const SERIALIZATION_FAILURE: &'static str = "failed to serialize definition: ";

/// The failure `kind` with `message`.
pub open spec fn failure_is(failure: RequestFailure, kind: FailureKind, message: Seq<char>) -> bool {
    failure.kind == kind && failure.message@ == message
}

/// What a request's parameters make of it: the version it asks for, or the
/// reason it is malformed.
pub open spec fn version_asked(data: Map<Seq<char>, Option<Seq<char>>>) -> Result<
    Seq<char>,
    Seq<char>,
> {
    if !data.dom().contains(VERSION_KEY@) {
        Err(MISSING_VERSION@)
    } else {
        match data[VERSION_KEY@] {
            Some(version) => Ok(version),
            None => Err(VERSION_NOT_TEXT@),
        }
    }
}

/// Where a request keeps its header among its parameters.
pub const HEADER_KEY: &'static str = "header";

/// How a request without a header is answered.
pub const NO_HEADER: &'static str = "request has no header";

/// What the parameters of a request hold, as the logic reads them: each key,
/// with the text of its value where that value is a JSON string.
pub uninterp spec fn request_strings(
    request: cooplan_amqp_api::api::input::request::Request,
) -> Map<Seq<char>, Option<Seq<char>>>;

/// What reading the header of a request gives: the action it names, or the
/// message of the failure to read it.
pub uninterp spec fn header_action(
    request: cooplan_amqp_api::api::input::request::Request,
) -> Result<Seq<char>, Seq<char>>;

/// The text an outcome carries: what succeeded, or the failure's message.
pub open spec fn outcome_text(outcome: Result<String, RequestFailure>) -> Result<
    Seq<char>,
    Seq<char>,
> {
    match outcome {
        Ok(text) => Ok(text@),
        Err(failure) => Err(failure.message@),
    }
}

/// Parameters without a header are answered with "request has no header".
pub open spec fn missing_header_answered(
    parameters: Map<Seq<char>, Option<Seq<char>>>,
    outcome: Result<String, RequestFailure>,
) -> bool {
    !parameters.dom().contains(HEADER_KEY@) ==> outcome_text(outcome) == Err::<
        Seq<char>,
        Seq<char>,
    >(NO_HEADER@)
}

/// The action of a request, and the reason its header could not be read.
///
/// Calls `Request::try_get_header`, which reads the header from the request's
/// parameters, and `RequestHeader::action`; a failure is converted as
/// `RequestResultError::from` converts it. What comes back depends on the
/// request alone and is named `header_action`. `try_get_header` fails only
/// with malformed-request failures, which that conversion keeps as such, and
/// it fails with "request has no header" when the parameters have no header.
#[verifier::external_body]
pub(crate) fn request_action(
    request: &cooplan_amqp_api::api::input::request::Request,
) -> (action: Result<String, RequestFailure>)
    ensures
        outcome_text(action) == header_action(*request),
        action matches Err(failure) ==> failure.kind == FailureKind::MalformedRequest,
        missing_header_answered(request_strings(*request), action),
{
    match request.try_get_header() {
        Ok(header) => Ok(header.action().to_string()),
        Err(error) => {
            let converted = RequestResultError::from(error);
            let kind = match converted.kind() {
                RequestResultErrorKind::InternalFailure => FailureKind::InternalFailure,
                RequestResultErrorKind::MalformedRequest => FailureKind::MalformedRequest,
            };
            Err(RequestFailure { kind, message: converted.message().to_string() })
        },
    }
}

/// The parameters of a request.
///
/// Gives the `data` field of the request, whose contents are named
/// `request_strings`.
#[verifier::external_body]
pub(crate) fn request_data(
    request: &cooplan_amqp_api::api::input::request::Request,
) -> (data: &serde_json::Map<String, serde_json::Value>)
    ensures
        json_object_strings(*data) == request_strings(*request),
{
    &request.data
}

/// A request to be served.
#[verifier::external_type_specification]
#[verifier::external_body]
pub struct ExRequest(cooplan_amqp_api::api::input::request::Request);

/// Accepts the `get` action; any other is answered as malformed.
pub fn route_action(action: &String) -> (routed: Result<(), RequestFailure>)
    ensures
        routed is Ok <==> action@ == GET_ACTION@,
        routed matches Err(failure) ==> failure_is(
            failure,
            FailureKind::MalformedRequest,
            INVALID_ACTION@ + action@,
        ),
{
    let get = String::from_str(GET_ACTION);
    if *action == get {
        Ok(())
    } else {
        Err(
            RequestFailure {
                kind: FailureKind::MalformedRequest,
                message: message_with_detail(INVALID_ACTION, action.as_str()),
            },
        )
    }
}

/// The version a request asks for, read from its `version` parameter.
pub fn version_parameter(data: &serde_json::Map<String, serde_json::Value>) -> (version: Result<
    String,
    RequestFailure,
>)
    ensures
        match version_asked(json_object_strings(*data)) {
            Ok(asked) => version matches Ok(v) && v@ == asked,
            Err(reason) => version matches Err(failure) && failure_is(
                failure,
                FailureKind::MalformedRequest,
                reason,
            ),
        },
        version matches Ok(v) ==> json_object_strings(*data).dom().contains(VERSION_KEY@)
            && json_object_strings(*data)[VERSION_KEY@] == Some(v@),
        json_object_strings(*data).dom().contains(VERSION_KEY@) && json_object_strings(
            *data,
        )[VERSION_KEY@] is Some ==> version is Ok,
{
    match lookup_string(data, VERSION_KEY) {
        Some(Some(version)) => Ok(version),
        Some(None) => Err(
            RequestFailure {
                kind: FailureKind::MalformedRequest,
                message: String::from_str(VERSION_NOT_TEXT),
            },
        ),
        None => Err(
            RequestFailure {
                kind: FailureKind::MalformedRequest,
                message: String::from_str(MISSING_VERSION),
            },
        ),
    }
}

/// Decides what a request asks for, from its action (or the failure to read
/// it) and its parameters: the version to fetch, or the failure it is
/// answered with. A failed header is answered first, then a wrong action,
/// then a missing or malformed version.
pub fn decide(action: Result<String, RequestFailure>, data: &serde_json::Map<
    String,
    serde_json::Value,
>) -> (decision: Result<String, RequestFailure>)
    ensures
        match action {
            Err(failure) => decision == Err::<String, RequestFailure>(failure),
            Ok(name) => if name@ != GET_ACTION@ {
                decision matches Err(failure) && failure_is(
                    failure,
                    FailureKind::MalformedRequest,
                    INVALID_ACTION@ + name@,
                )
            } else {
                match version_asked(json_object_strings(*data)) {
                    Ok(asked) => decision matches Ok(v) && v@ == asked,
                    Err(reason) => decision matches Err(failure) && failure_is(
                        failure,
                        FailureKind::MalformedRequest,
                        reason,
                    ),
                }
            },
        },
        decision matches Ok(v) ==> json_object_strings(*data).dom().contains(VERSION_KEY@)
            && json_object_strings(*data)[VERSION_KEY@] == Some(v@),
{
    match action {
        Err(failure) => Err(failure),
        Ok(name) => match route_action(&name) {
            Err(failure) => Err(failure),
            Ok(()) => version_parameter(data),
        },
    }
}

/// What a request asks for, from what reading its header gave and what its
/// parameters hold: the version to fetch, or the message of the failure it
/// is answered with.
pub open spec fn request_decision(
    header: Result<Seq<char>, Seq<char>>,
    parameters: Map<Seq<char>, Option<Seq<char>>>,
) -> Result<Seq<char>, Seq<char>> {
    match header {
        Err(message) => Err(message),
        Ok(name) => if name != GET_ACTION@ {
            Err(INVALID_ACTION@ + name)
        } else {
            version_asked(parameters)
        },
    }
}

/// The version a `get` request asks for is the text of its `version`
/// parameter, character for character; and whatever version is asked for is
/// that text.
pub proof fn lemma_version_taken_as_given(
    parameters: Map<Seq<char>, Option<Seq<char>>>,
    text: Seq<char>,
)
    ensures
        parameters.dom().contains(VERSION_KEY@) && parameters[VERSION_KEY@] == Some(text) ==> {
            &&& version_asked(parameters) == Ok::<Seq<char>, Seq<char>>(text)
            &&& request_decision(Ok(GET_ACTION@), parameters) == Ok::<Seq<char>, Seq<char>>(text)
        },
        forall|header: Result<Seq<char>, Seq<char>>|
            #[trigger] request_decision(header, parameters) == Ok::<Seq<char>, Seq<char>>(text)
                ==> parameters.dom().contains(VERSION_KEY@) && parameters[VERSION_KEY@] == Some(
                text,
            ),
{
}

/// Decides what a request asks for: the version to fetch, or the failure it
/// is answered with. Its header and parameters are read from the request;
/// every failure is a malformed request, and a request without a header is
/// answered with "request has no header".
pub fn decide_request(request: &cooplan_amqp_api::api::input::request::Request) -> (decision:
    Result<String, RequestFailure>)
    ensures
        match request_decision(header_action(*request), request_strings(*request)) {
            Ok(version) => decision matches Ok(v) && v@ == version,
            Err(message) => decision matches Err(failure) && failure_is(
                failure,
                FailureKind::MalformedRequest,
                message,
            ),
        },
        !request_strings(*request).dom().contains(HEADER_KEY@) ==> (decision matches Err(failure)
            && failure.message@ == NO_HEADER@),
        decision matches Ok(v) ==> request_strings(*request).dom().contains(VERSION_KEY@)
            && request_strings(*request)[VERSION_KEY@] == Some(v@),
{
    let action = request_action(request);
    decide(action, request_data(request))
}

/// What came of asking the storage side for the definition.
pub enum StorageReply {
    /// The request could not be sent; the text of the failure.
    NotSent(String),
    /// No reply came back; the text of the failure.
    NotReceived(String),
    /// The storage side answered.
    Received(Result<cooplan_definitions_lib::definition::Definition, Error>),
}

/// The answer to a request once the definition is turned into JSON: the
/// JSON, or the serialization failure.
pub fn answer_with_json(json: Result<serde_json::Value, String>) -> (answer: Result<
    serde_json::Value,
    RequestFailure,
>)
    ensures
        match json {
            Ok(value) => answer == Ok::<serde_json::Value, RequestFailure>(value),
            Err(detail) => answer matches Err(failure) && failure_is(
                failure,
                FailureKind::InternalFailure,
                SERIALIZATION_FAILURE@ + detail@,
            ),
        },
{
    match json {
        Ok(value) => Ok(value),
        Err(detail) => Err(
            RequestFailure {
                kind: FailureKind::InternalFailure,
                message: message_with_detail(SERIALIZATION_FAILURE, detail.as_str()),
            },
        ),
    }
}

/// The answer to a request from what the storage side gave: the definition
/// as JSON, or an internal failure that tells what went wrong.
pub fn answer(reply: StorageReply) -> (answer: Result<serde_json::Value, RequestFailure>)
    ensures
        match reply {
            StorageReply::NotSent(detail) => answer matches Err(failure) && failure_is(
                failure,
                FailureKind::InternalFailure,
                STORAGE_SEND_FAILURE@ + detail@,
            ),
            StorageReply::NotReceived(detail) => answer matches Err(failure) && failure_is(
                failure,
                FailureKind::InternalFailure,
                STORAGE_RECEIVE_FAILURE@ + detail@,
            ),
            StorageReply::Received(Err(error)) => answer matches Err(failure) && failure_is(
                failure,
                FailureKind::InternalFailure,
                STORAGE_FAILURE@ + error.message@,
            ),
            StorageReply::Received(Ok(definition)) => match definition_json(definition) {
                Ok(value) => answer == Ok::<serde_json::Value, RequestFailure>(value),
                Err(detail) => answer matches Err(failure) && failure_is(
                    failure,
                    FailureKind::InternalFailure,
                    SERIALIZATION_FAILURE@ + detail,
                ),
            },
        },
{
    match reply {
        StorageReply::NotSent(detail) => Err(
            RequestFailure {
                kind: FailureKind::InternalFailure,
                message: message_with_detail(STORAGE_SEND_FAILURE, detail.as_str()),
            },
        ),
        StorageReply::NotReceived(detail) => Err(
            RequestFailure {
                kind: FailureKind::InternalFailure,
                message: message_with_detail(STORAGE_RECEIVE_FAILURE, detail.as_str()),
            },
        ),
        StorageReply::Received(Err(error)) => Err(
            RequestFailure {
                kind: FailureKind::InternalFailure,
                message: message_with_detail(STORAGE_FAILURE, error.message.as_str()),
            },
        ),
        StorageReply::Received(Ok(definition)) => {
            let json = definition_to_json(definition);
            answer_with_json(json)
        },
    }
}

} // verus!
