//! How a failure is shown to the one who asked: a status and a message.

use crate::convert::reader::{
    ItemReaderError, LevelSpecificItemReaderError, LevelSpecificResponseReaderError,
    ReaderErrorLevel,
};
use crate::identifier::{uuid_parsed, Uuid};
use crate::query::QueryItemError;
use crate::rest_types::NewBank;
use vstd::prelude::*;
use vstd::string::*;

verus! {

/// The request was wrong.
pub const BAD_REQUEST: u16 = 400;

/// The service failed.
pub const INTERNAL_SERVER_ERROR: u16 = 500;

/// The service behind the gateway answered with an error.
pub const BAD_GATEWAY: u16 = 502;

/// The service behind the gateway could not be reached.
pub const SERVICE_UNAVAILABLE: u16 = 503;

/// The largest number of banks in one request.
pub const MAX_BANKS: usize = 500;

/// A failure as it is written into an answer.
#[derive(Debug)]
pub struct SerializableError {
    pub error: String,
}

/// What is wrong with a request to read.
#[derive(Debug)]
pub enum RequestError {
    InvalidUuid(String),
}

/// Why a request to read failed.
#[derive(Debug)]
pub enum Error {
    InternalServer,
    RequestError(RequestError),
    QueryItemError(QueryItemError),
}

/// Why the gateway could not pass a request on.
#[derive(Debug)]
pub enum GatewayError {
    InternalServer,
    /// The service could not be reached; the text describes the failure.
    Transport(String),
    /// The service answered with an error; the text describes it.
    Status(String),
}

/// A rule on the banks of a request that is broken.
#[derive(Debug)]
pub struct FieldViolation {
    pub field: String,
    pub description: String,
}

/// The name of a level.
pub open spec fn level_name(level: ReaderErrorLevel) -> Seq<char> {
    match level {
        ReaderErrorLevel::Bank => "Bank"@,
        ReaderErrorLevel::Deposit => "Deposit"@,
        ReaderErrorLevel::Portfolio => "Portfolio"@,
    }
}

/// The text of an error with an attribute.
pub open spec fn item_reader_error_text(error: ItemReaderError) -> Seq<char> {
    match error {
        ItemReaderError::MissingAttribute(name) => "Missing attribute: "@ + name@,
        ItemReaderError::ConversionToStringError(name) =>
            "Conversion to string error for attribute: "@ + name@,
    }
}

/// The text of an error with a stored item.
pub open spec fn item_error_text(error: LevelSpecificItemReaderError) -> Seq<char> {
    match error {
        LevelSpecificItemReaderError::Error { source, level } => level_name(level) + " level: "@
            + item_reader_error_text(source),
    }
}

/// The text of an error with the outcome of a stored item.
pub open spec fn response_error_text(error: LevelSpecificResponseReaderError) -> Seq<char> {
    match error {
        LevelSpecificResponseReaderError::JsonError { source, level } => level_name(level)
            + " level conversion SerdeJsonError: "@ + source@,
    }
}

/// The text of an error with a query.
pub open spec fn query_error_text(error: QueryItemError) -> Seq<char> {
    match error {
        QueryItemError::DynamoDbSdkError(reason) => "QueryItemError with DynamoDbSdkError error: "@
            + reason@,
        QueryItemError::QueryNoItemFound(place) => "QueryItemError with QueryNoItemFound error: "@
            + place@,
        QueryItemError::LevelSpecificItemReaderError(e) =>
            "QueryItemError with item reader error: "@ + item_error_text(e),
        QueryItemError::LevelSpecificResponseReaderError(e) =>
            "QueryItemError with response reader error: "@ + response_error_text(e),
    }
}

/// The status of a failed request to read.
pub open spec fn status_of(error: Error) -> u16 {
    match error {
        Error::RequestError(_) => BAD_REQUEST,
        Error::QueryItemError(_) => INTERNAL_SERVER_ERROR,
        Error::InternalServer => INTERNAL_SERVER_ERROR,
    }
}

/// The message of a failed request to read.
pub open spec fn message_of(error: Error) -> Seq<char> {
    match error {
        Error::RequestError(RequestError::InvalidUuid(uuid)) => "Bad request error: "@
            + "Invalid Uuid: "@ + uuid@,
        Error::QueryItemError(e) => "Query item error: "@ + query_error_text(e),
        Error::InternalServer => "Internal Server Error"@,
    }
}

fn level_text(level: ReaderErrorLevel) -> (text: &'static str)
    ensures
        text@ == level_name(level),
{
    match level {
        ReaderErrorLevel::Bank => "Bank",
        ReaderErrorLevel::Deposit => "Deposit",
        ReaderErrorLevel::Portfolio => "Portfolio",
    }
}

fn item_error_to_text(error: &LevelSpecificItemReaderError) -> (text: String)
    ensures
        text@ == item_error_text(*error),
{
    match error {
        LevelSpecificItemReaderError::Error { source, level } => {
            let source_text = match source {
                ItemReaderError::MissingAttribute(name) => String::from_str(
                    "Missing attribute: ",
                ).concat(name.as_str()),
                ItemReaderError::ConversionToStringError(name) => String::from_str(
                    "Conversion to string error for attribute: ",
                ).concat(name.as_str()),
            };
            let text = String::from_str(level_text(*level)).concat(" level: ").concat(
                source_text.as_str(),
            );
            assert(text@ =~= item_error_text(*error));
            text
        },
    }
}

fn response_error_to_text(error: &LevelSpecificResponseReaderError) -> (text: String)
    ensures
        text@ == response_error_text(*error),
{
    match error {
        LevelSpecificResponseReaderError::JsonError { source, level } => String::from_str(
            level_text(*level),
        ).concat(" level conversion SerdeJsonError: ").concat(source.as_str()),
    }
}

impl QueryItemError {
    /// The error's text.
    pub fn to_text(&self) -> (text: String)
        ensures
            text@ == query_error_text(*self),
    {
        match self {
            QueryItemError::DynamoDbSdkError(reason) => String::from_str(
                "QueryItemError with DynamoDbSdkError error: ",
            ).concat(reason.as_str()),
            QueryItemError::QueryNoItemFound(place) => String::from_str(
                "QueryItemError with QueryNoItemFound error: ",
            ).concat(place.as_str()),
            QueryItemError::LevelSpecificItemReaderError(e) => String::from_str(
                "QueryItemError with item reader error: ",
            ).concat(item_error_to_text(e).as_str()),
            QueryItemError::LevelSpecificResponseReaderError(e) => String::from_str(
                "QueryItemError with response reader error: ",
            ).concat(response_error_to_text(e).as_str()),
        }
    }
}

impl Error {
    /// The status and the message with which a failed request to read is
    /// answered: a wrong request is the asker's fault, anything else the
    /// service's.
    pub fn into_response(self) -> (r: (u16, SerializableError))
        ensures
            r.0 == status_of(self),
            r.1.error@ == message_of(self),
    {
        let (status, error_message) = match &self {
            Error::RequestError(RequestError::InvalidUuid(uuid)) => {
                let message = String::from_str("Bad request error: ").concat(
                    "Invalid Uuid: ",
                ).concat(uuid.as_str());
                (BAD_REQUEST, message)
            },
            Error::QueryItemError(err) => (
                INTERNAL_SERVER_ERROR,
                String::from_str("Query item error: ").concat(err.to_text().as_str()),
            ),
            Error::InternalServer => (
                INTERNAL_SERVER_ERROR,
                String::from_str("Internal Server Error"),
            ),
        };
        (status, SerializableError { error: error_message })
    }
}

impl GatewayError {
    /// The status and the message with which the gateway answers where it
    /// could not pass a request on.
    pub fn into_response(self) -> (r: (u16, SerializableError))
        ensures
            match self {
                GatewayError::InternalServer => r.0 == INTERNAL_SERVER_ERROR && r.1.error@
                    == "Internal Server Error"@,
                GatewayError::Transport(described) => r.0 == SERVICE_UNAVAILABLE && r.1.error@
                    == "Connect Server Error "@ + described@,
                GatewayError::Status(described) => r.0 == BAD_GATEWAY && r.1.error@
                    == "gRPC Server Error "@ + described@,
            },
    {
        let (status, error_message) = match &self {
            GatewayError::InternalServer => (
                INTERNAL_SERVER_ERROR,
                String::from_str("Internal Server Error"),
            ),
            GatewayError::Transport(described) => (
                SERVICE_UNAVAILABLE,
                String::from_str("Connect Server Error ").concat(described.as_str()),
            ),
            GatewayError::Status(described) => (
                BAD_GATEWAY,
                String::from_str("gRPC Server Error ").concat(described.as_str()),
            ),
        };
        (status, SerializableError { error: error_message })
    }
}

/// Checks that a text is an identifier.
pub fn validate_uuid(uuid: &str) -> (r: Result<(), RequestError>)
    ensures
        match r {
            Ok(_) => uuid_parsed(uuid@) is Some,
            Err(RequestError::InvalidUuid(text)) => uuid_parsed(uuid@) is None && text@ == uuid@,
        },
{
    if Uuid::parse(uuid).is_none() {
        return Err(RequestError::InvalidUuid(String::from_str(uuid)));
    }
    Ok(())
}

/// Checks the banks of a request before anything is calculated: there must
/// be at least one and at most 500.
pub fn bad_request_errors(new_banks: &[NewBank]) -> (r: Result<(), FieldViolation>)
    ensures
        r is Ok <==> 1 <= new_banks@.len() <= MAX_BANKS,
        r matches Err(violation) ==> violation.field@ == "new_banks"@ && violation.description@
            == (if new_banks@.len() == 0 {
            "name_banks cannot be empty"@
        } else {
            "too many banks provided; must be less than upper limit of 500"@
        }),
{
    if new_banks.len() == 0 {
        Err(
            FieldViolation {
                field: String::from_str("new_banks"),
                description: String::from_str("name_banks cannot be empty"),
            },
        )
    } else if new_banks.len() > MAX_BANKS {
        Err(
            FieldViolation {
                field: String::from_str("new_banks"),
                description: String::from_str(
                    "too many banks provided; must be less than upper limit of 500",
                ),
            },
        )
    } else {
        Ok(())
    }
}

} // verus!
