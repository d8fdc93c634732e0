//! The errors that the flows answer with.

use vstd::prelude::*;

verus! {

/// An error as the caller of the API sees it.
#[derive(Debug)]
pub enum ApiErrorResponse {
    MerchantAccountNotFound,
    MerchantConnectorAccountNotFound { id: String },
    /// The connector cannot take part in the flow.
    FlowNotSupported { flow: String, connector: String },
    InvalidRequestData { message: String },
    DuplicateMerchantConnectorAccount { profile_id: String, connector_label: String },
    InternalServerError,
    /// An error that another part of the system decided on, passed on as it came.
    Other { code: String, message: String },
}

/// What an `ApiErrorResponse` says.
pub enum ApiError {
    MerchantAccountNotFound,
    MerchantConnectorAccountNotFound { id: Seq<char> },
    FlowNotSupported { flow: Seq<char>, connector: Seq<char> },
    InvalidRequestData { message: Seq<char> },
    DuplicateMerchantConnectorAccount { profile_id: Seq<char>, connector_label: Seq<char> },
    InternalServerError,
    Other { code: Seq<char>, message: Seq<char> },
}

impl View for ApiErrorResponse {
    type V = ApiError;

    open spec fn view(&self) -> ApiError {
        match *self {
            ApiErrorResponse::MerchantAccountNotFound => ApiError::MerchantAccountNotFound,
            ApiErrorResponse::MerchantConnectorAccountNotFound { id } => {
                ApiError::MerchantConnectorAccountNotFound { id: id@ }
            },
            ApiErrorResponse::FlowNotSupported { flow, connector } => {
                ApiError::FlowNotSupported { flow: flow@, connector: connector@ }
            },
            ApiErrorResponse::InvalidRequestData { message } => {
                ApiError::InvalidRequestData { message: message@ }
            },
            ApiErrorResponse::DuplicateMerchantConnectorAccount { profile_id, connector_label } => {
                ApiError::DuplicateMerchantConnectorAccount {
                    profile_id: profile_id@,
                    connector_label: connector_label@,
                }
            },
            ApiErrorResponse::InternalServerError => ApiError::InternalServerError,
            ApiErrorResponse::Other { code, message } => {
                ApiError::Other { code: code@, message: message@ }
            },
        }
    }
}

/// Why the store could not do what it was asked.
#[derive(Debug)]
pub enum StorageError {
    /// There is no such record.
    NotFound,
    /// Anything else, with the error to answer with.
    Other(ApiErrorResponse),
}

/// The error to answer with when a lookup failed: `not_found` if there is no such record.
pub open spec fn lookup_error(error: StorageError, not_found: ApiError) -> ApiError {
    match error {
        StorageError::NotFound => not_found,
        StorageError::Other(other) => other@,
    }
}

impl StorageError {
    /// Turns a failed lookup into the error to answer with.
    pub fn to_not_found_response(self, not_found: ApiErrorResponse) -> (error: ApiErrorResponse)
        ensures
            error@ == lookup_error(self, not_found@),
    {
        match self {
            StorageError::NotFound => not_found,
            StorageError::Other(other) => other,
        }
    }
}

} // verus!
