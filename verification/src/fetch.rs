//! The flow that lists the webhooks of a connector account.
//!
//! It runs as the registration flow does: an action, its outcome as an event, the next action.

use crate::api_models::{ConnectorWebhookListResponse, ConnectorWebhookResponse};
use crate::domain::MerchantConnectorAccount;
use crate::enums::ConnectorWebhookEventType;
use crate::errors::{lookup_error, ApiError, ApiErrorResponse, StorageError};
use crate::json::Json;
use crate::transformers::{
    get_connector_webhook_list_response, has_unreadable, lists_webhooks, stored_details,
};
use vstd::prelude::*;

verus! {

/// What is asked of the flow.
#[derive(Debug)]
pub struct FetchRequest {
    pub merchant_id: String,
    /// The profile that the caller was authenticated for, if any.
    pub profile_id: Option<String>,
    pub merchant_connector_id: String,
}

/// What the flow wants done next.
#[derive(Debug)]
pub enum FetchAction {
    LoadKeyStore { merchant_id: String },
    LoadAccount { merchant_id: String, merchant_connector_id: String },
    /// Check the authenticated profile against that of the account.
    CheckProfile { profile_id: Option<String> },
    Finish(Result<ConnectorWebhookListResponse, ApiErrorResponse>),
}

/// What came of an action.
#[derive(Debug)]
pub enum FetchEvent {
    KeyStore(Result<(), StorageError>),
    Account(Result<MerchantConnectorAccount, StorageError>),
    Profile(Result<(), ApiErrorResponse>),
}

/// What the flow waits for.
#[derive(Debug)]
pub enum FetchStage {
    KeyStore,
    Account,
    /// The verdict on the profile; the webhooks are at hand by then.
    Profile { account: MerchantConnectorAccount, webhooks: Vec<ConnectorWebhookResponse> },
    Finished,
}

/// A listing under way.
#[derive(Debug)]
pub struct FetchFlow {
    pub request: FetchRequest,
    pub stage: FetchStage,
}

/// The flow has finished with this error.
pub open spec fn refused(after: FetchFlow, action: FetchAction, error: ApiError) -> bool {
    &&& after.stage is Finished
    &&& action matches FetchAction::Finish(Err(response)) && response@ == error
}

/// The account has come: its webhooks are listed, and the profile is to be checked; or they cannot
/// be listed, which is an internal error whatever the profile.
pub open spec fn took_account<F: Fn(&serde_json::Value) -> Option<ConnectorWebhookEventType>>(
    parse: F,
    account: MerchantConnectorAccount,
    after: FetchFlow,
    action: FetchAction,
) -> bool {
    match stored_details(account.connector_webhook_registration_details) {
        Json::Object(stored) => {
            ||| {
                &&& after.stage matches FetchStage::Profile { account: kept, webhooks } && {
                    &&& kept == account
                    &&& lists_webhooks(parse, stored, webhooks@)
                }
                &&& action == FetchAction::CheckProfile { profile_id: after.request.profile_id }
            }
            ||| has_unreadable(parse, stored) && refused(
                after,
                action,
                ApiError::InternalServerError,
            )
        },
        _ => refused(after, action, ApiError::InternalServerError),
    }
}

impl FetchFlow {
    /// The flow waits for an event of this kind.
    pub open spec fn awaiting(self, event: FetchEvent) -> bool {
        match self.stage {
            FetchStage::KeyStore => event is KeyStore,
            FetchStage::Account => event is Account,
            FetchStage::Profile { .. } => event is Profile,
            FetchStage::Finished => false,
        }
    }

    /// The flow at its start, and its first action.
    pub open spec fn started(self, action: FetchAction) -> bool {
        &&& self.stage is KeyStore
        &&& action == FetchAction::LoadKeyStore { merchant_id: self.request.merchant_id }
    }

    /// On `event` the flow becomes `after` and wants `action` done.
    pub open spec fn steps_to<F: Fn(&serde_json::Value) -> Option<ConnectorWebhookEventType>>(
        self,
        parse: F,
        event: FetchEvent,
        after: FetchFlow,
        action: FetchAction,
    ) -> bool {
        &&& self.awaiting(event)
        &&& after.request == self.request
        &&& match (self.stage, event) {
            (FetchStage::KeyStore, FetchEvent::KeyStore(found)) => match found {
                Ok(_) => {
                    &&& after.stage is Account
                    &&& action == FetchAction::LoadAccount {
                        merchant_id: self.request.merchant_id,
                        merchant_connector_id: self.request.merchant_connector_id,
                    }
                },
                Err(error) => refused(
                    after,
                    action,
                    lookup_error(error, ApiError::MerchantAccountNotFound),
                ),
            },
            (FetchStage::Account, FetchEvent::Account(found)) => match found {
                Ok(account) => took_account(parse, account, after, action),
                Err(error) => refused(
                    after,
                    action,
                    lookup_error(
                        error,
                        ApiError::MerchantConnectorAccountNotFound {
                            id: self.request.merchant_connector_id@,
                        },
                    ),
                ),
            },
            (FetchStage::Profile { account, webhooks }, FetchEvent::Profile(verdict)) => {
                match verdict {
                    Ok(_) => {
                        &&& after.stage is Finished
                        &&& action == FetchAction::Finish(
                            Ok(
                                ConnectorWebhookListResponse {
                                    connector: account.connector_name,
                                    webhooks,
                                },
                            ),
                        )
                    },
                    Err(error) => refused(after, action, error@),
                }
            },
            _ => false,
        }
    }

    /// The account that the flow has loaded, for the check of the profile.
    pub fn account(&self) -> (account: Option<&MerchantConnectorAccount>)
        ensures
            match account {
                Some(account) => self.stage is Profile && self.stage->account == *account,
                None => !(self.stage is Profile),
            },
    {
        match &self.stage {
            FetchStage::Profile { account, .. } => Some(account),
            _ => None,
        }
    }

    /// Whether the flow waits for an event of this kind.
    pub fn awaits(&self, event: &FetchEvent) -> (awaited: bool)
        ensures
            awaited == self.awaiting(*event),
    {
        match (&self.stage, event) {
            (FetchStage::KeyStore, FetchEvent::KeyStore(_)) => true,
            (FetchStage::Account, FetchEvent::Account(_)) => true,
            (FetchStage::Profile { .. }, FetchEvent::Profile(_)) => true,
            _ => false,
        }
    }

    /// Ends the flow with an error.
    fn refuse(request: FetchRequest, error: ApiErrorResponse) -> (next: (FetchFlow, FetchAction))
        ensures
            next.0.request == request,
            refused(next.0, next.1, error@),
    {
        (
            FetchFlow { request, stage: FetchStage::Finished },
            FetchAction::Finish(Err(error)),
        )
    }

    /// Takes the outcome of the last action, and says what to do next. `parse` reads the event type
    /// of a stored webhook.
    pub fn step<F: Fn(&serde_json::Value) -> Option<ConnectorWebhookEventType>>(
        self,
        event: FetchEvent,
        parse: &F,
    ) -> (next: (FetchFlow, FetchAction))
        requires
            self.awaiting(event),
            forall|value: &serde_json::Value| call_requires(*parse, (value,)),
        ensures
            self.steps_to(*parse, event, next.0, next.1),
    {
        let FetchFlow { request, stage } = self;
        match (stage, event) {
            (FetchStage::KeyStore, FetchEvent::KeyStore(found)) => match found {
                Ok(_) => {
                    let action = FetchAction::LoadAccount {
                        merchant_id: request.merchant_id.clone(),
                        merchant_connector_id: request.merchant_connector_id.clone(),
                    };
                    (FetchFlow { request, stage: FetchStage::Account }, action)
                },
                Err(error) => Self::refuse(
                    request,
                    error.to_not_found_response(ApiErrorResponse::MerchantAccountNotFound),
                ),
            },
            (FetchStage::Account, FetchEvent::Account(found)) => {
                let account = match found {
                    Ok(account) => account,
                    Err(error) => {
                        let not_found = ApiErrorResponse::MerchantConnectorAccountNotFound {
                            id: request.merchant_connector_id.clone(),
                        };
                        return Self::refuse(request, error.to_not_found_response(not_found));
                    },
                };
                match get_connector_webhook_list_response(
                    &account.connector_webhook_registration_details,
                    parse,
                ) {
                    Ok(webhooks) => {
                        let profile_id: Option<String> = match &request.profile_id {
                            Some(profile_id) => Some(profile_id.clone()),
                            None => None,
                        };
                        (
                            FetchFlow { request, stage: FetchStage::Profile { account, webhooks } },
                            FetchAction::CheckProfile { profile_id },
                        )
                    },
                    Err(error) => Self::refuse(request, error),
                }
            },
            (FetchStage::Profile { account, webhooks }, FetchEvent::Profile(verdict)) => {
                match verdict {
                    Ok(_) => {
                        let response = ConnectorWebhookListResponse {
                            connector: account.connector_name,
                            webhooks,
                        };
                        (
                            FetchFlow { request, stage: FetchStage::Finished },
                            FetchAction::Finish(Ok(response)),
                        )
                    },
                    Err(error) => Self::refuse(request, error),
                }
            },
            _ => Self::refuse(request, ApiErrorResponse::InternalServerError),
        }
    }
}

/// Starts the listing of the webhooks of a connector account.
pub fn fetch_connector_webhook(request: FetchRequest) -> (start: (FetchFlow, FetchAction))
    ensures
        start.0.request == request,
        start.0.started(start.1),
{
    let action = FetchAction::LoadKeyStore { merchant_id: request.merchant_id.clone() };
    (FetchFlow { request, stage: FetchStage::KeyStore }, action)
}

} // verus!
