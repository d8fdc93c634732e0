//! The registration flow.
//!
//! The flow itself does no I/O. It starts with an action; whoever runs it performs the action and
//! hands the outcome back as an event, and gets the next action, until the flow finishes. One step
//! of it is `RegistrationFlow::step`.
//!
//! 1. Load the merchant's key store and the connector account, and check the profile.
//! 2. Resolve the connector, and check that it takes registrations and supports the scope.
//! 3. Ask the connector for its registration plan for the scope and the payment method types that
//!    the account has enabled: one entry for each call to make.
//! 4. Make the calls one by one, and turn each reply into a result.
//! 5. After each call that brought a webhook ID, add it to the account record.
//! 6. Answer with all the results.

use crate::api_models::{
    ConnectorWebhookRegisterRequest, RegisterConnectorWebhookResponse, Scope, ScopeIdentifier,
    WebhookRegistrationResult,
};
use crate::domain::{
    ConnectorData, ConnectorReply, ConnectorWebhookRegisterRouterData, MerchantConnectorAccount,
    MerchantConnectorAccountUpdate, PaymentMethodsEnabled, PlaceholderIds,
};
use crate::enums::PaymentMethodType;
use crate::errors::{lookup_error, ApiError, ApiErrorResponse, StorageError};
use crate::transformers::{
    adds_webhook, all_listed_types, construct_connector_webhook_registration_details,
    construct_connector_webhook_registration_response, construct_webhook_register_response,
    construct_webhook_register_router_data, construct_webhook_registration_result,
    determine_scope_type, enabled_documents, extract_requested_identifiers, flow_not_supported,
    get_enabled_payment_method_types, parses_documents, requested_identifiers, result_of,
    router_data, scope_not_supported, scope_type_of, stored_details, validate_auto_configuration,
    validate_webhook_registration_request,
};
use vstd::prelude::*;

verus! {

/// What is asked of the flow.
#[derive(Debug)]
pub struct RegistrationRequest {
    pub tenant_id: String,
    pub merchant_id: String,
    /// The profile that the caller was authenticated for, if any.
    pub profile_id: Option<String>,
    pub merchant_connector_id: String,
    pub request: ConnectorWebhookRegisterRequest,
    pub placeholders: PlaceholderIds,
}

/// What the flow wants done next.
#[derive(Debug)]
pub enum RegistrationAction {
    LoadKeyStore { merchant_id: String },
    LoadAccount { merchant_id: String, merchant_connector_id: String },
    /// Check the authenticated profile against that of the account.
    CheckProfile { profile_id: Option<String> },
    ResolveConnector { connector_name: String, merchant_connector_id: String },
    /// Ask the connector for its registration plan.
    MakePlan { scope: Scope, payment_method_types: Vec<PaymentMethodType> },
    CallConnector { data: ConnectorWebhookRegisterRouterData },
    UpdateAccount { update: MerchantConnectorAccountUpdate },
    Finish(Result<RegisterConnectorWebhookResponse, ApiErrorResponse>),
}

/// What came of an action.
#[derive(Debug)]
pub enum RegistrationEvent {
    KeyStore(Result<(), StorageError>),
    Account(Result<MerchantConnectorAccount, StorageError>),
    Profile(Result<(), ApiErrorResponse>),
    Connector(Result<ConnectorData, ApiErrorResponse>),
    Plan(Vec<(ScopeIdentifier, String)>),
    /// The reply of the connector, or the error to answer with if the call could not be made.
    Reply(Result<ConnectorReply, ApiErrorResponse>),
    Update(Result<(), StorageError>),
}

/// How far the calls of a plan have come.
#[derive(Debug)]
pub struct Progress {
    /// The account, with the webhooks of the calls so far.
    pub account: MerchantConnectorAccount,
    pub plan: Vec<(ScopeIdentifier, String)>,
    /// The results of the calls that are done; the next call is for the plan's entry after them.
    pub results: Vec<WebhookRegistrationResult>,
}

impl Progress {
    /// There is a call under way.
    pub open spec fn unfinished(self) -> bool {
        self.results@.len() < self.plan@.len()
    }

    /// The plan's entry for the call under way.
    pub open spec fn current(self) -> (ScopeIdentifier, String) {
        self.plan@[self.results@.len() as int]
    }
}

/// What the flow waits for.
#[derive(Debug)]
pub enum RegistrationStage {
    KeyStore,
    Account,
    Profile { account: MerchantConnectorAccount },
    Connector { account: MerchantConnectorAccount },
    /// The plan that shows whether the scope is supported.
    Support { account: MerchantConnectorAccount, connector: ConnectorData },
    /// The plan to carry out.
    Plan { account: MerchantConnectorAccount },
    Reply { progress: Progress },
    Update { progress: Progress, result: WebhookRegistrationResult },
    Finished,
}

/// A registration under way.
#[derive(Debug)]
pub struct RegistrationFlow {
    pub request: RegistrationRequest,
    pub stage: RegistrationStage,
}

/// The flow has finished with this error.
pub open spec fn failed(
    after: RegistrationFlow,
    action: RegistrationAction,
    error: ApiError,
) -> bool {
    &&& after.stage is Finished
    &&& action matches RegistrationAction::Finish(Err(response)) && response@ == error
}

/// The flow has finished with these results.
pub open spec fn answered(
    after: RegistrationFlow,
    action: RegistrationAction,
    results: Seq<WebhookRegistrationResult>,
) -> bool {
    &&& after.stage is Finished
    &&& action matches RegistrationAction::Finish(Ok(response)) && {
        &&& response.scope_type == scope_type_of(after.request.request.scope@)
        &&& response.requested@ == requested_identifiers(after.request.request.scope@)
        &&& response.results@ == results
    }
}

/// The flow has asked for a plan for the requested scope and these payment method types.
pub open spec fn asks_for_plan(
    after: RegistrationFlow,
    action: RegistrationAction,
    types: Seq<PaymentMethodType>,
) -> bool {
    action matches RegistrationAction::MakePlan { scope, payment_method_types } && {
        &&& scope@ == after.request.request.scope@
        &&& payment_method_types@ == types
    }
}

/// The flow has asked for a plan for the requested scope and the payment method types that `parse`
/// finds enabled for the account.
pub open spec fn asks_for_enabled_types<
    F: Fn(&serde_json::Value) -> Option<PaymentMethodsEnabled>,
>(
    parse: F,
    after: RegistrationFlow,
    action: RegistrationAction,
    account: MerchantConnectorAccount,
) -> bool {
    exists|methods: Seq<Option<PaymentMethodsEnabled>>| #[trigger]
        parses_documents(parse, enabled_documents(account), methods) && asks_for_plan(
            after,
            action,
            all_listed_types(methods),
        )
}

/// After the calls with these results, the flow has made the next call of the plan, or answered if
/// there is none left.
pub open spec fn continued(
    after: RegistrationFlow,
    action: RegistrationAction,
    account: MerchantConnectorAccount,
    plan: Seq<(ScopeIdentifier, String)>,
    results: Seq<WebhookRegistrationResult>,
) -> bool {
    if results.len() == plan.len() {
        answered(after, action, results)
    } else {
        match account.connector_account_details {
            Ok(auth_type) => {
                &&& after.stage matches RegistrationStage::Reply { progress } && {
                    &&& progress.account == account
                    &&& progress.plan@ == plan
                    &&& progress.results@ == results
                }
                &&& action == RegistrationAction::CallConnector {
                    data: router_data(
                        after.request.tenant_id,
                        after.request.placeholders,
                        account,
                        auth_type,
                        plan[results.len() as int].0,
                        plan[results.len() as int].1,
                    ),
                }
            },
            Err(_) => failed(after, action, ApiError::InternalServerError),
        }
    }
}

/// A reply has come for the call under way: a webhook ID that it brings goes to the account
/// record, and the flow goes on with the account as it is then; else it goes on at once.
pub open spec fn took_reply(
    after: RegistrationFlow,
    action: RegistrationAction,
    progress: Progress,
    reply: ConnectorReply,
) -> bool {
    let result = result_of(progress.current().0, reply);
    let details = progress.account.connector_webhook_registration_details;
    match result.connector_webhook_id {
        Some(id) => if stored_details(details) is Object {
            &&& action matches RegistrationAction::UpdateAccount { update } && {
                &&& adds_webhook(update, details, id@, progress.current().0)
                &&& after.stage matches RegistrationStage::Update { progress: next, result: noted }
                    && {
                    &&& noted == result
                    &&& next.account == progress.account.updated(update)
                    &&& next.plan@ == progress.plan@
                    &&& next.results@ == progress.results@
                }
            }
        } else {
            failed(after, action, ApiError::InternalServerError)
        },
        None => continued(
            after,
            action,
            progress.account,
            progress.plan@,
            progress.results@.push(result),
        ),
    }
}

impl RegistrationFlow {
    /// A flow that can occur: while a call is under way, the plan has an entry for it.
    pub open spec fn wf(self) -> bool {
        match self.stage {
            RegistrationStage::Reply { progress } => progress.unfinished(),
            RegistrationStage::Update { progress, .. } => progress.unfinished(),
            _ => true,
        }
    }

    /// The flow waits for an event of this kind.
    pub open spec fn awaiting(self, event: RegistrationEvent) -> bool {
        match self.stage {
            RegistrationStage::KeyStore => event is KeyStore,
            RegistrationStage::Account => event is Account,
            RegistrationStage::Profile { .. } => event is Profile,
            RegistrationStage::Connector { .. } => event is Connector,
            RegistrationStage::Support { .. } => event is Plan,
            RegistrationStage::Plan { .. } => event is Plan,
            RegistrationStage::Reply { .. } => event is Reply,
            RegistrationStage::Update { .. } => event is Update,
            RegistrationStage::Finished => false,
        }
    }

    /// The flow at its start, and its first action.
    pub open spec fn started(self, action: RegistrationAction) -> bool {
        &&& self.stage is KeyStore
        &&& action == RegistrationAction::LoadKeyStore { merchant_id: self.request.merchant_id }
    }

    /// On `event` the flow becomes `after` and wants `action` done.
    pub open spec fn steps_to<F: Fn(&serde_json::Value) -> Option<PaymentMethodsEnabled>>(
        self,
        parse: F,
        event: RegistrationEvent,
        after: RegistrationFlow,
        action: RegistrationAction,
    ) -> bool {
        &&& self.awaiting(event)
        &&& after.request == self.request
        &&& match (self.stage, event) {
            (RegistrationStage::KeyStore, RegistrationEvent::KeyStore(found)) => match found {
                Ok(_) => {
                    &&& after.stage is Account
                    &&& action == RegistrationAction::LoadAccount {
                        merchant_id: self.request.merchant_id,
                        merchant_connector_id: self.request.merchant_connector_id,
                    }
                },
                Err(error) => failed(
                    after,
                    action,
                    lookup_error(error, ApiError::MerchantAccountNotFound),
                ),
            },
            (RegistrationStage::Account, RegistrationEvent::Account(found)) => match found {
                Ok(account) => {
                    &&& after.stage == (RegistrationStage::Profile { account })
                    &&& action == RegistrationAction::CheckProfile {
                        profile_id: self.request.profile_id,
                    }
                },
                Err(error) => failed(
                    after,
                    action,
                    lookup_error(
                        error,
                        ApiError::MerchantConnectorAccountNotFound {
                            id: self.request.merchant_connector_id@,
                        },
                    ),
                ),
            },
            (RegistrationStage::Profile { account }, RegistrationEvent::Profile(verdict)) => {
                match verdict {
                    Ok(_) => {
                        &&& after.stage == (RegistrationStage::Connector { account })
                        &&& action == RegistrationAction::ResolveConnector {
                            connector_name: account.connector_name,
                            merchant_connector_id: account.merchant_connector_id,
                        }
                    },
                    Err(error) => failed(after, action, error@),
                }
            },
            (RegistrationStage::Connector { account }, RegistrationEvent::Connector(found)) => {
                match found {
                    Ok(connector) => if connector.is_webhook_auto_configuration_supported {
                        &&& after.stage == (RegistrationStage::Support { account, connector })
                        &&& asks_for_plan(after, action, Seq::empty())
                    } else {
                        failed(after, action, flow_not_supported(connector))
                    },
                    Err(error) => failed(after, action, error@),
                }
            },
            (RegistrationStage::Support { account, connector }, RegistrationEvent::Plan(plan)) => {
                if !connector.is_webhook_auto_configuration_supported {
                    failed(after, action, flow_not_supported(connector))
                } else if plan@.len() == 0 {
                    failed(after, action, scope_not_supported())
                } else {
                    &&& after.stage == (RegistrationStage::Plan { account })
                    &&& asks_for_enabled_types(parse, after, action, account)
                }
            },
            (RegistrationStage::Plan { account }, RegistrationEvent::Plan(plan)) => continued(
                after,
                action,
                account,
                plan@,
                Seq::empty(),
            ),
            (RegistrationStage::Reply { progress }, RegistrationEvent::Reply(reply)) => {
                match reply {
                    Ok(reply) => took_reply(after, action, progress, reply),
                    Err(error) => failed(after, action, error@),
                }
            },
            (RegistrationStage::Update { progress, result }, RegistrationEvent::Update(done)) => {
                match done {
                    Ok(_) => continued(
                        after,
                        action,
                        progress.account,
                        progress.plan@,
                        progress.results@.push(result),
                    ),
                    Err(_) => failed(
                        after,
                        action,
                        ApiError::DuplicateMerchantConnectorAccount {
                            profile_id: progress.account.profile_id@,
                            connector_label: progress.account.connector_name@,
                        },
                    ),
                }
            },
            _ => false,
        }
    }

    /// The account that the flow has loaded, if any, with the webhooks that it has added since.
    pub open spec fn loaded_account(self) -> Option<MerchantConnectorAccount> {
        match self.stage {
            RegistrationStage::KeyStore => None,
            RegistrationStage::Account => None,
            RegistrationStage::Profile { account } => Some(account),
            RegistrationStage::Connector { account } => Some(account),
            RegistrationStage::Support { account, .. } => Some(account),
            RegistrationStage::Plan { account } => Some(account),
            RegistrationStage::Reply { progress } => Some(progress.account),
            RegistrationStage::Update { progress, .. } => Some(progress.account),
            RegistrationStage::Finished => None,
        }
    }

    /// The account that the flow has loaded, with the webhooks that it has added since, for the
    /// actions that concern it.
    pub fn account(&self) -> (account: Option<&MerchantConnectorAccount>)
        ensures
            match account {
                Some(account) => self.loaded_account() == Some(*account),
                None => self.loaded_account() is None,
            },
    {
        match &self.stage {
            RegistrationStage::KeyStore => None,
            RegistrationStage::Account => None,
            RegistrationStage::Profile { account } => Some(account),
            RegistrationStage::Connector { account } => Some(account),
            RegistrationStage::Support { account, .. } => Some(account),
            RegistrationStage::Plan { account } => Some(account),
            RegistrationStage::Reply { progress } => Some(&progress.account),
            RegistrationStage::Update { progress, .. } => Some(&progress.account),
            RegistrationStage::Finished => None,
        }
    }

    /// Whether the flow waits for an event of this kind.
    pub fn awaits(&self, event: &RegistrationEvent) -> (awaited: bool)
        ensures
            awaited == self.awaiting(*event),
    {
        match (&self.stage, event) {
            (RegistrationStage::KeyStore, RegistrationEvent::KeyStore(_)) => true,
            (RegistrationStage::Account, RegistrationEvent::Account(_)) => true,
            (RegistrationStage::Profile { .. }, RegistrationEvent::Profile(_)) => true,
            (RegistrationStage::Connector { .. }, RegistrationEvent::Connector(_)) => true,
            (RegistrationStage::Support { .. }, RegistrationEvent::Plan(_)) => true,
            (RegistrationStage::Plan { .. }, RegistrationEvent::Plan(_)) => true,
            (RegistrationStage::Reply { .. }, RegistrationEvent::Reply(_)) => true,
            (RegistrationStage::Update { .. }, RegistrationEvent::Update(_)) => true,
            _ => false,
        }
    }

    /// Ends the flow with an error.
    fn fail(request: RegistrationRequest, error: ApiErrorResponse) -> (next: (
        RegistrationFlow,
        RegistrationAction,
    ))
        ensures
            next.0.request == request,
            failed(next.0, next.1, error@),
    {
        (
            RegistrationFlow { request, stage: RegistrationStage::Finished },
            RegistrationAction::Finish(Err(error)),
        )
    }

    /// Makes the next call of the plan, or answers if there is none left.
    fn proceed(request: RegistrationRequest, progress: Progress) -> (next: (
        RegistrationFlow,
        RegistrationAction,
    ))
        requires
            progress.results@.len() <= progress.plan@.len(),
        ensures
            next.0.request == request,
            next.0.wf(),
            continued(next.0, next.1, progress.account, progress.plan@, progress.results@),
    {
        let done: usize = progress.results.len();
        if done == progress.plan.len() {
            let scope_type = determine_scope_type(&request.request.scope);
            let requested = extract_requested_identifiers(&request.request.scope);
            let response = construct_connector_webhook_registration_response(
                progress.results,
                scope_type,
                requested,
            );
            return (
                RegistrationFlow { request, stage: RegistrationStage::Finished },
                RegistrationAction::Finish(response),
            );
        }
        let identifier = progress.plan[done].0.clone();
        let webhook_url = progress.plan[done].1.clone();
        let scoped_request = crate::domain::ConnectorWebhookRegisterRequest {
            scope: identifier,
            webhook_url: webhook_url.clone(),
        };
        match construct_webhook_register_router_data(
            &request.tenant_id,
            &request.placeholders,
            &progress.account,
            scoped_request,
            webhook_url,
        ) {
            Ok(data) => (
                RegistrationFlow { request, stage: RegistrationStage::Reply { progress } },
                RegistrationAction::CallConnector { data },
            ),
            Err(error) => Self::fail(request, error),
        }
    }

    /// Notes the result of the call under way, and goes on.
    fn note_result(
        request: RegistrationRequest,
        progress: Progress,
        result: WebhookRegistrationResult,
    ) -> (next: (RegistrationFlow, RegistrationAction))
        requires
            progress.unfinished(),
        ensures
            next.0.request == request,
            next.0.wf(),
            continued(
                next.0,
                next.1,
                progress.account,
                progress.plan@,
                progress.results@.push(result),
            ),
    {
        let Progress { account, plan, mut results } = progress;
        results.push(result);
        Self::proceed(request, Progress { account, plan, results })
    }

    /// Takes the reply to the call under way.
    fn take_reply(
        request: RegistrationRequest,
        progress: Progress,
        reply: ConnectorReply,
    ) -> (next: (RegistrationFlow, RegistrationAction))
        requires
            progress.unfinished(),
        ensures
            next.0.request == request,
            next.0.wf(),
            took_reply(next.0, next.1, progress, reply),
    {
        let current: usize = progress.results.len();
        let data = crate::domain::ConnectorWebhookRegisterRequest {
            scope: progress.plan[current].0.clone(),
            webhook_url: progress.plan[current].1.clone(),
        };
        let result = construct_webhook_registration_result(
            progress.plan[current].0.clone(),
            reply,
        );
        let update = match construct_connector_webhook_registration_details(
            &construct_webhook_register_response(&result),
            &progress.account,
            &data,
        ) {
            Ok(update) => update,
            Err(error) => return Self::fail(request, error),
        };
        let keeps_webhook: bool = match &update {
            MerchantConnectorAccountUpdate::ConnectorWebhookRegisterationUpdate {
                connector_webhook_registration_details,
            } => connector_webhook_registration_details.is_some(),
        };
        if keeps_webhook {
            let Progress { account, plan, results } = progress;
            let progress = Progress { account: account.apply(&update), plan, results };
            (
                RegistrationFlow { request, stage: RegistrationStage::Update { progress, result } },
                RegistrationAction::UpdateAccount { update },
            )
        } else {
            Self::note_result(request, progress, result)
        }
    }

    /// Takes the outcome of the last action, and says what to do next. `parse` reads the document
    /// of a payment method that the account has enabled.
    pub fn step<F: Fn(&serde_json::Value) -> Option<PaymentMethodsEnabled>>(
        self,
        event: RegistrationEvent,
        parse: &F,
    ) -> (next: (RegistrationFlow, RegistrationAction))
        requires
            self.wf(),
            self.awaiting(event),
            forall|document: &serde_json::Value| call_requires(*parse, (document,)),
        ensures
            next.0.wf(),
            self.steps_to(*parse, event, next.0, next.1),
    {
        let RegistrationFlow { request, stage } = self;
        match (stage, event) {
            (RegistrationStage::KeyStore, RegistrationEvent::KeyStore(found)) => match found {
                Ok(_) => {
                    let action = RegistrationAction::LoadAccount {
                        merchant_id: request.merchant_id.clone(),
                        merchant_connector_id: request.merchant_connector_id.clone(),
                    };
                    (RegistrationFlow { request, stage: RegistrationStage::Account }, action)
                },
                Err(error) => Self::fail(
                    request,
                    error.to_not_found_response(ApiErrorResponse::MerchantAccountNotFound),
                ),
            },
            (RegistrationStage::Account, RegistrationEvent::Account(found)) => match found {
                Ok(account) => {
                    let profile_id: Option<String> = match &request.profile_id {
                        Some(profile_id) => Some(profile_id.clone()),
                        None => None,
                    };
                    (
                        RegistrationFlow {
                            request,
                            stage: RegistrationStage::Profile { account },
                        },
                        RegistrationAction::CheckProfile { profile_id },
                    )
                },
                Err(error) => {
                    let not_found = ApiErrorResponse::MerchantConnectorAccountNotFound {
                        id: request.merchant_connector_id.clone(),
                    };
                    Self::fail(request, error.to_not_found_response(not_found))
                },
            },
            (RegistrationStage::Profile { account }, RegistrationEvent::Profile(verdict)) => {
                match verdict {
                    Ok(_) => {
                        let action = RegistrationAction::ResolveConnector {
                            connector_name: account.connector_name.clone(),
                            merchant_connector_id: account.merchant_connector_id.clone(),
                        };
                        (
                            RegistrationFlow {
                                request,
                                stage: RegistrationStage::Connector { account },
                            },
                            action,
                        )
                    },
                    Err(error) => Self::fail(request, error),
                }
            },
            (RegistrationStage::Connector { account }, RegistrationEvent::Connector(found)) => {
                let connector = match found {
                    Ok(connector) => connector,
                    Err(error) => return Self::fail(request, error),
                };
                match validate_auto_configuration(&connector) {
                    Ok(_) => {
                        let action = RegistrationAction::MakePlan {
                            scope: request.request.scope.clone(),
                            payment_method_types: Vec::new(),
                        };
                        (
                            RegistrationFlow {
                                request,
                                stage: RegistrationStage::Support { account, connector },
                            },
                            action,
                        )
                    },
                    Err(error) => Self::fail(request, error),
                }
            },
            (RegistrationStage::Support { account, connector }, RegistrationEvent::Plan(plan)) => {
                match validate_webhook_registration_request(&connector, &plan) {
                    Ok(_) => {
                        let action = RegistrationAction::MakePlan {
                            scope: request.request.scope.clone(),
                            payment_method_types: get_enabled_payment_method_types(&account, parse),
                        };
                        (
                            RegistrationFlow { request, stage: RegistrationStage::Plan { account } },
                            action,
                        )
                    },
                    Err(error) => Self::fail(request, error),
                }
            },
            (RegistrationStage::Plan { account }, RegistrationEvent::Plan(plan)) => Self::proceed(
                request,
                Progress { account, plan, results: Vec::new() },
            ),
            (RegistrationStage::Reply { progress }, RegistrationEvent::Reply(reply)) => {
                match reply {
                    Ok(reply) => Self::take_reply(request, progress, reply),
                    Err(error) => Self::fail(request, error),
                }
            },
            (RegistrationStage::Update { progress, result }, RegistrationEvent::Update(done)) => {
                match done {
                    Ok(_) => Self::note_result(request, progress, result),
                    Err(_) => {
                        let error = ApiErrorResponse::DuplicateMerchantConnectorAccount {
                            profile_id: progress.account.profile_id.clone(),
                            connector_label: progress.account.connector_name.clone(),
                        };
                        Self::fail(request, error)
                    },
                }
            },
            _ => Self::fail(request, ApiErrorResponse::InternalServerError),
        }
    }
}

/// Starts the registration of webhooks for a connector account.
pub fn register_connector_webhook(request: RegistrationRequest) -> (start: (
    RegistrationFlow,
    RegistrationAction,
))
    ensures
        start.0.request == request,
        start.0.wf(),
        start.0.started(start.1),
{
    let action = RegistrationAction::LoadKeyStore { merchant_id: request.merchant_id.clone() };
    (RegistrationFlow { request, stage: RegistrationStage::KeyStore }, action)
}

} // verus!
