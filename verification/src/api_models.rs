//! Requests and responses of the webhook management API.

use crate::enums::{
    ConnectorWebhookEventType, EventType, PaymentMethodType, WebhookRegistrationStatus,
};
use vstd::prelude::*;

verus! {

/// The scope of a webhook registration: which entities the connector should register webhooks for.
#[derive(Debug)]
#[non_exhaustive]
pub enum Scope {
    /// The connector does not scope webhooks to any specific entity: a single registration call.
    NotSpecific,
    /// Scoped by payment method types (e.g. Pix, Boleto).
    PaymentMethodTypes(Vec<PaymentMethodType>),
    /// Scoped by event types (e.g. payments, refunds, disputes).
    EventTypes(Vec<EventType>),
}

/// What a `Scope` asks for.
#[verifier::ext_equal]
pub enum RequestedScope {
    NotSpecific,
    PaymentMethodTypes(Seq<PaymentMethodType>),
    EventTypes(Seq<EventType>),
}

impl View for Scope {
    type V = RequestedScope;

    open spec fn view(&self) -> RequestedScope {
        match *self {
            Scope::NotSpecific => RequestedScope::NotSpecific,
            Scope::PaymentMethodTypes(types) => RequestedScope::PaymentMethodTypes(types@),
            Scope::EventTypes(types) => RequestedScope::EventTypes(types@),
        }
    }
}

impl Clone for Scope {
    fn clone(&self) -> (copy: Self)
        ensures
            copy@ == self@,
    {
        match self {
            Scope::NotSpecific => Scope::NotSpecific,
            Scope::PaymentMethodTypes(types) => {
                let copies: Vec<PaymentMethodType> = types.clone();
                assert(copies@ =~= types@);
                Scope::PaymentMethodTypes(copies)
            },
            Scope::EventTypes(types) => {
                let copies: Vec<EventType> = types.clone();
                assert(copies@ =~= types@);
                Scope::EventTypes(copies)
            },
        }
    }
}

/// Discriminator for the scope type in the response.
#[derive(Debug, Clone, Copy, PartialEq, Eq, Structural)]
pub enum ScopeType {
    NotSpecific,
    PaymentMethodType,
    EventType,
}

/// Identifies a single scope entry.
#[derive(Debug)]
pub enum ScopeIdentifier {
    NotSpecific,
    PaymentMethodType(PaymentMethodType),
    EventType(EventType),
}

impl Clone for ScopeIdentifier {
    fn clone(&self) -> (copy: Self)
        ensures
            copy == *self,
    {
        match self {
            ScopeIdentifier::NotSpecific => ScopeIdentifier::NotSpecific,
            ScopeIdentifier::PaymentMethodType(pmt) => ScopeIdentifier::PaymentMethodType(
                pmt.clone(),
            ),
            ScopeIdentifier::EventType(event) => ScopeIdentifier::EventType(event.clone()),
        }
    }
}

impl ScopeIdentifier {
    /// The type of scope that the entry belongs to.
    pub open spec fn scope_type(self) -> ScopeType {
        match self {
            ScopeIdentifier::NotSpecific => ScopeType::NotSpecific,
            ScopeIdentifier::PaymentMethodType(_) => ScopeType::PaymentMethodType,
            ScopeIdentifier::EventType(_) => ScopeType::EventType,
        }
    }
}

/// Error details for a failed webhook registration.
#[derive(Debug, Clone)]
pub struct WebhookRegistrationError {
    pub code: String,
    pub message: String,
}

/// Result of registering a webhook for a single scope identifier.
#[derive(Debug, Clone)]
pub struct WebhookRegistrationResult {
    /// The scope identifier this result corresponds to.
    pub identifier: ScopeIdentifier,
    /// Whether the registration succeeded or failed.
    pub status: WebhookRegistrationStatus,
    /// The connector-generated webhook ID, if successful.
    pub connector_webhook_id: Option<String>,
    /// Error details, if the registration failed.
    pub error: Option<WebhookRegistrationError>,
}

/// Register webhooks at the connector.
#[derive(Debug, Clone)]
pub struct ConnectorWebhookRegisterRequest {
    pub scope: Scope,
    pub event_type: ConnectorWebhookEventType,
}

/// Response for registering connector webhooks.
#[derive(Debug, Clone)]
pub struct RegisterConnectorWebhookResponse {
    /// The type of scope used for this registration.
    pub scope_type: ScopeType,
    /// List of identifiers that were requested to be registered.
    pub requested: Vec<ScopeIdentifier>,
    /// Per-identifier registration results.
    pub results: Vec<WebhookRegistrationResult>,
}

/// The webhooks of a connector account.
#[derive(Debug, Clone)]
pub struct ConnectorWebhookListResponse {
    pub connector: String,
    pub webhooks: Vec<ConnectorWebhookResponse>,
}

/// One webhook of a connector account.
#[derive(Debug, Clone)]
pub struct ConnectorWebhookResponse {
    /// The event type at the connector, if the stored registration says one.
    pub event_type: Option<ConnectorWebhookEventType>,
    pub connector_webhook_id: String,
}

} // verus!
