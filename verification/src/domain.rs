//! Account records, and what goes to the connector and comes back.

use crate::api_models::ScopeIdentifier;
use crate::enums::{ConnectorWebhookEventType, PaymentMethodType, WebhookRegistrationStatus};
use vstd::prelude::*;

verus! {

/// The credentials of an account at its connector, as the document that holds them.
#[derive(Debug)]
pub struct ConnectorAuthType {
    pub details: serde_json::Value,
}

impl Clone for ConnectorAuthType {
    fn clone(&self) -> (copy: Self)
        ensures
            copy == *self,
    {
        ConnectorAuthType { details: self.details.clone() }
    }
}

/// The credentials of an account could not be read.
#[derive(Debug, Clone, Copy, PartialEq, Eq, Structural)]
pub struct UnreadableCredentials;

/// A merchant's account at a connector.
#[derive(Debug)]
pub struct MerchantConnectorAccount {
    pub merchant_id: String,
    pub merchant_connector_id: String,
    pub profile_id: String,
    pub connector_name: String,
    /// The credentials, or that they cannot be read.
    pub connector_account_details: Result<ConnectorAuthType, UnreadableCredentials>,
    pub metadata: Option<serde_json::Value>,
    pub connector_wallets_details: Option<serde_json::Value>,
    /// One document for each payment method that is enabled.
    pub payment_methods_enabled: Option<Vec<serde_json::Value>>,
    /// The webhooks registered so far: an object with one member for each, under its ID.
    pub connector_webhook_registration_details: Option<serde_json::Value>,
}

/// A change to an account record.
#[derive(Debug)]
pub enum MerchantConnectorAccountUpdate {
    /// New registration details; `None` leaves the record as it is.
    ConnectorWebhookRegisterationUpdate {
        connector_webhook_registration_details: Option<serde_json::Value>,
    },
}

impl MerchantConnectorAccountUpdate {
    /// The new registration details, if there are any.
    pub open spec fn details(self) -> Option<serde_json::Value> {
        let MerchantConnectorAccountUpdate::ConnectorWebhookRegisterationUpdate {
            connector_webhook_registration_details,
        } = self;
        connector_webhook_registration_details
    }
}

impl MerchantConnectorAccount {
    /// The account with other registration details.
    pub open spec fn with_details(self, details: Option<serde_json::Value>) -> Self {
        MerchantConnectorAccount { connector_webhook_registration_details: details, ..self }
    }

    /// The account as it is after the update.
    pub open spec fn updated(self, update: MerchantConnectorAccountUpdate) -> Self {
        if update.details() is Some {
            self.with_details(update.details())
        } else {
            self
        }
    }

    /// Makes the change to the account that the update makes to its record.
    pub fn apply(self, update: &MerchantConnectorAccountUpdate) -> (account: Self)
        ensures
            account == self.updated(*update),
    {
        let MerchantConnectorAccountUpdate::ConnectorWebhookRegisterationUpdate {
            connector_webhook_registration_details,
        } = update;
        match connector_webhook_registration_details {
            Some(details) => MerchantConnectorAccount {
                connector_webhook_registration_details: Some(details.clone()),
                ..self
            },
            None => self,
        }
    }
}

/// A payment method that an account has enabled.
#[derive(Debug)]
pub struct PaymentMethodsEnabled {
    pub payment_method_types: Option<Vec<RequestPaymentMethodTypes>>,
}

/// A payment method type under an enabled payment method.
#[derive(Debug)]
pub struct RequestPaymentMethodTypes {
    pub payment_method_type: PaymentMethodType,
}

/// What the flow needs to know of a connector.
#[derive(Debug)]
pub struct ConnectorData {
    pub connector_name: String,
    /// Whether webhooks can be registered at the connector over its API.
    pub is_webhook_auto_configuration_supported: bool,
}

/// A single registration to make at the connector.
#[derive(Debug, Clone)]
pub struct ConnectorWebhookRegisterRequest {
    /// The scope of this webhook registration.
    pub scope: ScopeIdentifier,
    /// The base webhook URL to register.
    pub webhook_url: String,
}

/// What a registration at the connector came to.
#[derive(Debug)]
pub struct ConnectorWebhookRegisterResponse {
    /// The scope identifier this response is for.
    pub identifier: ScopeIdentifier,
    /// Status of the registration.
    pub status: WebhookRegistrationStatus,
    /// Connector-generated webhook ID, if successful.
    pub connector_webhook_id: Option<String>,
    /// Error code, if the registration failed.
    pub error_code: Option<String>,
    /// Error message, if the registration failed.
    pub error_message: Option<String>,
}

/// The connector's own account of why a call failed.
#[derive(Debug)]
pub struct ErrorResponse {
    pub code: String,
    pub message: String,
}

/// What a stored registration says of the webhook when webhooks are listed.
#[derive(Debug, Clone)]
pub struct ConnectorWebhookData {
    /// The event type at the connector; `None` if the registration says its scope instead.
    pub event_type: Option<ConnectorWebhookEventType>,
}

/// The identifiers that stand in for a payment where there is none.
#[derive(Debug)]
pub struct PlaceholderIds {
    pub payment_id: String,
    pub attempt_id: String,
    pub connector_request_reference_id: String,
}

/// The payment side of the data that goes to a connector. `None` stands for no value or, for
/// `status`, `payment_method`, `address` and `auth_type`, for the default of their kind.
#[derive(Debug)]
pub struct PaymentContext {
    pub customer_id: Option<String>,
    pub connector_customer: Option<String>,
    pub status: Option<String>,
    pub payment_method: Option<String>,
    pub payment_method_type: Option<PaymentMethodType>,
    pub description: Option<String>,
    pub address: Option<String>,
    pub auth_type: Option<String>,
    pub amount_captured: Option<i64>,
    pub minor_amount_captured: Option<i64>,
    pub access_token: Option<String>,
    pub session_token: Option<String>,
    pub reference_id: Option<String>,
    pub payment_method_token: Option<String>,
    pub recurring_mandate_payment_data: Option<String>,
    pub preprocessing_id: Option<String>,
    pub payment_method_balance: Option<String>,
    pub connector_api_version: Option<String>,
    pub payout_method_data: Option<String>,
    pub quote_id: Option<String>,
    pub test_mode: Option<bool>,
    pub connector_http_status_code: Option<u16>,
    pub external_latency: Option<u128>,
    pub apple_pay_flow: Option<String>,
    pub frm_metadata: Option<String>,
    pub dispute_id: Option<String>,
    pub refund_id: Option<String>,
    pub payment_method_status: Option<String>,
    pub connector_response: Option<String>,
    pub additional_merchant_data: Option<String>,
    pub header_payload: Option<String>,
    pub connector_mandate_request_reference_id: Option<String>,
    pub authentication_id: Option<String>,
    pub psd2_sca_exemption_type: Option<String>,
    pub raw_connector_response: Option<String>,
    pub is_payment_id_from_merchant: Option<bool>,
    pub l2_l3_data: Option<String>,
    pub minor_amount_capturable: Option<i64>,
    pub authorized_amount: Option<i64>,
    pub payout_id: Option<String>,
    pub customer_document_details: Option<String>,
    pub feature_data: Option<String>,
    pub sender_payment_instrument_id: Option<String>,
}

impl PaymentContext {
    /// The context of a call that concerns no payment.
    pub open spec fn no_payment() -> PaymentContext {
        PaymentContext {
            customer_id: None,
            connector_customer: None,
            status: None,
            payment_method: None,
            payment_method_type: None,
            description: None,
            address: None,
            auth_type: None,
            amount_captured: None,
            minor_amount_captured: None,
            access_token: None,
            session_token: None,
            reference_id: None,
            payment_method_token: None,
            recurring_mandate_payment_data: None,
            preprocessing_id: None,
            payment_method_balance: None,
            connector_api_version: None,
            payout_method_data: None,
            quote_id: None,
            test_mode: None,
            connector_http_status_code: None,
            external_latency: None,
            apple_pay_flow: None,
            frm_metadata: None,
            dispute_id: None,
            refund_id: None,
            payment_method_status: None,
            connector_response: None,
            additional_merchant_data: None,
            header_payload: None,
            connector_mandate_request_reference_id: None,
            authentication_id: None,
            psd2_sca_exemption_type: None,
            raw_connector_response: None,
            is_payment_id_from_merchant: None,
            l2_l3_data: None,
            minor_amount_capturable: None,
            authorized_amount: None,
            payout_id: None,
            customer_document_details: None,
            feature_data: None,
            sender_payment_instrument_id: None,
        }
    }

    /// Makes the context of a call that concerns no payment.
    pub fn without_payment() -> (context: PaymentContext)
        ensures
            context == PaymentContext::no_payment(),
    {
        PaymentContext {
            customer_id: None,
            connector_customer: None,
            status: None,
            payment_method: None,
            payment_method_type: None,
            description: None,
            address: None,
            auth_type: None,
            amount_captured: None,
            minor_amount_captured: None,
            access_token: None,
            session_token: None,
            reference_id: None,
            payment_method_token: None,
            recurring_mandate_payment_data: None,
            preprocessing_id: None,
            payment_method_balance: None,
            connector_api_version: None,
            payout_method_data: None,
            quote_id: None,
            test_mode: None,
            connector_http_status_code: None,
            external_latency: None,
            apple_pay_flow: None,
            frm_metadata: None,
            dispute_id: None,
            refund_id: None,
            payment_method_status: None,
            connector_response: None,
            additional_merchant_data: None,
            header_payload: None,
            connector_mandate_request_reference_id: None,
            authentication_id: None,
            psd2_sca_exemption_type: None,
            raw_connector_response: None,
            is_payment_id_from_merchant: None,
            l2_l3_data: None,
            minor_amount_capturable: None,
            authorized_amount: None,
            payout_id: None,
            customer_document_details: None,
            feature_data: None,
            sender_payment_instrument_id: None,
        }
    }
}

/// What comes back from a connector call: its response, or its own account of the failure.
pub type ConnectorReply = Result<ConnectorWebhookRegisterResponse, ErrorResponse>;

/// All that goes into one registration call at the connector.
#[derive(Debug)]
pub struct ConnectorWebhookRegisterRouterData {
    pub merchant_id: String,
    pub connector: String,
    pub payment_id: String,
    pub tenant_id: String,
    pub attempt_id: String,
    pub connector_auth_type: ConnectorAuthType,
    pub connector_meta_data: Option<serde_json::Value>,
    pub connector_wallets_details: Option<serde_json::Value>,
    pub request: ConnectorWebhookRegisterRequest,
    /// The reply, once there is one.
    pub response: Option<ConnectorReply>,
    pub connector_request_reference_id: String,
    pub integrity_check: Result<(), ErrorResponse>,
    pub payment: PaymentContext,
}

} // verus!
