//! The enumerations that requests, records and replies speak of.
//!
//! Payment method types and event types come from lists that grow with every connector. Here each
//! is known by the name under which it is written to JSON, which is all that the flows need.

use vstd::prelude::*;

verus! {

/// A payment method type, such as `pix` or `boleto`.
#[derive(Debug)]
pub struct PaymentMethodType {
    pub name: String,
}

impl Clone for PaymentMethodType {
    fn clone(&self) -> (copy: Self)
        ensures
            copy == *self,
    {
        PaymentMethodType { name: self.name.clone() }
    }
}

/// An event type, such as `payment_succeeded`.
#[derive(Debug)]
pub struct EventType {
    pub name: String,
}

impl Clone for EventType {
    fn clone(&self) -> (copy: Self)
        ensures
            copy == *self,
    {
        EventType { name: self.name.clone() }
    }
}

/// The event type that a listed webhook was registered for at the connector.
#[derive(Debug)]
pub struct ConnectorWebhookEventType {
    pub name: String,
}

impl Clone for ConnectorWebhookEventType {
    fn clone(&self) -> (copy: Self)
        ensures
            copy == *self,
    {
        ConnectorWebhookEventType { name: self.name.clone() }
    }
}

/// Whether a webhook registration succeeded at the connector.
#[derive(Debug, Clone, Copy, PartialEq, Eq, Structural)]
pub enum WebhookRegistrationStatus {
    Success,
    Failure,
}

} // verus!
