use connector_webhooks::api_models::{
    Scope, ScopeIdentifier, ScopeType, WebhookRegistrationError, WebhookRegistrationResult,
};
use connector_webhooks::domain::{
    ConnectorAuthType, ConnectorData, ConnectorWebhookRegisterRequest,
    ConnectorWebhookRegisterResponse, ErrorResponse, MerchantConnectorAccount,
    MerchantConnectorAccountUpdate, PaymentMethodsEnabled, PlaceholderIds,
    RequestPaymentMethodTypes, UnreadableCredentials,
};
use connector_webhooks::enums::{
    ConnectorWebhookEventType, EventType, PaymentMethodType, WebhookRegistrationStatus,
};
use connector_webhooks::errors::{ApiErrorResponse, StorageError};
use connector_webhooks::transformers::{
    collect_payment_method_types, construct_connector_webhook_registration_details,
    construct_connector_webhook_registration_response, construct_webhook_register_response,
    construct_webhook_register_router_data, construct_webhook_registration_result,
    determine_scope_type, extract_requested_identifiers, get_connector_webhook_list_response,
    get_enabled_payment_method_types, validate_auto_configuration,
    validate_webhook_registration_request,
};
use serde_json::Value;

fn json(text: &str) -> Value {
    serde_json::from_str(text).unwrap()
}

fn pmt(name: &str) -> PaymentMethodType {
    PaymentMethodType { name: name.to_string() }
}

fn event(name: &str) -> EventType {
    EventType { name: name.to_string() }
}

fn shown(identifier: &ScopeIdentifier) -> String {
    match identifier {
        ScopeIdentifier::NotSpecific => "not_specific".to_string(),
        ScopeIdentifier::PaymentMethodType(pmt) => format!("pmt:{}", pmt.name),
        ScopeIdentifier::EventType(event) => format!("event:{}", event.name),
    }
}

fn all_shown(identifiers: &[ScopeIdentifier]) -> Vec<String> {
    identifiers.iter().map(shown).collect()
}

fn account(details: Option<Value>) -> MerchantConnectorAccount {
    MerchantConnectorAccount {
        merchant_id: "merchant".to_string(),
        merchant_connector_id: "mca_1".to_string(),
        profile_id: "pro_1".to_string(),
        connector_name: "santander".to_string(),
        connector_account_details: Ok(ConnectorAuthType { details: json(r#"{"api_key":"k"}"#) }),
        metadata: Some(json(r#"{"m":1}"#)),
        connector_wallets_details: None,
        payment_methods_enabled: None,
        connector_webhook_registration_details: details,
    }
}

fn placeholders() -> PlaceholderIds {
    PlaceholderIds {
        payment_id: "no_payment".to_string(),
        attempt_id: "no_attempt".to_string(),
        connector_request_reference_id: "no_reference".to_string(),
    }
}

fn registered(id: Option<&str>) -> ConnectorWebhookRegisterResponse {
    ConnectorWebhookRegisterResponse {
        identifier: ScopeIdentifier::NotSpecific,
        status: WebhookRegistrationStatus::Success,
        connector_webhook_id: id.map(|id| id.to_string()),
        error_code: None,
        error_message: None,
    }
}

fn call(scope: ScopeIdentifier) -> ConnectorWebhookRegisterRequest {
    ConnectorWebhookRegisterRequest { scope, webhook_url: "https://hook".to_string() }
}

fn details_after(
    id: Option<&str>,
    scope: ScopeIdentifier,
    before: Option<Value>,
) -> Result<Option<Value>, ApiErrorResponse> {
    match construct_connector_webhook_registration_details(
        &registered(id),
        &account(before),
        &call(scope),
    ) {
        Ok(MerchantConnectorAccountUpdate::ConnectorWebhookRegisterationUpdate {
            connector_webhook_registration_details,
        }) => Ok(connector_webhook_registration_details),
        Err(error) => Err(error),
    }
}

fn read_event_type(value: &Value) -> Option<ConnectorWebhookEventType> {
    value
        .as_str()
        .filter(|name| name.starts_with("all_"))
        .map(|name| ConnectorWebhookEventType { name: name.to_string() })
}

fn listed(details: Option<Value>) -> Result<Vec<(String, Option<String>)>, ApiErrorResponse> {
    get_connector_webhook_list_response(&details, &read_event_type).map(|webhooks| {
        let mut pairs: Vec<(String, Option<String>)> = webhooks
            .into_iter()
            .map(|webhook| (webhook.connector_webhook_id, webhook.event_type.map(|e| e.name)))
            .collect();
        pairs.sort();
        pairs
    })
}

#[test]
fn scope_types() {
    assert_eq!(determine_scope_type(&Scope::NotSpecific), ScopeType::NotSpecific);
    assert_eq!(
        determine_scope_type(&Scope::PaymentMethodTypes(vec![pmt("pix")])),
        ScopeType::PaymentMethodType
    );
    assert_eq!(determine_scope_type(&Scope::EventTypes(vec![])), ScopeType::EventType);
}

#[test]
fn requested_identifiers_of_each_scope() {
    assert_eq!(
        all_shown(&extract_requested_identifiers(&Scope::NotSpecific)),
        vec!["not_specific"]
    );
    let types = vec![pmt("pix"), pmt("boleto"), pmt("pix")];
    assert_eq!(
        all_shown(&extract_requested_identifiers(&Scope::PaymentMethodTypes(types))),
        vec!["pmt:pix", "pmt:boleto", "pmt:pix"]
    );
    let events = vec![event("payment_succeeded"), event("refund_completed")];
    assert_eq!(
        all_shown(&extract_requested_identifiers(&Scope::EventTypes(events))),
        vec!["event:payment_succeeded", "event:refund_completed"]
    );
    assert!(extract_requested_identifiers(&Scope::EventTypes(vec![])).is_empty());
}

#[test]
fn scopes_are_copied_whole() {
    let scope = Scope::PaymentMethodTypes(vec![pmt("pix"), pmt("boleto")]);
    assert_eq!(
        all_shown(&extract_requested_identifiers(&scope.clone())),
        all_shown(&extract_requested_identifiers(&scope))
    );
}

#[test]
fn response_takes_its_parts() {
    let response = construct_connector_webhook_registration_response(
        vec![],
        ScopeType::EventType,
        vec![ScopeIdentifier::EventType(event("a"))],
    )
    .unwrap();
    assert_eq!(response.scope_type, ScopeType::EventType);
    assert_eq!(all_shown(&response.requested), vec!["event:a"]);
    assert!(response.results.is_empty());
}

#[test]
fn unsupported_connector_is_refused() {
    let connector = ConnectorData {
        connector_name: "stripe".to_string(),
        is_webhook_auto_configuration_supported: false,
    };
    let plan = vec![(ScopeIdentifier::NotSpecific, "https://hook".to_string())];
    for verdict in [
        validate_auto_configuration(&connector),
        validate_webhook_registration_request(&connector, &plan),
        validate_webhook_registration_request(&connector, &vec![]),
    ] {
        match verdict {
            Err(ApiErrorResponse::FlowNotSupported { flow, connector }) => {
                assert_eq!(flow, "Webhook Registration");
                assert_eq!(connector, "stripe");
            }
            other => panic!("{:?}", other),
        }
    }
}

#[test]
fn empty_plan_means_unsupported_scope() {
    let connector = ConnectorData {
        connector_name: "adyen".to_string(),
        is_webhook_auto_configuration_supported: true,
    };
    match validate_webhook_registration_request(&connector, &vec![]) {
        Err(ApiErrorResponse::InvalidRequestData { message }) => assert_eq!(
            message,
            "Webhook registration is not supported for the requested scope"
        ),
        other => panic!("{:?}", other),
    }
    let plan = vec![(ScopeIdentifier::NotSpecific, "https://hook".to_string())];
    assert!(validate_webhook_registration_request(&connector, &plan).is_ok());
    assert!(validate_auto_configuration(&connector).is_ok());
}

fn method(types: Option<Vec<&str>>) -> Option<PaymentMethodsEnabled> {
    Some(PaymentMethodsEnabled {
        payment_method_types: types.map(|types| {
            types
                .into_iter()
                .map(|name| RequestPaymentMethodTypes { payment_method_type: pmt(name) })
                .collect()
        }),
    })
}

fn names(types: Vec<PaymentMethodType>) -> Vec<String> {
    types.into_iter().map(|pmt| pmt.name).collect()
}

#[test]
fn unreadable_payment_methods_are_left_out() {
    let methods = vec![
        method(Some(vec!["pix", "boleto"])),
        None,
        method(None),
        method(Some(vec!["pix"])),
    ];
    assert_eq!(names(collect_payment_method_types(&methods)), vec!["pix", "boleto", "pix"]);
    let readable = vec![
        method(Some(vec!["pix", "boleto"])),
        method(None),
        method(Some(vec!["pix"])),
    ];
    assert_eq!(names(collect_payment_method_types(&readable)), vec!["pix", "boleto", "pix"]);
}

#[test]
fn enabled_payment_method_types_of_an_account() {
    let parse = |document: &Value| -> Option<PaymentMethodsEnabled> {
        let types = document.as_array()?;
        method(Some(types.iter().filter_map(|name| name.as_str()).collect()))
    };
    let mut account = account(None);
    assert!(get_enabled_payment_method_types(&account, &parse).is_empty());
    account.payment_methods_enabled =
        Some(vec![json(r#"["pix","boleto"]"#), json(r#"{"bad":1}"#), json(r#"["credit"]"#)]);
    assert_eq!(
        names(get_enabled_payment_method_types(&account, &parse)),
        vec!["pix", "boleto", "credit"]
    );
}

#[test]
fn router_data_carries_the_account_and_the_call() {
    let account = account(None);
    let data = construct_webhook_register_router_data(
        &"tenant".to_string(),
        &placeholders(),
        &account,
        call(ScopeIdentifier::PaymentMethodType(pmt("pix"))),
        "https://other".to_string(),
    )
    .unwrap();
    assert_eq!(data.merchant_id, "merchant");
    assert_eq!(data.connector, "santander");
    assert_eq!(data.tenant_id, "tenant");
    assert_eq!(data.payment_id, "no_payment");
    assert_eq!(data.attempt_id, "no_attempt");
    assert_eq!(data.connector_request_reference_id, "no_reference");
    assert_eq!(data.connector_auth_type.details, json(r#"{"api_key":"k"}"#));
    assert_eq!(data.connector_meta_data, Some(json(r#"{"m":1}"#)));
    assert_eq!(data.connector_wallets_details, None);
    assert_eq!(shown(&data.request.scope), "pmt:pix");
    assert_eq!(data.request.webhook_url, "https://other");
    assert!(data.response.is_none());
    assert!(data.integrity_check.is_ok());
    assert!(data.payment.customer_id.is_none());
    assert!(data.payment.payment_method_type.is_none());
}

#[test]
fn router_data_needs_readable_credentials() {
    let mut account = account(None);
    account.connector_account_details = Err(UnreadableCredentials);
    let data = construct_webhook_register_router_data(
        &"tenant".to_string(),
        &placeholders(),
        &account,
        call(ScopeIdentifier::NotSpecific),
        "https://hook".to_string(),
    );
    assert!(matches!(data, Err(ApiErrorResponse::InternalServerError)));
}

#[test]
fn details_of_the_first_webhook() {
    assert_eq!(
        details_after(Some("wh_1"), ScopeIdentifier::NotSpecific, None).unwrap(),
        Some(json(r#"{"wh_1":{"type":"not_specific"}}"#))
    );
}

#[test]
fn details_keep_other_webhooks() {
    let before = json(r#"{"wh_0":{"event_type":"all_events"},"n":[1,2.5,null]}"#);
    assert_eq!(
        details_after(
            Some("wh_1"),
            ScopeIdentifier::PaymentMethodType(pmt("pix")),
            Some(before)
        )
        .unwrap(),
        Some(json(
            r#"{"wh_0":{"event_type":"all_events"},"n":[1,2.5,null],
                "wh_1":{"type":"payment_method_type","value":"pix"}}"#
        ))
    );
}

#[test]
fn details_replace_the_same_webhook() {
    let before = json(r#"{"wh_1":{"type":"not_specific"}}"#);
    assert_eq!(
        details_after(
            Some("wh_1"),
            ScopeIdentifier::EventType(event("refund_completed")),
            Some(before)
        )
        .unwrap(),
        Some(json(r#"{"wh_1":{"type":"event_type","value":"refund_completed"}}"#))
    );
}

#[test]
fn details_without_a_webhook_id_stay() {
    let before = json("[1]");
    assert_eq!(details_after(None, ScopeIdentifier::NotSpecific, Some(before)).unwrap(), None);
}

#[test]
fn details_that_are_no_object_cannot_be_added_to() {
    for before in ["[]", "null", "1", "\"text\"", "true"] {
        let update = details_after(Some("wh_1"), ScopeIdentifier::NotSpecific, Some(json(before)));
        assert!(matches!(update, Err(ApiErrorResponse::InternalServerError)));
    }
}

#[test]
fn result_of_a_registration() {
    let result = construct_webhook_registration_result(
        ScopeIdentifier::PaymentMethodType(pmt("pix")),
        Ok(registered(Some("wh_pix_001"))),
    );
    assert_eq!(shown(&result.identifier), "pmt:pix");
    assert_eq!(result.status, WebhookRegistrationStatus::Success);
    assert_eq!(result.connector_webhook_id.as_deref(), Some("wh_pix_001"));
    assert!(result.error.is_none());
}

#[test]
fn result_of_a_refused_registration() {
    let result = construct_webhook_registration_result(
        ScopeIdentifier::EventType(event("dispute_opened")),
        Err(ErrorResponse { code: "EVT_UNSUPPORTED".to_string(), message: "no".to_string() }),
    );
    assert_eq!(shown(&result.identifier), "event:dispute_opened");
    assert_eq!(result.status, WebhookRegistrationStatus::Failure);
    assert!(result.connector_webhook_id.is_none());
    let error = result.error.unwrap();
    assert_eq!(error.code, "EVT_UNSUPPORTED");
    assert_eq!(error.message, "no");
}

#[test]
fn result_in_the_form_that_is_kept() {
    let response = construct_webhook_register_response(&WebhookRegistrationResult {
        identifier: ScopeIdentifier::EventType(event("a")),
        status: WebhookRegistrationStatus::Failure,
        connector_webhook_id: None,
        error: Some(WebhookRegistrationError { code: "c".to_string(), message: "m".to_string() }),
    });
    assert_eq!(shown(&response.identifier), "event:a");
    assert_eq!(response.status, WebhookRegistrationStatus::Failure);
    assert_eq!(response.connector_webhook_id, None);
    assert_eq!(response.error_code.as_deref(), Some("c"));
    assert_eq!(response.error_message.as_deref(), Some("m"));
}

#[test]
fn no_details_list_no_webhooks() {
    assert_eq!(listed(None).unwrap(), vec![]);
    assert_eq!(listed(Some(json("{}"))).unwrap(), vec![]);
}

#[test]
fn every_stored_webhook_is_listed() {
    let details = json(
        r#"{"wh_b":{"event_type":"all_events","more":[1]},"wh_a":["all_refunds"],
            "wh_c":{"event_type":"all_events"}}"#,
    );
    assert_eq!(
        listed(Some(details)).unwrap(),
        vec![
            ("wh_a".to_string(), Some("all_refunds".to_string())),
            ("wh_b".to_string(), Some("all_events".to_string())),
            ("wh_c".to_string(), Some("all_events".to_string())),
        ]
    );
}

#[test]
fn details_that_are_no_object_cannot_be_listed() {
    for details in ["[]", "null", "1", "\"text\"", "[{\"event_type\":\"all_events\"}]"] {
        assert!(matches!(listed(Some(json(details))), Err(ApiErrorResponse::InternalServerError)));
    }
}

#[test]
fn one_unreadable_webhook_spoils_the_listing() {
    for entry in [
        r#"{}"#,
        r#"{"event_type":"unknown"}"#,
        r#"{"event_type":null}"#,
        r#"[]"#,
        r#"["all_events",1]"#,
        r#""all_events""#,
        r#"null"#,
        r#"{"type":"not_specific","value":"x"}"#,
        r#"{"type":"not_specific","event_type":"unknown"}"#,
        r#"{"type":"payment_method_type"}"#,
        r#"{"type":"payment_method_type","other":"x"}"#,
        r#"{"type":"payment_method_type","value":"x","other":1}"#,
        r#"{"type":"event_type","value":1}"#,
        r#"{"type":"other","value":"x"}"#,
        r#"{"type":"other"}"#,
        r#"{"type":1}"#,
        r#"{"value":"x"}"#,
    ] {
        let details = json(&format!(
            r#"{{"wh_a":{{"event_type":"all_events"}},"wh_b":{}}}"#,
            entry
        ));
        assert!(matches!(listed(Some(details)), Err(ApiErrorResponse::InternalServerError)));
    }
}

#[test]
fn written_registrations_are_listed() {
    for scope in [
        ScopeIdentifier::NotSpecific,
        ScopeIdentifier::PaymentMethodType(pmt("pix")),
        ScopeIdentifier::EventType(event("all_events")),
    ] {
        let details = details_after(Some("wh_1"), scope, None).unwrap();
        assert_eq!(listed(details).unwrap(), vec![("wh_1".to_string(), None)]);
    }
}

#[test]
fn written_registrations_are_listed_beside_others() {
    let before = json(r#"{"wh_0":{"event_type":"all_events"}}"#);
    let scope = ScopeIdentifier::EventType(event("refund_completed"));
    let details = details_after(Some("wh_1"), scope, Some(before)).unwrap();
    assert_eq!(
        listed(details.clone()).unwrap(),
        vec![("wh_0".to_string(), Some("all_events".to_string())), ("wh_1".to_string(), None)]
    );
    assert_eq!(listed(details.clone()).unwrap(), listed(details).unwrap());
}

#[test]
fn updates_change_only_the_details() {
    let update = MerchantConnectorAccountUpdate::ConnectorWebhookRegisterationUpdate {
        connector_webhook_registration_details: Some(json(r#"{"wh_1":{}}"#)),
    };
    let updated = account(Some(json("{}"))).apply(&update);
    assert_eq!(updated.connector_webhook_registration_details, Some(json(r#"{"wh_1":{}}"#)));
    assert_eq!(updated.profile_id, "pro_1");
    assert_eq!(updated.metadata, Some(json(r#"{"m":1}"#)));
    let nothing = MerchantConnectorAccountUpdate::ConnectorWebhookRegisterationUpdate {
        connector_webhook_registration_details: None,
    };
    let kept = updated.apply(&nothing);
    assert_eq!(kept.connector_webhook_registration_details, Some(json(r#"{"wh_1":{}}"#)));
}

#[test]
fn responses_are_copied_whole() {
    let response = construct_connector_webhook_registration_response(
        vec![construct_webhook_registration_result(
            ScopeIdentifier::EventType(event("a")),
            Err(ErrorResponse { code: "c".to_string(), message: "m".to_string() }),
        )],
        ScopeType::EventType,
        vec![ScopeIdentifier::EventType(event("a"))],
    )
    .unwrap();
    assert_eq!(format!("{:?}", response.clone()), format!("{:?}", response));
}

#[test]
fn stored_registrations_describe_themselves() {
    let entries: Vec<Option<Value>> = [
        ScopeIdentifier::NotSpecific,
        ScopeIdentifier::PaymentMethodType(pmt("x")),
        ScopeIdentifier::EventType(event("x")),
        ScopeIdentifier::EventType(event("y")),
    ]
    .into_iter()
    .map(|scope| details_after(Some("wh"), scope, None).unwrap())
    .collect();
    for i in 0..entries.len() {
        for j in 0..entries.len() {
            assert_eq!(entries[i] == entries[j], i == j);
        }
    }
}

#[test]
fn failed_lookups() {
    assert!(matches!(
        StorageError::NotFound.to_not_found_response(ApiErrorResponse::MerchantAccountNotFound),
        ApiErrorResponse::MerchantAccountNotFound
    ));
    assert!(matches!(
        StorageError::Other(ApiErrorResponse::InternalServerError)
            .to_not_found_response(ApiErrorResponse::MerchantAccountNotFound),
        ApiErrorResponse::InternalServerError
    ));
}
