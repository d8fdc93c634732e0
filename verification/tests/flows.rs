use connector_webhooks::api_models::{
    ConnectorWebhookRegisterRequest, RegisterConnectorWebhookResponse, Scope, ScopeIdentifier,
    ScopeType,
};
use connector_webhooks::domain::{
    ConnectorAuthType, ConnectorData, ConnectorReply, ConnectorWebhookRegisterResponse,
    ErrorResponse, MerchantConnectorAccount, MerchantConnectorAccountUpdate, PaymentMethodsEnabled,
    PlaceholderIds, RequestPaymentMethodTypes, UnreadableCredentials,
};
use connector_webhooks::enums::{
    ConnectorWebhookEventType, EventType, PaymentMethodType, WebhookRegistrationStatus,
};
use connector_webhooks::errors::{ApiErrorResponse, StorageError};
use connector_webhooks::fetch::{fetch_connector_webhook, FetchAction, FetchEvent, FetchRequest};
use connector_webhooks::registration::{
    register_connector_webhook, RegistrationAction, RegistrationEvent, RegistrationRequest,
};
use serde_json::Value;

type Plan = Vec<(ScopeIdentifier, String)>;

fn json(text: &str) -> Value {
    serde_json::from_str(text).unwrap()
}

fn pmt(name: &str) -> PaymentMethodType {
    PaymentMethodType { name: name.to_string() }
}

fn event(name: &str) -> EventType {
    EventType { name: name.to_string() }
}

fn shown(identifier: &ScopeIdentifier) -> String {
    match identifier {
        ScopeIdentifier::NotSpecific => "not_specific".to_string(),
        ScopeIdentifier::PaymentMethodType(pmt) => format!("pmt:{}", pmt.name),
        ScopeIdentifier::EventType(event) => format!("event:{}", event.name),
    }
}

fn account(details: Option<Value>) -> MerchantConnectorAccount {
    MerchantConnectorAccount {
        merchant_id: "merchant".to_string(),
        merchant_connector_id: "mca_1".to_string(),
        profile_id: "pro_1".to_string(),
        connector_name: "santander".to_string(),
        connector_account_details: Ok(ConnectorAuthType { details: json("{}") }),
        metadata: None,
        connector_wallets_details: None,
        payment_methods_enabled: Some(vec![
            json(r#"{"payment_method_types":["pix"]}"#),
            json(r#"{"payment_method_types":7}"#),
            json(r#"{"payment_method_types":["boleto","pix"]}"#),
        ]),
        connector_webhook_registration_details: details,
    }
}

fn parse_method(document: &Value) -> Option<PaymentMethodsEnabled> {
    let mut types = vec![];
    for name in document.get("payment_method_types")?.as_array()? {
        types.push(RequestPaymentMethodTypes { payment_method_type: pmt(name.as_str()?) });
    }
    Some(PaymentMethodsEnabled { payment_method_types: Some(types) })
}

fn request(scope: Scope) -> RegistrationRequest {
    RegistrationRequest {
        tenant_id: "tenant".to_string(),
        merchant_id: "merchant".to_string(),
        profile_id: Some("pro_1".to_string()),
        merchant_connector_id: "mca_1".to_string(),
        request: ConnectorWebhookRegisterRequest {
            scope,
            event_type: ConnectorWebhookEventType { name: "all_events".to_string() },
        },
        placeholders: PlaceholderIds {
            payment_id: "no_payment".to_string(),
            attempt_id: "no_attempt".to_string(),
            connector_request_reference_id: "no_reference".to_string(),
        },
    }
}

/// The outside world of a run, and what the run did to it.
struct World {
    key_store: Option<StorageError>,
    account: Result<MerchantConnectorAccount, StorageError>,
    profile: Option<ApiErrorResponse>,
    connector: Option<ApiErrorResponse>,
    supported: bool,
    plan_without_methods: Plan,
    plan: Plan,
    replies: Vec<Result<ConnectorReply, ApiErrorResponse>>,
    update_fails: bool,
    log: Vec<String>,
    record: Option<Value>,
}

impl World {
    fn new(plan: Plan, replies: Vec<ConnectorReply>) -> World {
        World {
            key_store: None,
            account: Ok(account(None)),
            profile: None,
            connector: None,
            supported: true,
            plan_without_methods: vec![(ScopeIdentifier::NotSpecific, "https://x".to_string())],
            plan,
            replies: replies.into_iter().map(Ok).collect(),
            update_fails: false,
            log: vec![],
            record: None,
        }
    }

    fn run(&mut self, scope: Scope) -> Result<RegisterConnectorWebhookResponse, ApiErrorResponse> {
        let (mut flow, mut action) = register_connector_webhook(request(scope));
        let mut plans = 0;
        loop {
            let event = match action {
                RegistrationAction::LoadKeyStore { merchant_id } => {
                    self.log.push(format!("key_store {}", merchant_id));
                    RegistrationEvent::KeyStore(match self.key_store.take() {
                        Some(error) => Err(error),
                        None => Ok(()),
                    })
                }
                RegistrationAction::LoadAccount { merchant_id, merchant_connector_id } => {
                    self.log.push(format!("account {} {}", merchant_id, merchant_connector_id));
                    RegistrationEvent::Account(std::mem::replace(
                        &mut self.account,
                        Err(StorageError::NotFound),
                    ))
                }
                RegistrationAction::CheckProfile { profile_id } => {
                    assert_eq!(flow.account().unwrap().profile_id, "pro_1");
                    self.log.push(format!("profile {:?}", profile_id));
                    RegistrationEvent::Profile(match self.profile.take() {
                        Some(error) => Err(error),
                        None => Ok(()),
                    })
                }
                RegistrationAction::ResolveConnector { connector_name, merchant_connector_id } => {
                    self.log.push(format!("connector {} {}", connector_name, merchant_connector_id));
                    RegistrationEvent::Connector(match self.connector.take() {
                        Some(error) => Err(error),
                        None => Ok(ConnectorData {
                            connector_name,
                            is_webhook_auto_configuration_supported: self.supported,
                        }),
                    })
                }
                RegistrationAction::MakePlan { payment_method_types, .. } => {
                    plans += 1;
                    let names: Vec<String> =
                        payment_method_types.into_iter().map(|pmt| pmt.name).collect();
                    self.log.push(format!("plan [{}]", names.join(" ")));
                    RegistrationEvent::Plan(if plans == 1 {
                        std::mem::take(&mut self.plan_without_methods)
                    } else {
                        std::mem::take(&mut self.plan)
                    })
                }
                RegistrationAction::CallConnector { data } => {
                    self.log.push(format!(
                        "call {} {}",
                        shown(&data.request.scope),
                        data.request.webhook_url
                    ));
                    RegistrationEvent::Reply(self.replies.remove(0))
                }
                RegistrationAction::UpdateAccount { update } => {
                    let MerchantConnectorAccountUpdate::ConnectorWebhookRegisterationUpdate {
                        connector_webhook_registration_details,
                    } = update;
                    self.log.push("update".to_string());
                    self.record = connector_webhook_registration_details;
                    RegistrationEvent::Update(if self.update_fails {
                        Err(StorageError::Other(ApiErrorResponse::InternalServerError))
                    } else {
                        Ok(())
                    })
                }
                RegistrationAction::Finish(answer) => return answer,
            };
            assert!(flow.awaits(&event));
            let (next, wanted) = flow.step(event, &parse_method);
            flow = next;
            action = wanted;
        }
    }
}

fn success(id: Option<&str>) -> ConnectorReply {
    Ok(ConnectorWebhookRegisterResponse {
        identifier: ScopeIdentifier::NotSpecific,
        status: WebhookRegistrationStatus::Success,
        connector_webhook_id: id.map(|id| id.to_string()),
        error_code: None,
        error_message: None,
    })
}

fn failure(code: &str, message: &str) -> ConnectorReply {
    Err(ErrorResponse { code: code.to_string(), message: message.to_string() })
}

fn planned(identifier: ScopeIdentifier, url: &str) -> (ScopeIdentifier, String) {
    (identifier, url.to_string())
}

fn summary(response: &RegisterConnectorWebhookResponse) -> Vec<(String, bool, Option<&str>)> {
    response
        .results
        .iter()
        .map(|result| {
            (
                shown(&result.identifier),
                result.status == WebhookRegistrationStatus::Success,
                result.connector_webhook_id.as_deref(),
            )
        })
        .collect()
}

#[test]
fn one_call_for_each_payment_method_type() {
    let types = ["pix", "boleto", "pix_automatico_push"];
    let plan = types
        .iter()
        .map(|name| {
            planned(ScopeIdentifier::PaymentMethodType(pmt(name)), &format!("https://h/{}", name))
        })
        .collect();
    let mut world = World::new(
        plan,
        vec![
            success(Some("wh_pix_001")),
            success(Some("wh_boleto_001")),
            success(Some("wh_pix_push_001")),
        ],
    );
    let scope = Scope::PaymentMethodTypes(types.iter().map(|name| pmt(name)).collect());
    let response = world.run(scope).unwrap();
    assert_eq!(response.scope_type, ScopeType::PaymentMethodType);
    assert_eq!(
        response.requested.iter().map(shown).collect::<Vec<_>>(),
        vec!["pmt:pix", "pmt:boleto", "pmt:pix_automatico_push"]
    );
    assert_eq!(
        summary(&response),
        vec![
            ("pmt:pix".to_string(), true, Some("wh_pix_001")),
            ("pmt:boleto".to_string(), true, Some("wh_boleto_001")),
            ("pmt:pix_automatico_push".to_string(), true, Some("wh_pix_push_001")),
        ]
    );
    assert!(response.results.iter().all(|result| result.error.is_none()));
    assert_eq!(
        world.log,
        vec![
            "key_store merchant",
            "account merchant mca_1",
            "profile Some(\"pro_1\")",
            "connector santander mca_1",
            "plan []",
            "plan [pix boleto pix]",
            "call pmt:pix https://h/pix",
            "update",
            "call pmt:boleto https://h/boleto",
            "update",
            "call pmt:pix_automatico_push https://h/pix_automatico_push",
            "update",
        ]
    );
}

#[test]
fn failed_registrations_do_not_stop_the_run() {
    let events = ["payment_succeeded", "dispute_opened", "refund_completed"];
    let plan = events
        .iter()
        .map(|name| planned(ScopeIdentifier::EventType(event(name)), "https://h"))
        .collect();
    let mut world = World::new(
        plan,
        vec![
            success(Some("evt_001")),
            failure(
                "EVT_UNSUPPORTED",
                "Dispute events not supported on this merchant account",
            ),
            success(Some("evt_002")),
        ],
    );
    let scope = Scope::EventTypes(events.iter().map(|name| event(name)).collect());
    let response = world.run(scope).unwrap();
    assert_eq!(response.scope_type, ScopeType::EventType);
    assert_eq!(
        summary(&response),
        vec![
            ("event:payment_succeeded".to_string(), true, Some("evt_001")),
            ("event:dispute_opened".to_string(), false, None),
            ("event:refund_completed".to_string(), true, Some("evt_002")),
        ]
    );
    let error = response.results[1].error.as_ref().unwrap();
    assert_eq!(error.code, "EVT_UNSUPPORTED");
    assert_eq!(error.message, "Dispute events not supported on this merchant account");
    assert_eq!(world.log.iter().filter(|entry| *entry == "update").count(), 2);
}

#[test]
fn single_call_without_scope() {
    let mut world = World::new(
        vec![planned(ScopeIdentifier::NotSpecific, "https://adyen")],
        vec![success(Some("adyen_wh_001"))],
    );
    let response = world.run(Scope::NotSpecific).unwrap();
    assert_eq!(response.scope_type, ScopeType::NotSpecific);
    assert_eq!(response.requested.iter().map(shown).collect::<Vec<_>>(), vec!["not_specific"]);
    assert_eq!(summary(&response), vec![("not_specific".to_string(), true, Some("adyen_wh_001"))]);
    assert_eq!(world.record, Some(json(r#"{"adyen_wh_001":{"type":"not_specific"}}"#)));
}

#[test]
fn several_calls_for_one_payment_method_type() {
    let mut world = World::new(
        vec![
            planned(ScopeIdentifier::PaymentMethodType(pmt("pix_automatico_push")), "https://push"),
            planned(ScopeIdentifier::PaymentMethodType(pmt("pix_automatico_push")), "https://alt"),
        ],
        vec![success(Some("a")), success(Some("b"))],
    );
    let response = world
        .run(Scope::PaymentMethodTypes(vec![pmt("pix_automatico_push")]))
        .unwrap();
    assert_eq!(response.requested.len(), 1);
    assert_eq!(response.results.len(), 2);
}

#[test]
fn updates_keep_earlier_webhooks_of_the_run() {
    let mut world = World::new(
        vec![
            planned(ScopeIdentifier::EventType(event("a")), "https://a"),
            planned(ScopeIdentifier::EventType(event("b")), "https://b"),
        ],
        vec![success(Some("wh_a")), success(Some("wh_b"))],
    );
    world.account = Ok(account(Some(json(r#"{"old":{"event_type":"all_events"}}"#))));
    world.run(Scope::EventTypes(vec![event("a"), event("b")])).unwrap();
    assert_eq!(
        world.record,
        Some(json(
            r#"{"old":{"event_type":"all_events"},"wh_a":{"type":"event_type","value":"a"},
                "wh_b":{"type":"event_type","value":"b"}}"#
        ))
    );
}

#[test]
fn every_registered_webhook_is_kept_and_listed() {
    let mut world = World::new(
        vec![
            planned(ScopeIdentifier::PaymentMethodType(pmt("pix")), "u1"),
            planned(ScopeIdentifier::PaymentMethodType(pmt("credit")), "u2"),
            planned(ScopeIdentifier::PaymentMethodType(pmt("boleto")), "u3"),
        ],
        vec![success(Some("wh_a")), failure("c", "m"), success(Some("wh_b"))],
    );
    world.run(Scope::PaymentMethodTypes(vec![pmt("pix"), pmt("boleto")])).unwrap();
    assert_eq!(
        world.record,
        Some(json(
            r#"{"wh_a":{"type":"payment_method_type","value":"pix"},
                "wh_b":{"type":"payment_method_type","value":"boleto"}}"#
        ))
    );
    assert_eq!(
        fetch(Ok(account(world.record)), Ok(())).unwrap(),
        ("santander".to_string(), vec![("wh_a".to_string(), None), ("wh_b".to_string(), None)])
    );
}

#[test]
fn same_id_twice_keeps_the_last_scope() {
    let mut world = World::new(
        vec![
            planned(ScopeIdentifier::EventType(event("a")), "https://a"),
            planned(ScopeIdentifier::EventType(event("b")), "https://b"),
        ],
        vec![success(Some("wh")), success(Some("wh"))],
    );
    world.run(Scope::EventTypes(vec![event("a"), event("b")])).unwrap();
    assert_eq!(world.record, Some(json(r#"{"wh":{"type":"event_type","value":"b"}}"#)));
}

#[test]
fn success_without_an_id_is_not_kept() {
    let mut world = World::new(
        vec![planned(ScopeIdentifier::NotSpecific, "https://h")],
        vec![success(None)],
    );
    let response = world.run(Scope::NotSpecific).unwrap();
    assert_eq!(summary(&response), vec![("not_specific".to_string(), true, None)]);
    assert!(!world.log.contains(&"update".to_string()));
}

#[test]
fn empty_plan_to_carry_out_answers_without_results() {
    let mut world = World::new(vec![], vec![]);
    let response = world.run(Scope::NotSpecific).unwrap();
    assert!(response.results.is_empty());
    assert_eq!(response.requested.len(), 1);
}

#[test]
fn unsupported_connectors_are_not_called() {
    let mut world = World::new(vec![planned(ScopeIdentifier::NotSpecific, "https://h")], vec![]);
    world.supported = false;
    match world.run(Scope::NotSpecific) {
        Err(ApiErrorResponse::FlowNotSupported { flow, connector }) => {
            assert_eq!(flow, "Webhook Registration");
            assert_eq!(connector, "santander");
        }
        other => panic!("{:?}", other),
    }
    assert_eq!(world.log.last().unwrap(), "connector santander mca_1");
}

#[test]
fn unsupported_scopes_are_refused_early() {
    let mut world = World::new(vec![planned(ScopeIdentifier::NotSpecific, "https://h")], vec![]);
    world.plan_without_methods = vec![];
    assert!(matches!(
        world.run(Scope::NotSpecific),
        Err(ApiErrorResponse::InvalidRequestData { .. })
    ));
    assert_eq!(world.log.last().unwrap(), "plan []");
}

#[test]
fn missing_records_are_reported() {
    let mut world = World::new(vec![], vec![]);
    world.key_store = Some(StorageError::NotFound);
    assert!(matches!(
        world.run(Scope::NotSpecific),
        Err(ApiErrorResponse::MerchantAccountNotFound)
    ));
    let mut world = World::new(vec![], vec![]);
    world.account = Err(StorageError::NotFound);
    match world.run(Scope::NotSpecific) {
        Err(ApiErrorResponse::MerchantConnectorAccountNotFound { id }) => assert_eq!(id, "mca_1"),
        other => panic!("{:?}", other),
    }
    let mut world = World::new(vec![], vec![]);
    world.account = Err(StorageError::Other(ApiErrorResponse::InternalServerError));
    assert!(matches!(world.run(Scope::NotSpecific), Err(ApiErrorResponse::InternalServerError)));
}

#[test]
fn refused_profile_ends_the_run() {
    let mut world = World::new(vec![], vec![]);
    world.profile =
        Some(ApiErrorResponse::Other { code: "IR_20".to_string(), message: "p".to_string() });
    match world.run(Scope::NotSpecific) {
        Err(ApiErrorResponse::Other { code, .. }) => assert_eq!(code, "IR_20"),
        other => panic!("{:?}", other),
    }
    assert_eq!(world.log.len(), 3);
}

#[test]
fn unknown_connector_ends_the_run() {
    let mut world = World::new(vec![], vec![]);
    world.connector =
        Some(ApiErrorResponse::Other { code: "IR_04".to_string(), message: "c".to_string() });
    match world.run(Scope::NotSpecific) {
        Err(ApiErrorResponse::Other { code, .. }) => assert_eq!(code, "IR_04"),
        other => panic!("{:?}", other),
    }
    assert_eq!(world.log.last().unwrap(), "connector santander mca_1");
}

#[test]
fn unreadable_credentials_are_an_internal_error() {
    let mut world = World::new(vec![planned(ScopeIdentifier::NotSpecific, "https://h")], vec![]);
    let mut unreadable = account(None);
    unreadable.connector_account_details = Err(UnreadableCredentials);
    world.account = Ok(unreadable);
    assert!(matches!(world.run(Scope::NotSpecific), Err(ApiErrorResponse::InternalServerError)));
    assert_eq!(world.log.last().unwrap(), "plan [pix boleto pix]");
}

#[test]
fn calls_that_cannot_be_made_end_the_run() {
    let mut world = World::new(vec![planned(ScopeIdentifier::NotSpecific, "https://h")], vec![]);
    world.replies = vec![Err(ApiErrorResponse::Other {
        code: "WE_05".to_string(),
        message: "configuration failed".to_string(),
    })];
    match world.run(Scope::NotSpecific) {
        Err(ApiErrorResponse::Other { code, .. }) => assert_eq!(code, "WE_05"),
        other => panic!("{:?}", other),
    }
}

#[test]
fn details_that_are_no_object_end_the_run() {
    let mut world = World::new(
        vec![planned(ScopeIdentifier::NotSpecific, "https://h")],
        vec![success(Some("wh"))],
    );
    world.account = Ok(account(Some(json("[]"))));
    assert!(matches!(world.run(Scope::NotSpecific), Err(ApiErrorResponse::InternalServerError)));
    assert!(!world.log.contains(&"update".to_string()));
}

#[test]
fn failed_update_ends_the_run() {
    let mut world = World::new(
        vec![planned(ScopeIdentifier::NotSpecific, "https://h")],
        vec![success(Some("wh"))],
    );
    world.update_fails = true;
    match world.run(Scope::NotSpecific) {
        Err(ApiErrorResponse::DuplicateMerchantConnectorAccount {
            profile_id,
            connector_label,
        }) => {
            assert_eq!(profile_id, "pro_1");
            assert_eq!(connector_label, "santander");
        }
        other => panic!("{:?}", other),
    }
}

#[test]
fn flow_awaits_only_its_next_event() {
    let (flow, _) = register_connector_webhook(request(Scope::NotSpecific));
    assert!(flow.account().is_none());
    assert!(flow.awaits(&RegistrationEvent::KeyStore(Ok(()))));
    assert!(!flow.awaits(&RegistrationEvent::Update(Ok(()))));
    let (flow, _) =
        flow.step(RegistrationEvent::KeyStore(Err(StorageError::NotFound)), &parse_method);
    assert!(!flow.awaits(&RegistrationEvent::KeyStore(Ok(()))));
}

fn fetch(
    found: Result<MerchantConnectorAccount, StorageError>,
    verdict: Result<(), ApiErrorResponse>,
) -> Result<(String, Vec<(String, Option<String>)>), ApiErrorResponse> {
    let parse = |value: &Value| -> Option<ConnectorWebhookEventType> {
        value.as_str().map(|name| ConnectorWebhookEventType { name: name.to_string() })
    };
    let mut found = Some(found);
    let mut verdict = Some(verdict);
    let (mut flow, mut action) = fetch_connector_webhook(FetchRequest {
        merchant_id: "merchant".to_string(),
        profile_id: None,
        merchant_connector_id: "mca_1".to_string(),
    });
    loop {
        let event = match action {
            FetchAction::LoadKeyStore { merchant_id } => {
                assert_eq!(merchant_id, "merchant");
                FetchEvent::KeyStore(Ok(()))
            }
            FetchAction::LoadAccount { merchant_id, merchant_connector_id } => {
                assert_eq!(merchant_id, "merchant");
                assert_eq!(merchant_connector_id, "mca_1");
                FetchEvent::Account(found.take().unwrap())
            }
            FetchAction::CheckProfile { profile_id } => {
                assert_eq!(profile_id, None);
                assert_eq!(flow.account().unwrap().merchant_connector_id, "mca_1");
                FetchEvent::Profile(verdict.take().unwrap())
            }
            FetchAction::Finish(answer) => {
                return answer.map(|list| {
                    let mut webhooks: Vec<(String, Option<String>)> = list
                        .webhooks
                        .into_iter()
                        .map(|webhook| {
                            (webhook.connector_webhook_id, webhook.event_type.map(|e| e.name))
                        })
                        .collect();
                    webhooks.sort();
                    (list.connector, webhooks)
                });
            }
        };
        assert!(flow.awaits(&event));
        let (next, wanted) = flow.step(event, &parse);
        flow = next;
        action = wanted;
    }
}

#[test]
fn fetch_lists_the_webhooks_of_the_account() {
    let details =
        json(r#"{"wh_1":{"event_type":"all_events"},"wh_0":{"event_type":"refunds"}}"#);
    assert_eq!(
        fetch(Ok(account(Some(details))), Ok(())).unwrap(),
        (
            "santander".to_string(),
            vec![
                ("wh_0".to_string(), Some("refunds".to_string())),
                ("wh_1".to_string(), Some("all_events".to_string())),
            ]
        )
    );
    assert_eq!(fetch(Ok(account(None)), Ok(())).unwrap(), ("santander".to_string(), vec![]));
}

#[test]
fn fetch_errors() {
    match fetch(Err(StorageError::NotFound), Ok(())) {
        Err(ApiErrorResponse::MerchantConnectorAccountNotFound { id }) => assert_eq!(id, "mca_1"),
        other => panic!("{:?}", other),
    }
    let refusal = ApiErrorResponse::Other { code: "IR_20".to_string(), message: "p".to_string() };
    assert!(matches!(
        fetch(Ok(account(None)), Err(refusal)),
        Err(ApiErrorResponse::Other { .. })
    ));
    let refusal = ApiErrorResponse::Other { code: "IR_20".to_string(), message: "p".to_string() };
    assert!(matches!(
        fetch(Ok(account(Some(json("[]")))), Err(refusal)),
        Err(ApiErrorResponse::InternalServerError)
    ));
    let (flow, _) = fetch_connector_webhook(FetchRequest {
        merchant_id: "merchant".to_string(),
        profile_id: None,
        merchant_connector_id: "mca_1".to_string(),
    });
    let parse = |_: &Value| -> Option<ConnectorWebhookEventType> { None };
    let (_, action) = flow.step(FetchEvent::KeyStore(Err(StorageError::NotFound)), &parse);
    assert!(matches!(
        action,
        FetchAction::Finish(Err(ApiErrorResponse::MerchantAccountNotFound))
    ));
}

#[test]
fn registered_webhooks_can_be_fetched() {
    let mut world = World::new(
        vec![planned(ScopeIdentifier::NotSpecific, "https://h")],
        vec![success(Some("wh"))],
    );
    world.run(Scope::NotSpecific).unwrap();
    let expected = ("santander".to_string(), vec![("wh".to_string(), None)]);
    assert_eq!(fetch(Ok(account(world.record.clone())), Ok(())).unwrap(), expected);
    assert_eq!(fetch(Ok(account(world.record)), Ok(())).unwrap(), expected);
}
