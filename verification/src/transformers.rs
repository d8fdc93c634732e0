//! The single decisions and conversions of the webhook flows.

use crate::api_models::{
    ConnectorWebhookResponse, RegisterConnectorWebhookResponse, RequestedScope, Scope,
    ScopeIdentifier, ScopeType, WebhookRegistrationError, WebhookRegistrationResult,
};
use crate::domain::{
    ConnectorAuthType, ConnectorData, ConnectorReply, ConnectorWebhookData,
    ConnectorWebhookRegisterRequest, ConnectorWebhookRegisterResponse,
    ConnectorWebhookRegisterRouterData, MerchantConnectorAccount, MerchantConnectorAccountUpdate,
    PaymentContext, PaymentMethodsEnabled, PlaceholderIds, RequestPaymentMethodTypes,
};
use crate::enums::{
    ConnectorWebhookEventType, EventType, PaymentMethodType, WebhookRegistrationStatus,
};
use crate::errors::{ApiError, ApiErrorResponse};
use crate::json::{
    json_of, lists_members, member, members_of, object_members, object_value, string_value, Json,
};
use vstd::prelude::*;

verus! {

/// A copy of a document that may be missing.
fn copy_document(document: &Option<serde_json::Value>) -> (copy: Option<serde_json::Value>)
    ensures
        copy == *document,
{
    match document {
        Some(value) => Some(value.clone()),
        None => None,
    }
}

/// The data for one registration call: the account's own data, the scope and URL of this call, and
/// no payment.
pub open spec fn router_data(
    tenant_id: String,
    placeholders: PlaceholderIds,
    account: MerchantConnectorAccount,
    auth_type: ConnectorAuthType,
    scope: ScopeIdentifier,
    webhook_url: String,
) -> ConnectorWebhookRegisterRouterData {
    ConnectorWebhookRegisterRouterData {
        merchant_id: account.merchant_id,
        connector: account.connector_name,
        payment_id: placeholders.payment_id,
        tenant_id,
        attempt_id: placeholders.attempt_id,
        connector_auth_type: auth_type,
        connector_meta_data: account.metadata,
        connector_wallets_details: account.connector_wallets_details,
        request: ConnectorWebhookRegisterRequest { scope, webhook_url },
        response: None,
        connector_request_reference_id: placeholders.connector_request_reference_id,
        integrity_check: Ok(()),
        payment: PaymentContext::no_payment(),
    }
}

/// Builds the data that carries one registration to the connector.
///
/// The URL comes beside the request, because one flow may make several registrations with
/// different URLs; it is the one that is used. Credentials that cannot be read are an internal
/// error.
pub fn construct_webhook_register_router_data(
    tenant_id: &String,
    placeholders: &PlaceholderIds,
    merchant_connector_account: &MerchantConnectorAccount,
    webhook_register_request: ConnectorWebhookRegisterRequest,
    webhook_url: String,
) -> (data: Result<ConnectorWebhookRegisterRouterData, ApiErrorResponse>)
    ensures
        match merchant_connector_account.connector_account_details {
            Ok(auth_type) => data == Ok::<_, ApiErrorResponse>(
                router_data(
                    *tenant_id,
                    *placeholders,
                    *merchant_connector_account,
                    auth_type,
                    webhook_register_request.scope,
                    webhook_url,
                ),
            ),
            Err(_) => data matches Err(error) && error@ == ApiError::InternalServerError,
        },
{
    let auth_type: ConnectorAuthType = match &merchant_connector_account.connector_account_details {
        Ok(auth_type) => auth_type.clone(),
        Err(_) => return Err(ApiErrorResponse::InternalServerError),
    };
    let request = ConnectorWebhookRegisterRequest {
        scope: webhook_register_request.scope,
        webhook_url,
    };
    Ok(
        ConnectorWebhookRegisterRouterData {
            merchant_id: merchant_connector_account.merchant_id.clone(),
            connector: merchant_connector_account.connector_name.clone(),
            payment_id: placeholders.payment_id.clone(),
            tenant_id: tenant_id.clone(),
            attempt_id: placeholders.attempt_id.clone(),
            connector_auth_type: auth_type,
            connector_meta_data: copy_document(&merchant_connector_account.metadata),
            connector_wallets_details: copy_document(
                &merchant_connector_account.connector_wallets_details,
            ),
            request,
            response: None,
            connector_request_reference_id: placeholders.connector_request_reference_id.clone(),
            integrity_check: Ok(()),
            payment: PaymentContext::without_payment(),
        },
    )
}

/// What a stored registration says of the scope that was registered.
pub open spec fn scope_entry(scope: ScopeIdentifier) -> Json {
    match scope {
        ScopeIdentifier::NotSpecific => Json::Object(
            map!["type"@ => Json::Str("not_specific"@)],
        ),
        ScopeIdentifier::PaymentMethodType(pmt) => Json::Object(
            map!["type"@ => Json::Str("payment_method_type"@), "value"@ => Json::Str(pmt.name@)],
        ),
        ScopeIdentifier::EventType(event) => Json::Object(
            map!["type"@ => Json::Str("event_type"@), "value"@ => Json::Str(event.name@)],
        ),
    }
}

/// Writes down the scope that was registered.
fn encode_scope(scope: &ScopeIdentifier) -> (entry: serde_json::Value)
    ensures
        json_of(entry) == scope_entry(*scope),
{
    let mut map = serde_json::Map::new();
    match scope {
        ScopeIdentifier::NotSpecific => {
            map.insert("type".to_string(), string_value("not_specific".to_string()));
            assert(members_of(map) =~= map!["type"@ => Json::Str("not_specific"@)]);
        },
        ScopeIdentifier::PaymentMethodType(pmt) => {
            map.insert("type".to_string(), string_value("payment_method_type".to_string()));
            map.insert("value".to_string(), string_value(pmt.name.clone()));
            assert(members_of(map) =~= map![
                "type"@ => Json::Str("payment_method_type"@),
                "value"@ => Json::Str(pmt.name@)
            ]);
        },
        ScopeIdentifier::EventType(event) => {
            map.insert("type".to_string(), string_value("event_type".to_string()));
            map.insert("value".to_string(), string_value(event.name.clone()));
            assert(members_of(map) =~= map![
                "type"@ => Json::Str("event_type"@),
                "value"@ => Json::Str(event.name@)
            ]);
        },
    }
    object_value(map)
}

/// The registration details of an account; an object without members if there are none yet.
pub open spec fn stored_details(details: Option<serde_json::Value>) -> Json {
    match details {
        Some(value) => json_of(value),
        None => Json::empty_object(),
    }
}

/// The update adds nothing but the webhook `id`, for `scope`, to `details`.
pub open spec fn adds_webhook(
    update: MerchantConnectorAccountUpdate,
    details: Option<serde_json::Value>,
    id: Seq<char>,
    scope: ScopeIdentifier,
) -> bool {
    &&& stored_details(details) is Object
    &&& update.details() is Some
    &&& json_of(update.details()->0) == Json::Object(
        stored_details(details)->Object_0.insert(id, scope_entry(scope)),
    )
}

/// The change to the account record after a registration.
///
/// A registration that brought a webhook ID is added to the details that the account has, under
/// that ID, with the scope that was registered. Details that are no object are an internal error.
/// Without an ID there is nothing to keep.
pub fn construct_connector_webhook_registration_details(
    register_webhook_response: &ConnectorWebhookRegisterResponse,
    merchant_connector_account: &MerchantConnectorAccount,
    connector_webhook_register_data: &ConnectorWebhookRegisterRequest,
) -> (update: Result<MerchantConnectorAccountUpdate, ApiErrorResponse>)
    ensures
        match register_webhook_response.connector_webhook_id {
            Some(id) => {
                let details = merchant_connector_account.connector_webhook_registration_details;
                if stored_details(details) is Object {
                    update matches Ok(update) && adds_webhook(
                        update,
                        details,
                        id@,
                        connector_webhook_register_data.scope,
                    )
                } else {
                    update matches Err(error) && error@ == ApiError::InternalServerError
                }
            },
            None => update == Ok::<_, ApiErrorResponse>(
                MerchantConnectorAccountUpdate::ConnectorWebhookRegisterationUpdate {
                    connector_webhook_registration_details: None,
                },
            ),
        },
{
    match &register_webhook_response.connector_webhook_id {
        Some(id) => {
            let mut details: serde_json::Value = match &merchant_connector_account.connector_webhook_registration_details {
                Some(details) => details.clone(),
                None => object_value(serde_json::Map::new()),
            };
            match details.as_object_mut() {
                Some(map) => {
                    map.insert(id.clone(), encode_scope(&connector_webhook_register_data.scope));
                },
                None => return Err(ApiErrorResponse::InternalServerError),
            }
            Ok(
                MerchantConnectorAccountUpdate::ConnectorWebhookRegisterationUpdate {
                    connector_webhook_registration_details: Some(details),
                },
            )
        },
        None => Ok(
            MerchantConnectorAccountUpdate::ConnectorWebhookRegisterationUpdate {
                connector_webhook_registration_details: None,
            },
        ),
    }
}

/// The error for a connector at which webhooks cannot be registered.
pub open spec fn flow_not_supported(connector: ConnectorData) -> ApiError {
    ApiError::FlowNotSupported {
        flow: "Webhook Registration"@,
        connector: connector.connector_name@,
    }
}

/// The error for a scope that the connector has no plan for.
pub open spec fn scope_not_supported() -> ApiError {
    ApiError::InvalidRequestData {
        message: "Webhook registration is not supported for the requested scope"@,
    }
}

/// Checks that webhooks can be registered at the connector at all.
pub fn validate_auto_configuration(connector_data: &ConnectorData) -> (verdict: Result<
    (),
    ApiErrorResponse,
>)
    ensures
        if connector_data.is_webhook_auto_configuration_supported {
            verdict is Ok
        } else {
            verdict matches Err(error) && error@ == flow_not_supported(*connector_data)
        },
{
    if !connector_data.is_webhook_auto_configuration_supported {
        return Err(
            ApiErrorResponse::FlowNotSupported {
                flow: "Webhook Registration".to_string(),
                connector: connector_data.connector_name.clone(),
            },
        );
    }
    Ok(())
}

/// Checks that the connector can handle the requested scope.
///
/// `plan` is the connector's registration plan for the scope, made without any payment method. If
/// it is empty the scope is not supported, and the request is rejected early.
pub fn validate_webhook_registration_request(
    connector_data: &ConnectorData,
    plan: &Vec<(ScopeIdentifier, String)>,
) -> (verdict: Result<(), ApiErrorResponse>)
    ensures
        if !connector_data.is_webhook_auto_configuration_supported {
            verdict matches Err(error) && error@ == flow_not_supported(*connector_data)
        } else if plan@.len() == 0 {
            verdict matches Err(error) && error@ == scope_not_supported()
        } else {
            verdict is Ok
        },
{
    match validate_auto_configuration(connector_data) {
        Ok(_) => {},
        Err(error) => return Err(error),
    }
    if plan.len() == 0 {
        return Err(
            ApiErrorResponse::InvalidRequestData {
                message: "Webhook registration is not supported for the requested scope".to_string(),
            },
        );
    }
    Ok(())
}

/// The payment method types under one enabled payment method; none if its document could not be
/// read or names none.
pub open spec fn listed_types(method: Option<PaymentMethodsEnabled>) -> Seq<PaymentMethodType> {
    match method {
        Some(method) => match method.payment_method_types {
            Some(types) => types@.map_values(
                |listed: RequestPaymentMethodTypes| listed.payment_method_type,
            ),
            None => Seq::empty(),
        },
        None => Seq::empty(),
    }
}

/// The payment method types under all enabled payment methods, in order.
pub open spec fn all_listed_types(methods: Seq<Option<PaymentMethodsEnabled>>) -> Seq<
    PaymentMethodType,
> {
    methods.map_values(|method: Option<PaymentMethodsEnabled>| listed_types(method)).flatten()
}

/// Appends the payment method types under one enabled payment method.
fn append_listed_types(method: &Option<PaymentMethodsEnabled>, types: &mut Vec<PaymentMethodType>)
    ensures
        final(types)@ == old(types)@ + listed_types(*method),
{
    if let Some(method) = method {
        if let Some(listed) = &method.payment_method_types {
            let ghost before = types@;
            let ghost all = listed@.map_values(
                |listed: RequestPaymentMethodTypes| listed.payment_method_type,
            );
            for i in 0..listed.len()
                invariant
                    all == listed@.map_values(
                        |listed: RequestPaymentMethodTypes| listed.payment_method_type,
                    ),
                    types@ == before + all.take(i as int),
            {
                types.push(listed[i].payment_method_type.clone());
                assert(types@ =~= before + all.take(i + 1));
            }
            assert(all.take(listed@.len() as int) =~= all);
        }
    }
    assert(types@ =~= old(types)@ + listed_types(*method));
}

/// One more payment method adds its own types at the end.
pub proof fn lemma_all_listed_types_push(
    methods: Seq<Option<PaymentMethodsEnabled>>,
    method: Option<PaymentMethodsEnabled>,
)
    ensures
        all_listed_types(methods.push(method)) == all_listed_types(methods) + listed_types(method),
{
    let listed = |method: Option<PaymentMethodsEnabled>| listed_types(method);
    methods.map_values(listed).lemma_flatten_push(listed_types(method));
    assert(methods.push(method).map_values(listed) =~= methods.map_values(listed).push(
        listed_types(method),
    ));
}

/// Collects the payment method types under the enabled payment methods. `None` stands for a
/// payment method whose document could not be read; it is left out.
pub fn collect_payment_method_types(methods: &Vec<Option<PaymentMethodsEnabled>>) -> (types: Vec<
    PaymentMethodType,
>)
    ensures
        types@ == all_listed_types(methods@),
{
    let mut types: Vec<PaymentMethodType> = Vec::new();
    assert(types@ =~= all_listed_types(methods@.take(0)));
    for i in 0..methods.len()
        invariant
            types@ == all_listed_types(methods@.take(i as int)),
    {
        append_listed_types(&methods[i], &mut types);
        proof {
            lemma_all_listed_types_push(methods@.take(i as int), methods@[i as int]);
            assert(methods@.take(i + 1) =~= methods@.take(i as int).push(methods@[i as int]));
        }
    }
    assert(methods@.take(methods@.len() as int) =~= methods@);
    types
}

/// The documents of the payment methods that an account has enabled.
pub open spec fn enabled_documents(account: MerchantConnectorAccount) -> Seq<serde_json::Value> {
    match account.payment_methods_enabled {
        Some(documents) => documents@,
        None => Seq::empty(),
    }
}

/// `methods` is what `parse` can make of the documents, one for one.
pub open spec fn parses_documents<F: Fn(&serde_json::Value) -> Option<PaymentMethodsEnabled>>(
    parse: F,
    documents: Seq<serde_json::Value>,
    methods: Seq<Option<PaymentMethodsEnabled>>,
) -> bool {
    &&& methods.len() == documents.len()
    &&& forall|i: int|
        0 <= i < documents.len() ==> call_ensures(parse, (&#[trigger] documents[i],), methods[i])
}

/// The payment method types that are enabled for an account.
///
/// The account holds one document for each payment method; `parse` reads it, and gives `None` if
/// it cannot. Documents that cannot be read are left out.
pub fn get_enabled_payment_method_types<F: Fn(&serde_json::Value) -> Option<PaymentMethodsEnabled>>(
    merchant_connector_account: &MerchantConnectorAccount,
    parse: &F,
) -> (types: Vec<PaymentMethodType>)
    requires
        forall|document: &serde_json::Value| call_requires(*parse, (document,)),
    ensures
        exists|methods: Seq<Option<PaymentMethodsEnabled>>| #[trigger]
            parses_documents(*parse, enabled_documents(*merchant_connector_account), methods)
                && types@ == all_listed_types(methods),
{
    let mut methods: Vec<Option<PaymentMethodsEnabled>> = Vec::new();
    if let Some(documents) = &merchant_connector_account.payment_methods_enabled {
        for i in 0..documents.len()
            invariant
                forall|document: &serde_json::Value| call_requires(*parse, (document,)),
                parses_documents(*parse, documents@.take(i as int), methods@),
        {
            let ghost before = methods@;
            let method = parse(&documents[i]);
            methods.push(method);
            assert forall|j: int| 0 <= j < i + 1 implies call_ensures(
                *parse,
                (&#[trigger] documents@.take(i + 1)[j],),
                methods@[j],
            ) by {
                if j < i {
                    assert(documents@.take(i as int)[j] == documents@.take(i + 1)[j]);
                    assert(methods@[j] == before[j]);
                }
            }
        }
        assert(documents@.take(documents@.len() as int) =~= documents@);
    }
    assert(parses_documents(*parse, enabled_documents(*merchant_connector_account), methods@));
    collect_payment_method_types(&methods)
}

/// The discriminator that a response carries for a scope.
pub open spec fn scope_type_of(scope: RequestedScope) -> ScopeType {
    match scope {
        RequestedScope::NotSpecific => ScopeType::NotSpecific,
        RequestedScope::PaymentMethodTypes(_) => ScopeType::PaymentMethodType,
        RequestedScope::EventTypes(_) => ScopeType::EventType,
    }
}

/// The identifiers that a scope asks for: one for each of its entries, in order.
pub open spec fn requested_identifiers(scope: RequestedScope) -> Seq<ScopeIdentifier> {
    match scope {
        RequestedScope::NotSpecific => seq![ScopeIdentifier::NotSpecific],
        RequestedScope::PaymentMethodTypes(types) => types.map_values(
            |pmt: PaymentMethodType| ScopeIdentifier::PaymentMethodType(pmt),
        ),
        RequestedScope::EventTypes(types) => types.map_values(
            |event: EventType| ScopeIdentifier::EventType(event),
        ),
    }
}

/// Maps the scope of a request to the discriminator in the response.
pub fn determine_scope_type(scope: &Scope) -> (scope_type: ScopeType)
    ensures
        scope_type == scope_type_of(scope@),
{
    match scope {
        Scope::NotSpecific => ScopeType::NotSpecific,
        Scope::PaymentMethodTypes(_) => ScopeType::PaymentMethodType,
        Scope::EventTypes(_) => ScopeType::EventType,
    }
}

/// Expands a scope into the flat list of identifiers that the response gives as requested.
pub fn extract_requested_identifiers(scope: &Scope) -> (identifiers: Vec<ScopeIdentifier>)
    ensures
        identifiers@ == requested_identifiers(scope@),
{
    let mut identifiers: Vec<ScopeIdentifier> = Vec::new();
    match scope {
        Scope::NotSpecific => {
            identifiers.push(ScopeIdentifier::NotSpecific);
        },
        Scope::PaymentMethodTypes(types) => {
            for i in 0..types.len()
                invariant
                    scope@ == RequestedScope::PaymentMethodTypes(types@),
                    identifiers@ == requested_identifiers(scope@).take(i as int),
            {
                identifiers.push(ScopeIdentifier::PaymentMethodType(types[i].clone()));
                assert(identifiers@ =~= requested_identifiers(scope@).take(i + 1));
            }
        },
        Scope::EventTypes(types) => {
            for i in 0..types.len()
                invariant
                    scope@ == RequestedScope::EventTypes(types@),
                    identifiers@ == requested_identifiers(scope@).take(i as int),
            {
                identifiers.push(ScopeIdentifier::EventType(types[i].clone()));
                assert(identifiers@ =~= requested_identifiers(scope@).take(i + 1));
            }
        },
    }
    assert(identifiers@ =~= requested_identifiers(scope@));
    identifiers
}

/// Aggregates the results of the single registrations into the response.
pub fn construct_connector_webhook_registration_response(
    results: Vec<WebhookRegistrationResult>,
    scope_type: ScopeType,
    requested: Vec<ScopeIdentifier>,
) -> (response: Result<RegisterConnectorWebhookResponse, ApiErrorResponse>)
    ensures
        response == Ok::<_, ApiErrorResponse>(
            RegisterConnectorWebhookResponse { scope_type, requested, results },
        ),
{
    Ok(RegisterConnectorWebhookResponse { scope_type, requested, results })
}

/// The result of one registration, from what the connector replied: what the connector says of a
/// call that went through, a failure with the connector's own code and message of one that did not.
pub open spec fn result_of(
    identifier: ScopeIdentifier,
    reply: ConnectorReply,
) -> WebhookRegistrationResult {
    match reply {
        Ok(response) => WebhookRegistrationResult {
            identifier,
            status: response.status,
            connector_webhook_id: response.connector_webhook_id,
            error: None,
        },
        Err(error) => WebhookRegistrationResult {
            identifier,
            status: WebhookRegistrationStatus::Failure,
            connector_webhook_id: None,
            error: Some(WebhookRegistrationError { code: error.code, message: error.message }),
        },
    }
}

/// Turns the connector's reply into the result of the registration.
pub fn construct_webhook_registration_result(
    identifier: ScopeIdentifier,
    reply: ConnectorReply,
) -> (result: WebhookRegistrationResult)
    ensures
        result == result_of(identifier, reply),
{
    match reply {
        Ok(response) => WebhookRegistrationResult {
            identifier,
            status: response.status,
            connector_webhook_id: response.connector_webhook_id,
            error: None,
        },
        Err(error) => WebhookRegistrationResult {
            identifier,
            status: WebhookRegistrationStatus::Failure,
            connector_webhook_id: None,
            error: Some(WebhookRegistrationError { code: error.code, message: error.message }),
        },
    }
}

/// A copy of a text that may be missing.
fn copy_text(text: &Option<String>) -> (copy: Option<String>)
    ensures
        copy == *text,
{
    match text {
        Some(text) => Some(text.clone()),
        None => None,
    }
}

/// The result of a registration, in the form in which it is kept with the account.
pub open spec fn response_of(result: WebhookRegistrationResult) -> ConnectorWebhookRegisterResponse {
    ConnectorWebhookRegisterResponse {
        identifier: result.identifier,
        status: result.status,
        connector_webhook_id: result.connector_webhook_id,
        error_code: match result.error {
            Some(error) => Some(error.code),
            None => None,
        },
        error_message: match result.error {
            Some(error) => Some(error.message),
            None => None,
        },
    }
}

/// Puts the result of a registration into the form in which it is kept with the account.
pub fn construct_webhook_register_response(result: &WebhookRegistrationResult) -> (response:
    ConnectorWebhookRegisterResponse)
    ensures
        response == response_of(*result),
{
    let (error_code, error_message) = match &result.error {
        Some(error) => (Some(error.code.clone()), Some(error.message.clone())),
        None => (None, None),
    };
    ConnectorWebhookRegisterResponse {
        identifier: result.identifier.clone(),
        status: result.status,
        connector_webhook_id: copy_text(&result.connector_webhook_id),
        error_code,
        error_message,
    }
}

/// Where a stored registration says which event type it is for: in its member `event_type`, or, if
/// it is written as a list, in its only item.
pub open spec fn stored_event_type(entry: Json) -> Option<Json> {
    match entry {
        Json::Object(members) => if members.contains_key("event_type"@) {
            Some(members["event_type"@])
        } else {
            None
        },
        Json::Array(items) => if items.len() == 1 {
            Some(items[0])
        } else {
            None
        },
        _ => None,
    }
}

/// Finds where a stored registration says which event type it is for.
fn find_event_type(entry: &serde_json::Value) -> (found: Option<&serde_json::Value>)
    ensures
        match found {
            Some(value) => stored_event_type(json_of(*entry)) == Some(json_of(*value)),
            None => stored_event_type(json_of(*entry)) is None,
        },
{
    match entry.as_array() {
        Some(items) => if items.len() == 1 {
            Some(&items[0])
        } else {
            None
        },
        None => member(entry, "event_type"),
    }
}

/// The stored registration says which scope was registered, as `scope_entry` has it.
pub open spec fn tells_scope(entry: Json) -> bool {
    exists|scope: ScopeIdentifier| entry == #[trigger] scope_entry(scope)
}

/// The words in stored registrations differ from each other.
pub proof fn lemma_words_differ()
    ensures
        "not_specific"@ != "payment_method_type"@,
        "not_specific"@ != "event_type"@,
        "payment_method_type"@ != "event_type"@,
        "type"@ != "value"@,
        "event_type"@ != "type"@,
        "event_type"@ != "value"@,
{
    reveal_strlit("not_specific");
    reveal_strlit("payment_method_type");
    reveal_strlit("event_type");
    reveal_strlit("type");
    reveal_strlit("value");
    assert("not_specific"@.len() == 12);
    assert("payment_method_type"@.len() == 19);
    assert("event_type"@.len() == 10);
    assert("type"@.len() == 4);
    assert("value"@.len() == 5);
}

/// A registration for a kind of scope has a type and a value, one that is not specific only a type.
proof fn lemma_scope_entry_len(scope: ScopeIdentifier, pairs: Seq<(String, serde_json::Value)>)
    requires
        lists_members(pairs, scope_entry(scope)->Object_0),
    ensures
        pairs.len() == if scope is NotSpecific {
            1int
        } else {
            2
        },
{
    lemma_words_differ();
    let members = scope_entry(scope)->Object_0;
    assert(members.contains_key("type"@));
    let first = choose|i: int| 0 <= i < pairs.len() && (#[trigger] pairs[i]).0@ == "type"@;
    if scope is NotSpecific {
        if pairs.len() > 1 {
            assert(members.contains_key(pairs[0].0@));
            assert(members.contains_key(pairs[1].0@));
        }
    } else {
        assert(members.contains_key("value"@));
        let second = choose|i: int| 0 <= i < pairs.len() && (#[trigger] pairs[i]).0@ == "value"@;
        if pairs.len() > 2 {
            assert(members.contains_key(pairs[0].0@));
            assert(members.contains_key(pairs[1].0@));
            assert(members.contains_key(pairs[2].0@));
        }
    }
}

/// An object with one member that has a type has nothing else.
proof fn lemma_only_type(pairs: Seq<(String, serde_json::Value)>, members: Map<Seq<char>, Json>)
    requires
        lists_members(pairs, members),
        pairs.len() == 1,
        members.contains_key("type"@),
    ensures
        members == map!["type"@ => members["type"@]],
{
    assert forall|key: Seq<char>| members.contains_key(key) implies key == "type"@ by {
        let i = choose|i: int| 0 <= i < pairs.len() && (#[trigger] pairs[i]).0@ == key;
        let j = choose|i: int| 0 <= i < pairs.len() && (#[trigger] pairs[i]).0@ == "type"@;
        assert(i == j);
    }
    assert(members =~= map!["type"@ => members["type"@]]);
}

/// An object with two members that has a type and a value has nothing else.
proof fn lemma_only_type_and_value(
    pairs: Seq<(String, serde_json::Value)>,
    members: Map<Seq<char>, Json>,
)
    requires
        lists_members(pairs, members),
        pairs.len() == 2,
        members.contains_key("type"@),
        members.contains_key("value"@),
    ensures
        members == map!["type"@ => members["type"@], "value"@ => members["value"@]],
{
    lemma_words_differ();
    assert forall|key: Seq<char>| members.contains_key(key) implies key == "type"@ || key
        == "value"@ by {
        let i = choose|i: int| 0 <= i < pairs.len() && (#[trigger] pairs[i]).0@ == key;
        let j = choose|i: int| 0 <= i < pairs.len() && (#[trigger] pairs[i]).0@ == "type"@;
        let k = choose|i: int| 0 <= i < pairs.len() && (#[trigger] pairs[i]).0@ == "value"@;
        assert(j != k);
        assert(i == j || i == k);
    }
    assert(members =~= map!["type"@ => members["type"@], "value"@ => members["value"@]]);
}

/// Whether a value is the string with this text.
fn is_text(value: &serde_json::Value, text: &str) -> (same: bool)
    ensures
        same == (json_of(*value) == Json::Str(text@)),
{
    match value.as_str() {
        Some(found) => found.to_string() == text.to_string(),
        None => false,
    }
}

/// Whether a stored registration says which scope was registered.
fn is_scope_entry(entry: &serde_json::Value) -> (told: bool)
    ensures
        told == tells_scope(json_of(*entry)),
{
    let members: Vec<(String, serde_json::Value)> = match object_members(entry.clone()) {
        Ok(members) => members,
        Err(_) => return false,
    };
    let ghost held = json_of(*entry)->Object_0;
    proof {
        lemma_words_differ();
        assert forall|scope: ScopeIdentifier| json_of(*entry) == #[trigger] scope_entry(
            scope,
        ) implies held.contains_key("type"@) && (if scope is NotSpecific {
            members@.len() == 1 && held["type"@] == Json::Str("not_specific"@)
        } else {
            &&& members@.len() == 2
            &&& held.contains_key("value"@)
            &&& held["value"@] is Str
            &&& held["type"@] == Json::Str("payment_method_type"@) || held["type"@] == Json::Str(
                "event_type"@,
            )
        }) by {
            lemma_scope_entry_len(scope, members@);
        }
    }
    let kind: &serde_json::Value = match member(entry, "type") {
        Some(kind) => kind,
        None => return false,
    };
    if members.len() == 1 {
        proof {
            lemma_only_type(members@, held);
            assert(scope_entry(ScopeIdentifier::NotSpecific) == Json::Object(
                map!["type"@ => Json::Str("not_specific"@)],
            ));
        }
        return is_text(kind, "not_specific");
    }
    if members.len() != 2 {
        return false;
    }
    let value: &serde_json::Value = match member(entry, "value") {
        Some(value) => value,
        None => return false,
    };
    let name: String = match value.as_str() {
        Some(name) => name.to_string(),
        None => return false,
    };
    proof {
        lemma_only_type_and_value(members@, held);
        let pmt = ScopeIdentifier::PaymentMethodType(PaymentMethodType { name });
        let event = ScopeIdentifier::EventType(EventType { name });
        assert(held["type"@] == Json::Str("payment_method_type"@) ==> json_of(*entry)
            == scope_entry(pmt));
        assert(held["type"@] == Json::Str("event_type"@) ==> json_of(*entry) == scope_entry(event));
    }
    is_text(kind, "payment_method_type") || is_text(kind, "event_type")
}

/// `parse` can make `outcome` of a document that holds `json`.
pub open spec fn can_parse<F: Fn(&serde_json::Value) -> Option<ConnectorWebhookEventType>>(
    parse: F,
    json: Json,
    outcome: Option<ConnectorWebhookEventType>,
) -> bool {
    exists|value: &serde_json::Value|
        json_of(*value) == json && #[trigger] call_ensures(parse, (value,), outcome)
}

/// The stored registration can be read as one for `event_type`: one that says an event type as one
/// for what `parse` makes of it, one that says its scope instead as one for none.
pub open spec fn readable_as<F: Fn(&serde_json::Value) -> Option<ConnectorWebhookEventType>>(
    parse: F,
    entry: Json,
    event_type: Option<ConnectorWebhookEventType>,
) -> bool {
    match stored_event_type(entry) {
        Some(json) => event_type is Some && can_parse(parse, json, event_type),
        None => event_type is None && tells_scope(entry),
    }
}

/// Reading the stored registration can fail: it says an event type that `parse` does not take, or
/// neither an event type nor its scope.
pub open spec fn unreadable<F: Fn(&serde_json::Value) -> Option<ConnectorWebhookEventType>>(
    parse: F,
    entry: Json,
) -> bool {
    match stored_event_type(entry) {
        Some(json) => can_parse(parse, json, None),
        None => !tells_scope(entry),
    }
}

/// Reads a stored registration.
fn read_webhook_data<F: Fn(&serde_json::Value) -> Option<ConnectorWebhookEventType>>(
    entry: &serde_json::Value,
    parse: &F,
) -> (data: Option<ConnectorWebhookData>)
    requires
        forall|value: &serde_json::Value| call_requires(*parse, (value,)),
    ensures
        match data {
            Some(data) => readable_as(*parse, json_of(*entry), data.event_type),
            None => unreadable(*parse, json_of(*entry)),
        },
{
    match find_event_type(entry) {
        Some(value) => match parse(value) {
            Some(event_type) => Some(ConnectorWebhookData { event_type: Some(event_type) }),
            None => None,
        },
        None => if is_scope_entry(entry) {
            Some(ConnectorWebhookData { event_type: None })
        } else {
            None
        },
    }
}

/// The list has each of the stored webhooks once, with an event type that it can be read as.
pub open spec fn lists_webhooks<F: Fn(&serde_json::Value) -> Option<ConnectorWebhookEventType>>(
    parse: F,
    stored: Map<Seq<char>, Json>,
    webhooks: Seq<ConnectorWebhookResponse>,
) -> bool {
    &&& forall|i: int, j: int|
        0 <= i < j < webhooks.len() ==> (#[trigger] webhooks[i]).connector_webhook_id@ != (
        #[trigger] webhooks[j]).connector_webhook_id@
    &&& forall|i: int|
        0 <= i < webhooks.len() ==> stored.contains_key(
            (#[trigger] webhooks[i]).connector_webhook_id@,
        ) && readable_as(
            parse,
            stored[webhooks[i].connector_webhook_id@],
            webhooks[i].event_type,
        )
    &&& forall|id: Seq<char>| #[trigger]
        stored.contains_key(id) ==> exists|i: int|
            0 <= i < webhooks.len() && (#[trigger] webhooks[i]).connector_webhook_id@ == id
}

/// Some of the stored webhooks can turn out unreadable.
pub open spec fn has_unreadable<F: Fn(&serde_json::Value) -> Option<ConnectorWebhookEventType>>(
    parse: F,
    stored: Map<Seq<char>, Json>,
) -> bool {
    exists|id: Seq<char>| #[trigger] stored.contains_key(id) && unreadable(parse, stored[id])
}

/// Lists the webhooks in the registration details of an account.
///
/// `parse` reads an event type, and gives `None` if it cannot. A webhook whose entry says which
/// scope was registered, as new registrations do, is listed without an event type. Details that are
/// no object, and a webhook whose entry cannot be read, are an internal error. The webhooks come in
/// no particular order.
pub fn get_connector_webhook_list_response<
    F: Fn(&serde_json::Value) -> Option<ConnectorWebhookEventType>,
>(register_webhook_response: &Option<serde_json::Value>, parse: &F) -> (webhooks: Result<
    Vec<ConnectorWebhookResponse>,
    ApiErrorResponse,
>)
    requires
        forall|value: &serde_json::Value| call_requires(*parse, (value,)),
    ensures
        match stored_details(*register_webhook_response) {
            Json::Object(stored) => match webhooks {
                Ok(webhooks) => lists_webhooks(*parse, stored, webhooks@),
                Err(error) => error@ == ApiError::InternalServerError && has_unreadable(
                    *parse,
                    stored,
                ),
            },
            _ => webhooks matches Err(error) && error@ == ApiError::InternalServerError,
        },
{
    let details: serde_json::Value = match register_webhook_response {
        Some(details) => details.clone(),
        None => return Ok(Vec::new()),
    };
    let entries: Vec<(String, serde_json::Value)> = match object_members(details) {
        Ok(entries) => entries,
        Err(_) => return Err(ApiErrorResponse::InternalServerError),
    };
    let ghost stored = json_of(details)->Object_0;
    let mut webhooks: Vec<ConnectorWebhookResponse> = Vec::new();
    for i in 0..entries.len()
        invariant
            forall|value: &serde_json::Value| call_requires(*parse, (value,)),
            *register_webhook_response == Some(details),
            json_of(details) == Json::Object(stored),
            lists_members(entries@, stored),
            webhooks@.len() == i,
            forall|j: int|
                0 <= j < i ==> (#[trigger] webhooks@[j]).connector_webhook_id == entries@[j].0
                    && readable_as(*parse, stored[entries@[j].0@], webhooks@[j].event_type),
    {
        match read_webhook_data(&entries[i].1, parse) {
            Some(data) => webhooks.push(
                ConnectorWebhookResponse {
                    event_type: data.event_type,
                    connector_webhook_id: entries[i].0.clone(),
                },
            ),
            None => {
                assert(stored.contains_key(entries@[i as int].0@));
                return Err(ApiErrorResponse::InternalServerError);
            },
        }
    }
    assert(lists_webhooks(*parse, stored, webhooks@)) by {
        assert forall|id: Seq<char>| #[trigger] stored.contains_key(id) implies exists|i: int|
            0 <= i < webhooks@.len() && (#[trigger] webhooks@[i]).connector_webhook_id@ == id by {
            let i = choose|i: int| 0 <= i < entries@.len() && (#[trigger] entries@[i]).0@ == id;
            assert(webhooks@[i].connector_webhook_id@ == id);
        }
    }
    Ok(webhooks)
}

} // verus!
