//! What the single operations are for: how each result relates to what was given, field by field.

use crate::api_models::{
    ConnectorWebhookResponse, RegisterConnectorWebhookResponse, Scope, ScopeIdentifier, ScopeType,
    WebhookRegistrationResult,
};
use crate::domain::{
    ConnectorData, ConnectorReply, ConnectorWebhookRegisterRequest,
    ConnectorWebhookRegisterResponse, ConnectorWebhookRegisterRouterData, MerchantConnectorAccount,
    MerchantConnectorAccountUpdate, PaymentContext, PaymentMethodsEnabled, PlaceholderIds,
};
use crate::enums::{ConnectorWebhookEventType, PaymentMethodType, WebhookRegistrationStatus};
use crate::errors::{ApiErrorResponse, StorageError};
use crate::json::{json_of, Json};
use crate::transformers::{
    all_listed_types, collect_payment_method_types,
    construct_connector_webhook_registration_details,
    construct_connector_webhook_registration_response, construct_webhook_register_response,
    construct_webhook_register_router_data, construct_webhook_registration_result,
    determine_scope_type, enabled_documents, extract_requested_identifiers,
    get_connector_webhook_list_response, get_enabled_payment_method_types, has_unreadable,
    lemma_all_listed_types_push, lemma_words_differ, listed_types, lists_webhooks, parses_documents,
    readable_as, scope_entry, tells_scope, unreadable, validate_auto_configuration,
    validate_webhook_registration_request,
};
use vstd::prelude::*;

verus! {

/// The two errors are the same: of the same kind, and with the same texts.
pub open spec fn same_error(a: ApiErrorResponse, b: ApiErrorResponse) -> bool {
    match a {
        ApiErrorResponse::MerchantAccountNotFound => b is MerchantAccountNotFound,
        ApiErrorResponse::MerchantConnectorAccountNotFound { id } => {
            b matches ApiErrorResponse::MerchantConnectorAccountNotFound { id: other } && id@
                == other@
        },
        ApiErrorResponse::FlowNotSupported { flow, connector } => {
            b matches ApiErrorResponse::FlowNotSupported { flow: other, connector: another } && flow@
                == other@ && connector@ == another@
        },
        ApiErrorResponse::InvalidRequestData { message } => {
            b matches ApiErrorResponse::InvalidRequestData { message: other } && message@ == other@
        },
        ApiErrorResponse::DuplicateMerchantConnectorAccount { profile_id, connector_label } => {
            b matches ApiErrorResponse::DuplicateMerchantConnectorAccount {
                profile_id: other,
                connector_label: another,
            } && profile_id@ == other@ && connector_label@ == another@
        },
        ApiErrorResponse::InternalServerError => b is InternalServerError,
        ApiErrorResponse::Other { code, message } => {
            b matches ApiErrorResponse::Other { code: other, message: another } && code@ == other@
                && message@ == another@
        },
    }
}

/// The error says that webhooks cannot be registered at this connector.
pub open spec fn denies_flow(error: ApiErrorResponse, connector: ConnectorData) -> bool {
    error matches ApiErrorResponse::FlowNotSupported { flow, connector: name } && flow@
        == "Webhook Registration"@ && name@ == connector.connector_name@
}

/// The error says that the connector does not support the scope.
pub open spec fn denies_scope(error: ApiErrorResponse) -> bool {
    error matches ApiErrorResponse::InvalidRequestData { message } && message@
        == "Webhook registration is not supported for the requested scope"@
}

/// The two scopes ask for the same.
pub open spec fn same_scope(a: Scope, b: Scope) -> bool {
    match a {
        Scope::NotSpecific => b is NotSpecific,
        Scope::PaymentMethodTypes(types) => b matches Scope::PaymentMethodTypes(others) && types@
            == others@,
        Scope::EventTypes(types) => b matches Scope::EventTypes(others) && types@ == others@,
    }
}

/// The scope type is that of the scope.
pub open spec fn is_type_of(scope_type: ScopeType, scope: Scope) -> bool {
    &&& scope_type is NotSpecific <==> scope is NotSpecific
    &&& scope_type is PaymentMethodType <==> scope is PaymentMethodTypes
    &&& scope_type is EventType <==> scope is EventTypes
}

/// The identifiers are those that the scope asks for, one for each entry, in order.
pub open spec fn are_identifiers_of(identifiers: Seq<ScopeIdentifier>, scope: Scope) -> bool {
    match scope {
        Scope::NotSpecific => identifiers.len() == 1 && identifiers[0] is NotSpecific,
        Scope::PaymentMethodTypes(types) => {
            &&& identifiers.len() == types@.len()
            &&& forall|i: int|
                0 <= i < types@.len() ==> #[trigger] identifiers[i]
                    == ScopeIdentifier::PaymentMethodType(types@[i])
        },
        Scope::EventTypes(types) => {
            &&& identifiers.len() == types@.len()
            &&& forall|i: int|
                0 <= i < types@.len() ==> #[trigger] identifiers[i] == ScopeIdentifier::EventType(
                    types@[i],
                )
        },
    }
}

/// The entry has a type that tells the kind of the scope and, for a scope that has a name, that
/// name as its value; and it has nothing else.
pub open spec fn describes(entry: Json, scope: ScopeIdentifier) -> bool {
    entry matches Json::Object(members) && {
        &&& members.contains_key("type"@)
        &&& members["type"@] == Json::Str("not_specific"@) <==> scope is NotSpecific
        &&& members["type"@] == Json::Str("payment_method_type"@) <==> scope is PaymentMethodType
        &&& members["type"@] == Json::Str("event_type"@) <==> scope is EventType
        &&& members.contains_key("value"@) <==> !(scope is NotSpecific)
        &&& scope matches ScopeIdentifier::PaymentMethodType(pmt) ==> members["value"@]
            == Json::Str(pmt.name@)
        &&& scope matches ScopeIdentifier::EventType(event) ==> members["value"@] == Json::Str(
            event.name@,
        )
        &&& forall|key: Seq<char>| #[trigger]
            members.contains_key(key) ==> key == "type"@ || key == "value"@
    }
}

/// The result is for the identifier and says what the connector replied.
pub open spec fn reports(
    result: WebhookRegistrationResult,
    identifier: ScopeIdentifier,
    reply: ConnectorReply,
) -> bool {
    &&& result.identifier == identifier
    &&& reply matches Ok(response) ==> {
        &&& result.status == response.status
        &&& result.connector_webhook_id == response.connector_webhook_id
        &&& result.error is None
    }
    &&& reply matches Err(error) ==> {
        &&& result.status == WebhookRegistrationStatus::Failure
        &&& result.connector_webhook_id is None
        &&& result.error matches Some(told) && told.code == error.code && told.message
            == error.message
    }
}

/// Nothing in the context speaks of a payment.
pub open spec fn is_without_payment(context: PaymentContext) -> bool {
    &&& context.customer_id is None
    &&& context.connector_customer is None
    &&& context.status is None
    &&& context.payment_method is None
    &&& context.payment_method_type is None
    &&& context.description is None
    &&& context.address is None
    &&& context.auth_type is None
    &&& context.amount_captured is None
    &&& context.minor_amount_captured is None
    &&& context.access_token is None
    &&& context.session_token is None
    &&& context.reference_id is None
    &&& context.payment_method_token is None
    &&& context.recurring_mandate_payment_data is None
    &&& context.preprocessing_id is None
    &&& context.payment_method_balance is None
    &&& context.connector_api_version is None
    &&& context.payout_method_data is None
    &&& context.quote_id is None
    &&& context.test_mode is None
    &&& context.connector_http_status_code is None
    &&& context.external_latency is None
    &&& context.apple_pay_flow is None
    &&& context.frm_metadata is None
    &&& context.dispute_id is None
    &&& context.refund_id is None
    &&& context.payment_method_status is None
    &&& context.connector_response is None
    &&& context.additional_merchant_data is None
    &&& context.header_payload is None
    &&& context.connector_mandate_request_reference_id is None
    &&& context.authentication_id is None
    &&& context.psd2_sca_exemption_type is None
    &&& context.raw_connector_response is None
    &&& context.is_payment_id_from_merchant is None
    &&& context.l2_l3_data is None
    &&& context.minor_amount_capturable is None
    &&& context.authorized_amount is None
    &&& context.payout_id is None
    &&& context.customer_document_details is None
    &&& context.feature_data is None
    &&& context.sender_payment_instrument_id is None
}

/// The data carries this scope and URL, the account's own data, and no payment.
pub open spec fn carries(
    data: ConnectorWebhookRegisterRouterData,
    tenant_id: String,
    placeholders: PlaceholderIds,
    account: MerchantConnectorAccount,
    scope: ScopeIdentifier,
    webhook_url: String,
) -> bool {
    &&& data.request.scope == scope
    &&& data.request.webhook_url == webhook_url
    &&& data.merchant_id == account.merchant_id
    &&& data.connector == account.connector_name
    &&& account.connector_account_details matches Ok(auth_type) && data.connector_auth_type
        == auth_type
    &&& data.connector_meta_data == account.metadata
    &&& data.connector_wallets_details == account.connector_wallets_details
    &&& data.tenant_id == tenant_id
    &&& data.payment_id == placeholders.payment_id
    &&& data.attempt_id == placeholders.attempt_id
    &&& data.connector_request_reference_id == placeholders.connector_request_reference_id
    &&& data.response is None
    &&& data.integrity_check is Ok
    &&& is_without_payment(data.payment)
}

/// The members of registration details, none if there are no details yet. Details that are no
/// object have no members to speak of.
pub open spec fn members_in(details: Option<serde_json::Value>) -> Option<Map<Seq<char>, Json>> {
    match details {
        None => Some(Map::empty()),
        Some(value) => match json_of(value) {
            Json::Object(members) => Some(members),
            _ => None,
        },
    }
}

/// The payment method types under the payment methods that could be read, one after the other.
pub open spec fn types_under(methods: Seq<Option<PaymentMethodsEnabled>>) -> Seq<PaymentMethodType>
    decreases methods.len(),
{
    if methods.len() == 0 {
        Seq::empty()
    } else {
        let before = types_under(methods.drop_last());
        match methods.last() {
            Some(method) => match method.payment_method_types {
                Some(types) => before + Seq::new(
                    types@.len(),
                    |i: int| types@[i].payment_method_type,
                ),
                None => before,
            },
            None => before,
        }
    }
}

/// The types are those under the documents in `payment_methods_enabled`: each document is read
/// once, in order, and none is passed over.
pub open spec fn are_types_enabled<F: Fn(&serde_json::Value) -> Option<PaymentMethodsEnabled>>(
    types: Seq<PaymentMethodType>,
    parse: F,
    account: MerchantConnectorAccount,
) -> bool {
    match account.payment_methods_enabled {
        None => types.len() == 0,
        Some(documents) => exists|methods: Seq<Option<PaymentMethodsEnabled>>|
            {
                &&& methods.len() == documents@.len()
                &&& forall|i: int|
                    0 <= i < documents@.len() ==> call_ensures(
                        parse,
                        (&#[trigger] documents@[i],),
                        methods[i],
                    )
                &&& types == #[trigger] types_under(methods)
            },
    }
}

/// The entry says this event type: `parse` makes it of the member `event_type` or of the only item
/// of a list. Or the entry says the scope that was registered instead, and there is no event type.
pub open spec fn says_event_type<F: Fn(&serde_json::Value) -> Option<ConnectorWebhookEventType>>(
    parse: F,
    entry: Json,
    event_type: Option<ConnectorWebhookEventType>,
) -> bool {
    match entry {
        Json::Object(members) => if members.contains_key("event_type"@) {
            event_type is Some && exists|value: &serde_json::Value|
                json_of(*value) == members["event_type"@] && #[trigger] call_ensures(
                    parse,
                    (value,),
                    event_type,
                )
        } else {
            event_type is None && exists|scope: ScopeIdentifier| #[trigger] describes(entry, scope)
        },
        Json::Array(items) => items.len() == 1 && event_type is Some
            && exists|value: &serde_json::Value|
            json_of(*value) == items[0] && #[trigger] call_ensures(parse, (value,), event_type),
        _ => false,
    }
}

/// The entry says no event type that `parse` takes, and not which scope was registered.
pub open spec fn says_nothing<F: Fn(&serde_json::Value) -> Option<ConnectorWebhookEventType>>(
    parse: F,
    entry: Json,
) -> bool {
    match entry {
        Json::Object(members) => if members.contains_key("event_type"@) {
            exists|value: &serde_json::Value|
                json_of(*value) == members["event_type"@] && #[trigger] call_ensures(
                    parse,
                    (value,),
                    None,
                )
        } else {
            forall|scope: ScopeIdentifier| !#[trigger] describes(entry, scope)
        },
        Json::Array(items) => items.len() == 1 ==> exists|value: &serde_json::Value|
            json_of(*value) == items[0] && #[trigger] call_ensures(parse, (value,), None),
        _ => true,
    }
}

/// The list has one webhook for each member, under the member's key as its ID and with the event
/// type that the member says, and no other.
pub open spec fn lists_all<F: Fn(&serde_json::Value) -> Option<ConnectorWebhookEventType>>(
    webhooks: Seq<ConnectorWebhookResponse>,
    parse: F,
    members: Map<Seq<char>, Json>,
) -> bool {
    &&& forall|i: int, j: int|
        0 <= i < webhooks.len() && 0 <= j < webhooks.len() && (
        #[trigger] webhooks[i]).connector_webhook_id@ == (
        #[trigger] webhooks[j]).connector_webhook_id@ ==> i == j
    &&& forall|i: int|
        0 <= i < webhooks.len() ==> {
            let id = (#[trigger] webhooks[i]).connector_webhook_id@;
            members.contains_key(id) && says_event_type(parse, members[id], webhooks[i].event_type)
        }
    &&& forall|id: Seq<char>| #[trigger]
        members.contains_key(id) ==> exists|i: int|
            0 <= i < webhooks.len() && (#[trigger] webhooks[i]).connector_webhook_id@ == id
}

/// The outcome of listing the details: all the webhooks; or an internal error, if the details are
/// no object or hold an entry that says nothing.
pub open spec fn is_listing_of<F: Fn(&serde_json::Value) -> Option<ConnectorWebhookEventType>>(
    outcome: Result<Vec<ConnectorWebhookResponse>, ApiErrorResponse>,
    parse: F,
    details: Option<serde_json::Value>,
) -> bool {
    match members_in(details) {
        None => outcome matches Err(error) && error is InternalServerError,
        Some(members) => match outcome {
            Ok(webhooks) => lists_all(webhooks@, parse, members),
            Err(error) => error is InternalServerError && exists|id: Seq<char>| #[trigger]
                members.contains_key(id) && says_nothing(parse, members[id]),
        },
    }
}

/// The data for a call carries the given scope and URL, and the account's merchant, connector,
/// credentials, metadata and wallet details. It is made if and only if the credentials can be read.
pub proof fn law_router_data_carries_the_call(
    tenant_id: String,
    placeholders: PlaceholderIds,
    account: MerchantConnectorAccount,
    request: ConnectorWebhookRegisterRequest,
    webhook_url: String,
    data: Result<ConnectorWebhookRegisterRouterData, ApiErrorResponse>,
)
    requires
        call_ensures(
            construct_webhook_register_router_data,
            (&tenant_id, &placeholders, &account, request, webhook_url),
            data,
        ),
    ensures
        data is Ok <==> account.connector_account_details is Ok,
        data matches Ok(data) ==> carries(
            data,
            tenant_id,
            placeholders,
            account,
            request.scope,
            webhook_url,
        ),
        data matches Err(error) ==> error is InternalServerError,
{
}

/// What is stored for a scope tells the kind of the scope and its name.
pub proof fn law_stored_scopes_tell_kind_and_name(scope: ScopeIdentifier)
    ensures
        describes(scope_entry(scope), scope),
{
    lemma_words_differ();
}

/// An entry that tells a kind of scope and its name is what is stored for that scope.
pub proof fn law_described_scopes_are_stored_so(entry: Json, scope: ScopeIdentifier)
    requires
        describes(entry, scope),
    ensures
        entry == scope_entry(scope),
        tells_scope(entry),
{
    lemma_words_differ();
    law_stored_scopes_tell_kind_and_name(scope);
    assert(entry->Object_0 =~= scope_entry(scope)->Object_0);
}

/// After a registration that brought an ID, the details have under that ID an entry that tells the
/// scope of the call, and have all else as it was. A registration without an ID changes nothing.
pub proof fn law_details_gain_the_webhook(
    response: ConnectorWebhookRegisterResponse,
    account: MerchantConnectorAccount,
    call: ConnectorWebhookRegisterRequest,
    update: Result<MerchantConnectorAccountUpdate, ApiErrorResponse>,
)
    requires
        call_ensures(
            construct_connector_webhook_registration_details,
            (&response, &account, &call),
            update,
        ),
    ensures
        match response.connector_webhook_id {
            None => update matches Ok(
                MerchantConnectorAccountUpdate::ConnectorWebhookRegisterationUpdate {
                    connector_webhook_registration_details: details,
                },
            ) && details is None,
            Some(id) => match members_in(account.connector_webhook_registration_details) {
                None => update matches Err(error) && error is InternalServerError,
                Some(before) => update matches Ok(
                    MerchantConnectorAccountUpdate::ConnectorWebhookRegisterationUpdate {
                        connector_webhook_registration_details: details,
                    },
                ) && details is Some && (json_of(details->0) matches Json::Object(after) && {
                    &&& after.contains_key(id@)
                    &&& describes(after[id@], call.scope)
                    &&& forall|other: Seq<char>|
                        other != id@ ==> (#[trigger] after.contains_key(other)
                            <==> before.contains_key(other))
                    &&& forall|other: Seq<char>|
                        other != id@ && before.contains_key(other) ==> #[trigger] after[other]
                            == before[other]
                }),
            },
        },
{
    law_stored_scopes_tell_kind_and_name(call.scope);
}

/// An update changes the details of the account to those that it has, if it has any, and no other
/// field.
pub proof fn law_updates_change_only_the_details(
    account: MerchantConnectorAccount,
    details: Option<serde_json::Value>,
    after: MerchantConnectorAccount,
)
    requires
        call_ensures(
            MerchantConnectorAccount::apply,
            (
                account,
                &MerchantConnectorAccountUpdate::ConnectorWebhookRegisterationUpdate {
                    connector_webhook_registration_details: details,
                },
            ),
            after,
        ),
    ensures
        after.connector_webhook_registration_details == if details is Some {
            details
        } else {
            account.connector_webhook_registration_details
        },
        after.merchant_id == account.merchant_id,
        after.merchant_connector_id == account.merchant_connector_id,
        after.profile_id == account.profile_id,
        after.connector_name == account.connector_name,
        after.connector_account_details == account.connector_account_details,
        after.metadata == account.metadata,
        after.connector_wallets_details == account.connector_wallets_details,
        after.payment_methods_enabled == account.payment_methods_enabled,
{
}

/// The details of an update are those that it was made with.
pub proof fn law_updates_have_their_details(details: Option<serde_json::Value>)
    ensures
        (MerchantConnectorAccountUpdate::ConnectorWebhookRegisterationUpdate {
            connector_webhook_registration_details: details,
        }).details() == details,
{
}

/// A connector passes the first check if and only if it takes registrations; the error names the
/// flow and the connector.
pub proof fn law_connectors_must_take_registrations(
    connector: ConnectorData,
    verdict: Result<(), ApiErrorResponse>,
)
    requires
        call_ensures(validate_auto_configuration, (&connector,), verdict),
    ensures
        verdict is Ok <==> connector.is_webhook_auto_configuration_supported,
        verdict matches Err(error) ==> denies_flow(error, connector),
{
}

/// A request passes if and only if the connector takes registrations and has a plan for the scope;
/// each ground for refusal has its own error, and that of the connector comes first.
pub proof fn law_requests_need_a_plan(
    connector: ConnectorData,
    plan: Vec<(ScopeIdentifier, String)>,
    verdict: Result<(), ApiErrorResponse>,
)
    requires
        call_ensures(validate_webhook_registration_request, (&connector, &plan), verdict),
    ensures
        verdict is Ok <==> connector.is_webhook_auto_configuration_supported && plan@.len() > 0,
        verdict matches Err(error) ==> if connector.is_webhook_auto_configuration_supported {
            denies_scope(error)
        } else {
            denies_flow(error, connector)
        },
{
}

proof fn lemma_types_under(methods: Seq<Option<PaymentMethodsEnabled>>)
    ensures
        types_under(methods) == all_listed_types(methods),
    decreases methods.len(),
{
    if methods.len() == 0 {
        assert(all_listed_types(methods) =~= Seq::empty());
    } else {
        lemma_types_under(methods.drop_last());
        lemma_all_listed_types_push(methods.drop_last(), methods.last());
        assert(methods.drop_last().push(methods.last()) =~= methods);
        assert(types_under(methods) =~= types_under(methods.drop_last()) + listed_types(
            methods.last(),
        ));
    }
}

/// The types that are collected are those under the payment methods, one after the other.
pub proof fn law_all_types_are_collected(
    methods: Vec<Option<PaymentMethodsEnabled>>,
    types: Vec<PaymentMethodType>,
)
    requires
        call_ensures(collect_payment_method_types, (&methods,), types),
    ensures
        types@ == types_under(methods@),
{
    lemma_types_under(methods@);
}

/// The enabled types of an account are those under all the documents in `payment_methods_enabled`,
/// each read once and in order.
pub proof fn law_all_enabled_types_are_found<
    F: Fn(&serde_json::Value) -> Option<PaymentMethodsEnabled>,
>(account: MerchantConnectorAccount, parse: F, types: Vec<PaymentMethodType>)
    requires
        call_ensures(get_enabled_payment_method_types::<F>, (&account, &parse), types),
    ensures
        are_types_enabled(types@, parse, account),
{
    let methods = choose|methods: Seq<Option<PaymentMethodsEnabled>>| #[trigger]
        parses_documents(
            parse,
            enabled_documents(account),
            methods,
        ) && types@ == all_listed_types(methods);
    lemma_enabled_types(account, parse, methods);
}

/// The types under the documents of an account are those that the account has enabled.
pub proof fn lemma_enabled_types<F: Fn(&serde_json::Value) -> Option<PaymentMethodsEnabled>>(
    account: MerchantConnectorAccount,
    parse: F,
    methods: Seq<Option<PaymentMethodsEnabled>>,
)
    requires
        parses_documents(
            parse,
            enabled_documents(account),
            methods,
        ),
    ensures
        are_types_enabled(all_listed_types(methods), parse, account),
{
    lemma_types_under(methods);
    if let Some(documents) = account.payment_methods_enabled {
        assert(methods.len() == documents@.len());
        assert forall|i: int| 0 <= i < documents@.len() implies call_ensures(
            parse,
            (&#[trigger] documents@[i],),
            methods[i],
        ) by {}
    } else {
        assert(methods =~= Seq::empty());
    }
}

/// The scope type in a response is that of the requested scope.
pub proof fn law_scope_types_tell_the_kind_of_scope(scope: Scope, scope_type: ScopeType)
    requires
        call_ensures(determine_scope_type, (&scope,), scope_type),
    ensures
        is_type_of(scope_type, scope),
{
}

/// The requested identifiers are the entries of the scope, one for one and in order.
pub proof fn law_identifiers_are_the_entries_of_the_scope(
    scope: Scope,
    identifiers: Vec<ScopeIdentifier>,
)
    requires
        call_ensures(extract_requested_identifiers, (&scope,), identifiers),
    ensures
        are_identifiers_of(identifiers@, scope),
{
}

/// The response is made of the results, the scope type and the identifiers that are given.
pub proof fn law_responses_have_what_is_given(
    results: Vec<WebhookRegistrationResult>,
    scope_type: ScopeType,
    requested: Vec<ScopeIdentifier>,
    response: Result<RegisterConnectorWebhookResponse, ApiErrorResponse>,
)
    requires
        call_ensures(
            construct_connector_webhook_registration_response,
            (results, scope_type, requested),
            response,
        ),
    ensures
        response matches Ok(response) && {
            &&& response.results == results
            &&& response.scope_type == scope_type
            &&& response.requested == requested
        },
{
}

/// A result has the status and the webhook ID of a reply that went through, and the code and
/// message of one that did not.
pub proof fn law_results_report_the_reply(
    identifier: ScopeIdentifier,
    reply: ConnectorReply,
    result: WebhookRegistrationResult,
)
    requires
        call_ensures(construct_webhook_registration_result, (identifier, reply), result),
    ensures
        reports(result, identifier, reply),
{
}

/// The form of a result that is kept with the account has the result's own identifier, status,
/// webhook ID, and error code and message.
pub proof fn law_kept_results_say_the_same(
    result: WebhookRegistrationResult,
    response: ConnectorWebhookRegisterResponse,
)
    requires
        call_ensures(construct_webhook_register_response, (&result,), response),
    ensures
        response.identifier == result.identifier,
        response.status == result.status,
        response.connector_webhook_id == result.connector_webhook_id,
        response.error_code is Some <==> result.error is Some,
        response.error_message is Some <==> result.error is Some,
        result.error matches Some(error) ==> response.error_code == Some(error.code)
            && response.error_message == Some(error.message),
{
}

/// A failed lookup is answered with the error for a missing record if there is no such record, and
/// else with the error that the store gave.
pub proof fn law_failed_lookups_have_their_error(
    error: StorageError,
    not_found: ApiErrorResponse,
    answer: ApiErrorResponse,
)
    requires
        call_ensures(StorageError::to_not_found_response, (error, not_found), answer),
    ensures
        match error {
            StorageError::NotFound => same_error(answer, not_found),
            StorageError::Other(other) => same_error(answer, other),
        },
{
}

/// Errors that look the same are the same.
pub proof fn law_errors_are_what_they_look_like(a: ApiErrorResponse, b: ApiErrorResponse)
    ensures
        a@ == b@ <==> same_error(a, b),
{
}

/// Scopes that look the same ask for the same.
pub proof fn law_scopes_are_what_they_look_like(a: Scope, b: Scope)
    ensures
        a@ == b@ <==> same_scope(a, b),
{
}

/// A call that concerns no payment says nothing of one.
pub proof fn law_no_payment_is_mentioned(context: PaymentContext)
    requires
        call_ensures(PaymentContext::without_payment, (), context),
    ensures
        is_without_payment(context),
{
}

/// A copy of a scope asks for the same.
pub proof fn law_copies_of_scopes_ask_for_the_same(scope: Scope, copy: Scope)
    requires
        call_ensures(Scope::clone, (&scope,), copy),
    ensures
        same_scope(scope, copy),
{
}

/// What an entry can be read as is what it says.
pub proof fn lemma_readable_entries<
    F: Fn(&serde_json::Value) -> Option<ConnectorWebhookEventType>,
>(parse: F, entry: Json)
    ensures
        forall|event_type: Option<ConnectorWebhookEventType>| #[trigger]
            readable_as(parse, entry, event_type) ==> says_event_type(
                parse,
                entry,
                event_type,
            ),
        unreadable(parse, entry) ==> says_nothing(parse, entry),
{
    lemma_words_differ();
    if tells_scope(entry) {
        let scope = choose|scope: ScopeIdentifier| entry == #[trigger] scope_entry(scope);
        law_stored_scopes_tell_kind_and_name(scope);
    } else {
        assert forall|scope: ScopeIdentifier| !#[trigger] describes(entry, scope) by {
            if describes(entry, scope) {
                law_described_scopes_are_stored_so(entry, scope);
            }
        }
    }
}

/// A list of the stored webhooks has all of them, with what their entries say.
pub proof fn lemma_lists_all<F: Fn(&serde_json::Value) -> Option<ConnectorWebhookEventType>>(
    parse: F,
    stored: Map<Seq<char>, Json>,
    webhooks: Seq<ConnectorWebhookResponse>,
)
    requires
        lists_webhooks(parse, stored, webhooks),
    ensures
        lists_all(webhooks, parse, stored),
{
    assert forall|i: int| 0 <= i < webhooks.len() implies ({
        let id = (#[trigger] webhooks[i]).connector_webhook_id@;
        stored.contains_key(id) && says_event_type(parse, stored[id], webhooks[i].event_type)
    }) by {
        let id = webhooks[i].connector_webhook_id@;
        lemma_readable_entries(parse, stored[id]);
        assert(readable_as(parse, stored[id], webhooks[i].event_type));
    }
}

/// Details with a webhook that cannot be read have an entry that says nothing.
pub proof fn lemma_unreadable_says_nothing<
    F: Fn(&serde_json::Value) -> Option<ConnectorWebhookEventType>,
>(parse: F, stored: Map<Seq<char>, Json>)
    requires
        has_unreadable(parse, stored),
    ensures
        exists|id: Seq<char>| #[trigger]
            stored.contains_key(id) && says_nothing(parse, stored[id]),
{
    let id = choose|id: Seq<char>| #[trigger]
        stored.contains_key(id) && unreadable(parse, stored[id]);
    lemma_readable_entries(parse, stored[id]);
}

/// A listing has all the webhooks that the details hold, with what their entries say. It fails
/// if the details are no object, and else only if an entry says nothing.
pub proof fn law_listings_have_all_webhooks<
    F: Fn(&serde_json::Value) -> Option<ConnectorWebhookEventType>,
>(
    details: Option<serde_json::Value>,
    parse: F,
    outcome: Result<Vec<ConnectorWebhookResponse>, ApiErrorResponse>,
)
    requires
        call_ensures(get_connector_webhook_list_response::<F>, (&details, &parse), outcome),
    ensures
        is_listing_of(outcome, parse, details),
{
    if let Some(members) = members_in(details) {
        if let Ok(webhooks) = outcome {
            lemma_lists_all(parse, members, webhooks@);
        } else {
            lemma_unreadable_says_nothing(parse, members);
        }
    }
}

} // verus!
