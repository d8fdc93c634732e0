//! What happens in a run, action by action: what each action carries, what follows each event, and
//! what the answer says, in terms of the request and of what the flow was told.

use crate::domain::{
    ConnectorReply, MerchantConnectorAccount, MerchantConnectorAccountUpdate,
    PaymentMethodsEnabled,
};
use crate::enums::ConnectorWebhookEventType;
use crate::errors::{ApiErrorResponse, StorageError};
use crate::fetch::{
    fetch_connector_webhook, FetchAction, FetchEvent, FetchFlow, FetchRequest, FetchStage,
};
use crate::json::{json_of, Json};
use crate::laws::{
    brought_id, law_plans_are_made_for_the_account, law_webhooks_are_kept,
    lemma_details_stay_an_object, lemma_run_consistent, lemma_run_records, FetchRun,
    RegistrationRun,
};
use crate::operation_laws::{
    are_identifiers_of, are_types_enabled, carries, denies_flow, denies_scope, describes,
    is_type_of, law_stored_scopes_tell_kind_and_name, lemma_enabled_types,
    lemma_lists_all, lemma_unreadable_says_nothing, lists_all, members_in, reports, same_error,
    same_scope, says_nothing,
};
use crate::registration::{
    register_connector_webhook, RegistrationAction, RegistrationEvent, RegistrationFlow,
    RegistrationRequest,
};
use crate::transformers::{all_listed_types, enabled_documents, parses_documents, stored_details};
use vstd::prelude::*;

verus! {

/// The details that an update writes.
pub open spec fn written(update: MerchantConnectorAccountUpdate) -> Option<serde_json::Value> {
    match update {
        MerchantConnectorAccountUpdate::ConnectorWebhookRegisterationUpdate {
            connector_webhook_registration_details,
        } => connector_webhook_registration_details,
    }
}

/// The run ends with this error.
pub open spec fn fails_with(action: RegistrationAction, error: ApiErrorResponse) -> bool {
    action matches RegistrationAction::Finish(Err(response)) && same_error(response, error)
}

/// The run ends with an internal error.
pub open spec fn fails_internally(action: RegistrationAction) -> bool {
    action matches RegistrationAction::Finish(Err(response)) && response is InternalServerError
}

/// The run ends with an answer.
pub open spec fn answers(action: RegistrationAction) -> bool {
    action matches RegistrationAction::Finish(Ok(_))
}

/// A flow starts by asking for the key store of the merchant of its request.
pub proof fn law_registrations_start_with_the_merchant(
    request: RegistrationRequest,
    start: (RegistrationFlow, RegistrationAction),
)
    requires
        call_ensures(register_connector_webhook, (request,), start),
    ensures
        start.0.request == request,
        start.0.wf(),
        start.1 matches RegistrationAction::LoadKeyStore { merchant_id } && merchant_id
            == request.merchant_id,
        forall|event: RegistrationEvent| #[trigger]
            start.0.awaiting(event) <==> event is KeyStore,
{
}

/// What is looked up and checked is what the request names: the merchant's key store, the account
/// under the merchant and the account ID of the request, and the profile of the request, whether
/// there is one or not. The connector is the one that the loaded account names.
pub proof fn law_lookups_are_for_the_request<
    F: Fn(&serde_json::Value) -> Option<PaymentMethodsEnabled>,
>(parse: F, run: RegistrationRun, k: int)
    requires
        run.valid(parse),
        0 <= k < run.states.len(),
    ensures
        run.states[k].request == run.states[0].request,
        ({
            let request = run.states[0].request;
            match run.actions[k] {
                RegistrationAction::LoadKeyStore { merchant_id } => merchant_id
                    == request.merchant_id,
                RegistrationAction::LoadAccount { merchant_id, merchant_connector_id } => {
                    &&& merchant_id == request.merchant_id
                    &&& merchant_connector_id == request.merchant_connector_id
                },
                RegistrationAction::CheckProfile { profile_id } => {
                    &&& profile_id == request.profile_id
                    &&& run.told(k).account is Some
                },
                RegistrationAction::ResolveConnector { connector_name, merchant_connector_id } => {
                    &&& run.told(k).account matches Some(account) && connector_name
                        == account.connector_name && merchant_connector_id
                        == account.merchant_connector_id
                },
                _ => true,
            }
        }),
{
    lemma_run_consistent(parse, run, k);
    if k > 0 {
        lemma_run_consistent(parse, run, k - 1);
        assert(run.states[k - 1].steps_to(parse, run.events[k - 1], run.states[k], run.actions[k]));
    }
}

/// The account that a flow shows while it waits is the one that was loaded; only its details can
/// be others, once webhooks have been added.
pub proof fn law_flows_show_the_loaded_account<
    F: Fn(&serde_json::Value) -> Option<PaymentMethodsEnabled>,
>(parse: F, run: RegistrationRun, k: int, shown: Option<&MerchantConnectorAccount>)
    requires
        run.valid(parse),
        0 <= k < run.states.len(),
        call_ensures(RegistrationFlow::account, (&run.states[k],), shown),
    ensures
        match run.actions[k] {
            RegistrationAction::LoadKeyStore { .. } => shown is None,
            RegistrationAction::LoadAccount { .. } => shown is None,
            RegistrationAction::Finish(_) => shown is None,
            RegistrationAction::CallConnector { .. } => shown is Some && same_but_details(
                *shown->0,
                run.told(k).account->0,
            ),
            RegistrationAction::UpdateAccount { update } => shown is Some && same_but_details(
                *shown->0,
                run.told(k).account->0,
            ) && shown->0.connector_webhook_registration_details == written(update),
            _ => shown is Some && run.told(k).account == Some(*shown->0),
        },
{
    lemma_run_consistent(parse, run, k);
    if k > 0 {
        lemma_run_consistent(parse, run, k - 1);
        assert(run.states[k - 1].steps_to(parse, run.events[k - 1], run.states[k], run.actions[k]));
    }
}

/// The two accounts have all fields in common but the registration details.
pub open spec fn same_but_details(
    a: MerchantConnectorAccount,
    b: MerchantConnectorAccount,
) -> bool {
    &&& a.merchant_id == b.merchant_id
    &&& a.merchant_connector_id == b.merchant_connector_id
    &&& a.profile_id == b.profile_id
    &&& a.connector_name == b.connector_name
    &&& a.connector_account_details == b.connector_account_details
    &&& a.metadata == b.metadata
    &&& a.connector_wallets_details == b.connector_wallets_details
    &&& a.payment_methods_enabled == b.payment_methods_enabled
}

/// The connector is asked for its plan for the scope of the request: first without any payment
/// method type, then with all the types under the documents in `payment_methods_enabled` of the
/// loaded account.
pub proof fn law_plans_are_asked_with_the_enabled_types<
    F: Fn(&serde_json::Value) -> Option<PaymentMethodsEnabled>,
>(parse: F, run: RegistrationRun, k: int)
    requires
        run.valid(parse),
        0 <= k < run.states.len(),
    ensures
        run.actions[k] matches RegistrationAction::MakePlan { scope, payment_method_types } ==> {
            &&& same_scope(scope, run.states[0].request.request.scope)
            &&& run.told(k).account is Some
            &&& run.told(k).plans.len() == 0 ==> payment_method_types@.len() == 0
            &&& run.told(k).plans.len() > 0 ==> are_types_enabled(
                payment_method_types@,
                parse,
                run.told(k).account->0,
            )
        },
{
    if run.actions[k] is MakePlan {
        lemma_run_consistent(parse, run, k);
        law_plans_are_made_for_the_account(parse, run, k);
        if run.told(k).plans.len() > 0 {
            let account = run.told(k).account->0;
            let types = run.actions[k]->payment_method_types@;
            let methods = choose|methods: Seq<Option<PaymentMethodsEnabled>>| #[trigger]
                parses_documents(parse, enabled_documents(account), methods) && types
                    == all_listed_types(methods);
            lemma_enabled_types(account, parse, methods);
        }
    }
}

/// Every call to the connector carries the scope and the URL of the plan entry whose turn it is,
/// and the merchant, connector, credentials, metadata and wallet details of the loaded account.
pub proof fn law_calls_carry_the_entry_and_the_account<
    F: Fn(&serde_json::Value) -> Option<PaymentMethodsEnabled>,
>(parse: F, run: RegistrationRun, k: int)
    requires
        run.valid(parse),
        0 <= k < run.states.len(),
    ensures
        run.actions[k] matches RegistrationAction::CallConnector { data } ==> {
            let told = run.told(k);
            let turn = told.replies.len() as int;
            let request = run.states[0].request;
            &&& told.plans.len() == 2
            &&& turn < told.plans[1].len()
            &&& told.account matches Some(account) && {
                &&& data.request.scope == told.plans[1][turn].0
                &&& data.request.webhook_url == told.plans[1][turn].1
                &&& data.merchant_id == account.merchant_id
                &&& data.connector == account.connector_name
                &&& account.connector_account_details matches Ok(auth_type)
                    && data.connector_auth_type == auth_type
                &&& data.connector_meta_data == account.metadata
                &&& data.connector_wallets_details == account.connector_wallets_details
                &&& carries(
                    data,
                    request.tenant_id,
                    request.placeholders,
                    account,
                    told.plans[1][turn].0,
                    told.plans[1][turn].1,
                )
            }
        },
{
    lemma_run_consistent(parse, run, k);
}

/// An update writes the details that the record has, with an entry that tells the scope of the last
/// call under the ID that the last reply brought. All other members stay.
pub proof fn law_updates_add_to_the_record<
    F: Fn(&serde_json::Value) -> Option<PaymentMethodsEnabled>,
>(parse: F, run: RegistrationRun, k: int)
    requires
        run.valid(parse),
        0 <= k < run.states.len(),
    ensures
        run.actions[k] matches RegistrationAction::UpdateAccount { update } ==> {
            let told = run.told(k);
            let last = told.replies.len() - 1;
            &&& told.plans.len() == 2
            &&& 0 <= last < told.plans[1].len()
            &&& told.replies[last] matches Ok(response) && (
            response.connector_webhook_id matches Some(id) && (members_in(
                run.record(k),
            ) matches Some(before) && (written(update) is Some && (json_of(
                written(update)->0,
            ) matches Json::Object(after) && {
                &&& after.contains_key(id@)
                &&& describes(after[id@], told.plans[1][last].0)
                &&& forall|other: Seq<char>|
                    other != id@ ==> (#[trigger] after.contains_key(other)
                        <==> before.contains_key(other))
                &&& forall|other: Seq<char>|
                    other != id@ && before.contains_key(other) ==> #[trigger] after[other]
                        == before[other]
            }))))
        },
{
    if run.actions[k] is UpdateAccount {
        lemma_run_consistent(parse, run, k);
        lemma_run_records(parse, run, k);
        let told = run.told(k);
        law_stored_scopes_tell_kind_and_name(told.plan()[told.replies.len() - 1].0);
    }
}

/// The record holds what the loaded account held, or what the last update that was made has
/// written.
pub proof fn law_record_is_what_was_last_written<
    F: Fn(&serde_json::Value) -> Option<PaymentMethodsEnabled>,
>(parse: F, run: RegistrationRun, k: int)
    requires
        run.valid(parse),
        0 <= k < run.events.len(),
    ensures
        match run.events[k] {
            RegistrationEvent::Account(Ok(account)) => run.record(k + 1)
                == account.connector_webhook_registration_details,
            RegistrationEvent::Update(Ok(_)) => run.actions[k] matches
                RegistrationAction::UpdateAccount { update } && run.record(k + 1) == written(
                update,
            ),
            _ => run.record(k + 1) == run.record(k),
        },
{
    lemma_run_consistent(parse, run, k);
    assert(run.states[k].steps_to(parse, run.events[k], run.states[k + 1], run.actions[k + 1]));
}

/// Once a run has answered, the record has an entry for every webhook that was registered, and the
/// entry of one whose ID came only once tells the scope that it was registered for.
pub proof fn law_record_tells_what_was_registered<
    F: Fn(&serde_json::Value) -> Option<PaymentMethodsEnabled>,
>(parse: F, run: RegistrationRun, k: int, i: int)
    requires
        run.valid(parse),
        0 <= k < run.states.len(),
        answers(run.actions[k]),
        0 <= i < run.told(k).replies.len(),
    ensures
        run.told(k).replies[i] matches Ok(response) ==> (
        response.connector_webhook_id matches Some(id) ==> (members_in(run.record(k)) matches Some(
            members,
        ) && {
            let told = run.told(k);
            &&& members.contains_key(id@)
            &&& (forall|j: int|
                i < j < told.replies.len() ==> !brings(#[trigger] told.replies[j], id@))
                ==> describes(members[id@], told.plans[1][i].0)
        })),
{
    let told = run.told(k);
    if let Ok(response) = told.replies[i] {
        if let Some(id) = response.connector_webhook_id {
            law_webhooks_are_kept(parse, run, k, i, id@);
            law_stored_scopes_tell_kind_and_name(told.plan()[i].0);
            if forall|j: int|
                i < j < told.replies.len() ==> !brings(#[trigger] told.replies[j], id@) {
                assert forall|j: int| i < j < told.replies.len() implies brought_id(
                    #[trigger] told.replies[j],
                ) != Some(id@) by {
                    assert(!brings(told.replies[j], id@));
                }
            }
        }
    }
}

/// The reply brings this webhook ID.
pub open spec fn brings(reply: ConnectorReply, id: Seq<char>) -> bool {
    reply matches Ok(response) && (response.connector_webhook_id matches Some(brought) && brought@
        == id)
}

/// An answer has one result for each entry of the plan, in order, which says what the connector
/// replied to that call; it has the type and the entries of the requested scope.
pub proof fn law_answers_report_every_reply<
    F: Fn(&serde_json::Value) -> Option<PaymentMethodsEnabled>,
>(parse: F, run: RegistrationRun, k: int)
    requires
        run.valid(parse),
        0 <= k < run.states.len(),
    ensures
        run.actions[k] matches RegistrationAction::Finish(Ok(response)) ==> {
            let told = run.told(k);
            let scope = run.states[0].request.request.scope;
            &&& told.plans.len() == 2
            &&& told.replies.len() == told.plans[1].len()
            &&& response.results@.len() == told.plans[1].len()
            &&& forall|i: int|
                0 <= i < told.plans[1].len() ==> reports(
                    #[trigger] response.results@[i],
                    told.plans[1][i].0,
                    told.replies[i],
                )
            &&& is_type_of(response.scope_type, scope)
            &&& are_identifiers_of(response.requested@, scope)
        },
{
    lemma_run_consistent(parse, run, k);
}

/// What follows each event. Lookups, checks and plans follow each other in one order; the calls of
/// the plan follow, each with an update after it if its reply brings a webhook ID; then the answer.
/// Each ground for refusal ends the run at once with its own error, and nothing else does.
pub proof fn law_each_event_has_its_action<
    F: Fn(&serde_json::Value) -> Option<PaymentMethodsEnabled>,
>(parse: F, run: RegistrationRun, k: int)
    requires
        run.valid(parse),
        0 <= k < run.events.len(),
    ensures
        ({
            let next = run.actions[k + 1];
            let told = run.told(k);
            let account = told.account->0;
            match run.events[k] {
                RegistrationEvent::KeyStore(Ok(_)) => next is LoadAccount,
                RegistrationEvent::KeyStore(Err(StorageError::NotFound)) => {
                    next matches RegistrationAction::Finish(Err(error))
                        && error is MerchantAccountNotFound
                },
                RegistrationEvent::KeyStore(Err(StorageError::Other(error))) => fails_with(
                    next,
                    error,
                ),
                RegistrationEvent::Account(Ok(_)) => next is CheckProfile,
                RegistrationEvent::Account(Err(StorageError::NotFound)) => {
                    next matches RegistrationAction::Finish(
                        Err(ApiErrorResponse::MerchantConnectorAccountNotFound { id }),
                    ) && id@ == run.states[0].request.merchant_connector_id@
                },
                RegistrationEvent::Account(Err(StorageError::Other(error))) => fails_with(
                    next,
                    error,
                ),
                RegistrationEvent::Profile(Ok(_)) => next is ResolveConnector,
                RegistrationEvent::Profile(Err(error)) => fails_with(next, error),
                RegistrationEvent::Connector(Ok(connector)) => {
                    if connector.is_webhook_auto_configuration_supported {
                        next is MakePlan
                    } else {
                        next matches RegistrationAction::Finish(Err(error)) && denies_flow(
                            error,
                            connector,
                        )
                    }
                },
                RegistrationEvent::Connector(Err(error)) => fails_with(next, error),
                RegistrationEvent::Plan(plan) => if told.plans.len() == 0 {
                    if plan@.len() > 0 {
                        next is MakePlan
                    } else {
                        next matches RegistrationAction::Finish(Err(error)) && denies_scope(error)
                    }
                } else if plan@.len() == 0 {
                    answers(next)
                } else if account.connector_account_details is Ok {
                    next is CallConnector
                } else {
                    fails_internally(next)
                },
                RegistrationEvent::Reply(Err(error)) => fails_with(next, error),
                RegistrationEvent::Reply(Ok(reply)) => {
                    if reply matches Ok(response) && response.connector_webhook_id is Some {
                        if members_in(account.connector_webhook_registration_details) is Some {
                            next is UpdateAccount
                        } else {
                            fails_internally(next)
                        }
                    } else if told.replies.len() + 1 == told.plans[1].len() {
                        answers(next)
                    } else {
                        next is CallConnector
                    }
                },
                RegistrationEvent::Update(Ok(_)) => if told.replies.len() == told.plans[1].len() {
                    answers(next)
                } else {
                    next is CallConnector
                },
                RegistrationEvent::Update(Err(_)) => {
                    next matches RegistrationAction::Finish(
                        Err(
                            ApiErrorResponse::DuplicateMerchantConnectorAccount {
                                profile_id,
                                connector_label,
                            },
                        ),
                    ) && profile_id@ == account.profile_id@ && connector_label@
                        == account.connector_name@
                },
            }
        }),
{
    lemma_run_consistent(parse, run, k);
    lemma_run_consistent(parse, run, k + 1);
    let told = run.told(k);
    lemma_details_stay_an_object(told.loaded(), told.plan(), told.replies);
    assert(run.states[k].steps_to(parse, run.events[k], run.states[k + 1], run.actions[k + 1]));
}

/// A flow waits for the outcome of the action that it wanted done, whatever that outcome is, and
/// for nothing else; and it can take it.
pub proof fn law_flows_take_the_outcome_of_their_action<
    F: Fn(&serde_json::Value) -> Option<PaymentMethodsEnabled>,
>(parse: F, run: RegistrationRun, k: int, event: RegistrationEvent, awaited: bool)
    requires
        run.valid(parse),
        0 <= k < run.states.len(),
        call_ensures(RegistrationFlow::awaits, (&run.states[k], &event), awaited),
    ensures
        run.states[k].wf(),
        awaited == run.states[k].awaiting(event),
        awaited == match run.actions[k] {
            RegistrationAction::LoadKeyStore { .. } => event is KeyStore,
            RegistrationAction::LoadAccount { .. } => event is Account,
            RegistrationAction::CheckProfile { .. } => event is Profile,
            RegistrationAction::ResolveConnector { .. } => event is Connector,
            RegistrationAction::MakePlan { .. } => event is Plan,
            RegistrationAction::CallConnector { .. } => event is Reply,
            RegistrationAction::UpdateAccount { .. } => event is Update,
            RegistrationAction::Finish(_) => false,
        },
{
    lemma_run_consistent(parse, run, k);
    if k > 0 {
        lemma_run_consistent(parse, run, k - 1);
        assert(run.states[k - 1].steps_to(parse, run.events[k - 1], run.states[k], run.actions[k]));
    }
}

/// A step takes a run on: what it gives is what may come next in a run.
pub proof fn law_steps_continue_runs<F: Fn(&serde_json::Value) -> Option<PaymentMethodsEnabled>>(
    parse: F,
    run: RegistrationRun,
    event: RegistrationEvent,
    next: (RegistrationFlow, RegistrationAction),
)
    requires
        run.valid(parse),
        run.states.last().awaiting(event),
        call_ensures(RegistrationFlow::step::<F>, (run.states.last(), event, &parse), next),
    ensures
        (RegistrationRun {
            states: run.states.push(next.0),
            events: run.events.push(event),
            actions: run.actions.push(next.1),
        }).valid(parse),
{
    let longer = RegistrationRun {
        states: run.states.push(next.0),
        events: run.events.push(event),
        actions: run.actions.push(next.1),
    };
    let end = run.events.len() as int;
    assert forall|k: int| 0 <= k < longer.events.len() implies longer.states[k].steps_to(
        parse,
        #[trigger] longer.events[k],
        longer.states[k + 1],
        longer.actions[k + 1],
    ) by {
        if k < end {
            assert(longer.events[k] == run.events[k]);
        } else {
            assert(longer.states[k] == run.states.last());
        }
    }
}

/// A listing starts by asking for the key store of the merchant of its request.
pub proof fn law_listings_start_with_the_merchant(
    request: FetchRequest,
    start: (FetchFlow, FetchAction),
)
    requires
        call_ensures(fetch_connector_webhook, (request,), start),
    ensures
        start.0.request == request,
        start.1 matches FetchAction::LoadKeyStore { merchant_id } && merchant_id
            == request.merchant_id,
        forall|event: FetchEvent| #[trigger] start.0.awaiting(event) <==> event is KeyStore,
{
}

proof fn lemma_fetch_states<F: Fn(&serde_json::Value) -> Option<ConnectorWebhookEventType>>(
    parse: F,
    run: FetchRun,
    k: int,
)
    requires
        run.valid(parse),
        0 <= k < run.states.len(),
    ensures
        run.states[k].request == run.states[0].request,
        match run.states[k].stage {
            FetchStage::KeyStore => k == 0 && run.actions[k] is LoadKeyStore,
            FetchStage::Account => k == 1 && run.actions[k] is LoadAccount,
            FetchStage::Profile { account, webhooks } => {
                &&& k == 2
                &&& run.actions[k] is CheckProfile
                &&& run.events[1] == FetchEvent::Account(Ok(account))
                &&& members_in(account.connector_webhook_registration_details) matches Some(members)
                    && lists_all(webhooks@, parse, members)
            },
            FetchStage::Finished => k > 0 && run.actions[k] is Finish,
        },
    decreases k,
{
    if k > 0 {
        lemma_fetch_states(parse, run, k - 1);
        assert(run.states[k - 1].steps_to(parse, run.events[k - 1], run.states[k], run.actions[k]));
        if run.states[k].stage is Profile {
            let account = run.states[k].stage->account;
            let details = account.connector_webhook_registration_details;
            lemma_lists_all(
                parse,
                stored_details(details)->Object_0,
                run.states[k].stage->webhooks@,
            );
            assert(stored_details(details) == Json::Object(members_in(details)->0));
        }
    } else {
        assert(run.states[0].started(run.actions[0]));
    }
}

/// What a listing looks up and checks is what the request names: the merchant's key store, the
/// account under the merchant and the account ID of the request, and the profile of the request,
/// whether there is one or not. The profile is checked against the account that was loaded.
pub proof fn law_listings_look_up_the_request<
    F: Fn(&serde_json::Value) -> Option<ConnectorWebhookEventType>,
>(parse: F, run: FetchRun, k: int, shown: Option<&MerchantConnectorAccount>)
    requires
        run.valid(parse),
        0 <= k < run.states.len(),
        call_ensures(FetchFlow::account, (&run.states[k],), shown),
    ensures
        ({
            let request = run.states[0].request;
            match run.actions[k] {
                FetchAction::LoadKeyStore { merchant_id } => merchant_id == request.merchant_id,
                FetchAction::LoadAccount { merchant_id, merchant_connector_id } => {
                    &&& merchant_id == request.merchant_id
                    &&& merchant_connector_id == request.merchant_connector_id
                },
                FetchAction::CheckProfile { profile_id } => {
                    &&& profile_id == request.profile_id
                    &&& shown is Some
                    &&& k == 2
                    &&& run.events[1] == FetchEvent::Account(Ok(*shown->0))
                },
                FetchAction::Finish(_) => shown is None,
            }
        }),
{
    lemma_fetch_states(parse, run, k);
    if k > 0 {
        lemma_fetch_states(parse, run, k - 1);
        assert(run.states[k - 1].steps_to(parse, run.events[k - 1], run.states[k], run.actions[k]));
    }
}

/// The listing ends with this error.
pub open spec fn listing_fails_with(action: FetchAction, error: ApiErrorResponse) -> bool {
    action matches FetchAction::Finish(Err(response)) && same_error(response, error)
}

/// What follows each event of a listing. The lookups and the check follow each other in one order,
/// then comes the answer: the connector of the loaded account, and all the webhooks that its details
/// hold. Each ground for refusal ends the listing at once with its own error, and nothing else does.
pub proof fn law_each_listing_event_has_its_action<
    F: Fn(&serde_json::Value) -> Option<ConnectorWebhookEventType>,
>(parse: F, run: FetchRun, k: int)
    requires
        run.valid(parse),
        0 <= k < run.events.len(),
    ensures
        ({
            let next = run.actions[k + 1];
            match run.events[k] {
                FetchEvent::KeyStore(Ok(_)) => next is LoadAccount,
                FetchEvent::KeyStore(Err(StorageError::NotFound)) => {
                    next matches FetchAction::Finish(Err(error)) && error is MerchantAccountNotFound
                },
                FetchEvent::KeyStore(Err(StorageError::Other(error))) => listing_fails_with(
                    next,
                    error,
                ),
                FetchEvent::Account(Ok(account)) => match members_in(
                    account.connector_webhook_registration_details,
                ) {
                    None => next matches FetchAction::Finish(Err(error))
                        && error is InternalServerError,
                    Some(members) => next is CheckProfile || (next matches FetchAction::Finish(
                        Err(error),
                    ) && error is InternalServerError && exists|id: Seq<char>| #[trigger]
                        members.contains_key(id) && says_nothing(parse, members[id])),
                },
                FetchEvent::Account(Err(StorageError::NotFound)) => {
                    next matches FetchAction::Finish(
                        Err(ApiErrorResponse::MerchantConnectorAccountNotFound { id }),
                    ) && id@ == run.states[0].request.merchant_connector_id@
                },
                FetchEvent::Account(Err(StorageError::Other(error))) => listing_fails_with(
                    next,
                    error,
                ),
                FetchEvent::Profile(Ok(_)) => {
                    next matches FetchAction::Finish(Ok(response)) && (
                    run.events[1] matches FetchEvent::Account(Ok(account)) && (members_in(
                        account.connector_webhook_registration_details,
                    ) matches Some(members) && {
                        &&& k == 2
                        &&& response.connector == account.connector_name
                        &&& lists_all(response.webhooks@, parse, members)
                    }))
                },
                FetchEvent::Profile(Err(error)) => listing_fails_with(next, error),
            }
        }),
{
    lemma_fetch_states(parse, run, k);
    lemma_fetch_states(parse, run, k + 1);
    assert(run.states[k].steps_to(parse, run.events[k], run.states[k + 1], run.actions[k + 1]));
    if let FetchEvent::Account(Ok(account)) = run.events[k] {
        let details = account.connector_webhook_registration_details;
        if let Some(members) = members_in(details) {
            assert(stored_details(details) == Json::Object(members));
            if !(run.actions[k + 1] is CheckProfile) {
                lemma_unreadable_says_nothing(parse, members);
            }
        }
    }
}

/// A listing waits for the outcome of the action that it wanted done, whatever that outcome is, and
/// for nothing else.
pub proof fn law_listings_take_the_outcome_of_their_action<
    F: Fn(&serde_json::Value) -> Option<ConnectorWebhookEventType>,
>(parse: F, run: FetchRun, k: int, event: FetchEvent, awaited: bool)
    requires
        run.valid(parse),
        0 <= k < run.states.len(),
        call_ensures(FetchFlow::awaits, (&run.states[k], &event), awaited),
    ensures
        awaited == run.states[k].awaiting(event),
        awaited == match run.actions[k] {
            FetchAction::LoadKeyStore { .. } => event is KeyStore,
            FetchAction::LoadAccount { .. } => event is Account,
            FetchAction::CheckProfile { .. } => event is Profile,
            FetchAction::Finish(_) => false,
        },
{
    lemma_fetch_states(parse, run, k);
}

/// A step takes a listing on: what it gives is what may come next in a run.
pub proof fn law_listing_steps_continue_runs<
    F: Fn(&serde_json::Value) -> Option<ConnectorWebhookEventType>,
>(parse: F, run: FetchRun, event: FetchEvent, next: (FetchFlow, FetchAction))
    requires
        run.valid(parse),
        run.states.last().awaiting(event),
        call_ensures(FetchFlow::step::<F>, (run.states.last(), event, &parse), next),
    ensures
        (FetchRun {
            states: run.states.push(next.0),
            events: run.events.push(event),
            actions: run.actions.push(next.1),
        }).valid(parse),
{
    let longer = FetchRun {
        states: run.states.push(next.0),
        events: run.events.push(event),
        actions: run.actions.push(next.1),
    };
    let end = run.events.len() as int;
    assert forall|k: int| 0 <= k < longer.events.len() implies longer.states[k].steps_to(
        parse,
        #[trigger] longer.events[k],
        longer.states[k + 1],
        longer.actions[k + 1],
    ) by {
        if k < end {
            assert(longer.events[k] == run.events[k]);
        } else {
            assert(longer.states[k] == run.states.last());
        }
    }
}

} // verus!
