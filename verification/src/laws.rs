//! What holds of whole runs of the flows, and of their pieces together.

use crate::api_models::{
    ConnectorWebhookResponse, RequestedScope, ScopeIdentifier, WebhookRegistrationResult,
};
use crate::domain::{
    ConnectorData, ConnectorReply, MerchantConnectorAccount, MerchantConnectorAccountUpdate,
    PaymentMethodsEnabled,
};
use crate::enums::{ConnectorWebhookEventType, WebhookRegistrationStatus};
use crate::errors::{lookup_error, ApiError};
use crate::fetch::{refused, FetchAction, FetchEvent, FetchFlow};
use crate::json::{json_of, Json};
use crate::registration::{
    asks_for_enabled_types, asks_for_plan, RegistrationAction, RegistrationEvent, RegistrationFlow,
    RegistrationRequest, RegistrationStage,
};
use crate::transformers::{
    adds_webhook, all_listed_types, can_parse, enabled_documents, flow_not_supported,
    has_unreadable, lemma_all_listed_types_push, lemma_words_differ, listed_types, lists_webhooks,
    parses_documents, readable_as, requested_identifiers, result_of, router_data, scope_entry,
    scope_not_supported, scope_type_of, stored_details, stored_event_type, unreadable,
};
use vstd::prelude::*;

verus! {

/// A run of the registration flow: its states, the event that each but the last was given, and
/// the action that came with each state.
pub struct RegistrationRun {
    pub states: Seq<RegistrationFlow>,
    pub events: Seq<RegistrationEvent>,
    pub actions: Seq<RegistrationAction>,
}

impl RegistrationRun {
    /// The run begins at the start of the flow and each state steps to the next.
    pub open spec fn valid<F: Fn(&serde_json::Value) -> Option<PaymentMethodsEnabled>>(
        self,
        parse: F,
    ) -> bool {
        &&& self.states.len() == self.events.len() + 1
        &&& self.actions.len() == self.states.len()
        &&& self.states[0].started(self.actions[0])
        &&& forall|k: int|
            0 <= k < self.events.len() ==> self.states[k].steps_to(
                parse,
                #[trigger] self.events[k],
                self.states[k + 1],
                self.actions[k + 1],
            )
    }

    /// What the flow has been told when it is in the state at `k`.
    pub open spec fn told(self, k: int) -> Told {
        told(self.events.take(k))
    }

    /// The registration details in the account record when the flow is in the state at `k`: those
    /// that the account was loaded with, or those of the last update that was made.
    pub open spec fn record(self, k: int) -> Option<serde_json::Value>
        decreases k,
    {
        if k <= 0 {
            None
        } else {
            match self.events[k - 1] {
                RegistrationEvent::Account(Ok(account)) => {
                    account.connector_webhook_registration_details
                },
                RegistrationEvent::Update(Ok(_)) => self.actions[k - 1]->update.details(),
                _ => self.record(k - 1),
            }
        }
    }
}

/// The webhook ID that a reply brings, if any.
pub open spec fn brought_id(reply: ConnectorReply) -> Option<Seq<char>> {
    match reply {
        Ok(response) => match response.connector_webhook_id {
            Some(id) => Some(id@),
            None => None,
        },
        Err(_) => None,
    }
}

/// The details with the webhooks of these replies to the first calls of the plan: for each reply
/// that brings an ID, in the plan's order, the scope of its plan entry under that ID.
pub open spec fn details_after(
    details: Json,
    plan: Seq<(ScopeIdentifier, String)>,
    replies: Seq<ConnectorReply>,
) -> Json
    decreases replies.len(),
{
    if replies.len() == 0 {
        details
    } else {
        let before = details_after(details, plan, replies.drop_last());
        match (before, brought_id(replies.last())) {
            (Json::Object(members), Some(id)) => Json::Object(
                members.insert(id, scope_entry(plan[replies.len() - 1].0)),
            ),
            _ => before,
        }
    }
}

/// The last of the replies that brings this ID.
pub open spec fn last_to_bring(replies: Seq<ConnectorReply>, id: Seq<char>) -> Option<int>
    decreases replies.len(),
{
    if replies.len() == 0 {
        None
    } else if brought_id(replies.last()) == Some(id) {
        Some(replies.len() - 1)
    } else {
        last_to_bring(replies.drop_last(), id)
    }
}

/// What a flow has been told: the account, whether the profile passed, the connector, the plans,
/// and the replies to its calls.
pub struct Told {
    pub account: Option<MerchantConnectorAccount>,
    pub profile_passed: bool,
    pub connector: Option<ConnectorData>,
    pub plans: Seq<Seq<(ScopeIdentifier, String)>>,
    pub replies: Seq<ConnectorReply>,
}

impl Told {
    /// The account passed the profile check, the connector takes registrations, and its first plan
    /// shows that it supports the scope.
    pub open spec fn vetted(self) -> bool {
        &&& self.account is Some
        &&& self.profile_passed
        &&& self.connector is Some
        &&& self.connector->0.is_webhook_auto_configuration_supported
        &&& self.plans.len() >= 1
        &&& self.plans[0].len() > 0
    }

    /// The plan to carry out: the second that the connector made.
    pub open spec fn plan(self) -> Seq<(ScopeIdentifier, String)> {
        self.plans[1]
    }

    /// The result of the call for the plan's entry `i`.
    pub open spec fn result(self, i: int) -> WebhookRegistrationResult {
        result_of(self.plan()[i].0, self.replies[i])
    }

    /// What the details of the account held when it was loaded.
    pub open spec fn loaded(self) -> Json {
        stored_details(self.account->0.connector_webhook_registration_details)
    }

    /// What the details are to hold after the replies so far.
    pub open spec fn kept(self) -> Json {
        details_after(self.loaded(), self.plan(), self.replies)
    }

    /// The account is the loaded one, but for the details, which hold what they are to hold.
    pub open spec fn has_account(self, account: MerchantConnectorAccount) -> bool {
        let details = account.connector_webhook_registration_details;
        &&& self.account is Some
        &&& account == self.account->0.with_details(details)
        &&& stored_details(details) == self.kept()
    }

    /// The results are those of the first calls of the plan, one for each.
    pub open spec fn has_results(self, results: Seq<WebhookRegistrationResult>) -> bool {
        &&& results.len() <= self.replies.len()
        &&& forall|i: int| 0 <= i < results.len() ==> #[trigger] results[i] == self.result(i)
    }
}

/// What a flow has been told by these events.
pub open spec fn told(events: Seq<RegistrationEvent>) -> Told
    decreases events.len(),
{
    if events.len() == 0 {
        Told {
            account: None,
            profile_passed: false,
            connector: None,
            plans: Seq::empty(),
            replies: Seq::empty(),
        }
    } else {
        let before = told(events.drop_last());
        match events.last() {
            RegistrationEvent::Account(Ok(account)) => Told { account: Some(account), ..before },
            RegistrationEvent::Profile(Ok(_)) => Told { profile_passed: true, ..before },
            RegistrationEvent::Connector(Ok(connector)) => {
                Told { connector: Some(connector), ..before }
            },
            RegistrationEvent::Plan(plan) => Told { plans: before.plans.push(plan@), ..before },
            RegistrationEvent::Reply(Ok(reply)) => {
                Told { replies: before.replies.push(reply), ..before }
            },
            _ => before,
        }
    }
}

/// What a state and its action have to do with what the flow has been told.
pub open spec fn consistent<F: Fn(&serde_json::Value) -> Option<PaymentMethodsEnabled>>(
    parse: F,
    flow: RegistrationFlow,
    action: RegistrationAction,
    told: Told,
) -> bool {
    &&& (action is Finish <==> flow.stage is Finished)
    &&& (action is CallConnector <==> flow.stage is Reply)
    &&& (action is UpdateAccount <==> flow.stage is Update)
    &&& (action is MakePlan <==> flow.stage is Support || flow.stage is Plan)
    &&& match flow.stage {
        RegistrationStage::KeyStore | RegistrationStage::Account => {
            &&& told.plans.len() == 0
            &&& told.replies.len() == 0
        },
        RegistrationStage::Profile { account } => {
            &&& told.account == Some(account)
            &&& told.plans.len() == 0
            &&& told.replies.len() == 0
        },
        RegistrationStage::Connector { account } => {
            &&& told.account == Some(account)
            &&& told.profile_passed
            &&& told.plans.len() == 0
            &&& told.replies.len() == 0
        },
        RegistrationStage::Support { account, connector } => {
            &&& told.account == Some(account)
            &&& told.profile_passed
            &&& told.connector == Some(connector)
            &&& connector.is_webhook_auto_configuration_supported
            &&& told.plans.len() == 0
            &&& told.replies.len() == 0
            &&& asks_for_plan(flow, action, Seq::empty())
        },
        RegistrationStage::Plan { account } => {
            &&& told.account == Some(account)
            &&& told.vetted()
            &&& told.plans.len() == 1
            &&& told.replies.len() == 0
            &&& asks_for_enabled_types(parse, flow, action, account)
        },
        RegistrationStage::Reply { progress } => {
            &&& told.vetted()
            &&& told.plans.len() == 2
            &&& told.has_account(progress.account)
            &&& told.plan() == progress.plan@
            &&& progress.account.connector_account_details is Ok
            &&& progress.unfinished()
            &&& told.replies.len() == progress.results@.len()
            &&& told.has_results(progress.results@)
            &&& action->data == router_data(
                flow.request.tenant_id,
                flow.request.placeholders,
                progress.account,
                progress.account.connector_account_details->Ok_0,
                progress.current().0,
                progress.current().1,
            )
        },
        RegistrationStage::Update { progress, result } => {
            &&& told.vetted()
            &&& told.plans.len() == 2
            &&& told.has_account(progress.account)
            &&& told.plan() == progress.plan@
            &&& progress.account.connector_account_details is Ok
            &&& progress.unfinished()
            &&& told.replies.len() == progress.results@.len() + 1
            &&& told.has_results(progress.results@)
            &&& result == told.result(progress.results@.len() as int)
            &&& result.connector_webhook_id is Some
            &&& told.kept() is Object
            &&& action->update.details() is Some
            &&& action->update.details() == progress.account.connector_webhook_registration_details
        },
        RegistrationStage::Finished => {
            &&& told.plans.len() <= 2
            &&& (action matches RegistrationAction::Finish(Ok(response)) ==> {
                &&& told.vetted()
                &&& told.plans.len() == 2
                &&& told.replies.len() == told.plan().len()
                &&& response.results@.len() == told.plan().len()
                &&& told.has_results(response.results@)
                &&& response.scope_type == scope_type_of(flow.request.request.scope@)
                &&& response.requested@ == requested_identifiers(flow.request.request.scope@)
            })
        },
    }
}

proof fn lemma_step_consistent<
    F: Fn(&serde_json::Value) -> Option<PaymentMethodsEnabled>,
>(
    parse: F,
    flow: RegistrationFlow,
    action: RegistrationAction,
    events: Seq<RegistrationEvent>,
    event: RegistrationEvent,
    after: RegistrationFlow,
    next: RegistrationAction,
)
    requires
        consistent(parse, flow, action, told(events)),
        flow.steps_to(parse, event, after, next),
    ensures
        consistent(parse, after, next, told(events.push(event))),
{
    assert(events.push(event).drop_last() =~= events);
    let before = told(events);
    let now = told(events.push(event));
    match flow.stage {
        RegistrationStage::Plan { account } => {
            assert(account == account.with_details(account.connector_webhook_registration_details));
        },
        RegistrationStage::Reply { progress } => {
            assert(forall|i: int| 0 <= i < before.replies.len() ==> now.replies[i]
                == before.replies[i]);
            if event is Reply && event->Reply_0 is Ok {
                assert(now.replies.drop_last() =~= before.replies);
            }
        },
        _ => {},
    }
}

/// Every state of a run, and its action, fit what the flow has been told.
pub proof fn lemma_run_consistent<
    F: Fn(&serde_json::Value) -> Option<PaymentMethodsEnabled>,
>(parse: F, run: RegistrationRun, k: int)
    requires
        run.valid(parse),
        0 <= k < run.states.len(),
    ensures
        consistent(parse, run.states[k], run.actions[k], run.told(k)),
        run.states[k].request == run.states[0].request,
    decreases k,
{
    if k > 0 {
        lemma_run_consistent(parse, run, k - 1);
        assert(run.states[k - 1].steps_to(parse, run.events[k - 1], run.states[k], run.actions[k]));
        lemma_step_consistent(
            parse,
            run.states[k - 1],
            run.actions[k - 1],
            run.events.take(k - 1),
            run.events[k - 1],
            run.states[k],
            run.actions[k],
        );
        assert(run.events.take(k) =~= run.events.take(k - 1).push(run.events[k - 1]));
    } else {
        assert(run.events.take(0).len() == 0);
    }
}

/// A run that answers has one result for each entry of the plan, in the plan's order, each for the
/// entry's own identifier and from the connector's reply to that call. The answer gives back the
/// requested scope, as its type and as the list of its identifiers.
pub proof fn law_one_result_for_each_planned_call<
    F: Fn(&serde_json::Value) -> Option<PaymentMethodsEnabled>,
>(parse: F, run: RegistrationRun, k: int)
    requires
        run.valid(parse),
        0 <= k < run.states.len(),
        run.actions[k] matches RegistrationAction::Finish(Ok(_)),
    ensures
        run.actions[k] matches RegistrationAction::Finish(Ok(response)) && {
            let told = run.told(k);
            &&& told.plans.len() == 2
            &&& response.results@.len() == told.plan().len()
            &&& told.replies.len() == told.plan().len()
            &&& forall|i: int|
                0 <= i < told.plan().len() ==> #[trigger] response.results@[i] == result_of(
                    told.plan()[i].0,
                    told.replies[i],
                )
            &&& response.scope_type == scope_type_of(run.states[0].request.request.scope@)
            &&& response.requested@ == requested_identifiers(
                run.states[0].request.request.scope@,
            )
        },
{
    lemma_run_consistent(parse, run, k);
}

/// Each call to the connector is for the entry of the plan that comes after as many entries as
/// there have been replies: the calls follow the plan. A call carries that entry's scope and URL,
/// and the data of the account that was loaded.
pub proof fn law_calls_follow_the_plan<
    F: Fn(&serde_json::Value) -> Option<PaymentMethodsEnabled>,
>(parse: F, run: RegistrationRun, k: int)
    requires
        run.valid(parse),
        0 <= k < run.states.len(),
        run.actions[k] is CallConnector,
    ensures
        ({
            let told = run.told(k);
            let n = told.replies.len() as int;
            &&& told.plans.len() == 2
            &&& n < told.plan().len()
            &&& told.account is Some
            &&& told.account->0.connector_account_details matches Ok(auth_type)
                && run.actions[k]->data == router_data(
                run.states[0].request.tenant_id,
                run.states[0].request.placeholders,
                told.account->0,
                auth_type,
                told.plan()[n].0,
                told.plan()[n].1,
            )
        }),
{
    lemma_run_consistent(parse, run, k);
}

/// The connector is asked for a plan at most twice, both times for the requested scope: first
/// without any payment method type, to see whether the scope is supported, and then with those that
/// the loaded account has enabled.
pub proof fn law_plans_are_made_for_the_account<
    F: Fn(&serde_json::Value) -> Option<PaymentMethodsEnabled>,
>(parse: F, run: RegistrationRun, k: int)
    requires
        run.valid(parse),
        0 <= k < run.states.len(),
        run.actions[k] is MakePlan,
    ensures
        run.told(k).account is Some,
        run.told(k).plans.len() <= 1,
        run.actions[k]->scope@ == run.states[0].request.request.scope@,
        run.told(k).plans.len() == 0 ==> run.actions[k]->payment_method_types@.len() == 0,
        run.told(k).plans.len() == 1 ==> exists|methods: Seq<Option<PaymentMethodsEnabled>>|
            #[trigger] parses_documents(parse, enabled_documents(run.told(k).account->0), methods)
                && run.actions[k]->payment_method_types@ == all_listed_types(methods),
{
    lemma_run_consistent(parse, run, k);
    let flow = run.states[k];
    let action = run.actions[k];
    if flow.stage is Plan {
        let account = run.told(k).account->0;
        assert(asks_for_enabled_types(parse, flow, action, account));
        let methods = choose|methods: Seq<Option<PaymentMethodsEnabled>>| #[trigger]
            parses_documents(parse, enabled_documents(account), methods) && asks_for_plan(
                flow,
                action,
                all_listed_types(methods),
            );
        assert(action->payment_method_types@ == all_listed_types(methods));
    }
}

/// The connector is called, and the account record changed, only after the profile check has
/// passed, the connector has turned out to take registrations, and its plan for the scope has
/// turned out not to be empty. A request that is refused on one of these grounds touches nothing.
pub proof fn law_only_vetted_requests_have_effects<
    F: Fn(&serde_json::Value) -> Option<PaymentMethodsEnabled>,
>(parse: F, run: RegistrationRun, k: int)
    requires
        run.valid(parse),
        0 <= k < run.states.len(),
        run.actions[k] is CallConnector || run.actions[k] is UpdateAccount,
    ensures
        run.told(k).vetted(),
{
    lemma_run_consistent(parse, run, k);
}

/// Details to which webhooks are added are an object if and only if they were one.
pub proof fn lemma_details_stay_an_object(
    details: Json,
    plan: Seq<(ScopeIdentifier, String)>,
    replies: Seq<ConnectorReply>,
)
    ensures
        details_after(details, plan, replies) is Object <==> details is Object,
    decreases replies.len(),
{
    if replies.len() > 0 {
        lemma_details_stay_an_object(details, plan, replies.drop_last());
    }
}

/// An update of the account record adds the webhook of the last reply, under its ID and with the
/// scope of its plan entry, to what the details hold after the replies before, and changes nothing
/// else in them.
pub proof fn law_updates_add_the_last_webhook<
    F: Fn(&serde_json::Value) -> Option<PaymentMethodsEnabled>,
>(parse: F, run: RegistrationRun, k: int)
    requires
        run.valid(parse),
        0 <= k < run.states.len(),
        run.actions[k] is UpdateAccount,
    ensures
        ({
            let told = run.told(k);
            let n = told.replies.len() - 1;
            let before = details_after(told.loaded(), told.plan(), told.replies.drop_last());
            &&& told.account is Some
            &&& told.plans.len() == 2
            &&& 0 <= n < told.plan().len()
            &&& before is Object
            &&& brought_id(told.replies[n]) matches Some(id) && {
                &&& run.actions[k]->update.details() is Some
                &&& json_of(run.actions[k]->update.details()->0) == Json::Object(
                    before->Object_0.insert(id, scope_entry(told.plan()[n].0)),
                )
            }
        }),
{
    lemma_run_consistent(parse, run, k);
    let told = run.told(k);
    lemma_details_stay_an_object(told.loaded(), told.plan(), told.replies);
    lemma_details_stay_an_object(told.loaded(), told.plan(), told.replies.drop_last());
}

/// The account record is changed after a reply if and only if the reply brings a webhook ID and
/// the details of the account can take it. If they cannot, the run ends with an internal error.
pub proof fn law_updates_follow_webhook_ids<
    F: Fn(&serde_json::Value) -> Option<PaymentMethodsEnabled>,
>(parse: F, run: RegistrationRun, k: int, reply: ConnectorReply)
    requires
        run.valid(parse),
        0 <= k < run.events.len(),
        run.events[k] == RegistrationEvent::Reply(Ok(reply)),
    ensures
        run.told(k).account is Some,
        ({
            let brings_webhook = brought_id(reply) is Some;
            let takes_webhooks = run.told(k).loaded() is Object;
            &&& run.actions[k + 1] is UpdateAccount <==> brings_webhook && takes_webhooks
            &&& brings_webhook && !takes_webhooks ==> (run.actions[k + 1] matches
                RegistrationAction::Finish(Err(error)) && error@ is InternalServerError)
        }),
{
    lemma_run_consistent(parse, run, k);
    lemma_details_stay_an_object(run.told(k).loaded(), run.told(k).plan(), run.told(k).replies);
    lemma_run_consistent(parse, run, k + 1);
    assert(run.states[k].steps_to(parse, run.events[k], run.states[k + 1], run.actions[k + 1]));
}

/// A registration that the connector turns down does not end the run: the next call of the plan
/// follows, or the answer.
pub proof fn law_failed_registrations_do_not_stop_the_run<
    F: Fn(&serde_json::Value) -> Option<PaymentMethodsEnabled>,
>(parse: F, run: RegistrationRun, k: int, reply: ConnectorReply)
    requires
        run.valid(parse),
        0 <= k < run.events.len(),
        run.events[k] == RegistrationEvent::Reply(Ok(reply)),
        reply is Err,
    ensures
        run.actions[k + 1] is CallConnector || run.actions[k + 1] matches
            RegistrationAction::Finish(Ok(_)),
{
    lemma_run_consistent(parse, run, k);
    assert(run.states[k].steps_to(parse, run.events[k], run.states[k + 1], run.actions[k + 1]));
}

/// Why a flow that has been told this ends with an error on the event, if it does.
pub open spec fn refusal(
    request: RegistrationRequest,
    told: Told,
    event: RegistrationEvent,
) -> Option<ApiError> {
    match event {
        RegistrationEvent::KeyStore(Err(error)) => Some(
            lookup_error(error, ApiError::MerchantAccountNotFound),
        ),
        RegistrationEvent::Account(Err(error)) => Some(
            lookup_error(
                error,
                ApiError::MerchantConnectorAccountNotFound { id: request.merchant_connector_id@ },
            ),
        ),
        RegistrationEvent::Profile(Err(error)) => Some(error@),
        RegistrationEvent::Connector(Err(error)) => Some(error@),
        RegistrationEvent::Connector(Ok(connector)) => {
            if connector.is_webhook_auto_configuration_supported {
                None
            } else {
                Some(flow_not_supported(connector))
            }
        },
        RegistrationEvent::Plan(plan) => if told.plans.len() == 0 && plan@.len() == 0 {
            Some(scope_not_supported())
        } else if told.plans.len() == 1 && plan@.len() > 0
            && told.account->0.connector_account_details is Err {
            Some(ApiError::InternalServerError)
        } else {
            None
        },
        RegistrationEvent::Reply(Err(error)) => Some(error@),
        RegistrationEvent::Reply(Ok(Ok(response))) => {
            if response.connector_webhook_id is Some && !(told.loaded() is Object) {
                Some(ApiError::InternalServerError)
            } else {
                None
            }
        },
        RegistrationEvent::Update(Err(_)) => Some(
            ApiError::DuplicateMerchantConnectorAccount {
                profile_id: told.account->0.profile_id@,
                connector_label: told.account->0.connector_name@,
            },
        ),
        _ => None,
    }
}

/// What a refused request is answered: each ground for refusal ends the run at once with its own
/// error, and nothing else ends it with an error.
pub proof fn law_refusals_have_their_errors<
    F: Fn(&serde_json::Value) -> Option<PaymentMethodsEnabled>,
>(parse: F, run: RegistrationRun, k: int)
    requires
        run.valid(parse),
        0 <= k < run.events.len(),
    ensures
        match refusal(run.states[0].request, run.told(k), run.events[k]) {
            Some(error) => run.actions[k + 1] matches RegistrationAction::Finish(Err(response))
                && response@ == error,
            None => !(run.actions[k + 1] matches RegistrationAction::Finish(Err(_))),
        },
{
    lemma_run_consistent(parse, run, k);
    lemma_details_stay_an_object(run.told(k).loaded(), run.told(k).plan(), run.told(k).replies);
    assert(run.states[k].steps_to(parse, run.events[k], run.states[k + 1], run.actions[k + 1]));
}

/// The members of the details in an update.
pub open spec fn updated_members(update: MerchantConnectorAccountUpdate) -> Map<Seq<char>, Json> {
    json_of(update.details()->0)->Object_0
}

/// After an update the record holds what the account was loaded with and, in the plan's order, the
/// scope entry of every reply so far that brought an ID.
pub proof fn law_record_after_an_update<
    F: Fn(&serde_json::Value) -> Option<PaymentMethodsEnabled>,
>(parse: F, run: RegistrationRun, k: int)
    requires
        run.valid(parse),
        0 <= k < run.states.len(),
        run.actions[k] is UpdateAccount,
    ensures
        run.told(k).loaded() is Object,
        run.actions[k]->update.details() is Some,
        json_of(run.actions[k]->update.details()->0) == details_after(
            run.told(k).loaded(),
            run.told(k).plan(),
            run.told(k).replies,
        ),
{
    lemma_run_consistent(parse, run, k);
    lemma_details_stay_an_object(run.told(k).loaded(), run.told(k).plan(), run.told(k).replies);
}

/// What a state has to do with what the account record holds.
pub open spec fn records(run: RegistrationRun, k: int) -> bool {
    match run.states[k].stage {
        RegistrationStage::KeyStore | RegistrationStage::Account => true,
        RegistrationStage::Profile { account } | RegistrationStage::Connector { account }
        | RegistrationStage::Support { account, .. } | RegistrationStage::Plan { account } => {
            run.record(k) == account.connector_webhook_registration_details
        },
        RegistrationStage::Reply { progress } => {
            run.record(k) == progress.account.connector_webhook_registration_details
        },
        RegistrationStage::Update { progress, result } => {
            &&& result.connector_webhook_id is Some
            &&& adds_webhook(
                run.actions[k]->update,
                run.record(k),
                result.connector_webhook_id->0@,
                progress.current().0,
            )
        },
        RegistrationStage::Finished => run.actions[k] matches RegistrationAction::Finish(Ok(_))
            ==> stored_details(run.record(k)) == run.told(k).kept(),
    }
}

/// Every state of a run fits what the account record holds.
pub proof fn lemma_run_records<F: Fn(&serde_json::Value) -> Option<PaymentMethodsEnabled>>(
    parse: F,
    run: RegistrationRun,
    k: int,
)
    requires
        run.valid(parse),
        0 <= k < run.states.len(),
    ensures
        records(run, k),
    decreases k,
{
    if k > 0 {
        lemma_run_records(parse, run, k - 1);
        lemma_run_consistent(parse, run, k - 1);
        lemma_run_consistent(parse, run, k);
        assert(run.states[k - 1].steps_to(parse, run.events[k - 1], run.states[k], run.actions[k]));
        assert(run.events.take(k).drop_last() =~= run.events.take(k - 1));
        assert(run.events.take(k).last() == run.events[k - 1]);
        if run.events[k - 1] is Reply && run.events[k - 1]->Reply_0 is Ok {
            assert(run.told(k).replies.drop_last() =~= run.told(k - 1).replies);
        }
    }
}

/// Once a run has answered, the account record holds what it held before and, in the plan's order,
/// the scope entry of every reply that brought an ID.
pub proof fn law_record_after_a_run<
    F: Fn(&serde_json::Value) -> Option<PaymentMethodsEnabled>,
>(parse: F, run: RegistrationRun, k: int)
    requires
        run.valid(parse),
        0 <= k < run.states.len(),
        run.actions[k] matches RegistrationAction::Finish(Ok(_)),
    ensures
        stored_details(run.record(k)) == details_after(
            run.told(k).loaded(),
            run.told(k).plan(),
            run.told(k).replies,
        ),
{
    lemma_run_records(parse, run, k);
    lemma_run_consistent(parse, run, k);
}

proof fn lemma_details_after(
    members: Map<Seq<char>, Json>,
    plan: Seq<(ScopeIdentifier, String)>,
    replies: Seq<ConnectorReply>,
    id: Seq<char>,
)
    ensures
        details_after(Json::Object(members), plan, replies) matches Json::Object(after) && (
        match last_to_bring(replies, id) {
            Some(i) => {
                &&& 0 <= i < replies.len()
                &&& brought_id(replies[i]) == Some(id)
                &&& after.contains_key(id)
                &&& after[id] == scope_entry(plan[i].0)
            },
            None => {
                &&& after.contains_key(id) <==> members.contains_key(id)
                &&& after.contains_key(id) ==> after[id] == members[id]
            },
        }),
    decreases replies.len(),
{
    if replies.len() > 0 {
        lemma_details_after(members, plan, replies.drop_last(), id);
    }
}

proof fn lemma_last_to_bring(replies: Seq<ConnectorReply>, id: Seq<char>, i: int)
    requires
        0 <= i < replies.len(),
        brought_id(replies[i]) == Some(id),
    ensures
        last_to_bring(replies, id) matches Some(last) && {
            &&& i <= last < replies.len()
            &&& brought_id(replies[last]) == Some(id)
        },
    decreases replies.len(),
{
    if brought_id(replies.last()) != Some(id) {
        lemma_last_to_bring(replies.drop_last(), id, i);
    }
}

/// Every webhook that a run registers is in the account record once the run has answered, with the
/// scope that it was registered for; if several replies bring the same ID, with that of the last.
pub proof fn law_webhooks_are_kept<F: Fn(&serde_json::Value) -> Option<PaymentMethodsEnabled>>(
    parse: F,
    run: RegistrationRun,
    k: int,
    i: int,
    id: Seq<char>,
)
    requires
        run.valid(parse),
        0 <= k < run.states.len(),
        run.actions[k] matches RegistrationAction::Finish(Ok(_)),
        0 <= i < run.told(k).replies.len(),
        brought_id(run.told(k).replies[i]) == Some(id),
    ensures
        stored_details(run.record(k)) matches Json::Object(members) && {
            let told = run.told(k);
            &&& members.contains_key(id)
            &&& (forall|j: int|
                i < j < told.replies.len() ==> brought_id(#[trigger] told.replies[j]) != Some(id))
                ==> members[id] == scope_entry(told.plan()[i].0)
        },
{
    let told = run.told(k);
    law_record_after_a_run(parse, run, k);
    lemma_run_keeps_object(parse, run, k, i, id);
    lemma_details_after(told.loaded()->Object_0, told.plan(), told.replies, id);
    lemma_last_to_bring(told.replies, id, i);
}

proof fn lemma_run_keeps_object<F: Fn(&serde_json::Value) -> Option<PaymentMethodsEnabled>>(
    parse: F,
    run: RegistrationRun,
    k: int,
    i: int,
    id: Seq<char>,
)
    requires
        run.valid(parse),
        0 <= k < run.states.len(),
        !(run.actions[k] matches RegistrationAction::Finish(Err(_))),
        0 <= i < run.told(k).replies.len(),
        brought_id(run.told(k).replies[i]) == Some(id),
    ensures
        run.told(k).loaded() is Object,
    decreases k,
{
    if k > 0 {
        lemma_run_consistent(parse, run, k - 1);
        lemma_run_consistent(parse, run, k);
        assert(run.states[k - 1].steps_to(parse, run.events[k - 1], run.states[k], run.actions[k]));
        assert(run.events.take(k).drop_last() =~= run.events.take(k - 1));
        assert(run.events.take(k).last() == run.events[k - 1]);
        let before = run.told(k - 1);
        if i < before.replies.len() {
            lemma_run_keeps_object(parse, run, k - 1, i, id);
        } else {
            lemma_details_stay_an_object(before.loaded(), before.plan(), before.replies);
        }
    } else {
        assert(run.events.take(0).len() == 0);
    }
}

/// Webhooks of the account that a run does not register again stay in the record as they were, and
/// no others appear.
pub proof fn law_other_webhooks_stay<F: Fn(&serde_json::Value) -> Option<PaymentMethodsEnabled>>(
    parse: F,
    run: RegistrationRun,
    k: int,
    id: Seq<char>,
)
    requires
        run.valid(parse),
        0 <= k < run.states.len(),
        run.actions[k] matches RegistrationAction::Finish(Ok(_)),
        run.told(k).loaded() is Object,
        forall|i: int|
            0 <= i < run.told(k).replies.len() ==> brought_id(#[trigger] run.told(k).replies[i])
                != Some(id),
    ensures
        stored_details(run.record(k)) matches Json::Object(members) && {
            let loaded = run.told(k).loaded()->Object_0;
            &&& members.contains_key(id) <==> loaded.contains_key(id)
            &&& members.contains_key(id) ==> members[id] == loaded[id]
        },
{
    let told = run.told(k);
    law_record_after_a_run(parse, run, k);
    lemma_details_after(told.loaded()->Object_0, told.plan(), told.replies, id);
}

/// How many steps lead at most to a stage that the flow does not end in.
spec fn steps_before(stage: RegistrationStage) -> nat {
    match stage {
        RegistrationStage::KeyStore => 0,
        RegistrationStage::Account => 1,
        RegistrationStage::Profile { .. } => 2,
        RegistrationStage::Connector { .. } => 3,
        RegistrationStage::Support { .. } => 4,
        RegistrationStage::Plan { .. } => 5,
        RegistrationStage::Reply { progress } => 6 + 2 * progress.results@.len(),
        RegistrationStage::Update { progress, .. } => 7 + 2 * progress.results@.len(),
        RegistrationStage::Finished => 0,
    }
}

proof fn lemma_steps_before<
    F: Fn(&serde_json::Value) -> Option<PaymentMethodsEnabled>,
>(parse: F, run: RegistrationRun, k: int)
    requires
        run.valid(parse),
        0 <= k < run.states.len(),
        !(run.states[k].stage is Finished),
    ensures
        k <= steps_before(run.states[k].stage),
    decreases k,
{
    if k > 0 {
        assert(run.states[k - 1].steps_to(parse, run.events[k - 1], run.states[k], run.actions[k]));
        lemma_steps_before(parse, run, k - 1);
    }
}

/// How many calls a run can have to make: as many as the plan to carry out has entries.
pub open spec fn planned_calls(told: Told) -> int {
    if told.plans.len() >= 2 {
        told.plan().len() as int
    } else {
        0
    }
}

/// Every run ends, after at most two steps for each planned call and six more; and it ends with
/// an answer, after which nothing is awaited.
pub proof fn law_runs_end<
    F: Fn(&serde_json::Value) -> Option<PaymentMethodsEnabled>,
>(parse: F, run: RegistrationRun)
    requires
        run.valid(parse),
    ensures
        run.events.len() <= 6 + 2 * planned_calls(run.told(run.events.len() as int)),
        run.states.last().stage is Finished <==> run.actions.last() is Finish,
        forall|k: int| 0 <= k < run.events.len() ==> !(#[trigger] run.states[k].stage is Finished),
{
    let end = run.events.len() as int;
    assert forall|k: int| 0 <= k < end implies !(#[trigger] run.states[k].stage is Finished) by {
        assert(run.states[k].steps_to(parse, run.events[k], run.states[k + 1], run.actions[k + 1]));
    }
    lemma_run_consistent(parse, run, end);
    if end > 0 {
        lemma_run_consistent(parse, run, end - 1);
        lemma_steps_before(parse, run, end - 1);
        assert(run.states[end - 1].steps_to(
            parse,
            run.events[end - 1],
            run.states[end],
            run.actions[end],
        ));
        assert(run.events.take(end).drop_last() =~= run.events.take(end - 1));
        assert(run.events.take(end).last() == run.events[end - 1]);
    }
}

/// An update keeps every other webhook of the account as it was, and names the new one.
pub proof fn law_updates_keep_other_webhooks(
    update: MerchantConnectorAccountUpdate,
    details: Option<serde_json::Value>,
    id: Seq<char>,
    scope: ScopeIdentifier,
    other: Seq<char>,
)
    requires
        adds_webhook(update, details, id, scope),
        stored_details(details)->Object_0.contains_key(other),
        other != id,
    ensures
        updated_members(update).contains_key(id),
        updated_members(update)[id] == scope_entry(scope),
        updated_members(update).contains_key(other),
        updated_members(update)[other] == stored_details(details)->Object_0[other],
{
}

/// The two identifiers are the same: of the same kind, and with the same name.
pub open spec fn same_identifier(a: ScopeIdentifier, b: ScopeIdentifier) -> bool {
    match (a, b) {
        (ScopeIdentifier::NotSpecific, ScopeIdentifier::NotSpecific) => true,
        (ScopeIdentifier::PaymentMethodType(a), ScopeIdentifier::PaymentMethodType(b)) => {
            a.name@ == b.name@
        },
        (ScopeIdentifier::EventType(a), ScopeIdentifier::EventType(b)) => a.name@ == b.name@,
        _ => false,
    }
}

/// A stored registration describes itself: what it says tells which scope was registered.
pub proof fn law_stored_registrations_describe_themselves(a: ScopeIdentifier, b: ScopeIdentifier)
    ensures
        scope_entry(a) == scope_entry(b) <==> same_identifier(a, b),
{
    lemma_words_differ();
    let first = scope_entry(a)->Object_0;
    let second = scope_entry(b)->Object_0;
    if scope_entry(a) == scope_entry(b) {
        assert(first["type"@] == second["type"@]);
        assert(first["value"@] == second["value"@]);
    }
}

/// The identifiers that a scope is expanded into all are of the type that the response gives for
/// the scope, and there is one for each of its entries; a scope without entries has just one.
pub proof fn law_requested_identifiers_fit_the_scope_type(scope: RequestedScope)
    ensures
        forall|i: int|
            0 <= i < requested_identifiers(scope).len() ==> (#[trigger] requested_identifiers(
                scope,
            )[i]).scope_type() == scope_type_of(scope),
        match scope {
            RequestedScope::NotSpecific => requested_identifiers(scope).len() == 1,
            RequestedScope::PaymentMethodTypes(types) => requested_identifiers(scope).len()
                == types.len(),
            RequestedScope::EventTypes(types) => requested_identifiers(scope).len() == types.len(),
        },
{
}

/// The response tells which scope was requested: its scope type and its identifiers together fix
/// the scope.
pub proof fn law_response_tells_the_scope(a: RequestedScope, b: RequestedScope)
    requires
        scope_type_of(a) == scope_type_of(b),
        requested_identifiers(a) == requested_identifiers(b),
    ensures
        a == b,
{
    match (a, b) {
        (RequestedScope::PaymentMethodTypes(first), RequestedScope::PaymentMethodTypes(second)) => {
            assert(requested_identifiers(a).len() == first.len());
            assert(requested_identifiers(b).len() == second.len());
            assert forall|i: int| 0 <= i < first.len() implies first[i] == second[i] by {
                assert(requested_identifiers(a)[i] == ScopeIdentifier::PaymentMethodType(first[i]));
                assert(requested_identifiers(b)[i] == ScopeIdentifier::PaymentMethodType(second[i]));
            }
            assert(first =~= second);
        },
        (RequestedScope::EventTypes(first), RequestedScope::EventTypes(second)) => {
            assert(requested_identifiers(a).len() == first.len());
            assert(requested_identifiers(b).len() == second.len());
            assert forall|i: int| 0 <= i < first.len() implies first[i] == second[i] by {
                assert(requested_identifiers(a)[i] == ScopeIdentifier::EventType(first[i]));
                assert(requested_identifiers(b)[i] == ScopeIdentifier::EventType(second[i]));
            }
            assert(first =~= second);
        },
        _ => {},
    }
}

/// A result is for the identifier that was asked for. It carries error details if and only if the
/// connector turned the registration down, and then it is a failure without a webhook ID.
pub proof fn law_errors_mark_failures(identifier: ScopeIdentifier, reply: ConnectorReply)
    ensures
        ({
            let result = result_of(identifier, reply);
            &&& result.identifier == identifier
            &&& result.error is Some <==> reply is Err
            &&& result.error is Some ==> result.status == WebhookRegistrationStatus::Failure
                && result.connector_webhook_id is None
        }),
{
}

/// Payment methods that could not be read make no difference to the enabled payment method types.
pub proof fn law_unreadable_payment_methods_are_left_out(
    methods: Seq<Option<PaymentMethodsEnabled>>,
)
    ensures
        all_listed_types(methods) == all_listed_types(
            methods.filter(|method: Option<PaymentMethodsEnabled>| method is Some),
        ),
    decreases methods.len(),
{
    reveal(Seq::filter);
    let readable = |method: Option<PaymentMethodsEnabled>| method is Some;
    if methods.len() > 0 {
        let front = methods.drop_last();
        law_unreadable_payment_methods_are_left_out(front);
        lemma_all_listed_types_push(front, methods.last());
        assert(methods =~= front.push(methods.last()));
        if methods.last() is Some {
            lemma_all_listed_types_push(
                front.filter(readable),
                methods.last(),
            );
            assert(methods.filter(readable) =~= front.filter(readable).push(methods.last()));
        } else {
            assert(methods.filter(readable) =~= front.filter(readable));
            assert(all_listed_types(front) + listed_types(methods.last()) =~= all_listed_types(
                front,
            ));
        }
    } else {
        assert(methods.filter(readable) =~= methods);
    }
}

/// A listing has as many webhooks as the details have, and names exactly their IDs.
pub proof fn law_listings_are_complete<
    F: Fn(&serde_json::Value) -> Option<ConnectorWebhookEventType>,
>(parse: F, stored: Map<Seq<char>, Json>, webhooks: Seq<ConnectorWebhookResponse>)
    requires
        lists_webhooks(parse, stored, webhooks),
    ensures
        webhooks.map_values(|webhook: ConnectorWebhookResponse| webhook.connector_webhook_id@).to_set()
            == stored.dom(),
        webhooks.len() == stored.dom().len(),
{
    let ids = webhooks.map_values(
        |webhook: ConnectorWebhookResponse| webhook.connector_webhook_id@,
    );
    assert(ids.no_duplicates()) by {
        assert forall|i: int, j: int| 0 <= i < ids.len() && 0 <= j < ids.len() && i != j implies ids[i]
            != ids[j] by {
            if i < j {
                assert(webhooks[i].connector_webhook_id@ != webhooks[j].connector_webhook_id@);
            } else {
                assert(webhooks[j].connector_webhook_id@ != webhooks[i].connector_webhook_id@);
            }
        }
    }
    assert(ids.to_set() =~= stored.dom()) by {
        assert forall|id: Seq<char>| ids.to_set().contains(id) <==> stored.dom().contains(id) by {
            if ids.contains(id) {
                let i = choose|i: int| 0 <= i < ids.len() && ids[i] == id;
                assert(stored.contains_key(webhooks[i].connector_webhook_id@));
            }
            if stored.contains_key(id) {
                let i = choose|i: int|
                    0 <= i < webhooks.len() && (#[trigger] webhooks[i]).connector_webhook_id@
                        == id;
                assert(ids[i] == id);
                assert(ids.contains(id));
            }
        }
    }
    ids.unique_seq_to_set();
}

/// A registration that the flow writes can be listed: details with nothing else are listed as that
/// one webhook, without an event type.
pub proof fn law_written_registrations_are_listed<
    F: Fn(&serde_json::Value) -> Option<ConnectorWebhookEventType>,
>(
    parse: F,
    update: MerchantConnectorAccountUpdate,
    id: Seq<char>,
    scope: ScopeIdentifier,
    webhooks: Seq<ConnectorWebhookResponse>,
)
    requires
        adds_webhook(update, None, id, scope),
    ensures
        !has_unreadable(parse, updated_members(update)),
        lists_webhooks(parse, updated_members(update), webhooks) ==> webhooks.len() == 1
            && webhooks[0].connector_webhook_id@ == id && webhooks[0].event_type is None,
{
    lemma_scope_entry_is_readable(parse, scope);
    let stored = updated_members(update);
    assert(stored.contains_key(id));
    if lists_webhooks(parse, stored, webhooks) {
        let i = choose|i: int|
            0 <= i < webhooks.len() && (#[trigger] webhooks[i]).connector_webhook_id@ == id;
        if webhooks.len() > 1 {
            assert(stored.contains_key(webhooks[0].connector_webhook_id@));
            assert(stored.contains_key(webhooks[1].connector_webhook_id@));
        }
    }
}

proof fn lemma_scope_entry_is_readable<
    F: Fn(&serde_json::Value) -> Option<ConnectorWebhookEventType>,
>(parse: F, scope: ScopeIdentifier)
    ensures
        stored_event_type(scope_entry(scope)) is None,
        readable_as(parse, scope_entry(scope), None),
        !unreadable(parse, scope_entry(scope)),
{
    lemma_words_differ();
}

proof fn lemma_details_stay_listable<
    F: Fn(&serde_json::Value) -> Option<ConnectorWebhookEventType>,
>(
    parse: F,
    members: Map<Seq<char>, Json>,
    plan: Seq<(ScopeIdentifier, String)>,
    replies: Seq<ConnectorReply>,
)
    requires
        !has_unreadable(parse, members),
    ensures
        details_after(Json::Object(members), plan, replies) matches Json::Object(after)
            && !has_unreadable(parse, after),
{
    lemma_details_stay_an_object(Json::Object(members), plan, replies);
    let after = details_after(Json::Object(members), plan, replies)->Object_0;
    assert forall|id: Seq<char>| #[trigger] after.contains_key(id) implies !unreadable(
        parse,
        after[id],
    ) by {
        lemma_details_after(members, plan, replies, id);
        match last_to_bring(replies, id) {
            Some(i) => lemma_scope_entry_is_readable(parse, plan[i].0),
            None => assert(members.contains_key(id)),
        }
    }
}

/// What a run registers can be listed afterwards: if the details of the account could be listed
/// before the run, they can be listed once it has answered, and a listing then names every webhook
/// that the run registered.
pub proof fn law_registered_webhooks_are_listed<
    F: Fn(&serde_json::Value) -> Option<PaymentMethodsEnabled>,
    G: Fn(&serde_json::Value) -> Option<ConnectorWebhookEventType>,
>(parse: F, read: G, run: RegistrationRun, k: int)
    requires
        run.valid(parse),
        0 <= k < run.states.len(),
        run.actions[k] matches RegistrationAction::Finish(Ok(_)),
        run.told(k).loaded() is Object,
        !has_unreadable(read, run.told(k).loaded()->Object_0),
    ensures
        stored_details(run.record(k)) matches Json::Object(stored) && {
            &&& !has_unreadable(read, stored)
            &&& forall|webhooks: Seq<ConnectorWebhookResponse>, i: int|
                #![trigger lists_webhooks(read, stored, webhooks), run.told(k).replies[i]]
                lists_webhooks(read, stored, webhooks) && 0 <= i < run.told(k).replies.len() ==> (
                brought_id(run.told(k).replies[i]) matches Some(id) ==> exists|j: int|
                    0 <= j < webhooks.len() && (#[trigger] webhooks[j]).connector_webhook_id@
                        == id)
        },
{
    let told = run.told(k);
    law_record_after_a_run(parse, run, k);
    lemma_details_stay_listable(read, told.loaded()->Object_0, told.plan(), told.replies);
    let stored = stored_details(run.record(k))->Object_0;
    assert forall|i: int|
        0 <= i < told.replies.len() && brought_id(
            #[trigger] told.replies[i],
        ) is Some implies stored.contains_key(brought_id(told.replies[i])->0) by {
        law_webhooks_are_kept(parse, run, k, i, brought_id(told.replies[i])->0);
    }
}

/// A run of the listing flow, as `RegistrationRun` is one of the registration flow.
pub struct FetchRun {
    pub states: Seq<FetchFlow>,
    pub events: Seq<FetchEvent>,
    pub actions: Seq<FetchAction>,
}

impl FetchRun {
    /// The run begins at the start of the flow and each state steps to the next.
    pub open spec fn valid<F: Fn(&serde_json::Value) -> Option<ConnectorWebhookEventType>>(
        self,
        parse: F,
    ) -> bool {
        &&& self.states.len() == self.events.len() + 1
        &&& self.actions.len() == self.states.len()
        &&& self.states[0].started(self.actions[0])
        &&& forall|k: int|
            0 <= k < self.events.len() ==> self.states[k].steps_to(
                parse,
                #[trigger] self.events[k],
                self.states[k + 1],
                self.actions[k + 1],
            )
    }
}

/// What a refused listing is answered: a failed lookup and a profile that does not pass end it with
/// their own errors. Otherwise it fails only if the details of the account are no object or hold a
/// webhook that cannot be read, with an internal error.
pub proof fn law_listing_refusals_have_their_errors<
    F: Fn(&serde_json::Value) -> Option<ConnectorWebhookEventType>,
>(parse: F, run: FetchRun, k: int)
    requires
        run.valid(parse),
        0 <= k < run.events.len(),
    ensures
        match run.events[k] {
            FetchEvent::KeyStore(Err(error)) => refused(
                run.states[k + 1],
                run.actions[k + 1],
                lookup_error(error, ApiError::MerchantAccountNotFound),
            ),
            FetchEvent::Account(Err(error)) => refused(
                run.states[k + 1],
                run.actions[k + 1],
                lookup_error(
                    error,
                    ApiError::MerchantConnectorAccountNotFound {
                        id: run.states[k].request.merchant_connector_id@,
                    },
                ),
            ),
            FetchEvent::Account(Ok(account)) => {
                let stored = stored_details(account.connector_webhook_registration_details);
                &&& !(stored is Object) ==> run.actions[k + 1] is Finish
                &&& run.actions[k + 1] is Finish ==> refused(
                    run.states[k + 1],
                    run.actions[k + 1],
                    ApiError::InternalServerError,
                ) && (stored is Object ==> has_unreadable(parse, stored->Object_0))
            },
            FetchEvent::Profile(Err(error)) => refused(
                run.states[k + 1],
                run.actions[k + 1],
                error@,
            ),
            _ => !(run.actions[k + 1] matches FetchAction::Finish(Err(_))),
        },
{
    assert(run.states[k].steps_to(parse, run.events[k], run.states[k + 1], run.actions[k + 1]));
}

/// A listing is answered only after the profile check has passed, and then with the name of the
/// loaded account's connector and all the webhooks in its details. Every run ends within three
/// steps.
pub proof fn law_listings_answer_for_the_loaded_account<
    F: Fn(&serde_json::Value) -> Option<ConnectorWebhookEventType>,
>(parse: F, run: FetchRun)
    requires
        run.valid(parse),
    ensures
        run.events.len() <= 3,
        run.actions.last() matches FetchAction::Finish(Ok(response)) ==> {
            &&& run.events.len() == 3
            &&& run.events[1] matches FetchEvent::Account(Ok(account)) && {
                &&& response.connector == account.connector_name
                &&& stored_details(account.connector_webhook_registration_details) is Object
                &&& lists_webhooks(
                    parse,
                    stored_details(account.connector_webhook_registration_details)->Object_0,
                    response.webhooks@,
                )
            }
            &&& run.events[2] matches FetchEvent::Profile(Ok(_))
        },
{
    if run.events.len() > 0 {
        assert(run.states[0].steps_to(parse, run.events[0], run.states[1], run.actions[1]));
    }
    if run.events.len() > 1 {
        assert(run.states[1].steps_to(parse, run.events[1], run.states[2], run.actions[2]));
    }
    if run.events.len() > 2 {
        assert(run.states[2].steps_to(parse, run.events[2], run.states[3], run.actions[3]));
    }
    if run.events.len() > 3 {
        assert(run.states[3].steps_to(parse, run.events[3], run.states[4], run.actions[4]));
    }
}

/// What a listing says of a webhook: its ID, and the name of its event type if it has one.
pub open spec fn listed(webhook: ConnectorWebhookResponse) -> (Seq<char>, Option<Seq<char>>) {
    (webhook.connector_webhook_id@, event_name(webhook.event_type))
}

/// The name of an event type, if there is one.
pub open spec fn event_name(event_type: Option<ConnectorWebhookEventType>) -> Option<Seq<char>> {
    match event_type {
        Some(event_type) => Some(event_type.name@),
        None => None,
    }
}

/// `parse` reads the same event type from a document every time, or none every time.
pub open spec fn reads_alike<F: Fn(&serde_json::Value) -> Option<ConnectorWebhookEventType>>(
    parse: F,
) -> bool {
    forall|json: Json, a: Option<ConnectorWebhookEventType>, b: Option<ConnectorWebhookEventType>|
        #[trigger] can_parse(parse, json, a) && #[trigger] can_parse(parse, json, b) ==> event_name(
            a,
        ) == event_name(b)
}

proof fn lemma_listings_name_the_same<
    F: Fn(&serde_json::Value) -> Option<ConnectorWebhookEventType>,
>(
    parse: F,
    stored: Map<Seq<char>, Json>,
    first: Seq<ConnectorWebhookResponse>,
    second: Seq<ConnectorWebhookResponse>,
    webhook: (Seq<char>, Option<Seq<char>>),
)
    requires
        reads_alike(parse),
        lists_webhooks(parse, stored, first),
        lists_webhooks(parse, stored, second),
        first.map_values(|webhook: ConnectorWebhookResponse| listed(webhook)).contains(webhook),
    ensures
        second.map_values(|webhook: ConnectorWebhookResponse| listed(webhook)).contains(webhook),
{
    let there = first.map_values(|webhook: ConnectorWebhookResponse| listed(webhook));
    let here = second.map_values(|webhook: ConnectorWebhookResponse| listed(webhook));
    let i = choose|i: int| 0 <= i < there.len() && there[i] == webhook;
    assert(there[i] == listed(first[i]));
    let id = first[i].connector_webhook_id@;
    assert(stored.contains_key(id));
    let j = choose|j: int|
        0 <= j < second.len() && (#[trigger] second[j]).connector_webhook_id@ == id;
    assert(readable_as(parse, stored[id], first[i].event_type));
    assert(readable_as(parse, stored[id], second[j].event_type));
    assert(here[j] == webhook);
}

proof fn lemma_listings_are_distinct<
    F: Fn(&serde_json::Value) -> Option<ConnectorWebhookEventType>,
>(parse: F, stored: Map<Seq<char>, Json>, webhooks: Seq<ConnectorWebhookResponse>)
    requires
        lists_webhooks(parse, stored, webhooks),
    ensures
        webhooks.map_values(|webhook: ConnectorWebhookResponse| listed(webhook)).no_duplicates(),
{
    let all = webhooks.map_values(|webhook: ConnectorWebhookResponse| listed(webhook));
    assert forall|i: int, j: int| 0 <= i < all.len() && 0 <= j < all.len() && i != j implies all[i]
        != all[j] by {
        if i < j {
            assert(webhooks[i].connector_webhook_id@ != webhooks[j].connector_webhook_id@);
        } else {
            assert(webhooks[j].connector_webhook_id@ != webhooks[i].connector_webhook_id@);
        }
    }
}

/// Two listings of the same details have the same webhooks, up to their order.
pub proof fn law_listings_of_the_same_details_agree<
    F: Fn(&serde_json::Value) -> Option<ConnectorWebhookEventType>,
>(
    parse: F,
    stored: Map<Seq<char>, Json>,
    first: Seq<ConnectorWebhookResponse>,
    second: Seq<ConnectorWebhookResponse>,
)
    requires
        reads_alike(parse),
        lists_webhooks(parse, stored, first),
        lists_webhooks(parse, stored, second),
    ensures
        first.map_values(|webhook: ConnectorWebhookResponse| listed(webhook)).to_multiset()
            == second.map_values(
            |webhook: ConnectorWebhookResponse| listed(webhook),
        ).to_multiset(),
{
    let a = first.map_values(|webhook: ConnectorWebhookResponse| listed(webhook));
    let b = second.map_values(|webhook: ConnectorWebhookResponse| listed(webhook));
    lemma_listings_are_distinct(parse, stored, first);
    lemma_listings_are_distinct(parse, stored, second);
    a.lemma_multiset_has_no_duplicates();
    b.lemma_multiset_has_no_duplicates();
    a.to_multiset_ensures();
    b.to_multiset_ensures();
    assert forall|webhook: (Seq<char>, Option<Seq<char>>)|
        a.to_multiset().count(webhook) == b.to_multiset().count(webhook) by {
        if a.contains(webhook) {
            lemma_listings_name_the_same(parse, stored, first, second, webhook);
        }
        if b.contains(webhook) {
            lemma_listings_name_the_same(parse, stored, second, first, webhook);
        }
    }
    assert(a.to_multiset() =~= b.to_multiset());
}

/// Two finished listings for the same request that were told the same agree: both end with the same
/// error, or both with the same connector and, up to their order, the same webhooks. The listing
/// flow has no action that changes the record or calls the connector, so the second one finds what
/// the first one found unless something else changes it.
pub proof fn law_listings_agree<
    F: Fn(&serde_json::Value) -> Option<ConnectorWebhookEventType>,
>(parse: F, first: FetchRun, second: FetchRun)
    requires
        reads_alike(parse),
        first.valid(parse),
        second.valid(parse),
        first.states[0].request == second.states[0].request,
        first.actions.last() is Finish,
        second.actions.last() is Finish,
        forall|k: int|
            0 <= k < first.events.len() && k < second.events.len() ==> #[trigger] first.events[k]
                == #[trigger] second.events[k],
    ensures
        first.events == second.events,
        match (first.actions.last(), second.actions.last()) {
            (FetchAction::Finish(Ok(a)), FetchAction::Finish(Ok(b))) => {
                &&& a.connector == b.connector
                &&& a.webhooks@.map_values(
                    |webhook: ConnectorWebhookResponse| listed(webhook),
                ).to_multiset() == b.webhooks@.map_values(
                    |webhook: ConnectorWebhookResponse| listed(webhook),
                ).to_multiset()
            },
            (FetchAction::Finish(Err(a)), FetchAction::Finish(Err(b))) => a@ == b@,
            _ => false,
        },
{
    lemma_fetch_steps(parse, first);
    lemma_fetch_steps(parse, second);
    assert(first.events[0] == second.events[0]);
    if first.events.len() > 1 && second.events.len() > 1 {
        assert(first.events[1] == second.events[1]);
        if let FetchEvent::Account(Ok(account)) = first.events[1] {
            let details = stored_details(account.connector_webhook_registration_details);
            if details is Object {
                if first.events.len() == 3 {
                    lemma_listed_is_readable(
                        parse,
                        details->Object_0,
                        first.states[2].stage->webhooks@,
                    );
                }
                if second.events.len() == 3 {
                    lemma_listed_is_readable(
                        parse,
                        details->Object_0,
                        second.states[2].stage->webhooks@,
                    );
                }
                if first.events.len() == 3 && second.events.len() == 3 {
                    assert(first.events[2] == second.events[2]);
                    law_listings_of_the_same_details_agree(
                        parse,
                        details->Object_0,
                        first.states[2].stage->webhooks@,
                        second.states[2].stage->webhooks@,
                    );
                }
            }
        }
    }
    assert(first.events =~= second.events);
}

proof fn lemma_listed_is_readable<
    F: Fn(&serde_json::Value) -> Option<ConnectorWebhookEventType>,
>(parse: F, stored: Map<Seq<char>, Json>, webhooks: Seq<ConnectorWebhookResponse>)
    requires
        reads_alike(parse),
        lists_webhooks(parse, stored, webhooks),
    ensures
        !has_unreadable(parse, stored),
{
    assert forall|id: Seq<char>| #[trigger] stored.contains_key(id) implies !unreadable(
        parse,
        stored[id],
    ) by {
        let i = choose|i: int|
            0 <= i < webhooks.len() && (#[trigger] webhooks[i]).connector_webhook_id@ == id;
        assert(readable_as(parse, stored[id], webhooks[i].event_type));
        if unreadable(parse, stored[id]) && stored_event_type(stored[id]) is Some {
            let json = stored_event_type(stored[id])->0;
            assert(can_parse(parse, json, webhooks[i].event_type));
            assert(can_parse(parse, json, None));
        }
    }
}

proof fn lemma_fetch_steps<F: Fn(&serde_json::Value) -> Option<ConnectorWebhookEventType>>(
    parse: F,
    run: FetchRun,
)
    requires
        run.valid(parse),
        run.actions.last() is Finish,
    ensures
        1 <= run.events.len() <= 3,
        forall|k: int|
            0 <= k < run.events.len() ==> run.states[k].steps_to(
                parse,
                #[trigger] run.events[k],
                run.states[k + 1],
                run.actions[k + 1],
            ),
        run.states[0].stage is KeyStore,
        run.events.len() >= 2 ==> run.states[1].stage is Account,
        run.events.len() == 3 ==> run.states[2].stage is Profile,
{
    law_listings_answer_for_the_loaded_account(parse, run);
    assert(run.states[0].started(run.actions[0]));
    if run.events.len() > 0 {
        assert(run.states[0].steps_to(parse, run.events[0], run.states[1], run.actions[1]));
    }
    if run.events.len() > 1 {
        assert(run.states[1].steps_to(parse, run.events[1], run.states[2], run.actions[2]));
    }
    if run.events.len() > 2 {
        assert(run.states[2].steps_to(parse, run.events[2], run.states[3], run.actions[3]));
    }
}

} // verus!
