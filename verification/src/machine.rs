//! The life of one command: from its plan, through the calls that the host
//! makes on the exchange client, to the one response that answers it.

use vstd::prelude::*;
use vstd::string::*;

use crate::command::Command;
use crate::command::CommandView;
use crate::command::Control;
use crate::command::Defaults;
use crate::command::DefaultsView;
use crate::command::Plan;
use crate::command::PlanView;
use crate::command::route;
use crate::command::Routed;
use crate::command::routed;
use crate::command::RoutedView;
use crate::exchange::clob_base_url;
use crate::exchange::Event;
use crate::exchange::EventView;
use crate::exchange::failure_of;
use crate::exchange::Fault;
use crate::exchange::FaultView;
use crate::exchange::OrderType;
use crate::exchange::Request;
use crate::exchange::RequestView;
use crate::exchange::unexpected_reply;
use crate::json::add_item;
use crate::json::add_member;
use crate::json::items_view;
use crate::json::Json;
use crate::json::JsonView;
use crate::json::members_view;
use crate::json::opt_text_view;
use crate::laws::lemma_payloads_are_well_keyed;
use crate::laws::lemma_start_is_sound;
use crate::laws::lemma_start_payload_is_well_keyed;
use crate::laws::lemma_step_is_sound;
use crate::response::auth_response;
use crate::response::auth_view;
use crate::response::AuthStatus;
use crate::response::AuthStory;
use crate::response::AuthStoryView;
use crate::response::error_response;
use crate::response::error_view;
use crate::response::Response;
use crate::response::ResponseView;
use crate::response::success_response;
use crate::response::success_view;
use crate::signature::signature_type_label;
use crate::signature::signature_type_name;
use crate::signature::SignatureType;
use crate::text::joined;
use crate::text::opt_view;

verus! {

/// Who the process acts for: fixed when it starts, and the same for every
/// command.
#[derive(Debug, PartialEq, Eq)]
pub struct Identity {
    pub run_id: String,
    pub signer_address: String,
}

pub ghost struct IdentityView {
    pub run_id: Seq<char>,
    pub signer_address: Seq<char>,
}

impl View for Identity {
    type V = IdentityView;

    open spec fn view(&self) -> IdentityView {
        IdentityView { run_id: self.run_id@, signer_address: self.signer_address@ }
    }
}

/// The call that a job is waiting on.
#[derive(Clone, Copy, Debug, PartialEq, Eq, Structural)]
pub enum Phase {
    Opening,
    CheckingFunder,
    Authenticating,
    QueryingBalance,
    CheckingAmount,
    CheckingPrice,
    CheckingUsdc,
    CheckingToken,
    Submitting,
    Cancelling,
    Listing,
}

/// One signature scheme that a probe tried in vain, and why it failed.
#[derive(Debug, PartialEq, Eq)]
pub struct FailedAttempt {
    pub signature_type: SignatureType,
    pub error: String,
}

pub ghost struct FailedAttemptView {
    pub signature_type: SignatureType,
    pub error: Seq<char>,
}

impl View for FailedAttempt {
    type V = FailedAttemptView;

    open spec fn view(&self) -> FailedAttemptView {
        FailedAttemptView { signature_type: self.signature_type, error: self.error@ }
    }
}

/// The views of a probe's failed attempts, in the order they were made.
pub open spec fn failed_view(failed: Seq<FailedAttempt>) -> Seq<FailedAttemptView> {
    Seq::new(failed.len(), |i: int| failed[i]@)
}

/// A command under way: its plan, the call it is waiting on, and, for a
/// probe, the schemes that have failed so far.
#[derive(Debug, PartialEq, Eq)]
pub struct Job {
    pub identity: Identity,
    pub plan: Plan,
    pub phase: Phase,
    pub failed: Vec<FailedAttempt>,
}

pub ghost struct JobView {
    pub identity: IdentityView,
    pub plan: PlanView,
    pub phase: Phase,
    pub failed: Seq<FailedAttemptView>,
}

impl View for Job {
    type V = JobView;

    open spec fn view(&self) -> JobView {
        JobView {
            identity: self.identity@,
            plan: self.plan@,
            phase: self.phase,
            failed: failed_view(self.failed@),
        }
    }
}

/// What a report from the host leads to: the job goes on to its next call,
/// or the command is answered.
#[derive(Debug, PartialEq, Eq)]
pub enum Progress {
    Next { job: Job },
    Reply { response: Response },
}

pub ghost enum ProgressView {
    Next { job: JobView },
    Reply { response: ResponseView },
}

impl View for Progress {
    type V = ProgressView;

    open spec fn view(&self) -> ProgressView {
        match self {
            Progress::Next { job } => ProgressView::Next { job: job@ },
            Progress::Reply { response } => ProgressView::Reply { response: response@ },
        }
    }
}

/// What an input line leads to: a job to carry out, or a response that is
/// owed at once.
#[derive(Debug, PartialEq, Eq)]
pub enum Start {
    Run { job: Job },
    Reply { response: Response, control: Control },
}

pub ghost enum StartView {
    Run { job: JobView },
    Reply { response: ResponseView, control: Control },
}

impl View for Start {
    type V = StartView;

    open spec fn view(&self) -> StartView {
        match self {
            Start::Run { job } => StartView::Run { job: job@ },
            Start::Reply { response, control } => StartView::Reply {
                response: response@,
                control: *control,
            },
        }
    }
}

/// The schemes that a probe tries, in the order it tries them.
pub open spec fn probe_order() -> Seq<SignatureType> {
    seq![SignatureType::Eoa, SignatureType::GnosisSafe, SignatureType::Proxy]
}

/// The scheme of a probe's attempt number `attempt`, counted from zero.
pub open spec fn probe_signature_type(attempt: nat) -> SignatureType {
    if attempt == 0 {
        SignatureType::Eoa
    } else if attempt == 1 {
        SignatureType::GnosisSafe
    } else {
        SignatureType::Proxy
    }
}

/// The advice given when every scheme has failed.
pub open spec fn recommendation() -> Seq<char> {
    "Visit polymarket.com, connect your wallet, and make at least one trade. Then retry."@
}

/// The note that goes with a market count.
pub open spec fn markets_message() -> Seq<char> {
    "Markets retrieved successfully. Use Polymarket API directly for full market data."@
}

/// The phase that follows a session's authentication.
pub open spec fn after_session(plan: PlanView) -> Phase {
    match plan {
        PlanView::Order { .. } => Phase::CheckingAmount,
        PlanView::Cancel { .. } => Phase::Cancelling,
        PlanView::Markets => Phase::Listing,
        _ => Phase::QueryingBalance,
    }
}

/// Whether `event` is a success of the kind that the call of `phase` gives.
pub open spec fn answers(phase: Phase, event: EventView) -> bool {
    match phase {
        Phase::QueryingBalance => event is Balance,
        Phase::Submitting => event is Submitted,
        Phase::Listing => event is Markets,
        _ => event is Done,
    }
}

/// The one-line account of a failure in an authentication or a probe: a
/// funder address that cannot be read is reported as such.
pub open spec fn contextual_summary(phase: Phase, failure: FaultView) -> Seq<char> {
    if phase == Phase::CheckingFunder {
        "Invalid funder address format"@
    } else {
        failure.summary
    }
}

/// The full account of a failure in an authentication: for a funder address
/// that cannot be read, the reader's complaint follows the report.
pub open spec fn contextual_detail(phase: Phase, failure: FaultView) -> Seq<char> {
    if phase == Phase::CheckingFunder {
        "Invalid funder address format: "@ + failure.detail
    } else {
        failure.detail
    }
}

/// The account of a failure in an order: a field that cannot be read is
/// named; any other failure speaks for itself.
pub open spec fn order_failure_text(phase: Phase, failure: FaultView) -> Seq<char> {
    match phase {
        Phase::CheckingAmount => "Invalid amount"@,
        Phase::CheckingPrice => "Invalid price"@,
        Phase::CheckingToken => "Invalid token_id - must be a valid U256"@,
        _ => failure.summary,
    }
}

/// The payload of an authentication that also learned the balance.
pub open spec fn authenticated_payload(balance: Seq<char>, allowances: Seq<char>) -> JsonView {
    JsonView::Object(
        seq![
            ("authenticated"@, JsonView::Bool(true)),
            ("balance"@, JsonView::Text(balance)),
            ("allowances"@, JsonView::Text(allowances)),
        ],
    )
}

/// The payload of an authentication whose balance query failed.
pub open spec fn balance_error_payload(error: Seq<char>) -> JsonView {
    JsonView::Object(
        seq![("authenticated"@, JsonView::Bool(true)), ("balance_error"@, JsonView::Text(error))],
    )
}

/// The payload of a balance query.
pub open spec fn balance_payload(balance: Seq<char>, allowances: Seq<char>) -> JsonView {
    JsonView::Object(
        seq![("balance"@, JsonView::Text(balance)), ("allowances"@, JsonView::Text(allowances))],
    )
}

/// The entry of a probe's results for a scheme that failed.
pub open spec fn failed_entry(failure: FailedAttemptView) -> JsonView {
    JsonView::Object(
        seq![
            ("signature_type"@, JsonView::Text(signature_type_label(failure.signature_type))),
            ("success"@, JsonView::Bool(false)),
            ("error"@, JsonView::Text(failure.error)),
        ],
    )
}

/// The entry of a probe's results for the scheme that works.
pub open spec fn working_entry(signature_type: SignatureType, balance: Seq<char>) -> JsonView {
    JsonView::Object(
        seq![
            ("signature_type"@, JsonView::Text(signature_type_label(signature_type))),
            ("success"@, JsonView::Bool(true)),
            ("balance"@, JsonView::Text(balance)),
        ],
    )
}

/// The entries for the schemes that failed, in the order they were tried.
pub open spec fn failed_entries(failed: Seq<FailedAttemptView>) -> Seq<JsonView> {
    Seq::new(failed.len(), |i: int| failed_entry(failed[i]))
}

/// The scheme and the funder that a probe found to work.
pub open spec fn working_config(signature_type: SignatureType, funder: Option<Seq<char>>) -> JsonView {
    JsonView::Object(
        seq![
            ("signature_type"@, JsonView::Text(signature_type_label(signature_type))),
            ("funder_address"@, opt_text_view(funder)),
        ],
    )
}

/// The payload of a probe that found a working scheme: the scheme and the
/// funder, the balance, and every attempt made, the failed ones first.
pub open spec fn working_payload(
    signature_type: SignatureType,
    funder: Option<Seq<char>>,
    failed: Seq<FailedAttemptView>,
    balance: Seq<char>,
    allowances: Seq<char>,
) -> JsonView {
    JsonView::Object(
        seq![
            ("working_config"@, working_config(signature_type, funder)),
            ("balance"@, JsonView::Text(balance)),
            ("allowances"@, JsonView::Text(allowances)),
            (
                "probe_results"@,
                JsonView::List(failed_entries(failed).push(working_entry(signature_type, balance))),
            ),
        ],
    )
}

/// The payload of a probe for which every scheme failed.
pub open spec fn exhausted_payload(failed: Seq<FailedAttemptView>) -> JsonView {
    JsonView::Object(
        seq![
            ("probe_results"@, JsonView::List(failed_entries(failed))),
            ("recommendation"@, JsonView::Text(recommendation())),
        ],
    )
}

/// The response of a probe for which every scheme failed.
pub open spec fn exhausted_reply(failed: Seq<FailedAttemptView>) -> ResponseView {
    ResponseView {
        success: false,
        data: Some(exhausted_payload(failed)),
        error: Some("All authentication methods failed"@),
        auth_story: None,
    }
}

/// The word for the kind of an order: one with a price is a limit order, one
/// without is a market order.
pub open spec fn order_type_label(price: Option<Seq<char>>) -> Seq<char> {
    if price is Some {
        "limit"@
    } else {
        "market"@
    }
}

/// The payload of an order that was accepted.
pub open spec fn order_payload(price: Option<Seq<char>>, response: Seq<char>) -> JsonView {
    JsonView::Object(
        seq![
            ("order_type"@, JsonView::Text(order_type_label(price))),
            ("response"@, JsonView::Text(response)),
        ],
    )
}

/// The payload of a cancellation.
pub open spec fn cancelled_payload(order_id: Seq<char>) -> JsonView {
    JsonView::Object(
        seq![("cancelled"@, JsonView::Bool(true)), ("order_id"@, JsonView::Text(order_id))],
    )
}

/// The payload of a market listing: the count alone.
pub open spec fn markets_payload(count: nat) -> JsonView {
    JsonView::Object(
        seq![("count"@, JsonView::Number(count)), ("message"@, JsonView::Text(markets_message()))],
    )
}

impl JobView {
    /// The scheme under which the job authenticates: the plan's, or for a
    /// probe the one whose turn it is.
    pub open spec fn signature_type(self) -> SignatureType {
        if self.plan is Probe {
            probe_signature_type(self.failed.len())
        } else {
            self.plan.signature_type()
        }
    }

    /// The same job, waiting on the call of `phase`.
    pub open spec fn at(self, phase: Phase) -> JobView {
        JobView { phase: phase, ..self }
    }

    /// The phases in which a job of this plan can be.
    pub open spec fn phase_fits(self) -> bool {
        let session = self.phase == Phase::Opening || self.phase == Phase::CheckingFunder
            || self.phase == Phase::Authenticating;
        match self.plan {
            PlanView::Markets => self.phase == Phase::Listing,
            PlanView::Order { price, .. } => {
                ||| session
                ||| self.phase == Phase::CheckingAmount
                ||| self.phase == Phase::CheckingPrice && price is Some
                ||| self.phase == Phase::CheckingUsdc && price is None
                ||| self.phase == Phase::CheckingToken
                ||| self.phase == Phase::Submitting
            },
            PlanView::Cancel { .. } => session || self.phase == Phase::Cancelling,
            _ => session || self.phase == Phase::QueryingBalance,
        }
    }

    /// What holds of every job that `begin` and `advance` give: its phase is
    /// one of its plan's; it checks a funder address only where it has one;
    /// and only a probe has failed attempts, fewer than three, which are the
    /// first schemes of the probe order.
    pub open spec fn wf(self) -> bool {
        &&& self.phase_fits()
        &&& self.phase == Phase::CheckingFunder ==> self.plan.funder() is Some
        &&& self.plan is Probe ==> self.failed.len() < 3
        &&& !(self.plan is Probe) ==> self.failed.len() == 0
        &&& forall|i: int|
            0 <= i < self.failed.len() ==> (#[trigger] self.failed[i]).signature_type
                == probe_order()[i]
    }

    /// The record of the job's authentication attempt.
    pub open spec fn story(
        self,
        status: AuthStatus,
        balance: Option<Seq<char>>,
        error_details: Option<Seq<char>>,
    ) -> AuthStoryView {
        AuthStoryView {
            run_id: self.identity.run_id,
            signer_address: self.identity.signer_address,
            funder_address: self.plan.funder(),
            signature_type: signature_type_label(self.signature_type()),
            auth_status: status,
            balance_usdc: balance,
            error_details: error_details,
        }
    }

    /// The call that the job is waiting on.
    pub open spec fn pending(self) -> RequestView {
        match self.phase {
            Phase::Opening => RequestView::OpenClient { endpoint: clob_base_url() },
            Phase::CheckingFunder => RequestView::ParseAddress {
                text: match self.plan.funder() {
                    Some(text) => text,
                    None => Seq::empty(),
                },
            },
            Phase::Authenticating => RequestView::Authenticate {
                signature_type: self.signature_type(),
                funder: self.plan.funder(),
            },
            Phase::QueryingBalance => RequestView::BalanceAllowance,
            Phase::CheckingAmount => RequestView::ParseDecimal { text: self.plan.amount() },
            Phase::CheckingPrice => RequestView::ParseDecimal {
                text: match self.plan.price() {
                    Some(text) => text,
                    None => Seq::empty(),
                },
            },
            Phase::CheckingUsdc => RequestView::UsdcAmount { text: self.plan.amount() },
            Phase::CheckingToken => RequestView::ParseTokenId { text: self.plan.token_id() },
            Phase::Submitting => match self.plan.price() {
                Some(price) => RequestView::PostLimitOrder {
                    token_id: self.plan.token_id(),
                    size: self.plan.amount(),
                    price: price,
                    side: self.plan.side(),
                },
                None => RequestView::PostMarketOrder {
                    token_id: self.plan.token_id(),
                    amount: self.plan.amount(),
                    side: self.plan.side(),
                    order_type: OrderType::FillOrKill,
                },
            },
            Phase::Cancelling => RequestView::CancelOrder { order_id: self.plan.order_id() },
            Phase::Listing => RequestView::ListMarkets,
        }
    }

    /// The response to a balance query that succeeded.
    pub open spec fn balance_reply(self, balance: Seq<char>, allowances: Seq<char>) -> ResponseView {
        match self.plan {
            PlanView::Auth { .. } => auth_view(
                self.story(AuthStatus::Success, Some(balance), None),
                Some(authenticated_payload(balance, allowances)),
            ),
            PlanView::Probe { funder } => ResponseView {
                success: true,
                data: Some(
                    working_payload(self.signature_type(), funder, self.failed, balance, allowances),
                ),
                error: None,
                auth_story: Some(self.story(AuthStatus::Success, Some(balance), None)),
            },
            _ => success_view(balance_payload(balance, allowances)),
        }
    }

    /// Where a call that succeeded with `event` leads.
    pub open spec fn on_success(self, event: EventView) -> ProgressView {
        match self.phase {
            Phase::Opening => ProgressView::Next {
                job: self.at(
                    if self.plan.funder() is Some {
                        Phase::CheckingFunder
                    } else {
                        Phase::Authenticating
                    },
                ),
            },
            Phase::CheckingFunder => ProgressView::Next { job: self.at(Phase::Authenticating) },
            Phase::Authenticating => ProgressView::Next { job: self.at(after_session(self.plan)) },
            Phase::QueryingBalance => ProgressView::Reply {
                response: self.balance_reply(event->balance, event->allowances),
            },
            Phase::CheckingAmount => ProgressView::Next {
                job: self.at(
                    if self.plan.price() is Some {
                        Phase::CheckingPrice
                    } else {
                        Phase::CheckingUsdc
                    },
                ),
            },
            Phase::CheckingPrice => ProgressView::Next { job: self.at(Phase::CheckingToken) },
            Phase::CheckingUsdc => ProgressView::Next { job: self.at(Phase::CheckingToken) },
            Phase::CheckingToken => ProgressView::Next { job: self.at(Phase::Submitting) },
            Phase::Submitting => ProgressView::Reply {
                response: success_view(order_payload(self.plan.price(), event->response)),
            },
            Phase::Cancelling => ProgressView::Reply {
                response: success_view(cancelled_payload(self.plan.order_id())),
            },
            Phase::Listing => ProgressView::Reply {
                response: success_view(markets_payload(event->count)),
            },
        }
    }

    /// Where a call that failed with `failure` leads. A probe notes the
    /// failure and turns to the next scheme, from a new client, or gives up
    /// after the third. Every other command is answered with the failure; an
    /// authentication whose balance query fails has still succeeded.
    pub open spec fn on_failure(self, failure: FaultView) -> ProgressView {
        match self.plan {
            PlanView::Auth { .. } => if self.phase == Phase::QueryingBalance {
                ProgressView::Reply {
                    response: auth_view(
                        self.story(AuthStatus::Success, None, None),
                        Some(balance_error_payload(failure.summary)),
                    ),
                }
            } else {
                ProgressView::Reply {
                    response: auth_view(
                        self.story(
                            AuthStatus::Failed,
                            None,
                            Some(contextual_detail(self.phase, failure)),
                        ),
                        None,
                    ),
                }
            },
            PlanView::Probe { .. } => {
                let failed = self.failed.push(
                    FailedAttemptView {
                        signature_type: self.signature_type(),
                        error: contextual_summary(self.phase, failure),
                    },
                );
                if failed.len() < 3 {
                    ProgressView::Next {
                        job: JobView { phase: Phase::Opening, failed: failed, ..self },
                    }
                } else {
                    ProgressView::Reply { response: exhausted_reply(failed) }
                }
            },
            PlanView::Balance { .. } => ProgressView::Reply {
                response: error_view("Failed to get balance: "@ + failure.summary),
            },
            PlanView::Order { .. } => ProgressView::Reply {
                response: error_view("Order failed: "@ + order_failure_text(self.phase, failure)),
            },
            PlanView::Cancel { .. } => ProgressView::Reply {
                response: error_view("Cancel failed: "@ + failure.summary),
            },
            PlanView::Markets => ProgressView::Reply {
                response: error_view("Failed to get markets: "@ + failure.summary),
            },
        }
    }

    /// Where the host's report `event` of the pending call leads. A report
    /// of the wrong kind counts as a failure of the call.
    pub open spec fn step(self, event: EventView) -> ProgressView {
        if answers(self.phase, event) {
            self.on_success(event)
        } else {
            self.on_failure(failure_of(event))
        }
    }
}

/// The job that carries out `plan`: a market listing needs no session, every
/// other plan starts by opening a client.
pub open spec fn initial_job(identity: IdentityView, plan: PlanView) -> JobView {
    JobView {
        identity: identity,
        plan: plan,
        phase: if plan is Markets {
            Phase::Listing
        } else {
            Phase::Opening
        },
        failed: Seq::empty(),
    }
}

/// The view of what reading a line as a command gave.
pub open spec fn parsed_view(parsed: Result<Command, String>) -> Result<CommandView, Seq<char>> {
    match parsed {
        Ok(command) => Ok(command@),
        Err(message) => Err(message@),
    }
}

/// What a line leads to, given what reading it as a command gave: a line
/// that is no command is answered with the reader's complaint; a command is
/// routed, and its plan becomes a job.
pub open spec fn started(
    parsed: Result<CommandView, Seq<char>>,
    defaults: DefaultsView,
    identity: IdentityView,
) -> StartView {
    match parsed {
        Err(message) => StartView::Reply {
            response: error_view("Invalid JSON: "@ + message),
            control: Control::Continue,
        },
        Ok(command) => match routed(command, defaults) {
            RoutedView::Run { plan } => StartView::Run { job: initial_job(identity, plan) },
            RoutedView::Reply { response, control } => StartView::Reply { response, control },
        },
    }
}

/// The scheme of a probe's attempt number `attempt`, counted from zero.
pub fn probe_mode(attempt: usize) -> (st: SignatureType)
    ensures
        st == probe_signature_type(attempt as nat),
{
    if attempt == 0 {
        SignatureType::Eoa
    } else if attempt == 1 {
        SignatureType::GnosisSafe
    } else {
        SignatureType::Proxy
    }
}

fn unexpected_failure() -> (f: Fault)
    ensures
        f@ == unexpected_reply(),
{
    Fault {
        summary: String::from_str("Unexpected reply from the exchange client"),
        detail: String::from_str("Unexpected reply from the exchange client"),
    }
}

fn authenticated_json(balance: &str, allowances: &str) -> (j: Json)
    ensures
        j@ == authenticated_payload(balance@, allowances@),
{
    let mut members: Vec<(String, Json)> = Vec::new();
    add_member(&mut members, "authenticated", Json::Bool(true));
    add_member(&mut members, "balance", Json::text(balance));
    add_member(&mut members, "allowances", Json::text(allowances));
    proof {
        assert(members_view(members@) =~= seq![
            ("authenticated"@, JsonView::Bool(true)),
            ("balance"@, JsonView::Text(balance@)),
            ("allowances"@, JsonView::Text(allowances@)),
        ]);
    }
    Json::object(members)
}

fn balance_error_json(error: &str) -> (j: Json)
    ensures
        j@ == balance_error_payload(error@),
{
    let mut members: Vec<(String, Json)> = Vec::new();
    add_member(&mut members, "authenticated", Json::Bool(true));
    add_member(&mut members, "balance_error", Json::text(error));
    proof {
        assert(members_view(members@) =~= seq![
            ("authenticated"@, JsonView::Bool(true)),
            ("balance_error"@, JsonView::Text(error@)),
        ]);
    }
    Json::object(members)
}

fn balance_json(balance: &str, allowances: &str) -> (j: Json)
    ensures
        j@ == balance_payload(balance@, allowances@),
{
    let mut members: Vec<(String, Json)> = Vec::new();
    add_member(&mut members, "balance", Json::text(balance));
    add_member(&mut members, "allowances", Json::text(allowances));
    proof {
        assert(members_view(members@) =~= seq![
            ("balance"@, JsonView::Text(balance@)),
            ("allowances"@, JsonView::Text(allowances@)),
        ]);
    }
    Json::object(members)
}

fn failed_entry_json(failure: &FailedAttempt) -> (j: Json)
    ensures
        j@ == failed_entry(failure@),
{
    let mut members: Vec<(String, Json)> = Vec::new();
    add_member(
        &mut members,
        "signature_type",
        Json::text(signature_type_name(failure.signature_type)),
    );
    add_member(&mut members, "success", Json::Bool(false));
    add_member(&mut members, "error", Json::text(failure.error.as_str()));
    proof {
        assert(members_view(members@) =~= seq![
            ("signature_type"@, JsonView::Text(signature_type_label(failure.signature_type))),
            ("success"@, JsonView::Bool(false)),
            ("error"@, JsonView::Text(failure.error@)),
        ]);
    }
    Json::object(members)
}

fn working_entry_json(signature_type: SignatureType, balance: &str) -> (j: Json)
    ensures
        j@ == working_entry(signature_type, balance@),
{
    let mut members: Vec<(String, Json)> = Vec::new();
    add_member(&mut members, "signature_type", Json::text(signature_type_name(signature_type)));
    add_member(&mut members, "success", Json::Bool(true));
    add_member(&mut members, "balance", Json::text(balance));
    proof {
        assert(members_view(members@) =~= seq![
            ("signature_type"@, JsonView::Text(signature_type_label(signature_type))),
            ("success"@, JsonView::Bool(true)),
            ("balance"@, JsonView::Text(balance@)),
        ]);
    }
    Json::object(members)
}

fn working_config_json(signature_type: SignatureType, funder: &Option<String>) -> (j: Json)
    ensures
        j@ == working_config(signature_type, opt_view(*funder)),
{
    let mut members: Vec<(String, Json)> = Vec::new();
    add_member(&mut members, "signature_type", Json::text(signature_type_name(signature_type)));
    add_member(&mut members, "funder_address", Json::opt_text(funder));
    proof {
        assert(members_view(members@) =~= seq![
            ("signature_type"@, JsonView::Text(signature_type_label(signature_type))),
            ("funder_address"@, opt_text_view(opt_view(*funder))),
        ]);
    }
    Json::object(members)
}

fn failed_items(failed: &Vec<FailedAttempt>) -> (items: Vec<Json>)
    ensures
        items_view(items@) == failed_entries(failed_view(failed@)),
{
    let mut items: Vec<Json> = Vec::new();
    let mut i: usize = 0;
    proof {
        assert(items_view(items@) =~= failed_entries(failed_view(failed@).take(0)));
    }
    while i < failed.len()
        invariant
            i <= failed@.len(),
            items_view(items@) == failed_entries(failed_view(failed@).take(i as int)),
        decreases failed@.len() - i,
    {
        let entry = failed_entry_json(&failed[i]);
        proof {
            assert(failed_entries(failed_view(failed@).take(i + 1)) =~= failed_entries(
                failed_view(failed@).take(i as int),
            ).push(failed_entry(failed@[i as int]@)));
        }
        add_item(&mut items, entry);
        i += 1;
    }
    proof {
        assert(failed_view(failed@).take(failed@.len() as int) =~= failed_view(failed@));
    }
    items
}

fn working_json(
    signature_type: SignatureType,
    funder: &Option<String>,
    failed: &Vec<FailedAttempt>,
    balance: &str,
    allowances: &str,
) -> (j: Json)
    ensures
        j@ == working_payload(
            signature_type,
            opt_view(*funder),
            failed_view(failed@),
            balance@,
            allowances@,
        ),
{
    let mut results = failed_items(failed);
    add_item(&mut results, working_entry_json(signature_type, balance));
    let mut members: Vec<(String, Json)> = Vec::new();
    add_member(&mut members, "working_config", working_config_json(signature_type, funder));
    add_member(&mut members, "balance", Json::text(balance));
    add_member(&mut members, "allowances", Json::text(allowances));
    add_member(&mut members, "probe_results", Json::list(results));
    proof {
        assert(members_view(members@) =~= seq![
            ("working_config"@, working_config(signature_type, opt_view(*funder))),
            ("balance"@, JsonView::Text(balance@)),
            ("allowances"@, JsonView::Text(allowances@)),
            (
                "probe_results"@,
                JsonView::List(
                    failed_entries(failed_view(failed@)).push(
                        working_entry(signature_type, balance@),
                    ),
                ),
            ),
        ]);
    }
    Json::object(members)
}

fn exhausted_json(failed: &Vec<FailedAttempt>) -> (j: Json)
    ensures
        j@ == exhausted_payload(failed_view(failed@)),
{
    let mut members: Vec<(String, Json)> = Vec::new();
    add_member(&mut members, "probe_results", Json::list(failed_items(failed)));
    add_member(
        &mut members,
        "recommendation",
        Json::text(
            "Visit polymarket.com, connect your wallet, and make at least one trade. Then retry.",
        ),
    );
    proof {
        assert(members_view(members@) =~= seq![
            ("probe_results"@, JsonView::List(failed_entries(failed_view(failed@)))),
            ("recommendation"@, JsonView::Text(recommendation())),
        ]);
    }
    Json::object(members)
}

fn order_json(limit: bool, response: &str) -> (j: Json)
    ensures
        j@ == JsonView::Object(
            seq![
                ("order_type"@, JsonView::Text(if limit { "limit"@ } else { "market"@ })),
                ("response"@, JsonView::Text(response@)),
            ],
        ),
{
    let label = if limit {
        "limit"
    } else {
        "market"
    };
    let mut members: Vec<(String, Json)> = Vec::new();
    add_member(&mut members, "order_type", Json::text(label));
    add_member(&mut members, "response", Json::text(response));
    proof {
        assert(members_view(members@) =~= seq![
            ("order_type"@, JsonView::Text(if limit { "limit"@ } else { "market"@ })),
            ("response"@, JsonView::Text(response@)),
        ]);
    }
    Json::object(members)
}

fn cancelled_json(order_id: &str) -> (j: Json)
    ensures
        j@ == cancelled_payload(order_id@),
{
    let mut members: Vec<(String, Json)> = Vec::new();
    add_member(&mut members, "cancelled", Json::Bool(true));
    add_member(&mut members, "order_id", Json::text(order_id));
    proof {
        assert(members_view(members@) =~= seq![
            ("cancelled"@, JsonView::Bool(true)),
            ("order_id"@, JsonView::Text(order_id@)),
        ]);
    }
    Json::object(members)
}

fn markets_json(count: u64) -> (j: Json)
    ensures
        j@ == markets_payload(count as nat),
{
    let mut members: Vec<(String, Json)> = Vec::new();
    add_member(&mut members, "count", Json::Number(count));
    add_member(
        &mut members,
        "message",
        Json::text(
            "Markets retrieved successfully. Use Polymarket API directly for full market data.",
        ),
    );
    proof {
        assert(members_view(members@) =~= seq![
            ("count"@, JsonView::Number(count as nat)),
            ("message"@, JsonView::Text(markets_message())),
        ]);
    }
    Json::object(members)
}

impl Job {
    /// The scheme under which the job authenticates.
    pub fn signature_type(&self) -> (st: SignatureType)
        ensures
            st == self@.signature_type(),
    {
        match &self.plan {
            Plan::Probe { .. } => probe_mode(self.failed.len()),
            _ => self.plan.signature_type(),
        }
    }

    /// The call that the host is to make next.
    pub fn request(&self) -> (r: Request)
        ensures
            r@ == self@.pending(),
    {
        match self.phase {
            Phase::Opening => Request::OpenClient {
                endpoint: String::from_str("https://clob.polymarket.com"),
            },
            Phase::CheckingFunder => Request::ParseAddress {
                text: match self.plan.funder() {
                    Some(text) => text,
                    None => String::new(),
                },
            },
            Phase::Authenticating => Request::Authenticate {
                signature_type: self.signature_type(),
                funder: self.plan.funder(),
            },
            Phase::QueryingBalance => Request::BalanceAllowance,
            Phase::CheckingAmount => Request::ParseDecimal { text: self.plan.amount() },
            Phase::CheckingPrice => Request::ParseDecimal {
                text: match self.plan.price() {
                    Some(text) => text,
                    None => String::new(),
                },
            },
            Phase::CheckingUsdc => Request::UsdcAmount { text: self.plan.amount() },
            Phase::CheckingToken => Request::ParseTokenId { text: self.plan.token_id() },
            Phase::Submitting => match self.plan.price() {
                Some(price) => Request::PostLimitOrder {
                    token_id: self.plan.token_id(),
                    size: self.plan.amount(),
                    price: price,
                    side: self.plan.side(),
                },
                None => Request::PostMarketOrder {
                    token_id: self.plan.token_id(),
                    amount: self.plan.amount(),
                    side: self.plan.side(),
                    order_type: OrderType::FillOrKill,
                },
            },
            Phase::Cancelling => Request::CancelOrder { order_id: self.plan.order_id() },
            Phase::Listing => Request::ListMarkets,
        }
    }

    fn story(
        &self,
        status: AuthStatus,
        balance: Option<String>,
        error_details: Option<String>,
    ) -> (story: AuthStory)
        ensures
            story@ == self@.story(status, opt_view(balance), opt_view(error_details)),
    {
        AuthStory {
            run_id: self.identity.run_id.clone(),
            signer_address: self.identity.signer_address.clone(),
            funder_address: self.plan.funder(),
            signature_type: String::from_str(signature_type_name(self.signature_type())),
            auth_status: status,
            balance_usdc: balance,
            error_details: error_details,
        }
    }

    fn balance_reply(&self, balance: String, allowances: String) -> (r: Response)
        ensures
            r@ == self@.balance_reply(balance@, allowances@),
    {
        match &self.plan {
            Plan::Auth { .. } => {
                let data = authenticated_json(balance.as_str(), allowances.as_str());
                let story = self.story(AuthStatus::Success, Some(balance), None);
                auth_response(story, Some(data))
            },
            Plan::Probe { funder } => {
                let data = working_json(
                    self.signature_type(),
                    funder,
                    &self.failed,
                    balance.as_str(),
                    allowances.as_str(),
                );
                let story = self.story(AuthStatus::Success, Some(balance), None);
                Response { success: true, data: Some(data), error: None, auth_story: Some(story) }
            },
            _ => success_response(balance_json(balance.as_str(), allowances.as_str())),
        }
    }

    fn at(self, phase: Phase) -> (p: Progress)
        ensures
            p@ == (ProgressView::Next { job: self@.at(phase) }),
    {
        let Job { identity, plan, phase: _, failed } = self;
        Progress::Next { job: Job { identity, plan, phase, failed } }
    }

    fn fail(self, failure: Fault) -> (p: Progress)
        ensures
            p@ == self@.on_failure(failure@),
    {
        let checking_funder = match self.phase {
            Phase::CheckingFunder => true,
            _ => false,
        };
        match &self.plan {
            Plan::Auth { .. } => {
                let querying = match self.phase {
                    Phase::QueryingBalance => true,
                    _ => false,
                };
                if querying {
                    let data = balance_error_json(failure.summary.as_str());
                    let story = self.story(AuthStatus::Success, None, None);
                    Progress::Reply { response: auth_response(story, Some(data)) }
                } else {
                    let detail = if checking_funder {
                        joined("Invalid funder address format: ", failure.detail.as_str())
                    } else {
                        failure.detail
                    };
                    let story = self.story(AuthStatus::Failed, None, Some(detail));
                    Progress::Reply { response: auth_response(story, None) }
                }
            },
            Plan::Probe { .. } => {
                let error = if checking_funder {
                    String::from_str("Invalid funder address format")
                } else {
                    failure.summary
                };
                let signature_type = self.signature_type();
                let Job { identity, plan, phase: _, failed } = self;
                let mut failed = failed;
                let ghost before = failed_view(failed@);
                failed.push(FailedAttempt { signature_type, error });
                proof {
                    assert(failed_view(failed@) =~= before.push(
                        FailedAttemptView { signature_type: signature_type, error: error@ },
                    ));
                }
                if failed.len() < 3 {
                    Progress::Next { job: Job { identity, plan, phase: Phase::Opening, failed } }
                } else {
                    Progress::Reply {
                        response: Response {
                            success: false,
                            data: Some(exhausted_json(&failed)),
                            error: Some(String::from_str("All authentication methods failed")),
                            auth_story: None,
                        },
                    }
                }
            },
            Plan::Balance { .. } => {
                let message = joined("Failed to get balance: ", failure.summary.as_str());
                Progress::Reply { response: error_response(message.as_str()) }
            },
            Plan::Order { .. } => {
                let message = match self.phase {
                    Phase::CheckingAmount => joined("Order failed: ", "Invalid amount"),
                    Phase::CheckingPrice => joined("Order failed: ", "Invalid price"),
                    Phase::CheckingToken => joined(
                        "Order failed: ",
                        "Invalid token_id - must be a valid U256",
                    ),
                    _ => joined("Order failed: ", failure.summary.as_str()),
                };
                Progress::Reply { response: error_response(message.as_str()) }
            },
            Plan::Cancel { .. } => {
                let message = joined("Cancel failed: ", failure.summary.as_str());
                Progress::Reply { response: error_response(message.as_str()) }
            },
            Plan::Markets => {
                let message = joined("Failed to get markets: ", failure.summary.as_str());
                Progress::Reply { response: error_response(message.as_str()) }
            },
        }
    }

    fn succeed_plainly(self) -> (p: Progress)
        requires
            answers(self.phase, EventView::Done),
        ensures
            p@ == self@.on_success(EventView::Done),
    {
        match self.phase {
            Phase::Opening => {
                let next = if self.plan.has_funder() {
                    Phase::CheckingFunder
                } else {
                    Phase::Authenticating
                };
                self.at(next)
            },
            Phase::CheckingFunder => self.at(Phase::Authenticating),
            Phase::Authenticating => {
                let next = match &self.plan {
                    Plan::Order { .. } => Phase::CheckingAmount,
                    Plan::Cancel { .. } => Phase::Cancelling,
                    Plan::Markets => Phase::Listing,
                    _ => Phase::QueryingBalance,
                };
                self.at(next)
            },
            Phase::CheckingAmount => {
                let next = if self.plan.has_price() {
                    Phase::CheckingPrice
                } else {
                    Phase::CheckingUsdc
                };
                self.at(next)
            },
            Phase::CheckingPrice => self.at(Phase::CheckingToken),
            Phase::CheckingUsdc => self.at(Phase::CheckingToken),
            Phase::CheckingToken => self.at(Phase::Submitting),
            _ => Progress::Reply {
                response: success_response(cancelled_json(self.plan.order_id().as_str())),
            },
        }
    }

    /// Takes the host's report of the pending call, and gives the job's next
    /// state or the response that answers the command.
    pub fn advance(self, event: Event) -> (p: Progress)
        ensures
            p@ == self@.step(event@),
            self@.wf() ==> (p matches Progress::Next { job } ==> job@.wf()),
            self@.wf() ==> (p matches Progress::Reply { response } ==> response@.well_formed()),
            p matches Progress::Reply { response } ==> (response@.data matches Some(data)
                ==> data.well_keyed()),
    {
        proof {
            lemma_payloads_are_well_keyed(self@, event@);
            if self@.wf() {
                lemma_step_is_sound(self@, event@);
            }
        }
        match event {
            Event::Done => match self.phase {
                Phase::QueryingBalance => self.fail(unexpected_failure()),
                Phase::Submitting => self.fail(unexpected_failure()),
                Phase::Listing => self.fail(unexpected_failure()),
                _ => self.succeed_plainly(),
            },
            Event::Balance { balance, allowances } => match self.phase {
                Phase::QueryingBalance => Progress::Reply {
                    response: self.balance_reply(balance, allowances),
                },
                _ => self.fail(unexpected_failure()),
            },
            Event::Submitted { response } => match self.phase {
                Phase::Submitting => Progress::Reply {
                    response: success_response(
                        order_json(self.plan.has_price(), response.as_str()),
                    ),
                },
                _ => self.fail(unexpected_failure()),
            },
            Event::Markets { count } => match self.phase {
                Phase::Listing => Progress::Reply {
                    response: success_response(markets_json(count)),
                },
                _ => self.fail(unexpected_failure()),
            },
            Event::Failed { failure } => self.fail(failure),
        }
    }
}

/// Starts on an input line, given what reading it as a command gave.
pub fn begin(parsed: Result<Command, String>, defaults: &Defaults, identity: &Identity) -> (start:
    Start)
    ensures
        start@ == started(parsed_view(parsed), defaults@, identity@),
        start matches Start::Run { job } ==> job@.wf(),
        start matches Start::Reply { response, .. } ==> response@.well_formed(),
        start matches Start::Reply { response, .. } ==> (response@.data matches Some(data)
            ==> data.well_keyed()),
{
    proof {
        lemma_start_payload_is_well_keyed(parsed_view(parsed), defaults@, identity@);
        lemma_start_is_sound(parsed_view(parsed), defaults@, identity@);
    }
    match parsed {
        Err(message) => {
            let text = joined("Invalid JSON: ", message.as_str());
            Start::Reply { response: error_response(text.as_str()), control: Control::Continue }
        },
        Ok(command) => match route(command, defaults) {
            Routed::Run { plan } => {
                let phase = match &plan {
                    Plan::Markets => Phase::Listing,
                    _ => Phase::Opening,
                };
                let job = Job {
                    identity: Identity {
                        run_id: identity.run_id.clone(),
                        signer_address: identity.signer_address.clone(),
                    },
                    plan: plan,
                    phase: phase,
                    failed: Vec::new(),
                };
                proof {
                    assert(failed_view(job.failed@) =~= Seq::empty());
                }
                Start::Run { job }
            },
            Routed::Reply { response, control } => Start::Reply { response, control },
        },
    }
}

} // verus!
