//! What holds of every command: it is answered exactly once, by a response
//! that is a success or carries an error; a probe tries the schemes in their
//! order and stops at the first that works; an order is a limit order exactly
//! when it names a price.

use vstd::prelude::*;

use crate::command::CommandView;
use crate::command::Control;
use crate::command::DefaultsView;
use crate::command::exiting_payload;
use crate::command::PlanView;
use crate::exchange::clob_base_url;
use crate::exchange::EventView;
use crate::exchange::failure_of;
use crate::exchange::RequestView;
use crate::json::escaped_char;
use crate::json::escaped_text;
use crate::json::is_hex_digit;
use crate::json::is_short_escape;
use crate::json::is_string_body;
use crate::json::JsonView;
use crate::json::opt_text_view;
use crate::line::line_text;
use crate::machine::authenticated_payload;
use crate::machine::balance_error_payload;
use crate::machine::balance_payload;
use crate::machine::cancelled_payload;
use crate::machine::contextual_summary;
use crate::machine::exhausted_payload;
use crate::machine::failed_entries;
use crate::machine::FailedAttemptView;
use crate::machine::IdentityView;
use crate::machine::initial_job;
use crate::machine::JobView;
use crate::machine::markets_message;
use crate::machine::markets_payload;
use crate::machine::order_payload;
use crate::machine::order_type_label;
use crate::machine::Phase;
use crate::machine::probe_order;
use crate::machine::ProgressView;
use crate::machine::recommendation;
use crate::machine::started;
use crate::machine::StartView;
use crate::machine::working_config;
use crate::machine::working_entry;
use crate::machine::working_payload;
use crate::response::AuthStatus;
use crate::response::error_view;
use crate::response::fallback_line;
use crate::response::ResponseView;
use crate::response::success_view;
use crate::signature::signature_type_label;
use crate::signature::SignatureType;
use crate::text::is_whitespace;
use crate::text::trim_end;
use crate::text::trim_start;
use crate::text::trimmed;

verus! {

/// How many calls a job in `phase` can still go on to after the pending one,
/// within one session.
pub open spec fn phase_rank(phase: Phase) -> nat {
    match phase {
        Phase::Opening => 6,
        Phase::CheckingFunder => 5,
        Phase::Authenticating => 4,
        Phase::CheckingAmount => 3,
        Phase::CheckingPrice => 2,
        Phase::CheckingUsdc => 2,
        Phase::CheckingToken => 1,
        _ => 0,
    }
}

/// A bound on the calls that a job can still go on to after the pending one:
/// each scheme that a probe has left opens a session of its own.
pub open spec fn calls_left(job: JobView) -> nat {
    if job.plan is Probe {
        (7 * (3 - job.failed.len()) + phase_rank(job.phase)) as nat
    } else {
        phase_rank(job.phase)
    }
}

/// The response that answers a job when the host reports `events` one after
/// the other, or `None` where the job is still under way after the last.
pub open spec fn run(job: JobView, events: Seq<EventView>) -> Option<ResponseView>
    decreases events.len(),
{
    if events.len() == 0 {
        None
    } else {
        match job.step(events[0]) {
            ProgressView::Reply { response } => Some(response),
            ProgressView::Next { job: next } => run(next, events.drop_first()),
        }
    }
}

/// The calls that the host is asked to make while it reports `events` one
/// after the other, the pending one first.
pub open spec fn requests(job: JobView, events: Seq<EventView>) -> Seq<RequestView>
    decreases events.len(),
{
    if events.len() == 0 {
        seq![job.pending()]
    } else {
        match job.step(events[0]) {
            ProgressView::Reply { .. } => seq![job.pending()],
            ProgressView::Next { job: next } => seq![job.pending()] + requests(
                next,
                events.drop_first(),
            ),
        }
    }
}

/// The schemes for which a client is opened while the host reports `events`
/// one after the other: the attempts that are made.
pub open spec fn attempts(job: JobView, events: Seq<EventView>) -> Seq<SignatureType>
    decreases events.len(),
{
    let here = if job.phase == Phase::Opening {
        seq![job.signature_type()]
    } else {
        Seq::empty()
    };
    if events.len() == 0 {
        here
    } else {
        match job.step(events[0]) {
            ProgressView::Reply { .. } => here,
            ProgressView::Next { job: next } => here + attempts(next, events.drop_first()),
        }
    }
}

/// A line of white space only leaves nothing to read.
pub proof fn lemma_trim_start_of_blank(s: Seq<char>)
    requires
        forall|i: int| 0 <= i < s.len() ==> is_whitespace(#[trigger] s[i]),
    ensures
        trim_start(s).len() == 0,
    decreases s.len(),
{
    if s.len() > 0 {
        assert(is_whitespace(s[0]));
        lemma_trim_start_of_blank(s.drop_first());
    }
}

/// What is left of a text without its leading white space is a part of it,
/// and what was taken off is white space.
pub proof fn lemma_trim_start_is_a_suffix(s: Seq<char>)
    ensures
        trim_start(s).len() <= s.len(),
        trim_start(s) == s.subrange(s.len() - trim_start(s).len(), s.len() as int),
        forall|i: int| 0 <= i < s.len() - trim_start(s).len() ==> is_whitespace(#[trigger] s[i]),
        trim_start(s).len() > 0 ==> !is_whitespace(trim_start(s)[0]),
    decreases s.len(),
{
    if s.len() > 0 && is_whitespace(s[0]) {
        let rest = s.drop_first();
        lemma_trim_start_is_a_suffix(rest);
        let k = trim_start(s).len();
        assert(trim_start(s) =~= s.subrange(s.len() - k, s.len() as int));
        assert forall|i: int| 0 <= i < s.len() - k implies is_whitespace(#[trigger] s[i]) by {
            if i > 0 {
                assert(s[i] == rest[i - 1]);
            }
        }
    } else {
        assert(trim_start(s) =~= s.subrange(0, s.len() as int));
    }
}

/// What is left of a text without its trailing white space is a beginning of
/// it, and what was taken off is white space.
pub proof fn lemma_trim_end_is_a_prefix(s: Seq<char>)
    ensures
        trim_end(s).len() <= s.len(),
        trim_end(s) == s.take(trim_end(s).len() as int),
        forall|i: int| trim_end(s).len() <= i < s.len() ==> is_whitespace(#[trigger] s[i]),
        trim_end(s).len() > 0 ==> !is_whitespace(trim_end(s).last()),
    decreases s.len(),
{
    if s.len() > 0 && is_whitespace(s.last()) {
        let rest = s.drop_last();
        lemma_trim_end_is_a_prefix(rest);
        let k = trim_end(s).len();
        assert(trim_end(s) =~= s.take(k as int));
        assert forall|i: int| k <= i < s.len() implies is_whitespace(#[trigger] s[i]) by {
            if i < s.len() - 1 {
                assert(s[i] == rest[i]);
            }
        }
    } else {
        assert(trim_end(s) =~= s.take(s.len() as int));
    }
}

/// Blank lines are passed over, and only they: a line leaves nothing to read
/// exactly when it holds white space only. What is read of any other line
/// begins and ends with a character that is no white space.
pub proof fn lemma_blank_lines_are_skipped(raw: Seq<char>)
    ensures
        line_text(raw) is None <==> (forall|i: int|
            0 <= i < raw.len() ==> is_whitespace(#[trigger] raw[i])),
        line_text(raw) matches Some(text) ==> text.len() > 0 && !is_whitespace(text[0])
            && !is_whitespace(text.last()),
{
    lemma_trim_start_is_a_suffix(raw);
    let inner = trim_start(raw);
    lemma_trim_end_is_a_prefix(inner);
    if forall|i: int| 0 <= i < raw.len() ==> is_whitespace(#[trigger] raw[i]) {
        lemma_trim_start_of_blank(raw);
    }
    if trimmed(raw).len() == 0 {
        assert forall|i: int| 0 <= i < raw.len() implies is_whitespace(#[trigger] raw[i]) by {
            let cut = raw.len() - inner.len();
            if i >= cut {
                assert(raw[i] == inner[i - cut]);
            }
        }
    } else {
        assert(!is_whitespace(inner[0]));
        assert(trimmed(raw)[0] == inner[0]);
    }
}

/// Every line that is read as a command is either answered at once, by a
/// response that is a success or carries an error and holds no record of an
/// attempt, or becomes a well-formed job for the identity of the process.
pub proof fn lemma_start_is_sound(
    parsed: Result<CommandView, Seq<char>>,
    defaults: DefaultsView,
    identity: IdentityView,
)
    ensures
        match started(parsed, defaults, identity) {
            StartView::Run { job } => job.wf() && job.identity == identity && job.failed.len() == 0
                && (job.phase == Phase::Opening || job.phase == Phase::Listing),
            StartView::Reply { response, .. } => response.well_formed() && response.auth_story is None,
        },
{
}

/// Every report moves a well-formed job on: either to a well-formed job for
/// the same plan with fewer calls left, or to a response that is a success
/// or carries an error. Only an authentication and a probe are answered with
/// the record of an attempt.
pub proof fn lemma_step_is_sound(job: JobView, event: EventView)
    requires
        job.wf(),
    ensures
        match job.step(event) {
            ProgressView::Next { job: next } => {
                &&& next.wf()
                &&& next.identity == job.identity
                &&& next.plan == job.plan
                &&& calls_left(next) < calls_left(job)
            },
            ProgressView::Reply { response } => {
                &&& response.well_formed()
                &&& response.auth_story is Some ==> job.plan is Auth || job.plan is Probe
            },
        },
{
    match job.step(event) {
        ProgressView::Next { job: next } => {
            if job.plan is Probe && next.failed.len() != job.failed.len() {
                assert forall|i: int| 0 <= i < next.failed.len() implies (#[trigger] next.failed[i]).signature_type
                    == probe_order()[i] by {
                    if i < job.failed.len() {
                        assert(next.failed[i] == job.failed[i]);
                    }
                }
            }
        },
        ProgressView::Reply { .. } => {},
    }
}

/// A command is answered exactly once: whatever the host reports, a
/// well-formed job comes to its response after no more reports than it has
/// calls left and one, and that response is a success or carries an error.
/// No job has more than twenty-seven calls left.
pub proof fn lemma_run_answers(job: JobView, events: Seq<EventView>)
    requires
        job.wf(),
        events.len() > calls_left(job),
    ensures
        run(job, events) is Some,
        run(job, events)->0.well_formed(),
        calls_left(job) <= 27,
    decreases events.len(),
{
    lemma_step_is_sound(job, events[0]);
    match job.step(events[0]) {
        ProgressView::Next { job: next } => {
            lemma_run_answers(next, events.drop_first());
        },
        ProgressView::Reply { .. } => {},
    }
}

/// A probe attempts the schemes in the probe order and no others: whatever
/// the host reports, the schemes for which it opens a client are the next
/// ones of the order, as far as it gets, and never more than are left.
pub proof fn lemma_probe_attempts_in_order(job: JobView, events: Seq<EventView>)
    requires
        job.wf(),
        job.plan is Probe,
    ensures
        ({
            let tried = attempts(job, events);
            let base = job.failed.len() + if job.phase == Phase::Opening {
                0int
            } else {
                1int
            };
            &&& base + tried.len() <= 3
            &&& forall|i: int| 0 <= i < tried.len() ==> #[trigger] tried[i] == probe_order()[base + i]
        }),
    decreases events.len(),
{
    let tried = attempts(job, events);
    let base = job.failed.len() + if job.phase == Phase::Opening {
        0int
    } else {
        1int
    };
    let here = if job.phase == Phase::Opening {
        seq![job.signature_type()]
    } else {
        Seq::<SignatureType>::empty()
    };
    if events.len() > 0 {
        lemma_step_is_sound(job, events[0]);
        match job.step(events[0]) {
            ProgressView::Next { job: next } => {
                lemma_probe_attempts_in_order(next, events.drop_first());
                let rest = attempts(next, events.drop_first());
                assert(tried == here + rest);
                assert forall|i: int| 0 <= i < tried.len() implies #[trigger] tried[i]
                    == probe_order()[base + i] by {
                    if i >= here.len() {
                        assert(tried[i] == rest[i - here.len()]);
                    }
                }
            },
            ProgressView::Reply { .. } => {},
        }
    }
}

/// A fresh probe attempts at most three schemes, and they are the first of
/// the probe order.
pub proof fn lemma_probe_attempts_at_most_three(
    identity: IdentityView,
    funder: Option<Seq<char>>,
    events: Seq<EventView>,
)
    ensures
        ({
            let tried = attempts(initial_job(identity, PlanView::Probe { funder }), events);
            &&& 1 <= tried.len() <= 3
            &&& tried == probe_order().take(tried.len() as int)
        }),
{
    let job = initial_job(identity, PlanView::Probe { funder });
    lemma_probe_attempts_in_order(job, events);
    let tried = attempts(job, events);
    assert(tried =~= probe_order().take(tried.len() as int));
}

/// A probe stops at the first scheme that works: the balance that the
/// session under attempt reports ends it, with a success that names that
/// scheme and lists the schemes that failed before it. It succeeds in no
/// other way, and it gives up only when the third scheme has failed.
pub proof fn lemma_probe_stops_at_first_success(job: JobView, event: EventView)
    requires
        job.wf(),
        job.plan is Probe,
    ensures
        job.signature_type() == probe_order()[job.failed.len() as int],
        job.phase == Phase::QueryingBalance && event is Balance ==> job.step(event) == (
        ProgressView::Reply {
            response: ResponseView {
                success: true,
                data: Some(
                    working_payload(
                        job.signature_type(),
                        job.plan.funder(),
                        job.failed,
                        event->balance,
                        event->allowances,
                    ),
                ),
                error: None,
                auth_story: Some(job.story(AuthStatus::Success, Some(event->balance), None)),
            },
        }),
        job.step(event) matches ProgressView::Reply { response } ==> (response.success <==> job.phase
            == Phase::QueryingBalance && event is Balance),
        job.step(event) matches ProgressView::Reply { response } ==> (!response.success
            <==> job.failed.len() == 2 && !(job.phase == Phase::QueryingBalance && event is Balance)),
        job.step(event) matches ProgressView::Next { job: next } ==> next.failed.len()
            == job.failed.len() || (next.failed.len() == job.failed.len() + 1 && next.phase
            == Phase::Opening),
{
}

/// The number of schemes that a probe has turned to when it stands at `job`
/// and then goes through `events`.
pub open spec fn schemes_tried(job: JobView, events: Seq<EventView>) -> int {
    job.failed.len() + attempts(job, events).len() + if job.phase == Phase::Opening {
        0int
    } else {
        1int
    }
}

/// The answer of a probe tells how far it went. A success names the last
/// scheme that was attempted, so none was attempted after the first that
/// worked; a failure comes only after all three were attempted, and holds no
/// record of an attempt.
pub proof fn lemma_probe_answer(job: JobView, events: Seq<EventView>)
    requires
        job.wf(),
        job.plan is Probe,
    ensures
        1 <= schemes_tried(job, events) <= 3,
        run(job, events) matches Some(response) ==> {
            let last = probe_order()[schemes_tried(job, events) - 1];
            &&& response.success ==> (response.auth_story matches Some(story) && story.auth_status
                == AuthStatus::Success && story.signature_type == signature_type_label(last))
            &&& !response.success ==> schemes_tried(job, events) == 3 && response.auth_story is None
                && response.error == Some("All authentication methods failed"@)
        },
    decreases events.len(),
{
    lemma_probe_attempts_in_order(job, events);
    if events.len() > 0 {
        lemma_step_is_sound(job, events[0]);
        lemma_probe_stops_at_first_success(job, events[0]);
        match job.step(events[0]) {
            ProgressView::Next { job: next } => {
                lemma_probe_answer(next, events.drop_first());
                let here = if job.phase == Phase::Opening {
                    seq![job.signature_type()]
                } else {
                    Seq::<SignatureType>::empty()
                };
                assert(attempts(job, events) == here + attempts(next, events.drop_first()));
                assert(schemes_tried(job, events) == schemes_tried(next, events.drop_first()));
            },
            ProgressView::Reply { .. } => {},
        }
    }
}

/// An order is a limit order exactly when it names a price, and a market
/// order otherwise: so says the call that submits it, and so says the
/// payload of whatever success answers it.
pub proof fn lemma_order_type_follows_price(job: JobView, events: Seq<EventView>)
    requires
        job.wf(),
        job.plan is Order,
    ensures
        order_type_label(job.plan.price()) == if job.plan.price() is Some {
            "limit"@
        } else {
            "market"@
        },
        job.phase == Phase::Submitting ==> (job.pending() is PostLimitOrder <==> job.plan.price() is Some),
        job.phase == Phase::Submitting ==> (job.pending() is PostMarketOrder <==> job.plan.price() is None),
        run(job, events) matches Some(response) ==> (response.success ==> exists|text: Seq<char>|
            response == success_view(#[trigger] order_payload(job.plan.price(), text))),
    decreases events.len(),
{
    if events.len() > 0 {
        lemma_step_is_sound(job, events[0]);
        match job.step(events[0]) {
            ProgressView::Next { job: next } => {
                lemma_order_type_follows_price(next, events.drop_first());
            },
            ProgressView::Reply { response } => {
                if response.success {
                    assert(response == success_view(
                        order_payload(job.plan.price(), events[0]->response),
                    ));
                }
            },
        }
    }
}

/// A session is built in one order: a client is opened against the exchange,
/// then the funder address is read where there is one, then the client
/// authenticates under the job's scheme and for that funder.
pub proof fn lemma_session_is_built_in_order(job: JobView)
    requires
        job.wf(),
        job.phase == Phase::Opening,
    ensures
        job.pending() == (RequestView::OpenClient { endpoint: clob_base_url() }),
        job.plan.funder() matches Some(funder) ==> {
            &&& job.step(EventView::Done) == (ProgressView::Next {
                job: job.at(Phase::CheckingFunder),
            })
            &&& job.at(Phase::CheckingFunder).pending() == (RequestView::ParseAddress {
                text: funder,
            })
            &&& job.at(Phase::CheckingFunder).step(EventView::Done) == (ProgressView::Next {
                job: job.at(Phase::Authenticating),
            })
        },
        job.plan.funder() is None ==> job.step(EventView::Done) == (ProgressView::Next {
            job: job.at(Phase::Authenticating),
        }),
        job.at(Phase::Authenticating).pending() == (RequestView::Authenticate {
            signature_type: job.signature_type(),
            funder: job.plan.funder(),
        }),
{
}

/// Whether `request` submits an order.
pub open spec fn submits(request: RequestView) -> bool {
    request is PostLimitOrder || request is PostMarketOrder
}

/// An order is submitted at most once, and only as the last call: whatever
/// the host reports, no call follows the one that submits, and none submits
/// before the session is built and the amount, the price and the token
/// have been read.
pub proof fn lemma_order_is_submitted_last(job: JobView, events: Seq<EventView>)
    requires
        job.wf(),
    ensures
        forall|i: int|
            0 <= i < requests(job, events).len() && submits(#[trigger] requests(job, events)[i])
                ==> i == requests(job, events).len() - 1 && job.plan is Order,
    decreases events.len(),
{
    let calls = requests(job, events);
    if events.len() > 0 {
        lemma_step_is_sound(job, events[0]);
        match job.step(events[0]) {
            ProgressView::Next { job: next } => {
                lemma_order_is_submitted_last(next, events.drop_first());
                let rest = requests(next, events.drop_first());
                assert(calls == seq![job.pending()] + rest);
                assert forall|i: int| 0 <= i < calls.len() && submits(#[trigger] calls[i]) implies i
                    == calls.len() - 1 && job.plan is Order by {
                    if i > 0 {
                        assert(calls[i] == rest[i - 1]);
                    }
                }
            },
            ProgressView::Reply { .. } => {},
        }
    }
}

/// An `order` without a token is answered at once with `Missing token_id`:
/// no job is made, so no call is.
pub proof fn lemma_order_needs_token(
    command: CommandView,
    defaults: DefaultsView,
    identity: IdentityView,
)
    requires
        command.cmd == "order"@,
        command.token_id is None,
    ensures
        started(Ok(command), defaults, identity) == (StartView::Reply {
            response: error_view("Missing token_id"@),
            control: Control::Continue,
        }),
{
    lemma_command_words_differ();
}

/// A `cancel` without an order is answered at once with `Missing order_id`:
/// no job is made, so no call is.
pub proof fn lemma_cancel_needs_order(
    command: CommandView,
    defaults: DefaultsView,
    identity: IdentityView,
)
    requires
        command.cmd == "cancel"@,
        command.order_id is None,
    ensures
        started(Ok(command), defaults, identity) == (StartView::Reply {
            response: error_view("Missing order_id"@),
            control: Control::Continue,
        }),
{
    lemma_command_words_differ();
}

/// Whether `word` is one of the command words.
pub open spec fn is_command_word(word: Seq<char>) -> bool {
    ||| word == "auth"@
    ||| word == "probe"@
    ||| word == "balance"@
    ||| word == "order"@
    ||| word == "cancel"@
    ||| word == "markets"@
    ||| word == "exit"@
    ||| word == "quit"@
}

/// A command whose word is none of the command words is answered at once
/// with `Unknown command: ` and the word, and the loop goes on.
pub proof fn lemma_unknown_command(
    command: CommandView,
    defaults: DefaultsView,
    identity: IdentityView,
)
    requires
        !is_command_word(command.cmd),
    ensures
        started(Ok(command), defaults, identity) == (StartView::Reply {
            response: error_view("Unknown command: "@ + command.cmd),
            control: Control::Continue,
        }),
{
}

/// `exit` and `quit` are answered at once with the payload that says so, and
/// they alone stop the loop.
pub proof fn lemma_exit_stops(
    parsed: Result<CommandView, Seq<char>>,
    defaults: DefaultsView,
    identity: IdentityView,
)
    ensures
        (parsed matches Ok(command) && (command.cmd == "exit"@ || command.cmd == "quit"@)) ==> started(
            parsed,
            defaults,
            identity,
        ) == (StartView::Reply {
            response: success_view(exiting_payload()),
            control: Control::Stop,
        }),
        (started(parsed, defaults, identity) matches StartView::Reply { control, .. } && control
            == Control::Stop) ==> (parsed matches Ok(command) && (command.cmd == "exit"@
            || command.cmd == "quit"@)),
{
    lemma_command_words_differ();
}

/// Two texts that can each stand between the quotes of a JSON string can
/// do so one after the other.
pub proof fn lemma_string_bodies_join(a: Seq<char>, b: Seq<char>)
    requires
        is_string_body(a),
        is_string_body(b),
    ensures
        is_string_body(a + b),
    decreases a.len(),
{
    let whole = a + b;
    if a.len() == 0 {
        assert(whole =~= b);
    } else if a[0] == '\\' {
        if a.len() >= 2 && is_short_escape(a[1]) {
            lemma_string_bodies_join(a.skip(2), b);
            assert(whole[0] == a[0] && whole[1] == a[1]);
            assert(whole.skip(2) =~= a.skip(2) + b);
        } else {
            lemma_string_bodies_join(a.skip(6), b);
            assert(whole[0] == a[0] && whole[1] == a[1] && whole[2] == a[2] && whole[3] == a[3]
                && whole[4] == a[4] && whole[5] == a[5]);
            assert(whole.skip(6) =~= a.skip(6) + b);
            assert(!is_short_escape(whole[1]));
        }
    } else {
        lemma_string_bodies_join(a.drop_first(), b);
        assert(whole[0] == a[0]);
        assert(whole.drop_first() =~= a.drop_first() + b);
    }
}

/// What stands for one character can stand between the quotes of a JSON
/// string.
pub proof fn lemma_escaped_char_is_string_body(c: char)
    ensures
        is_string_body(escaped_char(c)),
{
    let e = escaped_char(c);
    let code = c as u32;
    reveal_with_fuel(is_string_body, 3);
    if c == '"' || c == '\\' || code == 0x08 || code == 0x0C || code == 0x0A || code == 0x0D || code
        == 0x09 {
        assert(e.len() == 2 && e[0] == '\\' && is_short_escape(e[1]));
        assert(e.skip(2).len() == 0);
    } else if code < 0x20 {
        assert(e.len() == 6 && e[0] == '\\' && e[1] == 'u' && e[2] == '0' && e[3] == '0');
        assert(is_hex_digit(e[4]) && is_hex_digit(e[5]));
        assert(!is_short_escape(e[1]));
        assert(e.skip(6).len() == 0);
    } else {
        assert(e.len() == 1 && e[0] == c);
        assert(e.drop_first().len() == 0);
    }
}

/// An escaped text holds no bare quote, backslash or control character: it
/// can stand between the quotes of a JSON string, whatever the text was.
pub proof fn lemma_escaped_is_string_body(s: Seq<char>)
    ensures
        is_string_body(escaped_text(s)),
    decreases s.len(),
{
    if s.len() > 0 {
        lemma_escaped_is_string_body(s.drop_last());
        lemma_escaped_char_is_string_body(s.last());
        lemma_string_bodies_join(escaped_text(s.drop_last()), escaped_char(s.last()));
    }
}

/// A text that can stand between the quotes of a JSON string holds no
/// control character, so no line break; and every quote in it stands behind
/// a backslash.
pub proof fn lemma_string_body_is_one_line(s: Seq<char>)
    requires
        is_string_body(s),
    ensures
        forall|i: int| 0 <= i < s.len() ==> (#[trigger] s[i]) as u32 >= 0x20,
        forall|i: int| 0 <= i < s.len() && #[trigger] s[i] == '"' ==> i > 0 && s[i - 1] == '\\',
    decreases s.len(),
{
    if s.len() == 0 {
    } else if s[0] == '\\' {
        let n: int = if s.len() >= 2 && is_short_escape(s[1]) {
            2
        } else {
            6
        };
        let rest = s.skip(n);
        lemma_string_body_is_one_line(rest);
        assert forall|i: int| 0 <= i < s.len() implies (#[trigger] s[i]) as u32 >= 0x20 by {
            if i >= n {
                assert(s[i] == rest[i - n]);
            }
        }
        assert forall|i: int| 0 <= i < s.len() && #[trigger] s[i] == '"' implies i > 0 && s[i - 1]
            == '\\' by {
            if i >= n {
                assert(s[i] == rest[i - n]);
                if i > n {
                    assert(s[i - 1] == rest[i - n - 1]);
                }
            }
        }
    } else {
        let rest = s.drop_first();
        lemma_string_body_is_one_line(rest);
        assert forall|i: int| 0 <= i < s.len() implies (#[trigger] s[i]) as u32 >= 0x20 by {
            if i >= 1 {
                assert(s[i] == rest[i - 1]);
            }
        }
        assert forall|i: int| 0 <= i < s.len() && #[trigger] s[i] == '"' implies i > 0 && s[i - 1]
            == '\\' by {
            if i >= 1 {
                assert(s[i] == rest[i - 1]);
                if i > 1 {
                    assert(s[i - 1] == rest[i - 2]);
                }
            }
        }
    }
}

/// The line written in place of a response that could not be serialized is
/// one JSON object, whatever the serializer's complaint was: between its
/// fixed head and its closing quote and brace stands a text that can stand
/// between the quotes of a JSON string, and that holds no line break.
pub proof fn lemma_fallback_line_is_sound(detail: Seq<char>)
    ensures
        fallback_line(detail) == "{\"success\":false,\"error\":\"JSON serialization failed: "@
            + escaped_text(detail) + "\"}"@,
        is_string_body("JSON serialization failed: "@ + escaped_text(detail)),
        forall|i: int|
            0 <= i < escaped_text(detail).len() ==> (#[trigger] escaped_text(detail)[i]) as u32
                >= 0x20,
{
    lemma_escaped_is_string_body(detail);
    lemma_string_body_is_one_line(escaped_text(detail));
    lemma_plain_text_is_string_body("JSON serialization failed: "@);
    lemma_string_bodies_join("JSON serialization failed: "@, escaped_text(detail));
}

/// The words that stand before the complaint are plain.
proof fn lemma_plain_text_is_string_body(s: Seq<char>)
    requires
        s == "JSON serialization failed: "@,
    ensures
        is_string_body(s),
{
    reveal_strlit("JSON serialization failed: ");
    reveal_with_fuel(is_string_body, 30);
    assert(s.len() == 27);
}

/// No two members of one payload object go by the same key.
pub proof fn lemma_member_keys_differ()
    ensures
        "authenticated"@ != "balance"@,
        "authenticated"@ != "allowances"@,
        "authenticated"@ != "balance_error"@,
        "balance"@ != "allowances"@,
        "signature_type"@ != "success"@,
        "signature_type"@ != "error"@,
        "signature_type"@ != "balance"@,
        "signature_type"@ != "funder_address"@,
        "success"@ != "error"@,
        "success"@ != "balance"@,
        "working_config"@ != "balance"@,
        "working_config"@ != "allowances"@,
        "working_config"@ != "probe_results"@,
        "balance"@ != "probe_results"@,
        "allowances"@ != "probe_results"@,
        "probe_results"@ != "recommendation"@,
        "order_type"@ != "response"@,
        "cancelled"@ != "order_id"@,
        "count"@ != "message"@,
{
    reveal_strlit("authenticated");
    reveal_strlit("balance");
    reveal_strlit("allowances");
    reveal_strlit("balance_error");
    reveal_strlit("signature_type");
    reveal_strlit("success");
    reveal_strlit("error");
    reveal_strlit("funder_address");
    reveal_strlit("working_config");
    reveal_strlit("probe_results");
    reveal_strlit("recommendation");
    reveal_strlit("order_type");
    reveal_strlit("response");
    reveal_strlit("cancelled");
    reveal_strlit("order_id");
    reveal_strlit("count");
    reveal_strlit("message");
    assert("authenticated"@.len() == 13);
    assert("balance"@.len() == 7);
    assert("allowances"@.len() == 10);
    assert("balance_error"@.len() == 13);
    assert("signature_type"@.len() == 14);
    assert("success"@.len() == 7);
    assert("error"@.len() == 5);
    assert("funder_address"@.len() == 14);
    assert("working_config"@.len() == 14);
    assert("probe_results"@.len() == 13);
    assert("recommendation"@.len() == 14);
    assert("order_type"@.len() == 10);
    assert("response"@.len() == 8);
    assert("cancelled"@.len() == 9);
    assert("order_id"@.len() == 8);
    assert("count"@.len() == 5);
    assert("message"@.len() == 7);
    assert("authenticated"@[0] != "balance_error"@[0]);
    assert("signature_type"@[0] != "funder_address"@[0]);
    assert("success"@[0] != "balance"@[0]);
}

/// An object of one member names each member once where its value does.
pub proof fn lemma_one_member(k1: Seq<char>, v1: JsonView)
    requires
        v1.well_keyed(),
    ensures
        JsonView::Object(seq![(k1, v1)]).well_keyed(),
{
}

/// An object of two members under two keys names each member once where
/// its values do.
pub proof fn lemma_two_members(k1: Seq<char>, v1: JsonView, k2: Seq<char>, v2: JsonView)
    requires
        k1 != k2,
        v1.well_keyed(),
        v2.well_keyed(),
    ensures
        JsonView::Object(seq![(k1, v1), (k2, v2)]).well_keyed(),
{
    let members = seq![(k1, v1), (k2, v2)];
    assert(members.len() == 2 && members[0] == (k1, v1) && members[1] == (k2, v2));
}

/// An object of three members under three keys names each member once where
/// its values do.
pub proof fn lemma_three_members(
    k1: Seq<char>,
    v1: JsonView,
    k2: Seq<char>,
    v2: JsonView,
    k3: Seq<char>,
    v3: JsonView,
)
    requires
        k1 != k2,
        k1 != k3,
        k2 != k3,
        v1.well_keyed(),
        v2.well_keyed(),
        v3.well_keyed(),
    ensures
        JsonView::Object(seq![(k1, v1), (k2, v2), (k3, v3)]).well_keyed(),
{
    let members = seq![(k1, v1), (k2, v2), (k3, v3)];
    assert(members.len() == 3 && members[0] == (k1, v1) && members[1] == (k2, v2) && members[2] == (
        k3,
        v3,
    ));
}

/// An object of four members under four keys names each member once where
/// its values do.
pub proof fn lemma_four_members(
    k1: Seq<char>,
    v1: JsonView,
    k2: Seq<char>,
    v2: JsonView,
    k3: Seq<char>,
    v3: JsonView,
    k4: Seq<char>,
    v4: JsonView,
)
    requires
        k1 != k2,
        k1 != k3,
        k1 != k4,
        k2 != k3,
        k2 != k4,
        k3 != k4,
        v1.well_keyed(),
        v2.well_keyed(),
        v3.well_keyed(),
        v4.well_keyed(),
    ensures
        JsonView::Object(seq![(k1, v1), (k2, v2), (k3, v3), (k4, v4)]).well_keyed(),
{
    let members = seq![(k1, v1), (k2, v2), (k3, v3), (k4, v4)];
    assert(members.len() == 4 && members[0] == (k1, v1) && members[1] == (k2, v2) && members[2] == (
        k3,
        v3,
    ) && members[3] == (k4, v4));
}

/// The results of a probe name each member once, entry by entry.
pub proof fn lemma_probe_results_are_well_keyed(
    failed: Seq<FailedAttemptView>,
    signature_type: SignatureType,
    balance: Seq<char>,
)
    ensures
        JsonView::List(failed_entries(failed)).well_keyed(),
        JsonView::List(failed_entries(failed).push(working_entry(signature_type, balance))).well_keyed(),
{
    lemma_member_keys_differ();
    let entries = failed_entries(failed);
    assert forall|i: int| 0 <= i < entries.len() implies (#[trigger] entries[i]).well_keyed() by {
        lemma_three_members(
            "signature_type"@,
            JsonView::Text(signature_type_label(failed[i].signature_type)),
            "success"@,
            JsonView::Bool(false),
            "error"@,
            JsonView::Text(failed[i].error),
        );
    }
    lemma_three_members(
        "signature_type"@,
        JsonView::Text(signature_type_label(signature_type)),
        "success"@,
        JsonView::Bool(true),
        "balance"@,
        JsonView::Text(balance),
    );
    let all = entries.push(working_entry(signature_type, balance));
    assert forall|i: int| 0 <= i < all.len() implies (#[trigger] all[i]).well_keyed() by {
        if i < entries.len() {
            assert(all[i] == entries[i]);
        }
    }
}

/// The payload of a response that is owed at once names each member of each
/// of its objects once.
pub proof fn lemma_start_payload_is_well_keyed(
    parsed: Result<CommandView, Seq<char>>,
    defaults: DefaultsView,
    identity: IdentityView,
)
    ensures
        started(parsed, defaults, identity) matches StartView::Reply { response, .. } ==> (
        response.data matches Some(data) ==> data.well_keyed()),
{
    lemma_one_member("status"@, JsonView::Text("exiting"@));
}

/// Every payload names each member of each of its objects once: whatever
/// answers a job, after any report, loses no member where its objects are
/// held as maps from key to value.
pub proof fn lemma_payloads_are_well_keyed(job: JobView, event: EventView)
    ensures
        job.step(event) matches ProgressView::Reply { response } ==> (response.data matches Some(
            data,
        ) ==> data.well_keyed()),
{
    lemma_member_keys_differ();
    match job.step(event) {
        ProgressView::Reply { response } => {
            match response.data {
                Some(data) => {
                    let failure = failure_of(event);
                    let st = job.signature_type();
                    let label = JsonView::Text(signature_type_label(st));
                    if data == authenticated_payload(event->balance, event->allowances) {
                        lemma_three_members(
                            "authenticated"@,
                            JsonView::Bool(true),
                            "balance"@,
                            JsonView::Text(event->balance),
                            "allowances"@,
                            JsonView::Text(event->allowances),
                        );
                    } else if data == balance_error_payload(failure.summary) {
                        lemma_two_members(
                            "authenticated"@,
                            JsonView::Bool(true),
                            "balance_error"@,
                            JsonView::Text(failure.summary),
                        );
                    } else if data == balance_payload(event->balance, event->allowances) {
                        lemma_two_members(
                            "balance"@,
                            JsonView::Text(event->balance),
                            "allowances"@,
                            JsonView::Text(event->allowances),
                        );
                    } else if data == order_payload(job.plan.price(), event->response) {
                        lemma_two_members(
                            "order_type"@,
                            JsonView::Text(order_type_label(job.plan.price())),
                            "response"@,
                            JsonView::Text(event->response),
                        );
                    } else if data == cancelled_payload(job.plan.order_id()) {
                        lemma_two_members(
                            "cancelled"@,
                            JsonView::Bool(true),
                            "order_id"@,
                            JsonView::Text(job.plan.order_id()),
                        );
                    } else if data == markets_payload(event->count) {
                        lemma_two_members(
                            "count"@,
                            JsonView::Number(event->count),
                            "message"@,
                            JsonView::Text(markets_message()),
                        );
                    } else if data == working_payload(
                        st,
                        job.plan.funder(),
                        job.failed,
                        event->balance,
                        event->allowances,
                    ) {
                        lemma_probe_results_are_well_keyed(job.failed, st, event->balance);
                        lemma_two_members(
                            "signature_type"@,
                            label,
                            "funder_address"@,
                            opt_text_view(job.plan.funder()),
                        );
                        lemma_four_members(
                            "working_config"@,
                            working_config(st, job.plan.funder()),
                            "balance"@,
                            JsonView::Text(event->balance),
                            "allowances"@,
                            JsonView::Text(event->allowances),
                            "probe_results"@,
                            JsonView::List(
                                failed_entries(job.failed).push(
                                    working_entry(st, event->balance),
                                ),
                            ),
                        );
                    } else {
                        let failed = job.failed.push(
                            FailedAttemptView {
                                signature_type: st,
                                error: contextual_summary(job.phase, failure),
                            },
                        );
                        assert(data == exhausted_payload(failed));
                        lemma_probe_results_are_well_keyed(failed, st, Seq::empty());
                        lemma_two_members(
                            "probe_results"@,
                            JsonView::List(failed_entries(failed)),
                            "recommendation"@,
                            JsonView::Text(recommendation()),
                        );
                    }
                },
                None => {},
            }
        },
        ProgressView::Next { .. } => {},
    }
}

/// No two command words are the same.
pub proof fn lemma_command_words_differ()
    ensures
        "auth"@ != "probe"@,
        "auth"@ != "balance"@,
        "auth"@ != "order"@,
        "auth"@ != "cancel"@,
        "auth"@ != "markets"@,
        "auth"@ != "exit"@,
        "auth"@ != "quit"@,
        "probe"@ != "balance"@,
        "probe"@ != "order"@,
        "probe"@ != "cancel"@,
        "probe"@ != "markets"@,
        "probe"@ != "exit"@,
        "probe"@ != "quit"@,
        "balance"@ != "order"@,
        "balance"@ != "cancel"@,
        "balance"@ != "markets"@,
        "balance"@ != "exit"@,
        "balance"@ != "quit"@,
        "order"@ != "cancel"@,
        "order"@ != "markets"@,
        "order"@ != "exit"@,
        "order"@ != "quit"@,
        "cancel"@ != "markets"@,
        "cancel"@ != "exit"@,
        "cancel"@ != "quit"@,
        "markets"@ != "exit"@,
        "markets"@ != "quit"@,
        "exit"@ != "quit"@,
{
    reveal_strlit("auth");
    reveal_strlit("probe");
    reveal_strlit("balance");
    reveal_strlit("order");
    reveal_strlit("cancel");
    reveal_strlit("markets");
    reveal_strlit("exit");
    reveal_strlit("quit");
    assert("auth"@[0] != "exit"@[0]);
    assert("auth"@[0] != "quit"@[0]);
    assert("probe"@[0] != "order"@[0]);
    assert("balance"@[0] != "markets"@[0]);
    assert("exit"@[0] != "quit"@[0]);
}

} // verus!
