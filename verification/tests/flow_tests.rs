use clob_bridge::command::{Command, Defaults, Side};
use clob_bridge::exchange::{Event, Fault, OrderType, Request};
use clob_bridge::json::Json;
use clob_bridge::machine::{begin, Identity, Job, Progress, Start};
use clob_bridge::response::{AuthStatus, AuthStory, Response};
use clob_bridge::signature::SignatureType;

fn command(cmd: &str) -> Command {
    Command {
        cmd: cmd.to_string(),
        token_id: None,
        side: None,
        amount: None,
        price: None,
        order_id: None,
        signature_type: None,
        funder_address: None,
    }
}

fn identity() -> Identity {
    Identity { run_id: "run_1_41c67ea6".to_string(), signer_address: "0xsigner".to_string() }
}

fn start(command: Command) -> Job {
    let defaults = Defaults { signature_type: None, funder_address: None };
    match begin(Ok(command), &defaults, &identity()) {
        Start::Run { job } => job,
        Start::Reply { response, .. } => panic!("answered at once: {:?}", response),
    }
}

fn failed(summary: &str, detail: &str) -> Event {
    Event::Failed { failure: Fault { summary: summary.to_string(), detail: detail.to_string() } }
}

fn balance(balance: &str, allowances: &str) -> Event {
    Event::Balance { balance: balance.to_string(), allowances: allowances.to_string() }
}

/// Reports `events` one after the other, and gives the calls that were asked
/// for and the response, with the number of events that were left over.
fn drive(job: Job, events: Vec<Event>) -> (Vec<Request>, Response, usize) {
    let mut requests = vec![job.request()];
    let mut job = job;
    let mut events = events.into_iter();
    loop {
        let event = events.next().expect("the job is still under way");
        match job.advance(event) {
            Progress::Next { job: next } => {
                requests.push(next.request());
                job = next;
            }
            Progress::Reply { response } => return (requests, response, events.count()),
        }
    }
}

fn open() -> Request {
    Request::OpenClient { endpoint: "https://clob.polymarket.com".to_string() }
}

fn text(s: &str) -> Json {
    Json::Text(s.to_string())
}

fn object(members: Vec<(&str, Json)>) -> Json {
    Json::Object(members.into_iter().map(|(k, v)| (k.to_string(), v)).collect())
}

fn error(message: &str) -> Response {
    Response { success: false, data: None, error: Some(message.to_string()), auth_story: None }
}

fn success(data: Json) -> Response {
    Response { success: true, data: Some(data), error: None, auth_story: None }
}

fn names_each_member_once(payload: &Json) -> bool {
    match payload {
        Json::List(items) => items.iter().all(names_each_member_once),
        Json::Object(members) => {
            members.iter().enumerate().all(|(i, (key, value))| {
                members[..i].iter().all(|(earlier, _)| earlier != key)
                    && names_each_member_once(value)
            })
        }
        _ => true,
    }
}

fn market_order() -> Command {
    let mut c = command("order");
    c.token_id = Some("123".to_string());
    c.side = Some("buy".to_string());
    c.amount = Some("5".to_string());
    c
}

fn limit_order() -> Command {
    let mut c = command("order");
    c.token_id = Some("123".to_string());
    c.side = Some("SELL".to_string());
    c.amount = Some("5".to_string());
    c.price = Some("0.45".to_string());
    c.funder_address = Some("0xfunder".to_string());
    c.signature_type = Some(1);
    c
}

#[test]
fn market_order_scenario() {
    let (requests, response, left) = drive(
        start(market_order()),
        vec![
            Event::Done,
            Event::Done,
            Event::Done,
            Event::Done,
            Event::Done,
            Event::Submitted { response: "<opaque>".to_string() },
        ],
    );
    assert_eq!(left, 0);
    assert_eq!(
        requests,
        vec![
            open(),
            Request::Authenticate { signature_type: SignatureType::GnosisSafe, funder: None },
            Request::ParseDecimal { text: "5".to_string() },
            Request::UsdcAmount { text: "5".to_string() },
            Request::ParseTokenId { text: "123".to_string() },
            Request::PostMarketOrder {
                token_id: "123".to_string(),
                amount: "5".to_string(),
                side: Side::Buy,
                order_type: OrderType::FillOrKill,
            },
        ]
    );
    assert_eq!(
        response,
        success(object(vec![("order_type", text("market")), ("response", text("<opaque>"))]))
    );
}

#[test]
fn limit_order_scenario() {
    let (requests, response, left) = drive(
        start(limit_order()),
        vec![
            Event::Done,
            Event::Done,
            Event::Done,
            Event::Done,
            Event::Done,
            Event::Done,
            Event::Submitted { response: "PostOrderResponse { .. }".to_string() },
        ],
    );
    assert_eq!(left, 0);
    assert_eq!(
        requests,
        vec![
            open(),
            Request::ParseAddress { text: "0xfunder".to_string() },
            Request::Authenticate {
                signature_type: SignatureType::Proxy,
                funder: Some("0xfunder".to_string())
            },
            Request::ParseDecimal { text: "5".to_string() },
            Request::ParseDecimal { text: "0.45".to_string() },
            Request::ParseTokenId { text: "123".to_string() },
            Request::PostLimitOrder {
                token_id: "123".to_string(),
                size: "5".to_string(),
                price: "0.45".to_string(),
                side: Side::Sell,
            },
        ]
    );
    assert_eq!(
        response,
        success(object(vec![
            ("order_type", text("limit")),
            ("response", text("PostOrderResponse { .. }"))
        ]))
    );
}

#[test]
fn order_failures_name_the_stage() {
    let boom = || failed("boom", "boom: cause");
    let cases: Vec<(Command, usize, &str)> = vec![
        (market_order(), 0, "Order failed: boom"),
        (market_order(), 1, "Order failed: boom"),
        (market_order(), 2, "Order failed: Invalid amount"),
        (market_order(), 3, "Order failed: boom"),
        (market_order(), 4, "Order failed: Invalid token_id - must be a valid U256"),
        (market_order(), 5, "Order failed: boom"),
        (limit_order(), 0, "Order failed: boom"),
        (limit_order(), 1, "Order failed: boom"),
        (limit_order(), 2, "Order failed: boom"),
        (limit_order(), 3, "Order failed: Invalid amount"),
        (limit_order(), 4, "Order failed: Invalid price"),
        (limit_order(), 5, "Order failed: Invalid token_id - must be a valid U256"),
        (limit_order(), 6, "Order failed: boom"),
    ];
    for (command, successes, message) in cases {
        let mut events: Vec<Event> = (0..successes).map(|_| Event::Done).collect();
        events.push(boom());
        let (requests, response, left) = drive(start(command), events);
        assert_eq!(left, 0);
        assert_eq!(requests.len(), successes + 1);
        assert_eq!(response, error(message));
    }
}

#[test]
fn nothing_is_submitted_after_a_failure() {
    let (requests, _, _) = drive(
        start(market_order()),
        vec![Event::Done, Event::Done, Event::Done, failed("too many decimals", "")],
    );
    assert!(requests.iter().all(|r| !matches!(
        r,
        Request::PostMarketOrder { .. } | Request::PostLimitOrder { .. }
    )));
}

#[test]
fn auth_reports_the_balance() {
    let mut c = command("auth");
    c.signature_type = Some(0);
    let (requests, response, left) =
        drive(start(c), vec![Event::Done, Event::Done, balance("12.5", "{0x1: 7}")]);
    assert_eq!(left, 0);
    assert_eq!(
        requests,
        vec![
            open(),
            Request::Authenticate { signature_type: SignatureType::Eoa, funder: None },
            Request::BalanceAllowance,
        ]
    );
    assert_eq!(
        response,
        Response {
            success: true,
            data: Some(object(vec![
                ("authenticated", Json::Bool(true)),
                ("balance", text("12.5")),
                ("allowances", text("{0x1: 7}")),
            ])),
            error: None,
            auth_story: Some(AuthStory {
                run_id: "run_1_41c67ea6".to_string(),
                signer_address: "0xsigner".to_string(),
                funder_address: None,
                signature_type: "EOA".to_string(),
                auth_status: AuthStatus::Success,
                balance_usdc: Some("12.5".to_string()),
                error_details: None,
            }),
        }
    );
}

#[test]
fn auth_survives_a_failed_balance_query() {
    let mut c = command("auth");
    c.funder_address = Some("0xf".to_string());
    let (_, response, _) = drive(
        start(c),
        vec![Event::Done, Event::Done, Event::Done, failed("timeout", "timeout: socket")],
    );
    assert_eq!(
        response,
        Response {
            success: true,
            data: Some(object(vec![
                ("authenticated", Json::Bool(true)),
                ("balance_error", text("timeout")),
            ])),
            error: None,
            auth_story: Some(AuthStory {
                run_id: "run_1_41c67ea6".to_string(),
                signer_address: "0xsigner".to_string(),
                funder_address: Some("0xf".to_string()),
                signature_type: "GnosisSafe".to_string(),
                auth_status: AuthStatus::Success,
                balance_usdc: None,
                error_details: None,
            }),
        }
    );
}

#[test]
fn auth_failure_is_told_in_the_story() {
    let story = |details: &str| AuthStory {
        run_id: "run_1_41c67ea6".to_string(),
        signer_address: "0xsigner".to_string(),
        funder_address: Some("nonsense".to_string()),
        signature_type: "GnosisSafe".to_string(),
        auth_status: AuthStatus::Failed,
        balance_usdc: None,
        error_details: Some(details.to_string()),
    };
    let cases = [
        (0, "bad url: relative"),
        (1, "Invalid funder address format: bad url: relative"),
        (2, "bad url: relative"),
    ];
    for (successes, details) in cases {
        let mut c = command("auth");
        c.funder_address = Some("nonsense".to_string());
        let mut events: Vec<Event> = (0..successes).map(|_| Event::Done).collect();
        events.push(failed("bad url", "bad url: relative"));
        let (requests, response, _) = drive(start(c), events);
        assert_eq!(requests.len(), successes + 1);
        assert_eq!(
            response,
            Response {
                success: false,
                data: None,
                error: Some("FAILED".to_string()),
                auth_story: Some(story(details)),
            }
        );
    }
}

#[test]
fn balance_command() {
    let (requests, response, _) =
        drive(start(command("balance")), vec![Event::Done, Event::Done, balance("3", "{}")]);
    assert_eq!(requests.len(), 3);
    assert_eq!(
        response,
        success(object(vec![("balance", text("3")), ("allowances", text("{}"))]))
    );

    for successes in 0..3 {
        let mut events: Vec<Event> = (0..successes).map(|_| Event::Done).collect();
        events.push(failed("denied", "denied: 401"));
        let (_, response, _) = drive(start(command("balance")), events);
        assert_eq!(response, error("Failed to get balance: denied"));
    }
    let mut c = command("balance");
    c.funder_address = Some("zz".to_string());
    let (_, response, _) = drive(start(c), vec![Event::Done, failed("odd length", "odd length")]);
    assert_eq!(response, error("Failed to get balance: odd length"));
}

#[test]
fn cancel_command() {
    let mut c = command("cancel");
    c.order_id = Some("0xorder".to_string());
    let (requests, response, _) = drive(start(c), vec![Event::Done, Event::Done, Event::Done]);
    assert_eq!(
        requests,
        vec![
            open(),
            Request::Authenticate { signature_type: SignatureType::GnosisSafe, funder: None },
            Request::CancelOrder { order_id: "0xorder".to_string() },
        ]
    );
    assert_eq!(
        response,
        success(object(vec![("cancelled", Json::Bool(true)), ("order_id", text("0xorder"))]))
    );

    for successes in 0..3 {
        let mut c = command("cancel");
        c.order_id = Some("0xorder".to_string());
        let mut events: Vec<Event> = (0..successes).map(|_| Event::Done).collect();
        events.push(failed("not found", "not found: 404"));
        let (_, response, _) = drive(start(c), events);
        assert_eq!(response, error("Cancel failed: not found"));
    }
}

#[test]
fn markets_command() {
    let (requests, response, _) = drive(start(command("markets")), vec![Event::Markets { count: 42 }]);
    assert_eq!(requests, vec![Request::ListMarkets]);
    assert_eq!(
        response,
        success(object(vec![
            ("count", Json::Number(42)),
            (
                "message",
                text("Markets retrieved successfully. Use Polymarket API directly for full market data.")
            ),
        ]))
    );
    let (_, response, _) = drive(start(command("markets")), vec![failed("offline", "offline")]);
    assert_eq!(response, error("Failed to get markets: offline"));
}

#[test]
fn a_reply_of_the_wrong_kind_counts_as_a_failure() {
    let (_, response, _) = drive(start(command("markets")), vec![Event::Done]);
    assert_eq!(response, error("Failed to get markets: Unexpected reply from the exchange client"));
    let (_, response, _) = drive(start(command("balance")), vec![balance("1", "{}")]);
    assert_eq!(response, error("Failed to get balance: Unexpected reply from the exchange client"));
    let (_, response, _) =
        drive(start(command("balance")), vec![Event::Done, Event::Done, Event::Done]);
    assert_eq!(response, error("Failed to get balance: Unexpected reply from the exchange client"));
    let (_, response, _) = drive(
        start(market_order()),
        vec![Event::Done, Event::Done, Event::Done, Event::Done, Event::Done, Event::Done],
    );
    assert_eq!(response, error("Order failed: Unexpected reply from the exchange client"));
}

#[test]
fn every_command_is_answered_exactly_once() {
    let events = || {
        vec![
            Event::Done,
            failed("x", "y"),
            balance("1", "{}"),
            Event::Submitted { response: "r".to_string() },
            Event::Markets { count: 1 },
        ]
    };
    let mut commands = vec![command("auth"), command("probe"), command("balance"), command("markets")];
    commands.push(market_order());
    commands.push(limit_order());
    let mut cancel = command("cancel");
    cancel.order_id = Some("1".to_string());
    commands.push(cancel);
    // Every sequence of at most four reports, each followed by failures only.
    let kinds = events().len();
    for index in 0..commands.len() {
        for code in 0..(kinds * kinds * kinds * kinds) {
            let mut script = Vec::new();
            let mut rest = code;
            for _ in 0..4 {
                script.push(events().into_iter().nth(rest % kinds).unwrap());
                rest /= kinds;
            }
            for _ in 0..28 {
                script.push(failed("late", "late"));
            }
            let mut all = vec![command("auth"), command("probe"), command("balance"), command("markets")];
            all.push(market_order());
            all.push(limit_order());
            let mut cancel = command("cancel");
            cancel.order_id = Some("1".to_string());
            all.push(cancel);
            let chosen = all.into_iter().nth(index).unwrap();
            let (requests, response, _) = drive(start(chosen), script);
            assert!(requests.len() <= 28);
            assert_eq!(response.success, response.error.is_none());
            if let Some(data) = &response.data {
                assert!(names_each_member_once(data));
            }
        }
    }
}
