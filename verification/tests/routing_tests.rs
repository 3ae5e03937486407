use clob_bridge::command::{route, Command, Control, Defaults, Plan, Routed, Side};
use clob_bridge::json::Json;
use clob_bridge::machine::{begin, Identity, Job, Phase, Start};
use clob_bridge::response::Response;
use clob_bridge::signature::SignatureType;

fn word(cmd: &str) -> Command {
    Command {
        cmd: cmd.to_string(),
        token_id: None,
        side: None,
        amount: None,
        price: None,
        order_id: None,
        signature_type: None,
        funder_address: None,
    }
}

fn no_defaults() -> Defaults {
    Defaults { signature_type: None, funder_address: None }
}

fn who() -> Identity {
    Identity { run_id: "run_0_00003039".to_string(), signer_address: "0xsigner".to_string() }
}

fn error_reply(message: &str) -> Start {
    Start::Reply {
        response: Response {
            success: false,
            data: None,
            error: Some(message.to_string()),
            auth_story: None,
        },
        control: Control::Continue,
    }
}

fn job(plan: Plan, phase: Phase) -> Start {
    Start::Run { job: Job { identity: who(), plan, phase, failed: Vec::new() } }
}

#[test]
fn a_line_that_is_no_command_is_answered_with_the_complaint() {
    let start = begin(Err("expected value at line 1 column 1".to_string()), &no_defaults(), &who());
    assert_eq!(start, error_reply("Invalid JSON: expected value at line 1 column 1"));
}

#[test]
fn unknown_commands_are_named_in_the_error() {
    assert_eq!(begin(Ok(word("dance")), &no_defaults(), &who()), error_reply("Unknown command: dance"));
    assert_eq!(begin(Ok(word("")), &no_defaults(), &who()), error_reply("Unknown command: "));
}

#[test]
fn command_words_are_matched_exactly() {
    for cmd in ["AUTH", "Auth", " auth", "auth ", "exit!", "Quit", "orders", "market"] {
        assert_eq!(
            begin(Ok(word(cmd)), &no_defaults(), &who()),
            error_reply(&format!("Unknown command: {}", cmd))
        );
    }
}

#[test]
fn exit_and_quit_stop_the_loop() {
    for cmd in ["exit", "quit"] {
        assert_eq!(
            begin(Ok(word(cmd)), &no_defaults(), &who()),
            Start::Reply {
                response: Response {
                    success: true,
                    data: Some(Json::Object(vec![(
                        "status".to_string(),
                        Json::Text("exiting".to_string())
                    )])),
                    error: None,
                    auth_story: None,
                },
                control: Control::Stop,
            }
        );
    }
}

#[test]
fn order_without_token_is_refused_before_any_call() {
    let mut command = word("order");
    command.price = Some("0.5".to_string());
    command.amount = Some("3".to_string());
    assert_eq!(begin(Ok(command), &no_defaults(), &who()), error_reply("Missing token_id"));
}

#[test]
fn cancel_without_order_is_refused_before_any_call() {
    let mut command = word("cancel");
    command.token_id = Some("123".to_string());
    assert_eq!(begin(Ok(command), &no_defaults(), &who()), error_reply("Missing order_id"));
}

#[test]
fn auth_balance_and_probe_start_by_opening_a_client() {
    assert_eq!(
        begin(Ok(word("auth")), &no_defaults(), &who()),
        job(Plan::Auth { signature_type: SignatureType::GnosisSafe, funder: None }, Phase::Opening)
    );
    assert_eq!(
        begin(Ok(word("balance")), &no_defaults(), &who()),
        job(Plan::Balance { signature_type: SignatureType::GnosisSafe, funder: None }, Phase::Opening)
    );
    assert_eq!(
        begin(Ok(word("probe")), &no_defaults(), &who()),
        job(Plan::Probe { funder: None }, Phase::Opening)
    );
}

#[test]
fn markets_needs_no_session() {
    assert_eq!(begin(Ok(word("markets")), &no_defaults(), &who()), job(Plan::Markets, Phase::Listing));
}

#[test]
fn command_fields_take_precedence_over_defaults() {
    let defaults = Defaults { signature_type: Some(1), funder_address: Some("0xenv".to_string()) };
    assert_eq!(
        route(word("auth"), &defaults),
        Routed::Run {
            plan: Plan::Auth { signature_type: SignatureType::Proxy, funder: Some("0xenv".to_string()) }
        }
    );
    let mut command = word("auth");
    command.signature_type = Some(0);
    command.funder_address = Some("0xcmd".to_string());
    assert_eq!(
        route(command, &defaults),
        Routed::Run {
            plan: Plan::Auth { signature_type: SignatureType::Eoa, funder: Some("0xcmd".to_string()) }
        }
    );
    let mut command = word("balance");
    command.signature_type = Some(9);
    assert_eq!(
        route(command, &defaults),
        Routed::Run {
            plan: Plan::Balance {
                signature_type: SignatureType::GnosisSafe,
                funder: Some("0xenv".to_string())
            }
        }
    );
}

#[test]
fn probe_ignores_the_signature_type() {
    let defaults = Defaults { signature_type: Some(1), funder_address: Some("0xenv".to_string()) };
    let mut command = word("probe");
    command.signature_type = Some(0);
    assert_eq!(
        route(command, &defaults),
        Routed::Run { plan: Plan::Probe { funder: Some("0xenv".to_string()) } }
    );
}

#[test]
fn order_defaults_to_buying_ten() {
    let mut command = word("order");
    command.token_id = Some("123".to_string());
    assert_eq!(
        route(command, &no_defaults()),
        Routed::Run {
            plan: Plan::Order {
                signature_type: SignatureType::GnosisSafe,
                funder: None,
                token_id: "123".to_string(),
                side: Side::Buy,
                amount: "10".to_string(),
                price: None,
            }
        }
    );
}

#[test]
fn order_side_is_buy_only_for_the_word_buy() {
    for (text, side) in [
        ("buy", Side::Buy),
        ("BUY", Side::Buy),
        ("Buy", Side::Buy),
        ("sell", Side::Sell),
        ("SELL", Side::Sell),
        ("", Side::Sell),
        ("buy ", Side::Sell),
        ("hold", Side::Sell),
    ] {
        let mut command = word("order");
        command.token_id = Some("1".to_string());
        command.side = Some(text.to_string());
        command.amount = Some("2.5".to_string());
        command.price = Some("0.5".to_string());
        assert_eq!(
            route(command, &no_defaults()),
            Routed::Run {
                plan: Plan::Order {
                    signature_type: SignatureType::GnosisSafe,
                    funder: None,
                    token_id: "1".to_string(),
                    side,
                    amount: "2.5".to_string(),
                    price: Some("0.5".to_string()),
                }
            }
        );
    }
}

#[test]
fn cancel_keeps_the_order_id() {
    let mut command = word("cancel");
    command.order_id = Some("0xorder".to_string());
    command.signature_type = Some(1);
    assert_eq!(
        route(command, &no_defaults()),
        Routed::Run {
            plan: Plan::Cancel {
                signature_type: SignatureType::Proxy,
                funder: None,
                order_id: "0xorder".to_string()
            }
        }
    );
}

#[test]
fn plan_accessors_have_neutral_values_for_other_plans() {
    let plan = Plan::Markets;
    assert_eq!(plan.funder(), None);
    assert!(!plan.has_funder());
    assert!(!plan.has_price());
    assert_eq!(plan.price(), None);
    assert_eq!(plan.amount(), "");
    assert_eq!(plan.token_id(), "");
    assert_eq!(plan.order_id(), "");
    assert_eq!(plan.side(), Side::Buy);
    assert_eq!(plan.signature_type(), SignatureType::GnosisSafe);

    let plan = Plan::Order {
        signature_type: SignatureType::Eoa,
        funder: Some("0xf".to_string()),
        token_id: "7".to_string(),
        side: Side::Sell,
        amount: "1".to_string(),
        price: Some("0.2".to_string()),
    };
    assert_eq!(plan.funder(), Some("0xf".to_string()));
    assert!(plan.has_funder());
    assert!(plan.has_price());
    assert_eq!(plan.price(), Some("0.2".to_string()));
    assert_eq!(plan.amount(), "1");
    assert_eq!(plan.token_id(), "7");
    assert_eq!(plan.order_id(), "");
    assert_eq!(plan.side(), Side::Sell);
    assert_eq!(plan.signature_type(), SignatureType::Eoa);
}
