//! Commands as they arrive, the process-wide defaults, and the plan that a
//! command is turned into before any remote call is made.

use vstd::prelude::*;
use vstd::string::*;

use crate::json::add_member;
use crate::json::Json;
use crate::json::JsonView;
use crate::response::error_response;
use crate::response::error_view;
use crate::response::Response;
use crate::response::ResponseView;
use crate::response::success_response;
use crate::response::success_view;
use crate::signature::resolve;
use crate::signature::resolved_signature_type;
use crate::signature::SignatureType;
use crate::text::clone_opt;
use crate::text::eq_ignore_ascii_case;
use crate::text::joined;
use crate::text::opt_view;
use crate::text::same_ignoring_ascii_case;
use crate::text::same_text;

verus! {

/// One parsed input line. Amounts and prices are held as the decimal
/// numerals that the exchange client will be asked to read.
#[derive(Debug, PartialEq, Eq)]
pub struct Command {
    pub cmd: String,
    pub token_id: Option<String>,
    pub side: Option<String>,
    pub amount: Option<String>,
    pub price: Option<String>,
    pub order_id: Option<String>,
    pub signature_type: Option<u8>,
    pub funder_address: Option<String>,
}

pub ghost struct CommandView {
    pub cmd: Seq<char>,
    pub token_id: Option<Seq<char>>,
    pub side: Option<Seq<char>>,
    pub amount: Option<Seq<char>>,
    pub price: Option<Seq<char>>,
    pub order_id: Option<Seq<char>>,
    pub signature_type: Option<u8>,
    pub funder_address: Option<Seq<char>>,
}

impl View for Command {
    type V = CommandView;

    open spec fn view(&self) -> CommandView {
        CommandView {
            cmd: self.cmd@,
            token_id: opt_view(self.token_id),
            side: opt_view(self.side),
            amount: opt_view(self.amount),
            price: opt_view(self.price),
            order_id: opt_view(self.order_id),
            signature_type: self.signature_type,
            funder_address: opt_view(self.funder_address),
        }
    }
}

/// What a command falls back on where it names no signature scheme or no
/// funder: fixed when the process starts.
#[derive(Debug, PartialEq, Eq)]
pub struct Defaults {
    pub signature_type: Option<u8>,
    pub funder_address: Option<String>,
}

pub ghost struct DefaultsView {
    pub signature_type: Option<u8>,
    pub funder_address: Option<Seq<char>>,
}

impl View for Defaults {
    type V = DefaultsView;

    open spec fn view(&self) -> DefaultsView {
        DefaultsView {
            signature_type: self.signature_type,
            funder_address: opt_view(self.funder_address),
        }
    }
}

/// The side of the book that an order takes.
#[derive(Clone, Copy, Debug, PartialEq, Eq, Structural)]
pub enum Side {
    Buy,
    Sell,
}

/// Whether the loop reads on after a response.
#[derive(Clone, Copy, Debug, PartialEq, Eq, Structural)]
pub enum Control {
    Continue,
    Stop,
}

/// What a command asks for, with every default applied and every required
/// field present.
#[derive(Debug, PartialEq, Eq)]
pub enum Plan {
    Auth { signature_type: SignatureType, funder: Option<String> },
    Probe { funder: Option<String> },
    Balance { signature_type: SignatureType, funder: Option<String> },
    Order {
        signature_type: SignatureType,
        funder: Option<String>,
        token_id: String,
        side: Side,
        amount: String,
        price: Option<String>,
    },
    Cancel { signature_type: SignatureType, funder: Option<String>, order_id: String },
    Markets,
}

pub ghost enum PlanView {
    Auth { signature_type: SignatureType, funder: Option<Seq<char>> },
    Probe { funder: Option<Seq<char>> },
    Balance { signature_type: SignatureType, funder: Option<Seq<char>> },
    Order {
        signature_type: SignatureType,
        funder: Option<Seq<char>>,
        token_id: Seq<char>,
        side: Side,
        amount: Seq<char>,
        price: Option<Seq<char>>,
    },
    Cancel { signature_type: SignatureType, funder: Option<Seq<char>>, order_id: Seq<char> },
    Markets,
}

impl View for Plan {
    type V = PlanView;

    open spec fn view(&self) -> PlanView {
        match self {
            Plan::Auth { signature_type, funder } => PlanView::Auth {
                signature_type: *signature_type,
                funder: opt_view(*funder),
            },
            Plan::Probe { funder } => PlanView::Probe { funder: opt_view(*funder) },
            Plan::Balance { signature_type, funder } => PlanView::Balance {
                signature_type: *signature_type,
                funder: opt_view(*funder),
            },
            Plan::Order { signature_type, funder, token_id, side, amount, price } => PlanView::Order {
                signature_type: *signature_type,
                funder: opt_view(*funder),
                token_id: token_id@,
                side: *side,
                amount: amount@,
                price: opt_view(*price),
            },
            Plan::Cancel { signature_type, funder, order_id } => PlanView::Cancel {
                signature_type: *signature_type,
                funder: opt_view(*funder),
                order_id: order_id@,
            },
            Plan::Markets => PlanView::Markets,
        }
    }
}

impl PlanView {
    /// The funder address that the plan names, if any.
    pub open spec fn funder(self) -> Option<Seq<char>> {
        match self {
            PlanView::Auth { funder, .. } => funder,
            PlanView::Probe { funder } => funder,
            PlanView::Balance { funder, .. } => funder,
            PlanView::Order { funder, .. } => funder,
            PlanView::Cancel { funder, .. } => funder,
            PlanView::Markets => None,
        }
    }

    /// The signature scheme that the plan was resolved to; a probe and a
    /// market listing name none, and stand at the fallback.
    pub open spec fn signature_type(self) -> SignatureType {
        match self {
            PlanView::Auth { signature_type, .. } => signature_type,
            PlanView::Balance { signature_type, .. } => signature_type,
            PlanView::Order { signature_type, .. } => signature_type,
            PlanView::Cancel { signature_type, .. } => signature_type,
            _ => SignatureType::GnosisSafe,
        }
    }

    /// The token of an order; empty for every other plan.
    pub open spec fn token_id(self) -> Seq<char> {
        match self {
            PlanView::Order { token_id, .. } => token_id,
            _ => Seq::empty(),
        }
    }

    /// The amount of an order; empty for every other plan.
    pub open spec fn amount(self) -> Seq<char> {
        match self {
            PlanView::Order { amount, .. } => amount,
            _ => Seq::empty(),
        }
    }

    /// The limit price of an order, if it has one.
    pub open spec fn price(self) -> Option<Seq<char>> {
        match self {
            PlanView::Order { price, .. } => price,
            _ => None,
        }
    }

    /// The side of an order; every other plan stands at `Buy`.
    pub open spec fn side(self) -> Side {
        match self {
            PlanView::Order { side, .. } => side,
            _ => Side::Buy,
        }
    }

    /// The order that a cancellation names; empty for every other plan.
    pub open spec fn order_id(self) -> Seq<char> {
        match self {
            PlanView::Cancel { order_id, .. } => order_id,
            _ => Seq::empty(),
        }
    }
}

impl Plan {
    /// The funder address that the plan names, if any.
    pub fn funder(&self) -> (r: Option<String>)
        ensures
            opt_view(r) == self@.funder(),
    {
        match self {
            Plan::Auth { funder, .. } => clone_opt(funder),
            Plan::Probe { funder } => clone_opt(funder),
            Plan::Balance { funder, .. } => clone_opt(funder),
            Plan::Order { funder, .. } => clone_opt(funder),
            Plan::Cancel { funder, .. } => clone_opt(funder),
            Plan::Markets => None,
        }
    }

    /// Whether the plan names a funder address.
    pub fn has_funder(&self) -> (r: bool)
        ensures
            r == (self@.funder() is Some),
    {
        match self {
            Plan::Auth { funder, .. } => funder.is_some(),
            Plan::Probe { funder } => funder.is_some(),
            Plan::Balance { funder, .. } => funder.is_some(),
            Plan::Order { funder, .. } => funder.is_some(),
            Plan::Cancel { funder, .. } => funder.is_some(),
            Plan::Markets => false,
        }
    }

    /// The signature scheme that the plan was resolved to.
    pub fn signature_type(&self) -> (r: SignatureType)
        ensures
            r == self@.signature_type(),
    {
        match self {
            Plan::Auth { signature_type, .. } => *signature_type,
            Plan::Balance { signature_type, .. } => *signature_type,
            Plan::Order { signature_type, .. } => *signature_type,
            Plan::Cancel { signature_type, .. } => *signature_type,
            _ => SignatureType::GnosisSafe,
        }
    }

    /// The token of an order; empty for every other plan.
    pub fn token_id(&self) -> (r: String)
        ensures
            r@ == self@.token_id(),
    {
        match self {
            Plan::Order { token_id, .. } => token_id.clone(),
            _ => String::new(),
        }
    }

    /// The amount of an order; empty for every other plan.
    pub fn amount(&self) -> (r: String)
        ensures
            r@ == self@.amount(),
    {
        match self {
            Plan::Order { amount, .. } => amount.clone(),
            _ => String::new(),
        }
    }

    /// The limit price of an order, if it has one.
    pub fn price(&self) -> (r: Option<String>)
        ensures
            opt_view(r) == self@.price(),
    {
        match self {
            Plan::Order { price, .. } => clone_opt(price),
            _ => None,
        }
    }

    /// Whether the plan is an order with a limit price.
    pub fn has_price(&self) -> (r: bool)
        ensures
            r == (self@.price() is Some),
    {
        match self {
            Plan::Order { price, .. } => price.is_some(),
            _ => false,
        }
    }

    /// The side of an order; every other plan stands at `Buy`.
    pub fn side(&self) -> (r: Side)
        ensures
            r == self@.side(),
    {
        match self {
            Plan::Order { side, .. } => *side,
            _ => Side::Buy,
        }
    }

    /// The order that a cancellation names; empty for every other plan.
    pub fn order_id(&self) -> (r: String)
        ensures
            r@ == self@.order_id(),
    {
        match self {
            Plan::Cancel { order_id, .. } => order_id.clone(),
            _ => String::new(),
        }
    }
}

/// The outcome of routing a command: a plan to carry out, or a response that
/// is owed at once, with no remote call.
#[derive(Debug, PartialEq, Eq)]
pub enum Routed {
    Run { plan: Plan },
    Reply { response: Response, control: Control },
}

pub ghost enum RoutedView {
    Run { plan: PlanView },
    Reply { response: ResponseView, control: Control },
}

impl View for Routed {
    type V = RoutedView;

    open spec fn view(&self) -> RoutedView {
        match self {
            Routed::Run { plan } => RoutedView::Run { plan: plan@ },
            Routed::Reply { response, control } => RoutedView::Reply {
                response: response@,
                control: *control,
            },
        }
    }
}

/// The command's own text where it has one, else the default.
pub open spec fn effective_text(explicit: Option<Seq<char>>, default: Option<Seq<char>>) -> Option<
    Seq<char>,
> {
    if explicit is Some {
        explicit
    } else {
        default
    }
}

/// The side that a command names: `buy` in any case of its letters, or no
/// side at all, buys; everything else sells.
pub open spec fn side_of(side: Option<Seq<char>>) -> Side {
    match side {
        Some(text) => if same_ignoring_ascii_case(text, "buy"@) {
            Side::Buy
        } else {
            Side::Sell
        },
        None => Side::Buy,
    }
}

/// The amount that a command names, ten where it names none.
pub open spec fn amount_of(amount: Option<Seq<char>>) -> Seq<char> {
    match amount {
        Some(text) => text,
        None => "10"@,
    }
}

/// The payload that acknowledges an exit.
pub open spec fn exiting_payload() -> JsonView {
    JsonView::Object(seq![("status"@, JsonView::Text("exiting"@))])
}

/// Where a command leads. The command word is matched exactly. `order`
/// without a token and `cancel` without an order are answered at once, and so
/// are `exit`, `quit` and every unknown word; only `exit` and `quit` stop
/// the loop.
pub open spec fn routed(c: CommandView, d: DefaultsView) -> RoutedView {
    let signature_type = resolved_signature_type(c.signature_type, d.signature_type);
    let funder = effective_text(c.funder_address, d.funder_address);
    if c.cmd == "auth"@ {
        RoutedView::Run { plan: PlanView::Auth { signature_type, funder } }
    } else if c.cmd == "probe"@ {
        RoutedView::Run { plan: PlanView::Probe { funder } }
    } else if c.cmd == "balance"@ {
        RoutedView::Run { plan: PlanView::Balance { signature_type, funder } }
    } else if c.cmd == "order"@ {
        match c.token_id {
            Some(token_id) => RoutedView::Run {
                plan: PlanView::Order {
                    signature_type,
                    funder,
                    token_id,
                    side: side_of(c.side),
                    amount: amount_of(c.amount),
                    price: c.price,
                },
            },
            None => RoutedView::Reply {
                response: error_view("Missing token_id"@),
                control: Control::Continue,
            },
        }
    } else if c.cmd == "cancel"@ {
        match c.order_id {
            Some(order_id) => RoutedView::Run {
                plan: PlanView::Cancel { signature_type, funder, order_id },
            },
            None => RoutedView::Reply {
                response: error_view("Missing order_id"@),
                control: Control::Continue,
            },
        }
    } else if c.cmd == "markets"@ {
        RoutedView::Run { plan: PlanView::Markets }
    } else if c.cmd == "exit"@ || c.cmd == "quit"@ {
        RoutedView::Reply { response: success_view(exiting_payload()), control: Control::Stop }
    } else {
        RoutedView::Reply {
            response: error_view("Unknown command: "@ + c.cmd),
            control: Control::Continue,
        }
    }
}

fn effective_funder(explicit: Option<String>, default: &Option<String>) -> (r: Option<String>)
    ensures
        opt_view(r) == effective_text(opt_view(explicit), opt_view(*default)),
{
    match explicit {
        Some(text) => Some(text),
        None => clone_opt(default),
    }
}

fn side_from(side: &Option<String>) -> (r: Side)
    ensures
        r == side_of(opt_view(*side)),
{
    match side {
        Some(text) => if eq_ignore_ascii_case(text.as_str(), "buy") {
            Side::Buy
        } else {
            Side::Sell
        },
        None => Side::Buy,
    }
}

/// Routes a command: applies the defaults, checks the required fields, and
/// answers at once what needs no remote call.
pub fn route(command: Command, defaults: &Defaults) -> (r: Routed)
    ensures
        r@ == routed(command@, defaults@),
        r matches Routed::Reply { response, .. } ==> response@.well_formed(),
{
    let Command { cmd, token_id, side, amount, price, order_id, signature_type, funder_address } =
        command;
    let word = cmd.as_str();
    if same_text(word, "auth") {
        let signature_type = resolve(signature_type, defaults.signature_type);
        let funder = effective_funder(funder_address, &defaults.funder_address);
        Routed::Run { plan: Plan::Auth { signature_type, funder } }
    } else if same_text(word, "probe") {
        let funder = effective_funder(funder_address, &defaults.funder_address);
        Routed::Run { plan: Plan::Probe { funder } }
    } else if same_text(word, "balance") {
        let signature_type = resolve(signature_type, defaults.signature_type);
        let funder = effective_funder(funder_address, &defaults.funder_address);
        Routed::Run { plan: Plan::Balance { signature_type, funder } }
    } else if same_text(word, "order") {
        match token_id {
            Some(token_id) => {
                let side = side_from(&side);
                let amount = match amount {
                    Some(text) => text,
                    None => String::from_str("10"),
                };
                let signature_type = resolve(signature_type, defaults.signature_type);
                let funder = effective_funder(funder_address, &defaults.funder_address);
                Routed::Run {
                    plan: Plan::Order { signature_type, funder, token_id, side, amount, price },
                }
            },
            None => Routed::Reply {
                response: error_response("Missing token_id"),
                control: Control::Continue,
            },
        }
    } else if same_text(word, "cancel") {
        match order_id {
            Some(order_id) => {
                let signature_type = resolve(signature_type, defaults.signature_type);
                let funder = effective_funder(funder_address, &defaults.funder_address);
                Routed::Run { plan: Plan::Cancel { signature_type, funder, order_id } }
            },
            None => Routed::Reply {
                response: error_response("Missing order_id"),
                control: Control::Continue,
            },
        }
    } else if same_text(word, "markets") {
        Routed::Run { plan: Plan::Markets }
    } else if same_text(word, "exit") || same_text(word, "quit") {
        let mut members: Vec<(String, Json)> = Vec::new();
        add_member(&mut members, "status", Json::text("exiting"));
        Routed::Reply {
            response: success_response(Json::object(members)),
            control: Control::Stop,
        }
    } else {
        let message = joined("Unknown command: ", word);
        Routed::Reply { response: error_response(message.as_str()), control: Control::Continue }
    }
}

} // verus!
