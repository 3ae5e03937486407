//! The interface to the exchange client: the calls that the host is asked to
//! make, and what it reports back of each.

use vstd::prelude::*;
use vstd::string::*;

use crate::command::Side;
use crate::signature::SignatureType;
use crate::text::opt_view;

verus! {

/// The address of the exchange that sessions are opened against.
pub open spec fn clob_base_url() -> Seq<char> {
    "https://clob.polymarket.com"@
}

/// How long an order may rest. Market orders are filled at once and in full,
/// or not at all.
#[derive(Clone, Copy, Debug, PartialEq, Eq, Structural)]
pub enum OrderType {
    FillOrKill,
}

/// One call for the host to make on the exchange client.
#[derive(Debug, PartialEq, Eq)]
pub enum Request {
    /// Construct a client bound to `endpoint`.
    OpenClient { endpoint: String },
    /// Read `text` as a wallet address.
    ParseAddress { text: String },
    /// Authenticate the opened client under `signature_type`, for the funder
    /// `funder` where there is one.
    Authenticate { signature_type: SignatureType, funder: Option<String> },
    /// Ask the session for its balance and allowances.
    BalanceAllowance,
    /// Read `text` as a decimal number.
    ParseDecimal { text: String },
    /// Read `text` as an amount of USDC.
    UsdcAmount { text: String },
    /// Read `text` as a token identifier.
    ParseTokenId { text: String },
    /// Build, sign and submit a limit order.
    PostLimitOrder { token_id: String, size: String, price: String, side: Side },
    /// Build, sign and submit a market order.
    PostMarketOrder { token_id: String, amount: String, side: Side, order_type: OrderType },
    /// Cancel the order `order_id`.
    CancelOrder { order_id: String },
    /// List the markets, without a session.
    ListMarkets,
}

pub ghost enum RequestView {
    OpenClient { endpoint: Seq<char> },
    ParseAddress { text: Seq<char> },
    Authenticate { signature_type: SignatureType, funder: Option<Seq<char>> },
    BalanceAllowance,
    ParseDecimal { text: Seq<char> },
    UsdcAmount { text: Seq<char> },
    ParseTokenId { text: Seq<char> },
    PostLimitOrder { token_id: Seq<char>, size: Seq<char>, price: Seq<char>, side: Side },
    PostMarketOrder { token_id: Seq<char>, amount: Seq<char>, side: Side, order_type: OrderType },
    CancelOrder { order_id: Seq<char> },
    ListMarkets,
}

impl View for Request {
    type V = RequestView;

    open spec fn view(&self) -> RequestView {
        match self {
            Request::OpenClient { endpoint } => RequestView::OpenClient { endpoint: endpoint@ },
            Request::ParseAddress { text } => RequestView::ParseAddress { text: text@ },
            Request::Authenticate { signature_type, funder } => RequestView::Authenticate {
                signature_type: *signature_type,
                funder: opt_view(*funder),
            },
            Request::BalanceAllowance => RequestView::BalanceAllowance,
            Request::ParseDecimal { text } => RequestView::ParseDecimal { text: text@ },
            Request::UsdcAmount { text } => RequestView::UsdcAmount { text: text@ },
            Request::ParseTokenId { text } => RequestView::ParseTokenId { text: text@ },
            Request::PostLimitOrder { token_id, size, price, side } => RequestView::PostLimitOrder {
                token_id: token_id@,
                size: size@,
                price: price@,
                side: *side,
            },
            Request::PostMarketOrder { token_id, amount, side, order_type } => RequestView::PostMarketOrder {
                token_id: token_id@,
                amount: amount@,
                side: *side,
                order_type: *order_type,
            },
            Request::CancelOrder { order_id } => RequestView::CancelOrder { order_id: order_id@ },
            Request::ListMarkets => RequestView::ListMarkets,
        }
    }
}

/// How a call failed: the message of the failure itself, and the message
/// followed by those of its causes.
#[derive(Debug, PartialEq, Eq)]
pub struct Fault {
    pub summary: String,
    pub detail: String,
}

pub ghost struct FaultView {
    pub summary: Seq<char>,
    pub detail: Seq<char>,
}

impl View for Fault {
    type V = FaultView;

    open spec fn view(&self) -> FaultView {
        FaultView { summary: self.summary@, detail: self.detail@ }
    }
}

/// What the host reports of the call it was asked to make.
#[derive(Debug, PartialEq, Eq)]
pub enum Event {
    /// The call succeeded and has nothing to report.
    Done,
    /// The balance query gave these, both as the client prints them.
    Balance { balance: String, allowances: String },
    /// The order was accepted; `response` is the client's account of it.
    Submitted { response: String },
    /// The listing held `count` markets.
    Markets { count: u64 },
    /// The call failed.
    Failed { failure: Fault },
}

pub ghost enum EventView {
    Done,
    Balance { balance: Seq<char>, allowances: Seq<char> },
    Submitted { response: Seq<char> },
    Markets { count: nat },
    Failed { failure: FaultView },
}

impl View for Event {
    type V = EventView;

    open spec fn view(&self) -> EventView {
        match self {
            Event::Done => EventView::Done,
            Event::Balance { balance, allowances } => EventView::Balance {
                balance: balance@,
                allowances: allowances@,
            },
            Event::Submitted { response } => EventView::Submitted { response: response@ },
            Event::Markets { count } => EventView::Markets { count: *count as nat },
            Event::Failed { failure } => EventView::Failed { failure: failure@ },
        }
    }
}

/// The failure that stands for a report of the wrong kind: a balance where
/// none was asked for, a bare success where a result was due, and the like.
pub open spec fn unexpected_reply() -> FaultView {
    FaultView {
        summary: "Unexpected reply from the exchange client"@,
        detail: "Unexpected reply from the exchange client"@,
    }
}

/// The failure that an event that does not answer the call amounts to: the
/// reported one, or `unexpected_reply` for a report of the wrong kind.
pub open spec fn failure_of(event: EventView) -> FaultView {
    match event {
        EventView::Failed { failure } => failure,
        _ => unexpected_reply(),
    }
}

} // verus!
