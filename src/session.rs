//! The session store: the one owner of everything a dashboard session
//! mutates. Snapshots are replaced whole, never field by field.
use vstd::prelude::*;

use crate::order::{
    filter_orders, visible_orders, Duration, Order, OrderRequest, OrderType, PlaceOrderState,
    SecurityClass, Side, SUBMIT_QUANTITY,
};
use crate::snapshot::{Balances, Position};
use crate::status::{shown_by_default, OrderFilters, OrderStatus};

verus! {

/// The page the dashboard shows.
#[derive(Clone, Copy, Debug, PartialEq, Eq, Structural)]
pub enum Page {
    Balance,
    Portfolio,
    Orders,
    PlaceOrder,
}

/// The two broker environments.
#[derive(Clone, Copy, Debug, PartialEq, Eq, Structural)]
pub enum Endpoint {
    Sandbox,
    Production,
}

pub open spec fn endpoint_url(e: Endpoint) -> Seq<char> {
    match e {
        Endpoint::Sandbox => "https://sandbox.tradier.com"@,
        Endpoint::Production => "https://www.tradier.com"@,
    }
}

impl Endpoint {
    /// The base URL of the environment.
    pub fn base_url(&self) -> (r: &'static str)
        ensures
            r@ == endpoint_url(*self),
    {
        match self {
            Endpoint::Sandbox => "https://sandbox.tradier.com",
            Endpoint::Production => "https://www.tradier.com",
        }
    }
}

/// How the session logs in: an API token and an environment, both editable
/// while the session runs.
#[derive(Clone, Debug)]
pub struct Credentials {
    pub token: String,
    pub endpoint: Endpoint,
}

/// The three resources a refresh fetches.
#[derive(Clone, Copy, Debug, PartialEq, Eq, Structural)]
pub enum Resource {
    Balances,
    Positions,
    Orders,
}

/// A complete result of one fetch.
#[derive(Clone, Debug)]
pub enum Snapshot {
    Balances(Balances),
    Positions(Vec<Position>),
    Orders(Vec<Order>),
}

/// What a session holds, as values.
pub struct SessionView {
    pub balances: Option<Balances>,
    pub positions: Option<Seq<Position>>,
    pub orders: Option<Seq<Order>>,
    pub credentials: Credentials,
    pub page: Page,
    pub order_symbol: Seq<char>,
    pub debug_text: Seq<char>,
    pub order_filters: OrderFilters,
    pub draft: PlaceOrderState,
    /// A submission was sent off and its workflow has not finished the
    /// mutation yet.
    pub submitting: bool,
}

impl SessionView {
    /// The session after `snap` was committed: the snapshot of its resource
    /// is replaced whole, the diagnostic text is cleared, and nothing else
    /// changes.
    pub open spec fn install(self, snap: Snapshot) -> SessionView {
        match snap {
            Snapshot::Balances(b) => SessionView {
                balances: Some(b),
                debug_text: Seq::empty(),
                ..self
            },
            Snapshot::Positions(p) => SessionView {
                positions: Some(p@),
                debug_text: Seq::empty(),
                ..self
            },
            Snapshot::Orders(o) => SessionView {
                orders: Some(o@),
                debug_text: Seq::empty(),
                ..self
            },
        }
    }

    /// The session with `text` as its diagnostic and nothing else changed.
    pub open spec fn with_text(self, text: Seq<char>) -> SessionView {
        SessionView { debug_text: text, ..self }
    }

    /// The session showing `page` and nothing else changed.
    pub open spec fn on_page(self, page: Page) -> SessionView {
        SessionView { page: page, ..self }
    }

    /// The three snapshots are those of `other`.
    pub open spec fn same_snapshots(self, other: SessionView) -> bool {
        &&& self.balances == other.balances
        &&& self.positions == other.positions
        &&& self.orders == other.orders
    }
}

/// Two commits in a row, in either order, never mix two fetches: each
/// resource then holds the snapshot of the later commit for it, or of the
/// earlier one, or what it held before, and always one of them whole.
pub proof fn lemma_commits_replace_whole(v: SessionView, a: Snapshot, b: Snapshot)
    ensures
        v.install(a).install(b).balances == match b {
            Snapshot::Balances(x) => Some(x),
            _ => match a {
                Snapshot::Balances(x) => Some(x),
                _ => v.balances,
            },
        },
        v.install(a).install(b).positions == match b {
            Snapshot::Positions(x) => Some(x@),
            _ => match a {
                Snapshot::Positions(x) => Some(x@),
                _ => v.positions,
            },
        },
        v.install(a).install(b).orders == match b {
            Snapshot::Orders(x) => Some(x@),
            _ => match a {
                Snapshot::Orders(x) => Some(x@),
                _ => v.orders,
            },
        },
{
}

/// The mutable record of one dashboard session.
pub struct State {
    balance: Option<Balances>,
    positions: Option<Vec<Position>>,
    orders: Option<Vec<Order>>,
    config: Credentials,
    page: Page,
    order_symbol: String,
    debug_text: String,
    order_filters: OrderFilters,
    place_order_state: PlaceOrderState,
    submission_in_flight: bool,
}

impl View for State {
    type V = SessionView;

    closed spec fn view(&self) -> SessionView {
        SessionView {
            balances: self.balance,
            positions: match self.positions {
                Some(p) => Some(p@),
                None => None,
            },
            orders: match self.orders {
                Some(o) => Some(o@),
                None => None,
            },
            credentials: self.config,
            page: self.page,
            order_symbol: self.order_symbol@,
            debug_text: self.debug_text@,
            order_filters: self.order_filters,
            draft: self.place_order_state,
            submitting: self.submission_in_flight,
        }
    }
}

impl State {
    /// A fresh session: nothing fetched yet, on the balances page, with the
    /// default filters and an equity market-order draft.
    pub fn new(config: Credentials) -> (r: State)
        ensures
            r@.balances is None,
            r@.positions is None,
            r@.orders is None,
            r@.credentials == config,
            r@.page == Page::Balance,
            r@.order_symbol.len() == 0,
            r@.debug_text.len() == 0,
            forall|s: OrderStatus| #[trigger] r@.order_filters.shows(s) == shown_by_default(s),
            r@.draft.security_type == SecurityClass::Equity,
            r@.draft.order_type == OrderType::Market,
            !r@.submitting,
    {
        State {
            balance: None,
            positions: None,
            orders: None,
            config,
            page: Page::Balance,
            order_symbol: String::new(),
            debug_text: String::new(),
            order_filters: OrderFilters::default(),
            place_order_state: PlaceOrderState::default(),
            submission_in_flight: false,
        }
    }

    /// Commits one fetched snapshot: its resource is replaced whole, in one
    /// step, and the diagnostic text is cleared.
    pub fn install(&mut self, snap: Snapshot)
        ensures
            final(self)@ == old(self)@.install(snap),
    {
        match snap {
            Snapshot::Balances(b) => {
                self.balance = Some(b);
            },
            Snapshot::Positions(p) => {
                self.positions = Some(p);
            },
            Snapshot::Orders(o) => {
                self.orders = Some(o);
            },
        }
        self.debug_text = String::new();
    }

    /// Commits one fetched snapshot, replacing its resource whole, and
    /// leaves the diagnostic text as it is.
    pub fn install_keeping_text(&mut self, snap: Snapshot)
        ensures
            final(self)@ == old(self)@.install(snap).with_text(old(self)@.debug_text),
    {
        match snap {
            Snapshot::Balances(b) => {
                self.balance = Some(b);
            },
            Snapshot::Positions(p) => {
                self.positions = Some(p);
            },
            Snapshot::Orders(o) => {
                self.orders = Some(o);
            },
        }
    }

    /// Records the outcome of the last operation for the user to read.
    pub fn report(&mut self, text: String)
        ensures
            final(self)@ == old(self)@.with_text(text@),
    {
        self.debug_text = text;
    }

    /// Switches to another page.
    pub fn set_page(&mut self, page: Page)
        ensures
            final(self)@ == old(self)@.on_page(page),
    {
        self.page = page;
    }

    /// Switches to `page` and names the resource to refresh for it: the
    /// balances, positions or orders page refreshes what it shows; the order
    /// form refreshes nothing.
    pub fn open_page(&mut self, page: Page) -> (r: Option<Resource>)
        ensures
            final(self)@ == old(self)@.on_page(page),
            r == match page {
                Page::Balance => Some(Resource::Balances),
                Page::Portfolio => Some(Resource::Positions),
                Page::Orders => Some(Resource::Orders),
                Page::PlaceOrder => None::<Resource>,
            },
    {
        self.page = page;
        match page {
            Page::Balance => Some(Resource::Balances),
            Page::Portfolio => Some(Resource::Positions),
            Page::Orders => Some(Resource::Orders),
            Page::PlaceOrder => None,
        }
    }

    /// Whether no balances have been fetched yet, so that a first refresh is
    /// due.
    pub fn needs_initial_refresh(&self) -> (r: bool)
        ensures
            r == (self@.balances is None),
    {
        self.balance.is_none()
    }

    /// The orders that the current filters show, in fetch order; none where
    /// no orders have been fetched yet.
    pub fn visible_orders(&self) -> (r: Vec<&Order>)
        ensures
            r@.map_values(|o: &Order| *o) == match self@.orders {
                Some(o) => visible_orders(o, self@.order_filters),
                None => Seq::empty(),
            },
    {
        match &self.orders {
            Some(o) => filter_orders(o.as_slice(), &self.order_filters),
            None => Vec::new(),
        }
    }
    /// The order that submitting the current draft sends, for the symbol
    /// typed into the session.
    pub fn order_request(&self) -> (r: OrderRequest)
        ensures
            r.class == self@.draft.security_type,
            r.symbol@ == self@.order_symbol,
            r.side == Side::Buy,
            r.quantity == SUBMIT_QUANTITY,
            r.order_type == self@.draft.order_type,
            r.duration == Duration::Gtc,
    {
        self.place_order_state.request(self.order_symbol.clone())
    }

    /// Starts a submission of the current draft: the order to send, or
    /// `None` while an earlier submission is still in flight, so that
    /// repeated clicks send one order.
    pub fn begin_submission(&mut self) -> (r: Option<OrderRequest>)
        ensures
            old(self)@.submitting ==> r is None && final(self)@ == old(self)@,
            !old(self)@.submitting ==> r is Some && final(self)@ == (SessionView {
                submitting: true,
                ..old(self)@
            }),
            r matches Some(req) ==> {
                &&& req.class == old(self)@.draft.security_type
                &&& req.symbol@ == old(self)@.order_symbol
                &&& req.side == Side::Buy
                &&& req.quantity == SUBMIT_QUANTITY
                &&& req.order_type == old(self)@.draft.order_type
                &&& req.duration == Duration::Gtc
            },
    {
        if self.submission_in_flight {
            None
        } else {
            self.submission_in_flight = true;
            Some(self.order_request())
        }
    }

    /// Ends a submission: the orders page is shown and a new submission may
    /// start.
    pub fn end_submission(&mut self)
        ensures
            final(self)@ == (SessionView { page: Page::Orders, submitting: false, ..old(self)@ }),
    {
        self.page = Page::Orders;
        self.submission_in_flight = false;
    }

    pub fn balances(&self) -> (r: Option<&Balances>)
        ensures
            match r {
                Some(b) => self@.balances == Some(*b),
                None => self@.balances is None,
            },
    {
        self.balance.as_ref()
    }

    pub fn positions(&self) -> (r: Option<&Vec<Position>>)
        ensures
            match r {
                Some(p) => self@.positions == Some(p@),
                None => self@.positions is None,
            },
    {
        self.positions.as_ref()
    }

    pub fn orders(&self) -> (r: Option<&Vec<Order>>)
        ensures
            match r {
                Some(o) => self@.orders == Some(o@),
                None => self@.orders is None,
            },
    {
        self.orders.as_ref()
    }

    pub fn credentials(&self) -> (r: &Credentials)
        ensures
            *r == self@.credentials,
    {
        &self.config
    }

    /// Replaces the login settings; everything fetched stays.
    pub fn set_credentials(&mut self, config: Credentials)
        ensures
            final(self)@ == (SessionView { credentials: config, ..old(self)@ }),
    {
        self.config = config;
    }

    pub fn page(&self) -> (r: Page)
        ensures
            r == self@.page,
    {
        self.page
    }

    pub fn debug_text(&self) -> (r: &str)
        ensures
            r@ == self@.debug_text,
    {
        self.debug_text.as_str()
    }

    pub fn order_filters(&self) -> (r: OrderFilters)
        ensures
            r == self@.order_filters,
    {
        self.order_filters
    }

    /// Shows or hides the orders with one status.
    pub fn set_order_visible(&mut self, status: OrderStatus, visible: bool)
        ensures
            final(self)@.order_filters.shows(status) == visible,
            forall|s: OrderStatus|
                s != status ==> #[trigger] final(self)@.order_filters.shows(s) == old(
                    self,
                )@.order_filters.shows(s),
            final(self)@ == (SessionView { order_filters: final(self)@.order_filters, ..old(self)@ }),
    {
        self.order_filters.set_visible(status, visible);
    }

    pub fn draft(&self) -> (r: PlaceOrderState)
        ensures
            r == self@.draft,
    {
        self.place_order_state
    }

    /// Replaces the order draft.
    pub fn set_draft(&mut self, draft: PlaceOrderState)
        ensures
            final(self)@ == (SessionView { draft: draft, ..old(self)@ }),
    {
        self.place_order_state = draft;
    }

    pub fn order_symbol(&self) -> (r: &str)
        ensures
            r@ == self@.order_symbol,
    {
        self.order_symbol.as_str()
    }

    /// Replaces the symbol typed into the order form.
    pub fn set_order_symbol(&mut self, symbol: String)
        ensures
            final(self)@ == (SessionView { order_symbol: symbol@, ..old(self)@ }),
    {
        self.order_symbol = symbol;
    }
}

} // verus!
