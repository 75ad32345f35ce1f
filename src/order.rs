//! Orders, order drafts, and the projection of an order list onto the
//! statuses that a filter configuration shows.
use vstd::prelude::*;

use crate::status::{OrderFilters, OrderStatus};

verus! {

/// Which way an order trades.
#[derive(Clone, Copy, Debug, PartialEq, Eq, Structural)]
pub enum Side {
    Buy,
    BuyToCover,
    Sell,
    SellShort,
    BuyToOpen,
    BuyToClose,
    SellToOpen,
    SellToClose,
}

/// How an order is priced.
#[derive(Clone, Copy, Debug, PartialEq, Eq, Structural)]
pub enum OrderType {
    Market,
    Limit,
    Stop,
    StopLimit,
    Debit,
    Credit,
    Even,
}

/// How long an order stays working.
#[derive(Clone, Copy, Debug, PartialEq, Eq, Structural)]
pub enum Duration {
    Day,
    Gtc,
    Pre,
    Post,
}

/// The kind of security an order is for.
#[derive(Clone, Copy, Debug, PartialEq, Eq, Structural)]
pub enum SecurityClass {
    Equity,
    Option,
}

/// One order as the broker reports it.
#[derive(Clone, Debug)]
pub struct Order {
    pub id: u64,
    pub symbol: String,
    pub side: Side,
    pub quantity: u64,
    pub remaining_quantity: u64,
    pub order_type: OrderType,
    pub duration: Duration,
    pub status: OrderStatus,
}

impl Order {
    /// The quantity filled so far: what was ordered less what remains.
    /// It is negative where the broker reports more remaining than ordered.
    pub open spec fn filled(self) -> int {
        self.quantity - self.remaining_quantity
    }

    pub fn filled_quantity(&self) -> (r: i128)
        ensures
            r == self.filled(),
    {
        self.quantity as i128 - self.remaining_quantity as i128
    }
}

/// The order form while it is open: what kind of security and which order
/// type. The symbol is typed into the session.
#[derive(Clone, Copy, Debug, PartialEq, Eq, Structural)]
pub struct PlaceOrderState {
    pub security_type: SecurityClass,
    pub order_type: OrderType,
}

impl Default for PlaceOrderState {
    /// An equity market order.
    fn default() -> (r: PlaceOrderState)
        ensures
            r.security_type == SecurityClass::Equity,
            r.order_type == OrderType::Market,
    {
        PlaceOrderState { security_type: SecurityClass::Equity, order_type: OrderType::Market }
    }
}

/// Shares bought when a draft is submitted.
pub const SUBMIT_QUANTITY: u64 = 1;

/// An order ready to send to the broker.
#[derive(Clone, Debug)]
pub struct OrderRequest {
    pub class: SecurityClass,
    pub symbol: String,
    pub side: Side,
    pub quantity: u64,
    pub order_type: OrderType,
    pub duration: Duration,
}

impl OrderRequest {
    /// A copy of this request.
    pub fn duplicate(&self) -> (r: OrderRequest)
        ensures
            r == *self,
    {
        OrderRequest {
            class: self.class,
            symbol: self.symbol.clone(),
            side: self.side,
            quantity: self.quantity,
            order_type: self.order_type,
            duration: self.duration,
        }
    }
}

impl PlaceOrderState {
    /// The order that submitting this draft for `symbol` sends: a buy of one
    /// share, good till canceled.
    pub fn request(&self, symbol: String) -> (r: OrderRequest)
        ensures
            r.class == self.security_type,
            r.symbol == symbol,
            r.side == Side::Buy,
            r.quantity == SUBMIT_QUANTITY,
            r.order_type == self.order_type,
            r.duration == Duration::Gtc,
    {
        OrderRequest {
            class: self.security_type,
            symbol,
            side: Side::Buy,
            quantity: SUBMIT_QUANTITY,
            order_type: self.order_type,
            duration: Duration::Gtc,
        }
    }
}

/// The orders of `s` whose status `cfg` shows, in their order in `s`.
pub open spec fn visible_orders(s: Seq<Order>, cfg: OrderFilters) -> Seq<Order> {
    s.filter(|o: Order| cfg.shows(o.status))
}

/// `sub` is `s` with some elements left out: an increasing map of positions
/// sends each element of `sub` to an equal element of `s`.
pub open spec fn is_subsequence_of(sub: Seq<Order>, s: Seq<Order>) -> bool {
    exists|pos: Seq<int>|
        {
            &&& #[trigger] pos.len() == sub.len()
            &&& forall|i: int| 0 <= i < pos.len() ==> 0 <= #[trigger] pos[i] < s.len()
            &&& forall|i: int, j: int| 0 <= i < j < pos.len() ==> pos[i] < pos[j]
            &&& forall|i: int| 0 <= i < sub.len() ==> #[trigger] sub[i] == s[pos[i]]
        }
}

/// The orders that `cfg` shows, by reference and in input order. The input is
/// never changed: filtering is a projection.
pub fn filter_orders<'a>(orders: &'a [Order], cfg: &OrderFilters) -> (r: Vec<&'a Order>)
    ensures
        r@.map_values(|o: &Order| *o) == visible_orders(orders@, *cfg),
{
    let mut r: Vec<&'a Order> = Vec::new();
    let mut i: usize = 0;
    while i < orders.len()
        invariant
            i <= orders@.len(),
            r@.map_values(|o: &Order| *o) == visible_orders(orders@.subrange(0, i as int), *cfg),
        decreases orders@.len() - i,
    {
        let o = &orders[i];
        proof {
            let pre = orders@.subrange(0, i as int);
            let next = orders@.subrange(0, i as int + 1);
            assert(next.drop_last() == pre);
            assert(next.last() == orders@[i as int]);
            reveal(Seq::filter);
        }
        if cfg.is_visible(o.status) {
            r.push(o);
        }
        i = i + 1;
    }
    assert(orders@.subrange(0, orders@.len() as int) == orders@);
    r
}


/// Filtering an already filtered list with the same configuration changes
/// nothing.
pub proof fn lemma_filter_idempotent(s: Seq<Order>, cfg: OrderFilters)
    ensures
        visible_orders(visible_orders(s, cfg), cfg) == visible_orders(s, cfg),
    decreases s.len(),
{
    reveal(Seq::filter);
    if s.len() > 0 {
        lemma_filter_idempotent(s.drop_last(), cfg);
        let rest = visible_orders(s.drop_last(), cfg);
        if cfg.shows(s.last().status) {
            let v = rest.push(s.last());
            assert(v.drop_last() == rest);
        }
    }
}

/// The visible orders are the orders of `s` that `cfg` shows, in the order
/// they have in `s`: each comes from `s`, is shown, and no shown order of `s`
/// is left out.
pub proof fn lemma_filter_keeps_order(s: Seq<Order>, cfg: OrderFilters)
    ensures
        is_subsequence_of(visible_orders(s, cfg), s),
        forall|i: int|
            0 <= i < visible_orders(s, cfg).len() ==> cfg.shows(
                #[trigger] visible_orders(s, cfg)[i].status,
            ),
        forall|i: int|
            0 <= i < s.len() && cfg.shows(s[i].status) ==> #[trigger] visible_orders(
                s,
                cfg,
            ).contains(s[i]),
    decreases s.len(),
{
    broadcast use vstd::seq_lib::group_filter_ensures;
    reveal(Seq::filter);
    if s.len() > 0 {
        lemma_filter_keeps_order(s.drop_last(), cfg);
        let rest = visible_orders(s.drop_last(), cfg);
        let pos = choose|pos: Seq<int>|
            {
                &&& #[trigger] pos.len() == rest.len()
                &&& forall|i: int| 0 <= i < pos.len() ==> 0 <= #[trigger] pos[i] < s.drop_last().len()
                &&& forall|i: int, j: int| 0 <= i < j < pos.len() ==> pos[i] < pos[j]
                &&& forall|i: int| 0 <= i < rest.len() ==> #[trigger] rest[i] == s.drop_last()[pos[i]]
            };
        if cfg.shows(s.last().status) {
            let v = rest.push(s.last());
            let p2 = pos.push(s.len() - 1);
            assert(p2.len() == v.len());
            assert forall|i: int| 0 <= i < v.len() implies #[trigger] v[i] == s[p2[i]] by {
                if i < rest.len() {
                    assert(rest[i] == s.drop_last()[pos[i]]);
                }
            }
            assert forall|i: int, j: int| 0 <= i < j < p2.len() implies p2[i] < p2[j] by {
                if j < pos.len() {
                    assert(pos[i] < pos[j]);
                } else {
                    assert(0 <= pos[i] < s.drop_last().len());
                }
            }
            assert forall|i: int| 0 <= i < p2.len() implies 0 <= #[trigger] p2[i] < s.len() by {
                if i < pos.len() {
                    assert(0 <= pos[i] < s.drop_last().len());
                }
            }
            assert(visible_orders(s, cfg) == v);
        } else {
            assert forall|i: int| 0 <= i < rest.len() implies #[trigger] rest[i] == s[pos[i]] by {
                assert(rest[i] == s.drop_last()[pos[i]]);
                assert(0 <= pos[i] < s.drop_last().len());
            }
            assert forall|i: int| 0 <= i < pos.len() implies 0 <= #[trigger] pos[i] < s.len() by {
                assert(0 <= pos[i] < s.drop_last().len());
            }
            assert(visible_orders(s, cfg) == rest);
        }
    } else {
        let pos = Seq::<int>::empty();
        assert(pos.len() == visible_orders(s, cfg).len());
    }
}

} // verus!
