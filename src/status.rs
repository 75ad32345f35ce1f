//! Order statuses and the per-status visibility configuration.
use vstd::prelude::*;

verus! {

/// The status of an order as the broker reports it. The set is closed: every
/// consumer matches on all eleven values.
#[derive(Clone, Copy, Debug, PartialEq, Eq, Structural)]
pub enum OrderStatus {
    Pending,
    Open,
    PartiallyFilled,
    Filled,
    Expired,
    Canceled,
    Rejected,
    Calculated,
    AcceptedForBidding,
    Error,
    Held,
}

/// Statuses after which the broker reports no further change.
pub open spec fn terminal(s: OrderStatus) -> bool {
    ||| s == OrderStatus::Filled
    ||| s == OrderStatus::Canceled
    ||| s == OrderStatus::Expired
    ||| s == OrderStatus::Rejected
    ||| s == OrderStatus::Error
    ||| s == OrderStatus::Calculated
}

impl OrderStatus {
    /// Whether the order is finished: filled, canceled, expired, rejected,
    /// in error or calculated.
    pub fn is_terminal(&self) -> (r: bool)
        ensures
            r == terminal(*self),
    {
        match self {
            OrderStatus::Pending => false,
            OrderStatus::Open => false,
            OrderStatus::PartiallyFilled => false,
            OrderStatus::Filled => true,
            OrderStatus::Expired => true,
            OrderStatus::Canceled => true,
            OrderStatus::Rejected => true,
            OrderStatus::Calculated => true,
            OrderStatus::AcceptedForBidding => false,
            OrderStatus::Error => true,
            OrderStatus::Held => false,
        }
    }
}

/// Statuses shown before the user changes anything: the orders that still
/// need attention.
pub open spec fn shown_by_default(s: OrderStatus) -> bool {
    s == OrderStatus::Pending || s == OrderStatus::Open || s == OrderStatus::PartiallyFilled
}

/// One visibility flag per order status.
#[derive(Clone, Copy, Debug, PartialEq, Eq, Structural)]
pub struct OrderFilters {
    pending: bool,
    canceled: bool,
    filled: bool,
    open: bool,
    partially_filled: bool,
    expired: bool,
    rejected: bool,
    calculated: bool,
    accepted_for_bidding: bool,
    error: bool,
    held: bool,
}

impl OrderFilters {
    /// Whether orders with status `s` are shown under this configuration.
    pub closed spec fn shows(self, s: OrderStatus) -> bool {
        match s {
            OrderStatus::Pending => self.pending,
            OrderStatus::Open => self.open,
            OrderStatus::PartiallyFilled => self.partially_filled,
            OrderStatus::Filled => self.filled,
            OrderStatus::Expired => self.expired,
            OrderStatus::Canceled => self.canceled,
            OrderStatus::Rejected => self.rejected,
            OrderStatus::Calculated => self.calculated,
            OrderStatus::AcceptedForBidding => self.accepted_for_bidding,
            OrderStatus::Error => self.error,
            OrderStatus::Held => self.held,
        }
    }

    /// A configuration that shows no status at all.
    pub fn hide_all() -> (r: OrderFilters)
        ensures
            forall|s: OrderStatus| !#[trigger] r.shows(s),
    {
        OrderFilters {
            pending: false,
            canceled: false,
            filled: false,
            open: false,
            partially_filled: false,
            expired: false,
            rejected: false,
            calculated: false,
            accepted_for_bidding: false,
            error: false,
            held: false,
        }
    }

    /// Whether an order with status `status` is visible. Every status has its
    /// own arm, so a new status cannot fall through to a default.
    pub fn is_visible(&self, status: OrderStatus) -> (r: bool)
        ensures
            r == self.shows(status),
    {
        match status {
            OrderStatus::Pending => self.pending,
            OrderStatus::Open => self.open,
            OrderStatus::PartiallyFilled => self.partially_filled,
            OrderStatus::Filled => self.filled,
            OrderStatus::Expired => self.expired,
            OrderStatus::Canceled => self.canceled,
            OrderStatus::Rejected => self.rejected,
            OrderStatus::Calculated => self.calculated,
            OrderStatus::AcceptedForBidding => self.accepted_for_bidding,
            OrderStatus::Error => self.error,
            OrderStatus::Held => self.held,
        }
    }

    /// Shows or hides one status and leaves the others as they were.
    pub fn set_visible(&mut self, status: OrderStatus, visible: bool)
        ensures
            final(self).shows(status) == visible,
            forall|s: OrderStatus| s != status ==> #[trigger] final(self).shows(s) == old(self).shows(s),
    {
        match status {
            OrderStatus::Pending => self.pending = visible,
            OrderStatus::Open => self.open = visible,
            OrderStatus::PartiallyFilled => self.partially_filled = visible,
            OrderStatus::Filled => self.filled = visible,
            OrderStatus::Expired => self.expired = visible,
            OrderStatus::Canceled => self.canceled = visible,
            OrderStatus::Rejected => self.rejected = visible,
            OrderStatus::Calculated => self.calculated = visible,
            OrderStatus::AcceptedForBidding => self.accepted_for_bidding = visible,
            OrderStatus::Error => self.error = visible,
            OrderStatus::Held => self.held = visible,
        }
    }
}

impl Default for OrderFilters {
    /// Pending, open and partially filled orders are shown; all others are
    /// hidden.
    fn default() -> (r: OrderFilters)
        ensures
            forall|s: OrderStatus| #[trigger] r.shows(s) == shown_by_default(s),
    {
        OrderFilters {
            pending: true,
            canceled: false,
            filled: false,
            open: true,
            partially_filled: true,
            expired: false,
            rejected: false,
            calculated: false,
            accepted_for_bidding: false,
            error: false,
            held: false,
        }
    }
}

} // verus!
