//! The account data that a refresh fetches: balances and positions. Money is
//! held in cents.
use vstd::prelude::*;

use crate::error::SessionError;

verus! {

/// Buying power of a margin account, in cents.
#[derive(Clone, Copy, Debug, PartialEq, Eq, Structural)]
pub struct Margin {
    pub stock_buying_power: i64,
    pub option_buying_power: i64,
}

/// Account-level figures from one fetch, in cents. A cash account has no
/// margin record; that is a normal state, not a fault.
#[derive(Clone, Debug)]
pub struct Balances {
    pub account_number: String,
    pub market_value: i64,
    pub total_cash: i64,
    pub open_pl: i64,
    pub total_equity: i64,
    pub margin: Option<Margin>,
}

/// One open holding. `cost_basis` is in cents; `date_acquired` is the date
/// as the broker wrote it.
#[derive(Clone, Debug)]
pub struct Position {
    pub symbol: String,
    pub quantity: i64,
    pub cost_basis: i64,
    pub date_acquired: String,
}

/// A figure that the balances view shows.
#[derive(Clone, Copy, Debug, PartialEq, Eq, Structural)]
pub enum BalanceField {
    AccountNumber,
    MarketValue,
    TotalCash,
    StockBuyingPower,
    OpenPl,
    TotalEquity,
    OptionBuyingPower,
}

/// The fields of the balances view in display order: the buying-power
/// figures appear only where there is a margin record.
pub open spec fn balance_layout(has_margin: bool) -> Seq<BalanceField> {
    if has_margin {
        seq![
            BalanceField::AccountNumber,
            BalanceField::MarketValue,
            BalanceField::TotalCash,
            BalanceField::StockBuyingPower,
            BalanceField::OpenPl,
            BalanceField::TotalEquity,
            BalanceField::OptionBuyingPower,
        ]
    } else {
        seq![
            BalanceField::AccountNumber,
            BalanceField::MarketValue,
            BalanceField::TotalCash,
            BalanceField::OpenPl,
            BalanceField::TotalEquity,
        ]
    }
}

impl Balances {
    /// The fields to show for these balances. A cash account yields the
    /// view without buying power rather than an error.
    pub fn fields(&self) -> (r: Vec<BalanceField>)
        ensures
            r@ == balance_layout(self.margin is Some),
    {
        let mut r: Vec<BalanceField> = Vec::new();
        r.push(BalanceField::AccountNumber);
        r.push(BalanceField::MarketValue);
        r.push(BalanceField::TotalCash);
        if self.margin.is_some() {
            r.push(BalanceField::StockBuyingPower);
        }
        r.push(BalanceField::OpenPl);
        r.push(BalanceField::TotalEquity);
        if self.margin.is_some() {
            r.push(BalanceField::OptionBuyingPower);
        }
        r
    }

    /// The margin record, for a view that cannot do without it.
    pub fn require_margin(&self) -> (r: Result<Margin, SessionError>)
        ensures
            self.margin matches Some(m) ==> r == Ok::<Margin, SessionError>(m),
            self.margin is None ==> r == Err::<Margin, SessionError>(SessionError::MissingMargin),
    {
        match self.margin {
            Some(m) => Ok(m),
            None => Err(SessionError::MissingMargin),
        }
    }

    /// The amount that a field shows, in cents; `None` for the account
    /// number, which is text, and for a buying-power field without margin.
    pub fn amount(&self, field: BalanceField) -> (r: Option<i64>)
        ensures
            r == match field {
                BalanceField::AccountNumber => None,
                BalanceField::MarketValue => Some(self.market_value),
                BalanceField::TotalCash => Some(self.total_cash),
                BalanceField::OpenPl => Some(self.open_pl),
                BalanceField::TotalEquity => Some(self.total_equity),
                BalanceField::StockBuyingPower => match self.margin {
                    Some(m) => Some(m.stock_buying_power),
                    None => None,
                },
                BalanceField::OptionBuyingPower => match self.margin {
                    Some(m) => Some(m.option_buying_power),
                    None => None,
                },
            },
    {
        match field {
            BalanceField::AccountNumber => None,
            BalanceField::MarketValue => Some(self.market_value),
            BalanceField::TotalCash => Some(self.total_cash),
            BalanceField::OpenPl => Some(self.open_pl),
            BalanceField::TotalEquity => Some(self.total_equity),
            BalanceField::StockBuyingPower => match self.margin {
                Some(m) => Some(m.stock_buying_power),
                None => None,
            },
            BalanceField::OptionBuyingPower => match self.margin {
                Some(m) => Some(m.option_buying_power),
                None => None,
            },
        }
    }
}

} // verus!
