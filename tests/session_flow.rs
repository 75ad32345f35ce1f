use tradier_platform::account::resolve_account;
use tradier_platform::error::SessionError;
use tradier_platform::order::{Duration, Order, OrderType, PlaceOrderState, SecurityClass, Side};
use tradier_platform::session::{Credentials, Endpoint, Page, Resource, Snapshot, State};
use tradier_platform::snapshot::{BalanceField, Balances, Margin, Position};
use tradier_platform::status::OrderStatus;
use tradier_platform::workflow::{Action, Event, Flow, Operation};

fn session() -> State {
    State::new(Credentials { token: "sandbox-token".to_string(), endpoint: Endpoint::Sandbox })
}

fn balances(margin: Option<Margin>) -> Balances {
    Balances {
        account_number: "VA000001".to_string(),
        market_value: 125_050,
        total_cash: 40_000,
        open_pl: -1_225,
        total_equity: 165_050,
        margin,
    }
}

fn order(id: u64, status: OrderStatus, remaining: u64) -> Order {
    Order {
        id,
        symbol: "MSFT".to_string(),
        side: Side::Sell,
        quantity: 5,
        remaining_quantity: remaining,
        order_type: OrderType::Limit,
        duration: Duration::Gtc,
        status,
    }
}

fn account(number: &str) -> Event {
    Event::Account(resolve_account(&Ok(vec![number.to_string()])))
}

fn refresh(state: &mut State, resource: Resource, answer: Event) -> Action {
    let (mut flow, first) = Flow::start(Operation::Refresh(resource));
    assert!(matches!(first, Action::FetchProfile));
    let next = flow.step(state, account("VA000001"));
    match (resource, &next) {
        (Resource::Balances, Action::FetchBalances(n))
        | (Resource::Positions, Action::FetchPositions(n))
        | (Resource::Orders, Action::FetchOrders(n)) => assert_eq!(n.to_string(), "VA000001"),
        _ => panic!("unexpected action"),
    }
    let last = flow.step(state, answer);
    assert!(flow.is_done());
    last
}

#[test]
fn new_session_is_empty_on_balance_page() {
    let s = session();
    assert!(s.balances().is_none());
    assert!(s.positions().is_none());
    assert!(s.orders().is_none());
    assert_eq!(s.page(), Page::Balance);
    assert_eq!(s.debug_text(), "");
    assert_eq!(s.order_symbol(), "");
    assert!(s.needs_initial_refresh());
    assert_eq!(s.draft(), PlaceOrderState::default());
    assert!(s.order_filters().is_visible(OrderStatus::Open));
    assert!(!s.order_filters().is_visible(OrderStatus::Filled));
    assert!(s.visible_orders().is_empty());
}

#[test]
fn endpoints_have_their_urls() {
    assert_eq!(Endpoint::Sandbox.base_url(), "https://sandbox.tradier.com");
    assert_eq!(Endpoint::Production.base_url(), "https://www.tradier.com");
}

#[test]
fn resolve_takes_first_account_only() {
    let r = resolve_account(&Ok(vec!["VA111".to_string(), "VA222".to_string()]));
    assert_eq!(r.unwrap().to_string(), "VA111");
}

#[test]
fn resolve_fails_without_accounts() {
    assert!(matches!(resolve_account(&Ok(vec![])), Err(SessionError::ProfileUnavailable)));
    assert!(matches!(
        resolve_account(&Err("timeout".to_string())),
        Err(SessionError::ProfileUnavailable)
    ));
}

#[test]
fn resolve_refuses_malformed_account_numbers() {
    assert!(matches!(
        resolve_account(&Ok(vec!["   ".to_string()])),
        Err(SessionError::ProfileUnavailable)
    ));
    assert!(matches!(
        resolve_account(&Ok(vec!["".to_string()])),
        Err(SessionError::ProfileUnavailable)
    ));
    assert!(matches!(
        resolve_account(&Ok(vec!["VA\u{7}1".to_string(), "VA2".to_string()])),
        Err(SessionError::ProfileUnavailable)
    ));
}

#[test]
fn balance_refresh_commits_the_snapshot() {
    let mut s = session();
    s.report("stale".to_string());
    let last = refresh(&mut s, Resource::Balances, Event::Balances(Ok(balances(None))));
    assert!(matches!(last, Action::Finished));
    assert_eq!(s.balances().unwrap().total_cash, 40_000);
    assert_eq!(s.debug_text(), "");
    assert!(!s.needs_initial_refresh());
}

#[test]
fn failed_refresh_keeps_previous_snapshot() {
    let mut s = session();
    s.install(Snapshot::Balances(balances(None)));
    s.install(Snapshot::Orders(vec![order(1, OrderStatus::Open, 5)]));
    refresh(&mut s, Resource::Balances, Event::Balances(Err("HTTP 500".to_string())));
    assert_eq!(s.balances().unwrap().market_value, 125_050);
    assert_eq!(s.debug_text(), "HTTP 500");
    refresh(&mut s, Resource::Orders, Event::Orders(Err("decode".to_string())));
    assert_eq!(s.orders().unwrap().len(), 1);
    assert_eq!(s.debug_text(), "decode");
}

#[test]
fn empty_profile_fails_refresh_and_keeps_balances() {
    let mut s = session();
    s.install(Snapshot::Balances(balances(None)));
    let (mut flow, _) = Flow::start(Operation::Refresh(Resource::Balances));
    let resolved = resolve_account(&Ok(vec![]));
    assert!(matches!(resolved, Err(SessionError::ProfileUnavailable)));
    let next = flow.step(&mut s, Event::Account(resolved));
    assert!(matches!(next, Action::Finished));
    assert!(flow.is_done());
    assert_eq!(s.balances().unwrap().account_number, "VA000001");
    assert_eq!(s.debug_text(), "no account is available in the profile");
}

#[test]
fn position_refresh_replaces_the_whole_list() {
    let mut s = session();
    let old = vec![Position {
        symbol: "IBM".to_string(),
        quantity: 3,
        cost_basis: 45_000,
        date_acquired: "2021-01-04".to_string(),
    }];
    s.install(Snapshot::Positions(old));
    let fresh = vec![
        Position {
            symbol: "AAPL".to_string(),
            quantity: 10,
            cost_basis: 150_000,
            date_acquired: "2021-02-01".to_string(),
        },
        Position {
            symbol: "SPY".to_string(),
            quantity: 1,
            cost_basis: 38_000,
            date_acquired: "2021-03-15".to_string(),
        },
    ];
    refresh(&mut s, Resource::Positions, Event::Positions(Ok(fresh)));
    let held: Vec<&str> = s.positions().unwrap().iter().map(|p| p.symbol.as_str()).collect();
    assert_eq!(held, vec!["AAPL", "SPY"]);
}

#[test]
fn commits_back_to_back_never_mix() {
    let mut s = session();
    s.install(Snapshot::Orders(vec![order(1, OrderStatus::Open, 5), order(2, OrderStatus::Open, 5)]));
    s.install(Snapshot::Balances(balances(None)));
    s.install(Snapshot::Orders(vec![order(3, OrderStatus::Pending, 5)]));
    let ids: Vec<u64> = s.orders().unwrap().iter().map(|o| o.id).collect();
    assert_eq!(ids, vec![3]);
    assert_eq!(s.balances().unwrap().open_pl, -1_225);
}

#[test]
fn cancel_then_refresh_reflects_the_cancel() {
    let mut s = session();
    s.install(Snapshot::Orders(vec![order(7, OrderStatus::Open, 5), order(8, OrderStatus::Open, 5)]));
    let (mut flow, first) = Flow::start(Operation::Cancel(7));
    assert!(matches!(first, Action::FetchProfile));
    let act = flow.step(&mut s, account("VA9"));
    match act {
        Action::CancelOrder(n, id) => {
            assert_eq!(n.to_string(), "VA9");
            assert_eq!(id, 7);
        }
        _ => panic!("expected a cancel"),
    }
    let act = flow.step(&mut s, Event::Acknowledged(Ok(())));
    assert!(matches!(act, Action::FetchProfile));
    let act = flow.step(&mut s, account("VA9"));
    assert!(matches!(act, Action::FetchOrders(_)));
    let fresh = vec![order(7, OrderStatus::Canceled, 5), order(8, OrderStatus::Open, 5)];
    let act = flow.step(&mut s, Event::Orders(Ok(fresh)));
    assert!(matches!(act, Action::Finished));
    let seven: Vec<OrderStatus> =
        s.orders().unwrap().iter().filter(|o| o.id == 7).map(|o| o.status).collect();
    assert_eq!(seven, vec![OrderStatus::Canceled]);
    let visible: Vec<u64> = s.visible_orders().iter().map(|o| o.id).collect();
    assert_eq!(visible, vec![8]);
}

#[test]
fn failed_cancel_still_refreshes() {
    let mut s = session();
    let (mut flow, _) = Flow::start(Operation::Cancel(7));
    flow.step(&mut s, account("VA9"));
    let act = flow.step(&mut s, Event::Acknowledged(Err("order not found".to_string())));
    assert!(matches!(act, Action::FetchProfile));
    assert_eq!(s.debug_text(), "order not found");
    assert!(!flow.is_done());
    let act = flow.step(&mut s, account("VA9"));
    assert!(matches!(act, Action::FetchOrders(_)));
    let act = flow.step(&mut s, Event::Orders(Ok(vec![order(7, OrderStatus::Open, 5)])));
    assert!(matches!(act, Action::Finished));
    assert_eq!(s.orders().unwrap()[0].id, 7);
    assert_eq!(s.debug_text(), "order not found");
    assert_eq!(flow.failure(), Some(SessionError::GatewayError));
}

#[test]
fn failed_cancel_then_failed_refresh_shows_the_later_failure() {
    let mut s = session();
    let (mut flow, _) = Flow::start(Operation::Cancel(7));
    flow.step(&mut s, account("VA9"));
    flow.step(&mut s, Event::Acknowledged(Err("order not found".to_string())));
    flow.step(&mut s, account("VA9"));
    flow.step(&mut s, Event::Orders(Err("HTTP 503".to_string())));
    assert!(flow.is_done());
    assert_eq!(s.debug_text(), "HTTP 503");
    assert!(s.orders().is_none());
}

#[test]
fn failed_submission_stays_on_display_after_refresh() {
    let mut s = session();
    s.set_order_symbol("NFLX".to_string());
    let req = s.begin_submission().unwrap();
    let (mut flow, _) = Flow::start(Operation::Place(req));
    flow.step(&mut s, account("VA3"));
    flow.step(&mut s, Event::Acknowledged(Err("market closed".to_string())));
    flow.step(&mut s, account("VA3"));
    flow.step(&mut s, Event::Orders(Ok(vec![])));
    assert!(flow.is_done());
    assert_eq!(s.page(), Page::Orders);
    assert_eq!(s.orders().unwrap().len(), 0);
    assert_eq!(s.debug_text(), "market closed");
    assert!(s.begin_submission().is_some());
}

#[test]
fn successful_workflows_record_no_failure() {
    let mut s = session();
    s.report("old news".to_string());
    let (mut flow, _) = Flow::start(Operation::Cancel(4));
    flow.step(&mut s, account("VA9"));
    flow.step(&mut s, Event::Acknowledged(Ok(())));
    flow.step(&mut s, account("VA9"));
    flow.step(&mut s, Event::Orders(Ok(vec![order(4, OrderStatus::Canceled, 5)])));
    assert_eq!(flow.failure(), None);
    assert_eq!(s.debug_text(), "");
}

#[test]
fn refresh_outcomes_name_the_failure() {
    let mut s = session();
    let (mut flow, _) = Flow::start(Operation::Refresh(Resource::Positions));
    flow.step(&mut s, Event::Account(resolve_account(&Ok(vec![]))));
    assert_eq!(flow.failure(), Some(SessionError::ProfileUnavailable));
    let (mut flow, _) = Flow::start(Operation::Refresh(Resource::Positions));
    flow.step(&mut s, account("VA1"));
    flow.step(&mut s, Event::Positions(Err("timeout".to_string())));
    assert_eq!(flow.failure(), Some(SessionError::GatewayError));
}

#[test]
fn opening_a_page_names_its_refresh() {
    let mut s = session();
    assert_eq!(s.open_page(Page::Portfolio), Some(Resource::Positions));
    assert_eq!(s.page(), Page::Portfolio);
    assert_eq!(s.open_page(Page::Orders), Some(Resource::Orders));
    assert_eq!(s.open_page(Page::Balance), Some(Resource::Balances));
    assert_eq!(s.open_page(Page::PlaceOrder), None);
    assert_eq!(s.page(), Page::PlaceOrder);
}

#[test]
fn cancel_without_account_still_refreshes() {
    let mut s = session();
    let (mut flow, _) = Flow::start(Operation::Cancel(7));
    let act = flow.step(&mut s, Event::Account(resolve_account(&Ok(vec![]))));
    assert!(matches!(act, Action::FetchProfile));
    assert_eq!(s.debug_text(), "no account is available in the profile");
    assert_eq!(flow.target(), Resource::Orders);
}

#[test]
fn place_submits_draft_then_shows_orders() {
    let mut s = session();
    s.set_page(Page::PlaceOrder);
    s.set_order_symbol("TSLA".to_string());
    s.set_draft(PlaceOrderState { security_type: SecurityClass::Equity, order_type: OrderType::Limit });
    let req = s.begin_submission().unwrap();
    assert_eq!(req.symbol, "TSLA");
    assert_eq!(req.order_type, OrderType::Limit);
    assert!(s.begin_submission().is_none());
    let (mut flow, _) = Flow::start(Operation::Place(req));
    let act = flow.step(&mut s, account("VA5"));
    match act {
        Action::PlaceOrder(n, r) => {
            assert_eq!(n.to_string(), "VA5");
            assert_eq!(r.symbol, "TSLA");
            assert_eq!(r.quantity, 1);
            assert_eq!(r.side, Side::Buy);
            assert_eq!(r.duration, Duration::Gtc);
        }
        _ => panic!("expected a submission"),
    }
    assert_eq!(s.page(), Page::PlaceOrder);
    assert!(s.begin_submission().is_none());
    let act = flow.step(&mut s, Event::Acknowledged(Ok(())));
    assert!(matches!(act, Action::FetchProfile));
    assert_eq!(s.page(), Page::Orders);
    assert_eq!(s.order_request().symbol, "TSLA");
    flow.step(&mut s, account("VA5"));
    flow.step(&mut s, Event::Orders(Ok(vec![order(11, OrderStatus::Pending, 1)])));
    assert_eq!(s.orders().unwrap()[0].id, 11);
}

#[test]
fn answer_that_does_not_fit_ends_the_flow_without_change() {
    let mut s = session();
    s.install(Snapshot::Balances(balances(None)));
    let (mut flow, _) = Flow::start(Operation::Refresh(Resource::Balances));
    flow.step(&mut s, account("VA1"));
    let act = flow.step(&mut s, Event::Orders(Ok(vec![order(1, OrderStatus::Open, 5)])));
    assert!(matches!(act, Action::Finished));
    assert!(s.orders().is_none());
    assert_eq!(s.balances().unwrap().total_equity, 165_050);
}

#[test]
fn cash_account_balance_view_omits_buying_power() {
    let b = balances(None);
    assert_eq!(
        b.fields(),
        vec![
            BalanceField::AccountNumber,
            BalanceField::MarketValue,
            BalanceField::TotalCash,
            BalanceField::OpenPl,
            BalanceField::TotalEquity,
        ]
    );
    assert_eq!(b.amount(BalanceField::StockBuyingPower), None);
    assert_eq!(b.require_margin(), Err(SessionError::MissingMargin));
}

#[test]
fn margin_account_balance_view_shows_buying_power() {
    let m = Margin { stock_buying_power: 80_000, option_buying_power: 40_000 };
    let b = balances(Some(m));
    assert_eq!(
        b.fields(),
        vec![
            BalanceField::AccountNumber,
            BalanceField::MarketValue,
            BalanceField::TotalCash,
            BalanceField::StockBuyingPower,
            BalanceField::OpenPl,
            BalanceField::TotalEquity,
            BalanceField::OptionBuyingPower,
        ]
    );
    assert_eq!(b.amount(BalanceField::OptionBuyingPower), Some(40_000));
    assert_eq!(b.amount(BalanceField::MarketValue), Some(125_050));
    assert_eq!(b.amount(BalanceField::AccountNumber), None);
    assert_eq!(b.require_margin(), Ok(m));
}

#[test]
fn filters_and_credentials_are_editable() {
    let mut s = session();
    s.set_order_visible(OrderStatus::Filled, true);
    s.set_order_visible(OrderStatus::Open, false);
    s.install(Snapshot::Orders(vec![
        order(1, OrderStatus::Open, 5),
        order(2, OrderStatus::Filled, 0),
        order(3, OrderStatus::Pending, 5),
    ]));
    let visible: Vec<u64> = s.visible_orders().iter().map(|o| o.id).collect();
    assert_eq!(visible, vec![2, 3]);
    s.set_credentials(Credentials { token: "t".to_string(), endpoint: Endpoint::Production });
    assert_eq!(s.credentials().endpoint, Endpoint::Production);
    assert_eq!(s.orders().unwrap().len(), 3);
}

#[test]
fn failed_submission_still_frees_the_form() {
    let mut s = session();
    s.set_order_symbol("GE".to_string());
    let req = s.begin_submission().unwrap();
    let (mut flow, _) = Flow::start(Operation::Place(req));
    let act = flow.step(&mut s, Event::Account(resolve_account(&Err("HTTP 401".to_string()))));
    assert!(matches!(act, Action::FetchProfile));
    assert_eq!(s.page(), Page::Orders);
    let again = s.begin_submission().unwrap();
    assert_eq!(again.symbol, "GE");
}
