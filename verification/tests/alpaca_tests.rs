use trading_bot::alpaca::orders::{client_order_id, market_order_request, new_market_order, OrderSide, OrderType, TimeInForce};
use trading_bot::alpaca::stream::{
    frame_action, notice_action, DataNotice, FrameAction, FrameKind, LinkAction, LinkEvent, NoticeAction, Reconnector,
};
use trading_bot::strategy::Signal;

#[test]
fn hold_produces_no_order() {
    assert!(market_order_request("AAPL", Signal::Hold, 10, "x").is_none());
}

#[test]
fn approved_buy_becomes_market_day_order() {
    let req = market_order_request("AAPL", Signal::Buy, 10, "abc").unwrap();
    assert_eq!(req.symbol, "AAPL");
    assert_eq!(req.qty, "10");
    assert_eq!(req.side, OrderSide::Buy);
    assert_eq!(req.order_type, OrderType::Market);
    assert_eq!(req.time_in_force, TimeInForce::Day);
    assert!(req.limit_price.is_none());
    assert!(req.stop_price.is_none());
    assert_eq!(req.client_order_id.as_deref(), Some("tbot-abc"));
    let sell = market_order_request("MSFT", Signal::Sell, 1234567890, "t").unwrap();
    assert_eq!(sell.side, OrderSide::Sell);
    assert_eq!(sell.qty, "1234567890");
    assert_eq!(market_order_request("MSFT", Signal::Sell, 0, "t").unwrap().qty, "0");
    assert_eq!(client_order_id("42"), "tbot-42");
}

#[test]
fn backoff_doubles_to_thirty_and_resets() {
    let mut r = Reconnector::new();
    let mut delays = Vec::new();
    for _ in 0..7 {
        match r.on_event(LinkEvent::ConnectFailed) {
            LinkAction::RetryAfter(d) => delays.push(d),
            other => panic!("unexpected {:?}", other),
        }
    }
    assert_eq!(delays, vec![1, 2, 4, 8, 16, 30, 30]);
    assert_eq!(r.on_event(LinkEvent::Connected), LinkAction::Subscribe);
    assert_eq!(r.backoff_secs(), 1);
    assert_eq!(r.on_event(LinkEvent::SetupSendFailed), LinkAction::RetryAfter(2));
    assert_eq!(r.backoff_secs(), 1);
    assert_eq!(r.on_event(LinkEvent::Disconnected), LinkAction::RetryAfter(1));
    assert_eq!(r.backoff_secs(), 2);
    assert_eq!(r.on_event(LinkEvent::ReceiverClosed), LinkAction::Stop);
    assert_eq!(r.on_event(LinkEvent::InvalidUrl), LinkAction::Fail);
    assert_eq!(r.on_event(LinkEvent::AuthRejected), LinkAction::Fail);
}

#[test]
fn frames_and_notices() {
    assert_eq!(frame_action(FrameKind::Text), FrameAction::Process);
    assert_eq!(frame_action(FrameKind::Ping), FrameAction::Pong);
    assert_eq!(frame_action(FrameKind::Close), FrameAction::Reconnect);
    assert_eq!(frame_action(FrameKind::ReadError), FrameAction::Reconnect);
    assert_eq!(frame_action(FrameKind::End), FrameAction::Reconnect);
    assert_eq!(frame_action(FrameKind::Other), FrameAction::Ignore);
    assert_eq!(notice_action(DataNotice::Error { code: 401 }), NoticeAction::Abort);
    assert_eq!(notice_action(DataNotice::Error { code: 402 }), NoticeAction::Abort);
    assert_eq!(notice_action(DataNotice::Error { code: 406 }), NoticeAction::Log);
    assert_eq!(notice_action(DataNotice::Success), NoticeAction::Log);
    assert_eq!(notice_action(DataNotice::Subscription), NoticeAction::Log);
    assert_eq!(notice_action(DataNotice::Bar), NoticeAction::ForwardBar);
    assert_eq!(notice_action(DataNotice::Unknown), NoticeAction::Warn);
}

#[test]
fn fresh_orders_get_random_client_ids() {
    assert!(new_market_order("AAPL", Signal::Hold, 5).is_none());
    let a = new_market_order("AAPL", Signal::Buy, 5).unwrap();
    let b = new_market_order("AAPL", Signal::Buy, 5).unwrap();
    let ida = a.client_order_id.unwrap();
    let idb = b.client_order_id.unwrap();
    assert!(ida.starts_with("tbot-"));
    assert_eq!(ida.len(), 41);
    assert_ne!(ida, idb);
    assert_eq!(a.qty, "5");
    assert_eq!(a.side, OrderSide::Buy);
}

#[test]
fn stream_urls_are_checked() {
    let r = Reconnector::new();
    assert_eq!(r.check_url("wss://paper-api.alpaca.markets/stream"), None);
    assert_eq!(r.check_url("not a url"), Some(LinkAction::Fail));
    assert_eq!(r.check_url(""), Some(LinkAction::Fail));
}

#[test]
fn client_ids_carry_a_version_four_uuid() {
    for _ in 0..20 {
        let req = new_market_order("MSFT", Signal::Sell, 3).unwrap();
        let id = req.client_order_id.unwrap();
        let token: Vec<char> = id.chars().skip(5).collect();
        assert_eq!(token.len(), 36);
        for (i, c) in token.iter().enumerate() {
            if i == 8 || i == 13 || i == 18 || i == 23 {
                assert_eq!(*c, '-');
            } else {
                assert!(c.is_ascii_digit() || ('a'..='f').contains(c), "{}", id);
            }
        }
        assert_eq!(token[14], '4');
        assert!(['8', '9', 'a', 'b'].contains(&token[19]));
    }
}

#[test]
fn backoff_stays_between_one_and_thirty() {
    let mut r = Reconnector::new();
    for _ in 0..50 {
        r.on_event(LinkEvent::ConnectFailed);
        assert!(r.backoff_secs() >= 1 && r.backoff_secs() <= 30);
    }
    r.on_event(LinkEvent::Connected);
    assert_eq!(r.backoff_secs(), 1);
}
