use bittrade_websockets::control::control::{
    action_options, connection_route, connection_step, dispatch_route, socket_path,
    validate_pair_input, ConnectionRoute, ConnectionStep, ControlCommand, DispatchRoute,
    PromptEvent, PromptRequest, PromptStage, PromptState, ReadOutcome, DEFAULT_SOCKET_PATH,
};
use bittrade_websockets::exchanges::exchange::exchange_name::ExchangeName;

#[test]
fn socket_path_prefers_environment() {
    assert_eq!(socket_path(None), "/tmp/bittrade_websockets_control.sock");
    assert_eq!(socket_path(None), DEFAULT_SOCKET_PATH);
    assert_eq!(socket_path(Some("/x.sock".to_owned())), "/x.sock");
}

#[test]
fn pair_input_validation() {
    assert_eq!(validate_pair_input(&"".to_owned()), Err("Please provide pair.".to_owned()));
    assert_eq!(
        validate_pair_input(&"BTCUSDT".to_owned()),
        Err("Pair must contain separator. _".to_owned())
    );
    assert_eq!(validate_pair_input(&"BTC_USDT".to_owned()), Ok(()));
    assert_eq!(validate_pair_input(&"_".to_owned()), Ok(()));
}

#[test]
fn serve_is_offered_only_at_first() {
    let keys: Vec<&str> = action_options(true).iter().map(|o| o.0).collect();
    assert_eq!(keys, vec!["serve", "add_pair", "add_key", "remove_key"]);
    let keys: Vec<&str> = action_options(false).iter().map(|o| o.0).collect();
    assert_eq!(keys, vec!["add_pair", "add_key", "remove_key"]);
    assert_eq!(action_options(true)[1], ("add_pair", "Add pair", ""));
}

fn args(v: &[&str]) -> Vec<String> {
    v.iter().map(|s| s.to_string()).collect()
}

#[test]
fn serve_from_command_line() {
    let mut s = PromptState::new(args(&["prog", "serve"]));
    let a = match s.next_request() {
        PromptRequest::UseAction(a) => a,
        _ => panic!("expected the command-line action"),
    };
    assert_eq!(a, "serve");
    s.step(PromptEvent::ActionChosen(a));
    assert!(matches!(s.next_request(), PromptRequest::Serve));
}

#[test]
fn add_pair_dialogue() {
    let mut s = PromptState::new(args(&["prog"]));
    assert!(matches!(s.next_request(), PromptRequest::AskAction(true)));
    s.step(PromptEvent::ActionChosen("add_pair".to_owned()));
    assert!(matches!(s.next_request(), PromptRequest::Connect));
    s.step(PromptEvent::Connected);
    assert!(s.connected && !s.offer_serve && s.args.is_empty());
    assert!(matches!(s.next_request(), PromptRequest::AskExchange));
    s.step(PromptEvent::ExchangeChosen("binance".to_owned()));
    assert!(matches!(s.next_request(), PromptRequest::AskPair));
    s.step(PromptEvent::PairEntered("BTC_USDT".to_owned()));
    assert!(matches!(s.next_request(), PromptRequest::Send));
    assert!(matches!(
        &s.stage,
        PromptStage::Sending(ControlCommand::AddPair(ExchangeName::Binance, p)) if p == "BTC_USDT"
    ));
    s.step(PromptEvent::CommandSent);
    assert!(matches!(s.next_request(), PromptRequest::AskAction(false)));
    // No second connection for the next action.
    s.step(PromptEvent::ActionChosen("add_key".to_owned()));
    assert!(matches!(s.next_request(), PromptRequest::AskAction(false)));
}

#[test]
fn command_line_arguments_are_used_once() {
    let mut s = PromptState::new(args(&["prog", "remove_key", "x"]));
    assert!(matches!(s.next_request(), PromptRequest::UseAction(a) if a == "remove_key"));
    s.step(PromptEvent::ActionChosen("remove_key".to_owned()));
    s.step(PromptEvent::Connected);
    assert!(matches!(s.next_request(), PromptRequest::AskAction(false)));
}

#[test]
fn failed_send_ends_the_prompt() {
    let mut s = PromptState::new(args(&["prog", "add_pair"]));
    s.step(PromptEvent::ActionChosen("add_pair".to_owned()));
    s.step(PromptEvent::Connected);
    s.step(PromptEvent::ExchangeChosen("binance".to_owned()));
    s.step(PromptEvent::PairEntered("A_B".to_owned()));
    s.step(PromptEvent::SendFailed("broken pipe".to_owned()));
    assert!(matches!(s.next_request(), PromptRequest::Fail(m) if m == "broken pipe"));
}

#[test]
fn out_of_place_events_change_nothing() {
    let mut s = PromptState::new(args(&["prog"]));
    s.step(PromptEvent::CommandSent);
    s.step(PromptEvent::Connected);
    assert!(matches!(s.stage, PromptStage::ChooseAction));
    assert!(s.offer_serve && !s.connected);
}

#[test]
fn control_connection_routes() {
    let r = connection_route(ControlCommand::AddPair(ExchangeName::Binance, "A_B".to_owned()));
    assert!(matches!(r, ConnectionRoute::ForwardPair(ExchangeName::Binance, p) if p == "A_B"));
    let r = connection_route(ControlCommand::RemoveKey("k".to_owned()));
    assert!(matches!(r, ConnectionRoute::ReportOnly(ControlCommand::RemoveKey(k)) if k == "k"));
    assert!(matches!(connection_step(ReadOutcome::Io("eof".to_owned())), ConnectionStep::Close));
    assert!(matches!(connection_step(ReadOutcome::Other("x".to_owned())), ConnectionStep::Skip));
    assert!(matches!(
        connection_step(ReadOutcome::Command(ControlCommand::AddKey("p".to_owned(), "k".to_owned()))),
        ConnectionStep::Handle(ConnectionRoute::ReportOnly(_))
    ));
}

#[test]
fn dispatcher_routes() {
    let r = dispatch_route(ControlCommand::AddKey("BTC_USDT".to_owned(), "key".to_owned()));
    assert!(matches!(r, DispatchRoute::Accounts(t) if t == "BTC_USDT:key"));
    let r = dispatch_route(ControlCommand::RemoveKey("key".to_owned()));
    assert!(matches!(r, DispatchRoute::Accounts(t) if t == "key"));
    let r = dispatch_route(ControlCommand::AddPair(ExchangeName::Binance, "A_B".to_owned()));
    assert!(matches!(r, DispatchRoute::Pairs(t) if t == "A_B"));
    let r = dispatch_route(ControlCommand::RemovePair(ExchangeName::Binance, "A_B".to_owned()));
    assert!(matches!(r, DispatchRoute::Nowhere));
}
