use bittrade_websockets::control::control::ControlCommand;
use bittrade_websockets::exchanges::binance::commands::Command;
use bittrade_websockets::exchanges::exchange::exchange_name::ExchangeName;

#[test]
fn test_try_from_add_pair() {
    let control_command = ControlCommand::AddPair(ExchangeName::Binance, "BTCUSD".to_string());
    let command = Command::try_from(control_command);
    assert!(matches!(command, Ok(Command::AddPair(pair)) if pair == "BTCUSD"));
}

#[test]
fn test_try_from_remove_pair() {
    let control_command = ControlCommand::RemovePair(ExchangeName::Binance, "BTCUSD".to_string());
    let command = Command::try_from(control_command);
    assert!(matches!(command, Ok(Command::RemovePair(pair)) if pair == "BTCUSD"));
}

#[test]
fn test_try_from_invalid_command() {
    let control_command = ControlCommand::AddKey("".to_owned(), "".to_owned());
    let command = Command::try_from(control_command);
    assert!(matches!(command, Err(())));
}

#[test]
fn try_from_remove_key_is_rejected() {
    let command = Command::try_from(ControlCommand::RemoveKey("k".to_owned()));
    assert!(matches!(command, Err(())));
}
