use vstd::prelude::*;

use crate::exchanges::exchange::exchange_name::{exchange_named, ExchangeName};
use crate::text::{contains_text, has_infix, str_equal};

verus! {

/// A command sent to the running service over the control socket.
#[derive(Debug)]
pub enum ControlCommand {
    /// Watch a pair on an exchange.
    AddPair(ExchangeName, String),
    /// Register an account key for a pair.
    AddKey(String, String),
    /// Forget an account key.
    RemoveKey(String),
    /// Stop watching a pair on an exchange.
    RemovePair(ExchangeName, String),
}

/// What the prompt ends with.
#[derive(Debug)]
pub enum PromptResult {
    /// Start the server on the given control socket path.
    Serve(String),
    Exit,
}

/// Where the control socket lives when the environment names no path.
pub const DEFAULT_SOCKET_PATH: &'static str = "/tmp/bittrade_websockets_control.sock";

/// The character that separates the two currencies of a pair.
pub const PAIR_SEPARATOR: char = '_';

/// The control socket path: the one the environment gives, else the default.
pub fn socket_path(from_env: Option<String>) -> (r: String)
    ensures
        r@ == match from_env {
            Some(p) => p@,
            None => DEFAULT_SOCKET_PATH@,
        },
{
    match from_env {
        Some(p) => p,
        None => DEFAULT_SOCKET_PATH.to_owned(),
    }
}

/// The verdict on a pair typed at the prompt: it must be non-empty and hold
/// the separator.
pub open spec fn pair_input_verdict(input: Seq<char>) -> Result<(), Seq<char>> {
    if input.len() == 0 {
        Err("Please provide pair."@)
    } else if !has_infix(input, seq![PAIR_SEPARATOR]) {
        Err("Pair must contain separator. _"@)
    } else {
        Ok(())
    }
}

/// Checks a pair typed at the prompt; the error is the text shown to the user.
pub fn validate_pair_input(input: &String) -> (r: Result<(), String>)
    ensures
        match (r, pair_input_verdict(input@)) {
            (Ok(()), Ok(())) => true,
            (Err(m), Err(v)) => m@ == v,
            _ => false,
        },
{
    if input.as_str().unicode_len() == 0 {
        return Err("Please provide pair.".to_owned());
    }
    let found = contains_text(input.as_str(), "_");
    proof {
        reveal_strlit("_");
        assert("_"@ =~= seq![PAIR_SEPARATOR]);
    }
    if !found {
        Err("Pair must contain separator. _".to_owned())
    } else {
        Ok(())
    }
}

/// A typed pair is accepted exactly when it holds a `_` somewhere (and so is
/// not empty); it is refused as missing exactly when it is empty.
pub proof fn pair_input_accepts_every_separated_pair(input: Seq<char>)
    ensures
        (pair_input_verdict(input) is Ok) <==> (exists|i: int|
            0 <= i < input.len() && input[i] == PAIR_SEPARATOR),
        (pair_input_verdict(input) == Err::<(), Seq<char>>("Please provide pair."@)) <==> (
        input.len() == 0),
{
    reveal_strlit("Please provide pair.");
    reveal_strlit("Pair must contain separator. _");
    let sep = seq![PAIR_SEPARATOR];
    if exists|i: int| 0 <= i < input.len() && input[i] == PAIR_SEPARATOR {
        let i = choose|i: int| 0 <= i < input.len() && input[i] == PAIR_SEPARATOR;
        assert(input.subrange(i, i + sep.len()) =~= sep);
        assert(has_infix(input, sep));
    }
    if has_infix(input, sep) {
        let i = choose|i: int|
            0 <= i && i + sep.len() <= input.len() && #[trigger] input.subrange(i, i + sep.len())
                == sep;
        assert(input.subrange(i, i + 1)[0] == input[i]);
        assert(input[i] == PAIR_SEPARATOR);
    }
    assert("Please provide pair."@.len() != "Pair must contain separator. _"@.len());
}

/// The keys of the actions offered at the prompt, in the order shown.
pub open spec fn action_keys(offer_serve: bool) -> Seq<Seq<char>> {
    let rest = seq!["add_pair"@, "add_key"@, "remove_key"@];
    if offer_serve {
        seq!["serve"@] + rest
    } else {
        rest
    }
}

/// The actions offered at the prompt as (key, label, hint), in the order shown.
pub open spec fn action_entries(offer_serve: bool) -> Seq<(Seq<char>, Seq<char>, Seq<char>)> {
    let rest = seq![
        ("add_pair"@, "Add pair"@, ""@),
        ("add_key"@, "Add key"@, ""@),
        ("remove_key"@, "Remove key"@, ""@),
    ];
    if offer_serve {
        seq![("serve"@, "Serve"@, ""@)] + rest
    } else {
        rest
    }
}

/// The actions offered at the prompt as (key, label, hint); `serve` is offered
/// only before the first other action.
pub fn action_options(offer_serve: bool) -> (r: Vec<(&'static str, &'static str, &'static str)>)
    ensures
        r@.map_values(|o: (&'static str, &'static str, &'static str)| o.0@) == action_keys(
            offer_serve,
        ),
        r@.map_values(|o: (&'static str, &'static str, &'static str)| (o.0@, o.1@, o.2@))
            == action_entries(offer_serve),
{
    let mut r: Vec<(&'static str, &'static str, &'static str)> = Vec::new();
    if offer_serve {
        r.push(("serve", "Serve", ""));
    }
    r.push(("add_pair", "Add pair", ""));
    r.push(("add_key", "Add key", ""));
    r.push(("remove_key", "Remove key", ""));
    assert(r@.map_values(|o: (&'static str, &'static str, &'static str)| o.0@) =~= action_keys(
        offer_serve,
    ));
    assert(r@.map_values(|o: (&'static str, &'static str, &'static str)| (o.0@, o.1@, o.2@))
        =~= action_entries(offer_serve));
    r
}

/// Where the prompt is in handling one action.
pub enum PromptStage {
    /// Waiting for the next action.
    ChooseAction,
    /// An action other than `serve` waits for the control socket connection.
    Connecting(String),
    /// Adding a pair: waiting for the exchange.
    ChooseExchange,
    /// Adding a pair on the exchange with this key: waiting for the pair.
    EnterPair(String),
    /// A command waits to be written to the control socket.
    Sending(ControlCommand),
    /// The prompt ends: the service is to be served.
    Served,
    /// The prompt ends with this error.
    Failed(String),
}

/// The prompt's state between two interactions.
pub struct PromptState {
    pub stage: PromptStage,
    /// Command-line arguments; only read for the first action.
    pub args: Vec<String>,
    /// Whether `serve` is among the actions offered.
    pub offer_serve: bool,
    /// Whether the control socket is connected.
    pub connected: bool,
}

/// What happened since the prompt last asked for something.
pub enum PromptEvent {
    ActionChosen(String),
    Connected,
    ExchangeChosen(String),
    PairEntered(String),
    CommandSent,
    SendFailed(String),
}

/// What the prompt needs next.
pub enum PromptRequest {
    /// Act on this action, taken from the command line.
    UseAction(String),
    /// Ask the user for an action; whether `serve` is offered.
    AskAction(bool),
    /// Connect to the control socket.
    Connect,
    AskExchange,
    AskPair,
    /// Write the pending command to the control socket.
    Send,
    /// End: start the server.
    Serve,
    /// End with this error.
    Fail(String),
}

/// The state after an action other than `serve` has a connection: the
/// command line is used up, `serve` is no longer offered, and adding a pair
/// goes on to the exchange while every other action is done with.
pub open spec fn after_connected_action(pre: PromptState, action: String, post: PromptState) -> bool {
    &&& post.args@.len() == 0
    &&& !post.offer_serve
    &&& post.connected
    &&& post.stage == (if action@ == "add_pair"@ {
        PromptStage::ChooseExchange
    } else {
        PromptStage::ChooseAction
    })
}

/// The prompt's transition on an event.
pub open spec fn prompt_transition(pre: PromptState, event: PromptEvent, post: PromptState) -> bool {
    match (pre.stage, event) {
        (PromptStage::ChooseAction, PromptEvent::ActionChosen(action)) => {
            if action@ == "serve"@ {
                post == PromptState { stage: PromptStage::Served, ..pre }
            } else if !pre.connected {
                post == PromptState { stage: PromptStage::Connecting(action), ..pre }
            } else {
                after_connected_action(pre, action, post)
            }
        },
        (PromptStage::Connecting(action), PromptEvent::Connected) => after_connected_action(
            pre,
            action,
            post,
        ),
        (PromptStage::ChooseExchange, PromptEvent::ExchangeChosen(exchange)) => post
            == PromptState { stage: PromptStage::EnterPair(exchange), ..pre },
        (PromptStage::EnterPair(_), PromptEvent::PairEntered(pair)) => post == PromptState {
            stage: PromptStage::Sending(ControlCommand::AddPair(ExchangeName::Binance, pair)),
            ..pre
        },
        (PromptStage::Sending(_), PromptEvent::CommandSent) => post == PromptState {
            stage: PromptStage::ChooseAction,
            ..pre
        },
        (PromptStage::Sending(_), PromptEvent::SendFailed(message)) => post == PromptState {
            stage: PromptStage::Failed(message),
            ..pre
        },
        _ => post == pre,
    }
}

/// An event may come in the stage where a pair is entered only once the
/// chosen exchange is one the service supports.
pub open spec fn event_allowed(state: PromptState, event: PromptEvent) -> bool {
    match (state.stage, event) {
        (PromptStage::EnterPair(exchange), PromptEvent::PairEntered(_)) => exchange_named(
            exchange@,
        ) is Some,
        _ => true,
    }
}

impl PromptState {
    /// The prompt before its first action, with the command line's arguments.
    pub fn new(args: Vec<String>) -> (r: PromptState)
        ensures
            r.stage == PromptStage::ChooseAction,
            r.args == args,
            r.offer_serve,
            !r.connected,
    {
        PromptState { stage: PromptStage::ChooseAction, args, offer_serve: true, connected: false }
    }

    /// What the prompt needs next: the first action comes from the command
    /// line when it holds one (its second argument).
    pub fn next_request(&self) -> (r: PromptRequest)
        ensures
            match self.stage {
                PromptStage::ChooseAction => if self.args@.len() > 1 {
                    r == PromptRequest::UseAction(self.args@[1])
                } else {
                    r == PromptRequest::AskAction(self.offer_serve)
                },
                PromptStage::Connecting(_) => r == PromptRequest::Connect,
                PromptStage::ChooseExchange => r == PromptRequest::AskExchange,
                PromptStage::EnterPair(_) => r == PromptRequest::AskPair,
                PromptStage::Sending(_) => r == PromptRequest::Send,
                PromptStage::Served => r == PromptRequest::Serve,
                PromptStage::Failed(m) => r == PromptRequest::Fail(m),
            },
    {
        match &self.stage {
            PromptStage::ChooseAction => {
                if self.args.len() > 1 {
                    PromptRequest::UseAction(self.args[1].clone())
                } else {
                    PromptRequest::AskAction(self.offer_serve)
                }
            },
            PromptStage::Connecting(_) => PromptRequest::Connect,
            PromptStage::ChooseExchange => PromptRequest::AskExchange,
            PromptStage::EnterPair(_) => PromptRequest::AskPair,
            PromptStage::Sending(_) => PromptRequest::Send,
            PromptStage::Served => PromptRequest::Serve,
            PromptStage::Failed(m) => PromptRequest::Fail(m.clone()),
        }
    }

    fn finish_action(&mut self, action: String)
        requires
            old(self).connected,
        ensures
            after_connected_action(*old(self), action, *final(self)),
    {
        self.args = Vec::new();
        self.offer_serve = false;
        if str_equal(action.as_str(), "add_pair") {
            self.stage = PromptStage::ChooseExchange;
        } else {
            self.stage = PromptStage::ChooseAction;
        }
    }

    /// Moves the prompt on by one event.
    pub fn step(&mut self, event: PromptEvent)
        requires
            event_allowed(*old(self), event),
        ensures
            prompt_transition(*old(self), event, *final(self)),
    {
        let mut stage = PromptStage::ChooseAction;
        std::mem::swap(&mut stage, &mut self.stage);
        match (stage, event) {
            (PromptStage::ChooseAction, PromptEvent::ActionChosen(action)) => {
                if str_equal(action.as_str(), "serve") {
                    self.stage = PromptStage::Served;
                } else if !self.connected {
                    self.stage = PromptStage::Connecting(action);
                } else {
                    self.finish_action(action);
                }
            },
            (PromptStage::Connecting(action), PromptEvent::Connected) => {
                self.connected = true;
                self.finish_action(action);
            },
            (PromptStage::ChooseExchange, PromptEvent::ExchangeChosen(exchange)) => {
                self.stage = PromptStage::EnterPair(exchange);
            },
            (PromptStage::EnterPair(exchange), PromptEvent::PairEntered(pair)) => {
                let name = ExchangeName::from_name(exchange.as_str());
                self.stage = PromptStage::Sending(ControlCommand::AddPair(name, pair));
            },
            (PromptStage::Sending(_), PromptEvent::CommandSent) => {
                self.stage = PromptStage::ChooseAction;
            },
            (PromptStage::Sending(_), PromptEvent::SendFailed(message)) => {
                self.stage = PromptStage::Failed(message);
            },
            (other, _) => {
                self.stage = other;
            },
        }
    }
}

/// How the running service treats a command read from a control connection:
/// a pair to add goes to the exchange manager; the other commands are only
/// reported.
pub enum ConnectionRoute {
    ForwardPair(ExchangeName, String),
    ReportOnly(ControlCommand),
}

/// The route of a command read from a control connection.
pub fn connection_route(command: ControlCommand) -> (r: ConnectionRoute)
    ensures
        r == match command {
            ControlCommand::AddPair(exchange, pair) => ConnectionRoute::ForwardPair(exchange, pair),
            other => ConnectionRoute::ReportOnly(other),
        },
{
    match command {
        ControlCommand::AddPair(exchange, pair) => ConnectionRoute::ForwardPair(exchange, pair),
        other => ConnectionRoute::ReportOnly(other),
    }
}

/// The outcome of reading one command from a control connection.
pub enum ReadOutcome {
    Command(ControlCommand),
    /// Reading or decoding failed on the connection itself.
    Io(String),
    /// Any other failure.
    Other(String),
}

/// What a control connection does after one read.
pub enum ConnectionStep {
    Handle(ConnectionRoute),
    /// The connection is broken: stop reading from it.
    Close,
    /// Report the failure and read the next command.
    Skip,
}

/// The decision after one read from a control connection.
pub fn connection_step(outcome: ReadOutcome) -> (r: ConnectionStep)
    ensures
        r == match outcome {
            ReadOutcome::Command(c) => ConnectionStep::Handle(
                match c {
                    ControlCommand::AddPair(exchange, pair) => ConnectionRoute::ForwardPair(
                        exchange,
                        pair,
                    ),
                    other => ConnectionRoute::ReportOnly(other),
                },
            ),
            ReadOutcome::Io(_) => ConnectionStep::Close,
            ReadOutcome::Other(_) => ConnectionStep::Skip,
        },
{
    match outcome {
        ReadOutcome::Command(c) => ConnectionStep::Handle(connection_route(c)),
        ReadOutcome::Io(_) => ConnectionStep::Close,
        ReadOutcome::Other(_) => ConnectionStep::Skip,
    }
}

/// Where the command dispatcher sends a command: pairs to the pairs channel,
/// keys to the account channel.
pub enum DispatchRoute {
    Pairs(String),
    Accounts(String),
    Nowhere,
}

/// The text sent to the account channel for a key added to a pair.
pub open spec fn account_entry(pair: Seq<char>, key: Seq<char>) -> Seq<char> {
    pair + ":"@ + key
}

/// The dispatcher's route for a command: a pair goes to the pairs channel,
/// a key added to a pair goes to the account channel as `pair:key`, a key
/// removed goes there as itself.
pub fn dispatch_route(command: ControlCommand) -> (r: DispatchRoute)
    ensures
        match command {
            ControlCommand::AddPair(_, pair) => r == DispatchRoute::Pairs(pair),
            ControlCommand::AddKey(pair, key) => r matches DispatchRoute::Accounts(t) && t@
                == account_entry(pair@, key@),
            ControlCommand::RemoveKey(key) => r == DispatchRoute::Accounts(key),
            ControlCommand::RemovePair(_, _) => r == DispatchRoute::Nowhere,
        },
{
    match command {
        ControlCommand::AddPair(_, pair) => DispatchRoute::Pairs(pair),
        ControlCommand::AddKey(pair, key) => {
            let mut t = pair;
            t.append(":");
            t.append(key.as_str());
            DispatchRoute::Accounts(t)
        },
        ControlCommand::RemoveKey(key) => DispatchRoute::Accounts(key),
        ControlCommand::RemovePair(_, _) => DispatchRoute::Nowhere,
    }
}

/// Choosing `add_pair` while connected and waiting for an action goes on to
/// ask for the exchange, whether or not it is the first action (whatever
/// `serve`'s offer); the connection is kept.
pub proof fn connected_add_pair_asks_for_the_exchange(
    pre: PromptState,
    action: String,
    post: PromptState,
)
    requires
        pre.stage == PromptStage::ChooseAction,
        pre.connected,
        action@ == "add_pair"@,
        prompt_transition(pre, PromptEvent::ActionChosen(action), post),
    ensures
        post.stage == PromptStage::ChooseExchange,
        post.connected,
{
    reveal_strlit("add_pair");
    reveal_strlit("serve");
    assert(action@[0] != "serve"@[0]);
}

/// Once connected for an `add_pair`, the prompt asks for the exchange.
pub proof fn add_pair_asks_for_the_exchange_once_connected(
    pre: PromptState,
    action: String,
    post: PromptState,
)
    requires
        pre.stage == PromptStage::Connecting(action),
        action@ == "add_pair"@,
        prompt_transition(pre, PromptEvent::Connected, post),
    ensures
        post.stage == PromptStage::ChooseExchange,
        post.connected,
{
}

/// Adding two pairs one after the other from a fresh prompt: the first
/// `add_pair` connects, asks for the exchange and the pair and sends the
/// pair; the prompt then waits for an action again, and a second `add_pair`
/// asks for the exchange once more.
pub proof fn second_add_pair_is_handled_like_the_first(
    s0: PromptState,
    action: String,
    exchange: String,
    pair: String,
    s1: PromptState,
    s2: PromptState,
    s3: PromptState,
    s4: PromptState,
    s5: PromptState,
    second: String,
    s6: PromptState,
)
    requires
        s0.stage == PromptStage::ChooseAction,
        !s0.connected,
        action@ == "add_pair"@,
        second@ == "add_pair"@,
        prompt_transition(s0, PromptEvent::ActionChosen(action), s1),
        prompt_transition(s1, PromptEvent::Connected, s2),
        prompt_transition(s2, PromptEvent::ExchangeChosen(exchange), s3),
        prompt_transition(s3, PromptEvent::PairEntered(pair), s4),
        prompt_transition(s4, PromptEvent::CommandSent, s5),
        prompt_transition(s5, PromptEvent::ActionChosen(second), s6),
    ensures
        s1.stage == PromptStage::Connecting(action),
        s2.stage == PromptStage::ChooseExchange,
        s3.stage == PromptStage::EnterPair(exchange),
        s4.stage == PromptStage::Sending(ControlCommand::AddPair(ExchangeName::Binance, pair)),
        s5.stage == PromptStage::ChooseAction,
        s5.connected,
        !s5.offer_serve,
        s6.stage == PromptStage::ChooseExchange,
{
    reveal_strlit("add_pair");
    reveal_strlit("serve");
    assert(action@[0] != "serve"@[0]);
    assert(second@[0] != "serve"@[0]);
}

/// Once `serve` is no longer offered, no event brings it back.
pub proof fn serve_is_not_offered_again(pre: PromptState, event: PromptEvent, post: PromptState)
    requires
        prompt_transition(pre, event, post),
        !pre.offer_serve,
    ensures
        !post.offer_serve,
{
}

/// The control socket is connected at most once: once connected it stays so,
/// and no further connection is asked for.
pub proof fn connection_is_made_once(pre: PromptState, event: PromptEvent, post: PromptState)
    requires
        prompt_transition(pre, event, post),
        pre.connected,
        !(pre.stage is Connecting),
    ensures
        post.connected,
        !(post.stage is Connecting),
{
}

/// Choosing `serve` ends the prompt with the server to start.
pub proof fn serve_ends_the_prompt(pre: PromptState, action: String, post: PromptState)
    requires
        pre.stage == PromptStage::ChooseAction,
        action@ == "serve"@,
        prompt_transition(pre, PromptEvent::ActionChosen(action), post),
    ensures
        post.stage == PromptStage::Served,
{
}

} // verus!
