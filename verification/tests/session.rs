use klymene_srv::messages::{main_reaction, MainEvent, MainReaction, ServerCommand};
use klymene_srv::reconnect::{ConnectAttempts, ConnectDecision};
use klymene_srv::session::{server_step, ServerAction, ServerEvent, ServerState};

fn command(c: ServerCommand) -> ServerEvent {
    ServerEvent::Command(c)
}

#[test]
fn start_reports_ready() {
    let (state, actions) = server_step(ServerState::Starting, ServerEvent::Started);
    assert_eq!(state, ServerState::Idle { connected: false });
    assert_eq!(actions, vec![ServerAction::Notify(MainEvent::ServerReady)]);
}

#[test]
fn connect_then_success() {
    let idle = ServerState::Idle { connected: false };
    let (state, actions) = server_step(idle, command(ServerCommand::Connect));
    assert_eq!(state, ServerState::Connecting);
    assert_eq!(actions, vec![ServerAction::OpenConnection]);
    let (state, actions) = server_step(state, ServerEvent::ConnectSucceeded);
    assert_eq!(state, ServerState::Idle { connected: true });
    assert_eq!(actions, vec![ServerAction::Notify(MainEvent::ServerConnected)]);
}

#[test]
fn connect_failure_reports_and_shuts_down() {
    let (state, actions) = server_step(ServerState::Connecting, ServerEvent::ConnectFailed);
    assert_eq!(state, ServerState::Idle { connected: false });
    assert_eq!(
        actions,
        vec![
            ServerAction::Notify(MainEvent::ServerConnectionFailed),
            ServerAction::Notify(MainEvent::ServerShuttingDown),
        ]
    );
}

#[test]
fn login_is_logged_only_when_connected() {
    let (state, actions) =
        server_step(ServerState::Idle { connected: false }, command(ServerCommand::Login));
    assert_eq!(state, ServerState::Idle { connected: false });
    assert!(actions.is_empty());
    let (state, actions) =
        server_step(ServerState::Idle { connected: true }, command(ServerCommand::Login));
    assert_eq!(state, ServerState::Idle { connected: true });
    assert_eq!(actions, vec![ServerAction::LogLoginRequest]);
}

#[test]
fn disconnect_drops_the_stream() {
    let (state, actions) =
        server_step(ServerState::Idle { connected: true }, command(ServerCommand::Disconnect));
    assert_eq!(state, ServerState::Idle { connected: false });
    assert_eq!(
        actions,
        vec![
            ServerAction::DropConnection,
            ServerAction::Notify(MainEvent::ServerDisconnected),
            ServerAction::LogDisconnectRequest,
        ]
    );
}

#[test]
fn shutdown_closes_an_open_stream() {
    let (state, actions) =
        server_step(ServerState::Idle { connected: true }, command(ServerCommand::Shutdown));
    assert_eq!(state, ServerState::Stopped);
    assert_eq!(
        actions,
        vec![ServerAction::LogQuitting, ServerAction::ShutdownConnection, ServerAction::Finish]
    );
    let (state, actions) =
        server_step(ServerState::Idle { connected: false }, command(ServerCommand::Shutdown));
    assert_eq!(state, ServerState::Stopped);
    assert_eq!(actions, vec![ServerAction::LogQuitting, ServerAction::Finish]);
}

#[test]
fn stopped_ignores_everything() {
    for event in [
        ServerEvent::Started,
        command(ServerCommand::Connect),
        command(ServerCommand::Shutdown),
        ServerEvent::ConnectSucceeded,
        ServerEvent::ConnectFailed,
    ] {
        let (state, actions) = server_step(ServerState::Stopped, event);
        assert_eq!(state, ServerState::Stopped);
        assert!(actions.is_empty());
    }
}

#[test]
fn out_of_place_events_change_nothing() {
    let (state, actions) = server_step(ServerState::Starting, command(ServerCommand::Connect));
    assert_eq!(state, ServerState::Starting);
    assert!(actions.is_empty());
    let (state, actions) =
        server_step(ServerState::Idle { connected: true }, ServerEvent::ConnectFailed);
    assert_eq!(state, ServerState::Idle { connected: true });
    assert!(actions.is_empty());
}

#[test]
fn finish_happens_once_in_a_session() {
    let events = [
        ServerEvent::Started,
        command(ServerCommand::Connect),
        ServerEvent::ConnectSucceeded,
        command(ServerCommand::Login),
        command(ServerCommand::Shutdown),
        command(ServerCommand::Shutdown),
        command(ServerCommand::Login),
    ];
    let mut state = ServerState::Starting;
    let mut all = Vec::new();
    for event in events {
        let (next, actions) = server_step(state, event);
        state = next;
        all.extend(actions);
    }
    assert_eq!(state, ServerState::Stopped);
    assert_eq!(all.iter().filter(|a| **a == ServerAction::Finish).count(), 1);
    assert_eq!(all.last(), Some(&ServerAction::Finish));
}

#[test]
fn reconnection_gives_up_on_the_sixth_failure() {
    let mut attempts = ConnectAttempts::new();
    for n in 1..=5u32 {
        assert_eq!(attempts.record(false), ConnectDecision::Retry { attempts: n, delay_secs: 3 });
    }
    assert_eq!(attempts.record(false), ConnectDecision::GiveUp { attempts: 6 });
}

#[test]
fn reconnection_uses_a_success() {
    let mut attempts = ConnectAttempts::new();
    assert_eq!(attempts.record(true), ConnectDecision::UseConnection);
    let mut attempts = ConnectAttempts::new();
    assert_eq!(attempts.record(false), ConnectDecision::Retry { attempts: 1, delay_secs: 3 });
    assert_eq!(attempts.record(true), ConnectDecision::UseConnection);
    assert_eq!(attempts.record(false), ConnectDecision::Retry { attempts: 2, delay_secs: 3 });
}

#[test]
fn main_reacts_to_each_report() {
    assert_eq!(main_reaction(MainEvent::ServerReady), MainReaction::RequestConnection);
    assert_eq!(main_reaction(MainEvent::ServerConnected), MainReaction::RequestLogin);
    assert_eq!(main_reaction(MainEvent::ServerConnectionFailed), MainReaction::Abort);
    assert_eq!(main_reaction(MainEvent::ServerLoginSuccess), MainReaction::Wait);
    assert_eq!(main_reaction(MainEvent::ServerLoginFail), MainReaction::Wait);
    assert_eq!(main_reaction(MainEvent::ServerDisconnected), MainReaction::Stop);
    assert_eq!(main_reaction(MainEvent::ServerShuttingDown), MainReaction::Stop);
}
