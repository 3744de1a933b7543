use vstd::prelude::*;

use crate::messages::{MainEvent, ServerCommand};

verus! {

/// Where the server task stands.
#[derive(PartialEq, Eq, Structural, Debug, Clone, Copy)]
pub enum ServerState {
    /// Started, but the main task has not been told it is ready.
    Starting,
    /// Waiting for a command; `connected` says whether a stream to the
    /// server is held.
    Idle { connected: bool },
    /// A connection is being made.
    Connecting,
    /// The task has ended.
    Stopped,
}

/// What happens to the server task.
#[derive(PartialEq, Eq, Structural, Debug, Clone, Copy)]
pub enum ServerEvent {
    /// The task has begun.
    Started,
    /// A command arrived from the main task.
    Command(ServerCommand),
    /// The connection that was being made is open.
    ConnectSucceeded,
    /// The connection that was being made could not be opened.
    ConnectFailed,
}

/// What the server task does, in the order given.
#[derive(PartialEq, Eq, Structural, Debug, Clone, Copy)]
pub enum ServerAction {
    /// Send this report to the main task.
    Notify(MainEvent),
    /// Try to open a connection to the address of the connect command; the
    /// outcome comes back as an event.
    OpenConnection,
    /// Let go of the stream to the server, if one is held.
    DropConnection,
    /// Write to the log that a disconnect request arrived.
    LogDisconnectRequest,
    /// Write to the log that a login request arrived.
    LogLoginRequest,
    /// Write to the log that the task is quitting.
    LogQuitting,
    /// Shut the stream to the server down.
    ShutdownConnection,
    /// End the task successfully.
    Finish,
}

/// The server task's transitions: the next state and the actions to take, in
/// order. An event that does not fit the state changes nothing.
pub open spec fn server_transition(state: ServerState, event: ServerEvent) -> (
    ServerState,
    Seq<ServerAction>,
) {
    match (state, event) {
        (ServerState::Starting, ServerEvent::Started) => (
            ServerState::Idle { connected: false },
            seq![ServerAction::Notify(MainEvent::ServerReady)],
        ),
        (ServerState::Idle { connected }, ServerEvent::Command(command)) => match command {
            ServerCommand::Connect => (ServerState::Connecting, seq![ServerAction::OpenConnection]),
            ServerCommand::Disconnect => (
                ServerState::Idle { connected: false },
                seq![
                    ServerAction::DropConnection,
                    ServerAction::Notify(MainEvent::ServerDisconnected),
                    ServerAction::LogDisconnectRequest,
                ],
            ),
            ServerCommand::Login => (
                ServerState::Idle { connected },
                if connected {
                    seq![ServerAction::LogLoginRequest]
                } else {
                    seq![]
                },
            ),
            ServerCommand::Shutdown => (
                ServerState::Stopped,
                if connected {
                    seq![
                        ServerAction::LogQuitting,
                        ServerAction::ShutdownConnection,
                        ServerAction::Finish,
                    ]
                } else {
                    seq![ServerAction::LogQuitting, ServerAction::Finish]
                },
            ),
        },
        (ServerState::Connecting, ServerEvent::ConnectSucceeded) => (
            ServerState::Idle { connected: true },
            seq![ServerAction::Notify(MainEvent::ServerConnected)],
        ),
        (ServerState::Connecting, ServerEvent::ConnectFailed) => (
            ServerState::Idle { connected: false },
            seq![
                ServerAction::Notify(MainEvent::ServerConnectionFailed),
                ServerAction::Notify(MainEvent::ServerShuttingDown),
            ],
        ),
        _ => (state, seq![]),
    }
}

/// The server task's decision for one event: its next state and what to do.
pub fn server_step(state: ServerState, event: ServerEvent) -> (result: (ServerState, Vec<ServerAction>))
    ensures
        (result.0, result.1@) == server_transition(state, event),
        // Starting up reports readiness.
        state == ServerState::Starting && event == ServerEvent::Started ==> result.0 == (
        ServerState::Idle { connected: false }) && result.1@ == seq![
            ServerAction::Notify(MainEvent::ServerReady),
        ],
        // A connect command always opens a new connection, whether or not a
        // stream is held.
        state is Idle && event == ServerEvent::Command(ServerCommand::Connect) ==> result.0
            == ServerState::Connecting && result.1@ == seq![ServerAction::OpenConnection],
        // A disconnect command always lets the stream go and reports the
        // disconnection, whether or not a stream was held.
        state is Idle && event == ServerEvent::Command(ServerCommand::Disconnect) ==> result.0 == (
        ServerState::Idle { connected: false }) && result.1@ == seq![
            ServerAction::DropConnection,
            ServerAction::Notify(MainEvent::ServerDisconnected),
            ServerAction::LogDisconnectRequest,
        ],
        // A login request changes nothing, and is logged only with a stream.
        state is Idle && event == ServerEvent::Command(ServerCommand::Login) ==> result.0 == state
            && result.1@ == if state->connected {
            seq![ServerAction::LogLoginRequest]
        } else {
            Seq::<ServerAction>::empty()
        },
        // Shutdown stops the task, shutting the stream down exactly when one is held.
        state is Idle && event == ServerEvent::Command(ServerCommand::Shutdown) ==> result.0
            == ServerState::Stopped && result.1@ == if state->connected {
            seq![ServerAction::LogQuitting, ServerAction::ShutdownConnection, ServerAction::Finish]
        } else {
            seq![ServerAction::LogQuitting, ServerAction::Finish]
        },
        // A connection that opened is held and reported.
        state == ServerState::Connecting && event == ServerEvent::ConnectSucceeded ==> result.0 == (
        ServerState::Idle { connected: true }) && result.1@ == seq![
            ServerAction::Notify(MainEvent::ServerConnected),
        ],
        // A connection that failed is reported, then the shutting down.
        state == ServerState::Connecting && event == ServerEvent::ConnectFailed ==> result.0 == (
        ServerState::Idle { connected: false }) && result.1@ == seq![
            ServerAction::Notify(MainEvent::ServerConnectionFailed),
            ServerAction::Notify(MainEvent::ServerShuttingDown),
        ],
        // Any other event in any other state changes nothing and does nothing.
        !(state == ServerState::Starting && event == ServerEvent::Started) && !(state is Idle
            && event is Command) && !(state == ServerState::Connecting && (event
            == ServerEvent::ConnectSucceeded || event == ServerEvent::ConnectFailed)) ==> result.0
            == state && result.1@.len() == 0,
{
    let mut actions: Vec<ServerAction> = Vec::new();
    let next = match (state, event) {
        (ServerState::Starting, ServerEvent::Started) => {
            actions.push(ServerAction::Notify(MainEvent::ServerReady));
            ServerState::Idle { connected: false }
        },
        (ServerState::Idle { connected }, ServerEvent::Command(command)) => match command {
            ServerCommand::Connect => {
                actions.push(ServerAction::OpenConnection);
                ServerState::Connecting
            },
            ServerCommand::Disconnect => {
                actions.push(ServerAction::DropConnection);
                actions.push(ServerAction::Notify(MainEvent::ServerDisconnected));
                actions.push(ServerAction::LogDisconnectRequest);
                ServerState::Idle { connected: false }
            },
            ServerCommand::Login => {
                if connected {
                    actions.push(ServerAction::LogLoginRequest);
                }
                ServerState::Idle { connected }
            },
            ServerCommand::Shutdown => {
                actions.push(ServerAction::LogQuitting);
                if connected {
                    actions.push(ServerAction::ShutdownConnection);
                }
                actions.push(ServerAction::Finish);
                ServerState::Stopped
            },
        },
        (ServerState::Connecting, ServerEvent::ConnectSucceeded) => {
            actions.push(ServerAction::Notify(MainEvent::ServerConnected));
            ServerState::Idle { connected: true }
        },
        (ServerState::Connecting, ServerEvent::ConnectFailed) => {
            actions.push(ServerAction::Notify(MainEvent::ServerConnectionFailed));
            actions.push(ServerAction::Notify(MainEvent::ServerShuttingDown));
            ServerState::Idle { connected: false }
        },
        _ => state,
    };
    proof {
        assert(actions@ =~= server_transition(state, event).1);
    }
    (next, actions)
}

/// The state reached and the actions taken when the events arrive in order.
pub open spec fn server_run(state: ServerState, events: Seq<ServerEvent>) -> (
    ServerState,
    Seq<ServerAction>,
)
    decreases events.len(),
{
    if events.len() == 0 {
        (state, seq![])
    } else {
        let (next, actions) = server_transition(state, events[0]);
        let (last, later) = server_run(next, events.drop_first());
        (last, actions + later)
    }
}

/// A login request is written to the log exactly when a stream to the
/// server is held; without one it is passed over.
pub proof fn lemma_login_needs_connection(connected: bool)
    ensures
        server_transition(
            ServerState::Idle { connected },
            ServerEvent::Command(ServerCommand::Login),
        ) == (ServerState::Idle { connected }, if connected {
            seq![ServerAction::LogLoginRequest]
        } else {
            Seq::<ServerAction>::empty()
        }),
{
}

/// A connect command opens a new connection whatever the task holds: from
/// every idle state, connected or not, it moves to connecting with exactly
/// one action, opening the connection.
pub proof fn lemma_connect_always_attempted(connected: bool)
    ensures
        server_transition(
            ServerState::Idle { connected },
            ServerEvent::Command(ServerCommand::Connect),
        ) == (ServerState::Connecting, seq![ServerAction::OpenConnection]),
{
}

/// A disconnect command is always answered: from every idle state, connected
/// or not, the task ends up holding no stream and reports the disconnection
/// to the main task.
pub proof fn lemma_disconnect_always_reported(connected: bool)
    ensures
        server_transition(
            ServerState::Idle { connected },
            ServerEvent::Command(ServerCommand::Disconnect),
        ).0 == (ServerState::Idle { connected: false }),
        server_transition(
            ServerState::Idle { connected },
            ServerEvent::Command(ServerCommand::Disconnect),
        ).1.contains(ServerAction::Notify(MainEvent::ServerDisconnected)),
{
    let actions = server_transition(
        ServerState::Idle { connected },
        ServerEvent::Command(ServerCommand::Disconnect),
    ).1;
    assert(actions[1] == ServerAction::Notify(MainEvent::ServerDisconnected));
}

/// Every command that reaches an idle task is acted on: connect and
/// disconnect and shutdown always do something, and only a login request
/// without a stream is passed over.
pub proof fn lemma_idle_commands_act(connected: bool, command: ServerCommand)
    ensures
        server_transition(ServerState::Idle { connected }, ServerEvent::Command(command)).1.len()
            == 0 <==> command == ServerCommand::Login && !connected,
{
}

/// A stream to the server is held only after a connection succeeded: a step
/// that reaches a connected state from one that was not connected is the
/// outcome of a successful connection, and reports it.
pub proof fn lemma_connected_only_after_success(state: ServerState, event: ServerEvent)
    requires
        state != (ServerState::Idle { connected: true }),
        server_transition(state, event).0 == (ServerState::Idle { connected: true }),
    ensures
        state == ServerState::Connecting,
        event == ServerEvent::ConnectSucceeded,
        server_transition(state, event).1 == seq![ServerAction::Notify(MainEvent::ServerConnected)],
{
}

/// On shutdown the task logs that it quits, shuts its stream down exactly
/// when it holds one, finishes, and stops.
pub proof fn lemma_shutdown_closes_stream(connected: bool)
    ensures
        ({
            let (next, actions) = server_transition(
                ServerState::Idle { connected },
                ServerEvent::Command(ServerCommand::Shutdown),
            );
            &&& next == ServerState::Stopped
            &&& actions.contains(ServerAction::ShutdownConnection) <==> connected
            &&& actions.first() == ServerAction::LogQuitting
            &&& actions.last() == ServerAction::Finish
        }),
{
    let actions = server_transition(
        ServerState::Idle { connected },
        ServerEvent::Command(ServerCommand::Shutdown),
    ).1;
    if !connected {
        assert(actions[0] != ServerAction::ShutdownConnection);
        assert(actions[1] != ServerAction::ShutdownConnection);
    } else {
        assert(actions[1] == ServerAction::ShutdownConnection);
    }
}

/// A failed connection is reported, followed by the news that the server
/// side is shutting down, and leaves no stream held.
pub proof fn lemma_failed_connection_reported()
    ensures
        server_transition(ServerState::Connecting, ServerEvent::ConnectFailed) == (
            ServerState::Idle { connected: false },
            seq![
                ServerAction::Notify(MainEvent::ServerConnectionFailed),
                ServerAction::Notify(MainEvent::ServerShuttingDown),
            ],
        ),
{
}

/// A stopped task stays stopped and does nothing more, whatever follows.
pub proof fn lemma_stopped_is_final(events: Seq<ServerEvent>)
    ensures
        server_run(ServerState::Stopped, events) == (ServerState::Stopped, Seq::<ServerAction>::empty()),
    decreases events.len(),
{
    if events.len() > 0 {
        lemma_stopped_is_final(events.drop_first());
        assert(Seq::<ServerAction>::empty() + Seq::<ServerAction>::empty() =~= Seq::<
            ServerAction,
        >::empty());
    }
}

/// Whatever the events, the task finishes at most once and does nothing after
/// it finishes: every `Finish` among the actions of a run is its last action,
/// and a run that finishes ends stopped.
pub proof fn lemma_finish_is_last(state: ServerState, events: Seq<ServerEvent>)
    ensures
        ({
            let (last, actions) = server_run(state, events);
            forall|i: int|
                0 <= i < actions.len() && actions[i] == ServerAction::Finish ==> i == actions.len()
                    - 1 && last == ServerState::Stopped
        }),
    decreases events.len(),
{
    if events.len() > 0 {
        let (next, first) = server_transition(state, events[0]);
        let rest = events.drop_first();
        let (last, later) = server_run(next, rest);
        lemma_finish_is_last(next, rest);
        let actions = first + later;
        assert forall|i: int|
            0 <= i < actions.len() && actions[i] == ServerAction::Finish implies i == actions.len()
                - 1 && last == ServerState::Stopped by {
            if i < first.len() {
                assert(first[i] == ServerAction::Finish);
                assert(i == first.len() - 1 && next == ServerState::Stopped);
                lemma_stopped_is_final(rest);
            } else {
                assert(later[i - first.len()] == ServerAction::Finish);
            }
        }
    }
}

} // verus!
