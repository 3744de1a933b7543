use vstd::prelude::*;

verus! {

/// What the main task tells the peer task.
#[derive(PartialEq, Eq, Structural, Debug, Clone, Copy)]
pub enum PeerMessage {
    Ready,
    ShuttingDown,
}

/// What the main task asks of the server task. The address to connect to and
/// the login request travel beside the command; the decisions do not read them.
#[derive(PartialEq, Eq, Structural, Debug, Clone, Copy)]
pub enum ServerCommand {
    Connect,
    Disconnect,
    Login,
    Shutdown,
}

/// What the server task reports to the main task. The address of a new
/// connection and the answers to a login travel beside the report.
#[derive(PartialEq, Eq, Structural, Debug, Clone, Copy)]
pub enum MainEvent {
    ServerReady,
    ServerConnected,
    ServerDisconnected,
    ServerConnectionFailed,
    ServerLoginSuccess,
    ServerLoginFail,
    ServerShuttingDown,
}

/// What the main task does about a report from the server task.
#[derive(PartialEq, Eq, Structural, Debug, Clone, Copy)]
pub enum MainReaction {
    /// Ask the server task to connect to the server.
    RequestConnection,
    /// Ask the server task to log in.
    RequestLogin,
    /// The connection could not be made: stop the program with a panic.
    Abort,
    /// Nothing to do: wait for the next report.
    Wait,
    /// Leave the loop and wait for the tasks to end.
    Stop,
}

/// The main task's answer to each report of the server task: once the
/// server task is ready it is asked to connect, once connected it is asked to
/// log in, a failed connection aborts, answers to the login are waited past,
/// and a disconnection or shutdown ends the loop.
pub fn main_reaction(event: MainEvent) -> (reaction: MainReaction)
    ensures
        event == MainEvent::ServerReady <==> reaction == MainReaction::RequestConnection,
        event == MainEvent::ServerConnected <==> reaction == MainReaction::RequestLogin,
        event == MainEvent::ServerConnectionFailed <==> reaction == MainReaction::Abort,
        (event == MainEvent::ServerLoginSuccess || event == MainEvent::ServerLoginFail)
            <==> reaction == MainReaction::Wait,
        (event == MainEvent::ServerDisconnected || event == MainEvent::ServerShuttingDown)
            <==> reaction == MainReaction::Stop,
{
    match event {
        MainEvent::ServerReady => MainReaction::RequestConnection,
        MainEvent::ServerConnected => MainReaction::RequestLogin,
        MainEvent::ServerConnectionFailed => MainReaction::Abort,
        MainEvent::ServerLoginSuccess => MainReaction::Wait,
        MainEvent::ServerLoginFail => MainReaction::Wait,
        MainEvent::ServerDisconnected => MainReaction::Stop,
        MainEvent::ServerShuttingDown => MainReaction::Stop,
    }
}

} // verus!
