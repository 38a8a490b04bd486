//! The app's start-up and shutdown sequence: which step comes next, what it
//! is performed with, and how a failed step is reported. `S` is the socket
//! the app server reports once it listens.

use vstd::prelude::*;
use vstd::string::*;

verus! {

/// Where start-up stands.
pub enum StartupStage {
    LoadConfig,
    ConnectDatabase,
    Migrate,
    StartAppServer,
    RegisterWithBroker,
    BindClient,
    Running,
    Stopping,
    Stopped,
}

/// How the last action went.
pub enum StartupEvent<S> {
    Succeeded,
    /// The app server listens on this socket.
    ServerStarted(S),
    /// The step failed with this error text.
    Failed(String),
    /// The process was interrupted (SIGINT).
    Interrupted,
    /// The broker asked the app to shut down.
    BrokerShutdown,
}

/// What to do next.
pub enum StartupAction<S> {
    /// Read the bus client configuration from the environment.
    LoadConfig,
    /// Open the database pool.
    ConnectDatabase,
    /// Bring the database schema up to date.
    Migrate,
    /// Start the app's HTTP server on the socket of `service`.
    StartAppServer { service: String },
    /// Connect to the broker as `service` at `version`, announcing `socket`
    /// as the app's data plane.
    RegisterWithBroker { service: String, version: String, socket: S },
    /// Make the connected bus client available to the handlers.
    BindClient,
    /// Wait for an interrupt or for the broker's shutdown request.
    WaitForShutdown,
    /// Tell the bus client to shut down.
    ShutDownClient,
    /// Stop, successfully or with this error.
    Exit(Result<(), String>),
}

/// Start-up in progress: its stage and the app version it announces.
pub struct Startup {
    pub stage: StartupStage,
    pub version: String,
}

/// The events start-up can receive in `stage`.
pub open spec fn startup_expects<S>(stage: StartupStage, event: StartupEvent<S>) -> bool {
    match stage {
        StartupStage::StartAppServer => event is ServerStarted || event is Failed,
        StartupStage::Running => event is Interrupted || event is BrokerShutdown,
        StartupStage::Stopping => event is Succeeded,
        StartupStage::Stopped => false,
        _ => event is Succeeded || event is Failed,
    }
}

/// `action` stops with an error whose message is `message`.
pub open spec fn exits_with_error<S>(action: StartupAction<S>, message: Seq<char>) -> bool {
    action matches StartupAction::Exit(Err(m)) && m@ == message
}

/// The step after `stage` when it succeeded, and the action that performs it.
pub open spec fn after_success<S>(stage: StartupStage, next: StartupStage, action: StartupAction<S>) -> bool {
    match stage {
        StartupStage::LoadConfig => next is ConnectDatabase && action is ConnectDatabase,
        StartupStage::ConnectDatabase => next is Migrate && action is Migrate,
        StartupStage::Migrate => next is StartAppServer
            && (action matches StartupAction::StartAppServer { service } && service@ == "helloworld"@),
        StartupStage::RegisterWithBroker => next is BindClient && action is BindClient,
        StartupStage::BindClient => next is Running && action is WaitForShutdown,
        StartupStage::Stopping => next is Stopped && action == StartupAction::<S>::Exit(Ok(())),
        _ => false,
    }
}

/// How the failure `detail` of the step in `stage` is reported.
pub open spec fn failure_message(stage: StartupStage, detail: Seq<char>) -> Seq<char> {
    match stage {
        StartupStage::LoadConfig => "ClientConfig: "@ + detail,
        StartupStage::StartAppServer => "app_server spawn: "@ + detail,
        StartupStage::RegisterWithBroker => "bus build: "@ + detail,
        StartupStage::BindClient => "client_slot already set"@,
        _ => detail,
    }
}

/// One step of start-up and shutdown for an app at `version`.
pub open spec fn startup_transition<S>(
    version: String,
    stage: StartupStage,
    event: StartupEvent<S>,
    next: StartupStage,
    action: StartupAction<S>,
) -> bool {
    match event {
        StartupEvent::Succeeded => after_success(stage, next, action),
        StartupEvent::ServerStarted(s) => next is RegisterWithBroker
            && (action matches StartupAction::RegisterWithBroker { service, version: v, socket }
                && service@ == "helloworld"@ && v == version && socket == s),
        StartupEvent::Failed(d) => next is Stopped && exits_with_error(action, failure_message(stage, d@)),
        StartupEvent::Interrupted => next is Stopping && action is ShutDownClient,
        StartupEvent::BrokerShutdown => next is Stopped && action == StartupAction::<S>::Exit(Ok(())),
    }
}

/// How start-up begins for an app at `version`.
pub fn run<S>(version: String) -> (res: (Startup, StartupAction<S>))
    ensures
        res.0.stage is LoadConfig,
        res.0.version == version,
        res.1 is LoadConfig,
{
    (Startup { stage: StartupStage::LoadConfig, version }, StartupAction::LoadConfig)
}

fn prefixed(prefix: &str, detail: &str) -> (s: String)
    ensures
        s@ == prefix@ + detail@,
{
    String::from_str(prefix).concat(detail)
}

impl Startup {
    /// Takes how the last action went and returns the next action.
    pub fn step<S>(&mut self, event: StartupEvent<S>) -> (action: StartupAction<S>)
        requires
            startup_expects(old(self).stage, event),
        ensures
            final(self).version == old(self).version,
            startup_transition(old(self).version, old(self).stage, event, final(self).stage, action),
    {
        match event {
            StartupEvent::Succeeded => match self.stage {
                StartupStage::LoadConfig => {
                    self.stage = StartupStage::ConnectDatabase;
                    StartupAction::ConnectDatabase
                },
                StartupStage::ConnectDatabase => {
                    self.stage = StartupStage::Migrate;
                    StartupAction::Migrate
                },
                StartupStage::Migrate => {
                    self.stage = StartupStage::StartAppServer;
                    StartupAction::StartAppServer { service: String::from_str("helloworld") }
                },
                StartupStage::RegisterWithBroker => {
                    self.stage = StartupStage::BindClient;
                    StartupAction::BindClient
                },
                StartupStage::BindClient => {
                    self.stage = StartupStage::Running;
                    StartupAction::WaitForShutdown
                },
                _ => {
                    self.stage = StartupStage::Stopped;
                    StartupAction::Exit(Ok(()))
                },
            },
            StartupEvent::ServerStarted(socket) => {
                self.stage = StartupStage::RegisterWithBroker;
                StartupAction::RegisterWithBroker {
                    service: String::from_str("helloworld"),
                    version: self.version.clone(),
                    socket,
                }
            },
            StartupEvent::Failed(d) => {
                let message = match self.stage {
                    StartupStage::LoadConfig => {
                        proof {
                            reveal_strlit("ClientConfig: ");
                        }
                        prefixed("ClientConfig: ", d.as_str())
                    },
                    StartupStage::StartAppServer => {
                        proof {
                            reveal_strlit("app_server spawn: ");
                        }
                        prefixed("app_server spawn: ", d.as_str())
                    },
                    StartupStage::RegisterWithBroker => {
                        proof {
                            reveal_strlit("bus build: ");
                        }
                        prefixed("bus build: ", d.as_str())
                    },
                    StartupStage::BindClient => String::from_str("client_slot already set"),
                    _ => d,
                };
                self.stage = StartupStage::Stopped;
                StartupAction::Exit(Err(message))
            },
            StartupEvent::Interrupted => {
                self.stage = StartupStage::Stopping;
                StartupAction::ShutDownClient
            },
            StartupEvent::BrokerShutdown => {
                self.stage = StartupStage::Stopped;
                StartupAction::Exit(Ok(()))
            },
        }
    }
}

/// A run stops successfully only from the running app: every start-up step
/// that fails stops it with an error.
pub proof fn lemma_failed_step_exits_with_error<S>(
    version: String,
    stage: StartupStage,
    d: String,
    next: StartupStage,
    action: StartupAction<S>,
)
    requires
        startup_expects(stage, StartupEvent::<S>::Failed(d)),
        startup_transition(version, stage, StartupEvent::<S>::Failed(d), next, action),
    ensures
        action matches StartupAction::Exit(r) && r is Err,
        next is Stopped,
        forall|e: StartupEvent<S>| !startup_expects(next, e),
{
}

/// The app registers with the broker as `helloworld`, at its version, with
/// the very socket its server reported, and only after the server started.
pub proof fn lemma_registers_with_started_socket<S>(
    version: String,
    stage: StartupStage,
    event: StartupEvent<S>,
    next: StartupStage,
    action: StartupAction<S>,
)
    requires
        startup_expects(stage, event),
        startup_transition(version, stage, event, next, action),
        action is RegisterWithBroker,
    ensures
        stage is StartAppServer,
        event matches StartupEvent::ServerStarted(s) && (action matches StartupAction::RegisterWithBroker {
            service,
            version: v,
            socket,
        } && service@ == "helloworld"@ && v == version && socket == s),
{
}

/// The bus client is made available once: only right after a successful
/// registration, and never from the stages that follow it.
pub proof fn lemma_client_bound_once<S>(
    version: String,
    stage: StartupStage,
    event: StartupEvent<S>,
    next: StartupStage,
    action: StartupAction<S>,
)
    requires
        startup_expects(stage, event),
        startup_transition(version, stage, event, next, action),
    ensures
        action is BindClient ==> stage is RegisterWithBroker && event is Succeeded && next is BindClient,
        (stage is BindClient || stage is Running || stage is Stopping || stage is Stopped) ==> !(action is BindClient)
            && !(action is RegisterWithBroker),
{
}

/// Once running, an interrupt shuts the bus client down and then stops the
/// app successfully.
pub proof fn lemma_interrupt_shuts_down_cleanly<S>(
    version: String,
    n1: StartupStage,
    a1: StartupAction<S>,
    n2: StartupStage,
    a2: StartupAction<S>,
)
    requires
        startup_transition(version, StartupStage::Running, StartupEvent::<S>::Interrupted, n1, a1),
        startup_transition(version, n1, StartupEvent::<S>::Succeeded, n2, a2),
    ensures
        a1 is ShutDownClient,
        a2 == StartupAction::<S>::Exit(Ok(())),
        n2 is Stopped,
{
}

} // verus!
