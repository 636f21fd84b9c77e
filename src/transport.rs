//! The transport service: picks the one transport that the configuration
//! names, and the decisions that the raw-socket listener takes while it runs.

use vstd::prelude::*;
use vstd::string::StringExecFns;
use crate::transport_config::{
    address_spec, bind_address, description_spec, env_selects, HttpConfig, TcpConfig, TransportConfig,
    TransportEnv,
};

verus! {

/// Wait after a failed accept before the listener tries again, in
/// milliseconds.
pub const ACCEPT_BACKOFF_MS: u64 = 100;

/// Errors of the transport layer. Only a bind failure stops the process;
/// the others end one connection or one request.
#[derive(Debug, Clone)]
pub enum TransportError {
    BindError { address: String, source: String },
    ConnectionError(String),
    IoError(String),
    JsonError(String),
    ProtocolError(String),
    InitError(String),
    HttpError(String),
    ServiceError(String),
}

impl TransportError {
    /// The listener could not bind `address`.
    pub fn bind(address: String, source: String) -> (r: TransportError)
        ensures
            r == (TransportError::BindError { address, source }),
    {
        TransportError::BindError { address, source }
    }

    pub fn connection(msg: String) -> (r: TransportError)
        ensures
            r == TransportError::ConnectionError(msg),
    {
        TransportError::ConnectionError(msg)
    }

    pub fn protocol(msg: String) -> (r: TransportError)
        ensures
            r == TransportError::ProtocolError(msg),
    {
        TransportError::ProtocolError(msg)
    }

    pub fn init(msg: String) -> (r: TransportError)
        ensures
            r == TransportError::InitError(msg),
    {
        TransportError::InitError(msg)
    }

    pub fn http(msg: String) -> (r: TransportError)
        ensures
            r == TransportError::HttpError(msg),
    {
        TransportError::HttpError(msg)
    }

    /// Whether the error ends the whole process rather than one connection.
    pub fn is_fatal(&self) -> (r: bool)
        ensures
            r == (*self is BindError),
    {
        match self {
            TransportError::BindError { .. } => true,
            _ => false,
        }
    }
}

/// The raw-socket transport.
#[derive(Debug, Clone)]
pub struct TcpTransport {
    pub config: TcpConfig,
}

/// What the listener was told by one accept.
#[derive(Debug, Clone, Copy, PartialEq, Eq, Structural)]
pub enum AcceptOutcome {
    /// A connection came in.
    Accepted,
    /// The accept failed (for instance, no file descriptor was left).
    Failed,
}

/// What the listener does next.
#[derive(Debug, Clone, Copy, PartialEq, Eq, Structural)]
pub enum AcceptAction {
    /// Turn off send coalescing on the new connection, start a session of
    /// its own for it, and accept again.
    Serve,
    /// Wait this many milliseconds, then accept again.
    Backoff(u64),
}

/// The action that answers an accept outcome.
pub open spec fn accept_action_spec(o: AcceptOutcome) -> AcceptAction {
    match o {
        AcceptOutcome::Accepted => AcceptAction::Serve,
        AcceptOutcome::Failed => AcceptAction::Backoff(ACCEPT_BACKOFF_MS),
    }
}

/// The actions that answer a run of accept outcomes, one for one.
pub open spec fn accept_actions(outcomes: Seq<AcceptOutcome>) -> Seq<AcceptAction> {
    outcomes.map_values(|o: AcceptOutcome| accept_action_spec(o))
}

/// What ended one connection's session.
#[derive(Debug, Clone, PartialEq, Eq)]
pub enum SessionEnd {
    /// The client went away in an orderly way.
    Closed,
    /// The protocol handshake failed.
    InitFailed(String),
    /// The session failed while serving.
    Failed(String),
}

impl TcpTransport {
    pub fn new(config: TcpConfig) -> (r: TcpTransport)
        ensures
            r.config == config,
    {
        TcpTransport { config }
    }

    /// The raw-socket transport of a configuration that names one.
    pub fn from_transport_config(config: &TransportConfig) -> (r: Option<TcpTransport>)
        ensures
            config is Tcp <==> r is Some,
            r is Some ==> r->Some_0.config.port == config->Tcp_0.port
                && r->Some_0.config.host@ == config->Tcp_0.host@,
    {
        match config {
            TransportConfig::Tcp(c) => Some(TcpTransport::new(TcpConfig { port: c.port, host: c.host.clone() })),
            _ => None,
        }
    }

    /// The address that the listener binds.
    pub fn address(&self) -> (r: String)
        ensures
            r@ == address_spec(self.config.host@, self.config.port),
    {
        bind_address(&self.config.host, self.config.port)
    }

    /// The error that a failed bind becomes; it ends the process.
    pub fn bind_failed(&self, source: String) -> (r: TransportError)
        ensures
            r is BindError,
            r->address@ == address_spec(self.config.host@, self.config.port),
            r->source == source,
    {
        TransportError::bind(self.address(), source)
    }

    /// The listener's answer to one accept. A failure never stops the
    /// listener: it waits a fixed short time and accepts again.
    pub fn on_accept(&self, outcome: AcceptOutcome) -> (r: AcceptAction)
        ensures
            r == accept_action_spec(outcome),
    {
        match outcome {
            AcceptOutcome::Accepted => AcceptAction::Serve,
            AcceptOutcome::Failed => AcceptAction::Backoff(ACCEPT_BACKOFF_MS),
        }
    }

    /// The error, if any, that one connection's session reports when it
    /// ends. It is that connection's alone: the listener goes on.
    pub fn on_session_end(&self, end: SessionEnd) -> (r: Option<TransportError>)
        ensures
            end is Closed ==> r is None,
            end is InitFailed ==> r == Some(TransportError::InitError(end->InitFailed_0)),
            end is Failed ==> r == Some(TransportError::ServiceError(end->Failed_0)),
    {
        match end {
            SessionEnd::Closed => None,
            SessionEnd::InitFailed(m) => Some(TransportError::InitError(m)),
            SessionEnd::Failed(m) => Some(TransportError::ServiceError(m)),
        }
    }
}

/// However accepts fail, each one is answered, every failure by the fixed
/// backoff and every later connection by a session of its own: the
/// listener never stops.
pub proof fn lemma_listener_survives_failures(outcomes: Seq<AcceptOutcome>)
    ensures
        accept_actions(outcomes).len() == outcomes.len(),
        forall|i: int| 0 <= i < outcomes.len() && outcomes[i] == AcceptOutcome::Failed
            ==> #[trigger] accept_actions(outcomes)[i] == AcceptAction::Backoff(ACCEPT_BACKOFF_MS),
        forall|i: int| 0 <= i < outcomes.len() && outcomes[i] == AcceptOutcome::Accepted
            ==> #[trigger] accept_actions(outcomes)[i] == AcceptAction::Serve,
{
}

/// The HTTP transport.
#[derive(Debug, Clone)]
pub struct HttpTransport {
    pub config: HttpConfig,
}

impl HttpTransport {
    pub fn new(config: HttpConfig) -> (r: HttpTransport)
        ensures
            r.config == config,
    {
        HttpTransport { config }
    }

    /// The HTTP transport of a configuration that names one.
    pub fn from_transport_config(config: &TransportConfig) -> (r: Option<HttpTransport>)
        ensures
            config is Http <==> r is Some,
            r is Some ==> r->Some_0.config.port == config->Http_0.port
                && r->Some_0.config.host@ == config->Http_0.host@
                && r->Some_0.config.rpc_path@ == config->Http_0.rpc_path@
                && r->Some_0.config.enable_cors == config->Http_0.enable_cors,
    {
        match config {
            TransportConfig::Http(c) => Some(HttpTransport::new(HttpConfig {
                port: c.port,
                host: c.host.clone(),
                rpc_path: c.rpc_path.clone(),
                enable_cors: c.enable_cors,
            })),
            _ => None,
        }
    }

    /// The address that the server binds.
    pub fn address(&self) -> (r: String)
        ensures
            r@ == address_spec(self.config.host@, self.config.port),
    {
        bind_address(&self.config.host, self.config.port)
    }

    /// The error that a failed bind becomes; it ends the process.
    pub fn bind_failed(&self, source: String) -> (r: TransportError)
        ensures
            r is BindError,
            r->address@ == address_spec(self.config.host@, self.config.port),
            r->source == source,
    {
        TransportError::bind(self.address(), source)
    }
}

/// The one transport that a service starts, with its settings.
#[derive(Debug, Clone)]
pub enum Launch {
    Stdio,
    Tcp(TcpTransport),
    Http(HttpTransport),
}

/// Holds the transport configuration and starts the transport that it
/// names.
#[derive(Debug, Clone)]
pub struct TransportService {
    pub config: TransportConfig,
}

impl TransportService {
    pub fn new(config: TransportConfig) -> (r: TransportService)
        ensures
            r.config == config,
    {
        TransportService { config }
    }

    /// A service on the transport that the environment selects.
    pub fn from_env(env: &TransportEnv) -> (r: TransportService)
        ensures
            env_selects(*env, r.config),
    {
        TransportService::new(TransportConfig::from_env(env))
    }

    pub fn config(&self) -> (r: &TransportConfig)
        ensures
            *r == self.config,
    {
        &self.config
    }

    /// The line logged when the transport starts.
    pub fn log_info(&self) -> (r: String)
        ensures
            r@ == "Starting transport: "@ + description_spec(self.config),
    {
        let mut s = String::from_str("Starting transport: ");
        s.append(self.config.description().as_str());
        s
    }

    /// The transport to run: exactly the one that the configuration names.
    pub fn launch(self) -> (r: Launch)
        ensures
            self.config is Stdio <==> r is Stdio,
            self.config is Tcp <==> r is Tcp,
            self.config is Http <==> r is Http,
            r is Tcp ==> r->Tcp_0.config == self.config->Tcp_0,
            r is Http ==> r->Http_0.config == self.config->Http_0,
    {
        match self.config {
            TransportConfig::Stdio => Launch::Stdio,
            TransportConfig::Tcp(c) => Launch::Tcp(TcpTransport::new(c)),
            TransportConfig::Http(c) => Launch::Http(HttpTransport::new(c)),
        }
    }
}

/// Builds a transport service step by step.
#[derive(Debug, Clone)]
pub struct TransportServiceBuilder {
    pub config: TransportConfig,
}

impl TransportServiceBuilder {
    /// A builder on the standard streams.
    pub fn new() -> (r: TransportServiceBuilder)
        ensures
            r.config is Stdio,
    {
        TransportServiceBuilder { config: TransportConfig::Stdio }
    }

    pub fn stdio(self) -> (r: TransportServiceBuilder)
        ensures
            r.config is Stdio,
    {
        TransportServiceBuilder { config: TransportConfig::stdio() }
    }

    pub fn tcp(self, port: u16, host: &str) -> (r: TransportServiceBuilder)
        ensures
            r.config is Tcp,
            r.config->Tcp_0.port == port,
            r.config->Tcp_0.host@ == host@,
    {
        TransportServiceBuilder { config: TransportConfig::tcp(port, host) }
    }

    pub fn http(self, port: u16, host: &str) -> (r: TransportServiceBuilder)
        ensures
            r.config is Http,
            r.config->Http_0.port == port,
            r.config->Http_0.host@ == host@,
            r.config->Http_0.rpc_path@ == "/mcp"@,
            r.config->Http_0.enable_cors,
    {
        TransportServiceBuilder { config: TransportConfig::http(port, host) }
    }

    pub fn from_env(self, env: &TransportEnv) -> (r: TransportServiceBuilder)
        ensures
            env_selects(*env, r.config),
    {
        TransportServiceBuilder { config: TransportConfig::from_env(env) }
    }

    pub fn build(self) -> (r: TransportService)
        ensures
            r.config == self.config,
    {
        TransportService::new(self.config)
    }
}

impl Default for TransportServiceBuilder {
    fn default() -> (r: TransportServiceBuilder)
        ensures
            r.config is Stdio,
    {
        TransportServiceBuilder::new()
    }
}

} // verus!
