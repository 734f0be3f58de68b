//! The client's protocol logic for one invocation: build the execution
//! context from the parsed command line, serialize it, and resolve the
//! endpoint — all of it pure computation over values the surrounding process
//! captures (arguments, working directory, environment probes). The send
//! itself, and process exit, belong to that surrounding process.
use vstd::prelude::*;
use vstd::string::{StringExecFns, StrSliceExecFns};
use crate::codec::{enc_ctx, CodecError, MAX_PAYLOAD};
use crate::context::{ContextView, ExecutionContext};
use crate::discovery::{
    candidate_list, discover_socket, env_hit, DiscoveryConfig, DiscoveryError, EnvStrategy,
    Visibility,
};
use crate::transport::{IoErrorKind, TransportError};

verus! {

/// The client's command-line surface, as the surrounding binary parses it:
/// the command to run, its trailing arguments, an optional endpoint
/// override, a repeatable verbosity flag, and quiet mode.
pub struct Cli {
    pub command: String,
    pub args: Vec<String>,
    pub socket: Option<String>,
    pub verbose: u8,
    pub quiet: bool,
}

/// The log filter a verbosity count selects: warnings by default, info at
/// one occurrence, debug from two on.
pub fn verbosity_filter(verbose: u8) -> (r: &'static str)
    ensures
        verbose == 0 ==> r@ == "warn"@,
        verbose == 1 ==> r@ == "info"@,
        verbose >= 2 ==> r@ == "debug"@,
{
    if verbose == 0 {
        "warn"
    } else if verbose == 1 {
        "info"
    } else {
        "debug"
    }
}

/// Everything that can fail a client invocation, by category. Any of these
/// is fatal to the client: it reports and exits nonzero.
#[derive(Debug, Clone, Copy, PartialEq, Eq, Structural)]
pub enum ClientError {
    /// Discovery found no endpoint.
    EndpointNotFound,
    /// The execution context could not be serialized.
    Codec(CodecError),
    /// The transport failed.
    Transport(TransportError),
}

/// The one-line message for an error, as a character sequence.
pub open spec fn message_of(e: ClientError) -> Seq<char> {
    match e {
        ClientError::EndpointNotFound => "No pfd socket found"@,
        ClientError::Codec(CodecError::TooLarge) => "Execution context exceeds the message capacity"@,
        ClientError::Codec(CodecError::Malformed) => "Malformed execution context payload"@,
        ClientError::Transport(TransportError::TooManyDescriptors) => "Too many file descriptors for one message"@,
        ClientError::Transport(TransportError::Io(IoErrorKind::PermissionDenied)) => "Permission denied"@,
        ClientError::Transport(TransportError::Io(IoErrorKind::ConnectionRefused)) => "Connection refused"@,
        ClientError::Transport(TransportError::Io(IoErrorKind::BrokenPipe)) => "Broken pipe"@,
        ClientError::Transport(TransportError::Io(IoErrorKind::NotFound)) => "Socket not found"@,
        ClientError::Transport(TransportError::Io(IoErrorKind::Other)) => "I/O error"@,
    }
}

/// The suggestion shown for an error of a known category, if any.
pub open spec fn suggestion_of(e: ClientError) -> Option<Seq<char>> {
    match e {
        ClientError::EndpointNotFound => Some("Start the pfd daemon first with 'pfd' command"@),
        ClientError::Transport(TransportError::Io(IoErrorKind::PermissionDenied)) => Some(
            "Check file permissions and try running with appropriate access"@,
        ),
        ClientError::Transport(TransportError::Io(IoErrorKind::ConnectionRefused)) => Some(
            "The pfd daemon may not be running. Try starting it first"@,
        ),
        _ => None,
    }
}

/// The full report for an error: the message line, then the suggestion
/// block when the category has one.
pub open spec fn display_of(e: ClientError) -> Seq<char> {
    "Error: "@ + message_of(e) + "\n"@ + match suggestion_of(e) {
        Some(s) => "\nSuggestion: "@ + s + "\n"@,
        None => Seq::<char>::empty(),
    }
}

/// The one-line message for an error.
pub fn error_message(err: &ClientError) -> (r: &'static str)
    ensures
        r@ == message_of(*err),
{
    match err {
        ClientError::EndpointNotFound => "No pfd socket found",
        ClientError::Codec(CodecError::TooLarge) => "Execution context exceeds the message capacity",
        ClientError::Codec(CodecError::Malformed) => "Malformed execution context payload",
        ClientError::Transport(TransportError::TooManyDescriptors) => "Too many file descriptors for one message",
        ClientError::Transport(TransportError::Io(IoErrorKind::PermissionDenied)) => "Permission denied",
        ClientError::Transport(TransportError::Io(IoErrorKind::ConnectionRefused)) => "Connection refused",
        ClientError::Transport(TransportError::Io(IoErrorKind::BrokenPipe)) => "Broken pipe",
        ClientError::Transport(TransportError::Io(IoErrorKind::NotFound)) => "Socket not found",
        ClientError::Transport(TransportError::Io(IoErrorKind::Other)) => "I/O error",
    }
}

/// The one-line actionable suggestion for an error of a known category:
/// exactly for a missing endpoint, a permission failure, and a refused
/// connection; no other error carries one.
pub fn suggest_fix(err: &ClientError) -> (r: Option<&'static str>)
    ensures
        match r {
            Some(s) => suggestion_of(*err) == Some(s@),
            None => suggestion_of(*err) is None,
        },
{
    match err {
        ClientError::EndpointNotFound => Some("Start the pfd daemon first with 'pfd' command"),
        ClientError::Transport(TransportError::Io(IoErrorKind::PermissionDenied)) => Some(
            "Check file permissions and try running with appropriate access",
        ),
        ClientError::Transport(TransportError::Io(IoErrorKind::ConnectionRefused)) => Some(
            "The pfd daemon may not be running. Try starting it first",
        ),
        _ => None,
    }
}

/// Renders the full report for an error: the message line, then the
/// suggestion block for the known categories.
pub fn display_error(err: &ClientError) -> (r: String)
    ensures
        r@ == display_of(*err),
{
    let mut out = String::from_str("Error: ");
    out.append(error_message(err));
    out.append("\n");
    match suggest_fix(err) {
        Some(s) => {
            out.append("\nSuggestion: ");
            out.append(s);
            out.append("\n");
        },
        None => {},
    }
    out
}

/// What the client prepared for one invocation: where to send, and the
/// serialized context to send.
pub struct ClientRequest {
    pub socket_path: String,
    pub payload: Vec<u8>,
}

/// The context a client invocation describes: the captured working
/// directory, the command, its arguments in order, and no environment pairs.
pub open spec fn request_context(cli: Cli, cwd: Seq<char>) -> ContextView {
    ContextView {
        working_dir: cwd,
        command: cli.command@,
        args: cli.args.deep_view(),
        env: Seq::<(Seq<char>, Seq<char>)>::empty(),
    }
}

/// The client's computation for one invocation: build the context from the
/// parsed command line and the captured working directory, serialize it,
/// then resolve the endpoint — the explicit override, else the first set,
/// non-empty probed environment value (the client's variable, then the
/// daemon's), else the first default well-known file on disk. The
/// surrounding process supplies the probed values and performs the send.
pub fn prepare_request(cli: Cli, cwd: String, pfc_socket: Option<String>, pfd_socket: Option<
    String,
>) -> (r: Result<ClientRequest, ClientError>)
    ensures
        r matches Ok(q) ==> {
            &&& q.payload@ == enc_ctx(request_context(cli, cwd@))
            &&& q.payload@.len() <= MAX_PAYLOAD
            &&& (cli.socket matches Some(s) ==> q.socket_path == s)
            &&& (cli.socket is None && env_hit(pfc_socket) ==> q.socket_path == pfc_socket->0)
            &&& (cli.socket is None && !env_hit(pfc_socket) && env_hit(pfd_socket)
                ==> q.socket_path == pfd_socket->0)
            &&& (cli.socket is None && !env_hit(pfc_socket) && !env_hit(pfd_socket)
                ==> candidate_list(seq!["pfd.sock"@], Visibility::Both).contains(q.socket_path@))
        },
        r matches Err(e) ==> {
            ||| (e == ClientError::Codec(CodecError::TooLarge) && enc_ctx(
                request_context(cli, cwd@),
            ).len() > MAX_PAYLOAD as int)
            ||| (e == ClientError::EndpointNotFound && cli.socket is None && !env_hit(pfc_socket)
                && !env_hit(pfd_socket))
        },
{
    let ghost cv = request_context(cli, cwd@);
    let ctx = ExecutionContext::new(cwd, cli.command).with_args(cli.args);
    proof {
        assert(ctx@ =~= cv);
    }
    let payload = match ctx.serialize() {
        Ok(b) => b,
        Err(e) => {
            return Err(ClientError::Codec(e));
        },
    };
    let pfc = EnvStrategy { env_var: String::from_str("PFC_SOCKET") };
    let env_value = match pfc.discover_value(pfc_socket) {
        Some(s) => Some(s),
        None => {
            let pfd = EnvStrategy { env_var: String::from_str("PFD_SOCKET") };
            pfd.discover_value(pfd_socket)
        },
    };
    let config = DiscoveryConfig { socket_arg: cli.socket };
    match discover_socket(config, env_value) {
        Ok(p) => Ok(ClientRequest { socket_path: p, payload }),
        Err(DiscoveryError::EndpointNotFound) => Err(ClientError::EndpointNotFound),
    }
}

} // verus!
