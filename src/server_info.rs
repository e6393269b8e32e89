//! The descriptor that a running server writes about itself, where it is
//! kept, and what of it is trusted.
use vstd::prelude::*;

verus! {

/// What a running server records about where it listens.
///
/// The record is written by the server; its `url` is not trusted until a
/// health probe has answered.
#[derive(Debug)]
pub struct ServerInfo {
    pub port: u16,
    pub hostname: String,
    pub url: String,
    pub pid: u32,
    pub start_time: String,
}

/// Why discovery or launch could not go on.
#[derive(Debug)]
pub enum DiscoveryError {
    /// Neither a state directory nor a home directory is known.
    Config,
    /// The descriptor file exists but could not be read or parsed.
    Persistence(String),
    /// Whether the recorded process lives could not be checked.
    Liveness(String),
    /// The bundled server executable could not be found.
    Resource,
    /// The operating system refused to start the server.
    Spawn(String),
    /// The server did not become healthy before the deadline.
    Timeout,
}

/// The kind and detail of a `DiscoveryError`.
pub enum Failure {
    Config,
    Persistence(Seq<char>),
    Liveness(Seq<char>),
    Resource,
    Spawn(Seq<char>),
    Timeout,
}

impl View for DiscoveryError {
    type V = Failure;

    open spec fn view(&self) -> Failure {
        match self {
            DiscoveryError::Config => Failure::Config,
            DiscoveryError::Persistence(e) => Failure::Persistence(e@),
            DiscoveryError::Liveness(e) => Failure::Liveness(e@),
            DiscoveryError::Resource => Failure::Resource,
            DiscoveryError::Spawn(e) => Failure::Spawn(e@),
            DiscoveryError::Timeout => Failure::Timeout,
        }
    }
}

/// The sentence that tells a user what went wrong.
pub open spec fn message_spec(f: Failure) -> Seq<char> {
    match f {
        Failure::Config => "Could not determine home directory"@,
        Failure::Persistence(e) => "Failed to load server info: "@ + e,
        Failure::Liveness(e) => "Failed to check process: "@ + e,
        Failure::Resource => "Failed to resolve Kuuzuki binary path"@,
        Failure::Spawn(e) => "Failed to start Kuuzuki: "@ + e,
        Failure::Timeout => "Server failed to start within timeout"@,
    }
}

impl DiscoveryError {
    /// A human-readable account of the error, naming its kind.
    pub fn message(&self) -> (r: String)
        ensures
            r@ == message_spec(self@),
    {
        proof {
            reveal_strlit("Could not determine home directory");
            reveal_strlit("Failed to load server info: ");
            reveal_strlit("Failed to check process: ");
            reveal_strlit("Failed to resolve Kuuzuki binary path");
            reveal_strlit("Failed to start Kuuzuki: ");
            reveal_strlit("Server failed to start within timeout");
        }
        match self {
            DiscoveryError::Config => String::from_str("Could not determine home directory"),
            DiscoveryError::Persistence(e) => String::from_str("Failed to load server info: ").concat(
                e.as_str(),
            ),
            DiscoveryError::Liveness(e) => String::from_str("Failed to check process: ").concat(
                e.as_str(),
            ),
            DiscoveryError::Resource => String::from_str("Failed to resolve Kuuzuki binary path"),
            DiscoveryError::Spawn(e) => String::from_str("Failed to start Kuuzuki: ").concat(
                e.as_str(),
            ),
            DiscoveryError::Timeout => String::from_str("Server failed to start within timeout"),
        }
    }

    /// An equal copy of the error.
    pub fn duplicate(&self) -> (r: DiscoveryError)
        ensures
            r@ == self@,
    {
        match self {
            DiscoveryError::Config => DiscoveryError::Config,
            DiscoveryError::Persistence(e) => DiscoveryError::Persistence(e.clone()),
            DiscoveryError::Liveness(e) => DiscoveryError::Liveness(e.clone()),
            DiscoveryError::Resource => DiscoveryError::Resource,
            DiscoveryError::Spawn(e) => DiscoveryError::Spawn(e.clone()),
            DiscoveryError::Timeout => DiscoveryError::Timeout,
        }
    }
}

/// The state directory: the override when there is one, else
/// `<home>/.local/state`, with the first home directory that is known.
pub open spec fn state_dir_spec(
    state_override: Option<Seq<char>>,
    home: Option<Seq<char>>,
    alt_home: Option<Seq<char>>,
) -> Option<Seq<char>> {
    match state_override {
        Some(d) => Some(d),
        None => match home {
            Some(h) => Some(h + "/.local/state"@),
            None => match alt_home {
                Some(h) => Some(h + "/.local/state"@),
                None => None,
            },
        },
    }
}

/// The view of an optional string.
pub open spec fn opt_view(o: Option<String>) -> Option<Seq<char>> {
    match o {
        Some(s) => Some(s@),
        None => None,
    }
}

/// The descriptor's place below the state directory.
pub open spec fn server_info_path_spec(state_dir: Seq<char>) -> Seq<char> {
    state_dir + "/kuuzuki/server.json"@
}

/// Resolves the state directory from the values of the override variable and
/// of the two home variables, as far as each is set.
pub fn state_dir(
    state_override: Option<String>,
    home: Option<String>,
    alt_home: Option<String>,
) -> (r: Result<String, DiscoveryError>)
    ensures
        match state_dir_spec(opt_view(state_override), opt_view(home), opt_view(alt_home)) {
            Some(d) => r is Ok && r->Ok_0@ == d,
            None => r is Err && r->Err_0 is Config,
        },
{
    proof {
        reveal_strlit("/.local/state");
    }
    match state_override {
        Some(d) => Ok(d),
        None => match home {
            Some(h) => Ok(h.concat("/.local/state")),
            None => match alt_home {
                Some(h) => Ok(h.concat("/.local/state")),
                None => Err(DiscoveryError::Config),
            },
        },
    }
}

/// Where the descriptor file lies below `state_dir`.
pub fn server_info_path(state_dir: &str) -> (r: String)
    ensures
        r@ == server_info_path_spec(state_dir@),
{
    proof {
        reveal_strlit("/kuuzuki/server.json");
    }
    String::from_str(state_dir).concat("/kuuzuki/server.json")
}

/// What reading the descriptor file gives, once its contents are known.
///
/// `file` is `None` when no file exists, else what reading and parsing gave;
/// `alive` is what checking the recorded process gave, and is looked at only
/// when a descriptor was parsed. A host that cannot check processes passes
/// `Ok(true)` and leaves staleness to the health probe.
pub fn hint_outcome(
    file: Option<Result<ServerInfo, String>>,
    alive: Result<bool, String>,
) -> (r: Result<Option<ServerInfo>, DiscoveryError>)
    ensures
        match file {
            None => r is Ok && r->Ok_0 is None,
            Some(Err(e)) => r is Err && r->Err_0 == DiscoveryError::Persistence(e),
            Some(Ok(info)) => match alive {
                Err(e) => r is Err && r->Err_0 == DiscoveryError::Liveness(e),
                Ok(false) => r is Ok && r->Ok_0 is None,
                Ok(true) => r is Ok && r->Ok_0 == Some(info),
            },
        },
{
    match file {
        None => Ok(None),
        Some(Err(e)) => Err(DiscoveryError::Persistence(e)),
        Some(Ok(info)) => match alive {
            Err(e) => Err(DiscoveryError::Liveness(e)),
            Ok(false) => Ok(None),
            Ok(true) => Ok(Some(info)),
        },
    }
}

/// The URL of a hint that reading gave, if it gave one; a failed read is
/// treated as no hint.
pub open spec fn hint_url_spec(hint: Result<Option<ServerInfo>, DiscoveryError>) -> Option<Seq<char>> {
    match hint {
        Ok(Some(info)) => Some(info.url@),
        _ => None,
    }
}

} // verus!
