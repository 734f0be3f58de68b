//! Endpoint discovery: locating (client) or choosing (daemon) the filesystem
//! path of the local IPC endpoint, in a fixed, short-circuiting priority
//! order — explicit override, then environment, then well-known local files.
use vstd::prelude::*;
use vstd::string::{StringExecFns, StrSliceExecFns};

verus! {

/// Why discovery failed.
#[derive(Debug, Clone, Copy, PartialEq, Eq, Structural)]
pub enum DiscoveryError {
    /// No override was supplied, no configured environment variable was set
    /// and non-empty, and no well-known local file exists.
    EndpointNotFound,
}

/// Naming policy for well-known local endpoint files: probe the bare name,
/// the dot-prefixed name, or both (bare first).
#[derive(Debug, Clone, Copy, PartialEq, Eq, Structural)]
pub enum Visibility {
    Hidden,
    NotHidden,
    Both,
}

impl Default for Visibility {
    /// The default policy probes both spellings.
    fn default() -> (r: Self)
        ensures
            r == Visibility::Both,
    {
        Visibility::Both
    }
}

/// True when a probed environment value counts as a hit: set and non-empty.
/// An unset or empty variable is absent, not an error.
pub open spec fn env_hit(v: Option<String>) -> bool {
    v matches Some(s) && s@.len() > 0
}

/// The paths probed for one well-known name under a visibility policy, in
/// probe order: the bare `./name` spelling, the hidden `./.name` spelling,
/// or both with bare first.
pub open spec fn candidates_of(name: Seq<char>, vis: Visibility) -> Seq<Seq<char>> {
    match vis {
        Visibility::NotHidden => seq!["./"@ + name],
        Visibility::Hidden => seq!["./."@ + name],
        Visibility::Both => seq!["./"@ + name, "./."@ + name],
    }
}

/// All paths probed for a list of names, each name's candidates in order.
pub open spec fn candidate_list(names: Seq<Seq<char>>, vis: Visibility) -> Seq<Seq<char>>
    decreases names.len(),
{
    if names.len() == 0 {
        Seq::<Seq<char>>::empty()
    } else {
        candidates_of(names[0], vis) + candidate_list(names.drop_first(), vis)
    }
}

/// Discovery of the endpoint through well-known local filenames, with an
/// optional list of names and an optional visibility policy; unset fields
/// fall back to the defaults (`pfd.sock`, probe both spellings).
pub struct LocalFileStrategy {
    pub socket_names: Option<Vec<String>>,
    pub visibility: Option<Visibility>,
}

impl LocalFileStrategy {
    /// The names probed: the configured list, or the single default name.
    pub open spec fn effective_names(&self) -> Seq<Seq<char>> {
        match self.socket_names {
            Some(v) => v.deep_view(),
            None => seq!["pfd.sock"@],
        }
    }

    /// The visibility policy in effect: the configured one, or `Both`.
    pub open spec fn effective_visibility(&self) -> Visibility {
        match self.visibility {
            Some(v) => v,
            None => Visibility::Both,
        }
    }

    /// The name the daemon creates its endpoint under: the first configured
    /// name, or the default when none is configured.
    pub open spec fn create_name(&self) -> Seq<char> {
        match self.socket_names {
            Some(v) => if v.len() > 0 {
                v.deep_view()[0]
            } else {
                "pfd.sock"@
            },
            None => "pfd.sock"@,
        }
    }

    /// The canonical path the daemon creates: dot-prefixed unless the policy
    /// is `NotHidden`. Under `Both` the daemon creates the hidden spelling
    /// while a discovering client also accepts a pre-existing bare one.
    pub open spec fn spec_create_path(&self) -> Seq<char> {
        match self.effective_visibility() {
            Visibility::NotHidden => "./"@ + self.create_name(),
            Visibility::Hidden => "./."@ + self.create_name(),
            Visibility::Both => "./."@ + self.create_name(),
        }
    }

    /// A strategy with every field unset, so that the defaults apply.
    pub fn new() -> (r: Self)
        ensures
            r.socket_names is None,
            r.visibility is None,
    {
        Self { socket_names: None, visibility: None }
    }

    /// Sets the list of well-known names to probe; visibility is unchanged.
    pub fn with_socket_names(self, names: Vec<String>) -> (r: Self)
        ensures
            r.socket_names == Some(names),
            r.visibility == self.visibility,
    {
        Self { socket_names: Some(names), visibility: self.visibility }
    }

    /// Sets the visibility policy; the name list is unchanged.
    pub fn with_visibility(self, visibility: Visibility) -> (r: Self)
        ensures
            r.socket_names == self.socket_names,
            r.visibility == Some(visibility),
    {
        Self { socket_names: self.socket_names, visibility: Some(visibility) }
    }

    /// Every path this strategy probes, in probe order.
    pub fn candidate_paths(&self) -> (r: Vec<String>)
        ensures
            r.deep_view() == candidate_list(self.effective_names(), self.effective_visibility()),
    {
        let vis = match self.visibility {
            Some(v) => v,
            None => Visibility::Both,
        };
        let mut out: Vec<String> = Vec::new();
        match &self.socket_names {
            None => {
                push_candidates(&mut out, "pfd.sock", vis);
                proof {
                    let names = self.effective_names();
                    assert(names.drop_first() =~= Seq::<Seq<char>>::empty());
                    assert(out.deep_view() =~= candidates_of("pfd.sock"@, vis) + candidate_list(
                        names.drop_first(),
                        vis,
                    ));
                }
            },
            Some(names) => {
                let ghost nv = names.deep_view();
                let mut i: usize = 0;
                while i < names.len()
                    invariant
                        i <= names.len(),
                        nv == names.deep_view(),
                        out.deep_view() == candidate_list(nv.take(i as int), vis),
                    decreases names.len() - i,
                {
                    push_candidates(&mut out, names[i].as_str(), vis);
                    proof {
                        lemma_candidate_list_snoc(nv.take(i as int), nv[i as int], vis);
                        assert(nv.take(i as int).push(nv[i as int]) =~= nv.take(i + 1));
                    }
                    i += 1;
                }
                proof {
                    assert(nv.take(names.len() as int) =~= nv);
                }
            },
        }
        out
    }

    /// Probes each candidate path in order; the first that exists on disk
    /// wins. Whether a path exists only the filesystem decides, so the
    /// contract promises membership: any path returned is one of this
    /// strategy's candidates.
    pub fn discover(&self) -> (r: Option<String>)
        ensures
            r matches Some(p) ==> candidate_list(
                self.effective_names(),
                self.effective_visibility(),
            ).contains(p@),
    {
        let cands = self.candidate_paths();
        let mut i: usize = 0;
        while i < cands.len()
            invariant
                i <= cands.len(),
                cands.deep_view() == candidate_list(
                    self.effective_names(),
                    self.effective_visibility(),
                ),
            decreases cands.len() - i,
        {
            if path_exists(&cands[i]) {
                let found = cands[i].clone();
                proof {
                    assert(cands.deep_view()[i as int] == found@);
                }
                return Some(found);
            }
            i += 1;
        }
        None
    }

    /// The daemon's canonical endpoint path, chosen deterministically and
    /// without probing the disk: the first configured name, dot-prefixed
    /// unless the policy is `NotHidden`.
    pub fn create(&self) -> (r: String)
        ensures
            r@ == self.spec_create_path(),
    {
        let name: &str = match &self.socket_names {
            Some(v) => if v.len() > 0 {
                v[0].as_str()
            } else {
                "pfd.sock"
            },
            None => "pfd.sock",
        };
        let vis = match self.visibility {
            Some(v) => v,
            None => Visibility::Both,
        };
        match vis {
            Visibility::NotHidden => String::from_str("./").concat(name),
            Visibility::Hidden => String::from_str("./.").concat(name),
            Visibility::Both => String::from_str("./.").concat(name),
        }
    }
}

impl Default for LocalFileStrategy {
    /// Same as [`LocalFileStrategy::new`]: every field unset.
    fn default() -> (r: Self)
        ensures
            r.socket_names is None,
            r.visibility is None,
    {
        LocalFileStrategy::new()
    }
}

/// Appends the candidate spellings for one name under a policy.
fn push_candidates(out: &mut Vec<String>, name: &str, vis: Visibility)
    ensures
        final(out).deep_view() == old(out).deep_view() + candidates_of(name@, vis),
{
    let ghost before = out.deep_view();
    match vis {
        Visibility::NotHidden => {
            out.push(String::from_str("./").concat(name));
        },
        Visibility::Hidden => {
            out.push(String::from_str("./.").concat(name));
        },
        Visibility::Both => {
            out.push(String::from_str("./").concat(name));
            out.push(String::from_str("./.").concat(name));
        },
    }
    proof {
        assert(out.deep_view() =~= before + candidates_of(name@, vis));
    }
}

/// Appending one name extends the candidate list by that name's candidates.
proof fn lemma_candidate_list_snoc(names: Seq<Seq<char>>, name: Seq<char>, vis: Visibility)
    ensures
        candidate_list(names.push(name), vis) == candidate_list(names, vis) + candidates_of(
            name,
            vis,
        ),
    decreases names.len(),
{
    if names.len() == 0 {
        assert(names.push(name)[0] == name);
        assert(names.push(name).drop_first() =~= names);
        assert(candidate_list(names.push(name), vis) =~= candidate_list(names, vis)
            + candidates_of(name, vis));
    } else {
        assert(names.push(name)[0] == names[0]);
        assert(names.push(name).drop_first() =~= names.drop_first().push(name));
        lemma_candidate_list_snoc(names.drop_first(), name, vis);
        assert(candidate_list(names.push(name), vis) =~= candidate_list(names, vis)
            + candidates_of(name, vis));
    }
}

/// Relies on std::path::Path::exists: whether something exists on disk at
/// the path right now. The answer depends on the filesystem alone, so no
/// more is assumed of it; `Path::new` merely converts the borrowed string.
#[verifier::external_body]
fn path_exists(path: &String) -> bool {
    std::path::Path::new(path.as_str()).exists()
}

/// Discovery of the endpoint through one environment variable, probed by the
/// caller; the decision on the probed value is made here.
pub struct EnvStrategy {
    pub env_var: String,
}

impl EnvStrategy {
    /// The discovery decision on a probed environment value: a set,
    /// non-empty value wins; an unset or empty variable is absent.
    pub fn discover_value(&self, value: Option<String>) -> (r: Option<String>)
        ensures
            env_hit(value) ==> r == value,
            !env_hit(value) ==> r is None,
    {
        match value {
            Some(s) => if s.as_str().is_empty() {
                None
            } else {
                Some(s)
            },
            None => None,
        }
    }
}

/// How the resolver is directed: an optional explicit endpoint override
/// (for example from a command-line flag).
pub struct DiscoveryConfig {
    pub socket_arg: Option<String>,
}

impl Default for DiscoveryConfig {
    /// No override: discovery falls through to environment and local files.
    fn default() -> (r: Self)
        ensures
            r.socket_arg is None,
    {
        DiscoveryConfig { socket_arg: None }
    }
}

/// The fixed resolution pipeline over already-probed inputs, strict in
/// priority: an explicit override wins unconditionally, with no existence
/// check; otherwise a set, non-empty environment value; otherwise a local
/// candidate found on disk; otherwise the endpoint is not found.
pub fn resolve_priority(explicit: Option<String>, env_value: Option<String>, local: Option<
    String,
>) -> (r: Result<String, DiscoveryError>)
    ensures
        explicit matches Some(s) ==> r == Ok::<String, DiscoveryError>(s),
        explicit is None && env_hit(env_value) ==> r == Ok::<String, DiscoveryError>(
            env_value.unwrap(),
        ),
        explicit is None && !env_hit(env_value) && local is Some ==> r == Ok::<
            String,
            DiscoveryError,
        >(local->0),
        explicit is None && !env_hit(env_value) && local is None ==> r == Err::<
            String,
            DiscoveryError,
        >(DiscoveryError::EndpointNotFound),
{
    match explicit {
        Some(s) => Ok(s),
        None => {
            let from_env = match env_value {
                Some(s) => if s.as_str().is_empty() {
                    None
                } else {
                    Some(s)
                },
                None => None,
            };
            match from_env {
                Some(s) => Ok(s),
                None => match local {
                    Some(p) => Ok(p),
                    None => Err(DiscoveryError::EndpointNotFound),
                },
            }
        },
    }
}

/// Resolves the endpoint for a client: the explicit override from the
/// configuration, else the probed environment value (set and non-empty),
/// else the first default well-known file that exists on disk — probed only
/// when the earlier strategies missed — else `EndpointNotFound`.
///
/// `env_socket` is the probed value of the daemon's endpoint environment
/// variable, supplied by the caller, which owns process-environment access.
pub fn discover_socket(config: DiscoveryConfig, env_socket: Option<String>) -> (r: Result<
    String,
    DiscoveryError,
>)
    ensures
        config.socket_arg matches Some(s) ==> r == Ok::<String, DiscoveryError>(s),
        config.socket_arg is None && env_hit(env_socket) ==> r == Ok::<String, DiscoveryError>(
            env_socket.unwrap(),
        ),
        config.socket_arg is None && !env_hit(env_socket) ==> match r {
            Ok(p) => candidate_list(seq!["pfd.sock"@], Visibility::Both).contains(p@),
            Err(e) => e == DiscoveryError::EndpointNotFound,
        },
{
    let explicit_set = config.socket_arg.is_some();
    let env = EnvStrategy { env_var: String::from_str("PFD_SOCKET") };
    let env_value = env.discover_value(env_socket);
    let local = if !explicit_set && env_value.is_none() {
        LocalFileStrategy::new().discover()
    } else {
        None
    };
    resolve_priority(config.socket_arg, env_value, local)
}

} // verus!
