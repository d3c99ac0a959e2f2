//! The adapter: per-server state, command resolution with provisioning done at
//! most once, initialization options and labels, each selected by identity.
use vstd::prelude::*;

use crate::command::{build_command, is_absolute_path, is_command_for, path_is_absolute, LaunchCommand};
use crate::label::{
    completion_label, completion_label_of, symbol_label, symbol_label_of, CompletionRecord,
    DisplayLabel, SymbolRecord,
};
use crate::options::{entries_map, initialization_options, InitOptions, OptionEntry};
use crate::registry::{classify, kind_of, AdapterError, ServerKind};

verus! {

/// What provisioning a server's executable came to.
#[derive(Clone, Debug)]
pub enum Provisioned {
    /// The executable is at `path`; `executable` tells whether the file there
    /// was found present and executable.
    Installed { path: String, executable: bool },
    /// Provisioning failed, for the given cause.
    Failed(String),
}

/// The first step of resolving a known server.
#[derive(Clone, Debug)]
pub enum ResolveStep {
    /// Start the server from the verified executable at this path.
    Start(String),
    /// Provision the executable of this server first.
    Provision(ServerKind),
}

/// What the adapter keeps for one server: the verified path of its
/// executable, once there is one, and how many times it was provisioned.
pub struct ServerState {
    pub resolved: Option<String>,
    pub provisions: Ghost<nat>,
}

/// The adapter, with the state of each known server that has been used.
pub struct Adapter {
    pub svls: Option<ServerState>,
}

/// Whether `r` is what finishing a provisioning of `kind` that came to
/// `outcome` returns, and `post` the adapter after it, from `pre`.
pub open spec fn provisioned_into(
    pre: Adapter,
    kind: ServerKind,
    outcome: Provisioned,
    env: Seq<(String, String)>,
    post: Adapter,
    r: Result<LaunchCommand, AdapterError>,
) -> bool {
    &&& post.provisions(kind) == pre.provisions(kind) + 1
    &&& post.state(kind) is Some
    &&& forall|k: ServerKind| k != kind ==> post.state(k) == pre.state(k)
    &&& match outcome {
        Provisioned::Installed { path, executable: _ } if !is_absolute_path(path@) => {
            &&& post.cached(kind) is None
            &&& r matches Err(AdapterError::NotAbsolute(k, p)) && k == kind && p@ == path@
        },
        Provisioned::Installed { path, executable: true } => {
            &&& post.cached(kind) == Some(path@)
            &&& r matches Ok(c) && is_command_for(c, path@, env)
        },
        Provisioned::Installed { path, executable: false } => {
            &&& post.cached(kind) is None
            &&& r matches Err(AdapterError::NotExecutable(k, p)) && k == kind && p@ == path@
        },
        Provisioned::Failed(cause) => {
            &&& post.cached(kind) is None
            &&& r matches Err(AdapterError::ProvisioningFailed(k, c)) && k == kind && c@ == cause@
        },
    }
}

/// Whether `r` is what resolving the identity `id` returns, and `post` the
/// adapter after it, from `pre`: an unknown identity is an error and changes
/// nothing; a server with a verified path is started from it without
/// provisioning; any other is provisioned once, and its path kept only where
/// the file was found executable.
pub open spec fn resolved_into(
    pre: Adapter,
    id: Seq<char>,
    env: Seq<(String, String)>,
    post: Adapter,
    r: Result<LaunchCommand, AdapterError>,
) -> bool {
    match kind_of(id) {
        None => {
            &&& post == pre
            &&& r matches Err(AdapterError::UnknownServer(t)) && t@ == id
        },
        Some(kind) => match pre.cached(kind) {
            Some(path) => {
                &&& post == pre
                &&& r matches Ok(c) && is_command_for(c, path, env)
            },
            None => exists|outcome: Provisioned|
                provisioned_into(pre, kind, outcome, env, post, r),
        },
    }
}

/// Once resolving an identity has succeeded, resolving it again provisions
/// nothing and changes nothing: over both calls its server is provisioned at
/// most once.
pub proof fn lemma_provisioned_at_most_once(
    a0: Adapter,
    a1: Adapter,
    a2: Adapter,
    id: Seq<char>,
    env1: Seq<(String, String)>,
    env2: Seq<(String, String)>,
    r1: Result<LaunchCommand, AdapterError>,
    r2: Result<LaunchCommand, AdapterError>,
)
    requires
        resolved_into(a0, id, env1, a1, r1),
        r1 is Ok,
        resolved_into(a1, id, env2, a2, r2),
    ensures
        a2 == a1,
        r2 is Ok,
        kind_of(id) matches Some(k) ==> a2.provisions(k) <= a0.provisions(k) + 1,
{
    if let Some(k) = kind_of(id) {
        if a0.cached(k) is None {
            let o = choose|o: Provisioned| provisioned_into(a0, k, o, env1, a1, r1);
            assert(provisioned_into(a0, k, o, env1, a1, r1));
        }
        assert(a1.cached(k) is Some);
    }
}

/// A command that resolution returns starts the executable whose path the
/// adapter keeps as verified for that server.
pub proof fn lemma_command_from_verified_path(
    pre: Adapter,
    id: Seq<char>,
    env: Seq<(String, String)>,
    post: Adapter,
    r: Result<LaunchCommand, AdapterError>,
)
    requires
        resolved_into(pre, id, env, post, r),
        r is Ok,
    ensures
        kind_of(id) is Some,
        post.cached(kind_of(id)->Some_0) == Some(r->Ok_0.command@),
        is_command_for(r->Ok_0, r->Ok_0.command@, env),
{
    let k = kind_of(id)->Some_0;
    if pre.cached(k) is None {
        let o = choose|o: Provisioned| provisioned_into(pre, k, o, env, post, r);
        assert(provisioned_into(pre, k, o, env, post, r));
    }
}

impl Adapter {
    /// The state of the server `kind`, once it has been used.
    pub open spec fn state(&self, kind: ServerKind) -> Option<ServerState> {
        match kind {
            ServerKind::Svls => self.svls,
        }
    }

    /// The verified path of the executable of `kind`, where there is one.
    pub open spec fn cached(&self, kind: ServerKind) -> Option<Seq<char>> {
        match self.state(kind) {
            Some(s) => match s.resolved {
                Some(p) => Some(p@),
                None => None,
            },
            None => None,
        }
    }

    /// How many times the executable of `kind` has been provisioned.
    pub open spec fn provisions(&self, kind: ServerKind) -> nat {
        match self.state(kind) {
            Some(s) => s.provisions@,
            None => 0,
        }
    }

    /// An adapter in which no server has been used yet.
    pub fn new() -> (r: Adapter)
        ensures
            forall|k: ServerKind| (#[trigger] r.state(k)) is None,
    {
        Adapter { svls: None }
    }

    /// Takes the state of `kind` out, or a fresh one where it has none.
    fn take_state(&mut self, kind: ServerKind) -> (r: ServerState)
        ensures
            old(self).state(kind) matches Some(s) ==> r == s,
            old(self).state(kind) is None ==> r.resolved is None && r.provisions@ == 0,
            final(self).state(kind) is None,
            forall|k: ServerKind| k != kind ==> final(self).state(k) == old(self).state(k),
    {
        match kind {
            ServerKind::Svls => match self.svls.take() {
                Some(s) => s,
                None => ServerState { resolved: None, provisions: Ghost(0) },
            },
        }
    }

    /// Puts `s` back as the state of `kind`.
    fn put_state(&mut self, kind: ServerKind, s: ServerState)
        ensures
            final(self).state(kind) == Some(s),
            forall|k: ServerKind| k != kind ==> final(self).state(k) == old(self).state(k),
    {
        match kind {
            ServerKind::Svls => {
                self.svls = Some(s);
            },
        }
    }

    /// The verified path of the executable of `kind`, where there is one.
    fn cached_path(&self, kind: ServerKind) -> (r: Option<String>)
        ensures
            r matches Some(p) ==> self.cached(kind) == Some(p@),
            r is None ==> self.cached(kind) is None,
    {
        match kind {
            ServerKind::Svls => match &self.svls {
                Some(s) => match &s.resolved {
                    Some(p) => Some(p.clone()),
                    None => None,
                },
                None => None,
            },
        }
    }

    /// Records a provisioning of `kind` that came to `outcome`, and returns the
    /// command that starts the server from it. The path is kept only where it
    /// is absolute and the file there was found executable; otherwise the error
    /// says why, and no path is kept.
    pub fn finish_provisioning(
        &mut self,
        kind: ServerKind,
        outcome: Provisioned,
        env: Vec<(String, String)>,
    ) -> (r: Result<LaunchCommand, AdapterError>)
        ensures
            provisioned_into(*old(self), kind, outcome, env@, *final(self), r),
    {
        let mut st = self.take_state(kind);
        st.provisions = Ghost(st.provisions@ + 1);
        let r = match outcome {
            Provisioned::Installed { path, executable } => {
                if !path_is_absolute(path.as_str()) {
                    st.resolved = None;
                    Err(AdapterError::NotAbsolute(kind, path))
                } else if executable {
                    st.resolved = Some(path.clone());
                    Ok(build_command(path, env))
                } else {
                    st.resolved = None;
                    Err(AdapterError::NotExecutable(kind, path))
                }
            },
            Provisioned::Failed(cause) => {
                st.resolved = None;
                Err(AdapterError::ProvisioningFailed(kind, cause))
            },
        };
        self.put_state(kind, st);
        r
    }

    /// The first step of resolving the server named `identity`: start it from
    /// its verified executable where there is one, or else provision it (and
    /// then hand the outcome to `finish_provisioning`). An unknown identity is
    /// an error. Nothing changes.
    pub fn resolve_step(&self, identity: &str) -> (r: Result<ResolveStep, AdapterError>)
        ensures
            kind_of(identity@) is None ==> (r matches Err(AdapterError::UnknownServer(t)) && t@
                == identity@),
            kind_of(identity@) matches Some(k) ==> match self.cached(k) {
                Some(p) => r matches Ok(ResolveStep::Start(q)) && q@ == p,
                None => r == Ok::<ResolveStep, AdapterError>(ResolveStep::Provision(k)),
            },
    {
        let kind = match classify(identity) {
            Ok(k) => k,
            Err(e) => {
                return Err(e);
            },
        };
        match self.cached_path(kind) {
            Some(path) => Ok(ResolveStep::Start(path)),
            None => Ok(ResolveStep::Provision(kind)),
        }
    }

    /// The command that starts the server named `identity`, in stdio mode with
    /// the environment `env`. A server whose executable was already verified
    /// is started from it; otherwise `provision` is called once to provision
    /// it. An unknown identity is an error, and then nothing is provisioned or
    /// changed.
    pub fn language_server_command<F: FnOnce(ServerKind) -> Provisioned>(
        &mut self,
        identity: &str,
        env: Vec<(String, String)>,
        provision: F,
    ) -> (r: Result<LaunchCommand, AdapterError>)
        requires
            forall|k: ServerKind| provision.requires((k,)),
        ensures
            resolved_into(*old(self), identity@, env@, *final(self), r),
            kind_of(identity@) is Some && old(self).cached(kind_of(identity@)->Some_0) is None
                ==> exists|o: Provisioned|
                provision.ensures((kind_of(identity@)->Some_0,), o) && provisioned_into(
                    *old(self),
                    kind_of(identity@)->Some_0,
                    o,
                    env@,
                    *final(self),
                    r,
                ),
    {
        match self.resolve_step(identity) {
            Err(e) => Err(e),
            Ok(ResolveStep::Start(path)) => Ok(build_command(path, env)),
            Ok(ResolveStep::Provision(kind)) => {
                let outcome = provision(kind);
                let ghost o = outcome;
                let r = self.finish_provisioning(kind, outcome, env);
                assert(provision.ensures((kind,), o));
                assert(provisioned_into(*old(self), kind, o, env@, *self, r));
                r
            },
        }
    }

    /// Forgets the verified executable of `kind`, so that the next resolution
    /// provisions it again.
    pub fn invalidate(&mut self, kind: ServerKind)
        ensures
            final(self).cached(kind) is None,
            final(self).provisions(kind) == old(self).provisions(kind),
            forall|k: ServerKind| k != kind ==> final(self).state(k) == old(self).state(k),
    {
        match kind {
            ServerKind::Svls => {
                if let Some(s) = &mut self.svls {
                    s.resolved = None;
                }
            },
        }
    }

    /// The initialization options for the server named `identity`: its
    /// defaults, which are empty, merged with the overrides that the settings
    /// lookup found. A failed lookup leaves the defaults; it never fails.
    pub fn language_server_initialization_options(
        &self,
        identity: &str,
        lookup: &Result<Option<Vec<OptionEntry>>, String>,
    ) -> (r: InitOptions)
        ensures
            r.well_formed(),
            lookup matches Ok(Some(o)) ==> r.view_map() == entries_map(o@),
            !(lookup matches Ok(Some(_))) ==> r.view_map() == Map::<Seq<char>, Seq<char>>::empty(),
    {
        let defaults: Vec<OptionEntry> = Vec::new();
        let r = initialization_options(&defaults, lookup);
        proof {
            if let Ok(Some(o)) = lookup {
                assert(defaults@ + o@ =~= o@);
            }
        }
        r
    }

    /// The label of `symbol` from the server named `identity`; `None` for an
    /// unknown identity.
    pub fn label_for_symbol(&self, identity: &str, symbol: &SymbolRecord) -> (r: Option<
        DisplayLabel,
    >)
        ensures
            kind_of(identity@) matches Some(k) ==> symbol_label_of(k, *symbol, r),
            kind_of(identity@) is None ==> r is None,
    {
        match classify(identity) {
            Ok(k) => symbol_label(k, symbol),
            Err(_) => None,
        }
    }

    /// The label of `completion` from the server named `identity`; `None` for
    /// an unknown identity.
    pub fn label_for_completion(&self, identity: &str, completion: &CompletionRecord) -> (r: Option<
        DisplayLabel,
    >)
        ensures
            kind_of(identity@) matches Some(k) ==> completion_label_of(k, *completion, r),
            kind_of(identity@) is None ==> r is None,
    {
        match classify(identity) {
            Ok(k) => completion_label(k, completion),
            Err(_) => None,
        }
    }
}

} // verus!
