use vstd::prelude::*;

use crate::consistency::HashSnapshot;
use crate::sim::Simulation;

verus! {

/// How often the divergence display resamples the simulation's hashes when
/// no cadence of its own has been chosen: once every this many ticks.
pub const DEFAULT_HASH_CADENCE: u64 = 100;

/// A token for a bound server transport. The socket work behind it lives
/// outside this crate; the token names which transport resource the session
/// currently owns.
#[derive(PartialEq, Eq, Structural, Clone, Copy, Debug)]
pub struct ServerHandle {
    /// Names the transport resource held on behalf of this session.
    pub token: u64,
}

/// A token for an established client connection, named like
/// [`ServerHandle`].
#[derive(PartialEq, Eq, Structural, Clone, Copy, Debug)]
pub struct ClientHandle {
    /// Names the transport resource held on behalf of this session.
    pub token: u64,
}

/// The networking role of the local process. Exactly one variant is active
/// at a time; a variant change relinquishes the previous handle before the
/// new one is installed, so two roles never overlap.
#[derive(PartialEq, Eq, Structural, Clone, Copy, Debug)]
pub enum SessionState {
    /// No networking: the local simulation runs alone.
    Standalone,
    /// Connected to a remote server.
    Client(ClientHandle),
    /// Serving remote clients.
    Server(ServerHandle),
}

/// What the connection dialog works with: the display name and target
/// address the user typed, the last connection error to surface, and the
/// cached hash snapshot shown to diagnose divergence between replicas.
pub struct NetworkConnectionInfo {
    /// The display name the user connects or serves under.
    pub name: String,
    /// The address a client connection targets.
    pub ip: String,
    /// The last connection error, empty when none is to be shown.
    pub error: String,
    /// Whether the per-subsystem hash display is shown at all.
    pub show_hashes: bool,
    /// The snapshot currently cached for that display, if one was taken.
    pub cache: Option<HashSnapshot>,
    /// The display resamples once every this many ticks.
    pub cadence: u64,
}

impl NetworkConnectionInfo {
    /// The resampling cadence is a period, so it is never zero.
    pub open spec fn wf(self) -> bool {
        self.cadence >= 1
    }

    /// Whether the next display update takes a fresh snapshot: only while
    /// the hashes are shown, and then whenever none is cached yet or the
    /// simulation's tick falls on the cadence.
    pub open spec fn spec_should_refresh(self, sim: Simulation) -> bool {
        self.show_hashes && (self.cache is None || sim.spec_tick() % self.cadence == 0)
    }

    /// Empty connection details: no name, no address, no error, hashes
    /// hidden, nothing cached, and the default resampling cadence.
    pub fn new() -> (r: NetworkConnectionInfo)
        ensures
            r.name@.len() == 0,
            r.ip@.len() == 0,
            r.error@.len() == 0,
            !r.show_hashes,
            r.cache is None,
            r.cadence == DEFAULT_HASH_CADENCE,
            r.wf(),
    {
        NetworkConnectionInfo {
            name: String::new(),
            ip: String::new(),
            error: String::new(),
            show_hashes: false,
            cache: None,
            cadence: DEFAULT_HASH_CADENCE,
        }
    }

    /// Show or hide the per-subsystem hash display.
    pub fn set_show_hashes(&mut self, show: bool)
        ensures
            final(self).show_hashes == show,
            final(self).cache == old(self).cache,
            final(self).cadence == old(self).cadence,
            final(self).name == old(self).name,
            final(self).ip == old(self).ip,
            final(self).error == old(self).error,
    {
        self.show_hashes = show;
    }

    /// Choose how many ticks pass between two resamplings of the hash
    /// display; the cadence is a policy, not a fixed constant.
    pub fn set_hash_cadence(&mut self, cadence: u64)
        requires
            cadence >= 1,
        ensures
            final(self).cadence == cadence,
            final(self).cache == old(self).cache,
            final(self).show_hashes == old(self).show_hashes,
            final(self).name == old(self).name,
            final(self).ip == old(self).ip,
            final(self).error == old(self).error,
            final(self).wf(),
    {
        self.cadence = cadence;
    }

    /// Bring the cached snapshot up to date for this frame's display:
    /// resample the simulation when the cadence or an empty cache calls for
    /// it, and otherwise keep showing what was already taken.
    pub fn update_hash_cache(&mut self, sim: &Simulation)
        requires
            old(self).wf(),
            sim.wf(),
        ensures
            old(self).spec_should_refresh(*sim) ==> (final(self).cache matches Some(s)
                && s.tick == sim.spec_tick() && s.spec_entries() == sim.spec_hashes()),
            !old(self).spec_should_refresh(*sim) ==> final(self).cache == old(
                self,
            ).cache,
            final(self).show_hashes == old(self).show_hashes,
            final(self).cadence == old(self).cadence,
            final(self).name == old(self).name,
            final(self).ip == old(self).ip,
            final(self).error == old(self).error,
            final(self).wf(),
    {
        if !self.show_hashes {
            return;
        }
        let take_now = match self.cache {
            Option::None => true,
            Option::Some(_) => sim.get_tick() % self.cadence == 0,
        };
        if take_now {
            self.cache = Some(HashSnapshot::refresh(sim));
        }
    }

    /// The snapshot currently cached for display, if one was taken.
    pub fn cached_hashes(&self) -> (r: Option<&HashSnapshot>)
        ensures
            match r {
                Some(s) => self.cache == Some(*s),
                None => self.cache is None,
            },
    {
        self.cache.as_ref()
    }
}

impl Default for NetworkConnectionInfo {
    fn default() -> (r: Self)
        ensures
            r.name@.len() == 0,
            r.ip@.len() == 0,
            r.error@.len() == 0,
            !r.show_hashes,
            r.cache is None,
            r.cadence == DEFAULT_HASH_CADENCE,
            r.wf(),
    {
        NetworkConnectionInfo::new()
    }
}

impl SessionState {
    /// Whether a "start server" action may attempt to bind a transport:
    /// only out of the standalone role, and never with an empty display
    /// name.
    pub open spec fn spec_may_start_server(self, info: NetworkConnectionInfo) -> bool {
        self is Standalone && info.name@.len() != 0
    }

    /// Whether a "connect" action may attempt to reach a server, under the
    /// same conditions as starting one.
    pub open spec fn spec_may_start_client(self, info: NetworkConnectionInfo) -> bool {
        self is Standalone && info.name@.len() != 0
    }

    /// The role every process starts in.
    pub fn new() -> (r: SessionState)
        ensures
            r == SessionState::Standalone,
    {
        SessionState::Standalone
    }

    /// Decide whether a "start server" action may go on to bind a
    /// transport.
    pub fn may_start_server(&self, info: &NetworkConnectionInfo) -> (r: bool)
        ensures
            r == self.spec_may_start_server(*info),
    {
        match self {
            SessionState::Standalone => !info.name.as_str().is_empty(),
            _ => false,
        }
    }

    /// Decide whether a "connect" action may go on to reach out.
    pub fn may_start_client(&self, info: &NetworkConnectionInfo) -> (r: bool)
        ensures
            r == self.spec_may_start_client(*info),
    {
        match self {
            SessionState::Standalone => !info.name.as_str().is_empty(),
            _ => false,
        }
    }

    /// Record the outcome of a server bind attempt: a bound transport makes
    /// this session the server and clears any stale error; a failed bind
    /// leaves the session standalone and surfaces an error for the dialog.
    pub fn install_server(&mut self, outcome: Option<ServerHandle>, info: &mut NetworkConnectionInfo)
        requires
            *old(self) is Standalone,
        ensures
            match outcome {
                Some(h) => *final(self) == SessionState::Server(h) && final(info).error@.len()
                    == 0,
                None => *final(self) == SessionState::Standalone && final(info).error@
                    == "could not start the server"@,
            },
            final(info).name == old(info).name,
            final(info).ip == old(info).ip,
            final(info).show_hashes == old(info).show_hashes,
            final(info).cache == old(info).cache,
            final(info).cadence == old(info).cadence,
    {
        match outcome {
            Some(h) => {
                *self = SessionState::Server(h);
                info.error = String::new();
            },
            None => {
                info.error = "could not start the server".to_owned();
            },
        }
    }

    /// Record the outcome of a connection attempt, as
    /// [`Self::install_server`] does for binds.
    pub fn install_client(&mut self, outcome: Option<ClientHandle>, info: &mut NetworkConnectionInfo)
        requires
            *old(self) is Standalone,
        ensures
            match outcome {
                Some(h) => *final(self) == SessionState::Client(h) && final(info).error@.len()
                    == 0,
                None => *final(self) == SessionState::Standalone && final(info).error@
                    == "could not connect to the server"@,
            },
            final(info).name == old(info).name,
            final(info).ip == old(info).ip,
            final(info).show_hashes == old(info).show_hashes,
            final(info).cache == old(info).cache,
            final(info).cadence == old(info).cadence,
    {
        match outcome {
            Some(h) => {
                *self = SessionState::Client(h);
                info.error = String::new();
            },
            None => {
                info.error = "could not connect to the server".to_owned();
            },
        }
    }

    /// Leave whatever networked role is active: the session reverts to
    /// standalone, and the handle it held is given up for the caller to
    /// close.
    pub fn disconnect(&mut self)
        ensures
            *final(self) == SessionState::Standalone,
    {
        *self = SessionState::Standalone;
    }
}

impl Default for SessionState {
    fn default() -> (r: Self)
        ensures
            r == SessionState::Standalone,
    {
        SessionState::Standalone
    }
}

/// Law: an empty display name never reaches the transport — with one,
/// neither a bind nor a connect may even be attempted, whatever role the
/// session is in.
pub proof fn lemma_empty_name_never_binds(s: SessionState, info: NetworkConnectionInfo)
    requires
        info.name@.len() == 0,
    ensures
        !s.spec_may_start_server(info),
        !s.spec_may_start_client(info),
{
}

} // verus!
