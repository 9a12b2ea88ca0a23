use vstd::prelude::*;

verus! {

/// The supervised daemon's handle together with its process identifier,
/// which shutdown needs for out-of-band signalling.
#[derive(Debug)]
pub struct DaemonEntry<D> {
    pub pid: u32,
    pub handle: D,
}

/// The mathematical value of a `ProcessRegistry`: the game handles in launch
/// order and the daemon slot.
pub struct RegistryView<G, D> {
    pub games: Seq<G>,
    pub daemon: Option<DaemonEntry<D>>,
}

impl<G, D> RegistryView<G, D> {
    /// The registry with nothing tracked.
    pub open spec fn empty() -> Self {
        RegistryView { games: Seq::empty(), daemon: None }
    }

    /// The registry after one more game handle is tracked.
    pub open spec fn registered(self, g: G) -> Self {
        RegistryView { games: self.games.push(g), daemon: self.daemon }
    }

    /// The registry after the daemon slot is set to `e`.
    pub open spec fn with_daemon(self, e: DaemonEntry<D>) -> Self {
        RegistryView { games: self.games, daemon: Some(e) }
    }
}

/// The store of every live process handle: game processes in launch order
/// and at most one daemon. The host keeps it behind a single lock and holds
/// that lock only for the calls below, never across a spawn or a kill.
pub struct ProcessRegistry<G, D> {
    game_processes: Vec<G>,
    daemon_process: Option<DaemonEntry<D>>,
}

impl<G, D> View for ProcessRegistry<G, D> {
    type V = RegistryView<G, D>;

    closed spec fn view(&self) -> RegistryView<G, D> {
        RegistryView { games: self.game_processes@, daemon: self.daemon_process }
    }
}

impl<G, D> ProcessRegistry<G, D> {
    /// An empty registry.
    pub fn new() -> (r: Self)
        ensures
            r@ == RegistryView::<G, D>::empty(),
    {
        ProcessRegistry { game_processes: Vec::new(), daemon_process: None }
    }

    /// Tracks one more game process, after those already tracked.
    pub fn register_game(&mut self, handle: G)
        ensures
            final(self)@ == old(self)@.registered(handle),
    {
        self.game_processes.push(handle);
    }

    /// Puts the daemon's handle in the daemon slot. A handle already there is
    /// handed back untouched: it is neither terminated nor kept.
    pub fn set_daemon(&mut self, pid: u32, handle: D) -> (previous: Option<DaemonEntry<D>>)
        ensures
            final(self)@ == old(self)@.with_daemon(DaemonEntry { pid, handle }),
            previous == old(self)@.daemon,
    {
        let previous = self.daemon_process.take();
        self.daemon_process = Some(DaemonEntry { pid, handle });
        previous
    }

    /// The number of tracked game processes.
    pub fn game_count(&self) -> (r: usize)
        ensures
            r == self@.games.len(),
    {
        self.game_processes.len()
    }

    /// Whether a daemon handle is tracked.
    pub fn has_daemon(&self) -> (r: bool)
        ensures
            r == self@.daemon.is_some(),
    {
        self.daemon_process.is_some()
    }

    /// The identifier of the tracked daemon, if any.
    pub fn daemon_pid(&self) -> (r: Option<u32>)
        ensures
            r == (match self@.daemon {
                Some(e) => Some(e.pid),
                None => None,
            }),
    {
        match &self.daemon_process {
            Some(e) => Some(e.pid),
            None => None,
        }
    }

    /// Takes every tracked handle out, leaving the registry empty.
    pub fn drain(&mut self) -> (r: (Vec<G>, Option<DaemonEntry<D>>))
        ensures
            final(self)@ == RegistryView::<G, D>::empty(),
            r.0@ == old(self)@.games,
            r.1 == old(self)@.daemon,
    {
        let mut games: Vec<G> = Vec::new();
        std::mem::swap(&mut games, &mut self.game_processes);
        let daemon = self.daemon_process.take();
        (games, daemon)
    }
}

/// One registration made while the application runs: a launched game or a
/// spawned daemon.
pub enum Registration<G, D> {
    Game(G),
    Daemon(DaemonEntry<D>),
}

/// The registry after the registrations `rs`, made in order, starting from `v`.
pub open spec fn apply_all<G, D>(v: RegistryView<G, D>, rs: Seq<Registration<G, D>>) -> RegistryView<
    G,
    D,
>
    decreases rs.len(),
{
    if rs.len() == 0 {
        v
    } else {
        let v1 = apply_all(v, rs.drop_last());
        match rs.last() {
            Registration::Game(g) => v1.registered(g),
            Registration::Daemon(e) => v1.with_daemon(e),
        }
    }
}

/// The number of game registrations among `rs`.
pub open spec fn game_registrations<G, D>(rs: Seq<Registration<G, D>>) -> nat
    decreases rs.len(),
{
    if rs.len() == 0 {
        0
    } else {
        game_registrations(rs.drop_last()) + if rs.last() is Game {
            1nat
        } else {
            0nat
        }
    }
}

/// After any interleaving of game launches with daemon registrations, an
/// initially empty registry tracks exactly as many game processes as there
/// were launches.
pub proof fn lemma_game_count_is_launch_count<G, D>(rs: Seq<Registration<G, D>>)
    ensures
        apply_all(RegistryView::<G, D>::empty(), rs).games.len() == game_registrations(rs),
    decreases rs.len(),
{
    if rs.len() > 0 {
        lemma_game_count_is_launch_count(rs.drop_last());
    }
}

/// Setting the daemon twice leaves the second handle in the slot and the
/// game processes as they were; the first handle is what the second call
/// hands back.
pub proof fn lemma_set_daemon_twice<G, D>(
    v: RegistryView<G, D>,
    first: DaemonEntry<D>,
    second: DaemonEntry<D>,
)
    ensures
        v.with_daemon(first).with_daemon(second).daemon == Some(second),
        v.with_daemon(first).with_daemon(second).games == v.games,
        v.with_daemon(first).daemon == Some(first),
{
}

} // verus!
