//! The per-target connection multiplexer: one session per distinct
//! target database, created on first reference and reused thereafter,
//! never evicted during a run.
//!
//! The library owns the keys and the create-or-reuse decision; the
//! caller owns the session values, in a store indexed by the slots
//! issued here, and performs the actual establishment — network I/O
//! stays outside the verified core.

use vstd::prelude::*;

verus! {

#[verifier::external_type_specification]
#[verifier::external_body]
pub struct ExPgConfig(postgres::config::Config);

/// Whether the connection-profile parser accepts `s`. The parse reads
/// nothing but the string, so acceptance is a function of it alone.
pub uninterp spec fn profile_parses(s: Seq<char>) -> bool;

/// Relies on str::parse::<postgres::config::Config>: parses a connection
/// string in URI or keyword form into a connection profile, reading
/// the string alone; it succeeds exactly on the strings the grammar
/// accepts.
#[verifier::external_body]
fn parse_profile(params: &str) -> (r: Result<postgres::config::Config, postgres::Error>)
    ensures
        (r is Ok) == profile_parses(params@),
{
    params.parse()
}

/// Relies on postgres::config::Config::clone, the derived clone of a
/// plain data struct: the copy equals the original.
#[verifier::external_body]
fn clone_profile(profile: &postgres::config::Config) -> (r: postgres::config::Config)
    ensures
        r == *profile,
{
    profile.clone()
}

/// Relies on postgres::config::Config::dbname: sets the database the profile
/// connects to.
#[verifier::external_body]
fn set_dbname(profile: &mut postgres::config::Config, name: &str) {
    profile.dbname(name);
}

/// The keyed cache of the run's sessions: a shared base profile, the
/// dry-run switch, and one slot per distinct target, in order of first
/// reference.
pub struct Multiplexer {
    base: postgres::config::Config,
    /// When set, the run still walks the whole translation pipeline
    /// but the caller must neither establish sessions nor execute.
    dry_run: bool,
    targets: Vec<Option<String>>,
}

impl View for Multiplexer {
    type V = Seq<Option<Seq<char>>>;

    closed spec fn view(&self) -> Seq<Option<Seq<char>>> {
        self.targets.deep_view()
    }
}

/// Whether two targets name the same connection: both the
/// administrative one, or the same database.
fn same_target(a: &Option<String>, b: &Option<String>) -> (r: bool)
    ensures
        r == (a.deep_view() == b.deep_view()),
{
    match (a, b) {
        (None, None) => true,
        (Some(x), Some(y)) => *x == *y,
        _ => false,
    }
}

impl Multiplexer {
    /// Whether this run must not touch the server.
    pub closed spec fn spec_dry_run(self) -> bool {
        self.dry_run
    }

    /// The shared base connection profile, as parsed at construction
    /// and never changed for the run's lifetime.
    pub closed spec fn spec_base(self) -> postgres::config::Config {
        self.base
    }

    /// Whether this run must not touch the server: statements are
    /// still translated and rendered, never executed.
    pub fn is_dry_run(&self) -> (b: bool)
        ensures
            b == self.spec_dry_run(),
    {
        self.dry_run
    }

    /// At most one slot serves a target: distinct slots, distinct
    /// targets. Established at construction, preserved by every
    /// method, relied on for session reuse.
    pub open spec fn wf(self) -> bool {
        forall|i: int, j: int| 0 <= i < j < self@.len() ==> self@[i] != self@[j]
    }

    /// Parses the shared base profile: the run starts if and only if
    /// the connection string parses. No session exists yet: each is
    /// established lazily, on the first reference to its target.
    pub fn connect(params: &str, dry_run: bool) -> (r: Result<Multiplexer, postgres::Error>)
        ensures
            (r is Ok) == profile_parses(params@),
            match r {
                Ok(m) => m@ == Seq::<Option<Seq<char>>>::empty() && m.wf() && m.spec_dry_run() == dry_run,
                Err(_) => true,
            },
    {
        let base = match parse_profile(params) {
            Ok(base) => base,
            Err(err) => {
                return Err(err);
            },
        };
        let m = Multiplexer { base, dry_run, targets: Vec::new() };
        proof {
            assert(m@ =~= Seq::<Option<Seq<char>>>::empty());
        }
        Ok(m)
    }

    /// How many sessions the run holds.
    pub fn session_count(&self) -> (n: usize)
        ensures
            n == self@.len(),
    {
        self.targets.len()
    }

    /// The slot already serving `target`, if there is one.
    pub fn lookup(&self, target: &Option<String>) -> (r: Option<usize>)
        ensures
            match r {
                Some(i) => i < self@.len() && self@[i as int] == target.deep_view(),
                None => forall|i: int| 0 <= i < self@.len() ==> self@[i] != target.deep_view(),
            },
    {
        let mut i: usize = 0;
        while i < self.targets.len()
            invariant
                i <= self.targets.len(),
                forall|j: int| 0 <= j < i ==> self@[j] != target.deep_view(),
            decreases self.targets.len() - i,
        {
            if same_target(&self.targets[i], target) {
                proof {
                    assert(self@[i as int] == target.deep_view());
                }
                return Some(i);
            }
            i = i + 1;
        }
        None
    }

    /// Issues a fresh slot for a target no slot serves yet. The caller
    /// pairs the slot with the session it establishes; every later
    /// lookup of this target is answered with this slot.
    pub fn register(&mut self, target: Option<String>) -> (slot: usize)
        requires
            old(self).wf(),
            forall|i: int| 0 <= i < old(self)@.len() ==> old(self)@[i] != target.deep_view(),
        ensures
            final(self)@ == old(self)@.push(target.deep_view()),
            final(self).wf(),
            final(self).spec_dry_run() == old(self).spec_dry_run(),
            final(self).spec_base() == old(self).spec_base(),
            slot == old(self)@.len(),
    {
        let slot = self.targets.len();
        let ghost t = target.deep_view();
        self.targets.push(target);
        proof {
            assert(self@ =~= old(self)@.push(t));
        }
        slot
    }

    /// The profile for a session to `target`: a copy of the shared
    /// base profile, with the target database name overlaid when one
    /// is present. With no target the copy is the base profile itself;
    /// what the overlay writes into the copy is the outside library's
    /// to say, so nothing more is claimed of that branch.
    pub fn profile_for(&self, target: &Option<String>) -> (r: postgres::config::Config)
        ensures
            target is None ==> r == self.spec_base(),
    {
        let mut profile = clone_profile(&self.base);
        match target {
            Some(name) => set_dbname(&mut profile, name.as_str()),
            None => (),
        }
        profile
    }
}

/// Law (session reuse): under the multiplexer's invariant, two
/// requests for the same target are answered by the same slot — the
/// identical session, never a second establishment.
pub proof fn lemma_same_target_same_slot(m: Multiplexer, i: int, j: int)
    requires
        m.wf(),
        0 <= i < m@.len(),
        0 <= j < m@.len(),
        m@[i] == m@[j],
    ensures
        i == j,
{
    if i < j {
        assert(m@[i] != m@[j]);
    } else if j < i {
        assert(m@[j] != m@[i]);
    }
}

/// Law (distinct targets, distinct sessions): slots serving different
/// targets are different slots, so two targets never share a session.
pub proof fn lemma_distinct_targets_distinct_slots(m: Multiplexer, i: int, j: int)
    requires
        0 <= i < m@.len(),
        0 <= j < m@.len(),
        m@[i] != m@[j],
    ensures
        i != j,
{
}

} // verus!
