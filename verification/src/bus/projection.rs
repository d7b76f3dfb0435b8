use vstd::prelude::*;

use crate::error::EventSourcingError;
use crate::event::EventType;
use crate::sequence::Sequence;
use crate::stream::holds_code;

verus! {

/// A registered projection: its name (its checkpoint key) and the type codes
/// of the events it takes.
#[derive(Debug)]
pub struct ProjectionInfo {
    pub name: String,
    pub filter: Vec<u64>,
}

pub open spec fn late_projection_message() -> Seq<char> {
    "Cannot register projection after bus has started"@
}

pub open spec fn projection_started_twice_message() -> Seq<char> {
    "ProjectionEventBus::start() called more than once"@
}

/// The indices `i < n` (in order) whose filter holds `code`.
pub open spec fn matching_upto(filters: Seq<Seq<u64>>, code: u64, n: int) -> Seq<usize>
    decreases n,
{
    if n <= 0 {
        Seq::empty()
    } else {
        let prior = matching_upto(filters, code, n - 1);
        if filters[n - 1].contains(code) {
            prior.push((n - 1) as usize)
        } else {
            prior
        }
    }
}

/// The projections of a projection bus, and whether it has started.
/// Projections are identified by their registration index.
pub struct ProjectionRegistry {
    started: bool,
    projections: Vec<ProjectionInfo>,
}

impl ProjectionRegistry {
    pub closed spec fn is_started(self) -> bool {
        self.started
    }

    pub closed spec fn names(self) -> Seq<Seq<char>> {
        self.projections@.map_values(|p: ProjectionInfo| p.name@)
    }

    pub closed spec fn filters(self) -> Seq<Seq<u64>> {
        self.projections@.map_values(|p: ProjectionInfo| p.filter@)
    }

    pub fn new() -> (r: Self)
        ensures
            !r.is_started(),
            r.names() == Seq::<Seq<char>>::empty(),
            r.filters() == Seq::<Seq<u64>>::empty(),
    {
        let r = ProjectionRegistry { started: false, projections: Vec::new() };
        assert(r.names() =~= Seq::<Seq<char>>::empty());
        assert(r.filters() =~= Seq::<Seq<u64>>::empty());
        r
    }

    pub fn started(&self) -> (r: bool)
        ensures
            r == self.is_started(),
    {
        self.started
    }

    pub fn len(&self) -> (r: usize)
        ensures
            r == self.filters().len(),
            r == self.names().len(),
    {
        self.projections.len()
    }

    fn add(&mut self, name: String, filter: Vec<u64>) -> (r: Result<usize, EventSourcingError>)
        ensures
            final(self).is_started() == old(self).is_started(),
            old(self).is_started() ==> (r matches Err(e) && e is Bus && e.message_text() == late_projection_message()
                && final(self).names() == old(self).names() && final(self).filters() == old(self).filters()),
            !old(self).is_started() ==> (r matches Ok(i) && i == old(self).filters().len()
                && final(self).names() == old(self).names().push(name@)
                && final(self).filters() == old(self).filters().push(filter@)),
    {
        if self.started {
            proof {
                reveal_strlit("Cannot register projection after bus has started");
            }
            return Err(EventSourcingError::Bus {
                message: String::from_str("Cannot register projection after bus has started"),
            });
        }
        let i = self.projections.len();
        let ghost name_view = name@;
        let ghost filter_view = filter@;
        self.projections.push(ProjectionInfo { name, filter });
        assert(self.names() =~= old(self).names().push(name_view));
        assert(self.filters() =~= old(self).filters().push(filter_view));
        Ok(i)
    }

    /// Register a projection of one event type. Refused once started.
    pub fn register(&mut self, name: String, event_type: EventType) -> (r: Result<usize, EventSourcingError>)
        ensures
            final(self).is_started() == old(self).is_started(),
            old(self).is_started() ==> (r matches Err(e) && e is Bus && e.message_text() == late_projection_message()
                && final(self).names() == old(self).names() && final(self).filters() == old(self).filters()),
            !old(self).is_started() ==> (r matches Ok(i) && i == old(self).filters().len()
                && final(self).names() == old(self).names().push(name@)
                && final(self).filters() == old(self).filters().push(seq![event_type.code()])),
    {
        let mut filter: Vec<u64> = Vec::new();
        filter.push(event_type.id());
        assert(filter@ =~= seq![event_type.code()]);
        self.add(name, filter)
    }

    /// Register a projection of several event types. Refused once started.
    pub fn register_multi(&mut self, name: String, event_types: &Vec<EventType>) -> (r: Result<usize, EventSourcingError>)
        ensures
            final(self).is_started() == old(self).is_started(),
            old(self).is_started() ==> (r matches Err(e) && e is Bus && e.message_text() == late_projection_message()
                && final(self).names() == old(self).names() && final(self).filters() == old(self).filters()),
            !old(self).is_started() ==> (r matches Ok(i) && i == old(self).filters().len()
                && final(self).names() == old(self).names().push(name@)
                && final(self).filters() == old(self).filters().push(event_types@.map_values(|t: EventType| t.code()))),
    {
        let mut filter: Vec<u64> = Vec::new();
        let mut i: usize = 0;
        while i < event_types.len()
            invariant
                i <= event_types@.len(),
                filter@ == event_types@.take(i as int).map_values(|t: EventType| t.code()),
            decreases event_types.len() - i,
        {
            filter.push(event_types[i].id());
            assert(event_types@.take(i as int + 1).map_values(|t: EventType| t.code())
                =~= event_types@.take(i as int).map_values(|t: EventType| t.code()).push(event_types@[i as int].code()));
            i = i + 1;
        }
        assert(event_types@.take(event_types@.len() as int) =~= event_types@);
        self.add(name, filter)
    }

    /// Start the bus: `Ok(true)` when projections are to be replayed,
    /// `Ok(false)` when none is registered. A second start is refused.
    pub fn start(&mut self) -> (r: Result<bool, EventSourcingError>)
        ensures
            final(self).is_started(),
            final(self).names() == old(self).names(),
            final(self).filters() == old(self).filters(),
            old(self).is_started() ==> (r matches Err(e) && e is Bus && e.message_text() == projection_started_twice_message()),
            !old(self).is_started() ==> r == Ok::<bool, EventSourcingError>(old(self).filters().len() > 0),
    {
        if self.started {
            proof {
                reveal_strlit("ProjectionEventBus::start() called more than once");
            }
            return Err(EventSourcingError::Bus {
                message: String::from_str("ProjectionEventBus::start() called more than once"),
            });
        }
        self.started = true;
        Ok(self.projections.len() > 0)
    }

    /// The name of projection `i`.
    pub fn name(&self, i: usize) -> (r: &String)
        requires
            i < self.names().len(),
        ensures
            r@ == self.names()[i as int],
    {
        &self.projections[i].name
    }

    /// The projections that take events of type `code`, in registration order.
    pub fn matching(&self, code: u64) -> (r: Vec<usize>)
        ensures
            r@ == matching_upto(self.filters(), code, self.filters().len() as int),
    {
        let mut out: Vec<usize> = Vec::new();
        let mut i: usize = 0;
        while i < self.projections.len()
            invariant
                i <= self.projections@.len(),
                out@ == matching_upto(self.filters(), code, i as int),
            decreases self.projections.len() - i,
        {
            if holds_code(&self.projections[i].filter, code) {
                out.push(i);
            }
            i = i + 1;
        }
        out
    }
}


/// The left fold of `cps` that keeps the earlier of two positions: the
/// position the projection replay starts after.
pub open spec fn earliest<S: Sequence>(cps: Seq<S>) -> S
    decreases cps.len(),
{
    if cps.len() <= 1 {
        cps[0]
    } else {
        let m = earliest(cps.drop_last());
        if m.behind(cps.last()) {
            m
        } else {
            cps.last()
        }
    }
}

/// The earliest checkpoint is one of the checkpoints, and no checkpoint
/// lies behind it.
pub proof fn lemma_earliest<S: Sequence>(cps: Seq<S>)
    requires
        cps.len() > 0,
    ensures
        cps.contains(earliest(cps)),
        forall|i: int| 0 <= i < cps.len() ==> !(#[trigger] cps[i]).behind(earliest(cps)),
    decreases cps.len(),
{
    if cps.len() > 1 {
        let rest = cps.drop_last();
        lemma_earliest(rest);
        let m = earliest(rest);
        let l = cps.last();
        assert(cps[cps.len() - 1] == l);
        let j = choose|j: int| 0 <= j < rest.len() && rest[j] == m;
        assert(cps[j] == m);
        assert forall|i: int| 0 <= i < cps.len() implies !(#[trigger] cps[i]).behind(earliest(cps)) by {
            let c = cps[i];
            S::lemma_order(c, m, l);
            S::lemma_order(m, l, m);
            S::lemma_order(c, l, m);
            S::lemma_order(l, m, l);
            if i < cps.len() - 1 {
                assert(rest[i] == c);
            }
        }
    } else {
        assert(cps[0] == earliest(cps));
        S::lemma_order(cps[0], cps[0], cps[0]);
    }
}

/// The event a projection failed on during this replay: its position and its
/// type code. `None` while the projection has not failed.
pub type Failure<S> = Option<(S, u64)>;

/// Projection `i` runs on the event at `seq` of type `code`: it has not
/// failed in this replay, its checkpoint lies behind `seq` and it takes events
/// of that type.
pub open spec fn runs_on<S: Sequence>(
    cps: Seq<S>,
    filters: Seq<Seq<u64>>,
    fails: Seq<Failure<S>>,
    seq: S,
    code: u64,
    i: int,
) -> bool {
    fails[i] is None && cps[i].behind(seq) && filters[i].contains(code)
}

/// The projections `i < n` that run on the event, in order.
pub open spec fn runs_upto<S: Sequence>(
    cps: Seq<S>,
    filters: Seq<Seq<u64>>,
    fails: Seq<Failure<S>>,
    seq: S,
    code: u64,
    n: int,
) -> Seq<usize>
    decreases n,
{
    if n <= 0 {
        Seq::empty()
    } else {
        let prior = runs_upto(cps, filters, fails, seq, code, n - 1);
        if runs_on(cps, filters, fails, seq, code, n - 1) {
            prior.push((n - 1) as usize)
        } else {
            prior
        }
    }
}

/// No projection has failed yet: the state at the start of a replay.
pub open spec fn no_failures<S>(n: nat) -> Seq<Failure<S>> {
    Seq::new(n, |i: int| None)
}

/// A checkpoint is consistent with a recorded failure: the failed event lies
/// ahead of the checkpoint and is of a type the projection takes.
pub open spec fn failure_ok<S: Sequence>(cp: S, filter: Seq<u64>, fail: Failure<S>) -> bool {
    match fail {
        Some((f, c)) => cp.behind(f) && filter.contains(c),
        None => true,
    }
}

/// The checkpoint and failure of a projection after the outcome of its run on
/// the event at `seq` of type `code`. A committed run moves the checkpoint to
/// `seq`; a failed run keeps the checkpoint and records the event, which
/// stops the projection for the rest of the replay. An outcome for an event the
/// projection does not run on changes nothing.
pub open spec fn recorded<S: Sequence>(
    cp: S,
    filter: Seq<u64>,
    fail: Failure<S>,
    seq: S,
    code: u64,
    committed: bool,
) -> (S, Failure<S>) {
    if fail is None && cp.behind(seq) && filter.contains(code) {
        if committed {
            (seq, None)
        } else {
            (cp, Some((seq, code)))
        }
    } else {
        (cp, fail)
    }
}

/// Once the outcome of a projection's run on an event is recorded, the
/// projection does not run on that event again in this replay, its checkpoint
/// never moves back, and it never moves past an event it failed on.
pub proof fn lemma_no_rerun<S: Sequence>(
    cp: S,
    filter: Seq<u64>,
    fail: Failure<S>,
    seq: S,
    code: u64,
    committed: bool,
)
    requires
        failure_ok(cp, filter, fail),
    ensures
        ({
            let (cp2, fail2) = recorded(cp, filter, fail, seq, code, committed);
            &&& !(fail2 is None && cp2.behind(seq) && filter.contains(code))
            &&& !cp2.behind(cp)
            &&& failure_ok(cp2, filter, fail2)
        }),
{
    S::lemma_order(seq, seq, seq);
    S::lemma_order(cp, seq, cp);
    S::lemma_order(cp, cp, cp);
}

/// An event a projection failed on is taken again by the next replay: a replay
/// started from the checkpoints left by this replay reads past the earliest
/// checkpoint, which lies behind the failed event, and with no failures yet
/// recorded the projection runs on that event.
pub proof fn lemma_failed_retried<S: Sequence>(
    cps: Seq<S>,
    filters: Seq<Seq<u64>>,
    fails: Seq<Failure<S>>,
    i: int,
    f: S,
    c: u64,
)
    requires
        cps.len() == filters.len(),
        fails.len() == cps.len(),
        0 <= i < cps.len(),
        failure_ok(cps[i], filters[i], fails[i]),
        fails[i] == Some((f, c)),
    ensures
        earliest(cps).behind(f),
        runs_on(cps, filters, no_failures::<S>(cps.len()), f, c, i),
{
    lemma_earliest(cps);
    let m = earliest(cps);
    S::lemma_order(cps[i], m, f);
    S::lemma_order(m, cps[i], f);
}

/// The replay phase of the projection bus, run when it starts: each
/// projection's own checkpoint, the event it failed on during this replay
/// (if any), and the position the next batch is read after. A projection
/// that fails during the replay takes no further event of it, so that the
/// next start replays the failed event. Events published after the replay
/// run every matching projection (`ProjectionRegistry::matching`).
pub struct ProjectionReplay<S: Sequence> {
    filters: Vec<Vec<u64>>,
    checkpoints: Vec<S>,
    failed: Vec<Failure<S>>,
    last_seq: S,
}

impl<S: Sequence> ProjectionReplay<S> {
    pub closed spec fn filter_views(self) -> Seq<Seq<u64>> {
        self.filters@.map_values(|f: Vec<u64>| f@)
    }

    pub closed spec fn positions(self) -> Seq<S> {
        self.checkpoints@
    }

    pub closed spec fn failures(self) -> Seq<Failure<S>> {
        self.failed@
    }

    pub closed spec fn last(self) -> S {
        self.last_seq
    }

    /// One filter and one failure slot per checkpoint, and no checkpoint
    /// lies at or past an event its projection failed on.
    pub open spec fn wf(self) -> bool {
        &&& self.filter_views().len() == self.positions().len()
        &&& self.failures().len() == self.positions().len()
        &&& forall|i: int|
            0 <= i < self.positions().len() ==> failure_ok(
                #[trigger] self.positions()[i],
                self.filter_views()[i],
                self.failures()[i],
            )
    }

    /// Every replay state is well formed.
    #[verifier::type_invariant]
    spec fn inv(self) -> bool {
        self.wf()
    }

    /// Track the projections of `registry` from their loaded checkpoints
    /// (one per projection, in registration order), none failed yet. The
    /// replay starts after the earliest checkpoint; there is nothing to
    /// replay without projections.
    pub fn new(registry: &ProjectionRegistry, checkpoints: Vec<S>) -> (r: Option<Self>)
        requires
            checkpoints@.len() == registry.filters().len(),
        ensures
            checkpoints@.len() == 0 <==> r is None,
            r matches Some(p) ==> {
                &&& p.wf()
                &&& p.filter_views() == registry.filters()
                &&& p.positions() == checkpoints@
                &&& p.failures() == no_failures::<S>(checkpoints@.len())
                &&& p.last() == earliest(checkpoints@)
            },
    {
        if checkpoints.len() == 0 {
            return None;
        }
        let mut filters: Vec<Vec<u64>> = Vec::new();
        let mut failed: Vec<Failure<S>> = Vec::new();
        let mut i: usize = 0;
        while i < registry.projections.len()
            invariant
                i <= registry.projections@.len(),
                filters@.map_values(|f: Vec<u64>| f@) == registry.filters().take(i as int),
                failed@ == no_failures::<S>(i as nat),
            decreases registry.projections.len() - i,
        {
            let f = registry.projections[i].filter.clone();
            assert(f@ =~= registry.projections@[i as int].filter@);
            let ghost before = filters@;
            filters.push(f);
            failed.push(None);
            assert(failed@ =~= no_failures::<S>(i as nat + 1));
            assert(filters@.map_values(|f: Vec<u64>| f@) =~= before.map_values(|f: Vec<u64>| f@).push(f@));
            assert(registry.filters()[i as int] == registry.projections@[i as int].filter@);
            assert(registry.filters().take(i as int + 1) =~= registry.filters().take(i as int).push(registry.filters()[i as int]));
            i = i + 1;
        }
        assert(registry.filters().take(registry.projections@.len() as int) =~= registry.filters());
        let mut start = checkpoints[0];
        let mut k: usize = 1;
        while k < checkpoints.len()
            invariant
                1 <= k <= checkpoints@.len(),
                start == earliest(checkpoints@.take(k as int)),
            decreases checkpoints.len() - k,
        {
            assert(checkpoints@.take(k as int + 1).drop_last() =~= checkpoints@.take(k as int));
            if !start.is_behind(&checkpoints[k]) {
                start = checkpoints[k];
            }
            k = k + 1;
        }
        assert(checkpoints@.take(checkpoints@.len() as int) =~= checkpoints@);
        assert(filters@.map_values(|f: Vec<u64>| f@).len() == filters@.len());
        Some(ProjectionReplay { filters, checkpoints, failed, last_seq: start })
    }

    /// The position the next batch of events is read after.
    pub fn position(&self) -> (r: S)
        ensures
            r == self.last(),
    {
        self.last_seq
    }

    /// The checkpoint tracked for projection `i`.
    pub fn checkpoint(&self, i: usize) -> (r: S)
        requires
            i < self.positions().len(),
        ensures
            r == self.positions()[i as int],
    {
        self.checkpoints[i]
    }

    /// The event projection `i` failed on in this replay, if any.
    pub fn failure(&self, i: usize) -> (r: Failure<S>)
        requires
            i < self.failures().len(),
        ensures
            r == self.failures()[i as int],
    {
        self.failed[i]
    }

    /// Take the event at `seq` of type `code`: the projections that have not
    /// failed in this replay, whose checkpoint lies behind `seq` and that take
    /// this type run on it (their indices are returned, in order). No
    /// checkpoint moves until the outcome of a run is recorded.
    pub fn on_event(&mut self, seq: S, code: u64) -> (r: Vec<usize>)
        ensures
            final(self).wf(),
            final(self).filter_views() == old(self).filter_views(),
            final(self).positions() == old(self).positions(),
            final(self).failures() == old(self).failures(),
            r@ == runs_upto(
                old(self).positions(),
                old(self).filter_views(),
                old(self).failures(),
                seq,
                code,
                old(self).positions().len() as int,
            ),
            final(self).last() == if old(self).last().behind(seq) { seq } else { old(self).last() },
    {
        proof {
            use_type_invariant(&*self);
        }
        let ghost cps = self.checkpoints@;
        let ghost fs = self.filter_views();
        let ghost fails = self.failed@;
        let mut out: Vec<usize> = Vec::new();
        let mut i: usize = 0;
        while i < self.checkpoints.len()
            invariant
                i <= self.checkpoints@.len(),
                self.checkpoints@ == cps,
                self.failed@ == fails,
                fs.len() == cps.len(),
                fails.len() == cps.len(),
                self.filter_views() == fs,
                out@ == runs_upto(cps, fs, fails, seq, code, i as int),
            decreases self.checkpoints.len() - i,
        {
            if self.failed[i].is_none() && self.checkpoints[i].is_behind(&seq) && holds_code(&self.filters[i], code) {
                out.push(i);
            }
            i = i + 1;
        }
        if self.last_seq.is_behind(&seq) {
            self.last_seq = seq;
        }
        out
    }

    /// Record the outcome of projection `i`'s run on the event at `seq` of
    /// type `code`. A committed run moves its checkpoint to `seq`. A failed
    /// run keeps the checkpoint behind the event and stops the projection for
    /// the rest of the replay, so that the next replay takes the event again. An
    /// outcome for an event the projection does not run on changes nothing.
    pub fn on_outcome(&mut self, i: usize, seq: S, code: u64, committed: bool)
        requires
            i < old(self).positions().len(),
        ensures
            final(self).wf(),
            final(self).filter_views() == old(self).filter_views(),
            final(self).last() == old(self).last(),
            ({
                let (cp, fail) = recorded(
                    old(self).positions()[i as int],
                    old(self).filter_views()[i as int],
                    old(self).failures()[i as int],
                    seq,
                    code,
                    committed,
                );
                &&& final(self).positions() == old(self).positions().update(i as int, cp)
                &&& final(self).failures() == old(self).failures().update(i as int, fail)
            }),
            forall|k: int|
                0 <= k < final(self).positions().len() ==> (#[trigger] final(self).failures()[k] matches Some((f, c))
                    ==> final(self).positions()[k].behind(f)),
    {
        proof {
            use_type_invariant(&*self);
        }
        let mut cur = ProjectionReplay {
            filters: Vec::new(),
            checkpoints: Vec::new(),
            failed: Vec::new(),
            last_seq: self.last_seq,
        };
        std::mem::swap(&mut cur, self);
        let ProjectionReplay { filters, mut checkpoints, mut failed, last_seq } = cur;
        let ghost fs = filters@.map_values(|f: Vec<u64>| f@);
        proof {
            lemma_no_rerun(checkpoints@[i as int], fs[i as int], failed@[i as int], seq, code, committed);
        }
        if failed[i].is_none() && checkpoints[i].is_behind(&seq) && holds_code(&filters[i], code) {
            if committed {
                checkpoints.set(i, seq);
            } else {
                failed.set(i, Some((seq, code)));
            }
        }
        assert forall|k: int| 0 <= k < checkpoints@.len() implies failure_ok(
            #[trigger] checkpoints@[k],
            fs[k],
            failed@[k],
        ) by {
            if k != i {
                assert(old(self).positions()[k] == checkpoints@[k]);
                assert(old(self).failures()[k] == failed@[k]);
            }
        }
        *self = ProjectionReplay { filters, checkpoints, failed, last_seq };
    }
}

/// The stages of running one projection on one event in its own transaction.
#[derive(Debug, PartialEq, Eq, Structural)]
pub enum ProjectionStep {
    /// Begin a transaction.
    Begin,
    /// Run the projection's handler within the transaction.
    Handle,
    /// Save the projection's checkpoint within the transaction.
    SaveCheckpoint,
    /// Commit the transaction.
    Commit,
    /// Roll the transaction back.
    Rollback,
    /// The handler's work and the checkpoint were committed.
    Committed,
    /// Finished without a commit: nothing of the run was kept.
    Done,
}

/// The stage after `step`, given whether `step` succeeded. A failed handler
/// or checkpoint save rolls the transaction back; a failed begin has nothing
/// to roll back. Only a successful commit ends in `Committed`, so a
/// checkpoint is kept only when the handler succeeded on the event.
pub fn next_step(step: ProjectionStep, succeeded: bool) -> (r: ProjectionStep)
    ensures
        r == match step {
            ProjectionStep::Begin => if succeeded { ProjectionStep::Handle } else { ProjectionStep::Done },
            ProjectionStep::Handle => if succeeded { ProjectionStep::SaveCheckpoint } else { ProjectionStep::Rollback },
            ProjectionStep::SaveCheckpoint => if succeeded { ProjectionStep::Commit } else { ProjectionStep::Rollback },
            ProjectionStep::Commit => if succeeded { ProjectionStep::Committed } else { ProjectionStep::Done },
            ProjectionStep::Committed => ProjectionStep::Committed,
            _ => ProjectionStep::Done,
        },
        r is SaveCheckpoint ==> step is Handle && succeeded,
        r is Commit ==> step is SaveCheckpoint && succeeded,
        r is Committed ==> (step is Commit && succeeded) || step is Committed,
        step is Handle && !succeeded ==> r is Rollback,
{
    match step {
        ProjectionStep::Begin => if succeeded { ProjectionStep::Handle } else { ProjectionStep::Done },
        ProjectionStep::Handle => if succeeded { ProjectionStep::SaveCheckpoint } else { ProjectionStep::Rollback },
        ProjectionStep::SaveCheckpoint => if succeeded { ProjectionStep::Commit } else { ProjectionStep::Rollback },
        ProjectionStep::Commit => if succeeded { ProjectionStep::Committed } else { ProjectionStep::Done },
        ProjectionStep::Committed => ProjectionStep::Committed,
        _ => ProjectionStep::Done,
    }
}

} // verus!
