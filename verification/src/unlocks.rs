//! App unlocks (a Lua plus depot manifests) beyond the plain add: installing files the user
//! supplies, and keeping unlocks that follow the latest version current.
use crate::catalog::lists_name;
use crate::text::{cat2, cat3, decimal, decimal_text, same_text, texts};
use std::collections::HashSet;
use vstd::prelude::*;

verus! {

broadcast use vstd::std_specs::hash::group_hash_axioms;

/// Coordinates unlock writes into Steam between the user's own actions and the automatic updater.
///
/// Every writer holds the guard that `write` hands out, so two writers never interleave. The UI
/// also marks each app the user changes; an update sweep leaves those alone, so it never replaces
/// a choice the user made while the sweep was running.
pub struct UnlockWrites {
    held: bool,
    touched: HashSet<u32>,
    id: Ghost<int>,
    turns: Ghost<nat>,
}

/// The right to write unlock files into Steam, for one turn. It is given back with
/// `UnlockWrites::release`; one that its holder has lost is replaced with `UnlockWrites::reclaim`.
pub struct UnlockWriteGuard {
    id: Ghost<int>,
    turn: Ghost<nat>,
}

impl UnlockWriteGuard {
    /// Which `UnlockWrites` handed the guard out.
    pub closed spec fn id(&self) -> int {
        self.id@
    }

    /// The turn that the guard is for.
    pub closed spec fn turn(&self) -> nat {
        self.turn@
    }
}

/// How the right to write stands.
pub ghost struct WriteRight {
    /// What its guards are known by.
    pub id: int,
    /// How often it was granted.
    pub turns: nat,
    /// Whether some writer has it.
    pub held: bool,
}

impl WriteRight {
    /// Whether the holder of `guard` may write now.
    pub open spec fn admits(self, guard: UnlockWriteGuard) -> bool {
        self.held && guard.id() == self.id && guard.turn() == self.turns
    }

    /// The right once it is granted for a new turn.
    pub open spec fn granted(self) -> WriteRight {
        WriteRight { turns: self.turns + 1, held: true, ..self }
    }

    /// The right once it is given back.
    pub open spec fn returned(self) -> WriteRight {
        WriteRight { held: false, ..self }
    }
}

impl Default for UnlockWrites {
    fn default() -> (writes: Self)
        ensures
            !writes.is_held(),
            writes.touched_set() == Set::<u32>::empty(),
    {
        UnlockWrites {
            held: false,
            touched: HashSet::new(),
            id: Ghost(arbitrary()),
            turns: Ghost(0),
        }
    }
}

impl UnlockWrites {
    /// How the right to write stands.
    pub closed spec fn right(&self) -> WriteRight {
        WriteRight { id: self.id@, turns: self.turns@, held: self.held }
    }

    /// Whether some writer holds the guard.
    pub open spec fn is_held(&self) -> bool {
        self.right().held
    }

    /// The apps the user changed since the running sweep began.
    pub closed spec fn touched_set(&self) -> Set<u32> {
        self.touched@
    }

    fn grant(&mut self) -> (guard: UnlockWriteGuard)
        ensures
            final(self).right() == old(self).right().granted(),
            final(self).right().admits(guard),
            final(self).touched_set() == old(self).touched_set(),
    {
        self.held = true;
        self.turns = Ghost((self.turns@ + 1) as nat);
        UnlockWriteGuard { id: self.id, turn: self.turns }
    }

    /// Asks for the right to write. Granted exactly when nobody holds it.
    pub fn write(&mut self) -> (guard: Option<UnlockWriteGuard>)
        ensures
            guard is Some <==> !old(self).is_held(),
            guard matches Some(guard) ==> final(self).right().admits(guard),
            final(self).right() == (if old(self).is_held() {
                old(self).right()
            } else {
                old(self).right().granted()
            }),
            final(self).touched_set() == old(self).touched_set(),
    {
        if self.held {
            return None;
        }
        Some(self.grant())
    }

    /// Grants the right to write anew after a holder that is gone without giving it back, as one
    /// that panicked is. A guard from before admits nobody from then on.
    pub fn reclaim(&mut self) -> (guard: UnlockWriteGuard)
        ensures
            final(self).right().admits(guard),
            final(self).right() == old(self).right().granted(),
            final(self).touched_set() == old(self).touched_set(),
    {
        self.grant()
    }

    /// Gives the right to write back to where it came from.
    pub fn release(&mut self, guard: UnlockWriteGuard)
        requires
            old(self).right().admits(guard),
        ensures
            final(self).right() == old(self).right().returned(),
            final(self).touched_set() == old(self).touched_set(),
    {
        self.held = false;
    }

    /// Records that the user is changing `app_id`'s unlock.
    pub fn touch(&mut self, app_id: u32)
        ensures
            final(self).right() == old(self).right(),
            final(self).touched_set() == old(self).touched_set().insert(app_id),
    {
        self.touched.insert(app_id);
    }

    /// The apps the user changed since the running sweep began.
    pub fn touched_apps(&self) -> (apps: &HashSet<u32>)
        ensures
            apps@ == self.touched_set(),
    {
        &self.touched
    }

    /// Forgets every mark, as a new sweep does when it begins.
    pub fn clear_touched(&mut self)
        ensures
            final(self).right() == old(self).right(),
            final(self).touched_set() == Set::<u32>::empty(),
    {
        self.touched.clear();
    }
}

/// Whether one operation on the writes can take the right from `before` to `after`.
pub open spec fn right_goes(before: WriteRight, after: WriteRight) -> bool {
    after == before || after == before.granted() || after == before.returned()
}

/// Whether the right stood like this, state by state, while operations were made on the writes.
pub open spec fn is_history(rights: Seq<WriteRight>) -> bool {
    forall|i: int| 0 <= i < rights.len() - 1 ==> #[trigger] right_goes(rights[i], rights[i + 1])
}

proof fn turns_go_up(rights: Seq<WriteRight>, i: int, k: int)
    requires
        is_history(rights),
        0 <= i <= k < rights.len(),
    ensures
        rights[i].id == rights[k].id,
        rights[i].turns <= rights[k].turns,
        rights[i].turns == rights[k].turns && rights[k].held ==> rights[i].held,
    decreases k,
{
    if i < k {
        turns_go_up(rights, i, k - 1);
        assert(right_goes(rights[k - 1], rights[k - 1 + 1]));
    }
}

/// Two writers never interleave, whatever is asked for, given back, lost and reclaimed: where one
/// guard admits its holder before and after another does, both are for the same turn. At any one
/// time a single turn is admitted.
pub proof fn writers_never_interleave(
    rights: Seq<WriteRight>,
    one: UnlockWriteGuard,
    other: UnlockWriteGuard,
    i: int,
    j: int,
    k: int,
)
    requires
        is_history(rights),
        0 <= i <= j <= k < rights.len(),
        rights[i].admits(one),
        rights[j].admits(other),
        rights[k].admits(one),
    ensures
        one.id() == other.id(),
        one.turn() == other.turn(),
{
    turns_go_up(rights, i, j);
    turns_go_up(rights, j, k);
}

/// A guard that has stopped admitting its holder, because it was given back or replaced, never
/// admits anybody again.
pub proof fn a_turn_ends_for_good(
    rights: Seq<WriteRight>,
    guard: UnlockWriteGuard,
    i: int,
    j: int,
    k: int,
)
    requires
        is_history(rights),
        0 <= i <= j <= k < rights.len(),
        rights[i].admits(guard),
        !rights[j].admits(guard),
    ensures
        !rights[k].admits(guard),
{
    turns_go_up(rights, i, j);
    turns_go_up(rights, j, k);
}

/// Every grant is for a turn of its own: a guard from before the grant admits nobody after it.
pub proof fn a_grant_ends_the_turn_before(right: WriteRight, guard: UnlockWriteGuard)
    requires
        guard.turn() <= right.turns,
    ensures
        !right.granted().admits(guard),
{
}

/// What an update sweep did.
#[derive(Debug, PartialEq, Eq)]
pub struct UnlockUpdateSweep {
    /// Apps whose Lua or manifests were replaced with the provider's current ones.
    pub updated: Vec<u32>,
    /// Apps that could not be checked or written.
    pub failed: usize,
}

impl Default for UnlockUpdateSweep {
    fn default() -> (sweep: Self)
        ensures
            sweep.updated@ == Seq::<u32>::empty(),
            sweep.failed == 0,
    {
        UnlockUpdateSweep { updated: Vec::new(), failed: 0 }
    }
}

/// What the provider answered for one app.
#[derive(Clone, Copy, Debug, PartialEq, Eq, Structural)]
pub enum UnlockFetch {
    /// The provider's current unlock is at hand.
    Current,
    /// The provider has no pinned Lua for the app.
    Unpinned,
    /// The provider could not be asked.
    Failed,
}

/// How the sweep left one app.
#[derive(Clone, Copy, Debug, PartialEq, Eq, Structural)]
pub enum UnlockVerdict {
    Updated,
    LeftAlone,
    Failed,
}

/// What the sweep waits for before it can go on with the current app.
#[derive(Clone, Copy, Debug, PartialEq, Eq, Structural)]
pub enum SweepStage {
    /// The provider's answer.
    Fetch,
    /// Whether the answer differs from the stored copy.
    Compare,
    /// Whether the app is still in Steam; the write guard is held from here on.
    Check,
    /// Whether writing the new files went well.
    Install,
    /// Nothing: every app has been handled.
    Done,
}

/// An update sweep under way: the apps to handle in order, and the verdict on each one handled.
pub struct UnlockSweep {
    pub apps: Vec<u32>,
    pub verdicts: Vec<UnlockVerdict>,
    pub stage: SweepStage,
}

/// All that decides how a sweep leaves an app.
pub ghost struct AppFacts {
    pub fetch: UnlockFetch,
    pub differs: bool,
    pub touched: bool,
    pub in_steam: bool,
    pub written: bool,
}

/// How a sweep leaves an app: it is updated where the provider has a pinned Lua that differs from
/// the stored copy, the user has not touched the app meanwhile, its Lua is still in Steam, and the
/// files could be written.
pub open spec fn verdict_on(facts: AppFacts) -> UnlockVerdict {
    match facts.fetch {
        UnlockFetch::Unpinned => UnlockVerdict::LeftAlone,
        UnlockFetch::Failed => UnlockVerdict::Failed,
        UnlockFetch::Current => if !facts.differs || facts.touched || !facts.in_steam {
            UnlockVerdict::LeftAlone
        } else if facts.written {
            UnlockVerdict::Updated
        } else {
            UnlockVerdict::Failed
        },
    }
}

/// The apps with the verdict `Updated`, in the order of the sweep.
pub open spec fn updated_apps(apps: Seq<u32>, verdicts: Seq<UnlockVerdict>) -> Seq<u32>
    decreases verdicts.len(),
{
    if verdicts.len() == 0 {
        Seq::empty()
    } else {
        let before = updated_apps(apps, verdicts.drop_last());
        if verdicts.last() == UnlockVerdict::Updated {
            before.push(apps[verdicts.len() - 1])
        } else {
            before
        }
    }
}

/// How many verdicts are `Failed`.
pub open spec fn failures(verdicts: Seq<UnlockVerdict>) -> nat
    decreases verdicts.len(),
{
    if verdicts.len() == 0 {
        0
    } else {
        failures(verdicts.drop_last()) + if verdicts.last() == UnlockVerdict::Failed {
            1nat
        } else {
            0nat
        }
    }
}

/// Starts a sweep over `apps`. Marks made before it do not count: it forgets them.
pub fn update_unlocks(apps: Vec<u32>, writes: &mut UnlockWrites) -> (sweep: UnlockSweep)
    ensures
        sweep.wf(),
        sweep.apps == apps,
        sweep.verdicts@ == Seq::<UnlockVerdict>::empty(),
        sweep.stage == (if apps@.len() == 0 {
            SweepStage::Done
        } else {
            SweepStage::Fetch
        }),
        final(writes).right() == old(writes).right(),
        final(writes).touched_set() == Set::<u32>::empty(),
{
    writes.clear_touched();
    let stage = if apps.len() == 0 {
        SweepStage::Done
    } else {
        SweepStage::Fetch
    };
    UnlockSweep { apps, verdicts: Vec::new(), stage }
}

impl UnlockSweep {
    /// There is a verdict on each app before the current one, and the sweep is done exactly when
    /// there is one on every app.
    pub open spec fn wf(&self) -> bool {
        &&& self.verdicts@.len() <= self.apps@.len()
        &&& self.stage == SweepStage::Done <==> self.verdicts@.len() == self.apps@.len()
    }

    /// The app at hand.
    pub open spec fn app(&self) -> u32 {
        self.apps@[self.verdicts@.len() as int]
    }

    /// The sweep with a verdict on the app at hand, ready to fetch the next one.
    pub open spec fn decided(&self, verdict: UnlockVerdict, next: UnlockSweep) -> bool {
        &&& next.wf()
        &&& next.apps == self.apps
        &&& next.verdicts@ == self.verdicts@.push(verdict)
        &&& next.stage == (if next.verdicts@.len() == next.apps@.len() {
            SweepStage::Done
        } else {
            SweepStage::Fetch
        })
    }

    /// The same sweep at another stage of the app at hand.
    pub open spec fn staged(&self, stage: SweepStage, next: UnlockSweep) -> bool {
        &&& next.wf()
        &&& next.apps == self.apps
        &&& next.verdicts == self.verdicts
        &&& next.stage == stage
    }

    /// The app at hand, `None` once the sweep is done.
    pub fn current_app(&self) -> (app_id: Option<u32>)
        requires
            self.wf(),
        ensures
            app_id == (if self.stage == SweepStage::Done {
                None
            } else {
                Some(self.app())
            }),
    {
        if self.verdicts.len() < self.apps.len() {
            Some(self.apps[self.verdicts.len()])
        } else {
            None
        }
    }

    /// Whether the sweep pauses before it asks for the app at hand. Apps are spaced apart because
    /// each fetch can make the provider build a package; the first needs no pause.
    pub fn pauses(&self) -> (pause: bool)
        ensures
            pause == (self.verdicts@.len() > 0),
    {
        self.verdicts.len() > 0
    }

    fn decide(&mut self, verdict: UnlockVerdict)
        requires
            old(self).wf(),
            old(self).stage != SweepStage::Done,
        ensures
            old(self).decided(verdict, *final(self)),
    {
        self.verdicts.push(verdict);
        self.stage = if self.verdicts.len() == self.apps.len() {
            SweepStage::Done
        } else {
            SweepStage::Fetch
        };
    }

    /// Takes the provider's answer. An app without a pinned Lua is left alone, because anything
    /// else would downgrade it to an unpinned one.
    pub fn fetched(&mut self, fetch: UnlockFetch)
        requires
            old(self).wf(),
            old(self).stage == SweepStage::Fetch,
        ensures
            match fetch {
                UnlockFetch::Current => old(self).staged(SweepStage::Compare, *final(self)),
                UnlockFetch::Unpinned => old(self).decided(UnlockVerdict::LeftAlone, *final(self)),
                UnlockFetch::Failed => old(self).decided(UnlockVerdict::Failed, *final(self)),
            },
    {
        match fetch {
            UnlockFetch::Current => {
                self.stage = SweepStage::Compare;
            },
            UnlockFetch::Unpinned => {
                self.decide(UnlockVerdict::LeftAlone);
            },
            UnlockFetch::Failed => {
                self.decide(UnlockVerdict::Failed);
            },
        }
    }

    /// Takes whether the provider's unlock differs from the stored copy.
    pub fn compared(&mut self, differs: bool)
        requires
            old(self).wf(),
            old(self).stage == SweepStage::Compare,
        ensures
            differs ==> old(self).staged(SweepStage::Check, *final(self)),
            !differs ==> old(self).decided(UnlockVerdict::LeftAlone, *final(self)),
    {
        if differs {
            self.stage = SweepStage::Check;
        } else {
            self.decide(UnlockVerdict::LeftAlone);
        }
    }

    /// Takes whether the app's Lua is still in Steam, read while the write guard is held. An app
    /// the user has touched keeps the user's choice, and one removed outside Drydock is not
    /// brought back.
    pub fn checked(&mut self, writes: &UnlockWrites, guard: &UnlockWriteGuard, in_steam: bool)
        requires
            old(self).wf(),
            old(self).stage == SweepStage::Check,
            writes.right().admits(*guard),
        ensures
            ({
                let touched = writes.touched_set().contains(old(self).app());
                &&& !touched && in_steam ==> old(self).staged(SweepStage::Install, *final(self))
                &&& touched || !in_steam ==> old(self).decided(
                    UnlockVerdict::LeftAlone,
                    *final(self),
                )
            }),
    {
        let app_id: u32 = self.apps[self.verdicts.len()];
        if writes.touched_apps().contains(&app_id) || !in_steam {
            self.decide(UnlockVerdict::LeftAlone);
        } else {
            self.stage = SweepStage::Install;
        }
    }

    /// Takes whether the new files could be written into Steam, still under the write guard.
    pub fn installed(&mut self, writes: &UnlockWrites, guard: &UnlockWriteGuard, written: bool)
        requires
            old(self).wf(),
            old(self).stage == SweepStage::Install,
            writes.right().admits(*guard),
        ensures
            written ==> old(self).decided(UnlockVerdict::Updated, *final(self)),
            !written ==> old(self).decided(UnlockVerdict::Failed, *final(self)),
    {
        if written {
            self.decide(UnlockVerdict::Updated);
        } else {
            self.decide(UnlockVerdict::Failed);
        }
    }

    /// What the sweep has done so far: the updated apps in order, and how many failed.
    pub fn summary(&self) -> (sweep: UnlockUpdateSweep)
        requires
            self.wf(),
        ensures
            sweep.updated@ == updated_apps(self.apps@, self.verdicts@),
            sweep.failed == failures(self.verdicts@),
    {
        let mut sweep = UnlockUpdateSweep::default();
        let mut i: usize = 0;
        while i < self.verdicts.len()
            invariant
                self.wf(),
                i <= self.verdicts@.len(),
                sweep.updated@ == updated_apps(self.apps@, self.verdicts@.take(i as int)),
                sweep.failed == failures(self.verdicts@.take(i as int)),
                sweep.failed <= i,
            decreases self.verdicts@.len() - i,
        {
            proof {
                let now = self.verdicts@.take(i + 1);
                assert(now.drop_last() =~= self.verdicts@.take(i as int));
                assert(now.last() == self.verdicts@[i as int]);
            }
            match self.verdicts[i] {
                UnlockVerdict::Updated => {
                    sweep.updated.push(self.apps[i]);
                },
                UnlockVerdict::Failed => {
                    sweep.failed += 1;
                },
                UnlockVerdict::LeftAlone => {},
            }
            i += 1;
        }
        assert(self.verdicts@.take(i as int) =~= self.verdicts@);
        sweep
    }
}

/// Whether a sweep can go from `before` to `after` while it handles one app with these facts:
/// the answer is taken, compared, checked and written as far as it gets.
pub open spec fn handles(before: UnlockSweep, facts: AppFacts, after: UnlockSweep) -> bool {
    before.decided(verdict_on(facts), after)
}

/// Handles one app from the facts about it, through the same steps as a running sweep, under the
/// write guard.
pub fn handle_app(
    sweep: &mut UnlockSweep,
    writes: &UnlockWrites,
    guard: &UnlockWriteGuard,
    fetch: UnlockFetch,
    differs: bool,
    in_steam: bool,
    written: bool,
)
    requires
        old(sweep).wf(),
        old(sweep).stage == SweepStage::Fetch,
        writes.right().admits(*guard),
    ensures
        handles(
            *old(sweep),
            (AppFacts {
                fetch,
                differs,
                touched: writes.touched_set().contains(old(sweep).app()),
                in_steam,
                written,
            }),
            *final(sweep),
        ),
{
    let ghost app_id = sweep.app();
    sweep.fetched(fetch);
    if sweep.stage == SweepStage::Compare {
        sweep.compared(differs);
        if sweep.stage == SweepStage::Check {
            assert(sweep.app() == app_id);
            sweep.checked(writes, guard, in_steam);
            if sweep.stage == SweepStage::Install {
                sweep.installed(writes, guard, written);
            }
        }
    }
}

/// Whether `states` are the states of a sweep from its start to its end, one for each app handled,
/// with `facts` about the apps in their order.
pub open spec fn is_sweep(states: Seq<UnlockSweep>, apps: Seq<u32>, facts: Seq<AppFacts>) -> bool {
    &&& facts.len() == apps.len()
    &&& states.len() == apps.len() + 1
    &&& states[0].apps@ == apps
    &&& states[0].verdicts@.len() == 0
    &&& forall|i: int|
        0 <= i < apps.len() ==> #[trigger] handles(states[i], facts[i], states[i + 1])
}

proof fn sweep_so_far(states: Seq<UnlockSweep>, apps: Seq<u32>, facts: Seq<AppFacts>, n: int)
    requires
        is_sweep(states, apps, facts),
        0 <= n <= apps.len(),
    ensures
        states[n].apps@ == apps,
        states[n].verdicts@ == facts.take(n).map_values(|fact: AppFacts| verdict_on(fact)),
    decreases n,
{
    let verdict = |fact: AppFacts| verdict_on(fact);
    if n == 0 {
        assert(states[0].verdicts@ =~= facts.take(0).map_values(verdict));
    } else {
        sweep_so_far(states, apps, facts, n - 1);
        assert(handles(states[n - 1], facts[n - 1], states[n - 1 + 1]));
        assert(facts.take(n) =~= facts.take(n - 1).push(facts[n - 1]));
        assert(states[n].verdicts@ =~= facts.take(n).map_values(verdict));
    }
}

/// A sweep gives every app the verdict that the facts about it call for, in the order of the apps.
/// An app is reported as updated exactly where these facts hold: the provider's pinned unlock
/// differs from the stored copy, the user has not touched the app, its Lua is in Steam, and the
/// files could be written.
pub proof fn sweep_follows_the_facts(
    states: Seq<UnlockSweep>,
    apps: Seq<u32>,
    facts: Seq<AppFacts>,
    app_id: u32,
)
    requires
        is_sweep(states, apps, facts),
    ensures
        states.last().apps@ == apps,
        states.last().verdicts@ == facts.map_values(|fact: AppFacts| verdict_on(fact)),
        apps.len() > 0 ==> states.last().stage == SweepStage::Done,
        updated_apps(apps, states.last().verdicts@).contains(app_id) <==> exists|i: int|
            0 <= i < apps.len() && apps[i] == app_id && is_updated(#[trigger] facts[i]),
        updated_apps(apps, states.last().verdicts@).len() + failures(states.last().verdicts@)
            <= apps.len(),
{
    let n = apps.len() as int;
    let verdict = |fact: AppFacts| verdict_on(fact);
    sweep_so_far(states, apps, facts, n);
    assert(facts.take(n) =~= facts);
    let verdicts = states.last().verdicts@;
    if n > 0 {
        assert(handles(states[n - 1], facts[n - 1], states[n - 1 + 1]));
    }
    only_updated_apps_are_reported(apps, verdicts, app_id);
    assert forall|i: int| 0 <= i < n implies (verdicts[i] == UnlockVerdict::Updated) == is_updated(
        #[trigger] facts[i],
    ) by {
        assert(verdicts[i] == verdict_on(facts[i]));
    }
    if updated_apps(apps, verdicts).contains(app_id) {
        let i = choose|i: int|
            0 <= i < verdicts.len() && #[trigger] verdicts[i] == UnlockVerdict::Updated && apps[i]
                == app_id;
        assert(is_updated(facts[i]));
    }
    if exists|i: int| 0 <= i < apps.len() && apps[i] == app_id && is_updated(#[trigger] facts[i]) {
        let i = choose|i: int|
            0 <= i < apps.len() && apps[i] == app_id && is_updated(#[trigger] facts[i]);
        assert(verdicts[i] == UnlockVerdict::Updated);
    }
    reports_fit(apps, verdicts);
}

/// Whether a sweep updates an app with these facts.
pub open spec fn is_updated(facts: AppFacts) -> bool {
    facts.fetch == UnlockFetch::Current && facts.differs && !facts.touched && facts.in_steam
        && facts.written
}

/// Whether a sweep counts an app with these facts as failed.
pub open spec fn is_failed(facts: AppFacts) -> bool {
    ||| facts.fetch == UnlockFetch::Failed
    ||| facts.fetch == UnlockFetch::Current && facts.differs && !facts.touched && facts.in_steam
        && !facts.written
}

proof fn reports_fit(apps: Seq<u32>, verdicts: Seq<UnlockVerdict>)
    ensures
        updated_apps(apps, verdicts).len() + failures(verdicts) <= verdicts.len(),
    decreases verdicts.len(),
{
    if verdicts.len() > 0 {
        reports_fit(apps, verdicts.drop_last());
    }
}

/// A sweep counts as failed exactly the apps that could not be asked for, and those that it set out
/// to write and could not.
pub proof fn failures_are_counted(facts: Seq<AppFacts>)
    ensures
        failures(facts.map_values(|fact: AppFacts| verdict_on(fact))) == facts.filter(
            |fact: AppFacts| is_failed(fact),
        ).len(),
    decreases facts.len(),
{
    reveal(Seq::filter);
    let verdict = |fact: AppFacts| verdict_on(fact);
    let verdicts = facts.map_values(verdict);
    if facts.len() > 0 {
        failures_are_counted(facts.drop_last());
        assert(verdicts.drop_last() =~= facts.drop_last().map_values(verdict));
        assert(verdicts.last() == verdict_on(facts.last()));
    }
}

/// A second sweep updates no app whose unlock is still the one that the first has stored: where
/// nothing differs, nothing is updated.
pub proof fn second_sweep_writes_nothing(
    states: Seq<UnlockSweep>,
    apps: Seq<u32>,
    facts: Seq<AppFacts>,
    app_id: u32,
)
    requires
        is_sweep(states, apps, facts),
        forall|i: int|
            0 <= i < apps.len() && apps[i] == app_id ==> !(#[trigger] facts[i]).differs,
    ensures
        !updated_apps(apps, states.last().verdicts@).contains(app_id),
{
    sweep_follows_the_facts(states, apps, facts, app_id);
}

/// An app is reported as updated only where its verdict says so: every app in the summary is one
/// of the apps that the sweep was given and stands there with the verdict `Updated`.
pub proof fn only_updated_apps_are_reported(
    apps: Seq<u32>,
    verdicts: Seq<UnlockVerdict>,
    app_id: u32,
)
    requires
        verdicts.len() <= apps.len(),
    ensures
        updated_apps(apps, verdicts).contains(app_id) <==> exists|i: int|
            0 <= i < verdicts.len() && #[trigger] verdicts[i] == UnlockVerdict::Updated && apps[i]
                == app_id,
    decreases verdicts.len(),
{
    if verdicts.len() > 0 {
        let shorter = verdicts.drop_last();
        only_updated_apps_are_reported(apps, shorter, app_id);
        let before = updated_apps(apps, shorter);
        let all = updated_apps(apps, verdicts);
        let end = verdicts.len() - 1;
        if all.contains(app_id) {
            if before.contains(app_id) {
                let i = choose|i: int|
                    0 <= i < shorter.len() && #[trigger] shorter[i] == UnlockVerdict::Updated
                        && apps[i] == app_id;
                assert(verdicts[i] == UnlockVerdict::Updated);
            } else {
                let k = choose|k: int| 0 <= k < all.len() && all[k] == app_id;
                assert(k == before.len()) by {
                    if k < before.len() {
                        assert(before[k] == app_id);
                    }
                }
                assert(verdicts[end] == UnlockVerdict::Updated && apps[end] == app_id);
            }
        }
        if exists|i: int|
            0 <= i < verdicts.len() && #[trigger] verdicts[i] == UnlockVerdict::Updated && apps[i]
                == app_id {
            let i = choose|i: int|
                0 <= i < verdicts.len() && #[trigger] verdicts[i] == UnlockVerdict::Updated
                    && apps[i] == app_id;
            if i < end {
                assert(shorter[i] == UnlockVerdict::Updated);
                assert(before.contains(app_id));
                let k = choose|k: int| 0 <= k < before.len() && before[k] == app_id;
                assert(all[k] == app_id);
            } else {
                assert(all.last() == app_id);
            }
        }
    }
}

/// A sweep never replaces what the user chose while it ran, never brings back an app that was
/// removed from Steam, and never touches an app that the provider has no pinned Lua for.
pub proof fn sweep_respects_the_user(facts: AppFacts)
    requires
        facts.touched || !facts.in_steam || facts.fetch == UnlockFetch::Unpinned,
    ensures
        verdict_on(facts) != UnlockVerdict::Updated,
{
}

/// An unlock that did not change upstream is not written again.
pub proof fn unchanged_unlock_is_left_alone(facts: AppFacts)
    requires
        facts.fetch == UnlockFetch::Current,
        !facts.differs,
    ensures
        verdict_on(facts) == UnlockVerdict::LeftAlone,
{
}

/// One file under its name.
pub struct NamedFile {
    pub name: String,
    pub bytes: Vec<u8>,
}

/// A set of depot manifests keyed by file name: no name occurs twice.
pub struct ManifestSet {
    pub files: Vec<NamedFile>,
}

/// The files as a map from name to contents; of two with one name, the later counts.
pub open spec fn file_map(files: Seq<NamedFile>) -> Map<Seq<char>, Seq<u8>>
    decreases files.len(),
{
    if files.len() == 0 {
        Map::empty()
    } else {
        file_map(files.drop_last()).insert(files.last().name@, files.last().bytes@)
    }
}

/// Whether no two files share a name.
pub open spec fn distinct_names(files: Seq<NamedFile>) -> bool {
    forall|i: int, j: int|
        0 <= i < j < files.len() ==> #[trigger] files[i].name@ != #[trigger] files[j].name@
}

impl View for ManifestSet {
    type V = Map<Seq<char>, Seq<u8>>;

    open spec fn view(&self) -> Map<Seq<char>, Seq<u8>> {
        file_map(self.files@)
    }
}

/// Files of distinct names are all in the map, with their bytes.
pub proof fn file_map_holds(files: Seq<NamedFile>, i: int)
    requires
        distinct_names(files),
        0 <= i < files.len(),
    ensures
        file_map(files).contains_key(files[i].name@),
        file_map(files)[files[i].name@] == files[i].bytes@,
    decreases files.len(),
{
    if i < files.len() - 1 {
        assert(distinct_names(files.drop_last())) by {
            assert forall|a: int, b: int|
                0 <= a < b < files.len() - 1 implies #[trigger] files.drop_last()[a].name@
                != #[trigger] files.drop_last()[b].name@ by {
                assert(files[a].name@ != files[b].name@);
            }
        }
        file_map_holds(files.drop_last(), i);
        assert(files.drop_last()[i] == files[i]);
        assert(files[i].name@ != files[files.len() - 1].name@);
    }
}

/// Every name in the map is that of a file.
pub proof fn file_map_comes_from(files: Seq<NamedFile>, name: Seq<char>)
    requires
        file_map(files).contains_key(name),
    ensures
        exists|i: int| 0 <= i < files.len() && #[trigger] files[i].name@ == name,
    decreases files.len(),
{
    if files.last().name@ == name {
        assert(files[files.len() - 1].name@ == name);
    } else {
        file_map_comes_from(files.drop_last(), name);
        let i = choose|i: int|
            0 <= i < files.drop_last().len() && #[trigger] files.drop_last()[i].name@ == name;
        assert(files[i].name@ == name);
    }
}

impl ManifestSet {
    /// No name occurs twice.
    pub open spec fn wf(&self) -> bool {
        distinct_names(self.files@)
    }

    /// Whether there are no files.
    pub fn is_empty(&self) -> (empty: bool)
        ensures
            empty == (self@ == Map::<Seq<char>, Seq<u8>>::empty()),
    {
        proof {
            if self.files@.len() > 0 {
                assert(self@.contains_key(self.files@.last().name@));
            }
        }
        self.files.len() == 0
    }

    /// A set without files.
    pub fn new() -> (set: Self)
        ensures
            set.wf(),
            set@ == Map::<Seq<char>, Seq<u8>>::empty(),
            set.files@.len() == 0,
    {
        ManifestSet { files: Vec::new() }
    }

    /// Puts a file into the set, in place of one with the same name.
    pub fn insert(&mut self, file: NamedFile)
        requires
            old(self).wf(),
        ensures
            final(self).wf(),
            final(self)@ == old(self)@.insert(file.name@, file.bytes@),
    {
        let ghost before = self.files@;
        let mut i: usize = 0;
        while i < self.files.len()
            invariant
                self.files@ == before,
                before == old(self).files@,
                i <= before.len(),
                distinct_names(before),
                forall|k: int| 0 <= k < i ==> #[trigger] before[k].name@ != file.name@,
            decreases before.len() - i,
        {
            if same_text(self.files[i].name.as_str(), file.name.as_str()) {
                self.files.set(i, file);
                proof {
                    let after = self.files@;
                    assert(after =~= before.update(i as int, file));
                    assert(distinct_names(after)) by {
                        assert forall|a: int, b: int|
                            0 <= a < b < after.len() implies #[trigger] after[a].name@
                            != #[trigger] after[b].name@ by {
                            assert(before[a].name@ != before[b].name@);
                        }
                    }
                    same_map_after_update(before, after, i as int, file);
                }
                return;
            }
            i += 1;
        }
        self.files.push(file);
        assert(self.files@.drop_last() =~= before);
        assert forall|a: int, b: int|
            0 <= a < b < self.files@.len() implies #[trigger] self.files@[a].name@
            != #[trigger] self.files@[b].name@ by {
            if b < before.len() {
                assert(before[a].name@ != before[b].name@);
            } else {
                assert(before[a].name@ != file.name@);
            }
        }
    }
}

proof fn same_map_after_update(
    before: Seq<NamedFile>,
    after: Seq<NamedFile>,
    at: int,
    file: NamedFile,
)
    requires
        0 <= at < before.len(),
        after == before.update(at, file),
        before[at].name@ == file.name@,
        distinct_names(before),
        distinct_names(after),
    ensures
        file_map(after) == file_map(before).insert(file.name@, file.bytes@),
{
    let left = file_map(after);
    let right = file_map(before).insert(file.name@, file.bytes@);
    file_map_holds(after, at);
    assert forall|name: Seq<char>| left.contains_key(name) <==> right.contains_key(name) by {
        if left.contains_key(name) {
            file_map_comes_from(after, name);
            let i = choose|i: int| 0 <= i < after.len() && #[trigger] after[i].name@ == name;
            file_map_holds(before, i);
            assert(before[i].name@ == name);
        }
        if right.contains_key(name) && name != file.name@ {
            file_map_comes_from(before, name);
            let i = choose|i: int| 0 <= i < before.len() && #[trigger] before[i].name@ == name;
            file_map_holds(after, i);
            assert(after[i].name@ == name);
        }
    }
    assert forall|name: Seq<char>| left.contains_key(name) implies left[name] == right[name] by {
        file_map_comes_from(after, name);
        let i = choose|i: int| 0 <= i < after.len() && #[trigger] after[i].name@ == name;
        file_map_holds(after, i);
        if i != at {
            file_map_holds(before, i);
            assert(before[i] == after[i]);
            assert(name != file.name@) by {
                if i < at {
                    assert(after[i].name@ != after[at].name@);
                } else {
                    assert(after[at].name@ != after[i].name@);
                }
            }
        }
    }
    assert(left =~= right);
}

/// The stored files among those that are missing.
pub fn wanted_manifests(stored: ManifestSet, missing: &Vec<String>) -> (wanted: ManifestSet)
    requires
        stored.wf(),
    ensures
        wanted.wf(),
        wanted@ == stored@.restrict(texts(missing@).to_set()),
{
    let ghost all = stored.files@;
    let ghost names = texts(missing@).to_set();
    let mut rest = stored.files;
    let mut wanted = ManifestSet::new();
    assert(all.skip(all.len() as int) =~= Seq::<NamedFile>::empty());
    assert(wanted@ =~= file_map(all.skip(all.len() as int)).restrict(names));
    while rest.len() > 0
        invariant
            wanted.wf(),
            distinct_names(all),
            names == texts(missing@).to_set(),
            rest@.len() <= all.len(),
            rest@ == all.take(rest@.len() as int),
            wanted@ == file_map(all.skip(rest@.len() as int)).restrict(names),
        decreases rest@.len(),
    {
        let ghost n = rest@.len() - 1;
        if let Some(file) = rest.pop() {
            proof {
                assert(file == all[n]);
                assert(rest@ =~= all.take(n));
                assert(all.skip(n).drop_first() =~= all.skip(n + 1));
                assert(distinct_names(all.skip(n))) by {
                    assert forall|a: int, b: int|
                        0 <= a < b < all.skip(n).len() implies #[trigger] all.skip(n)[a].name@
                        != #[trigger] all.skip(n)[b].name@ by {
                        assert(all[a + n].name@ != all[b + n].name@);
                    }
                }
                file_map_cons(all.skip(n), all.skip(n + 1), file);
            }
            let ghost name = file.name@;
            let listed = lists_name(missing, &file.name);
            if listed {
                wanted.insert(file);
            }
            proof {
                assert(listed == names.contains(name));
                assert(wanted@ =~= file_map(all.skip(n)).restrict(names));
            }
        }
    }
    assert(all.skip(0) =~= all);
    wanted
}

/// Files the user picked for one app.
pub struct OwnUnlock {
    pub app_id: u32,
    pub lua: Option<Vec<u8>>,
    pub manifests: ManifestSet,
}

/// Drydock's own copy of an app's unlock.
pub struct StoredUnlock {
    pub lua: Option<NamedFile>,
    pub manifests: ManifestSet,
}

/// The name of an app's unlock Lua.
pub open spec fn lua_name(app_id: u32) -> Seq<char> {
    decimal_text(app_id as nat) + ".lua"@
}

/// The name of an app's unlock Lua.
pub fn lua_file_name(app_id: u32) -> (name: String)
    ensures
        name@ == lua_name(app_id),
{
    let id = decimal(app_id as u64);
    cat2(id.as_str(), ".lua")
}

/// The copy to keep of an app's unlock after the user's own files were added: the new Lua or else
/// the stored one, under the app's Lua name, and the stored manifests with the new ones over them.
pub fn merge_own_unlock(stored: StoredUnlock, unlock: OwnUnlock) -> (merged: StoredUnlock)
    requires
        stored.manifests.wf(),
        unlock.manifests.wf(),
    ensures
        merged.manifests.wf(),
        merged.manifests@ == stored.manifests@.union_prefer_right(unlock.manifests@),
        merged.lua is Some <==> unlock.lua is Some || stored.lua is Some,
        merged.lua matches Some(file) ==> {
            &&& file.name@ == lua_name(unlock.app_id)
            &&& file.bytes@ == (match unlock.lua {
                Some(bytes) => bytes@,
                None => stored.lua->0.bytes@,
            })
        },
{
    let name = lua_file_name(unlock.app_id);
    let lua = match unlock.lua {
        Some(bytes) => Some(NamedFile { name, bytes }),
        None => match stored.lua {
            Some(file) => Some(NamedFile { name, bytes: file.bytes }),
            None => None,
        },
    };
    let mut manifests = stored.manifests;
    let mut rest = unlock.manifests.files;
    let ghost base = manifests@;
    let ghost added = rest@;
    proof {
        assert(added.skip(added.len() as int) =~= Seq::<NamedFile>::empty());
    }
    while rest.len() > 0
        invariant
            manifests.wf(),
            distinct_names(added),
            rest@.len() <= added.len(),
            rest@ == added.take(rest@.len() as int),
            manifests@ == base.union_prefer_right(file_map(added.skip(rest@.len() as int))),
        decreases rest@.len(),
    {
        let ghost n = rest@.len() - 1;
        if let Some(file) = rest.pop() {
            proof {
                assert(file == added[n]);
                assert(rest@ =~= added.take(n));
                assert(added.skip(n).drop_first() =~= added.skip(n + 1));
                file_map_cons(added.skip(n), added.skip(n + 1), file);
            }
            manifests.insert(file);
            proof {
                assert(manifests@ =~= base.union_prefer_right(file_map(added.skip(n))));
            }
        }
    }
    assert(added.skip(0) =~= added);
    StoredUnlock { lua, manifests }
}

/// With distinct names it does not matter which file enters the map first.
proof fn file_map_cons(all: Seq<NamedFile>, tail: Seq<NamedFile>, first: NamedFile)
    requires
        distinct_names(all),
        all.len() > 0,
        all[0] == first,
        all.drop_first() == tail,
    ensures
        file_map(all) == file_map(tail).insert(first.name@, first.bytes@),
{
    assert(distinct_names(tail)) by {
        assert forall|a: int, b: int| 0 <= a < b < tail.len() implies #[trigger] tail[a].name@
            != #[trigger] tail[b].name@ by {
            assert(all[a + 1].name@ != all[b + 1].name@);
        }
    }
    let left = file_map(all);
    let right = file_map(tail).insert(first.name@, first.bytes@);
    file_map_holds(all, 0);
    assert forall|name: Seq<char>| left.contains_key(name) <==> right.contains_key(name) by {
        if left.contains_key(name) {
            file_map_comes_from(all, name);
            let i = choose|i: int| 0 <= i < all.len() && #[trigger] all[i].name@ == name;
            if i > 0 {
                file_map_holds(tail, i - 1);
                assert(tail[i - 1].name@ == name);
            }
        }
        if right.contains_key(name) && name != first.name@ {
            file_map_comes_from(tail, name);
            let i = choose|i: int| 0 <= i < tail.len() && #[trigger] tail[i].name@ == name;
            file_map_holds(all, i + 1);
            assert(all[i + 1].name@ == name);
        }
    }
    assert forall|name: Seq<char>| left.contains_key(name) implies left[name] == right[name] by {
        file_map_comes_from(all, name);
        let i = choose|i: int| 0 <= i < all.len() && #[trigger] all[i].name@ == name;
        file_map_holds(all, i);
        if i > 0 {
            file_map_holds(tail, i - 1);
            assert(all[0].name@ != all[i].name@);
        }
    }
    assert(left =~= right);
}

/// Adding a few manifests keeps the stored Lua, and adding a Lua keeps the stored manifests.
pub proof fn own_files_keep_the_rest(
    stored: Map<Seq<char>, Seq<u8>>,
    added: Map<Seq<char>, Seq<u8>>,
    name: Seq<char>,
)
    requires
        stored.contains_key(name),
        !added.contains_key(name),
    ensures
        stored.union_prefer_right(added).contains_key(name),
        stored.union_prefer_right(added)[name] == stored[name],
{
}

/// What the note says was added.
pub open spec fn own_files_text(has_lua: bool, manifests: usize) -> Seq<char> {
    if has_lua && manifests == 0 {
        "your Lua"@
    } else if has_lua {
        "your Lua and "@ + decimal_text(manifests as nat) + " depot manifest(s)"@
    } else {
        decimal_text(manifests as nat) + " depot manifest(s)"@
    }
}

/// What the note adds where Drydock's own copy could not be kept.
pub open spec fn backup_text(saved: Result<(), String>) -> Seq<char> {
    match saved {
        Ok(_) => Seq::empty(),
        Err(error) => " Drydock could not keep its own copy ("@ + error@
            + "), so reinstalling it will need the files again."@,
    }
}

/// The outcome of installing files the user picked: the first error of the two writes into Steam,
/// else the status note. `lua` is the outcome of writing the Lua and counts only where there is
/// one, `manifests` the number of manifests installed, `saved` whether Drydock's own copy of the
/// merged unlock could be kept.
pub fn install_own_unlock(
    has_lua: bool,
    lua: Result<(), String>,
    manifests: Result<usize, String>,
    saved: Result<(), String>,
    name: &str,
) -> (note: Result<String, String>)
    ensures
        note is Ok <==> (has_lua ==> lua is Ok) && manifests is Ok,
        has_lua && lua is Err ==> note->Err_0 == lua->Err_0,
        (has_lua ==> lua is Ok) && manifests is Err ==> note->Err_0 == manifests->Err_0,
        note matches Ok(text) ==> text@ == "Added "@ + own_files_text(has_lua, manifests->Ok_0)
            + " for \""@ + name@
            + "\" to Steam. Automatic updates leave these files alone."@ + backup_text(saved),
{
    if has_lua {
        if let Err(error) = lua {
            return Err(error);
        }
    }
    let count: usize = match manifests {
        Ok(count) => count,
        Err(error) => {
            return Err(error);
        },
    };
    let number = decimal(count as u64);
    let what = if has_lua && count == 0 {
        "your Lua".to_owned()
    } else if has_lua {
        cat3("your Lua and ", number.as_str(), " depot manifest(s)")
    } else {
        cat2(number.as_str(), " depot manifest(s)")
    };
    let backup = match saved {
        Ok(_) => String::new(),
        Err(error) => cat3(
            " Drydock could not keep its own copy (",
            error.as_str(),
            "), so reinstalling it will need the files again.",
        ),
    };
    let mut text = cat3("Added ", what.as_str(), " for \"");
    text.append(name);
    text.append("\" to Steam. Automatic updates leave these files alone.");
    text.append(backup.as_str());
    Ok(text)
}

} // verus!
