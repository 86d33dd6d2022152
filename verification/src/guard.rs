//! The look after the depot manifests that Steam may have dropped.
use crate::steam::{all_attempted, app_to_fetch};
use crate::text::texts;
use crate::unlocks::{wanted_manifests, ManifestSet};
use std::collections::HashSet;
use vstd::prelude::*;

verus! {

/// What a look at one app has found.
pub enum AppLook {
    /// Nothing is stored for it: only a fetch can help.
    NeverStored,
    /// Nothing is missing, or nothing that is stored.
    Nothing,
    /// Missing manifests were put back: how many, or why not.
    PutBack(Result<usize, String>),
}

/// What is to be done about the manifests of one app.
pub enum Repair {
    /// Nothing is stored for it.
    NeverStored,
    /// Nothing is missing, or nothing that is stored.
    Nothing,
    /// These manifests are to be put back.
    PutBack(ManifestSet),
}

/// What is to be done about an app, given Drydock's copy of its manifests and the names of those
/// that Steam has dropped.
pub fn plan_repair(stored: ManifestSet, missing: &Vec<String>) -> (plan: Repair)
    requires
        stored.wf(),
    ensures
        ({
            let wanted = stored@.restrict(texts(missing@).to_set());
            &&& plan is NeverStored <==> stored@ == Map::<Seq<char>, Seq<u8>>::empty()
            &&& plan is PutBack <==> wanted != Map::<Seq<char>, Seq<u8>>::empty()
            &&& plan matches Repair::PutBack(set) ==> set.wf() && set@ == wanted
        }),
{
    let ghost kept = stored@;
    let ghost names = texts(missing@).to_set();
    if stored.is_empty() {
        assert(kept.restrict(names) =~= Map::<Seq<char>, Seq<u8>>::empty());
        return Repair::NeverStored;
    }
    let wanted = wanted_manifests(stored, missing);
    if wanted.is_empty() {
        Repair::Nothing
    } else {
        Repair::PutBack(wanted)
    }
}

/// What a look over the recorded apps has come to.
pub struct GuardSweep {
    /// How many manifests were put back.
    pub restored: usize,
    /// The apps they belong to.
    pub repaired: Vec<u32>,
    /// The apps that nothing is stored for, and whose manifests may come from the provider.
    pub never_stored: Vec<u32>,
    /// The app that was fetched for.
    pub attempted: Option<u32>,
}

/// How many manifests a look has put back.
pub open spec fn put_back(look: AppLook) -> nat {
    match look {
        AppLook::PutBack(Ok(count)) => count as nat,
        _ => 0,
    }
}

impl GuardSweep {
    /// A look that has found nothing yet.
    pub fn new() -> (sweep: Self)
        ensures
            sweep.restored == 0,
            sweep.repaired@.len() == 0,
            sweep.never_stored@.len() == 0,
            sweep.attempted is None,
    {
        GuardSweep {
            restored: 0,
            repaired: Vec::new(),
            never_stored: Vec::new(),
            attempted: None,
        }
    }

    /// Whether `after` is this look once an app was looked at.
    pub open spec fn noted(
        &self,
        app_id: u32,
        from_provider: bool,
        look: AppLook,
        after: GuardSweep,
    ) -> bool {
        &&& after.restored == self.restored + put_back(look)
        &&& after.repaired@ == if look matches AppLook::PutBack(Ok(_)) {
            self.repaired@.push(app_id)
        } else {
            self.repaired@
        }
        &&& after.never_stored@ == if look is NeverStored && from_provider {
            self.never_stored@.push(app_id)
        } else {
            self.never_stored@
        }
        &&& after.attempted == self.attempted
    }

    /// Notes what a look at an app has found.
    pub fn note(&mut self, app_id: u32, from_provider: bool, look: AppLook)
        requires
            old(self).restored + put_back(look) <= usize::MAX,
        ensures
            old(self).noted(app_id, from_provider, look, *final(self)),
    {
        match look {
            AppLook::NeverStored => {
                if from_provider {
                    self.never_stored.push(app_id);
                }
            },
            AppLook::Nothing => {},
            AppLook::PutBack(Ok(count)) => {
                self.restored = self.restored + count;
                self.repaired.push(app_id);
            },
            AppLook::PutBack(Err(_)) => {},
        }
    }

    /// The app to fetch for: the first that nothing is stored for and that was not fetched for in
    /// this session.
    pub fn app_to_fetch(&self, attempted: &HashSet<u32>) -> (app: Option<u32>)
        ensures
            app is None <==> all_attempted(self.never_stored@, attempted@),
            app matches Some(id) ==> !attempted@.contains(id) && exists|i: int|
                0 <= i < self.never_stored@.len() && #[trigger] self.never_stored@[i] == id
                    && forall|j: int|
                    0 <= j < i ==> attempted@.contains(#[trigger] self.never_stored@[j]),
    {
        app_to_fetch(&self.never_stored, attempted)
    }

    /// Notes what a fetch has come to: how many manifests were installed, or why none.
    pub fn fetched(&mut self, app_id: u32, count: Result<usize, String>)
        requires
            count matches Ok(n) ==> old(self).restored + n <= usize::MAX,
        ensures
            final(self).attempted == Some(app_id),
            final(self).never_stored == old(self).never_stored,
            match count {
                Ok(n) => final(self).restored == old(self).restored + n && final(self).repaired@
                    == old(self).repaired@.push(app_id),
                Err(_) => final(self).restored == old(self).restored && final(self).repaired
                    == old(self).repaired,
            },
    {
        self.attempted = Some(app_id);
        if let Ok(n) = count {
            self.restored = self.restored + n;
            self.repaired.push(app_id);
        }
    }

    /// How many manifests were put back, for how many apps, and which app was fetched for.
    pub fn report(&self) -> (report: (usize, usize, Option<u32>))
        ensures
            report.0 == self.restored,
            report.1 == self.repaired@.len(),
            report.2 == self.attempted,
    {
        (self.restored, self.repaired.len(), self.attempted)
    }
}

/// Files that the user supplied are never fetched from the provider.
pub proof fn own_files_are_not_fetched(
    before: GuardSweep,
    app_id: u32,
    look: AppLook,
    after: GuardSweep,
)
    requires
        before.noted(app_id, false, look, after),
    ensures
        after.never_stored@ == before.never_stored@,
{
}

} // verus!
