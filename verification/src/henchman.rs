//! Henchmen and the tasks they are given.
use vstd::prelude::*;

verus! {

/// One task handed to a henchman.
pub enum Task {
    /// Build the secret headquarters at the given location.
    BuildSecretHq { location: Seq<char> },
    /// Do the hard things.
    DoHardThings,
    /// Fight the enemies.
    FightEnemies,
}

/// Somebody who does the work that a supervillain delegates.
///
/// What a task does to a henchman is for each kind of henchman to say, in
/// `given`. Whoever hands out tasks states in those terms which tasks it
/// handed out, and in what order. Such a statement holds whatever `given`
/// means, and so also where it means most: of a henchman that keeps a list of
/// its tasks, it says that the list has grown by just these tasks.
pub trait Henchman {
    /// Whether `after` is what can become of this henchman once it is given
    /// `task`. A henchman that does not say otherwise makes no promise.
    open spec fn given(&self, task: Task, after: &Self) -> bool {
        true
    }

    /// Builds the secret headquarters at `location`.
    fn build_secret_hq(&mut self, location: String)
        ensures
            old(self).given(Task::BuildSecretHq { location: location@ }, final(self)),
    ;

    /// Does the hard things.
    fn do_hard_things(&mut self)
        ensures
            old(self).given(Task::DoHardThings, final(self)),
    ;

    /// Fights the enemies.
    fn fight_enemies(&mut self)
        ensures
            old(self).given(Task::FightEnemies, final(self)),
    ;
}

} // verus!
