//! Supervillains and the campaigns they run.
use vstd::prelude::*;
use vstd::std_specs::convert::TryFromSpecImpl;
use crate::cipher::Cipher;
use crate::gadget::Gadget;
use crate::henchman::{Henchman, Task};
use crate::sidekick::{Sidekick, SidekickView};
use crate::text::{
    components, components_across_white_space, components_are_words, components_of_word,
    split_on_white_space,
};

verus! {

/// A weapon of the kind that supervillains favour.
///
/// What firing does to a megaweapon is for each kind of megaweapon to say, in
/// `once_fired`. Whoever fires one states in those terms how often it fired.
pub trait Megaweapon {
    /// Whether `after` is what can become of this weapon once it is fired. A
    /// megaweapon that does not say otherwise makes no promise.
    open spec fn once_fired(&self, after: &Self) -> bool {
        true
    }

    /// Fires the weapon once.
    fn shoot(&mut self)
        ensures
            old(self).once_fired(final(self)),
    ;
}

/// Why a name could not be taken apart.
#[derive(Debug, Clone, Copy, PartialEq, Eq, Structural)]
pub enum NameError {
    /// The name holds fewer than two components: a first or a last name is
    /// missing.
    TooFewArguments,
}

impl NameError {
    /// The error in words.
    pub fn message(&self) -> (message: String)
        ensures
            message@ == "Too few arguments"@,
    {
        "Too few arguments".to_owned()
    }
}

/// What a supervillain is, as far as anyone dealing with it can tell.
pub struct SupervillainView {
    /// The first name.
    pub first_name: Seq<char>,
    /// The last name.
    pub last_name: Seq<char>,
    /// The sidekick, as long as there is one.
    pub sidekick: Option<SidekickView>,
    /// The key that the supervillain shares with whoever reads its messages.
    pub shared_key: Seq<char>,
}

impl SupervillainView {
    /// The first name, a space and the last name.
    pub open spec fn full_name(self) -> Seq<char> {
        self.first_name + seq![' '] + self.last_name
    }

    /// The same supervillain under the first two components of `name`.
    pub open spec fn renamed(self, name: Seq<char>) -> SupervillainView {
        SupervillainView {
            first_name: components(name)[0],
            last_name: components(name)[1],
            ..self
        }
    }

    /// The supervillain after a conspiracy: a sidekick that does not consent
    /// is gone, everything else is as before.
    pub open spec fn conspired(self) -> SupervillainView {
        SupervillainView {
            sidekick: match self.sidekick {
                Some(sidekick) if sidekick.consents => Some(sidekick),
                _ => None,
            },
            ..self
        }
    }

    /// Where the secret headquarters are to be built: at the first target
    /// that the sidekick knows of, if there is a sidekick and it knows any.
    pub open spec fn headquarters(self) -> Option<Seq<char>> {
        match self.sidekick {
            Some(sidekick) if sidekick.targets.len() > 0 => Some(sidekick.targets[0]),
            _ => None,
        }
    }

    /// The supervillain after `message` went out: the sidekick, if there is
    /// one, has been told it; everything else is as before.
    pub open spec fn told(self, message: Seq<char>) -> SupervillainView {
        SupervillainView {
            sidekick: match self.sidekick {
                Some(sidekick) => Some(
                    SidekickView { told: sidekick.told.push(message), ..sidekick },
                ),
                None => None,
            },
            ..self
        }
    }
}

/// Somebody out to dominate the world, with or without a sidekick.
///
/// A sidekick can be dismissed. Nothing that a supervillain does brings one
/// back.
pub struct Supervillain<'a> {
    /// The first name.
    pub first_name: String,
    /// The last name.
    pub last_name: String,
    /// The sidekick, as long as there is one.
    pub sidekick: Option<Sidekick<'a>>,
    /// The key under which messages to the sidekick are enciphered. It is
    /// handed to the cipher as it is.
    pub shared_key: String,
}

impl<'a> View for Supervillain<'a> {
    type V = SupervillainView;

    open spec fn view(&self) -> SupervillainView {
        SupervillainView {
            first_name: self.first_name@,
            last_name: self.last_name@,
            sidekick: match self.sidekick {
                Some(sidekick) => Some(sidekick@),
                None => None,
            },
            shared_key: self.shared_key@,
        }
    }
}

impl<'a> Default for Supervillain<'a> {
    /// A supervillain without names, sidekick or key.
    fn default() -> (villain: Self)
        ensures
            villain@ == (SupervillainView {
                first_name: Seq::empty(),
                last_name: Seq::empty(),
                sidekick: None,
                shared_key: Seq::empty(),
            }),
    {
        Supervillain {
            first_name: String::new(),
            last_name: String::new(),
            sidekick: None,
            shared_key: String::new(),
        }
    }
}

impl<'a> Supervillain<'a> {
    /// The first name, a single space and the last name, as one string.
    pub fn full_name(&self) -> (name: String)
        ensures
            name@ == self@.full_name(),
    {
        let mut name = self.first_name.clone();
        name.append(" ");
        name.append(self.last_name.as_str());
        proof {
            reveal_strlit(" ");
        }
        name
    }

    /// Takes the first and the last name from `name`, which must consist of
    /// exactly two components: two words, with white space between them and
    /// perhaps around them.
    pub fn set_full_name(&mut self, name: &str)
        requires
            components(name@).len() == 2,
        ensures
            final(self)@ == old(self)@.renamed(name@),
            final(self).sidekick == old(self).sidekick,
    {
        let mut parts = split_on_white_space(name);
        let last_name = parts.pop().unwrap();
        let first_name = parts.pop().unwrap();
        self.first_name = first_name;
        self.last_name = last_name;
    }

    /// Fires `weapon` once.
    pub fn attack(&self, weapon: &mut impl Megaweapon)
        ensures
            old(weapon).once_fired(final(weapon)),
    {
        weapon.shoot();
    }

    /// The plan, which is always the same.
    pub fn come_up_with_plan(&self) -> (plan: String)
        ensures
            plan@ == "Take over the world!"@,
    {
        "Take over the world!".to_owned()
    }

    /// Asks the sidekick, if there is one, whether it consents, and
    /// dismisses it if it does not.
    pub fn conspire(&mut self)
        ensures
            final(self)@ == old(self)@.conspired(),
            final(self).sidekick == (if old(self)@.conspired().sidekick is Some {
                old(self).sidekick
            } else {
                None
            }),
    {
        let dismiss = match &self.sidekick {
            Some(sidekick) => !sidekick.agree(),
            None => false,
        };
        if dismiss {
            self.sidekick = None;
        }
    }

    /// Has `henchman` build the secret headquarters at the first weak target
    /// that the sidekick finds with `gadget`, and at no other. Without a
    /// sidekick, or without a target, the henchman is left alone.
    pub fn start_world_domination_stage1<H: Henchman, G: Gadget>(
        &self,
        henchman: &mut H,
        gadget: &G,
    )
        ensures
            match self@.headquarters() {
                Some(location) => old(henchman).given(
                    Task::BuildSecretHq { location },
                    final(henchman),
                ),
                None => *final(henchman) == *old(henchman),
            },
    {
        if let Some(ref sidekick) = self.sidekick {
            let targets = sidekick.get_weak_targets(gadget);
            if !targets.is_empty() {
                henchman.build_secret_hq(targets[0].clone());
            }
        }
    }

    /// Has `henchman` do the hard things and then fight the enemies, each
    /// once, whether or not there is a sidekick.
    pub fn start_world_domination_stage2<H: Henchman>(&self, henchman: &mut H)
        ensures
            exists|between: H|
                old(henchman).given(Task::DoHardThings, &between) && #[trigger] between.given(
                    Task::FightEnemies,
                    final(henchman),
                ),
    {
        henchman.do_hard_things();
        henchman.fight_enemies();
    }

    /// Tells the sidekick the secret, as `cipher` makes it under the shared
    /// key. Without a sidekick the cipher is not used and nothing changes.
    pub fn tell_plans<C: Cipher>(&mut self, secret: &str, cipher: &C)
        ensures
            match old(self).sidekick {
                Some(sidekick) => {
                    &&& exists|message: Seq<char>|
                        cipher.transforms(secret@, old(self)@.shared_key, message)
                            && #[trigger] old(self)@.told(message) == final(self)@
                    &&& final(self).sidekick is Some
                    &&& final(self).sidekick->0.gadget == sidekick.gadget
                },
                None => *final(self) == *old(self),
            },
    {
        let ghost mut message = Seq::<char>::empty();
        if let Some(sidekick) = &mut self.sidekick {
            let ciphered_msg = cipher.transform(secret, self.shared_key.as_str());
            proof {
                message = ciphered_msg@;
            }
            sidekick.tell(ciphered_msg);
        }
        assert(old(self).sidekick is Some ==> old(self)@.told(message) == self@);
    }
}

impl<'a> TryFrom<&str> for Supervillain<'a> {
    type Error = NameError;

    /// A supervillain without sidekick or key, under the first two
    /// components of `name`; an error if there are fewer than two.
    fn try_from(name: &str) -> (made: Result<Self, NameError>)
        ensures
            components(name@).len() >= 2 ==> made is Ok && made->Ok_0@ == (SupervillainView {
                first_name: components(name@)[0],
                last_name: components(name@)[1],
                sidekick: None,
                shared_key: Seq::empty(),
            }),
            components(name@).len() < 2 ==> made == Err::<Self, NameError>(
                NameError::TooFewArguments,
            ),
    {
        let parts = split_on_white_space(name);
        if parts.len() < 2 {
            Err(NameError::TooFewArguments)
        } else {
            Ok(
                Supervillain {
                    first_name: parts[0].clone(),
                    last_name: parts[1].clone(),
                    sidekick: None,
                    shared_key: String::new(),
                },
            )
        }
    }
}

/// What `try_from` returns is stated in its own contract, over views: a
/// string is known by its text only, so no one value can be named for it here.
impl<'a> TryFromSpecImpl<&str> for Supervillain<'a> {
    open spec fn obeys_try_from_spec() -> bool {
        false
    }

    open spec fn try_from_spec(name: &str) -> Result<Self, NameError> {
        Err(NameError::TooFewArguments)
    }
}

/// A conspiracy dismisses a sidekick exactly if it does not consent. One
/// that consents stays as it is, and nothing but the sidekick ever changes.
pub proof fn conspiring_dismisses_exactly_dissenters(villain: SupervillainView)
    requires
        villain.sidekick is Some,
    ensures
        villain.conspired().sidekick is None <==> !villain.sidekick->0.consents,
        villain.sidekick->0.consents ==> villain.conspired() == villain,
        villain.conspired() == (SupervillainView {
            sidekick: villain.conspired().sidekick,
            ..villain
        }),
{
}

/// A conspiracy changes nothing about a supervillain without a sidekick, and
/// a second conspiracy changes nothing that the first has left.
pub proof fn conspiring_again_changes_nothing(villain: SupervillainView)
    ensures
        villain.sidekick is None ==> villain.conspired() == villain,
        villain.conspired().conspired() == villain.conspired(),
{
}

/// Without a sidekick there is no place for headquarters and nobody to tell:
/// no message changes anything.
pub proof fn without_sidekick_nothing_is_delegated(villain: SupervillainView, message: Seq<char>)
    requires
        villain.sidekick is None,
    ensures
        villain.headquarters() is None,
        villain.told(message) == villain,
{
}

/// A sidekick that is gone does not come back, whatever the supervillain
/// does next.
pub proof fn dismissed_sidekick_stays_away(
    villain: SupervillainView,
    name: Seq<char>,
    message: Seq<char>,
)
    requires
        villain.sidekick is None,
    ensures
        villain.renamed(name).sidekick is None,
        villain.conspired().sidekick is None,
        villain.told(message).sidekick is None,
{
}

/// A supervillain renamed to a name of two components has a full name of
/// the same two components: the names are read back from it as they were set.
pub proof fn full_name_of_renamed(villain: SupervillainView, name: Seq<char>)
    requires
        components(name).len() == 2,
    ensures
        components(villain.renamed(name).full_name()) == components(name),
{
    let parts = components(name);
    components_are_words(name);
    components_of_word(parts[0]);
    components_of_word(parts[1]);
    components_across_white_space(parts[0], ' ', parts[1]);
    assert(villain.renamed(name).full_name() =~= parts[0].push(' ') + parts[1]);
}

} // verus!
