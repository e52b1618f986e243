//! Sidekicks and what they know.
use vstd::prelude::*;
use crate::gadget::Gadget;
use crate::text::texts;

verus! {

/// What a sidekick is, as far as anyone dealing with it can tell.
pub struct SidekickView {
    /// Whether the sidekick goes along with a conspiracy.
    pub consents: bool,
    /// The weak targets that the sidekick knows of, the most promising first.
    pub targets: Seq<Seq<char>>,
    /// The messages that the sidekick has been told, oldest first.
    pub told: Seq<Seq<char>>,
}

/// A supervillain's assistant.
pub struct Sidekick<'a> {
    /// The gadget that the sidekick is equipped with.
    pub gadget: Box<dyn Gadget + 'a>,
    /// Whether the sidekick goes along with a conspiracy.
    pub consents: bool,
    /// The weak targets that the sidekick knows of, the most promising first.
    pub known_targets: Vec<String>,
    /// The messages that the sidekick has been told, oldest first.
    pub messages: Vec<String>,
}

impl<'a> View for Sidekick<'a> {
    type V = SidekickView;

    open spec fn view(&self) -> SidekickView {
        SidekickView {
            consents: self.consents,
            targets: texts(self.known_targets@),
            told: texts(self.messages@),
        }
    }
}

impl<'a> Sidekick<'a> {
    /// A sidekick equipped with `gadget`, who consents, knows of no target
    /// and has been told nothing.
    pub fn new<G: Gadget + 'a>(gadget: G) -> (sidekick: Sidekick<'a>)
        ensures
            sidekick@ == (SidekickView { consents: true, targets: seq![], told: seq![] }),
    {
        let sidekick = Sidekick {
            gadget: Box::new(gadget),
            consents: true,
            known_targets: Vec::new(),
            messages: Vec::new(),
        };
        assert(sidekick@.targets =~= seq![]);
        assert(sidekick@.told =~= seq![]);
        sidekick
    }

    /// Whether the sidekick goes along with a conspiracy.
    pub fn agree(&self) -> (consent: bool)
        ensures
            consent == self@.consents,
    {
        self.consents
    }

    /// The weak targets that the sidekick knows of, the most promising first.
    /// The gadget is there for the search and is left as it is.
    pub fn get_weak_targets<G: Gadget>(&self, _gadget: &G) -> (targets: Vec<String>)
        ensures
            texts(targets@) == self@.targets,
    {
        self.known_targets.clone()
    }

    /// Takes in a message that has already been enciphered and keeps it, as
    /// it is, after the messages told before.
    pub fn tell(&mut self, ciphered_msg: String)
        ensures
            final(self)@ == (SidekickView {
                told: old(self)@.told.push(ciphered_msg@),
                ..old(self)@
            }),
            final(self).gadget == old(self).gadget,
    {
        self.messages.push(ciphered_msg);
        assert(texts(self.messages@) =~= texts(old(self).messages@).push(ciphered_msg@));
    }
}

} // verus!
