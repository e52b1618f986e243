use evil::{Gadget, Sidekick};

struct DummyGadget;

impl Gadget for DummyGadget {
    fn do_stuff(&self) {}
}

#[test]
fn new_sidekick_consents_and_knows_nothing() {
    let sidekick = Sidekick::new(DummyGadget);
    assert!(sidekick.consents);
    assert!(sidekick.known_targets.is_empty());
    assert!(sidekick.messages.is_empty());
}

#[test]
fn new_sidekick_agrees() {
    let sidekick = Sidekick::new(DummyGadget);
    assert!(sidekick.agree());
}

#[test]
fn sidekick_agrees_as_it_consents() {
    let mut sidekick = Sidekick::new(DummyGadget);
    sidekick.consents = false;
    assert!(!sidekick.agree());
    sidekick.consents = true;
    assert!(sidekick.agree());
}

#[test]
fn new_sidekick_finds_no_weak_targets() {
    let sidekick = Sidekick::new(DummyGadget);
    assert_eq!(sidekick.get_weak_targets(&DummyGadget), Vec::<String>::new());
}

#[test]
fn sidekick_reports_known_targets_in_order() {
    let mut sidekick = Sidekick::new(DummyGadget);
    sidekick.known_targets = vec![String::from("Paris"), String::from("Tokyo")];
    let targets = sidekick.get_weak_targets(&DummyGadget);
    assert_eq!(targets, vec![String::from("Paris"), String::from("Tokyo")]);
    assert_eq!(sidekick.known_targets, targets);
}

#[test]
fn sidekick_keeps_messages_unchanged_and_in_order() {
    let mut sidekick = Sidekick::new(DummyGadget);
    sidekick.tell(String::from("+PLAN+"));
    sidekick.tell(String::from(""));
    sidekick.tell(String::from("+PLAN+"));
    assert_eq!(
        sidekick.messages,
        vec![String::from("+PLAN+"), String::new(), String::from("+PLAN+")]
    );
}

#[test]
fn telling_leaves_consent_and_targets_alone() {
    let mut sidekick = Sidekick::new(DummyGadget);
    sidekick.consents = false;
    sidekick.known_targets = vec![String::from("Paris")];
    sidekick.tell(String::from("x"));
    assert!(!sidekick.consents);
    assert_eq!(sidekick.known_targets, vec![String::from("Paris")]);
}
