use objc::{Class, ClassPair, PairOp, PairState};

#[test]
fn failed_allocation_gives_no_pair() {
    assert!(ClassPair::allocated(Class::nil()).is_none());
}

#[test]
fn thing_pair_lifecycle() {
    let thing = Class { raw: 0x7000 };
    let mut pair = ClassPair::allocated(thing).unwrap();
    assert_eq!(pair.state(), PairState::Unregistered);
    assert!(pair.begin(PairOp::AddMethod));
    assert!(pair.begin(PairOp::AddMethod));
    assert_eq!(pair.state(), PairState::Unregistered);
    assert!(pair.begin(PairOp::Register));
    assert_eq!(pair.state(), PairState::Registered);
    assert_eq!(pair.class(), thing);
}

#[test]
fn add_method_after_registration_is_rejected() {
    let mut pair = ClassPair::allocated(Class { raw: 0x7100 }).unwrap();
    assert!(pair.begin(PairOp::Register));
    assert!(!pair.begin(PairOp::AddMethod));
    assert!(!pair.begin(PairOp::AddIvar));
    assert!(!pair.begin(PairOp::AddProperty));
    assert!(!pair.begin(PairOp::AddProtocol));
    assert!(!pair.begin(PairOp::Register));
    assert_eq!(pair.state(), PairState::Registered);
}

#[test]
fn registered_pair_cannot_be_disposed() {
    let mut pair = ClassPair::allocated(Class { raw: 0x7200 }).unwrap();
    assert!(pair.begin(PairOp::AddIvar));
    assert!(pair.begin(PairOp::Register));
    assert!(!pair.begin(PairOp::Dispose));
    assert_eq!(pair.state(), PairState::Registered);
}

#[test]
fn disposed_pair_accepts_nothing() {
    let mut pair = ClassPair::allocated(Class { raw: 0x7300 }).unwrap();
    assert!(pair.begin(PairOp::Dispose));
    assert_eq!(pair.state(), PairState::Disposed);
    assert!(!pair.begin(PairOp::AddIvar));
    assert!(!pair.begin(PairOp::Register));
    assert_eq!(pair.state(), PairState::Disposed);
}
