//! The lifecycle of a class pair defined at run time.
//!
//! A new class is allocated as a pair (the class and its metaclass), then
//! given instance variables, methods, properties and protocols, then
//! registered, after which lookups by name find it. The runtime does not
//! defend its layout against changes once it is registered, so every
//! change goes through `ClassPair::begin`, which permits it only while the
//! pair is still unregistered. A pair that will never be registered may be
//! disposed of instead; nothing is permitted on it afterwards.
use crate::handle::Class;
use vstd::prelude::*;

verus! {

/// Where a class pair stands in its lifecycle.
#[derive(Clone, Copy, Debug, PartialEq, Eq, Hash, Structural)]
pub enum PairState {
    /// Allocated and still open to changes.
    Unregistered,
    /// Published in the runtime's class table; its layout is fixed.
    Registered,
    /// Freed before registration.
    Disposed,
}

/// An operation on a class pair.
#[derive(Clone, Copy, Debug, PartialEq, Eq, Hash, Structural)]
pub enum PairOp {
    /// Add an instance variable, which changes the instance layout.
    AddIvar,
    /// Add a method.
    AddMethod,
    /// Add a property.
    AddProperty,
    /// Declare conformance to a protocol.
    AddProtocol,
    /// Publish the class in the runtime's class table.
    Register,
    /// Free the pair without registering it.
    Dispose,
}

/// Whether `op` may be performed on a pair in state `state`: every
/// operation needs the pair unregistered.
pub open spec fn permits(state: PairState, op: PairOp) -> bool {
    state is Unregistered
}

/// The state of a pair in state `state` once `op` has been performed on it.
pub open spec fn state_after(state: PairState, op: PairOp) -> PairState {
    match op {
        PairOp::Register => PairState::Registered,
        PairOp::Dispose => PairState::Disposed,
        _ => state,
    }
}

/// A class pair that the runtime allocated, with the state it stands in.
#[derive(Debug)]
pub struct ClassPair {
    class: Class,
    state: PairState,
}

impl ClassPair {
    pub closed spec fn spec_class(&self) -> Class {
        self.class
    }

    pub closed spec fn spec_state(&self) -> PairState {
        self.state
    }

    /// A pair refers to a class, never to the nil class.
    #[verifier::type_invariant]
    spec fn well_formed(self) -> bool {
        !self.class.is_nil()
    }

    /// The pair that the runtime's allocation answered with `class`, which
    /// is nil where the name was taken or the allocation failed.
    pub fn allocated(class: Class) -> (r: Option<ClassPair>)
        ensures
            r is None <==> class.is_nil(),
            r matches Some(p) ==> p.spec_class() == class && p.spec_state()
                == PairState::Unregistered,
    {
        if class.is_nil() {
            None
        } else {
            Some(ClassPair { class, state: PairState::Unregistered })
        }
    }

    /// The class being defined, which is never the nil class.
    #[verifier::when_used_as_spec(spec_class)]
    pub fn class(&self) -> (r: Class)
        ensures
            r == self.spec_class(),
            !r.is_nil(),
    {
        proof {
            use_type_invariant(self);
        }
        self.class
    }

    /// Where the pair stands.
    #[verifier::when_used_as_spec(spec_state)]
    pub fn state(&self) -> (r: PairState)
        ensures
            r == self.spec_state(),
    {
        self.state
    }

    /// Asks to perform `op` on the pair. Where it is permitted the pair
    /// moves to the state that follows `op`, and the caller performs it;
    /// otherwise the pair is left as it was and the caller must not.
    pub fn begin(&mut self, op: PairOp) -> (permitted: bool)
        ensures
            permitted == permits(old(self).spec_state(), op),
            final(self).spec_class() == old(self).spec_class(),
            final(self).spec_state() == (if permitted {
                state_after(old(self).spec_state(), op)
            } else {
                old(self).spec_state()
            }),
    {
        proof {
            use_type_invariant(&*self);
        }
        match self.state {
            PairState::Unregistered => {
                match op {
                    PairOp::Register => {
                        self.state = PairState::Registered;
                    },
                    PairOp::Dispose => {
                        self.state = PairState::Disposed;
                    },
                    _ => {},
                }
                true
            },
            _ => false,
        }
    }
}

/// Once a pair is registered or disposed of, no operation is permitted on
/// it again, whatever is asked.
pub proof fn lemma_closed_pair_stays_closed(state: PairState, op: PairOp)
    requires
        !(state is Unregistered),
    ensures
        !permits(state, op),
        !permits(state_after(state, op), op),
{
}

} // verus!
