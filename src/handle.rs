//! Value handles onto entities owned by the Objective-C runtime.
//!
//! Each handle holds the address the runtime gave the entity, as a plain
//! integer. Two handles are equal exactly when they hold the same address:
//! equality is identity, never a comparison of what the entities describe.
//! The runtime's null pointer is the address zero; a handle holding it is
//! the nil sentinel of its kind.
use vstd::prelude::*;

verus! {

/// The address that a nil handle holds.
pub const NIL_ADDRESS: usize = 0;

/// A class definition of the runtime.
#[derive(Clone, Copy, Debug, PartialEq, Eq, Hash, Structural)]
pub struct Class {
    pub raw: usize,
}

/// A pointer to an instance of a class.
#[derive(Clone, Copy, Debug, PartialEq, Eq, Hash, Structural)]
pub struct Id {
    pub raw: usize,
}

/// A method selector: an interned method name.
#[derive(Clone, Copy, Debug, PartialEq, Eq, Hash, Structural)]
pub struct Selector {
    pub raw: usize,
}

/// A resolved method definition.
#[derive(Clone, Copy, Debug, PartialEq, Eq, Hash, Structural)]
pub struct Method {
    pub raw: usize,
}

/// An instance variable: a named, typed slot of an instance's layout.
#[derive(Clone, Copy, Debug, PartialEq, Eq, Hash, Structural)]
pub struct InstanceVariable {
    pub raw: usize,
}

/// The target of a message sent to a superclass: the receiving instance and
/// the class whose implementation the runtime starts looking from.
#[derive(Clone, Copy, Debug, PartialEq, Eq, Hash, Structural)]
pub struct Super {
    receiver: Id,
    class: Class,
}

/// The root class `NSObject`, whose class and instance methods the runtime
/// reaches through message sends.
#[derive(Clone, Copy, Debug, PartialEq, Eq, Hash, Structural)]
pub struct NSObject;

impl Class {
    pub open spec fn spec_is_nil(self) -> bool {
        self.raw == NIL_ADDRESS
    }

    /// The nil class.
    pub fn nil() -> (r: Class)
        ensures
            r.raw == NIL_ADDRESS,
    {
        Class { raw: NIL_ADDRESS }
    }

    /// Whether this is the nil class.
    #[verifier::when_used_as_spec(spec_is_nil)]
    pub fn is_nil(self) -> (r: bool)
        ensures
            r == self.spec_is_nil(),
    {
        self.raw == NIL_ADDRESS
    }

    /// The class seen as an object, to receive class messages.
    pub fn as_id(self) -> (r: Id)
        ensures
            r.raw == self.raw,
    {
        Id { raw: self.raw }
    }

    /// How the class reads in text: its name, given as `name`, or `nil`
    /// for the nil class, whose name is not consulted.
    pub fn description(self, name: &str) -> (r: String)
        ensures
            r@ == (if self.is_nil() { "nil"@ } else { name@ }),
    {
        if self.is_nil() {
            String::from_str("nil")
        } else {
            String::from_str(name)
        }
    }

    /// The class, or `None` where the runtime answered with the nil class.
    pub fn present(self) -> (r: Option<Class>)
        ensures
            r == (if self.is_nil() { None } else { Some(self) }),
    {
        if self.is_nil() {
            None
        } else {
            Some(self)
        }
    }
}

impl Id {
    pub open spec fn spec_is_nil(self) -> bool {
        self.raw == NIL_ADDRESS
    }

    /// A null instance.
    pub fn nil() -> (r: Id)
        ensures
            r.raw == NIL_ADDRESS,
    {
        Id { raw: NIL_ADDRESS }
    }

    /// Whether this is the null instance.
    #[verifier::when_used_as_spec(spec_is_nil)]
    pub fn is_nil(self) -> (r: bool)
        ensures
            r == self.spec_is_nil(),
    {
        self.raw == NIL_ADDRESS
    }

    /// How the instance reads in text: `instance of` and the name of its
    /// class, given as `class_name`, or `nil` for the null instance.
    pub fn description(self, class_name: &str) -> (r: String)
        ensures
            r@ == (if self.is_nil() { "nil"@ } else { "instance of "@ + class_name@ }),
    {
        if self.is_nil() {
            String::from_str("nil")
        } else {
            String::from_str("instance of ").concat(class_name)
        }
    }

    /// The instance, or `None` where the runtime answered with nil.
    pub fn present(self) -> (r: Option<Id>)
        ensures
            r == (if self.is_nil() { None } else { Some(self) }),
    {
        if self.is_nil() {
            None
        } else {
            Some(self)
        }
    }
}

impl Selector {
    pub open spec fn spec_is_null(self) -> bool {
        self.raw == NIL_ADDRESS
    }

    /// Whether this is the null selector.
    #[verifier::when_used_as_spec(spec_is_null)]
    pub fn is_null(self) -> (r: bool)
        ensures
            r == self.spec_is_null(),
    {
        self.raw == NIL_ADDRESS
    }

    /// How the selector reads in text: its name, given as `name`, or `null`
    /// for the null selector.
    pub fn description(self, name: &str) -> (r: String)
        ensures
            r@ == (if self.is_null() { "null"@ } else { name@ }),
    {
        if self.is_null() {
            String::from_str("null")
        } else {
            String::from_str(name)
        }
    }
}

impl Method {
    /// The method, or `None` where the lookup found none.
    pub fn present(self) -> (r: Option<Method>)
        ensures
            r == (if self.raw == NIL_ADDRESS { None } else { Some(self) }),
    {
        if self.raw == NIL_ADDRESS {
            None
        } else {
            Some(self)
        }
    }
}

impl InstanceVariable {
    /// The instance variable, or `None` where the lookup found none.
    pub fn present(self) -> (r: Option<InstanceVariable>)
        ensures
            r == (if self.raw == NIL_ADDRESS { None } else { Some(self) }),
    {
        if self.raw == NIL_ADDRESS {
            None
        } else {
            Some(self)
        }
    }
}

impl Super {
    pub closed spec fn spec_receiver(self) -> Id {
        self.receiver
    }

    pub closed spec fn spec_class(self) -> Class {
        self.class
    }

    /// The target for sending `receiver` a message that `class` implements.
    pub fn new(receiver: Id, class: Class) -> (r: Super)
        ensures
            r.spec_receiver() == receiver,
            r.spec_class() == class,
    {
        Super { receiver, class }
    }

    /// The instance of a class.
    #[verifier::when_used_as_spec(spec_receiver)]
    pub fn receiver(self) -> (r: Id)
        ensures
            r == self.spec_receiver(),
    {
        self.receiver
    }

    /// The superclass to message.
    #[verifier::when_used_as_spec(spec_class)]
    pub fn class(self) -> (r: Class)
        ensures
            r == self.spec_class(),
    {
        self.class
    }
}

} // verus!
