//! The choice of message-send entry point.
//!
//! The runtime offers several entry points for sending a message, and which
//! one a call site must use depends on how the processor's calling
//! convention hands back a value of the message's result type: in the
//! general-purpose return register, in a floating-point register, or through
//! storage that the caller provides. Using the wrong one corrupts the stack
//! or reads the wrong register, so the choice is made here, once per result
//! type and architecture, from the rules of each architecture's ABI.
use vstd::prelude::*;

verus! {

/// The C type of a message's result, as far as the calling convention cares.
#[derive(Clone, Copy, Debug, PartialEq, Eq, Hash, Structural)]
pub enum ReturnType {
    /// No result.
    Void,
    /// An instance handle (`Id`).
    Instance,
    /// Any other pointer-sized handle or pointer (a class, a selector, a C string).
    Pointer,
    /// An integer of at most eight bytes, the runtime's `BOOL` among them.
    Integer,
    /// A C `float`.
    Float,
    /// A C `double`.
    Double,
    /// A structure or union of `size` bytes.
    Aggregate { size: usize },
}

/// A processor architecture that the runtime runs on.
#[derive(Clone, Copy, Debug, PartialEq, Eq, Hash, Structural)]
pub enum Arch {
    /// 32-bit Intel.
    X86,
    /// 64-bit Intel.
    X86_64,
    /// 64-bit ARM.
    Arm64,
}

/// A native entry point for sending messages.
#[derive(Clone, Copy, Debug, PartialEq, Eq, Hash, Structural)]
pub enum EntryPoint {
    /// `objc_msgSend`: the result comes back in registers.
    MsgSend,
    /// `objc_msgSend_fpret`: the result comes back on the floating-point stack.
    MsgSendFpret,
    /// `objc_msgSend_stret`: the caller passes a hidden pointer to storage for the result.
    MsgSendStret,
    /// `objc_msgSendSuper`: as `MsgSend`, starting the lookup at a superclass.
    MsgSendSuper,
    /// `objc_msgSendSuper_stret`: as `MsgSendStret`, starting the lookup at a superclass.
    MsgSendSuperStret,
}

impl ReturnType {
    /// Whether the result is a floating-point value.
    pub open spec fn is_floating(self) -> bool {
        self is Float || self is Double
    }
}

impl Arch {
    /// Whether the calling convention returns floating-point values in a
    /// register class of their own, reached only through the `fpret` entry
    /// point: on 32-bit Intel they come back on the x87 stack.
    pub open spec fn splits_float_returns(self) -> bool {
        self is X86
    }

    /// Whether a structure of `size` bytes comes back in registers.
    /// 32-bit Intel returns structures of 1, 2, 4 or 8 bytes in registers;
    /// 64-bit Intel those of at most 16 bytes; 64-bit ARM has no
    /// structure-return entry point and `objc_msgSend` serves every size.
    pub open spec fn returns_aggregate_in_registers(self, size: usize) -> bool {
        match self {
            Arch::X86 => size == 1 || size == 2 || size == 4 || size == 8,
            Arch::X86_64 => size <= 16,
            Arch::Arm64 => true,
        }
    }

    /// Whether a result of type `ret` comes back through caller storage.
    pub open spec fn returns_indirectly(self, ret: ReturnType) -> bool {
        match ret {
            ReturnType::Aggregate { size } => !self.returns_aggregate_in_registers(size),
            _ => false,
        }
    }
}

/// The entry point for messages whose result has type `ret` on `arch`.
pub open spec fn entry_point_for(ret: ReturnType, arch: Arch) -> EntryPoint {
    if arch.splits_float_returns() && ret.is_floating() {
        EntryPoint::MsgSendFpret
    } else if arch.returns_indirectly(ret) {
        EntryPoint::MsgSendStret
    } else {
        EntryPoint::MsgSend
    }
}

/// The entry point for messages to a superclass whose result has type `ret`
/// on `arch`. There is no floating-point variant of it.
pub open spec fn super_entry_point_for(ret: ReturnType, arch: Arch) -> EntryPoint {
    if arch.returns_indirectly(ret) {
        EntryPoint::MsgSendSuperStret
    } else {
        EntryPoint::MsgSendSuper
    }
}

/// Whether a structure of `size` bytes comes back in registers on `arch`.
fn aggregate_in_registers(arch: Arch, size: usize) -> (r: bool)
    ensures
        r == arch.returns_aggregate_in_registers(size),
{
    match arch {
        Arch::X86 => size == 1 || size == 2 || size == 4 || size == 8,
        Arch::X86_64 => size <= 16,
        Arch::Arm64 => true,
    }
}

/// Whether a result of type `ret` comes back through caller storage on `arch`.
fn returned_indirectly(ret: ReturnType, arch: Arch) -> (r: bool)
    ensures
        r == arch.returns_indirectly(ret),
{
    match ret {
        ReturnType::Aggregate { size } => !aggregate_in_registers(arch, size),
        _ => false,
    }
}

/// Returns the entry point that sends a message to an instance of a class,
/// for a message whose result has type `ret`, on `arch`.
///
/// A call through the entry point is sound only where `ret` describes the
/// result type that the invoked method really has.
pub fn msg_send(ret: ReturnType, arch: Arch) -> (r: EntryPoint)
    ensures
        r == entry_point_for(ret, arch),
        arch.splits_float_returns() && ret.is_floating() ==> r == EntryPoint::MsgSendFpret,
        !ret.is_floating() && arch.returns_indirectly(ret) ==> r == EntryPoint::MsgSendStret,
        !(arch.splits_float_returns() && ret.is_floating()) && !arch.returns_indirectly(ret)
            ==> r == EntryPoint::MsgSend,
{
    let floating = match ret {
        ReturnType::Float | ReturnType::Double => true,
        _ => false,
    };
    if floating && arch == Arch::X86 {
        EntryPoint::MsgSendFpret
    } else if returned_indirectly(ret, arch) {
        EntryPoint::MsgSendStret
    } else {
        EntryPoint::MsgSend
    }
}

/// Returns the entry point that sends a message to a superclass of an
/// instance, for a message whose result has type `ret`, on `arch`.
pub fn msg_send_super(ret: ReturnType, arch: Arch) -> (r: EntryPoint)
    ensures
        r == super_entry_point_for(ret, arch),
        arch.returns_indirectly(ret) ==> r == EntryPoint::MsgSendSuperStret,
        !arch.returns_indirectly(ret) ==> r == EntryPoint::MsgSendSuper,
{
    if returned_indirectly(ret, arch) {
        EntryPoint::MsgSendSuperStret
    } else {
        EntryPoint::MsgSendSuper
    }
}

/// Where floating-point results have an entry point of their own, a
/// floating-point result type and any other result type are sent through
/// different entry points.
pub proof fn lemma_float_entry_point_distinct(r1: ReturnType, r2: ReturnType, arch: Arch)
    requires
        arch.splits_float_returns(),
        r1.is_floating() != r2.is_floating(),
    ensures
        entry_point_for(r1, arch) != entry_point_for(r2, arch),
{
}

/// An instance result is sent through the standard entry point, and its
/// superclass counterpart, on every architecture.
pub proof fn lemma_instance_standard_entry_point(arch: Arch)
    ensures
        entry_point_for(ReturnType::Instance, arch) == EntryPoint::MsgSend,
        super_entry_point_for(ReturnType::Instance, arch) == EntryPoint::MsgSendSuper,
{
}

} // verus!
