use objc::{msg_send, msg_send_super, Arch, EntryPoint, ReturnType};

const ARCHES: [Arch; 3] = [Arch::X86, Arch::X86_64, Arch::Arm64];

#[test]
fn float_and_integer_results_use_different_entry_points_on_x86() {
    let non_floats = [
        ReturnType::Void,
        ReturnType::Instance,
        ReturnType::Pointer,
        ReturnType::Integer,
        ReturnType::Aggregate { size: 8 },
        ReturnType::Aggregate { size: 12 },
    ];
    for float in [ReturnType::Float, ReturnType::Double] {
        assert_eq!(msg_send(float, Arch::X86), EntryPoint::MsgSendFpret);
        for other in non_floats {
            assert_ne!(msg_send(float, Arch::X86), msg_send(other, Arch::X86));
        }
    }
}

#[test]
fn instance_result_uses_standard_entry_point_everywhere() {
    for arch in ARCHES {
        assert_eq!(msg_send(ReturnType::Instance, arch), EntryPoint::MsgSend);
        assert_eq!(msg_send_super(ReturnType::Instance, arch), EntryPoint::MsgSendSuper);
    }
}

#[test]
fn register_sized_results_use_standard_entry_point() {
    for arch in ARCHES {
        assert_eq!(msg_send(ReturnType::Void, arch), EntryPoint::MsgSend);
        assert_eq!(msg_send(ReturnType::Pointer, arch), EntryPoint::MsgSend);
        assert_eq!(msg_send(ReturnType::Integer, arch), EntryPoint::MsgSend);
    }
}

#[test]
fn floats_use_standard_entry_point_without_split() {
    assert_eq!(msg_send(ReturnType::Float, Arch::X86_64), EntryPoint::MsgSend);
    assert_eq!(msg_send(ReturnType::Double, Arch::Arm64), EntryPoint::MsgSend);
}

#[test]
fn aggregates_on_x86() {
    for size in [1usize, 2, 4, 8] {
        assert_eq!(msg_send(ReturnType::Aggregate { size }, Arch::X86), EntryPoint::MsgSend);
    }
    for size in [3usize, 12, 16, 32] {
        assert_eq!(msg_send(ReturnType::Aggregate { size }, Arch::X86), EntryPoint::MsgSendStret);
    }
}

#[test]
fn aggregates_on_x86_64() {
    assert_eq!(msg_send(ReturnType::Aggregate { size: 16 }, Arch::X86_64), EntryPoint::MsgSend);
    assert_eq!(msg_send(ReturnType::Aggregate { size: 17 }, Arch::X86_64), EntryPoint::MsgSendStret);
    assert_eq!(msg_send(ReturnType::Aggregate { size: 32 }, Arch::X86_64), EntryPoint::MsgSendStret);
}

#[test]
fn aggregates_on_arm64_never_use_stret() {
    for size in [1usize, 16, 17, 4096, usize::MAX] {
        assert_eq!(msg_send(ReturnType::Aggregate { size }, Arch::Arm64), EntryPoint::MsgSend);
        assert_eq!(msg_send_super(ReturnType::Aggregate { size }, Arch::Arm64), EntryPoint::MsgSendSuper);
    }
}

#[test]
fn super_dispatch_has_no_float_variant() {
    assert_eq!(msg_send_super(ReturnType::Double, Arch::X86), EntryPoint::MsgSendSuper);
    assert_eq!(msg_send_super(ReturnType::Float, Arch::X86), EntryPoint::MsgSendSuper);
}

#[test]
fn super_dispatch_of_large_aggregates() {
    assert_eq!(msg_send_super(ReturnType::Aggregate { size: 12 }, Arch::X86), EntryPoint::MsgSendSuperStret);
    assert_eq!(msg_send_super(ReturnType::Aggregate { size: 24 }, Arch::X86_64), EntryPoint::MsgSendSuperStret);
    assert_eq!(msg_send_super(ReturnType::Aggregate { size: 8 }, Arch::X86_64), EntryPoint::MsgSendSuper);
}
