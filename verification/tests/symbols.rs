use hardware_buffer::symbol::{
    library_name, version_key, Operation, Symbol, SymbolTable, ENTRY_COUNT, PROPERTY_VALUE_MAX,
};

fn all_operations() -> Vec<Operation> {
    vec![
        Operation::Acquire,
        Operation::Allocate,
        Operation::Describe,
        Operation::GetId,
        Operation::IsSupported,
        Operation::Recv,
        Operation::Lock,
        Operation::LockAndGetInfo,
        Operation::LockPlanes,
        Operation::Release,
        Operation::Send,
        Operation::Unlock,
    ]
}

#[test]
fn fixed_names_of_the_platform() {
    assert_eq!(library_name(), "libandroid.so");
    assert_eq!(version_key(), "ro.build.version.sdk");
    assert_eq!(Symbol::PropertyGet.name(), "__system_property_get");
    assert_eq!(PROPERTY_VALUE_MAX, 92);
    assert_eq!(ENTRY_COUNT, 12);
}

#[test]
fn names_of_the_entry_points() {
    assert_eq!(Operation::Acquire.symbol_name(), "AHardwareBuffer_acquire");
    assert_eq!(Operation::Allocate.symbol_name(), "AHardwareBuffer_allocate");
    assert_eq!(Operation::Describe.symbol_name(), "AHardwareBuffer_describe");
    assert_eq!(Operation::GetId.symbol_name(), "AHardwareBuffer_getId");
    assert_eq!(Operation::IsSupported.symbol_name(), "AHardwareBuffer_isSupported");
    assert_eq!(Operation::Recv.symbol_name(), "AHardwareBuffer_recvHandleFromUnixSocket");
    assert_eq!(Operation::Lock.symbol_name(), "AHardwareBuffer_lock");
    assert_eq!(Operation::LockAndGetInfo.symbol_name(), "AHardwareBuffer_lockAndGetInfo");
    assert_eq!(Operation::LockPlanes.symbol_name(), "AHardwareBuffer_lockPlanes");
    assert_eq!(Operation::Release.symbol_name(), "AHardwareBuffer_release");
    assert_eq!(Operation::Send.symbol_name(), "AHardwareBuffer_sendHandleToUnixSocket");
    assert_eq!(Operation::Unlock.symbol_name(), "AHardwareBuffer_unlock");
    for op in all_operations() {
        assert_eq!(Symbol::Entry(op).name(), op.symbol_name());
    }
}

#[test]
fn minimum_levels_of_the_entry_points() {
    assert_eq!(Operation::Acquire.required_level(), 26);
    assert_eq!(Operation::Release.required_level(), 26);
    assert_eq!(Operation::Allocate.required_level(), 26);
    assert_eq!(Operation::Describe.required_level(), 26);
    assert_eq!(Operation::Recv.required_level(), 26);
    assert_eq!(Operation::Send.required_level(), 26);
    assert_eq!(Operation::Lock.required_level(), 26);
    assert_eq!(Operation::Unlock.required_level(), 26);
    assert_eq!(Operation::IsSupported.required_level(), 29);
    assert_eq!(Operation::LockAndGetInfo.required_level(), 29);
    assert_eq!(Operation::LockPlanes.required_level(), 29);
    assert_eq!(Operation::GetId.required_level(), 31);
}

#[test]
fn entry_points_are_numbered_in_lookup_order() {
    let ops = all_operations();
    assert_eq!(ops.len(), ENTRY_COUNT);
    for (i, op) in ops.iter().enumerate() {
        assert_eq!(op.index(), i);
        assert_eq!(Operation::at(i), Some(*op));
    }
    assert_eq!(Operation::at(12), None);
    assert_eq!(Operation::at(13), None);
    assert_eq!(Operation::at(usize::MAX), None);
}

#[test]
fn empty_table_has_no_entry_point() {
    let table = SymbolTable::empty();
    for op in all_operations() {
        assert_eq!(table.get(op), 0);
    }
}

#[test]
fn table_update_changes_one_slot() {
    for op in all_operations() {
        let table = SymbolTable::empty().with(op, 0x7000 + op.index());
        for other in all_operations() {
            if other == op {
                assert_eq!(table.get(other), 0x7000 + op.index());
            } else {
                assert_eq!(table.get(other), 0);
            }
        }
    }
    let mut table = SymbolTable::empty();
    for op in all_operations() {
        table = table.with(op, 0x100 * (op.index() + 1));
    }
    assert_eq!(table.acquire, 0x100);
    assert_eq!(table.allocate, 0x200);
    assert_eq!(table.describe, 0x300);
    assert_eq!(table.get_id, 0x400);
    assert_eq!(table.is_supported, 0x500);
    assert_eq!(table.recv, 0x600);
    assert_eq!(table.lock, 0x700);
    assert_eq!(table.lock_and_get_info, 0x800);
    assert_eq!(table.lock_planes, 0x900);
    assert_eq!(table.release, 0xa00);
    assert_eq!(table.send, 0xb00);
    assert_eq!(table.unlock, 0xc00);
    let table = table.with(Operation::Lock, 0);
    assert_eq!(table.get(Operation::Lock), 0);
    assert_eq!(table.get(Operation::LockPlanes), 0x900);
}
