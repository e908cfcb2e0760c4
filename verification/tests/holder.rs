use hardware_buffer::native::{
    fence_argument, rect_argument, AddressReply, BufferCall, DescCall, HandleReply, IdReply,
    InfoReply, LockCall, PlanesReply, RecvCall, SendCall, UnlockCall, NO_FENCE,
};
use hardware_buffer::{BufferDesc, HBHolder, HBRef, LockInfo, Operation, Rect, SymbolTable};

const ACQUIRE: usize = 0x1000;
const ALLOCATE: usize = 0x1010;
const DESCRIBE: usize = 0x1020;
const GET_ID: usize = 0x1030;
const IS_SUPPORTED: usize = 0x1040;
const RECV: usize = 0x1050;
const LOCK: usize = 0x1060;
const LOCK_INFO: usize = 0x1070;
const LOCK_PLANES: usize = 0x1080;
const RELEASE: usize = 0x1090;
const SEND: usize = 0x10a0;
const UNLOCK: usize = 0x10b0;

fn full_table() -> SymbolTable {
    SymbolTable {
        acquire: ACQUIRE,
        allocate: ALLOCATE,
        describe: DESCRIBE,
        get_id: GET_ID,
        is_supported: IS_SUPPORTED,
        recv: RECV,
        lock: LOCK,
        lock_and_get_info: LOCK_INFO,
        lock_planes: LOCK_PLANES,
        release: RELEASE,
        send: SEND,
        unlock: UNLOCK,
    }
}

fn holder_at(level: i32) -> HBHolder {
    HBHolder::new(level, full_table())
}

fn desc() -> BufferDesc {
    BufferDesc {
        width: 640,
        height: 480,
        layers: 1,
        format: 1,
        usage: 0x33,
        stride: 7,
        rfu0: 0,
        rfu1: 0,
    }
}

/// A handle on the buffer at `address`, as an allocation at level 26 gives it.
fn handle_at(address: usize) -> HBRef {
    holder_at(26).allocate_result(Some(HandleReply { status: 0, buffer: address })).unwrap()
}

fn all_operations() -> Vec<Operation> {
    (0..12).map(|i| Operation::at(i).unwrap()).collect()
}

#[test]
fn level_25_allocate_is_absent_and_invokes_nothing() {
    // the allocate slot is poisoned: nothing may be made of it
    let poisoned = full_table().with(Operation::Allocate, usize::MAX);
    let holder = HBHolder::new(25, poisoned);
    assert_eq!(holder.allocate(desc()), None);
    assert_eq!(holder.entry_point(Operation::Allocate), None);
    assert!(holder.allocate_result(None).is_none());
    // and a reply that should never have come is not taken for a buffer
    assert!(holder.allocate_result(Some(HandleReply { status: 0, buffer: 0x5000 })).is_none());
}

#[test]
fn level_26_allocate_wraps_the_pointer_and_release_frees_it_once() {
    let holder = holder_at(26);
    let call = holder.allocate(desc());
    assert_eq!(call, Some(DescCall { function: ALLOCATE, desc: desc() }));
    let handle = holder.allocate_result(Some(HandleReply { status: 0, buffer: 0x5000 })).unwrap();
    assert_eq!(handle.get(), 0x5000);
    let released: Vec<BufferCall> = vec![handle.release(&holder)];
    assert_eq!(released, vec![BufferCall { function: RELEASE, buffer: 0x5000 }]);
}

#[test]
fn level_31_get_id_gives_the_id_on_status_zero() {
    let holder = holder_at(31);
    let handle = handle_at(0x5000);
    assert_eq!(holder.get_id(&handle), Some(BufferCall { function: GET_ID, buffer: 0x5000 }));
    assert_eq!(holder.get_id_result(Some(IdReply { status: 0, id: 0xABCD })), Some(0xABCD));
    assert_eq!(holder.get_id_result(Some(IdReply { status: 1, id: 0xABCD })), None);
    assert_eq!(holder.get_id_result(Some(IdReply { status: -22, id: 0xABCD })), None);
    assert_eq!(holder.get_id_result(None), None);
}

#[test]
fn get_id_is_gated_at_31() {
    let handle = handle_at(0x5000);
    for level in [-1, 0, 26, 29, 30] {
        let holder = holder_at(level);
        assert_eq!(holder.get_id(&handle), None);
        assert_eq!(holder.get_id_result(Some(IdReply { status: 0, id: 9 })), None);
    }
    for level in [31, 32, 40, i32::MAX] {
        let holder = holder_at(level);
        assert!(holder.get_id(&handle).is_some());
        assert_eq!(holder.get_id_result(Some(IdReply { status: 0, id: 9 })), Some(9));
    }
}

#[test]
fn operations_below_their_minimum_give_their_absent_value() {
    let handle = handle_at(0x5000);
    let rect = Rect { left: 0, top: 0, right: 4, bottom: 4 };
    for level in [i32::MIN, -1, 0, 1, 24, 25] {
        let holder = holder_at(level);
        for op in all_operations() {
            assert!(!holder.is_available(op));
            assert_eq!(holder.entry_point(op), None);
        }
        assert_eq!(holder.acquire(0x5000), None);
        assert_eq!(holder.release(0x5000), None);
        assert_eq!(holder.allocate(desc()), None);
        assert_eq!(holder.describe(&handle), None);
        assert_eq!(holder.get_id(&handle), None);
        assert_eq!(holder.is_supported(&desc()), None);
        assert_eq!(holder.recv(3), None);
        assert_eq!(holder.send(3, &handle), None);
        assert_eq!(holder.lock(&handle, 3, Some(4), Some(&rect)), None);
        assert_eq!(holder.lock_info(&handle, 3, None, None), None);
        assert_eq!(holder.lock_planes(&handle, 3, None, None), None);
        assert_eq!(holder.unlock(&handle), None);

        assert!(holder.allocate_result(Some(HandleReply { status: 0, buffer: 1 })).is_none());
        assert_eq!(holder.describe_result(Some(desc())), None);
        assert_eq!(holder.get_id_result(Some(IdReply { status: 0, id: 1 })), None);
        assert!(!holder.is_supported_result(Some(1)));
        assert!(holder.recv_result(Some(HandleReply { status: 0, buffer: 1 })).is_none());
        assert!(!holder.send_result(Some(0)));
        assert_eq!(holder.lock_result(Some(AddressReply { status: 0, address: 0x9000 })), 0);
        assert_eq!(
            holder.lock_info_result(Some(InfoReply {
                status: 0,
                address: 0x9000,
                bytes_per_pixel: 4,
                bytes_per_stride: 64
            })),
            None
        );
        assert_eq!(holder.lock_planes_result(Some(PlanesReply { status: 0, planes: 5u8 })), None);
        assert!(!holder.unlock_result(Some(0)));
    }
}

#[test]
fn level_26_to_28_supports_the_first_set_only() {
    let handle = handle_at(0x5000);
    for level in [26, 27, 28] {
        let holder = holder_at(level);
        assert!(holder.acquire(1).is_some());
        assert!(holder.release(1).is_some());
        assert!(holder.allocate(desc()).is_some());
        assert!(holder.describe(&handle).is_some());
        assert!(holder.recv(1).is_some());
        assert!(holder.send(1, &handle).is_some());
        assert!(holder.lock(&handle, 0, None, None).is_some());
        assert!(holder.unlock(&handle).is_some());
        assert_eq!(holder.is_supported(&desc()), None);
        assert_eq!(holder.lock_info(&handle, 0, None, None), None);
        assert_eq!(holder.lock_planes(&handle, 0, None, None), None);
        assert_eq!(holder.get_id(&handle), None);
        assert!(!holder.is_supported_result(Some(1)));
        assert_eq!(
            holder.lock_info_result(Some(InfoReply {
                status: 0,
                address: 1,
                bytes_per_pixel: 1,
                bytes_per_stride: 1
            })),
            None
        );
        assert_eq!(holder.lock_planes_result(Some(PlanesReply { status: 0, planes: 1u8 })), None);
    }
    let holder = holder_at(29);
    assert!(holder.is_supported(&desc()).is_some());
    assert!(holder.lock_info(&handle, 0, None, None).is_some());
    assert!(holder.lock_planes(&handle, 0, None, None).is_some());
    assert_eq!(holder.get_id(&handle), None);
}

#[test]
fn supported_operations_invoke_their_own_entry_point() {
    let holder = holder_at(31);
    let handle = handle_at(0x5000);
    assert_eq!(holder.acquire(0x5000), Some(BufferCall { function: ACQUIRE, buffer: 0x5000 }));
    assert_eq!(holder.release(0x5000), Some(BufferCall { function: RELEASE, buffer: 0x5000 }));
    assert_eq!(holder.allocate(desc()), Some(DescCall { function: ALLOCATE, desc: desc() }));
    assert_eq!(holder.describe(&handle), Some(BufferCall { function: DESCRIBE, buffer: 0x5000 }));
    assert_eq!(holder.get_id(&handle), Some(BufferCall { function: GET_ID, buffer: 0x5000 }));
    assert_eq!(
        holder.is_supported(&desc()),
        Some(DescCall { function: IS_SUPPORTED, desc: desc() })
    );
    assert_eq!(holder.recv(11), Some(RecvCall { function: RECV, socket: 11 }));
    assert_eq!(
        holder.send(11, &handle),
        Some(SendCall { function: SEND, buffer: 0x5000, socket: 11 })
    );
    assert_eq!(
        holder.unlock(&handle),
        Some(UnlockCall { function: UNLOCK, buffer: 0x5000, fence_out: 0 })
    );
    assert_eq!(
        holder.lock_info(&handle, 2, None, None),
        Some(LockCall { function: LOCK_INFO, buffer: 0x5000, usage: 2, fence: -1, rect: None })
    );
    assert_eq!(
        holder.lock_planes(&handle, 2, Some(6), None),
        Some(LockCall { function: LOCK_PLANES, buffer: 0x5000, usage: 2, fence: 6, rect: None })
    );
}

#[test]
fn an_entry_point_that_was_not_found_is_never_invoked() {
    for op in all_operations() {
        let holder = HBHolder::new(34, full_table().with(op, 0));
        assert!(!holder.is_available(op));
        assert_eq!(holder.entry_point(op), None);
        for other in all_operations() {
            if other != op {
                assert!(holder.is_available(other));
            }
        }
    }
    let holder = HBHolder::new(34, full_table().with(Operation::Allocate, 0));
    assert_eq!(holder.allocate(desc()), None);
    assert!(holder.allocate_result(Some(HandleReply { status: 0, buffer: 1 })).is_none());
    let holder = HBHolder::new(34, full_table().with(Operation::IsSupported, 0));
    assert_eq!(holder.is_supported(&desc()), None);
    assert!(!holder.is_supported_result(Some(1)));
}

#[test]
fn allocate_collapses_failure_and_null_to_none() {
    let holder = holder_at(26);
    assert!(holder.allocate_result(Some(HandleReply { status: 1, buffer: 0x5000 })).is_none());
    assert!(holder.allocate_result(Some(HandleReply { status: -12, buffer: 0x5000 })).is_none());
    assert!(holder.allocate_result(Some(HandleReply { status: 0, buffer: 0 })).is_none());
    assert!(holder.allocate_result(Some(HandleReply { status: 5, buffer: 0 })).is_none());
    assert!(holder.allocate_result(None).is_none());
    let handle = holder.allocate_result(Some(HandleReply { status: 0, buffer: usize::MAX }));
    assert_eq!(handle.unwrap().get(), usize::MAX);
}

#[test]
fn allocate_forwards_the_descriptor_unchanged() {
    let holder = holder_at(30);
    let odd = BufferDesc {
        width: u32::MAX,
        height: 0,
        layers: 17,
        format: 0x23,
        usage: u64::MAX,
        stride: 12345,
        rfu0: 3,
        rfu1: 4,
    };
    assert_eq!(holder.allocate(odd).unwrap().desc, odd);
    assert_eq!(holder.is_supported(&odd).unwrap().desc, odd);
    assert_eq!(holder.is_supported(&odd).unwrap().desc.stride, 12345);
    assert_eq!(holder.allocate(odd).unwrap().desc.rfu0, 3);
    assert_eq!(holder.describe_result(Some(odd)), Some(odd));
}

#[test]
fn recv_gives_a_handle_on_success() {
    let holder = holder_at(26);
    assert_eq!(holder.recv(-1), Some(RecvCall { function: RECV, socket: -1 }));
    let handle = holder.recv_result(Some(HandleReply { status: 0, buffer: 0x6000 })).unwrap();
    assert_eq!(handle.get(), 0x6000);
    assert!(holder.recv_result(Some(HandleReply { status: 1, buffer: 0x6000 })).is_none());
    assert!(holder.recv_result(Some(HandleReply { status: 0, buffer: 0 })).is_none());
    assert!(holder.recv_result(None).is_none());
}

#[test]
fn describe_always_succeeds_once_invoked() {
    let holder = holder_at(26);
    assert_eq!(holder.describe_result(Some(desc())), Some(desc()));
    assert_eq!(holder.describe_result(None), None);
}

#[test]
fn is_supported_is_true_exactly_for_one() {
    let holder = holder_at(29);
    assert!(holder.is_supported_result(Some(1)));
    for returned in [0, -1, 2, 3, 255, 256, i32::MIN, i32::MAX] {
        assert!(!holder.is_supported_result(Some(returned)), "returned {}", returned);
    }
    assert!(!holder.is_supported_result(None));
    assert!(!holder_at(28).is_supported_result(Some(1)));
}

#[test]
fn send_and_unlock_report_status_zero() {
    let holder = holder_at(26);
    assert!(holder.send_result(Some(0)));
    assert!(holder.unlock_result(Some(0)));
    for status in [1, -1, 2, i32::MIN, i32::MAX] {
        assert!(!holder.send_result(Some(status)));
        assert!(!holder.unlock_result(Some(status)));
    }
    assert!(!holder.send_result(None));
    assert!(!holder.unlock_result(None));
}

#[test]
fn lock_without_fence_and_rect_passes_minus_one_and_null() {
    let holder = holder_at(26);
    let handle = handle_at(0x5000);
    let call = holder.lock(&handle, 0x30, None, None).unwrap();
    assert_eq!(call.fence, -1);
    assert_eq!(call.rect, None);
    assert_eq!(
        call,
        LockCall { function: LOCK, buffer: 0x5000, usage: 0x30, fence: -1, rect: None }
    );
    assert_eq!(NO_FENCE, -1);
    assert_eq!(fence_argument(None), -1);
    assert_eq!(rect_argument(None), None);
}

#[test]
fn lock_with_fence_and_rect_forwards_them_unchanged() {
    let holder = holder_at(26);
    let handle = handle_at(0x5000);
    let rect = Rect { left: -3, top: 2, right: 640, bottom: i32::MAX };
    let call = holder.lock(&handle, u64::MAX, Some(42), Some(&rect)).unwrap();
    assert_eq!(call.fence, 42);
    assert_eq!(call.rect, Some(rect));
    assert_eq!(call.usage, u64::MAX);
    assert_eq!(call.buffer, 0x5000);
    assert_eq!(call.function, LOCK);
    let call = holder.lock(&handle, 1, Some(0), None).unwrap();
    assert_eq!((call.fence, call.rect), (0, None));
    let call = holder.lock(&handle, 1, None, Some(&rect)).unwrap();
    assert_eq!((call.fence, call.rect), (-1, Some(rect)));
    assert_eq!(fence_argument(Some(42)), 42);
    assert_eq!(fence_argument(Some(i32::MIN)), i32::MIN);
    assert_eq!(rect_argument(Some(&rect)), Some(rect));
}

#[test]
fn lock_returns_null_on_failure() {
    let holder = holder_at(26);
    assert_eq!(holder.lock_result(Some(AddressReply { status: 0, address: 0x9000 })), 0x9000);
    assert_eq!(holder.lock_result(Some(AddressReply { status: 1, address: 0x9000 })), 0);
    assert_eq!(holder.lock_result(Some(AddressReply { status: -1, address: 0x9000 })), 0);
    assert_eq!(holder.lock_result(Some(AddressReply { status: 0, address: 0 })), 0);
    assert_eq!(holder.lock_result(None), 0);
}

#[test]
fn lock_info_gives_all_three_values_or_none() {
    let holder = holder_at(29);
    let reply = InfoReply { status: 0, address: 0x9000, bytes_per_pixel: 4, bytes_per_stride: 2560 };
    assert_eq!(
        holder.lock_info_result(Some(reply)),
        Some(LockInfo { address: 0x9000, bytes_per_pixel: 4, bytes_per_stride: 2560 })
    );
    let failed = InfoReply { status: 3, ..reply };
    assert_eq!(holder.lock_info_result(Some(failed)), None);
    assert_eq!(holder.lock_info_result(None), None);
    let null = InfoReply { status: 0, address: 0, bytes_per_pixel: -1, bytes_per_stride: 0 };
    assert_eq!(
        holder.lock_info_result(Some(null)),
        Some(LockInfo { address: 0, bytes_per_pixel: -1, bytes_per_stride: 0 })
    );
}

#[test]
fn lock_planes_hands_the_planes_on() {
    let holder = holder_at(29);
    let planes: Vec<(usize, u32, u32)> = vec![(0x9000, 1, 640), (0xa000, 2, 640)];
    assert_eq!(
        holder.lock_planes_result(Some(PlanesReply { status: 0, planes: planes.clone() })),
        Some(planes.clone())
    );
    assert_eq!(
        holder.lock_planes_result(Some(PlanesReply { status: 1, planes: planes.clone() })),
        None
    );
    assert_eq!(holder.lock_planes_result::<Vec<(usize, u32, u32)>>(None), None);
}

#[test]
fn get_does_not_touch_the_handle() {
    let handle = handle_at(0x5000);
    assert_eq!(handle.get(), 0x5000);
    assert_eq!(handle.get(), 0x5000);
    assert_ne!(handle.get(), 0);
}

#[test]
fn duplicate_acquires_once_and_aliases_the_buffer() {
    let holder = holder_at(26);
    let handle = handle_at(0x5000);
    let (copy, call) = handle.duplicate(&holder);
    assert_eq!(call, BufferCall { function: ACQUIRE, buffer: 0x5000 });
    assert_eq!(copy.get(), 0x5000);
    assert_eq!(handle.get(), 0x5000);
    assert_eq!(copy.release(&holder), BufferCall { function: RELEASE, buffer: 0x5000 });
    assert_eq!(handle.release(&holder), BufferCall { function: RELEASE, buffer: 0x5000 });
}

#[test]
fn duplicate_and_release_do_not_check_the_level() {
    let holder = holder_at(-1);
    let handle = handle_at(0x5000);
    let (copy, call) = handle.duplicate(&holder);
    assert_eq!(call, BufferCall { function: ACQUIRE, buffer: 0x5000 });
    assert_eq!(copy.release(&holder), BufferCall { function: RELEASE, buffer: 0x5000 });
    assert_eq!(handle.release(&holder), BufferCall { function: RELEASE, buffer: 0x5000 });
}

/// A stand-in for the platform's count of references on one buffer.
struct StubCount {
    references: i64,
    acquires: u32,
    releases: u32,
}

impl StubCount {
    fn perform(&mut self, call: BufferCall, buffer: usize) {
        assert_eq!(call.buffer, buffer);
        if call.function == ACQUIRE {
            self.references += 1;
            self.acquires += 1;
        } else if call.function == RELEASE {
            assert!(self.references > 0);
            self.references -= 1;
            self.releases += 1;
        } else {
            panic!("a call of another entry point: {:?}", call);
        }
    }
}

#[test]
fn clones_and_drops_leave_no_reference() {
    let holder = holder_at(26);
    for n in [0usize, 1, 2, 7, 50] {
        // the allocation created the first reference
        let mut count = StubCount { references: 1, acquires: 0, releases: 0 };
        let first =
            holder.allocate_result(Some(HandleReply { status: 0, buffer: 0x5000 })).unwrap();
        let mut copies: Vec<HBRef> = Vec::new();
        for i in 0..n {
            let (copy, call) =
                if i % 2 == 0 { first.duplicate(&holder) } else { copies[i - 1].duplicate(&holder) };
            count.perform(call, 0x5000);
            assert_eq!(count.references, 2 + i as i64);
            copies.push(copy);
        }
        assert_eq!(count.acquires as usize, n);
        count.perform(first.release(&holder), 0x5000);
        for copy in copies {
            count.perform(copy.release(&holder), 0x5000);
        }
        assert_eq!(count.releases as usize, n + 1);
        assert_eq!(count.references, 0);
    }
}
