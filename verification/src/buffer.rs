//! The values that pass through the library: descriptors, rectangles, owned
//! handles and the result of a lock.

use vstd::prelude::*;
use crate::holder::HBHolder;
use crate::native::BufferCall;
use crate::symbol::Operation;

verus! {

/// What a buffer is like. The library hands a descriptor on as it is and
/// reads none of its fields.
#[derive(Clone, Copy, Debug, PartialEq, Eq, Structural)]
pub struct BufferDesc {
    /// Width in pixels.
    pub width: u32,
    /// Height in pixels.
    pub height: u32,
    /// Number of images in the buffer.
    pub layers: u32,
    /// Pixel format.
    pub format: u32,
    /// Bit mask of the intended uses.
    pub usage: u64,
    /// Row stride in pixels. Ignored when a buffer is allocated.
    pub stride: u32,
    /// Reserved by the platform; zero.
    pub rfu0: u32,
    /// Reserved by the platform; zero.
    pub rfu1: u64,
}

/// The part of a buffer that a lock is about to touch.
#[derive(Clone, Copy, Debug, PartialEq, Eq, Structural)]
pub struct Rect {
    pub left: i32,
    pub top: i32,
    pub right: i32,
    pub bottom: i32,
}

/// A locked buffer: where it is mapped, and how its pixels lie in memory.
///
/// The address is good until the buffer is unlocked. The library does not
/// pair locks with unlocks: that is the caller's duty.
#[derive(Clone, Copy, Debug, PartialEq, Eq, Structural)]
pub struct LockInfo {
    /// The address of the mapped buffer.
    pub address: usize,
    /// The bytes per pixel.
    pub bytes_per_pixel: i32,
    /// The bytes per stride.
    pub bytes_per_stride: i32,
}

/// One reference on a native buffer, owned by this value.
///
/// The native object counts its references. A handle comes into being with
/// the reference that an allocation or a receipt created, or with the one that
/// `duplicate` has the platform add, and ends in `release`, which has the
/// platform take that reference away. It cannot be copied, so no reference is
/// given up twice.
#[derive(Debug)]
pub struct HBRef {
    data: usize,
}

impl View for HBRef {
    type V = usize;

    /// The address of the native buffer.
    closed spec fn view(&self) -> usize {
        self.data
    }
}

impl HBRef {
    #[verifier::type_invariant]
    spec fn is_non_null(self) -> bool {
        self.data != 0
    }

    /// Takes over the reference that the platform created at `address`.
    pub(crate) fn adopt(address: usize) -> (handle: HBRef)
        requires
            address != 0,
        ensures
            handle@ == address,
    {
        HBRef { data: address }
    }

    /// Gets the address of the underlying native buffer, without touching its
    /// reference count. It is never null.
    pub fn get(&self) -> (address: usize)
        ensures
            address == self@,
            address != 0,
    {
        proof {
            use_type_invariant(self);
        }
        self.data
    }

    /// Makes a second handle on the same buffer. The call that is returned
    /// with it invokes the native acquire function on the buffer, once: the
    /// caller has to carry it out.
    ///
    /// The acquire function is invoked whatever the API level is, so it must
    /// have been found.
    pub fn duplicate(&self, holder: &HBHolder) -> (pair: (HBRef, BufferCall))
        requires
            holder.table.resolved(Operation::Acquire),
        ensures
            pair.0@ == self@,
            pair.1 == (BufferCall { function: holder.table.slot(Operation::Acquire), buffer: self@ }),
            pair.1.function != 0,
            pair.1.buffer != 0,
    {
        let address: usize = self.get();
        (HBRef::adopt(address), BufferCall { function: holder.table.get(Operation::Acquire), buffer: address })
    }

    /// Ends the handle. The call that is returned invokes the native release
    /// function on the buffer, once: the caller has to carry it out.
    ///
    /// The release function is invoked whatever the API level is, so it must
    /// have been found.
    pub fn release(self, holder: &HBHolder) -> (call: BufferCall)
        requires
            holder.table.resolved(Operation::Release),
        ensures
            call == (BufferCall { function: holder.table.slot(Operation::Release), buffer: self@ }),
            call.function != 0,
            call.buffer != 0,
    {
        let address: usize = self.get();
        BufferCall { function: holder.table.get(Operation::Release), buffer: address }
    }
}

} // verus!
