//! What is handed to the native entry points, and what they hand back.
//!
//! A call names the address of the function to invoke and the arguments to
//! pass. Addresses of functions and of buffers are plain numbers here; zero is
//! the null pointer. A reply holds the function's return value and what its
//! output arguments held after the call. An output argument holds zero, or
//! null, before the call.

use vstd::prelude::*;
use crate::buffer::{BufferDesc, HBRef, LockInfo, Rect};

verus! {

/// The fence argument that stands for "no fence".
pub const NO_FENCE: i32 = -1;

/// The fence argument of a native call: the descriptor's raw value, or
/// `NO_FENCE` where the caller gave none.
pub open spec fn fence_value(fence: Option<i32>) -> i32 {
    match fence {
        Some(fd) => fd,
        None => NO_FENCE,
    }
}

/// The rectangle argument of a native call: the caller's rectangle, or a null
/// reference where the caller gave none.
pub open spec fn rect_value(rect: Option<&Rect>) -> Option<Rect> {
    match rect {
        Some(r) => Some(*r),
        None => None,
    }
}

/// The fence argument of a native call.
pub fn fence_argument(fence: Option<i32>) -> (value: i32)
    ensures
        value == fence_value(fence),
        fence is None ==> value == -1,
{
    match fence {
        Some(fd) => fd,
        None => NO_FENCE,
    }
}

/// The rectangle argument of a native call.
pub fn rect_argument(rect: Option<&Rect>) -> (value: Option<Rect>)
    ensures
        value == rect_value(rect),
{
    match rect {
        Some(r) => Some(*r),
        None => None,
    }
}

/// A call of an entry point that takes a buffer and nothing else.
#[derive(Clone, Copy, Debug, PartialEq, Eq, Structural)]
pub struct BufferCall {
    pub function: usize,
    pub buffer: usize,
}

/// A call of an entry point that takes a descriptor.
#[derive(Clone, Copy, Debug, PartialEq, Eq, Structural)]
pub struct DescCall {
    pub function: usize,
    pub desc: BufferDesc,
}

/// A call of the entry point that receives a buffer from a socket.
#[derive(Clone, Copy, Debug, PartialEq, Eq, Structural)]
pub struct RecvCall {
    pub function: usize,
    pub socket: i32,
}

/// A call of the entry point that sends a buffer to a socket.
#[derive(Clone, Copy, Debug, PartialEq, Eq, Structural)]
pub struct SendCall {
    pub function: usize,
    pub buffer: usize,
    pub socket: i32,
}

/// A call of one of the entry points that lock a buffer.
#[derive(Clone, Copy, Debug, PartialEq, Eq, Structural)]
pub struct LockCall {
    pub function: usize,
    pub buffer: usize,
    pub usage: u64,
    /// The fence to wait for, as a raw descriptor; `NO_FENCE` for none.
    pub fence: i32,
    /// The rectangle to pass by reference; a null reference for `None`.
    pub rect: Option<Rect>,
}

/// A call of the entry point that unlocks a buffer.
#[derive(Clone, Copy, Debug, PartialEq, Eq, Structural)]
pub struct UnlockCall {
    pub function: usize,
    pub buffer: usize,
    /// Where the native function may leave a fence. Always null.
    pub fence_out: usize,
}

/// The reply of an entry point that hands out a buffer.
#[derive(Clone, Copy, Debug, PartialEq, Eq, Structural)]
pub struct HandleReply {
    pub status: i32,
    pub buffer: usize,
}

/// The reply of the entry point that tells a buffer's id.
#[derive(Clone, Copy, Debug, PartialEq, Eq, Structural)]
pub struct IdReply {
    pub status: i32,
    pub id: u64,
}

/// The reply of the entry point that locks a buffer.
#[derive(Clone, Copy, Debug, PartialEq, Eq, Structural)]
pub struct AddressReply {
    pub status: i32,
    pub address: usize,
}

/// The reply of the entry point that locks a buffer and tells how its pixels
/// lie.
#[derive(Clone, Copy, Debug, PartialEq, Eq, Structural)]
pub struct InfoReply {
    pub status: i32,
    pub address: usize,
    pub bytes_per_pixel: i32,
    pub bytes_per_stride: i32,
}

/// The reply of the entry point that locks a buffer of several planes. What
/// the planes are is the platform's matter: the library hands them on.
#[derive(Debug)]
pub struct PlanesReply<P> {
    pub status: i32,
    pub planes: P,
}

/// The buffer that a reply hands out: the one it names, where it reports
/// status zero and the buffer is not null.
pub open spec fn granted_buffer(reply: Option<HandleReply>) -> Option<usize> {
    match reply {
        Some(r) => if r.status == 0 && r.buffer != 0 {
            Some(r.buffer)
        } else {
            None
        },
        None => None,
    }
}

/// The id that a reply tells, where it reports status zero.
pub open spec fn reported_id(reply: Option<IdReply>) -> Option<u64> {
    match reply {
        Some(r) => if r.status == 0 {
            Some(r.id)
        } else {
            None
        },
        None => None,
    }
}

/// The reply says that the descriptor can be allocated: the native function
/// returned one.
pub open spec fn reports_support(reply: Option<i32>) -> bool {
    reply == Some(1i32)
}

/// The reply says that the call succeeded: the native function returned
/// status zero.
pub open spec fn reports_success(reply: Option<i32>) -> bool {
    reply == Some(0i32)
}

/// The address at which a reply says the buffer is mapped; null where it
/// reports another status than zero.
pub open spec fn mapped_address(reply: Option<AddressReply>) -> usize {
    match reply {
        Some(r) => if r.status == 0 {
            r.address
        } else {
            0
        },
        None => 0,
    }
}

/// The mapping that a reply tells, where it reports status zero.
pub open spec fn mapped_info(reply: Option<InfoReply>) -> Option<LockInfo> {
    match reply {
        Some(r) => if r.status == 0 {
            Some(
                LockInfo {
                    address: r.address,
                    bytes_per_pixel: r.bytes_per_pixel,
                    bytes_per_stride: r.bytes_per_stride,
                },
            )
        } else {
            None
        },
        None => None,
    }
}

/// The planes that a reply tells, where it reports status zero.
pub open spec fn mapped_planes<P>(reply: Option<PlanesReply<P>>) -> Option<P> {
    match reply {
        Some(r) => if r.status == 0 {
            Some(r.planes)
        } else {
            None
        },
        None => None,
    }
}

/// The address of the buffer that a handle owns, if there is a handle.
pub open spec fn owned_buffer(handle: Option<HBRef>) -> Option<usize> {
    match handle {
        Some(h) => Some(h@),
        None => None,
    }
}

/// The handle on the buffer that a reply hands out. It owns the reference
/// that the native call created. A status other than zero and a null buffer
/// both give `None`.
pub fn handle_from_reply(reply: Option<HandleReply>) -> (handle: Option<HBRef>)
    ensures
        owned_buffer(handle) == granted_buffer(reply),
{
    match reply {
        Some(r) => if r.status == 0 && r.buffer != 0 {
            Some(HBRef::adopt(r.buffer))
        } else {
            None
        },
        None => None,
    }
}

/// The id that a reply tells, or `None` where it reports a status other than
/// zero.
pub fn id_from_reply(reply: Option<IdReply>) -> (id: Option<u64>)
    ensures
        id == reported_id(reply),
{
    match reply {
        Some(r) => if r.status == 0 {
            Some(r.id)
        } else {
            None
        },
        None => None,
    }
}

/// `true` exactly where the native function returned one.
pub fn support_from_reply(reply: Option<i32>) -> (supported: bool)
    ensures
        supported == reports_support(reply),
{
    match reply {
        Some(returned) => returned == 1,
        None => false,
    }
}

/// `true` exactly where the native function returned status zero.
pub fn success_from_reply(reply: Option<i32>) -> (succeeded: bool)
    ensures
        succeeded == reports_success(reply),
{
    match reply {
        Some(status) => status == 0,
        None => false,
    }
}

/// The address at which the buffer is mapped, or null where the reply reports
/// a status other than zero.
pub fn address_from_reply(reply: Option<AddressReply>) -> (address: usize)
    ensures
        address == mapped_address(reply),
{
    match reply {
        Some(r) => if r.status == 0 {
            r.address
        } else {
            0
        },
        None => 0,
    }
}

/// The mapping that the reply tells, all three values from the one reply, or
/// `None` where it reports a status other than zero.
pub fn info_from_reply(reply: Option<InfoReply>) -> (info: Option<LockInfo>)
    ensures
        info == mapped_info(reply),
{
    match reply {
        Some(r) => if r.status == 0 {
            Some(
                LockInfo {
                    address: r.address,
                    bytes_per_pixel: r.bytes_per_pixel,
                    bytes_per_stride: r.bytes_per_stride,
                },
            )
        } else {
            None
        },
        None => None,
    }
}

/// The planes that the reply tells, or `None` where it reports a status other
/// than zero.
pub fn planes_from_reply<P>(reply: Option<PlanesReply<P>>) -> (planes: Option<P>)
    ensures
        planes == mapped_planes(reply),
{
    match reply {
        Some(r) => if r.status == 0 {
            Some(r.planes)
        } else {
            None
        },
        None => None,
    }
}

} // verus!
