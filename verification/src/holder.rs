//! The holder of what the resolver found, and the operations that it gates.
//!
//! Every operation comes in two parts. The first, named after the operation,
//! takes the caller's arguments and gives the native call to make, or `None`
//! where the operation is not available: then nothing is to be invoked. The
//! second, whose name ends in `_result`, takes the reply of that call, or
//! `None` where no call was made, and gives the operation's result. An
//! operation that is not available, and a native call that failed, give the
//! same result: the operation's "not available" value.

use vstd::prelude::*;
use crate::buffer::{BufferDesc, HBRef, LockInfo, Rect};
use crate::level::UNKNOWN_LEVEL;
use crate::native::{
    address_from_reply, fence_argument, fence_value, granted_buffer, handle_from_reply,
    id_from_reply, info_from_reply, mapped_address, mapped_info, mapped_planes, owned_buffer,
    planes_from_reply, rect_argument, rect_value, reported_id, reports_success, reports_support,
    success_from_reply, support_from_reply, AddressReply, BufferCall, DescCall, HandleReply,
    IdReply, InfoReply, LockCall, PlanesReply, RecvCall, SendCall, UnlockCall,
};
use crate::symbol::{Operation, SymbolTable};

verus! {

/// The device's API level and the addresses of the native entry points.
#[derive(Clone, Copy, Debug, PartialEq, Eq, Structural)]
pub struct HBHolder {
    /// The device API level. Some entry points exist only from a given level
    /// on; each operation checks the level before anything is invoked.
    pub api_level: i32,
    /// The addresses at which the native entry points were found.
    pub table: SymbolTable,
}

impl HBHolder {
    /// The operation may be invoked: the device's level is at least the one
    /// from which the entry point exists, and the entry point was found.
    pub open spec fn supports(self, op: Operation) -> bool {
        self.api_level >= op.minimum_level() && self.table.resolved(op)
    }

    /// The address to invoke for an operation, where it may be invoked.
    pub open spec fn entry(self, op: Operation) -> Option<usize> {
        if self.supports(op) {
            Some(self.table.slot(op))
        } else {
            None
        }
    }

    /// The reply as far as it counts: the reply itself where the operation
    /// may be invoked, and none where it may not.
    pub open spec fn gated<R>(self, op: Operation, reply: Option<R>) -> Option<R> {
        if self.supports(op) {
            reply
        } else {
            None
        }
    }

    /// The holder of a device with the given level and entry points.
    pub fn new(api_level: i32, table: SymbolTable) -> (holder: HBHolder)
        ensures
            holder.api_level == api_level,
            holder.table == table,
    {
        HBHolder { api_level, table }
    }

    /// The holder of a device without the native library: the level is
    /// unknown and no entry point was found, so nothing is supported.
    pub fn disabled() -> (holder: HBHolder)
        ensures
            holder.api_level == UNKNOWN_LEVEL,
            holder.table == SymbolTable::absent(),
            forall|op: Operation| !holder.supports(op),
    {
        HBHolder { api_level: UNKNOWN_LEVEL, table: SymbolTable::empty() }
    }

    /// Tells whether an operation may be invoked.
    pub fn is_available(&self, op: Operation) -> (available: bool)
        ensures
            available == self.supports(op),
    {
        self.api_level >= op.required_level() && self.table.get(op) != 0
    }

    /// The address to invoke for an operation, or `None` where it may not be
    /// invoked. Below the operation's level the table is not read.
    pub fn entry_point(&self, op: Operation) -> (function: Option<usize>)
        ensures
            function == self.entry(op),
            self.api_level < op.minimum_level() ==> function is None,
            function matches Some(f) ==> f != 0,
    {
        if self.api_level < op.required_level() {
            return None;
        }
        let function: usize = self.table.get(op);
        if function == 0 {
            None
        } else {
            Some(function)
        }
    }

    /// The reply of an operation's native call as far as it counts: a reply
    /// to an operation that may not be invoked is dropped.
    pub fn gate<R>(&self, op: Operation, reply: Option<R>) -> (counted: Option<R>)
        ensures
            counted == self.gated(op, reply),
            self.api_level < op.minimum_level() ==> counted is None,
    {
        if self.is_available(op) {
            reply
        } else {
            None
        }
    }

    /// Acquire a reference on the given buffer: the call to make.
    /// This prevents the object from being deleted until the last reference is
    /// removed. Available since API level 26.
    pub fn acquire(&self, buffer: usize) -> (call: Option<BufferCall>)
        ensures
            call == match self.entry(Operation::Acquire) {
                Some(function) => Some(BufferCall { function, buffer }),
                None => None,
            },
            self.api_level < 26 ==> call is None,
            call matches Some(c) ==> c.function != 0,
    {
        match self.entry_point(Operation::Acquire) {
            Some(function) => Some(BufferCall { function, buffer }),
            None => None,
        }
    }

    /// Remove a reference that was acquired before, or that came with an
    /// allocation: the call to make. Available since API level 26.
    pub fn release(&self, buffer: usize) -> (call: Option<BufferCall>)
        ensures
            call == match self.entry(Operation::Release) {
                Some(function) => Some(BufferCall { function, buffer }),
                None => None,
            },
            self.api_level < 26 ==> call is None,
            call matches Some(c) ==> c.function != 0,
    {
        match self.entry_point(Operation::Release) {
            Some(function) => Some(BufferCall { function, buffer }),
            None => None,
        }
    }

    /// Allocates a buffer that matches the descriptor: the call to make. The
    /// descriptor is handed on as it is. Available since API level 26.
    pub fn allocate(&self, desc: BufferDesc) -> (call: Option<DescCall>)
        ensures
            call == match self.entry(Operation::Allocate) {
                Some(function) => Some(DescCall { function, desc }),
                None => None,
            },
            self.api_level < 26 ==> call is None,
            call matches Some(c) ==> c.function != 0,
    {
        match self.entry_point(Operation::Allocate) {
            Some(function) => Some(DescCall { function, desc }),
            None => None,
        }
    }

    /// The handle that an allocation gave. The handle owns the reference that
    /// the allocation created. A status other than zero and a null buffer
    /// both give `None`.
    pub fn allocate_result(&self, reply: Option<HandleReply>) -> (handle: Option<HBRef>)
        ensures
            owned_buffer(handle) == granted_buffer(self.gated(Operation::Allocate, reply)),
            self.api_level < 26 ==> handle is None,
    {
        handle_from_reply(self.gate(Operation::Allocate, reply))
    }

    /// Return a description of the buffer: the call to make.
    /// Available since API level 26.
    pub fn describe(&self, buffer: &HBRef) -> (call: Option<BufferCall>)
        ensures
            call == match self.entry(Operation::Describe) {
                Some(function) => Some(BufferCall { function, buffer: buffer@ }),
                None => None,
            },
            self.api_level < 26 ==> call is None,
            call matches Some(c) ==> c.function != 0 && c.buffer != 0,
    {
        match self.entry_point(Operation::Describe) {
            Some(function) => Some(BufferCall { function, buffer: buffer.get() }),
            None => None,
        }
    }

    /// The descriptor that the native function filled in. The function
    /// reports no status, so a call that was made has succeeded.
    pub fn describe_result(&self, reply: Option<BufferDesc>) -> (desc: Option<BufferDesc>)
        ensures
            desc == self.gated(Operation::Describe, reply),
            self.api_level < 26 ==> desc is None,
    {
        self.gate(Operation::Describe, reply)
    }

    /// Get the system wide unique id of the buffer: the call to make.
    /// Available since API level 31.
    pub fn get_id(&self, buffer: &HBRef) -> (call: Option<BufferCall>)
        ensures
            call == match self.entry(Operation::GetId) {
                Some(function) => Some(BufferCall { function, buffer: buffer@ }),
                None => None,
            },
            self.api_level < 31 ==> call is None,
            call matches Some(c) ==> c.function != 0 && c.buffer != 0,
    {
        match self.entry_point(Operation::GetId) {
            Some(function) => Some(BufferCall { function, buffer: buffer.get() }),
            None => None,
        }
    }

    /// The id that the native function wrote, or `None` where it reported a
    /// status other than zero.
    pub fn get_id_result(&self, reply: Option<IdReply>) -> (id: Option<u64>)
        ensures
            id == reported_id(self.gated(Operation::GetId, reply)),
            self.api_level < 31 ==> id is None,
    {
        id_from_reply(self.gate(Operation::GetId, reply))
    }

    /// Test whether a buffer of the given description can be allocated: the
    /// call to make. Nothing is allocated. The descriptor is handed on as it
    /// is, its stride too, though the platform ignores that.
    /// Available since API level 29.
    pub fn is_supported(&self, desc: &BufferDesc) -> (call: Option<DescCall>)
        ensures
            call == match self.entry(Operation::IsSupported) {
                Some(function) => Some(DescCall { function, desc: *desc }),
                None => None,
            },
            self.api_level < 29 ==> call is None,
            call matches Some(c) ==> c.function != 0,
    {
        match self.entry_point(Operation::IsSupported) {
            Some(function) => Some(DescCall { function, desc: *desc }),
            None => None,
        }
    }

    /// `true` exactly where the native function was invoked and returned one.
    pub fn is_supported_result(&self, reply: Option<i32>) -> (supported: bool)
        ensures
            supported == reports_support(self.gated(Operation::IsSupported, reply)),
            self.api_level < 29 ==> !supported,
    {
        support_from_reply(self.gate(Operation::IsSupported, reply))
    }

    /// Receive a buffer from a local socket: the call to make. The socket is
    /// given as its raw descriptor and stays the caller's.
    /// Available since API level 26.
    pub fn recv(&self, socket: i32) -> (call: Option<RecvCall>)
        ensures
            call == match self.entry(Operation::Recv) {
                Some(function) => Some(RecvCall { function, socket }),
                None => None,
            },
            self.api_level < 26 ==> call is None,
            call matches Some(c) ==> c.function != 0,
    {
        match self.entry_point(Operation::Recv) {
            Some(function) => Some(RecvCall { function, socket }),
            None => None,
        }
    }

    /// The handle that a receipt gave. The handle owns the reference that the
    /// receipt created. A status other than zero and a null buffer both give
    /// `None`.
    pub fn recv_result(&self, reply: Option<HandleReply>) -> (handle: Option<HBRef>)
        ensures
            owned_buffer(handle) == granted_buffer(self.gated(Operation::Recv, reply)),
            self.api_level < 26 ==> handle is None,
    {
        handle_from_reply(self.gate(Operation::Recv, reply))
    }

    /// Send the buffer to a local socket: the call to make. The socket is
    /// given as its raw descriptor and stays the caller's.
    /// Available since API level 26.
    pub fn send(&self, socket: i32, buffer: &HBRef) -> (call: Option<SendCall>)
        ensures
            call == match self.entry(Operation::Send) {
                Some(function) => Some(SendCall { function, buffer: buffer@, socket }),
                None => None,
            },
            self.api_level < 26 ==> call is None,
            call matches Some(c) ==> c.function != 0 && c.buffer != 0,
    {
        match self.entry_point(Operation::Send) {
            Some(function) => Some(SendCall { function, buffer: buffer.get(), socket }),
            None => None,
        }
    }

    /// `true` exactly where the native function was invoked and reported
    /// status zero.
    pub fn send_result(&self, reply: Option<i32>) -> (sent: bool)
        ensures
            sent == reports_success(self.gated(Operation::Send, reply)),
            self.api_level < 26 ==> !sent,
    {
        success_from_reply(self.gate(Operation::Send, reply))
    }

    /// Lock the buffer for direct CPU access: the call to make. Without a
    /// fence the call passes `NO_FENCE`, without a rectangle a null reference;
    /// one that is given is passed as it is and stays the caller's.
    /// Available since API level 26.
    pub fn lock(&self, buffer: &HBRef, usage: u64, fence: Option<i32>, rect: Option<&Rect>) -> (call:
        Option<LockCall>)
        ensures
            call == match self.entry(Operation::Lock) {
                Some(function) => Some(
                    LockCall {
                        function,
                        buffer: buffer@,
                        usage,
                        fence: fence_value(fence),
                        rect: rect_value(rect),
                    },
                ),
                None => None,
            },
            self.api_level < 26 ==> call is None,
            call matches Some(c) ==> c.function != 0 && c.buffer != 0,
            call matches Some(c) ==> (fence is None ==> c.fence == -1) && (rect is None
                ==> c.rect is None),
            call matches Some(c) ==> (fence matches Some(fd) ==> c.fence == fd) && (rect matches Some(
                r,
            ) ==> c.rect == Some(*r)),
    {
        match self.entry_point(Operation::Lock) {
            Some(function) => Some(
                LockCall {
                    function,
                    buffer: buffer.get(),
                    usage,
                    fence: fence_argument(fence),
                    rect: rect_argument(rect),
                },
            ),
            None => None,
        }
    }

    /// The address at which the buffer was mapped, or null where the
    /// operation is not available or the native function reported a status
    /// other than zero.
    pub fn lock_result(&self, reply: Option<AddressReply>) -> (address: usize)
        ensures
            address == mapped_address(self.gated(Operation::Lock, reply)),
            self.api_level < 26 ==> address == 0,
    {
        address_from_reply(self.gate(Operation::Lock, reply))
    }

    /// Lock the buffer for direct CPU access and learn how its pixels lie:
    /// the call to make. Fence and rectangle are passed as in `lock`.
    /// Available since API level 29.
    pub fn lock_info(&self, buffer: &HBRef, usage: u64, fence: Option<i32>, rect: Option<&Rect>) -> (call:
        Option<LockCall>)
        ensures
            call == match self.entry(Operation::LockAndGetInfo) {
                Some(function) => Some(
                    LockCall {
                        function,
                        buffer: buffer@,
                        usage,
                        fence: fence_value(fence),
                        rect: rect_value(rect),
                    },
                ),
                None => None,
            },
            self.api_level < 29 ==> call is None,
            call matches Some(c) ==> c.function != 0 && c.buffer != 0,
    {
        match self.entry_point(Operation::LockAndGetInfo) {
            Some(function) => Some(
                LockCall {
                    function,
                    buffer: buffer.get(),
                    usage,
                    fence: fence_argument(fence),
                    rect: rect_argument(rect),
                },
            ),
            None => None,
        }
    }

    /// The mapping that the native function reported, all three values from
    /// the one reply, or `None` where it reported a status other than zero.
    pub fn lock_info_result(&self, reply: Option<InfoReply>) -> (info: Option<LockInfo>)
        ensures
            info == mapped_info(self.gated(Operation::LockAndGetInfo, reply)),
            self.api_level < 29 ==> info is None,
    {
        info_from_reply(self.gate(Operation::LockAndGetInfo, reply))
    }

    /// Lock a buffer of several planes for direct CPU access: the call to
    /// make. Fence and rectangle are passed as in `lock`.
    /// Available since API level 29.
    pub fn lock_planes(&self, buffer: &HBRef, usage: u64, fence: Option<i32>, rect: Option<&Rect>) -> (call:
        Option<LockCall>)
        ensures
            call == match self.entry(Operation::LockPlanes) {
                Some(function) => Some(
                    LockCall {
                        function,
                        buffer: buffer@,
                        usage,
                        fence: fence_value(fence),
                        rect: rect_value(rect),
                    },
                ),
                None => None,
            },
            self.api_level < 29 ==> call is None,
            call matches Some(c) ==> c.function != 0 && c.buffer != 0,
    {
        match self.entry_point(Operation::LockPlanes) {
            Some(function) => Some(
                LockCall {
                    function,
                    buffer: buffer.get(),
                    usage,
                    fence: fence_argument(fence),
                    rect: rect_argument(rect),
                },
            ),
            None => None,
        }
    }

    /// The planes that the native function filled in, or `None` where it
    /// reported a status other than zero.
    pub fn lock_planes_result<P>(&self, reply: Option<PlanesReply<P>>) -> (planes: Option<P>)
        ensures
            planes == mapped_planes(self.gated(Operation::LockPlanes, reply)),
            self.api_level < 29 ==> planes is None,
    {
        planes_from_reply(self.gate(Operation::LockPlanes, reply))
    }

    /// Unlock the buffer from direct CPU access: the call to make. The place
    /// for a fence that it passes is always null: the fence that ends an
    /// unlock is not given to callers. Available since API level 26.
    pub fn unlock(&self, buffer: &HBRef) -> (call: Option<UnlockCall>)
        ensures
            call == match self.entry(Operation::Unlock) {
                Some(function) => Some(UnlockCall { function, buffer: buffer@, fence_out: 0 }),
                None => None,
            },
            self.api_level < 26 ==> call is None,
            call matches Some(c) ==> c.function != 0 && c.buffer != 0,
    {
        match self.entry_point(Operation::Unlock) {
            Some(function) => Some(UnlockCall { function, buffer: buffer.get(), fence_out: 0 }),
            None => None,
        }
    }

    /// `true` exactly where the native function was invoked and reported
    /// status zero.
    pub fn unlock_result(&self, reply: Option<i32>) -> (unlocked: bool)
        ensures
            unlocked == reports_success(self.gated(Operation::Unlock, reply)),
            self.api_level < 26 ==> !unlocked,
    {
        success_from_reply(self.gate(Operation::Unlock, reply))
    }
}

} // verus!
