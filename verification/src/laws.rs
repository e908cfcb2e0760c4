//! Statements about the operations taken together: the check of the API
//! level, the outcome of calls that succeed, and the count of references that handles keep.

use vstd::prelude::*;
use crate::buffer::BufferDesc;
use crate::holder::HBHolder;
use crate::level::UNKNOWN_LEVEL;
use crate::native::{
    granted_buffer, mapped_address, mapped_info, mapped_planes, reported_id, reports_success,
    reports_support, AddressReply, BufferCall, HandleReply, IdReply, InfoReply, PlanesReply,
};
use crate::resolver::{Platform, Resolver};
use crate::symbol::{Operation, SymbolTable};

verus! {

/// Below the level from which an operation exists, the operation has no entry
/// point to invoke, and gives its "not available" value whatever reply is
/// handed to it. The levels are 26 for acquire, release, allocate, describe,
/// receive, send, lock and unlock, 29 for the support check and the two locks
/// that tell more, and 31 for the id.
pub proof fn lemma_below_minimum_not_available<P>(
    holder: HBHolder,
    handle: Option<HandleReply>,
    desc: Option<BufferDesc>,
    id: Option<IdReply>,
    returned: Option<i32>,
    address: Option<AddressReply>,
    info: Option<InfoReply>,
    planes: Option<PlanesReply<P>>,
)
    ensures
        forall|op: Operation| holder.api_level < op.minimum_level() ==> holder.entry(op) is None,
        holder.api_level < 26 ==> {
            &&& granted_buffer(holder.gated(Operation::Allocate, handle)) is None
            &&& holder.gated(Operation::Describe, desc) is None
            &&& granted_buffer(holder.gated(Operation::Recv, handle)) is None
            &&& !reports_success(holder.gated(Operation::Send, returned))
            &&& mapped_address(holder.gated(Operation::Lock, address)) == 0
            &&& !reports_success(holder.gated(Operation::Unlock, returned))
        },
        holder.api_level < 29 ==> {
            &&& !reports_support(holder.gated(Operation::IsSupported, returned))
            &&& mapped_info(holder.gated(Operation::LockAndGetInfo, info)) is None
            &&& mapped_planes(holder.gated(Operation::LockPlanes, planes)) is None
        },
        holder.api_level < 31 ==> reported_id(holder.gated(Operation::GetId, id)) is None,
{
}

/// From the level on from which an operation exists, and with its entry point
/// found, the operation invokes that entry point, and a reply that reports
/// success gives what the native function handed out, not the "not available"
/// value.
pub proof fn lemma_success_gives_native_output<P>(
    holder: HBHolder,
    handle: HandleReply,
    desc: BufferDesc,
    id: IdReply,
    address: AddressReply,
    info: InfoReply,
    planes: PlanesReply<P>,
)
    ensures
        forall|op: Operation|
            holder.api_level >= op.minimum_level() && holder.table.resolved(op) ==> holder.entry(op)
                == Some(holder.table.slot(op)),
        holder.supports(Operation::Allocate) && handle.status == 0 && handle.buffer != 0
            ==> granted_buffer(holder.gated(Operation::Allocate, Some(handle))) == Some(
            handle.buffer,
        ),
        holder.supports(Operation::Describe) ==> holder.gated(Operation::Describe, Some(desc))
            == Some(desc),
        holder.supports(Operation::GetId) && id.status == 0 ==> reported_id(
            holder.gated(Operation::GetId, Some(id)),
        ) == Some(id.id),
        holder.supports(Operation::IsSupported) ==> reports_support(
            holder.gated(Operation::IsSupported, Some(1i32)),
        ),
        holder.supports(Operation::Recv) && handle.status == 0 && handle.buffer != 0
            ==> granted_buffer(holder.gated(Operation::Recv, Some(handle))) == Some(handle.buffer),
        holder.supports(Operation::Send) ==> reports_success(
            holder.gated(Operation::Send, Some(0i32)),
        ),
        holder.supports(Operation::Lock) && address.status == 0 ==> mapped_address(
            holder.gated(Operation::Lock, Some(address)),
        ) == address.address,
        holder.supports(Operation::LockAndGetInfo) && info.status == 0 ==> (mapped_info(
            holder.gated(Operation::LockAndGetInfo, Some(info)),
        ) matches Some(i) && i.address == info.address && i.bytes_per_pixel == info.bytes_per_pixel
            && i.bytes_per_stride == info.bytes_per_stride),
        holder.supports(Operation::LockPlanes) && planes.status == 0 ==> mapped_planes(
            holder.gated(Operation::LockPlanes, Some(planes)),
        ) == Some(planes.planes),
        holder.supports(Operation::Unlock) ==> reports_success(
            holder.gated(Operation::Unlock, Some(0i32)),
        ),
{
}

/// On a platform whose library cannot be opened, the resolution ends in a
/// holder that supports no operation; and so does every resolution that could
/// not determine the API level, whatever entry points it found.
pub proof fn lemma_unknown_level_supports_nothing(platform: Platform, op: Operation)
    ensures
        platform.library == 0 ==> Resolver::Opening.run(platform, 15) == (Resolver::Done {
            api_level: UNKNOWN_LEVEL,
            table: SymbolTable::absent(),
        }),
        platform.api_level() == UNKNOWN_LEVEL ==> !(HBHolder {
            api_level: platform.api_level(),
            table: platform.table(),
        }).supports(op),
        !(HBHolder { api_level: UNKNOWN_LEVEL, table: SymbolTable::absent() }).supports(op),
{
    crate::resolver::lemma_resolution_completes(platform);
}

/// What one native call does to the number of references on `buffer`: a call
/// of the acquire function on it adds one, a call of the release function on
/// it takes one away.
pub open spec fn reference_change(table: SymbolTable, call: BufferCall, buffer: usize) -> int {
    if call.buffer != buffer {
        0
    } else if call.function == table.acquire {
        1
    } else if call.function == table.release {
        -1
    } else {
        0
    }
}

/// What a sequence of native calls does to the number of references on
/// `buffer`.
pub open spec fn net_references(table: SymbolTable, calls: Seq<BufferCall>, buffer: usize) -> int
    decreases calls.len(),
{
    if calls.len() == 0 {
        0
    } else {
        net_references(table, calls.drop_last(), buffer) + reference_change(
            table,
            calls.last(),
            buffer,
        )
    }
}

/// How often a call occurs in a sequence of calls.
pub open spec fn occurrences(calls: Seq<BufferCall>, call: BufferCall) -> nat
    decreases calls.len(),
{
    if calls.len() == 0 {
        0
    } else {
        occurrences(calls.drop_last(), call) + if calls.last() == call {
            1nat
        } else {
            0nat
        }
    }
}

/// The call that duplicating a handle on `buffer` has the caller make.
pub open spec fn duplicate_call(table: SymbolTable, buffer: usize) -> BufferCall {
    BufferCall { function: table.acquire, buffer }
}

/// The call that releasing a handle on `buffer` has the caller make.
pub open spec fn release_call(table: SymbolTable, buffer: usize) -> BufferCall {
    BufferCall { function: table.release, buffer }
}

/// Handles keep the native count of references in balance. Each duplication
/// adds one reference and each release takes one away; so where the calls
/// made for a buffer are those of some number of duplications and of one
/// release more, in any order, the reference that the buffer was created with
/// is gone too, and none is left.
pub proof fn lemma_duplicates_and_releases_balance(
    table: SymbolTable,
    buffer: usize,
    calls: Seq<BufferCall>,
    duplicates: nat,
)
    requires
        table.acquire != table.release,
        forall|i: int|
            0 <= i < calls.len() ==> calls[i] == duplicate_call(table, buffer) || calls[i]
                == release_call(table, buffer),
        occurrences(calls, duplicate_call(table, buffer)) == duplicates,
        occurrences(calls, release_call(table, buffer)) == duplicates + 1,
    ensures
        reference_change(table, duplicate_call(table, buffer), buffer) == 1,
        reference_change(table, release_call(table, buffer), buffer) == -1,
        1 + net_references(table, calls, buffer) == 0,
{
    lemma_net_references_counts(table, buffer, calls);
}

/// The net change of a sequence of duplications and releases on one buffer is
/// the number of the duplications less the number of the releases.
proof fn lemma_net_references_counts(table: SymbolTable, buffer: usize, calls: Seq<BufferCall>)
    requires
        table.acquire != table.release,
        forall|i: int|
            0 <= i < calls.len() ==> calls[i] == duplicate_call(table, buffer) || calls[i]
                == release_call(table, buffer),
    ensures
        net_references(table, calls, buffer) == occurrences(calls, duplicate_call(table, buffer))
            - occurrences(calls, release_call(table, buffer)),
    decreases calls.len(),
{
    if calls.len() > 0 {
        let earlier = calls.drop_last();
        assert forall|i: int| 0 <= i < earlier.len() implies earlier[i] == duplicate_call(
            table,
            buffer,
        ) || earlier[i] == release_call(table, buffer) by {
            assert(earlier[i] == calls[i]);
        }
        lemma_net_references_counts(table, buffer, earlier);
        assert(calls.last() == calls[calls.len() - 1]);
    }
}

} // verus!
