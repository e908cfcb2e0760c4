//! The native entry points: their names, the API level from which each one
//! exists, and the table of the addresses they were found at.

use vstd::prelude::*;

verus! {

/// How many native entry points the library knows.
pub const ENTRY_COUNT: usize = 12;

/// How many C characters the buffer for the property's value holds.
pub const PROPERTY_VALUE_MAX: usize = 92;

/// A native entry point, in the order in which they are looked up.
#[derive(Clone, Copy, Debug, PartialEq, Eq, Structural)]
pub enum Operation {
    /// Takes one more reference on a buffer.
    Acquire,
    /// Allocates a buffer that matches a descriptor.
    Allocate,
    /// Gives the descriptor of a buffer.
    Describe,
    /// Gives the system-wide id of a buffer.
    GetId,
    /// Tells whether a descriptor can be allocated.
    IsSupported,
    /// Receives a buffer from a local socket.
    Recv,
    /// Locks a buffer for access by the CPU.
    Lock,
    /// Locks a buffer and tells the bytes per pixel and per stride.
    LockAndGetInfo,
    /// Locks a buffer that has several planes.
    LockPlanes,
    /// Gives up one reference on a buffer.
    Release,
    /// Sends a buffer to a local socket.
    Send,
    /// Ends the access that a lock began.
    Unlock,
}

impl Operation {
    /// The API level from which the platform has this entry point.
    pub open spec fn minimum_level(self) -> i32 {
        match self {
            Operation::GetId => 31,
            Operation::IsSupported | Operation::LockAndGetInfo | Operation::LockPlanes => 29,
            _ => 26,
        }
    }

    /// The place of this entry point in the order of the lookups.
    pub open spec fn position(self) -> int {
        match self {
            Operation::Acquire => 0,
            Operation::Allocate => 1,
            Operation::Describe => 2,
            Operation::GetId => 3,
            Operation::IsSupported => 4,
            Operation::Recv => 5,
            Operation::Lock => 6,
            Operation::LockAndGetInfo => 7,
            Operation::LockPlanes => 8,
            Operation::Release => 9,
            Operation::Send => 10,
            Operation::Unlock => 11,
        }
    }

    /// The entry point at a place in the order of the lookups.
    pub open spec fn at_position(i: int) -> Option<Operation> {
        if i == 0 {
            Some(Operation::Acquire)
        } else if i == 1 {
            Some(Operation::Allocate)
        } else if i == 2 {
            Some(Operation::Describe)
        } else if i == 3 {
            Some(Operation::GetId)
        } else if i == 4 {
            Some(Operation::IsSupported)
        } else if i == 5 {
            Some(Operation::Recv)
        } else if i == 6 {
            Some(Operation::Lock)
        } else if i == 7 {
            Some(Operation::LockAndGetInfo)
        } else if i == 8 {
            Some(Operation::LockPlanes)
        } else if i == 9 {
            Some(Operation::Release)
        } else if i == 10 {
            Some(Operation::Send)
        } else if i == 11 {
            Some(Operation::Unlock)
        } else {
            None
        }
    }

    /// The name under which the native library exports this entry point.
    pub open spec fn symbol_text(self) -> Seq<char> {
        match self {
            Operation::Acquire => "AHardwareBuffer_acquire"@,
            Operation::Allocate => "AHardwareBuffer_allocate"@,
            Operation::Describe => "AHardwareBuffer_describe"@,
            Operation::GetId => "AHardwareBuffer_getId"@,
            Operation::IsSupported => "AHardwareBuffer_isSupported"@,
            Operation::Recv => "AHardwareBuffer_recvHandleFromUnixSocket"@,
            Operation::Lock => "AHardwareBuffer_lock"@,
            Operation::LockAndGetInfo => "AHardwareBuffer_lockAndGetInfo"@,
            Operation::LockPlanes => "AHardwareBuffer_lockPlanes"@,
            Operation::Release => "AHardwareBuffer_release"@,
            Operation::Send => "AHardwareBuffer_sendHandleToUnixSocket"@,
            Operation::Unlock => "AHardwareBuffer_unlock"@,
        }
    }

    /// The API level from which the platform has this entry point.
    pub fn required_level(self) -> (level: i32)
        ensures
            level == self.minimum_level(),
    {
        match self {
            Operation::GetId => 31,
            Operation::IsSupported | Operation::LockAndGetInfo | Operation::LockPlanes => 29,
            _ => 26,
        }
    }

    /// The place of this entry point in the order of the lookups.
    pub fn index(self) -> (i: usize)
        ensures
            i == self.position(),
            i < ENTRY_COUNT,
            Operation::at_position(i as int) == Some(self),
    {
        match self {
            Operation::Acquire => 0,
            Operation::Allocate => 1,
            Operation::Describe => 2,
            Operation::GetId => 3,
            Operation::IsSupported => 4,
            Operation::Recv => 5,
            Operation::Lock => 6,
            Operation::LockAndGetInfo => 7,
            Operation::LockPlanes => 8,
            Operation::Release => 9,
            Operation::Send => 10,
            Operation::Unlock => 11,
        }
    }

    /// The entry point that is looked up as the `i`-th, counting from zero;
    /// none from `ENTRY_COUNT` on.
    pub fn at(i: usize) -> (op: Option<Operation>)
        ensures
            op == Operation::at_position(i as int),
            op is Some <==> i < ENTRY_COUNT,
            op matches Some(o) ==> o.position() == i,
    {
        if i == 0 {
            Some(Operation::Acquire)
        } else if i == 1 {
            Some(Operation::Allocate)
        } else if i == 2 {
            Some(Operation::Describe)
        } else if i == 3 {
            Some(Operation::GetId)
        } else if i == 4 {
            Some(Operation::IsSupported)
        } else if i == 5 {
            Some(Operation::Recv)
        } else if i == 6 {
            Some(Operation::Lock)
        } else if i == 7 {
            Some(Operation::LockAndGetInfo)
        } else if i == 8 {
            Some(Operation::LockPlanes)
        } else if i == 9 {
            Some(Operation::Release)
        } else if i == 10 {
            Some(Operation::Send)
        } else if i == 11 {
            Some(Operation::Unlock)
        } else {
            None
        }
    }

    /// The name under which the native library exports this entry point.
    pub fn symbol_name(self) -> (name: &'static str)
        ensures
            name@ == self.symbol_text(),
    {
        match self {
            Operation::Acquire => "AHardwareBuffer_acquire",
            Operation::Allocate => "AHardwareBuffer_allocate",
            Operation::Describe => "AHardwareBuffer_describe",
            Operation::GetId => "AHardwareBuffer_getId",
            Operation::IsSupported => "AHardwareBuffer_isSupported",
            Operation::Recv => "AHardwareBuffer_recvHandleFromUnixSocket",
            Operation::Lock => "AHardwareBuffer_lock",
            Operation::LockAndGetInfo => "AHardwareBuffer_lockAndGetInfo",
            Operation::LockPlanes => "AHardwareBuffer_lockPlanes",
            Operation::Release => "AHardwareBuffer_release",
            Operation::Send => "AHardwareBuffer_sendHandleToUnixSocket",
            Operation::Unlock => "AHardwareBuffer_unlock",
        }
    }
}

/// A symbol of the native library that the resolver looks up.
#[derive(Clone, Copy, Debug, PartialEq, Eq, Structural)]
pub enum Symbol {
    /// The function that reads a system property.
    PropertyGet,
    /// One of the entry points.
    Entry(Operation),
}

impl Symbol {
    /// The name under which the native library exports the symbol.
    pub open spec fn text(self) -> Seq<char> {
        match self {
            Symbol::PropertyGet => "__system_property_get"@,
            Symbol::Entry(op) => op.symbol_text(),
        }
    }

    /// The name under which the native library exports the symbol.
    pub fn name(self) -> (name: &'static str)
        ensures
            name@ == self.text(),
    {
        match self {
            Symbol::PropertyGet => "__system_property_get",
            Symbol::Entry(op) => op.symbol_name(),
        }
    }
}

/// The file name of the native library.
pub open spec fn library_text() -> Seq<char> {
    "libandroid.so"@
}

/// The file name of the native library.
pub fn library_name() -> (name: &'static str)
    ensures
        name@ == library_text(),
{
    "libandroid.so"
}

/// The key of the system property that holds the API level.
pub open spec fn version_key_text() -> Seq<char> {
    "ro.build.version.sdk"@
}

/// The key of the system property that holds the API level.
pub fn version_key() -> (key: &'static str)
    ensures
        key@ == version_key_text(),
{
    "ro.build.version.sdk"
}

/// The addresses at which the entry points were found. Zero stands for an
/// entry point that the library does not export.
#[derive(Clone, Copy, Debug, PartialEq, Eq, Structural)]
pub struct SymbolTable {
    pub acquire: usize,
    pub allocate: usize,
    pub describe: usize,
    pub get_id: usize,
    pub is_supported: usize,
    pub recv: usize,
    pub lock: usize,
    pub lock_and_get_info: usize,
    pub lock_planes: usize,
    pub release: usize,
    pub send: usize,
    pub unlock: usize,
}

impl SymbolTable {
    /// The address found for an entry point.
    pub open spec fn slot(self, op: Operation) -> usize {
        match op {
            Operation::Acquire => self.acquire,
            Operation::Allocate => self.allocate,
            Operation::Describe => self.describe,
            Operation::GetId => self.get_id,
            Operation::IsSupported => self.is_supported,
            Operation::Recv => self.recv,
            Operation::Lock => self.lock,
            Operation::LockAndGetInfo => self.lock_and_get_info,
            Operation::LockPlanes => self.lock_planes,
            Operation::Release => self.release,
            Operation::Send => self.send,
            Operation::Unlock => self.unlock,
        }
    }

    /// The entry point was found.
    pub open spec fn resolved(self, op: Operation) -> bool {
        self.slot(op) != 0
    }

    /// The table in which no entry point was found.
    pub open spec fn absent() -> SymbolTable {
        SymbolTable {
            acquire: 0,
            allocate: 0,
            describe: 0,
            get_id: 0,
            is_supported: 0,
            recv: 0,
            lock: 0,
            lock_and_get_info: 0,
            lock_planes: 0,
            release: 0,
            send: 0,
            unlock: 0,
        }
    }

    /// This table with the address of one entry point replaced.
    pub open spec fn update(self, op: Operation, address: usize) -> SymbolTable {
        match op {
            Operation::Acquire => SymbolTable { acquire: address, ..self },
            Operation::Allocate => SymbolTable { allocate: address, ..self },
            Operation::Describe => SymbolTable { describe: address, ..self },
            Operation::GetId => SymbolTable { get_id: address, ..self },
            Operation::IsSupported => SymbolTable { is_supported: address, ..self },
            Operation::Recv => SymbolTable { recv: address, ..self },
            Operation::Lock => SymbolTable { lock: address, ..self },
            Operation::LockAndGetInfo => SymbolTable { lock_and_get_info: address, ..self },
            Operation::LockPlanes => SymbolTable { lock_planes: address, ..self },
            Operation::Release => SymbolTable { release: address, ..self },
            Operation::Send => SymbolTable { send: address, ..self },
            Operation::Unlock => SymbolTable { unlock: address, ..self },
        }
    }

    /// The table in which no entry point was found.
    pub fn empty() -> (table: SymbolTable)
        ensures
            table == SymbolTable::absent(),
            forall|op: Operation| !table.resolved(op),
    {
        SymbolTable {
            acquire: 0,
            allocate: 0,
            describe: 0,
            get_id: 0,
            is_supported: 0,
            recv: 0,
            lock: 0,
            lock_and_get_info: 0,
            lock_planes: 0,
            release: 0,
            send: 0,
            unlock: 0,
        }
    }

    /// The address found for an entry point.
    pub fn get(&self, op: Operation) -> (address: usize)
        ensures
            address == self.slot(op),
    {
        match op {
            Operation::Acquire => self.acquire,
            Operation::Allocate => self.allocate,
            Operation::Describe => self.describe,
            Operation::GetId => self.get_id,
            Operation::IsSupported => self.is_supported,
            Operation::Recv => self.recv,
            Operation::Lock => self.lock,
            Operation::LockAndGetInfo => self.lock_and_get_info,
            Operation::LockPlanes => self.lock_planes,
            Operation::Release => self.release,
            Operation::Send => self.send,
            Operation::Unlock => self.unlock,
        }
    }

    /// This table with the address of one entry point replaced. The other
    /// entry points keep theirs.
    pub fn with(self, op: Operation, address: usize) -> (table: SymbolTable)
        ensures
            table == self.update(op, address),
            table.slot(op) == address,
            forall|other: Operation| other != op ==> table.slot(other) == self.slot(other),
    {
        let mut table = self;
        match op {
            Operation::Acquire => { table.acquire = address; }
            Operation::Allocate => { table.allocate = address; }
            Operation::Describe => { table.describe = address; }
            Operation::GetId => { table.get_id = address; }
            Operation::IsSupported => { table.is_supported = address; }
            Operation::Recv => { table.recv = address; }
            Operation::Lock => { table.lock = address; }
            Operation::LockAndGetInfo => { table.lock_and_get_info = address; }
            Operation::LockPlanes => { table.lock_planes = address; }
            Operation::Release => { table.release = address; }
            Operation::Send => { table.send = address; }
            Operation::Unlock => { table.unlock = address; }
        }
        table
    }
}

} // verus!
