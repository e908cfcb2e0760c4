//! Finding the native library, the device's API level and the entry points.
//!
//! The resolver is a state machine. It names the next probe of the platform;
//! the embedding code carries the probe out and hands the finding back; the
//! resolver goes on from there, until the holder is complete. It opens the
//! library, reads the API level where the property function can be found, and
//! looks up every entry point, whatever the level is. A library that cannot
//! be opened ends the resolution at once, with nothing found.

use vstd::prelude::*;
use crate::holder::HBHolder;
use crate::level::{chars_as_bytes, level_from_property, property_level, UNKNOWN_LEVEL};
use crate::symbol::{Operation, Symbol, SymbolTable};

verus! {

/// What the resolver wants to learn from the platform next.
#[derive(Clone, Copy, Debug, PartialEq, Eq, Structural)]
pub enum Probe {
    /// Open the native library, by `library_name()`, local to the process
    /// and with lazy binding. The finding is its handle.
    OpenLibrary,
    /// Look a symbol up in the library, by its name. The finding is its
    /// address.
    FindSymbol { library: usize, symbol: Symbol },
    /// Invoke the property function at `function` with `version_key()` and a
    /// zeroed buffer of `PROPERTY_VALUE_MAX` characters. The finding is what
    /// it returned and the buffer.
    ReadProperty { function: usize },
}

/// What a probe found.
#[derive(Debug)]
pub enum Finding {
    /// The handle of the library; null where it could not be opened.
    Library { handle: usize },
    /// The address of a symbol; null where the library does not export it.
    Symbol { address: usize },
    /// What the property function returned, and the buffer that it filled.
    Property { returned: i32, value: Vec<libc::c_char> },
}

/// A finding as a mathematical value.
pub enum FindingView {
    Library { handle: usize },
    Symbol { address: usize },
    Property { returned: i32, value: Seq<libc::c_char> },
}

impl View for Finding {
    type V = FindingView;

    open spec fn view(&self) -> FindingView {
        match *self {
            Finding::Library { handle } => FindingView::Library { handle },
            Finding::Symbol { address } => FindingView::Symbol { address },
            Finding::Property { returned, value } => FindingView::Property { returned, value: value@ },
        }
    }
}

/// How far the resolution has come.
#[derive(Clone, Copy, Debug, PartialEq, Eq, Structural)]
pub enum Resolver {
    /// Nothing is known yet.
    Opening,
    /// The library is open; the property function is being looked up.
    FindingProperty { library: usize },
    /// The property function was found; the level is being read.
    ReadingProperty { library: usize, function: usize },
    /// The level is settled; `entry` is being looked up, and the entry points
    /// before it are in `table`.
    FindingEntry { library: usize, api_level: i32, table: SymbolTable, entry: Operation },
    /// The resolution is complete.
    Done { api_level: i32, table: SymbolTable },
}

impl Resolver {
    /// The probe that the resolver waits for; none once it is done.
    pub open spec fn probe(self) -> Option<Probe> {
        match self {
            Resolver::Opening => Some(Probe::OpenLibrary),
            Resolver::FindingProperty { library } => Some(
                Probe::FindSymbol { library, symbol: Symbol::PropertyGet },
            ),
            Resolver::ReadingProperty { library, function } => Some(Probe::ReadProperty { function }),
            Resolver::FindingEntry { library, api_level, table, entry } => Some(
                Probe::FindSymbol { library, symbol: Symbol::Entry(entry) },
            ),
            Resolver::Done { api_level, table } => None,
        }
    }

    /// The state in which the entry points are looked up, from the first one.
    pub open spec fn entries_from(library: usize, api_level: i32) -> Resolver {
        Resolver::FindingEntry {
            library,
            api_level,
            table: SymbolTable::absent(),
            entry: Operation::Acquire,
        }
    }

    /// The state after a finding. A finding of another kind than the probe
    /// asks for changes nothing.
    pub open spec fn after(self, finding: FindingView) -> Resolver {
        match (self, finding) {
            (Resolver::Opening, FindingView::Library { handle }) => if handle == 0 {
                Resolver::Done { api_level: UNKNOWN_LEVEL, table: SymbolTable::absent() }
            } else {
                Resolver::FindingProperty { library: handle }
            },
            (Resolver::FindingProperty { library }, FindingView::Symbol { address }) => if address
                == 0 {
                Resolver::entries_from(library, UNKNOWN_LEVEL)
            } else {
                Resolver::ReadingProperty { library, function: address }
            },
            (
                Resolver::ReadingProperty { library, function },
                FindingView::Property { returned, value },
            ) => Resolver::entries_from(library, property_level(returned, chars_as_bytes(value))),
            (
                Resolver::FindingEntry { library, api_level, table, entry },
                FindingView::Symbol { address },
            ) => match Operation::at_position(entry.position() + 1) {
                Some(next) => Resolver::FindingEntry {
                    library,
                    api_level,
                    table: table.update(entry, address),
                    entry: next,
                },
                None => Resolver::Done { api_level, table: table.update(entry, address) },
            },
            _ => self,
        }
    }

    /// The resolver before anything is known.
    pub fn new() -> (resolver: Resolver)
        ensures
            resolver == Resolver::Opening,
    {
        Resolver::Opening
    }

    /// The probe to carry out next, or `None` where the resolution is
    /// complete.
    pub fn next_probe(&self) -> (probe: Option<Probe>)
        ensures
            probe == self.probe(),
            probe is None <==> *self is Done,
    {
        match *self {
            Resolver::Opening => Some(Probe::OpenLibrary),
            Resolver::FindingProperty { library } => Some(
                Probe::FindSymbol { library, symbol: Symbol::PropertyGet },
            ),
            Resolver::ReadingProperty { library, function } => Some(Probe::ReadProperty { function }),
            Resolver::FindingEntry { library, api_level, table, entry } => Some(
                Probe::FindSymbol { library, symbol: Symbol::Entry(entry) },
            ),
            Resolver::Done { api_level, table } => None,
        }
    }

    /// Takes in what the probe found.
    pub fn advance(self, finding: Finding) -> (next: Resolver)
        ensures
            next == self.after(finding@),
    {
        match self {
            Resolver::Opening => match finding {
                Finding::Library { handle } => if handle == 0 {
                    Resolver::Done { api_level: UNKNOWN_LEVEL, table: SymbolTable::empty() }
                } else {
                    Resolver::FindingProperty { library: handle }
                },
                _ => self,
            },
            Resolver::FindingProperty { library } => match finding {
                Finding::Symbol { address } => if address == 0 {
                    Resolver::first_entry(library, UNKNOWN_LEVEL)
                } else {
                    Resolver::ReadingProperty { library, function: address }
                },
                _ => self,
            },
            Resolver::ReadingProperty { library, function } => match finding {
                Finding::Property { returned, value } => {
                    let api_level: i32 = level_from_property(returned, value.as_slice());
                    Resolver::first_entry(library, api_level)
                },
                _ => self,
            },
            Resolver::FindingEntry { library, api_level, table, entry } => match finding {
                Finding::Symbol { address } => {
                    let table = table.with(entry, address);
                    match Operation::at(entry.index() + 1) {
                        Some(next) => Resolver::FindingEntry { library, api_level, table, entry: next },
                        None => Resolver::Done { api_level, table },
                    }
                },
                _ => self,
            },
            Resolver::Done { api_level, table } => self,
        }
    }

    fn first_entry(library: usize, api_level: i32) -> (resolver: Resolver)
        ensures
            resolver == Resolver::entries_from(library, api_level),
    {
        Resolver::FindingEntry {
            library,
            api_level,
            table: SymbolTable::empty(),
            entry: Operation::Acquire,
        }
    }

    /// The holder that the resolution gave, once it is complete.
    pub fn holder(&self) -> (holder: Option<HBHolder>)
        ensures
            match *self {
                Resolver::Done { api_level, table } => holder matches Some(h) && h.api_level
                    == api_level && h.table == table,
                _ => holder is None,
            },
    {
        match *self {
            Resolver::Done { api_level, table } => Some(HBHolder::new(api_level, table)),
            _ => None,
        }
    }
}

/// A platform, as the probes see it: what each of them would find.
pub struct Platform {
    /// The handle that opening the library gives; null where it cannot be
    /// opened.
    pub library: usize,
    /// The address of the property function; null where it is missing.
    pub property_get: usize,
    /// What the property function returns for the version key.
    pub returned: i32,
    /// What the property function leaves in the buffer.
    pub value: Seq<libc::c_char>,
    /// The address of every entry point; null where it is missing.
    pub symbols: SymbolTable,
}

impl Platform {
    /// What a probe finds on this platform.
    pub open spec fn answer(self, probe: Probe) -> FindingView {
        match probe {
            Probe::OpenLibrary => FindingView::Library { handle: self.library },
            Probe::FindSymbol { library, symbol } => match symbol {
                Symbol::PropertyGet => FindingView::Symbol { address: self.property_get },
                Symbol::Entry(op) => FindingView::Symbol { address: self.symbols.slot(op) },
            },
            Probe::ReadProperty { function } => FindingView::Property {
                returned: self.returned,
                value: self.value,
            },
        }
    }

    /// The API level that a resolution on this platform settles on: the one
    /// that the property gives, where the library and the property function
    /// are there.
    pub open spec fn api_level(self) -> i32 {
        if self.library == 0 || self.property_get == 0 {
            UNKNOWN_LEVEL
        } else {
            property_level(self.returned, chars_as_bytes(self.value))
        }
    }

    /// The entry points that a resolution on this platform finds: all that
    /// the library exports, where the library is there.
    pub open spec fn table(self) -> SymbolTable {
        if self.library == 0 {
            SymbolTable::absent()
        } else {
            self.symbols
        }
    }

    /// How many probes come before the first lookup of an entry point.
    pub open spec fn probes_before_entries(self) -> nat {
        if self.property_get == 0 {
            2
        } else {
            3
        }
    }
}

impl Resolver {
    /// The state after `steps` probes on a platform, each answered by the
    /// platform. A resolver that is done stays as it is.
    pub open spec fn run(self, platform: Platform, steps: nat) -> Resolver
        decreases steps,
    {
        if steps == 0 {
            self
        } else {
            match self.probe() {
                Some(probe) => self.after(platform.answer(probe)).run(platform, (steps - 1) as nat),
                None => self,
            }
        }
    }
}

/// A resolution is complete after fifteen probes at most, and then holds the
/// platform's API level and entry points. Where the library cannot be opened,
/// it is complete after that one probe, with the level unknown and no entry
/// point found.
pub proof fn lemma_resolution_completes(platform: Platform)
    ensures
        Resolver::Opening.run(platform, 15) == (Resolver::Done {
            api_level: platform.api_level(),
            table: platform.table(),
        }),
        platform.library == 0 ==> Resolver::Opening.run(platform, 1) == (Resolver::Done {
            api_level: UNKNOWN_LEVEL,
            table: SymbolTable::absent(),
        }),
{
    reveal_with_fuel(Resolver::run, 16);
}

/// Every entry point is looked up, whatever the API level is, as soon as the
/// library is open: the lookups follow the probes for the level, in the order
/// of the entry points.
pub proof fn lemma_every_entry_is_looked_up(platform: Platform, op: Operation)
    requires
        platform.library != 0,
    ensures
        Resolver::Opening.run(platform, (platform.probes_before_entries() + op.position()) as nat).probe()
            == Some(Probe::FindSymbol { library: platform.library, symbol: Symbol::Entry(op) }),
{
    reveal_with_fuel(Resolver::run, 16);
}

} // verus!
