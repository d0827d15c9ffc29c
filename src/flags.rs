//! Typed option words: sync modes, open modes, table flags and write flags.

use vstd::prelude::*;
use crate::sys;

verus! {

/// How durably commits reach the disk.
#[derive(Clone, Copy, Debug, PartialEq, Eq, Structural)]
pub enum SyncMode {
    /// Data and then metadata are flushed at each commit.
    Durable,
    /// Data is flushed at each commit; the meta page is not.
    NoMetaSync,
    /// Nothing is flushed at commit, but the last steady commit is kept.
    SafeNoSync,
    /// Nothing is flushed at commit and earlier steady commits may be lost.
    UtterlyNoSync,
}

impl Default for SyncMode {
    fn default() -> (r: Self)
        ensures
            r == SyncMode::Durable,
    {
        SyncMode::Durable
    }
}

/// Settings that only apply to an environment opened for writing.
#[derive(Clone, Copy, Debug, PartialEq, Eq, Structural)]
pub struct ReadWriteOptions {
    pub sync_mode: SyncMode,
    pub min_size: Option<isize>,
    pub max_size: Option<isize>,
    pub growth_step: Option<isize>,
    pub shrink_threshold: Option<isize>,
}

impl Default for ReadWriteOptions {
    fn default() -> (r: Self)
        ensures
            r == (ReadWriteOptions {
                sync_mode: SyncMode::Durable,
                min_size: None,
                max_size: None,
                growth_step: None,
                shrink_threshold: None,
            }),
    {
        ReadWriteOptions {
            sync_mode: SyncMode::Durable,
            min_size: None,
            max_size: None,
            growth_step: None,
            shrink_threshold: None,
        }
    }
}

/// Whether an environment is opened for reading only or for writing too.
#[derive(Clone, Copy, Debug, PartialEq, Eq, Structural)]
pub enum Mode {
    ReadOnly,
    ReadWrite(ReadWriteOptions),
}

impl Default for Mode {
    fn default() -> (r: Self)
        ensures
            r == Mode::ReadWrite(ReadWriteOptions {
                sync_mode: SyncMode::Durable,
                min_size: None,
                max_size: None,
                growth_step: None,
                shrink_threshold: None,
            }),
    {
        Mode::ReadWrite(ReadWriteOptions::default())
    }
}

/// Every bit that a [TableFlags] value may hold.
pub const TABLE_FLAGS_ALL: u32 = 2 | 4 | 8 | 16 | 32 | 64 | 262144 | 1073741824;

/// Every bit that a [WriteFlags] value may hold.
pub const WRITE_FLAGS_ALL: u32 = 16 | 32 | 64 | 128 | 65536 | 131072 | 262144 | 524288;

/// Options of a table: key order, duplicate values, creation.
#[derive(Clone, Copy, Debug, Default, PartialEq, Eq, Hash, Structural)]
pub struct TableFlags {
    bits: u32,
}

/// Options of a single write.
#[derive(Clone, Copy, Debug, Default, PartialEq, Eq, Hash, Structural)]
pub struct WriteFlags {
    bits: u32,
}

impl TableFlags {
    /// The raw flag word.
    pub closed spec fn spec_bits(self) -> u32 {
        self.bits
    }

    /// No flag set.
    pub fn empty() -> (r: Self)
        ensures
            r.spec_bits() == 0,
    {
        TableFlags { bits: 0 }
    }

    /// Keys compare as strings read from the end.
    pub fn reverse_key() -> (r: Self)
        ensures
            r.spec_bits() == sys::MDBX_REVERSEKEY,
    {
        TableFlags { bits: sys::MDBX_REVERSEKEY }
    }

    /// A key may hold several values, kept sorted.
    pub fn dup_sort() -> (r: Self)
        ensures
            r.spec_bits() == sys::MDBX_DUPSORT,
    {
        TableFlags { bits: sys::MDBX_DUPSORT }
    }

    /// Keys are native unsigned integers of one fixed size.
    pub fn integer_key() -> (r: Self)
        ensures
            r.spec_bits() == sys::MDBX_INTEGERKEY,
    {
        TableFlags { bits: sys::MDBX_INTEGERKEY }
    }

    /// With duplicates: all values of a key have one size.
    pub fn dup_fixed() -> (r: Self)
        ensures
            r.spec_bits() == sys::MDBX_DUPFIXED,
    {
        TableFlags { bits: sys::MDBX_DUPFIXED }
    }

    /// With duplicates: values are native unsigned integers.
    pub fn integer_dup() -> (r: Self)
        ensures
            r.spec_bits() == sys::MDBX_INTEGERDUP,
    {
        TableFlags { bits: sys::MDBX_INTEGERDUP }
    }

    /// With duplicates: values compare as strings read from the end.
    pub fn reverse_dup() -> (r: Self)
        ensures
            r.spec_bits() == sys::MDBX_REVERSEDUP,
    {
        TableFlags { bits: sys::MDBX_REVERSEDUP }
    }

    /// Create the table if it does not exist.
    pub fn create() -> (r: Self)
        ensures
            r.spec_bits() == sys::MDBX_CREATE,
    {
        TableFlags { bits: sys::MDBX_CREATE }
    }

    /// Take the flags the table already has.
    pub fn accede() -> (r: Self)
        ensures
            r.spec_bits() == sys::MDBX_DB_ACCEDE,
    {
        TableFlags { bits: sys::MDBX_DB_ACCEDE }
    }

    /// The raw flag word.
    pub fn bits(&self) -> (r: u32)
        ensures
            r == self.spec_bits(),
    {
        self.bits
    }

    /// The flags among `bits` that a table may have; other bits are dropped.
    pub fn from_bits_truncate(bits: u32) -> (r: Self)
        ensures
            r.spec_bits() == bits & TABLE_FLAGS_ALL,
    {
        TableFlags { bits: bits & TABLE_FLAGS_ALL }
    }

    /// The flags set in either value.
    pub fn union(self, other: Self) -> (r: Self)
        ensures
            r.spec_bits() == self.spec_bits() | other.spec_bits(),
    {
        TableFlags { bits: self.bits | other.bits }
    }

    /// Whether every flag of `other` is set here.
    pub fn contains(&self, other: Self) -> (r: bool)
        ensures
            r == (self.spec_bits() & other.spec_bits() == other.spec_bits()),
    {
        self.bits & other.bits == other.bits
    }
}

impl WriteFlags {
    /// The raw flag word.
    pub closed spec fn spec_bits(self) -> u32 {
        self.bits
    }

    /// No flag set.
    pub fn empty() -> (r: Self)
        ensures
            r.spec_bits() == 0,
    {
        WriteFlags { bits: 0 }
    }

    /// Insert or replace (the default behaviour, no bit set).
    pub fn upsert() -> (r: Self)
        ensures
            r.spec_bits() == sys::MDBX_UPSERT,
    {
        WriteFlags { bits: sys::MDBX_UPSERT }
    }

    /// Fail if the key already exists.
    pub fn no_overwrite() -> (r: Self)
        ensures
            r.spec_bits() == sys::MDBX_NOOVERWRITE,
    {
        WriteFlags { bits: sys::MDBX_NOOVERWRITE }
    }

    /// With duplicates: fail if the key/value pair already exists.
    pub fn no_dup_data() -> (r: Self)
        ensures
            r.spec_bits() == sys::MDBX_NODUPDATA,
    {
        WriteFlags { bits: sys::MDBX_NODUPDATA }
    }

    /// Replace the value of the row under the cursor.
    pub fn current() -> (r: Self)
        ensures
            r.spec_bits() == sys::MDBX_CURRENT,
    {
        WriteFlags { bits: sys::MDBX_CURRENT }
    }

    /// With duplicates: act on every value of the key.
    pub fn alldups() -> (r: Self)
        ensures
            r.spec_bits() == sys::MDBX_ALLDUPS,
    {
        WriteFlags { bits: sys::MDBX_ALLDUPS }
    }

    /// Let the engine allocate the value for the caller to fill.
    pub fn reserve() -> (r: Self)
        ensures
            r.spec_bits() == sys::MDBX_RESERVE,
    {
        WriteFlags { bits: sys::MDBX_RESERVE }
    }

    /// The key is greater than every stored key.
    pub fn append() -> (r: Self)
        ensures
            r.spec_bits() == sys::MDBX_APPEND,
    {
        WriteFlags { bits: sys::MDBX_APPEND }
    }

    /// With duplicates: the value is greater than every value of the key.
    pub fn append_dup() -> (r: Self)
        ensures
            r.spec_bits() == sys::MDBX_APPENDDUP,
    {
        WriteFlags { bits: sys::MDBX_APPENDDUP }
    }

    /// With fixed-size duplicates: store several values at once.
    pub fn multiple() -> (r: Self)
        ensures
            r.spec_bits() == sys::MDBX_MULTIPLE,
    {
        WriteFlags { bits: sys::MDBX_MULTIPLE }
    }

    /// The raw flag word.
    pub fn bits(&self) -> (r: u32)
        ensures
            r == self.spec_bits(),
    {
        self.bits
    }

    /// The flags among `bits` that a write may have; other bits are dropped.
    pub fn from_bits_truncate(bits: u32) -> (r: Self)
        ensures
            r.spec_bits() == bits & WRITE_FLAGS_ALL,
    {
        WriteFlags { bits: bits & WRITE_FLAGS_ALL }
    }

    /// The flags set in either value.
    pub fn union(self, other: Self) -> (r: Self)
        ensures
            r.spec_bits() == self.spec_bits() | other.spec_bits(),
    {
        WriteFlags { bits: self.bits | other.bits }
    }

    /// Whether every flag of `other` is set here.
    pub fn contains(&self, other: Self) -> (r: bool)
        ensures
            r == (self.spec_bits() & other.spec_bits() == other.spec_bits()),
    {
        self.bits & other.bits == other.bits
    }
}

/// A flag word as the engine's C enums take it.
pub fn c_enum(rust_value: u32) -> (r: u32)
    ensures
        r == rust_value,
{
    rust_value
}

} // verus!
