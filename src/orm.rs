//! Typed tables: how keys and values are turned into bytes and back, and
//! the table set an environment is created with.

use vstd::prelude::*;
use crate::database::DatabaseOptions;
use crate::error::Error;
use crate::flags::{Mode, TableFlags};
use crate::sys;

verus! {

/// A type that is stored as bytes.
pub trait Encodable: Sized {
    /// The bytes a value is stored as.
    spec fn spec_encode(&self) -> Seq<u8>;

    /// The bytes a value is stored as.
    fn encode(self) -> (r: Vec<u8>)
        ensures
            r@ == self.spec_encode(),
    ;
}

/// A type that is read back from stored bytes.
pub trait Decodable: Sized {
    /// Whether `b` is the encoding of some value.
    spec fn spec_decodable(b: Seq<u8>) -> bool;

    /// Whether `b` decodes to `v`.
    spec fn spec_decodes_to(b: Seq<u8>, v: Self) -> bool;

    /// Reads a value back; bytes that encode no value are a
    /// [Error::DecodeError].
    fn decode(b: &[u8]) -> (r: Result<Self, Error>)
        ensures
            Self::spec_decodable(b@) <==> r is Ok,
            r matches Ok(v) ==> Self::spec_decodes_to(b@, v),
            r matches Err(e) ==> e is DecodeError,
    ;
}

impl Encodable for Vec<u8> {
    open spec fn spec_encode(&self) -> Seq<u8> {
        self@
    }

    fn encode(self) -> (r: Vec<u8>) {
        self
    }
}

impl Decodable for Vec<u8> {
    open spec fn spec_decodable(b: Seq<u8>) -> bool {
        true
    }

    open spec fn spec_decodes_to(b: Seq<u8>, v: Self) -> bool {
        v@ == b
    }

    fn decode(b: &[u8]) -> (r: Result<Self, Error>) {
        Ok(vstd::slice::slice_to_vec(b))
    }
}

/// A named table with typed keys and values.
pub trait Table {
    type Key: Encodable + Decodable;
    type Value: Encodable + Decodable;
    type SeekKey: Encodable;

    /// The table's name in the environment.
    fn name() -> &'static str;
}

/// A failure to read a typed value: the engine's own error, or the
/// decoder's.
#[derive(Debug)]
pub enum DecodeError<E> {
    Internal(Error),
    Decode(E),
}

/// A typed table seen with raw bytes for keys and values.
#[derive(Debug)]
pub struct UntypedTable<T: Table>(pub T);

impl<T: Table> Table for UntypedTable<T> {
    type Key = Vec<u8>;
    type Value = Vec<u8>;
    type SeekKey = Vec<u8>;

    fn name() -> &'static str {
        T::name()
    }
}

impl<T: Table> UntypedTable<T> {
    /// The bytes a key of the typed table is stored as.
    pub fn encode_key(key: T::Key) -> (r: Vec<u8>)
        ensures
            r@ == key.spec_encode(),
    {
        key.encode()
    }

    /// A key of the typed table read back from its bytes.
    pub fn decode_key(encoded: &[u8]) -> (r: Result<T::Key, Error>)
        ensures
            T::Key::spec_decodable(encoded@) <==> r is Ok,
            r matches Ok(k) ==> T::Key::spec_decodes_to(encoded@, k),
            r matches Err(e) ==> e is DecodeError,
    {
        T::Key::decode(encoded)
    }

    /// The bytes a value of the typed table is stored as.
    pub fn encode_value(value: T::Value) -> (r: Vec<u8>)
        ensures
            r@ == value.spec_encode(),
    {
        value.encode()
    }

    /// A value of the typed table read back from its bytes.
    pub fn decode_value(encoded: &[u8]) -> (r: Result<T::Value, Error>)
        ensures
            T::Value::spec_decodable(encoded@) <==> r is Ok,
            r matches Ok(v) ==> T::Value::spec_decodes_to(encoded@, v),
            r matches Err(e) ==> e is DecodeError,
    {
        T::Value::decode(encoded)
    }

    /// The bytes a seek key of the typed table is stored as.
    pub fn encode_seek_key(value: T::SeekKey) -> (r: Vec<u8>)
        ensures
            r@ == value.spec_encode(),
    {
        value.encode()
    }
}

/// How a table of the chart is created.
#[derive(Clone, Copy, Debug, Default, PartialEq, Eq, Structural)]
pub struct TableSettings {
    pub dup_sort: bool,
}

impl TableSettings {
    /// The flags the table is created with: duplicate-sorted values when
    /// asked for, no flag otherwise.
    pub fn table_flags(&self) -> (r: TableFlags)
        ensures
            r.spec_bits() == if self.dup_sort {
                sys::MDBX_DUPSORT
            } else {
                0
            },
    {
        if self.dup_sort {
            TableFlags::dup_sort()
        } else {
            TableFlags::empty()
        }
    }
}

/// Options for an environment holding a chart of `chart_len` tables: room
/// for every table of the chart, and for at least one.
pub fn chart_options(options: DatabaseOptions, chart_len: usize) -> (r: DatabaseOptions)
    ensures
        r == (DatabaseOptions {
            max_tables: Some(if chart_len >= 1 {
                chart_len as u64
            } else {
                1u64
            }),
            ..options
        }),
{
    let n: u64 = if chart_len >= 1 {
        chart_len as u64
    } else {
        1
    };
    DatabaseOptions { max_tables: Some(n), ..options }
}

/// The same options, for opening an existing chart read-only.
pub fn read_only_options(options: DatabaseOptions) -> (r: DatabaseOptions)
    ensures
        r == (DatabaseOptions { mode: Mode::ReadOnly, ..options }),
{
    DatabaseOptions { mode: Mode::ReadOnly, ..options }
}

} // verus!
