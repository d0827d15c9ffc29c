//! Transactions: their kinds, their life cycle, the tables primed to outlive
//! them, and what the engine's status codes mean for reads and writes.

use vstd::prelude::*;
use crate::error::{Error, error_of_code, mdbx_result, result_of_code};
use crate::flags::{TableFlags, WriteFlags, c_enum};
use crate::sys;
use indexmap::IndexSet;

verus! {

/// Whether a transaction may write, fixed by its type.
pub trait TransactionKind: Sized {
    /// Whether every page this kind reads is clean (never modified in the
    /// transaction), so values may always be borrowed.
    spec fn spec_only_clean() -> bool;

    /// The engine flags a transaction of this kind is begun with.
    spec fn spec_open_flags() -> u32;

    /// Whether every page this kind reads is clean.
    fn only_clean() -> (r: bool)
        ensures
            r == Self::spec_only_clean(),
    ;

    /// The engine flags a transaction of this kind is begun with.
    fn open_flags() -> (r: u32)
        ensures
            r == Self::spec_open_flags(),
    ;
}

/// Read-only transactions.
#[derive(Debug)]
pub struct RO;

/// Read-write transactions.
#[derive(Debug)]
pub struct RW;

impl TransactionKind for RO {
    open spec fn spec_only_clean() -> bool {
        true
    }

    open spec fn spec_open_flags() -> u32 {
        sys::MDBX_TXN_RDONLY
    }

    fn only_clean() -> (r: bool) {
        true
    }

    fn open_flags() -> (r: u32) {
        sys::MDBX_TXN_RDONLY
    }
}

impl TransactionKind for RW {
    open spec fn spec_only_clean() -> bool {
        false
    }

    open spec fn spec_open_flags() -> u32 {
        sys::MDBX_TXN_READWRITE
    }

    fn only_clean() -> (r: bool) {
        false
    }

    fn open_flags() -> (r: u32) {
        sys::MDBX_TXN_READWRITE
    }
}

#[verifier::external_type_specification]
#[verifier::external_body]
#[verifier::reject_recursive_types(T)]
#[verifier::reject_recursive_types(S)]
pub struct ExIndexSet<T, S>(IndexSet<T, S>);

/// The table identifiers a set holds, in the order they were first inserted.
pub uninterp spec fn table_ids_of(s: IndexSet<u32>) -> Seq<u32>;

/// Relies on indexmap's `IndexSet::new`: a new set is empty.
#[verifier::external_body]
fn new_table_set() -> (r: IndexSet<u32>)
    ensures
        table_ids_of(r) == Seq::<u32>::empty(),
{
    IndexSet::new()
}

/// Relies on indexmap's `IndexSet::insert`: a value not yet in the set is
/// added after all others and `true` is returned; a value already there
/// leaves the set and its order unchanged and `false` is returned.
#[verifier::external_body]
fn insert_table_id(s: &mut IndexSet<u32>, dbi: u32) -> (r: bool)
    ensures
        r == !table_ids_of(*old(s)).contains(dbi),
        table_ids_of(*final(s)) == if r {
            table_ids_of(*old(s)).push(dbi)
        } else {
            table_ids_of(*old(s))
        },
{
    s.insert(dbi)
}

/// Relies on indexmap's `IndexSet::iter`: the values in their order.
#[verifier::external_body]
fn table_ids_in_order(s: &IndexSet<u32>) -> (r: Vec<u32>)
    ensures
        r@ == table_ids_of(*s),
{
    s.iter().copied().collect()
}

/// Where a transaction stands.
#[derive(Clone, Copy, Debug, PartialEq, Eq, Structural)]
pub enum TxnStatus {
    /// Open for use.
    Active,
    /// A read-only transaction that was reset: it holds no snapshot until
    /// renewed.
    Inactive,
    /// Committed; nothing more may be done with it.
    Committed,
    /// Aborted; nothing more may be done with it.
    Aborted,
}

/// How an engine call that begins, commits or aborts a transaction is made:
/// directly on the caller's thread, or through the environment's write slot.
#[derive(Clone, Copy, Debug, PartialEq, Eq, Structural)]
pub enum Route {
    Direct,
    ThroughWriteSlot,
}

/// The route for a transaction that may or may not write.
pub open spec fn route_for(read_only: bool) -> Route {
    if read_only {
        Route::Direct
    } else {
        Route::ThroughWriteSlot
    }
}

/// The book-keeping of one transaction: its state, whether a nested child
/// is open on it, and the tables primed to stay open after it commits.
#[derive(Debug)]
pub struct TxnState {
    status: TxnStatus,
    read_only: bool,
    open_child: bool,
    primed: IndexSet<u32>,
}

impl TxnState {
    pub closed spec fn status(&self) -> TxnStatus {
        self.status
    }

    pub closed spec fn read_only(&self) -> bool {
        self.read_only
    }

    pub closed spec fn has_open_child(&self) -> bool {
        self.open_child
    }

    /// The primed tables, in the order they were first primed.
    pub closed spec fn primed(&self) -> Seq<u32> {
        table_ids_of(self.primed)
    }

    /// Whether the transaction may be used now: active, with no nested
    /// child open on it.
    pub open spec fn usable(&self) -> bool {
        self.status() == TxnStatus::Active && !self.has_open_child()
    }

    /// A freshly begun transaction.
    pub fn new(read_only: bool) -> (r: Self)
        ensures
            r.status() == TxnStatus::Active,
            r.read_only() == read_only,
            !r.has_open_child(),
            r.primed() == Seq::<u32>::empty(),
    {
        TxnState { status: TxnStatus::Active, read_only, open_child: false, primed: new_table_set() }
    }

    /// Where the transaction stands.
    pub fn current_status(&self) -> (r: TxnStatus)
        ensures
            r == self.status(),
    {
        self.status
    }

    /// Whether the transaction may be used now; [Error::BadTxn] otherwise.
    pub fn check_usable(&self) -> (r: Result<(), Error>)
        ensures
            r is Ok <==> self.usable(),
            r is Err ==> r == Err::<(), Error>(Error::BadTxn),
    {
        if self.status == TxnStatus::Active && !self.open_child {
            Ok(())
        } else {
            Err(Error::BadTxn)
        }
    }

    /// Resets an active read-only transaction, giving up its snapshot but
    /// keeping its reader slot. Anything else is [Error::BadTxn] and changes
    /// nothing.
    pub fn reset(&mut self) -> (r: Result<(), Error>)
        ensures
            r is Ok <==> (old(self).read_only() && old(self).usable()),
            r is Err ==> r == Err::<(), Error>(Error::BadTxn),
            final(self).status() == if r is Ok {
                TxnStatus::Inactive
            } else {
                old(self).status()
            },
            final(self).read_only() == old(self).read_only(),
            final(self).has_open_child() == old(self).has_open_child(),
            final(self).primed() == old(self).primed(),
    {
        if self.read_only && self.status == TxnStatus::Active && !self.open_child {
            self.status = TxnStatus::Inactive;
            Ok(())
        } else {
            Err(Error::BadTxn)
        }
    }

    /// Renews a reset read-only transaction on a fresh snapshot. Anything
    /// else is [Error::BadTxn] and changes nothing.
    pub fn renew(&mut self) -> (r: Result<(), Error>)
        ensures
            r is Ok <==> (old(self).read_only() && old(self).status() == TxnStatus::Inactive),
            r is Err ==> r == Err::<(), Error>(Error::BadTxn),
            final(self).status() == if r is Ok {
                TxnStatus::Active
            } else {
                old(self).status()
            },
            final(self).read_only() == old(self).read_only(),
            final(self).has_open_child() == old(self).has_open_child(),
            final(self).primed() == old(self).primed(),
    {
        if self.read_only && self.status == TxnStatus::Inactive {
            self.status = TxnStatus::Active;
            Ok(())
        } else {
            Err(Error::BadTxn)
        }
    }

    /// Records that a nested transaction is begun on this one. Only a usable
    /// read-write transaction may have a child; anything else is
    /// [Error::BadTxn] and changes nothing. Until the child ends, this
    /// transaction is not usable.
    pub fn begin_child(&mut self) -> (r: Result<(), Error>)
        ensures
            r is Ok <==> (!old(self).read_only() && old(self).usable()),
            r is Err ==> r == Err::<(), Error>(Error::BadTxn),
            final(self).has_open_child() == (r is Ok || old(self).has_open_child()),
            final(self).status() == old(self).status(),
            final(self).read_only() == old(self).read_only(),
            final(self).primed() == old(self).primed(),
    {
        if !self.read_only && self.status == TxnStatus::Active && !self.open_child {
            self.open_child = true;
            Ok(())
        } else {
            Err(Error::BadTxn)
        }
    }

    /// Records that the nested child committed or aborted; this transaction
    /// is usable again.
    pub fn end_child(&mut self)
        ensures
            !final(self).has_open_child(),
            final(self).status() == old(self).status(),
            final(self).read_only() == old(self).read_only(),
            final(self).primed() == old(self).primed(),
    {
        self.open_child = false;
    }

    /// Marks a table to stay open after the commit. A table primed twice is
    /// kept once, at its first place.
    pub fn prime_for_permaopen(&mut self, dbi: u32)
        ensures
            final(self).primed() == if old(self).primed().contains(dbi) {
                old(self).primed()
            } else {
                old(self).primed().push(dbi)
            },
            final(self).status() == old(self).status(),
            final(self).read_only() == old(self).read_only(),
            final(self).has_open_child() == old(self).has_open_child(),
    {
        insert_table_id(&mut self.primed, dbi);
    }

    /// How the commit is to be made: directly for a read-only transaction,
    /// through the write slot otherwise. Not usable: [Error::BadTxn].
    pub fn commit_route(&self) -> (r: Result<Route, Error>)
        ensures
            r is Ok <==> self.usable(),
            r is Err ==> r == Err::<Route, Error>(Error::BadTxn),
            r matches Ok(route) ==> route == route_for(self.read_only()),
    {
        if self.status == TxnStatus::Active && !self.open_child {
            if self.read_only {
                Ok(Route::Direct)
            } else {
                Ok(Route::ThroughWriteSlot)
            }
        } else {
            Err(Error::BadTxn)
        }
    }

    /// Records the commit whose status code is `code`. The transaction is
    /// over whatever the code says. On success, returns the engine's "true"
    /// signal and the primed tables, in the order they were primed.
    pub fn finish_commit(&mut self, code: i32) -> (r: Result<(bool, Vec<u32>), Error>)
        requires
            old(self).usable(),
        ensures
            final(self).status() == TxnStatus::Committed,
            final(self).read_only() == old(self).read_only(),
            final(self).primed() == old(self).primed(),
            match result_of_code(code) {
                Ok(v) => r matches Ok(p) && p.0 == v && p.1@ == old(self).primed(),
                Err(e) => r == Err::<(bool, Vec<u32>), Error>(e),
            },
    {
        self.status = TxnStatus::Committed;
        match mdbx_result(code) {
            Ok(v) => Ok((v, table_ids_in_order(&self.primed))),
            Err(e) => Err(e),
        }
    }

    /// What ending the transaction without a commit requires: nothing once
    /// it is committed or aborted; otherwise an abort, made directly for a
    /// read-only transaction and through the write slot otherwise.
    pub fn abort_route(&self) -> (r: Option<Route>)
        ensures
            r is None <==> (self.status() == TxnStatus::Committed || self.status()
                == TxnStatus::Aborted),
            r matches Some(route) ==> route == route_for(self.read_only()),
    {
        match self.status {
            TxnStatus::Committed | TxnStatus::Aborted => None,
            _ => if self.read_only {
                Some(Route::Direct)
            } else {
                Some(Route::ThroughWriteSlot)
            },
        }
    }

    /// Records that the transaction was aborted.
    pub fn finish_abort(&mut self)
        ensures
            final(self).status() == TxnStatus::Aborted,
            final(self).read_only() == old(self).read_only(),
            final(self).primed() == old(self).primed(),
    {
        self.status = TxnStatus::Aborted;
    }
}

/// The outcome of a single-key lookup: the value, `None` when the key is
/// absent, or the engine's error.
pub fn get_outcome(code: i32, value: Vec<u8>) -> (r: Result<Option<Vec<u8>>, Error>)
    ensures
        code == sys::MDBX_SUCCESS ==> (r matches Ok(Some(v)) && v@ == value@),
        code == sys::MDBX_NOTFOUND ==> r matches Ok(None),
        code != sys::MDBX_SUCCESS && code != sys::MDBX_NOTFOUND ==> r == Err::<
            Option<Vec<u8>>,
            Error,
        >(error_of_code(code)),
{
    if code == sys::MDBX_SUCCESS {
        Ok(Some(value))
    } else if code == sys::MDBX_NOTFOUND {
        Ok(None)
    } else {
        Err(Error::from_err_code(code))
    }
}

/// The outcome of a delete: whether a matching entry was there, or the
/// engine's error.
pub fn del_outcome(code: i32) -> (r: Result<bool, Error>)
    ensures
        match result_of_code(code) {
            Ok(_) => r == Ok::<bool, Error>(true),
            Err(Error::NotFound) => r == Ok::<bool, Error>(false),
            Err(e) => r == Err::<bool, Error>(e),
        },
{
    match mdbx_result(code) {
        Ok(_) => Ok(true),
        Err(Error::NotFound) => Ok(false),
        Err(e) => Err(e),
    }
}

/// Whether a value read by a transaction of kind `K` must be copied out
/// rather than borrowed: never for a kind that only reads clean pages;
/// otherwise as the engine's dirtiness check (status `dirty`) says, which
/// is asked exactly for the other kind.
pub fn value_needs_copy<K: TransactionKind>(dirty: Option<i32>) -> (r: Result<bool, Error>)
    requires
        K::spec_only_clean() <==> dirty is None,
    ensures
        K::spec_only_clean() ==> r == Ok::<bool, Error>(false),
        dirty matches Some(code) ==> r == result_of_code(code),
{
    if K::only_clean() {
        Ok(false)
    } else {
        mdbx_result(dirty.unwrap())
    }
}

/// The flag word of a reserving write: the given flags plus "reserve".
pub fn reserve_flags(flags: WriteFlags) -> (r: u32)
    ensures
        r == flags.spec_bits() | sys::MDBX_RESERVE,
{
    c_enum(flags.bits() | sys::MDBX_RESERVE)
}

/// The flags a table is created with: the given flags plus "create".
pub fn create_table_flags(flags: TableFlags) -> (r: TableFlags)
    ensures
        r.spec_bits() == flags.spec_bits() | sys::MDBX_CREATE,
{
    flags.union(TableFlags::create())
}

} // verus!
