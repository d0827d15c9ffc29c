use libmdbx::database::{begin_write_step, write_access, BUSY_BACKOFF_MILLIS};
use libmdbx::transaction::{create_table_flags, del_outcome, get_outcome, reserve_flags, value_needs_copy};
use libmdbx::sys;
use libmdbx::{BeginStep, Error, Route, TableFlags, TxnState, TxnStatus, WriteFlags, WriteSlot, RO, RW};

#[test]
fn one_writer_at_a_time() {
    let mut slot = WriteSlot::new();
    assert!(slot.is_free());
    assert!(slot.try_acquire(1));
    assert!(!slot.try_acquire(2));
    assert!(!slot.release(2));
    assert!(!slot.is_free());
    assert!(slot.release(1));
    assert!(slot.try_acquire(2));
    assert!(!slot.try_acquire(1));
}

#[test]
fn begin_steps() {
    assert_eq!(begin_write_step(0), BeginStep::Started);
    assert_eq!(begin_write_step(sys::MDBX_BUSY), BeginStep::RetryAfterBackoff);
    assert_eq!(begin_write_step(sys::MDBX_READERS_FULL), BeginStep::Failed(Error::ReadersFull));
    assert_eq!(BUSY_BACKOFF_MILLIS, 250);
    assert_eq!(write_access(true), Ok(()));
    assert_eq!(write_access(false), Err(Error::Access));
}

#[test]
fn read_only_reset_and_renew() {
    let mut t = TxnState::new(true);
    assert_eq!(t.current_status(), TxnStatus::Active);
    assert_eq!(t.reset(), Ok(()));
    assert_eq!(t.current_status(), TxnStatus::Inactive);
    assert_eq!(t.check_usable(), Err(Error::BadTxn));
    assert_eq!(t.reset(), Err(Error::BadTxn));
    assert_eq!(t.renew(), Ok(()));
    assert_eq!(t.check_usable(), Ok(()));
    assert_eq!(t.renew(), Err(Error::BadTxn));
    assert_eq!(t.begin_child(), Err(Error::BadTxn));
}

#[test]
fn write_transaction_rules() {
    let mut t = TxnState::new(false);
    assert_eq!(t.reset(), Err(Error::BadTxn));
    assert_eq!(t.begin_child(), Ok(()));
    assert_eq!(t.check_usable(), Err(Error::BadTxn));
    assert_eq!(t.commit_route(), Err(Error::BadTxn));
    t.end_child();
    assert_eq!(t.commit_route(), Ok(Route::ThroughWriteSlot));
    assert_eq!(t.abort_route(), Some(Route::ThroughWriteSlot));
}

#[test]
fn commit_returns_primed_tables_in_order() {
    let mut t = TxnState::new(true);
    t.prime_for_permaopen(7);
    t.prime_for_permaopen(3);
    t.prime_for_permaopen(7);
    assert_eq!(t.commit_route(), Ok(Route::Direct));
    assert_eq!(t.finish_commit(0), Ok((false, vec![7, 3])));
    assert_eq!(t.current_status(), TxnStatus::Committed);
    assert_eq!(t.abort_route(), None);
    assert_eq!(t.check_usable(), Err(Error::BadTxn));
}

#[test]
fn failed_commit_still_ends_the_transaction() {
    let mut t = TxnState::new(false);
    assert_eq!(t.finish_commit(sys::MDBX_MAP_FULL), Err(Error::MapFull));
    assert_eq!(t.current_status(), TxnStatus::Committed);
    let mut u = TxnState::new(true);
    assert_eq!(u.abort_route(), Some(Route::Direct));
    u.finish_abort();
    assert_eq!(u.current_status(), TxnStatus::Aborted);
    assert_eq!(u.abort_route(), None);
}

#[test]
fn read_and_write_outcomes() {
    assert_eq!(get_outcome(0, b"v".to_vec()), Ok(Some(b"v".to_vec())));
    assert_eq!(get_outcome(sys::MDBX_NOTFOUND, Vec::new()), Ok(None));
    assert_eq!(get_outcome(sys::MDBX_BAD_DBI, Vec::new()), Err(Error::BadDbi));
    assert_eq!(get_outcome(-1, Vec::new()), Err(Error::Other(-1)));
    assert_eq!(del_outcome(0), Ok(true));
    assert_eq!(del_outcome(sys::MDBX_NOTFOUND), Ok(false));
    assert_eq!(del_outcome(sys::MDBX_EACCESS), Err(Error::Access));
}

#[test]
fn copy_decisions() {
    assert_eq!(value_needs_copy::<RO>(None), Ok(false));
    assert_eq!(value_needs_copy::<RW>(Some(-1)), Ok(true));
    assert_eq!(value_needs_copy::<RW>(Some(0)), Ok(false));
    assert_eq!(value_needs_copy::<RW>(Some(sys::MDBX_BAD_TXN)), Err(Error::BadTxn));
}

#[test]
fn derived_flag_words() {
    assert_eq!(reserve_flags(WriteFlags::no_overwrite()), 16 | 65536);
    assert_eq!(create_table_flags(TableFlags::dup_sort()).bits(), 4 | 262144);
    assert_eq!(create_table_flags(TableFlags::empty()).bits(), sys::MDBX_CREATE);
}
