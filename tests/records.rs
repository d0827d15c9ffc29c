use libmdbx::freelist::{free_page_count, freelist_total};
use libmdbx::latency::time_to_nanos;
use libmdbx::orm::{Table, UntypedTable};
use libmdbx::sys::{MDBX_commit_latency, MDBX_envinfo, MDBX_stat};
use libmdbx::{CommitLatency, Error, Info, Stat};

#[test]
fn freelist_of_no_records_is_zero() {
    assert_eq!(freelist_total(&Vec::new()), Ok(0));
}

#[test]
fn freelist_sums_counts() {
    let a = 5u32.to_ne_bytes().to_vec();
    let mut b = 70000u32.to_ne_bytes().to_vec();
    b.extend_from_slice(&[1, 2, 3, 4, 5, 6, 7, 8]);
    assert_eq!(free_page_count(&b), Ok(70000));
    assert_eq!(freelist_total(&vec![a, b]), Ok(70005));
}

#[test]
fn short_freelist_record_is_corrupted() {
    assert_eq!(free_page_count(&[1, 2, 3]), Err(Error::Corrupted));
    let ok = 1u32.to_ne_bytes().to_vec();
    assert_eq!(freelist_total(&vec![ok, vec![0, 0]]), Err(Error::Corrupted));
}

#[test]
fn stat_accessors() {
    let s = Stat(MDBX_stat {
        ms_psize: 4096,
        ms_depth: 2,
        ms_branch_pages: 1,
        ms_leaf_pages: 3,
        ms_overflow_pages: 2,
        ms_entries: 64,
        ms_mod_txnid: 9,
    });
    assert_eq!(s.page_size(), 4096);
    assert_eq!(s.depth(), 2);
    assert_eq!(s.branch_pages(), 1);
    assert_eq!(s.leaf_pages(), 3);
    assert_eq!(s.overflow_pages(), 2);
    assert_eq!(s.entries(), 64);
    assert_eq!(s.total_size(), 6 * 4096);
    assert_eq!(s.checked_total_size(), Some(6 * 4096));
    let huge = Stat(MDBX_stat { ms_psize: 4096, ms_leaf_pages: u64::MAX / 2, ..MDBX_stat::default() });
    assert_eq!(huge.checked_total_size(), None);
    let empty_pages = Stat(MDBX_stat { ms_psize: 0, ms_leaf_pages: u64::MAX, ..MDBX_stat::default() });
    assert_eq!(empty_pages.checked_total_size(), Some(0));
}

#[test]
fn info_accessors() {
    let mut raw = MDBX_envinfo::default();
    raw.mi_geo.lower = 1024;
    raw.mi_mapsize = 1 << 20;
    raw.mi_last_pgno = 17;
    raw.mi_recent_txnid = 4;
    raw.mi_maxreaders = 126;
    raw.mi_numreaders = 2;
    let info = Info(raw);
    assert_eq!(info.geometry().min(), 1024);
    assert_eq!(info.map_size(), 1 << 20);
    assert_eq!(info.last_pgno(), 17);
    assert_eq!(info.last_txnid(), 4);
    assert_eq!(info.max_readers(), 126);
    assert_eq!(info.num_readers(), 2);
}

#[test]
fn latency_units() {
    assert_eq!(time_to_nanos(0), 0);
    assert_eq!(time_to_nanos(65536), 65536 * 15258);
    let mut raw = MDBX_commit_latency::default();
    raw.whole = 2;
    raw.write = 65536;
    let l = CommitLatency(raw);
    assert_eq!(l.whole().as_nanos(), 30516);
    assert_eq!(l.write().as_nanos(), 65536 * 15258);
    assert_eq!(CommitLatency::new().sync().as_nanos(), 0);
}

#[derive(Debug)]
struct Blobs;

impl Table for Blobs {
    type Key = Vec<u8>;
    type Value = Vec<u8>;
    type SeekKey = Vec<u8>;

    fn name() -> &'static str {
        "Blobs"
    }
}

#[test]
fn untyped_table_bytes() {
    assert_eq!(UntypedTable::<Blobs>::encode_key(b"k".to_vec()), b"k".to_vec());
    assert_eq!(UntypedTable::<Blobs>::decode_key(b"key"), Ok(b"key".to_vec()));
    assert_eq!(UntypedTable::<Blobs>::encode_value(vec![1, 2]), vec![1, 2]);
    assert_eq!(UntypedTable::<Blobs>::decode_value(&[3]), Ok(vec![3]));
    assert_eq!(UntypedTable::<Blobs>::encode_seek_key(Vec::new()), Vec::<u8>::new());
    assert_eq!(<UntypedTable<Blobs> as Table>::name(), "Blobs");
}
