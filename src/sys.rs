//! The engine's C-level vocabulary: status codes, flag words, cursor
//! operations and the records the engine fills in.

use vstd::prelude::*;

verus! {

/// Status code of a successful call.
pub const MDBX_SUCCESS: i32 = 0;
/// Successful call that also reports a "true" outcome.
pub const MDBX_RESULT_TRUE: i32 = -1;
pub const MDBX_KEYEXIST: i32 = -30799;
pub const MDBX_NOTFOUND: i32 = -30798;
pub const MDBX_PAGE_NOTFOUND: i32 = -30797;
pub const MDBX_CORRUPTED: i32 = -30796;
pub const MDBX_PANIC: i32 = -30795;
pub const MDBX_VERSION_MISMATCH: i32 = -30794;
pub const MDBX_INVALID: i32 = -30793;
pub const MDBX_MAP_FULL: i32 = -30792;
pub const MDBX_DBS_FULL: i32 = -30791;
pub const MDBX_READERS_FULL: i32 = -30790;
pub const MDBX_TXN_FULL: i32 = -30788;
pub const MDBX_CURSOR_FULL: i32 = -30787;
pub const MDBX_PAGE_FULL: i32 = -30786;
pub const MDBX_UNABLE_EXTEND_MAPSIZE: i32 = -30785;
pub const MDBX_INCOMPATIBLE: i32 = -30784;
pub const MDBX_BAD_RSLOT: i32 = -30783;
pub const MDBX_BAD_TXN: i32 = -30782;
pub const MDBX_BAD_VALSIZE: i32 = -30781;
pub const MDBX_BAD_DBI: i32 = -30780;
pub const MDBX_PROBLEM: i32 = -30779;
pub const MDBX_BUSY: i32 = -30778;
pub const MDBX_EMULTIVAL: i32 = -30421;
pub const MDBX_WANNA_RECOVERY: i32 = -30419;
pub const MDBX_EKEYMISMATCH: i32 = -30418;
pub const MDBX_TOO_LARGE: i32 = -30417;
/// The engine's "no data at this position" code (the Linux `ENODATA`).
pub const MDBX_ENODATA: i32 = 61;
pub const MDBX_EINVAL: i32 = 22;
pub const MDBX_EACCESS: i32 = 13;

/// Environment flags.
pub const MDBX_ENV_DEFAULTS: u32 = 0;
pub const MDBX_NOSUBDIR: u32 = 16384;
pub const MDBX_RDONLY: u32 = 131072;
pub const MDBX_EXCLUSIVE: u32 = 4194304;
pub const MDBX_ACCEDE: u32 = 1073741824;
pub const MDBX_WRITEMAP: u32 = 524288;
pub const MDBX_NOTLS: u32 = 2097152;
pub const MDBX_NORDAHEAD: u32 = 8388608;
pub const MDBX_NOMEMINIT: u32 = 16777216;
pub const MDBX_COALESCE: u32 = 33554432;
pub const MDBX_LIFORECLAIM: u32 = 67108864;
pub const MDBX_SYNC_DURABLE: u32 = 0;
pub const MDBX_NOMETASYNC: u32 = 262144;
pub const MDBX_SAFE_NOSYNC: u32 = 65536;
pub const MDBX_UTTERLY_NOSYNC: u32 = 1114112;

/// Transaction flags.
pub const MDBX_TXN_READWRITE: u32 = 0;
pub const MDBX_TXN_RDONLY: u32 = 131072;

/// Table flags.
pub const MDBX_DB_DEFAULTS: u32 = 0;
pub const MDBX_REVERSEKEY: u32 = 2;
pub const MDBX_DUPSORT: u32 = 4;
pub const MDBX_INTEGERKEY: u32 = 8;
pub const MDBX_DUPFIXED: u32 = 16;
pub const MDBX_INTEGERDUP: u32 = 32;
pub const MDBX_REVERSEDUP: u32 = 64;
pub const MDBX_CREATE: u32 = 262144;
pub const MDBX_DB_ACCEDE: u32 = 1073741824;

/// Write flags.
pub const MDBX_UPSERT: u32 = 0;
pub const MDBX_NOOVERWRITE: u32 = 16;
pub const MDBX_NODUPDATA: u32 = 32;
pub const MDBX_CURRENT: u32 = 64;
pub const MDBX_ALLDUPS: u32 = 128;
pub const MDBX_RESERVE: u32 = 65536;
pub const MDBX_APPEND: u32 = 131072;
pub const MDBX_APPENDDUP: u32 = 262144;
pub const MDBX_MULTIPLE: u32 = 524288;

/// Identifiers of the tunable environment options.
pub const MDBX_OPT_MAX_DB: u32 = 0;
pub const MDBX_OPT_MAX_READERS: u32 = 1;
pub const MDBX_OPT_SYNC_BYTES: u32 = 2;
pub const MDBX_OPT_SYNC_PERIOD: u32 = 3;
pub const MDBX_OPT_RP_AUGMENT_LIMIT: u32 = 4;
pub const MDBX_OPT_LOOSE_LIMIT: u32 = 5;
pub const MDBX_OPT_DP_RESERVE_LIMIT: u32 = 6;
pub const MDBX_OPT_TXN_DP_LIMIT: u32 = 7;
pub const MDBX_OPT_TXN_DP_INITIAL: u32 = 8;
pub const MDBX_OPT_SPILL_MAX_DENOMINATOR: u32 = 9;
pub const MDBX_OPT_SPILL_MIN_DENOMINATOR: u32 = 10;

/// Positioning operations of a cursor.
#[allow(non_camel_case_types)]
#[derive(Clone, Copy, Debug, PartialEq, Eq, Structural)]
pub enum MDBX_cursor_op {
    MDBX_FIRST,
    MDBX_FIRST_DUP,
    MDBX_GET_BOTH,
    MDBX_GET_BOTH_RANGE,
    MDBX_GET_CURRENT,
    MDBX_GET_MULTIPLE,
    MDBX_LAST,
    MDBX_LAST_DUP,
    MDBX_NEXT,
    MDBX_NEXT_DUP,
    MDBX_NEXT_MULTIPLE,
    MDBX_NEXT_NODUP,
    MDBX_PREV,
    MDBX_PREV_DUP,
    MDBX_PREV_NODUP,
    MDBX_SET,
    MDBX_SET_KEY,
    MDBX_SET_RANGE,
    MDBX_PREV_MULTIPLE,
    MDBX_SET_LOWERBOUND,
}

/// The number the engine gives each cursor operation.
pub open spec fn cursor_op_code(op: MDBX_cursor_op) -> u32 {
    match op {
        MDBX_cursor_op::MDBX_FIRST => 0,
        MDBX_cursor_op::MDBX_FIRST_DUP => 1,
        MDBX_cursor_op::MDBX_GET_BOTH => 2,
        MDBX_cursor_op::MDBX_GET_BOTH_RANGE => 3,
        MDBX_cursor_op::MDBX_GET_CURRENT => 4,
        MDBX_cursor_op::MDBX_GET_MULTIPLE => 5,
        MDBX_cursor_op::MDBX_LAST => 6,
        MDBX_cursor_op::MDBX_LAST_DUP => 7,
        MDBX_cursor_op::MDBX_NEXT => 8,
        MDBX_cursor_op::MDBX_NEXT_DUP => 9,
        MDBX_cursor_op::MDBX_NEXT_MULTIPLE => 10,
        MDBX_cursor_op::MDBX_NEXT_NODUP => 11,
        MDBX_cursor_op::MDBX_PREV => 12,
        MDBX_cursor_op::MDBX_PREV_DUP => 13,
        MDBX_cursor_op::MDBX_PREV_NODUP => 14,
        MDBX_cursor_op::MDBX_SET => 15,
        MDBX_cursor_op::MDBX_SET_KEY => 16,
        MDBX_cursor_op::MDBX_SET_RANGE => 17,
        MDBX_cursor_op::MDBX_PREV_MULTIPLE => 18,
        MDBX_cursor_op::MDBX_SET_LOWERBOUND => 19,
    }
}

impl MDBX_cursor_op {
    /// The number the engine expects for this operation.
    pub fn code(self) -> (r: u32)
        ensures
            r == cursor_op_code(self),
    {
        match self {
            MDBX_cursor_op::MDBX_FIRST => 0,
            MDBX_cursor_op::MDBX_FIRST_DUP => 1,
            MDBX_cursor_op::MDBX_GET_BOTH => 2,
            MDBX_cursor_op::MDBX_GET_BOTH_RANGE => 3,
            MDBX_cursor_op::MDBX_GET_CURRENT => 4,
            MDBX_cursor_op::MDBX_GET_MULTIPLE => 5,
            MDBX_cursor_op::MDBX_LAST => 6,
            MDBX_cursor_op::MDBX_LAST_DUP => 7,
            MDBX_cursor_op::MDBX_NEXT => 8,
            MDBX_cursor_op::MDBX_NEXT_DUP => 9,
            MDBX_cursor_op::MDBX_NEXT_MULTIPLE => 10,
            MDBX_cursor_op::MDBX_NEXT_NODUP => 11,
            MDBX_cursor_op::MDBX_PREV => 12,
            MDBX_cursor_op::MDBX_PREV_DUP => 13,
            MDBX_cursor_op::MDBX_PREV_NODUP => 14,
            MDBX_cursor_op::MDBX_SET => 15,
            MDBX_cursor_op::MDBX_SET_KEY => 16,
            MDBX_cursor_op::MDBX_SET_RANGE => 17,
            MDBX_cursor_op::MDBX_PREV_MULTIPLE => 18,
            MDBX_cursor_op::MDBX_SET_LOWERBOUND => 19,
        }
    }
}

/// Kinds of page reported by the engine's page walk.
#[allow(non_camel_case_types)]
#[derive(Clone, Copy, Debug, PartialEq, Eq, Structural)]
pub enum MDBX_page_type_t {
    MDBX_page_broken,
    MDBX_page_meta,
    MDBX_page_large,
    MDBX_page_branch,
    MDBX_page_leaf,
    MDBX_page_dupfixed_leaf,
    MDBX_subpage_leaf,
    MDBX_subpage_dupfixed_leaf,
    MDBX_subpage_broken,
}

/// Structural statistics of a table or of a whole environment.
#[allow(non_camel_case_types)]
#[derive(Clone, Copy, Debug, Default, PartialEq, Eq, Structural)]
pub struct MDBX_stat {
    pub ms_psize: u32,
    pub ms_depth: u32,
    pub ms_branch_pages: u64,
    pub ms_leaf_pages: u64,
    pub ms_overflow_pages: u64,
    pub ms_entries: u64,
    pub ms_mod_txnid: u64,
}

/// Geometry of the memory map, in bytes.
#[allow(non_camel_case_types)]
#[derive(Clone, Copy, Debug, Default, PartialEq, Eq, Structural)]
pub struct MDBX_envinfo__bindgen_ty_1 {
    pub lower: u64,
    pub upper: u64,
    pub current: u64,
    pub shrink: u64,
    pub grow: u64,
}

/// One 128-bit boot identifier, as two halves.
#[allow(non_camel_case_types)]
#[derive(Clone, Copy, Debug, Default, PartialEq, Eq, Structural)]
pub struct MDBX_envinfo__bindgen_ty_2__bindgen_ty_1 {
    pub x: u64,
    pub y: u64,
}

/// Boot identifiers of the current system and of each meta page.
#[allow(non_camel_case_types)]
#[derive(Clone, Copy, Debug, Default, PartialEq, Eq, Structural)]
pub struct MDBX_envinfo__bindgen_ty_2 {
    pub current: MDBX_envinfo__bindgen_ty_2__bindgen_ty_1,
    pub meta0: MDBX_envinfo__bindgen_ty_2__bindgen_ty_1,
    pub meta1: MDBX_envinfo__bindgen_ty_2__bindgen_ty_1,
    pub meta2: MDBX_envinfo__bindgen_ty_2__bindgen_ty_1,
}

/// Information about an environment.
#[allow(non_camel_case_types)]
#[derive(Clone, Copy, Debug, Default, PartialEq, Eq, Structural)]
pub struct MDBX_envinfo {
    pub mi_geo: MDBX_envinfo__bindgen_ty_1,
    pub mi_mapsize: u64,
    pub mi_last_pgno: u64,
    pub mi_recent_txnid: u64,
    pub mi_latter_reader_txnid: u64,
    pub mi_self_latter_reader_txnid: u64,
    pub mi_meta0_txnid: u64,
    pub mi_meta0_sign: u64,
    pub mi_meta1_txnid: u64,
    pub mi_meta1_sign: u64,
    pub mi_meta2_txnid: u64,
    pub mi_meta2_sign: u64,
    pub mi_maxreaders: u32,
    pub mi_numreaders: u32,
    pub mi_dxb_pagesize: u32,
    pub mi_sys_pagesize: u32,
    pub mi_bootid: MDBX_envinfo__bindgen_ty_2,
    pub mi_unsync_volume: u64,
    pub mi_autosync_threshold: u64,
    pub mi_since_sync_seconds16dot16: u32,
    pub mi_autosync_period_seconds16dot16: u32,
    pub mi_since_reader_check_seconds16dot16: u32,
    pub mi_mode: u32,
}

/// Information about a transaction.
#[allow(non_camel_case_types)]
#[derive(Clone, Copy, Debug, Default, PartialEq, Eq, Structural)]
pub struct MDBX_txn_info {
    pub txn_id: u64,
    pub txn_reader_lag: u64,
    pub txn_space_used: u64,
    pub txn_space_limit_soft: u64,
    pub txn_space_limit_hard: u64,
    pub txn_space_retired: u64,
    pub txn_space_leftover: u64,
    pub txn_space_dirty: u64,
}

/// Durations of the phases of a commit, in units of 1/65536 s.
#[allow(non_camel_case_types)]
#[derive(Clone, Copy, Debug, Default, PartialEq, Eq, Structural)]
pub struct MDBX_commit_latency {
    pub preparation: u32,
    pub gc_wallclock: u32,
    pub audit: u32,
    pub write: u32,
    pub sync: u32,
    pub ending: u32,
    pub whole: u32,
    pub gc_cputime: u32,
}

/// Four user-defined markers stored with each committed transaction.
#[allow(non_camel_case_types)]
#[derive(Clone, Copy, Debug, Default, PartialEq, Eq, Structural)]
pub struct MDBX_canary {
    pub x: u64,
    pub y: u64,
    pub z: u64,
    pub v: u64,
}

} // verus!
