//! Opening an environment: option words, geometry and tunables handed to the
//! engine, the single write slot, and the statistics records it reports.

use vstd::prelude::*;
use crate::error::{Error, result_of_code};
use crate::flags::{Mode, ReadWriteOptions, SyncMode};
use crate::sys;

verus! {

/// How the environment maps its file: through the engine's own buffers, or
/// with the memory map written to directly.
pub trait DatabaseKind: Sized {
    /// The environment flags this kind adds when opening.
    spec fn spec_extra_flags() -> u32;

    /// The environment flags this kind adds when opening.
    fn extra_flags() -> (r: u32)
        ensures
            r == Self::spec_extra_flags(),
    ;
}

/// Pages are written through the engine's buffers.
#[derive(Debug)]
pub struct NoWriteMap;

/// Pages are written directly into a writable memory map.
#[derive(Debug)]
pub struct WriteMap;

impl DatabaseKind for NoWriteMap {
    open spec fn spec_extra_flags() -> u32 {
        sys::MDBX_ENV_DEFAULTS
    }

    fn extra_flags() -> (r: u32) {
        sys::MDBX_ENV_DEFAULTS
    }
}

impl DatabaseKind for WriteMap {
    open spec fn spec_extra_flags() -> u32 {
        sys::MDBX_WRITEMAP
    }

    fn extra_flags() -> (r: u32) {
        sys::MDBX_WRITEMAP
    }
}

/// The page size to open with.
#[derive(Clone, Copy, Debug, PartialEq, Eq, Structural)]
pub enum PageSize {
    /// The smallest size the engine accepts.
    MinimalAcceptable,
    /// A size in bytes.
    Fixed(usize),
}

/// Configuration for opening an environment.
#[derive(Clone, Copy, Debug, PartialEq, Eq, Structural)]
pub struct DatabaseOptions {
    pub permissions: Option<u32>,
    pub max_readers: Option<u32>,
    pub max_tables: Option<u64>,
    pub rp_augment_limit: Option<u64>,
    pub loose_limit: Option<u64>,
    pub dp_reserve_limit: Option<u64>,
    pub txn_dp_limit: Option<u64>,
    pub spill_max_denominator: Option<u64>,
    pub spill_min_denominator: Option<u64>,
    pub page_size: Option<PageSize>,
    pub no_sub_dir: bool,
    pub exclusive: bool,
    pub accede: bool,
    pub mode: Mode,
    pub no_rdahead: bool,
    pub no_meminit: bool,
    pub coalesce: bool,
    pub liforeclaim: bool,
}

/// The default options: every tunable left to the engine, read-write mode
/// with durable sync, and every boolean off.
pub open spec fn default_options() -> DatabaseOptions {
    DatabaseOptions {
        permissions: None,
        max_readers: None,
        max_tables: None,
        rp_augment_limit: None,
        loose_limit: None,
        dp_reserve_limit: None,
        txn_dp_limit: None,
        spill_max_denominator: None,
        spill_min_denominator: None,
        page_size: None,
        no_sub_dir: false,
        exclusive: false,
        accede: false,
        mode: Mode::ReadWrite(
            ReadWriteOptions {
                sync_mode: SyncMode::Durable,
                min_size: None,
                max_size: None,
                growth_step: None,
                shrink_threshold: None,
            },
        ),
        no_rdahead: false,
        no_meminit: false,
        coalesce: false,
        liforeclaim: false,
    }
}

impl Default for DatabaseOptions {
    fn default() -> (r: Self)
        ensures
            r == default_options(),
    {
        DatabaseOptions {
            permissions: None,
            max_readers: None,
            max_tables: None,
            rp_augment_limit: None,
            loose_limit: None,
            dp_reserve_limit: None,
            txn_dp_limit: None,
            spill_max_denominator: None,
            spill_min_denominator: None,
            page_size: None,
            no_sub_dir: false,
            exclusive: false,
            accede: false,
            mode: Mode::default(),
            no_rdahead: false,
            no_meminit: false,
            coalesce: false,
            liforeclaim: false,
        }
    }
}

/// `bit` when `on` holds, else no bit.
pub open spec fn bit_if(on: bool, bit: u32) -> u32 {
    if on {
        bit
    } else {
        0
    }
}

/// The environment flag that selects a sync mode.
pub open spec fn sync_mode_bits(m: SyncMode) -> u32 {
    match m {
        SyncMode::Durable => sys::MDBX_SYNC_DURABLE,
        SyncMode::NoMetaSync => sys::MDBX_NOMETASYNC,
        SyncMode::SafeNoSync => sys::MDBX_SAFE_NOSYNC,
        SyncMode::UtterlyNoSync => sys::MDBX_UTTERLY_NOSYNC,
    }
}

/// The environment flags of an open mode: read-only, or the sync mode.
pub open spec fn mode_bits(m: Mode) -> u32 {
    match m {
        Mode::ReadOnly => sys::MDBX_RDONLY,
        Mode::ReadWrite(rw) => sync_mode_bits(rw.sync_mode),
    }
}

/// The environment flag word of a set of options: one flag for each boolean
/// option that is on, the mode's flags, and always the flag that ties reader
/// slots to transactions rather than threads.
pub open spec fn options_flags(o: DatabaseOptions) -> u32 {
    bit_if(o.no_sub_dir, sys::MDBX_NOSUBDIR) | bit_if(o.exclusive, sys::MDBX_EXCLUSIVE) | bit_if(
        o.accede,
        sys::MDBX_ACCEDE,
    ) | mode_bits(o.mode) | bit_if(o.no_rdahead, sys::MDBX_NORDAHEAD) | bit_if(
        o.no_meminit,
        sys::MDBX_NOMEMINIT,
    ) | bit_if(o.coalesce, sys::MDBX_COALESCE) | bit_if(o.liforeclaim, sys::MDBX_LIFORECLAIM)
        | sys::MDBX_NOTLS
}

fn flag_if(on: bool, bit: u32) -> (r: u32)
    ensures
        r == bit_if(on, bit),
{
    if on {
        bit
    } else {
        0
    }
}

fn sync_flags(m: SyncMode) -> (r: u32)
    ensures
        r == sync_mode_bits(m),
{
    match m {
        SyncMode::Durable => sys::MDBX_SYNC_DURABLE,
        SyncMode::NoMetaSync => sys::MDBX_NOMETASYNC,
        SyncMode::SafeNoSync => sys::MDBX_SAFE_NOSYNC,
        SyncMode::UtterlyNoSync => sys::MDBX_UTTERLY_NOSYNC,
    }
}

/// The six arguments of the engine's geometry call; -1 leaves a value to the
/// engine.
#[derive(Clone, Copy, Debug, PartialEq, Eq, Structural)]
pub struct GeometryArgs {
    pub size_lower: isize,
    pub size_now: isize,
    pub size_upper: isize,
    pub growth_step: isize,
    pub shrink_threshold: isize,
    pub page_size: isize,
}

/// An optional size, with -1 for "left to the engine".
pub open spec fn size_or_default(v: Option<isize>) -> isize {
    match v {
        Some(x) => x,
        None => -1isize,
    }
}

/// The page-size argument: -1 for the engine's default, 0 for the smallest
/// accepted size, or the size itself.
pub open spec fn page_size_arg(p: Option<PageSize>) -> isize {
    match p {
        None => -1isize,
        Some(PageSize::MinimalAcceptable) => 0isize,
        Some(PageSize::Fixed(size)) => size as isize,
    }
}

/// The geometry an environment is opened with: none in read-only mode; in
/// read-write mode the configured sizes, the current size left to the engine.
pub open spec fn geometry_of(o: DatabaseOptions) -> Option<GeometryArgs> {
    match o.mode {
        Mode::ReadOnly => None,
        Mode::ReadWrite(rw) => Some(
            GeometryArgs {
                size_lower: size_or_default(rw.min_size),
                size_now: -1isize,
                size_upper: size_or_default(rw.max_size),
                growth_step: size_or_default(rw.growth_step),
                shrink_threshold: size_or_default(rw.shrink_threshold),
                page_size: page_size_arg(o.page_size),
            },
        ),
    }
}

/// One tunable setting when it is configured, none otherwise.
pub open spec fn setting(id: u32, v: Option<u64>) -> Seq<(u32, u64)> {
    match v {
        Some(x) => seq![(id, x)],
        None => Seq::empty(),
    }
}

/// A reader-slot limit as a tunable value.
pub open spec fn widen(v: Option<u32>) -> Option<u64> {
    match v {
        Some(x) => Some(x as u64),
        None => None,
    }
}

/// The tunables an environment is opened with, in the order they are set:
/// each configured limit with its option identifier.
pub open spec fn settings_of(o: DatabaseOptions) -> Seq<(u32, u64)> {
    setting(sys::MDBX_OPT_MAX_DB, o.max_tables) + setting(
        sys::MDBX_OPT_MAX_READERS,
        widen(o.max_readers),
    ) + setting(sys::MDBX_OPT_RP_AUGMENT_LIMIT, o.rp_augment_limit) + setting(
        sys::MDBX_OPT_LOOSE_LIMIT,
        o.loose_limit,
    ) + setting(sys::MDBX_OPT_DP_RESERVE_LIMIT, o.dp_reserve_limit) + setting(
        sys::MDBX_OPT_TXN_DP_LIMIT,
        o.txn_dp_limit,
    ) + setting(sys::MDBX_OPT_SPILL_MAX_DENOMINATOR, o.spill_max_denominator) + setting(
        sys::MDBX_OPT_SPILL_MIN_DENOMINATOR,
        o.spill_min_denominator,
    )
}

fn push_setting(v: &mut Vec<(u32, u64)>, id: u32, value: Option<u64>)
    ensures
        final(v)@ == old(v)@ + setting(id, value),
{
    match value {
        Some(x) => {
            v.push((id, x));
        },
        None => {
            assert(old(v)@ + Seq::<(u32, u64)>::empty() =~= old(v)@);
        },
    }
    assert(final(v)@ =~= old(v)@ + setting(id, value));
}

/// File permissions used when none are configured (owner read-write,
/// others read).
pub const DEFAULT_PERMISSIONS: u32 = 420;

/// What opening an environment hands to the engine, in order: the geometry
/// (if any), the tunables, then the path, flags and permissions of the open
/// call itself; and whether a write slot is set up for the environment.
#[derive(Clone, Debug)]
pub struct OpenPlan {
    pub geometry: Option<GeometryArgs>,
    pub settings: Vec<(u32, u64)>,
    pub path: Vec<u8>,
    pub flags: u32,
    pub permissions: u32,
    pub writable: bool,
}

/// Whether a path holds a zero byte, which the engine's C interface cannot
/// carry.
pub open spec fn has_nul(path: Seq<u8>) -> bool {
    exists|i: int| 0 <= i < path.len() && path[i] == 0
}

impl DatabaseOptions {
    /// The environment flag word these options ask for.
    pub fn make_flags(&self) -> (r: u32)
        ensures
            r == options_flags(*self),
    {
        let mode = match self.mode {
            Mode::ReadOnly => sys::MDBX_RDONLY,
            Mode::ReadWrite(rw) => sync_flags(rw.sync_mode),
        };
        flag_if(self.no_sub_dir, sys::MDBX_NOSUBDIR) | flag_if(self.exclusive, sys::MDBX_EXCLUSIVE)
            | flag_if(self.accede, sys::MDBX_ACCEDE) | mode | flag_if(
            self.no_rdahead,
            sys::MDBX_NORDAHEAD,
        ) | flag_if(self.no_meminit, sys::MDBX_NOMEMINIT) | flag_if(
            self.coalesce,
            sys::MDBX_COALESCE,
        ) | flag_if(self.liforeclaim, sys::MDBX_LIFORECLAIM) | sys::MDBX_NOTLS
    }

    /// The geometry call's arguments, or none in read-only mode.
    pub fn geometry_args(&self) -> (r: Option<GeometryArgs>)
        ensures
            r == geometry_of(*self),
    {
        match self.mode {
            Mode::ReadOnly => None,
            Mode::ReadWrite(rw) => {
                let page_size: isize = match self.page_size {
                    None => -1,
                    Some(PageSize::MinimalAcceptable) => 0,
                    Some(PageSize::Fixed(size)) => size as isize,
                };
                Some(
                    GeometryArgs {
                        size_lower: unwrap_size(rw.min_size),
                        size_now: -1,
                        size_upper: unwrap_size(rw.max_size),
                        growth_step: unwrap_size(rw.growth_step),
                        shrink_threshold: unwrap_size(rw.shrink_threshold),
                        page_size,
                    },
                )
            },
        }
    }

    /// The configured tunables, with their option identifiers, in the order
    /// they are set.
    pub fn settings(&self) -> (r: Vec<(u32, u64)>)
        ensures
            r@ == settings_of(*self),
    {
        let mut v: Vec<(u32, u64)> = Vec::new();
        push_setting(&mut v, sys::MDBX_OPT_MAX_DB, self.max_tables);
        let readers: Option<u64> = match self.max_readers {
            Some(x) => Some(x as u64),
            None => None,
        };
        push_setting(&mut v, sys::MDBX_OPT_MAX_READERS, readers);
        push_setting(&mut v, sys::MDBX_OPT_RP_AUGMENT_LIMIT, self.rp_augment_limit);
        push_setting(&mut v, sys::MDBX_OPT_LOOSE_LIMIT, self.loose_limit);
        push_setting(&mut v, sys::MDBX_OPT_DP_RESERVE_LIMIT, self.dp_reserve_limit);
        push_setting(&mut v, sys::MDBX_OPT_TXN_DP_LIMIT, self.txn_dp_limit);
        push_setting(&mut v, sys::MDBX_OPT_SPILL_MAX_DENOMINATOR, self.spill_max_denominator);
        push_setting(&mut v, sys::MDBX_OPT_SPILL_MIN_DENOMINATOR, self.spill_min_denominator);
        assert(v@ =~= settings_of(*self));
        v
    }

    /// Everything that opening an environment at `path` hands to the engine.
    /// Fails with [Error::Invalid] exactly when the path holds a zero byte.
    pub fn open_plan<E: DatabaseKind>(&self, path: &[u8]) -> (r: Result<OpenPlan, Error>)
        ensures
            has_nul(path@) <==> r is Err,
            r is Err ==> r == Err::<OpenPlan, Error>(Error::Invalid),
            r matches Ok(p) ==> {
                &&& p.geometry == geometry_of(*self)
                &&& p.settings@ == settings_of(*self)
                &&& p.path@ == path@
                &&& p.flags == options_flags(*self) | E::spec_extra_flags()
                &&& p.permissions == match self.permissions {
                    Some(m) => m,
                    None => DEFAULT_PERMISSIONS,
                }
                &&& p.writable == (self.mode is ReadWrite)
            },
    {
        let path = match path_arg(path) {
            Ok(p) => p,
            Err(e) => {
                return Err(e);
            },
        };
        let permissions = match self.permissions {
            Some(m) => m,
            None => DEFAULT_PERMISSIONS,
        };
        let writable = match self.mode {
            Mode::ReadOnly => false,
            Mode::ReadWrite(_) => true,
        };
        Ok(
            OpenPlan {
                geometry: self.geometry_args(),
                settings: self.settings(),
                path,
                flags: self.make_flags() | E::extra_flags(),
                permissions,
                writable,
            },
        )
    }
}

fn unwrap_size(v: Option<isize>) -> (r: isize)
    ensures
        r == size_or_default(v),
{
    match v {
        Some(x) => x,
        None => -1,
    }
}

/// The path as the engine receives it; fails with [Error::Invalid] exactly
/// when it holds a zero byte.
pub fn path_arg(path: &[u8]) -> (r: Result<Vec<u8>, Error>)
    ensures
        has_nul(path@) <==> r is Err,
        r is Err ==> r == Err::<Vec<u8>, Error>(Error::Invalid),
        r matches Ok(v) ==> v@ == path@,
{
    let mut out: Vec<u8> = Vec::new();
    let mut i: usize = 0;
    while i < path.len()
        invariant
            i <= path@.len(),
            out@ == path@.subrange(0, i as int),
            forall|j: int| 0 <= j < i ==> path@[j] != 0,
        decreases path@.len() - i,
    {
        if path[i] == 0 {
            return Err(Error::Invalid);
        }
        out.push(path[i]);
        i = i + 1;
        assert(out@ =~= path@.subrange(0, i as int));
    }
    assert(out@ =~= path@);
    Ok(out)
}


/// Pause before asking again for the write slot after the engine reported
/// it busy, in milliseconds.
pub const BUSY_BACKOFF_MILLIS: u64 = 250;

/// What to do after one attempt to begin a top-level write transaction.
#[derive(Clone, Debug, PartialEq, Eq)]
pub enum BeginStep {
    /// The transaction is open.
    Started,
    /// The engine was busy: wait [BUSY_BACKOFF_MILLIS] and try again.
    RetryAfterBackoff,
    /// The attempt failed for good.
    Failed(Error),
}

/// The step that follows a begin attempt whose status code is `code`.
pub open spec fn begin_step_of(code: i32) -> BeginStep {
    match result_of_code(code) {
        Ok(_) => BeginStep::Started,
        Err(Error::Busy) => BeginStep::RetryAfterBackoff,
        Err(e) => BeginStep::Failed(e),
    }
}

/// Decides what follows an attempt to begin a write transaction: a busy
/// engine is asked again after a pause, any other failure is final.
pub fn begin_write_step(code: i32) -> (r: BeginStep)
    ensures
        r == begin_step_of(code),
{
    match crate::error::mdbx_result(code) {
        Ok(_) => BeginStep::Started,
        Err(Error::Busy) => BeginStep::RetryAfterBackoff,
        Err(e) => BeginStep::Failed(e),
    }
}

/// Whether a write transaction may be asked for at all: an environment
/// opened read-only refuses at once with [Error::Access].
pub fn write_access(writable: bool) -> (r: Result<(), Error>)
    ensures
        writable <==> r is Ok,
        r is Err ==> r == Err::<(), Error>(Error::Access),
{
    if writable {
        Ok(())
    } else {
        Err(Error::Access)
    }
}

/// The single write slot of an environment: at most one write transaction,
/// named by a ticket, holds it at a time.
#[derive(Debug)]
pub struct WriteSlot {
    holder: Option<u64>,
}

/// The slot after `who` asks for it: taken by `who` if it was free,
/// unchanged otherwise.
pub open spec fn slot_after_acquire(holder: Option<u64>, who: u64) -> Option<u64> {
    match holder {
        None => Some(who),
        Some(h) => Some(h),
    }
}

/// The slot after `who` gives it back: free if `who` held it, unchanged
/// otherwise.
pub open spec fn slot_after_release(holder: Option<u64>, who: u64) -> Option<u64> {
    if holder == Some(who) {
        None
    } else {
        holder
    }
}

impl WriteSlot {
    /// The ticket of the transaction holding the slot, if any.
    pub closed spec fn holder(&self) -> Option<u64> {
        self.holder
    }

    /// A free slot.
    pub fn new() -> (r: Self)
        ensures
            r.holder() is None,
    {
        WriteSlot { holder: None }
    }

    /// Whether no transaction holds the slot.
    pub fn is_free(&self) -> (r: bool)
        ensures
            r == (self.holder() is None),
    {
        self.holder.is_none()
    }

    /// Asks for the slot on behalf of `who`; granted exactly when it is free.
    /// A caller that is refused waits until the holder releases it.
    pub fn try_acquire(&mut self, who: u64) -> (granted: bool)
        ensures
            granted == (old(self).holder() is None),
            final(self).holder() == slot_after_acquire(old(self).holder(), who),
    {
        if self.holder.is_none() {
            self.holder = Some(who);
            true
        } else {
            false
        }
    }

    /// Gives the slot back on behalf of `who`, at commit or abort. Returns
    /// whether `who` held it; a release by anyone else changes nothing.
    pub fn release(&mut self, who: u64) -> (released: bool)
        ensures
            released == (old(self).holder() == Some(who)),
            final(self).holder() == slot_after_release(old(self).holder(), who),
    {
        match self.holder {
            Some(h) => {
                if h == who {
                    self.holder = None;
                    true
                } else {
                    false
                }
            },
            None => false,
        }
    }
}

/// Two write transactions are never active together: once `a` holds the
/// slot, `b` is refused and leaves it unchanged, and a release by `b` does
/// not free it; only after `a` releases it is `b` granted the slot.
pub proof fn lemma_single_writer(holder: Option<u64>, a: u64, b: u64)
    requires
        holder is None,
        a != b,
    ensures
        ({
            let held = slot_after_acquire(holder, a);
            &&& held == Some(a)
            &&& held is Some
            &&& slot_after_acquire(held, b) == held
            &&& slot_after_release(held, b) == held
            &&& slot_after_release(held, a) is None
            &&& slot_after_acquire(slot_after_release(held, a), b) == Some(b)
        }),
{
}

/// Structural statistics of a table or an environment.
#[derive(Clone, Copy, Debug)]
pub struct Stat(pub sys::MDBX_stat);

/// The bytes taken by a table's pages.
pub open spec fn total_size_of(s: sys::MDBX_stat) -> int {
    (s.ms_leaf_pages + s.ms_branch_pages + s.ms_overflow_pages) * s.ms_psize
}

/// Whether the page count and the byte total of a table fit in 64 bits.
pub open spec fn total_size_fits(s: sys::MDBX_stat) -> bool {
    &&& s.ms_leaf_pages + s.ms_branch_pages + s.ms_overflow_pages <= u64::MAX
    &&& total_size_of(s) <= u64::MAX
}

impl Stat {
    /// Size of a page, the same for all tables of an environment.
    pub fn page_size(&self) -> (r: u32)
        ensures
            r == self.0.ms_psize,
    {
        self.0.ms_psize
    }

    /// Depth (height) of the B-tree.
    pub fn depth(&self) -> (r: u32)
        ensures
            r == self.0.ms_depth,
    {
        self.0.ms_depth
    }

    /// Number of internal (non-leaf) pages.
    pub fn branch_pages(&self) -> (r: usize)
        ensures
            r == self.0.ms_branch_pages as usize,
    {
        self.0.ms_branch_pages as usize
    }

    /// Number of leaf pages.
    pub fn leaf_pages(&self) -> (r: usize)
        ensures
            r == self.0.ms_leaf_pages as usize,
    {
        self.0.ms_leaf_pages as usize
    }

    /// Number of overflow pages.
    pub fn overflow_pages(&self) -> (r: usize)
        ensures
            r == self.0.ms_overflow_pages as usize,
    {
        self.0.ms_overflow_pages as usize
    }

    /// Number of data items.
    pub fn entries(&self) -> (r: usize)
        ensures
            r == self.0.ms_entries as usize,
    {
        self.0.ms_entries as usize
    }

    /// Total size in bytes of the leaf, branch and overflow pages.
    pub fn total_size(&self) -> (r: u64)
        requires
            total_size_fits(self.0),
        ensures
            r == total_size_of(self.0),
    {
        let pages: u64 = self.0.ms_leaf_pages + self.0.ms_branch_pages + self.0.ms_overflow_pages;
        let psize: u64 = self.0.ms_psize as u64;
        assert(pages * psize == total_size_of(self.0));
        pages * psize
    }
}

impl Stat {
    /// [Stat::total_size] when it fits in 64 bits, `None` otherwise.
    pub fn checked_total_size(&self) -> (r: Option<u64>)
        ensures
            r is Some <==> total_size_fits(self.0),
            r matches Some(n) ==> n == total_size_of(self.0),
    {
        let pages = match self.0.ms_leaf_pages.checked_add(self.0.ms_branch_pages) {
            Some(p) => p.checked_add(self.0.ms_overflow_pages),
            None => None,
        };
        match pages {
            Some(p) => {
                match p.checked_mul(self.0.ms_psize as u64) {
                    Some(_) => Some(self.total_size()),
                    None => None,
                }
            },
            None => None,
        }
    }
}

/// Geometry of an environment's memory map.
#[derive(Clone, Copy, Debug)]
pub struct GeometryInfo(pub sys::MDBX_envinfo__bindgen_ty_1);

impl GeometryInfo {
    /// Lower bound of the map size, in bytes.
    pub fn min(&self) -> (r: u64)
        ensures
            r == self.0.lower,
    {
        self.0.lower
    }
}

/// Environment information: map size, readers, last transaction.
#[derive(Clone, Copy, Debug)]
pub struct Info(pub sys::MDBX_envinfo);

impl Info {
    /// Geometry of the memory map.
    pub fn geometry(&self) -> (r: GeometryInfo)
        ensures
            r.0 == self.0.mi_geo,
    {
        GeometryInfo(self.0.mi_geo)
    }

    /// Size of the memory map.
    pub fn map_size(&self) -> (r: usize)
        ensures
            r == self.0.mi_mapsize as usize,
    {
        self.0.mi_mapsize as usize
    }

    /// Last used page number.
    pub fn last_pgno(&self) -> (r: usize)
        ensures
            r == self.0.mi_last_pgno as usize,
    {
        self.0.mi_last_pgno as usize
    }

    /// Last transaction ID.
    pub fn last_txnid(&self) -> (r: usize)
        ensures
            r == self.0.mi_recent_txnid as usize,
    {
        self.0.mi_recent_txnid as usize
    }

    /// Maximum number of reader slots.
    pub fn max_readers(&self) -> (r: usize)
        ensures
            r == self.0.mi_maxreaders as usize,
    {
        self.0.mi_maxreaders as usize
    }

    /// Number of reader slots in use.
    pub fn num_readers(&self) -> (r: usize)
        ensures
            r == self.0.mi_numreaders as usize,
    {
        self.0.mi_numreaders as usize
    }
}

} // verus!
