use libmdbx::database::DEFAULT_PERMISSIONS;
use libmdbx::environment::SizeRange;
use libmdbx::orm::{chart_options, read_only_options};
use libmdbx::sys;
use libmdbx::{
    DatabaseOptions, EnvironmentBuilder, Error, Geometry, GeometryArgs, Mode, NoWriteMap,
    PageSize, ReadWriteOptions, SyncMode, TableFlags, TableSettings, WriteFlags, WriteMap,
};

#[test]
fn default_options_flags() {
    let o = DatabaseOptions::default();
    assert_eq!(o.make_flags(), sys::MDBX_NOTLS);
}

#[test]
fn every_flag_of_the_options() {
    let mut o = DatabaseOptions::default();
    o.no_sub_dir = true;
    o.exclusive = true;
    o.accede = true;
    o.no_rdahead = true;
    o.no_meminit = true;
    o.coalesce = true;
    o.liforeclaim = true;
    o.mode = Mode::ReadWrite(ReadWriteOptions {
        sync_mode: SyncMode::SafeNoSync,
        ..Default::default()
    });
    let expected = 16384 | 4194304 | 1073741824 | 65536 | 8388608 | 16777216 | 33554432
        | 67108864 | 2097152;
    assert_eq!(o.make_flags(), expected);
}

#[test]
fn read_only_mode_flags_and_geometry() {
    let mut o = DatabaseOptions::default();
    o.mode = Mode::ReadOnly;
    assert_eq!(o.make_flags(), sys::MDBX_RDONLY | sys::MDBX_NOTLS);
    assert_eq!(o.geometry_args(), None);
}

#[test]
fn sync_modes_flags() {
    for (m, bits) in [
        (SyncMode::Durable, 0),
        (SyncMode::NoMetaSync, 262144),
        (SyncMode::SafeNoSync, 65536),
        (SyncMode::UtterlyNoSync, 1114112),
    ] {
        let mut o = DatabaseOptions::default();
        o.mode = Mode::ReadWrite(ReadWriteOptions { sync_mode: m, ..Default::default() });
        assert_eq!(o.make_flags(), bits | sys::MDBX_NOTLS);
    }
}

#[test]
fn geometry_of_read_write_options() {
    let mut o = DatabaseOptions::default();
    o.mode = Mode::ReadWrite(ReadWriteOptions {
        sync_mode: SyncMode::Durable,
        min_size: Some(4096),
        max_size: Some(1 << 20),
        growth_step: None,
        shrink_threshold: Some(8192),
    });
    o.page_size = Some(PageSize::Fixed(1024));
    assert_eq!(
        o.geometry_args(),
        Some(GeometryArgs {
            size_lower: 4096,
            size_now: -1,
            size_upper: 1 << 20,
            growth_step: -1,
            shrink_threshold: 8192,
            page_size: 1024,
        })
    );
    o.page_size = Some(PageSize::MinimalAcceptable);
    assert_eq!(o.geometry_args().unwrap().page_size, 0);
    o.page_size = None;
    assert_eq!(o.geometry_args().unwrap().page_size, -1);
}

#[test]
fn settings_in_order() {
    let mut o = DatabaseOptions::default();
    assert!(o.settings().is_empty());
    o.max_tables = Some(3);
    o.max_readers = Some(9);
    o.spill_min_denominator = Some(7);
    assert_eq!(
        o.settings(),
        vec![
            (sys::MDBX_OPT_MAX_DB, 3),
            (sys::MDBX_OPT_MAX_READERS, 9),
            (sys::MDBX_OPT_SPILL_MIN_DENOMINATOR, 7)
        ]
    );
}

#[test]
fn open_plan_of_options() {
    let mut o = DatabaseOptions::default();
    o.max_tables = Some(1);
    let plan = o.open_plan::<WriteMap>(b"/tmp/db").unwrap();
    assert_eq!(plan.path, b"/tmp/db".to_vec());
    assert_eq!(plan.flags, sys::MDBX_NOTLS | sys::MDBX_WRITEMAP);
    assert_eq!(plan.permissions, DEFAULT_PERMISSIONS);
    assert!(plan.writable);
    assert_eq!(plan.settings, vec![(sys::MDBX_OPT_MAX_DB, 1)]);

    o.permissions = Some(0o600);
    o.mode = Mode::ReadOnly;
    let plan = o.open_plan::<NoWriteMap>(b"db").unwrap();
    assert_eq!(plan.permissions, 0o600);
    assert!(!plan.writable);
    assert_eq!(plan.geometry, None);
}

#[test]
fn path_with_nul_is_invalid() {
    let o = DatabaseOptions::default();
    assert_eq!(o.open_plan::<NoWriteMap>(b"a\0b").unwrap_err(), Error::Invalid);
    let b = EnvironmentBuilder::new();
    assert_eq!(b.open_plan(b"\0", 0o644).unwrap_err(), Error::Invalid);
}

#[test]
fn builder_plan() {
    let mut b = EnvironmentBuilder::new();
    b.set_max_dbs(10);
    b.set_max_readers(126);
    b.set_flags(sys::MDBX_NOSUBDIR);
    let g: Geometry<SizeRange> = Geometry {
        size: Some((Some(1024), None)),
        growth_step: Some(4096),
        ..Default::default()
    };
    b.set_geometry(g);
    let plan = b.open_plan_default(b"env").unwrap();
    assert_eq!(plan.permissions, 0o644);
    assert_eq!(plan.flags, sys::MDBX_NOSUBDIR);
    assert!(plan.writable);
    assert_eq!(
        plan.settings,
        vec![(sys::MDBX_OPT_MAX_DB, 10), (sys::MDBX_OPT_MAX_READERS, 126)]
    );
    assert_eq!(
        plan.geometry,
        Some(GeometryArgs {
            size_lower: 1024,
            size_now: -1,
            size_upper: -1,
            growth_step: 4096,
            shrink_threshold: -1,
            page_size: -1,
        })
    );
    b.set_flags(sys::MDBX_RDONLY);
    assert!(!b.open_plan(b"env", 0o600).unwrap().writable);
}

#[test]
fn table_and_write_flags() {
    let f = TableFlags::dup_sort().union(TableFlags::reverse_key());
    assert_eq!(f.bits(), 6);
    assert!(f.contains(TableFlags::dup_sort()));
    assert!(!f.contains(TableFlags::integer_key()));
    assert_eq!(TableFlags::from_bits_truncate(0xffff_ffff).bits(), libmdbx::flags::TABLE_FLAGS_ALL);
    assert_eq!(TableFlags::from_bits_truncate(1).bits(), 0);
    assert_eq!(WriteFlags::upsert().bits(), 0);
    assert_eq!(WriteFlags::no_overwrite().union(WriteFlags::append()).bits(), 16 | 131072);
    assert_eq!(WriteFlags::from_bits_truncate(1 | 32).bits(), 32);
}

#[test]
fn chart_settings() {
    assert_eq!(TableSettings { dup_sort: true }.table_flags().bits(), sys::MDBX_DUPSORT);
    assert_eq!(TableSettings::default().table_flags().bits(), 0);
    let o = chart_options(DatabaseOptions::default(), 0);
    assert_eq!(o.max_tables, Some(1));
    let o = chart_options(DatabaseOptions::default(), 5);
    assert_eq!(o.max_tables, Some(5));
    assert_eq!(read_only_options(o).mode, Mode::ReadOnly);
}
