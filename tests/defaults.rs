use libmdbx::environment::SizeRange;
use libmdbx::{DatabaseOptions, EnvironmentBuilder, Geometry, Mode, ReadWriteOptions, SyncMode};

#[test]
fn default_values() {
    assert_eq!(SyncMode::default(), SyncMode::Durable);
    let rw = ReadWriteOptions::default();
    assert_eq!(rw.sync_mode, SyncMode::Durable);
    assert_eq!(rw.min_size, None);
    assert_eq!(Mode::default(), Mode::ReadWrite(rw));
    let o = DatabaseOptions::default();
    assert_eq!(o.permissions, None);
    assert_eq!(o.max_tables, None);
    assert_eq!(o.page_size, None);
    assert!(!o.no_sub_dir && !o.exclusive && !o.liforeclaim);
    let g: Geometry<SizeRange> = Geometry::default();
    assert_eq!(g.size, None);
    assert_eq!(g.page_size, None);
    let b = EnvironmentBuilder::new();
    assert_eq!(b.flags, 0);
    assert_eq!(b.max_dbs, None);
    assert!(b.geometry.is_none());
    assert_eq!(b.geometry_args(), None);
}
