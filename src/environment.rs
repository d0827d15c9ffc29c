//! The builder-style way of opening an environment: raw flags, reader and
//! table limits, and a size range for the memory map.

use vstd::prelude::*;
use crate::database::{
    DEFAULT_PERMISSIONS,
    GeometryArgs,
    OpenPlan,
    PageSize,
    has_nul,
    page_size_arg,
    path_arg,
    setting,
    widen,
};
use crate::error::Error;
use crate::sys;

verus! {

/// Size-related settings of an environment: the size range of the memory
/// map, its growth and shrink steps, and the page size.
#[derive(Clone, Debug, PartialEq, Eq)]
pub struct Geometry<R> {
    pub size: Option<R>,
    pub growth_step: Option<isize>,
    pub shrink_threshold: Option<isize>,
    pub page_size: Option<PageSize>,
}

impl<R> Default for Geometry<R> {
    fn default() -> (r: Self)
        ensures
            r.size is None,
            r.growth_step is None,
            r.shrink_threshold is None,
            r.page_size is None,
    {
        Geometry { size: None, growth_step: None, shrink_threshold: None, page_size: None }
    }
}

/// A size range by its lower and upper bounds, each optional.
pub type SizeRange = (Option<usize>, Option<usize>);

/// Options for opening or creating an environment.
#[derive(Clone, Debug)]
pub struct EnvironmentBuilder {
    pub flags: u32,
    pub max_readers: Option<u32>,
    pub max_dbs: Option<usize>,
    pub geometry: Option<Geometry<SizeRange>>,
}

/// A bound of a size range as a geometry argument; -1 leaves it to the
/// engine.
pub open spec fn bound_arg(b: Option<usize>) -> isize {
    match b {
        Some(v) => v as isize,
        None => -1isize,
    }
}

/// An optional step as a geometry argument; -1 leaves it to the engine.
pub open spec fn step_arg(s: Option<isize>) -> isize {
    match s {
        Some(v) => v,
        None => -1isize,
    }
}

/// The geometry call's arguments for a builder's geometry: the size range's
/// bounds (each -1 when absent), the current size left to the engine.
pub open spec fn builder_geometry_of(g: Geometry<SizeRange>) -> GeometryArgs {
    let (lower, upper) = match g.size {
        Some(range) => (bound_arg(range.0), bound_arg(range.1)),
        None => (-1isize, -1isize),
    };
    GeometryArgs {
        size_lower: lower,
        size_now: -1isize,
        size_upper: upper,
        growth_step: step_arg(g.growth_step),
        shrink_threshold: step_arg(g.shrink_threshold),
        page_size: page_size_arg(g.page_size),
    }
}

/// The tunables a builder sets: the table limit, then the reader limit.
pub open spec fn builder_settings_of(b: EnvironmentBuilder) -> Seq<(u32, u64)> {
    setting(
        sys::MDBX_OPT_MAX_DB,
        match b.max_dbs {
            Some(n) => Some(n as u64),
            None => None,
        },
    ) + setting(sys::MDBX_OPT_MAX_READERS, widen(b.max_readers))
}

fn bound_value(b: Option<usize>) -> (r: isize)
    ensures
        r == bound_arg(b),
{
    match b {
        Some(v) => v as isize,
        None => -1,
    }
}

fn step_value(s: Option<isize>) -> (r: isize)
    ensures
        r == step_arg(s),
{
    match s {
        Some(v) => v,
        None => -1,
    }
}

fn page_size_value(p: Option<PageSize>) -> (r: isize)
    ensures
        r == page_size_arg(p),
{
    match p {
        None => -1,
        Some(PageSize::MinimalAcceptable) => 0,
        Some(PageSize::Fixed(size)) => size as isize,
    }
}

impl EnvironmentBuilder {
    /// A builder with no flags, no limits and no geometry.
    pub fn new() -> (r: Self)
        ensures
            r.flags == 0,
            r.max_readers is None,
            r.max_dbs is None,
            r.geometry is None,
    {
        EnvironmentBuilder { flags: 0, max_readers: None, max_dbs: None, geometry: None }
    }

    /// Sets the environment flags to open with.
    pub fn set_flags(&mut self, flags: u32)
        ensures
            *final(self) == (EnvironmentBuilder { flags, ..*old(self) }),
    {
        self.flags = flags;
    }

    /// Sets the number of reader slots.
    pub fn set_max_readers(&mut self, max_readers: u32)
        ensures
            *final(self) == (EnvironmentBuilder { max_readers: Some(max_readers), ..*old(self) }),
    {
        self.max_readers = Some(max_readers);
    }

    /// Sets the number of named tables.
    pub fn set_max_dbs(&mut self, max_dbs: usize)
        ensures
            *final(self) == (EnvironmentBuilder { max_dbs: Some(max_dbs), ..*old(self) }),
    {
        self.max_dbs = Some(max_dbs);
    }

    /// Sets the size-related settings: the memory map's size range (each
    /// bound kept whether inclusive or exclusive), steps and page size.
    pub fn set_geometry(&mut self, geometry: Geometry<SizeRange>)
        ensures
            *final(self) == (EnvironmentBuilder { geometry: Some(geometry), ..*old(self) }),
    {
        self.geometry = Some(geometry);
    }

    /// The geometry call's arguments, or none when no geometry was set.
    pub fn geometry_args(&self) -> (r: Option<GeometryArgs>)
        ensures
            r == match self.geometry {
                Some(g) => Some(builder_geometry_of(g)),
                None => None,
            },
    {
        match &self.geometry {
            Some(g) => {
                let (lower, upper): (isize, isize) = match g.size {
                    Some(range) => (bound_value(range.0), bound_value(range.1)),
                    None => (-1, -1),
                };
                Some(
                    GeometryArgs {
                        size_lower: lower,
                        size_now: -1,
                        size_upper: upper,
                        growth_step: step_value(g.growth_step),
                        shrink_threshold: step_value(g.shrink_threshold),
                        page_size: page_size_value(g.page_size),
                    },
                )
            },
            None => None,
        }
    }

    /// Everything that opening an environment at `path` with file
    /// permissions `mode` hands to the engine. Fails with [Error::Invalid]
    /// exactly when the path holds a zero byte. An environment opened this
    /// way is writable unless its flags ask for read-only.
    pub fn open_plan(&self, path: &[u8], mode: u32) -> (r: Result<OpenPlan, Error>)
        ensures
            has_nul(path@) <==> r is Err,
            r is Err ==> r == Err::<OpenPlan, Error>(Error::Invalid),
            r matches Ok(p) ==> {
                &&& p.geometry == match self.geometry {
                    Some(g) => Some(builder_geometry_of(g)),
                    None => None,
                }
                &&& p.settings@ == builder_settings_of(*self)
                &&& p.path@ == path@
                &&& p.flags == self.flags
                &&& p.permissions == mode
                &&& p.writable == (self.flags & sys::MDBX_RDONLY == 0)
            },
    {
        let path = match path_arg(path) {
            Ok(p) => p,
            Err(e) => {
                return Err(e);
            },
        };
        let mut settings: Vec<(u32, u64)> = Vec::new();
        match self.max_dbs {
            Some(n) => settings.push((sys::MDBX_OPT_MAX_DB, n as u64)),
            None => {},
        }
        match self.max_readers {
            Some(n) => settings.push((sys::MDBX_OPT_MAX_READERS, n as u64)),
            None => {},
        }
        assert(settings@ =~= builder_settings_of(*self));
        Ok(
            OpenPlan {
                geometry: self.geometry_args(),
                settings,
                path,
                flags: self.flags,
                permissions: mode,
                writable: self.flags & sys::MDBX_RDONLY == 0,
            },
        )
    }

    /// [EnvironmentBuilder::open_plan] with the default permissions.
    pub fn open_plan_default(&self, path: &[u8]) -> (r: Result<OpenPlan, Error>)
        ensures
            has_nul(path@) <==> r is Err,
            r is Err ==> r == Err::<OpenPlan, Error>(Error::Invalid),
            r matches Ok(p) ==> p.permissions == DEFAULT_PERMISSIONS && p.flags == self.flags
                && p.path@ == path@,
    {
        self.open_plan(path, DEFAULT_PERMISSIONS)
    }
}

} // verus!
