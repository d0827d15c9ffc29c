//! A resource-safe layer over the MDBX embedded key-value engine.
//!
//! The engine itself (B-tree pages, MVCC snapshots, the free list) is reached
//! through its C interface by the embedding application. This crate holds the
//! decisions that surround every engine call, each verified against a contract:
//! how status codes become typed errors and optional results, which flag words
//! and geometry arguments an environment is opened with, how cursor iterators
//! advance and end, how the single write slot is handed out, how transactions
//! move between their states, and how the free-page total is read.

pub mod sys;
pub mod error;
pub mod flags;
pub mod database;
pub mod freelist;
pub mod cursor;
pub mod transaction;
pub mod latency;
pub mod environment;
pub mod orm;

pub use crate::cursor::{CursorReply, IntoIter, Iter, IterDup};
pub use crate::database::{
    BeginStep, DatabaseKind, DatabaseOptions, GeometryArgs, GeometryInfo, Info, NoWriteMap,
    OpenPlan, PageSize, Stat, WriteMap, WriteSlot,
};
pub use crate::environment::{EnvironmentBuilder, Geometry};
pub use crate::error::{Error, mdbx_result};
pub use crate::flags::{Mode, ReadWriteOptions, SyncMode, TableFlags, WriteFlags, c_enum};
pub use crate::latency::CommitLatency;
pub use crate::orm::{Decodable, Encodable, Table, TableSettings, UntypedTable};
pub use crate::transaction::{RO, RW, Route, TransactionKind, TxnState, TxnStatus};
