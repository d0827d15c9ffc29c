//! Cursor positioning results and the iterators built on them.
//!
//! An iterator here is the decision part of iteration: it names the cursor
//! operation to perform next, and from the engine's reply decides what is
//! yielded and how it goes on. The cursor itself, and the engine call, belong
//! to the embedding code, which asks [IntoIter::pending_op], performs that
//! operation, and hands the reply to [IntoIter::next].

use vstd::prelude::*;
use crate::error::{Error, error_of_code, mdbx_result, optional, result_of_code};
use crate::sys;
use crate::sys::MDBX_cursor_op;

verus! {

/// A key/value pair as read from a table.
pub type Pair = (Vec<u8>, Vec<u8>);

/// The engine's reply to one cursor operation: its status code and, on
/// success, the key and value at the new position.
#[derive(Clone, Debug)]
pub struct CursorReply {
    pub code: i32,
    pub key: Vec<u8>,
    pub value: Vec<u8>,
}

/// Whether a reply code ends an iteration gracefully: nothing more to read,
/// or no valid position to read from.
pub open spec fn ends_iteration(code: i32) -> bool {
    code == sys::MDBX_NOTFOUND || code == sys::MDBX_ENODATA
}

/// The outcome of a positioning call that returns key and value: the pair,
/// `None` when there is no such position, or the engine's error.
pub open spec fn full_outcome(code: i32, key: Seq<u8>, value: Seq<u8>) -> Result<
    Option<(Seq<u8>, Seq<u8>)>,
    Error,
> {
    match result_of_code(code) {
        Ok(_) => Ok(Some((key, value))),
        Err(Error::NotFound) => Ok(None),
        Err(e) => Err(e),
    }
}

/// The outcome of a positioning call: the pair on success, `None` when the
/// engine reports no such position, the engine's error otherwise.
pub fn position_full(reply: CursorReply) -> (r: Result<Option<Pair>, Error>)
    ensures
        match full_outcome(reply.code, reply.key@, reply.value@) {
            Ok(Some((k, v))) => r matches Ok(Some(p)) && p.0@ == k && p.1@ == v,
            Ok(None) => r matches Ok(None),
            Err(e) => r == Err::<Option<Pair>, Error>(e),
        },
{
    let CursorReply { code, key, value } = reply;
    optional(
        match mdbx_result(code) {
            Ok(_) => Ok((key, value)),
            Err(e) => Err(e),
        },
    )
}

/// The outcome of a positioning call that returns the value only.
pub fn position_value(reply: CursorReply) -> (r: Result<Option<Vec<u8>>, Error>)
    ensures
        match full_outcome(reply.code, reply.key@, reply.value@) {
            Ok(Some((k, v))) => r matches Ok(Some(w)) && w@ == v,
            Ok(None) => r matches Ok(None),
            Err(e) => r == Err::<Option<Vec<u8>>, Error>(e),
        },
{
    let CursorReply { code, key: _, value } = reply;
    optional(
        match mdbx_result(code) {
            Ok(_) => Ok(value),
            Err(e) => Err(e),
        },
    )
}

/// The outcome of a lower-bound seek: the pair at the first position not
/// below the given one, with `false` for an exact match and `true` when the
/// cursor moved on to a greater pair; `None` when there is none.
pub fn position_lowerbound(reply: CursorReply) -> (r: Result<Option<(bool, Vec<u8>, Vec<u8>)>, Error>)
    ensures
        match result_of_code(reply.code) {
            Ok(moved) => r matches Ok(Some(t)) && t.0 == moved && t.1@ == reply.key@ && t.2@
                == reply.value@,
            Err(Error::NotFound) => r matches Ok(None),
            Err(e) => r == Err::<Option<(bool, Vec<u8>, Vec<u8>)>, Error>(e),
        },
{
    let CursorReply { code, key, value } = reply;
    optional(
        match mdbx_result(code) {
            Ok(moved) => Ok((moved, key, value)),
            Err(e) => Err(e),
        },
    )
}

/// The outcome of a cursor write (put or delete): done, or the engine's error.
pub fn write_outcome(code: i32) -> (r: Result<(), Error>)
    ensures
        match result_of_code(code) {
            Ok(_) => r is Ok,
            Err(e) => r == Err::<(), Error>(e),
        },
{
    match mdbx_result(code) {
        Ok(_) => Ok(()),
        Err(e) => Err(e),
    }
}

/// An iteration over key/value pairs.
#[derive(Debug)]
pub enum IntoIter {
    /// Poisoned by a failed seek: yields this error once, then ends.
    Failed(Error),
    /// Running: `op` is the next cursor operation, `next_op` every later one.
    Running { op: MDBX_cursor_op, next_op: MDBX_cursor_op },
    /// Over: yields nothing more.
    Done,
}

/// The same iteration state machine, over a borrowed cursor.
pub type Iter = IntoIter;

/// What a call to `next` yields, in the model: an item, an error, or the end.
pub enum Yield {
    Item(Seq<u8>, Seq<u8>),
    Fail(Error),
    End,
}

/// The model of one step of an iteration: the next state and what is
/// yielded, given the engine's reply to the pending operation (if any).
pub open spec fn iter_step(it: IntoIter, code: i32, key: Seq<u8>, value: Seq<u8>) -> (
    IntoIter,
    Yield,
) {
    match it {
        IntoIter::Failed(e) => (IntoIter::Done, Yield::Fail(e)),
        IntoIter::Done => (IntoIter::Done, Yield::End),
        IntoIter::Running { op, next_op } => if code == sys::MDBX_SUCCESS {
            (IntoIter::Running { op: next_op, next_op }, Yield::Item(key, value))
        } else if ends_iteration(code) {
            (IntoIter::Done, Yield::End)
        } else {
            (IntoIter::Done, Yield::Fail(error_of_code(code)))
        },
    }
}

/// `r` is what the model says is yielded.
pub open spec fn yields(r: Option<Result<Pair, Error>>, y: Yield) -> bool {
    match y {
        Yield::Item(k, v) => r matches Some(Ok(p)) && p.0@ == k && p.1@ == v,
        Yield::Fail(e) => r == Some(Err::<Pair, Error>(e)),
        Yield::End => r is None,
    }
}

/// The pending operation of a state, if it reads from the engine.
pub open spec fn pending_of(it: IntoIter) -> Option<MDBX_cursor_op> {
    match it {
        IntoIter::Running { op, .. } => Some(op),
        _ => None,
    }
}

impl IntoIter {
    /// Iterates from the item after the cursor's position (from the first
    /// item, for a fresh cursor).
    pub fn from_cursor() -> (r: Self)
        ensures
            r == (IntoIter::Running { op: MDBX_cursor_op::MDBX_NEXT, next_op: MDBX_cursor_op::MDBX_NEXT }),
    {
        IntoIter::Running { op: MDBX_cursor_op::MDBX_NEXT, next_op: MDBX_cursor_op::MDBX_NEXT }
    }

    /// Iterates from the first item of the table.
    pub fn from_start() -> (r: Self)
        ensures
            r == start_state(),
    {
        IntoIter::Running { op: MDBX_cursor_op::MDBX_FIRST, next_op: MDBX_cursor_op::MDBX_NEXT }
    }

    /// Iterates from the position a seek to the first key not below a given
    /// key left the cursor at; `seek` is whether that seek found a position.
    /// A seek past every key gives an empty iteration; a failed seek poisons
    /// the iteration with its error.
    pub fn from_seek(seek: Result<bool, Error>) -> (r: Self)
        ensures
            r == seek_start(seek),
    {
        match seek {
            Ok(true) => IntoIter::Running {
                op: MDBX_cursor_op::MDBX_GET_CURRENT,
                next_op: MDBX_cursor_op::MDBX_NEXT,
            },
            Ok(false) => IntoIter::Done,
            Err(e) => IntoIter::Failed(e),
        }
    }

    /// Iterates over the values of one key, from the position an exact seek
    /// to that key left the cursor at; `seek` is whether the key was found.
    /// An absent key gives an empty iteration; a failed seek poisons it.
    pub fn dups_of(seek: Result<bool, Error>) -> (r: Self)
        ensures
            match seek {
                Ok(true) => r == (IntoIter::Running {
                    op: MDBX_cursor_op::MDBX_GET_CURRENT,
                    next_op: MDBX_cursor_op::MDBX_NEXT_DUP,
                }),
                Ok(false) => r == IntoIter::Done,
                Err(e) => r == IntoIter::Failed(e),
            },
    {
        match seek {
            Ok(true) => IntoIter::Running {
                op: MDBX_cursor_op::MDBX_GET_CURRENT,
                next_op: MDBX_cursor_op::MDBX_NEXT_DUP,
            },
            Ok(false) => IntoIter::Done,
            Err(e) => IntoIter::Failed(e),
        }
    }

    /// The cursor operation to perform before the next call of `next`, if
    /// that call reads from the engine.
    pub fn pending_op(&self) -> (r: Option<MDBX_cursor_op>)
        ensures
            r == pending_of(*self),
    {
        match self {
            IntoIter::Running { op, .. } => Some(*op),
            _ => None,
        }
    }

    /// Yields the next pair. `reply` is the engine's reply to the pending
    /// operation, and is given exactly when there is one. A success yields
    /// the pair; "not found" or "no data" ends the iteration; any other code
    /// yields its error once and ends the iteration.
    pub fn next(&mut self, reply: Option<CursorReply>) -> (r: Option<Result<Pair, Error>>)
        requires
            pending_of(*old(self)) is Some <==> reply is Some,
        ensures
            ({
                let (code, key, value) = match reply {
                    Some(rp) => (rp.code, rp.key@, rp.value@),
                    None => (0i32, Seq::empty(), Seq::empty()),
                };
                let (s, y) = iter_step(*old(self), code, key, value);
                &&& *final(self) == s
                &&& yields(r, y)
            }),
    {
        let mut state = IntoIter::Done;
        std::mem::swap(self, &mut state);
        match state {
            IntoIter::Failed(e) => Some(Err(e)),
            IntoIter::Done => None,
            IntoIter::Running { op: _, next_op } => {
                let rp = reply.unwrap();
                if rp.code == sys::MDBX_SUCCESS {
                    *self = IntoIter::Running { op: next_op, next_op };
                    Some(Ok((rp.key, rp.value)))
                } else if rp.code == sys::MDBX_NOTFOUND || rp.code == sys::MDBX_ENODATA {
                    None
                } else {
                    Some(Err(Error::from_err_code(rp.code)))
                }
            },
        }
    }
}


/// The start of an iteration from a seek to the first key not below a given
/// key: running from the cursor's position when the seek found one, empty
/// when it did not, poisoned when it failed.
pub open spec fn seek_start(seek: Result<bool, Error>) -> IntoIter {
    match seek {
        Ok(true) => IntoIter::Running {
            op: MDBX_cursor_op::MDBX_GET_CURRENT,
            next_op: MDBX_cursor_op::MDBX_NEXT,
        },
        Ok(false) => IntoIter::Done,
        Err(e) => IntoIter::Failed(e),
    }
}

/// The start of an iteration from the first item of a table.
pub open spec fn start_state() -> IntoIter {
    IntoIter::Running { op: MDBX_cursor_op::MDBX_FIRST, next_op: MDBX_cursor_op::MDBX_NEXT }
}

/// One engine reply in the model: status code, key, value.
pub type Reply = (i32, Seq<u8>, Seq<u8>);

/// The pairs an iteration yields while the engine answers its successive
/// operations with `replies`, up to its end or its first error.
pub open spec fn items_of(it: IntoIter, replies: Seq<Reply>) -> Seq<(Seq<u8>, Seq<u8>)>
    decreases replies.len(),
{
    if replies.len() == 0 || !(it is Running) {
        Seq::empty()
    } else {
        let (s, y) = iter_step(it, replies[0].0, replies[0].1, replies[0].2);
        match y {
            Yield::Item(k, v) => seq![(k, v)] + items_of(s, replies.drop_first()),
            _ => Seq::empty(),
        }
    }
}

/// The cursor operations an iteration performs while the engine answers
/// them with `replies`, up to its end or its first error.
pub open spec fn ops_of(it: IntoIter, replies: Seq<Reply>) -> Seq<MDBX_cursor_op>
    decreases replies.len(),
{
    if replies.len() == 0 {
        Seq::empty()
    } else {
        match it {
            IntoIter::Running { op, next_op } => {
                let (s, y) = iter_step(it, replies[0].0, replies[0].1, replies[0].2);
                seq![op] + match y {
                    Yield::Item(_, _) => ops_of(s, replies.drop_first()),
                    _ => Seq::empty(),
                }
            },
            _ => Seq::empty(),
        }
    }
}

/// The pairs read by positioning the cursor with `first_op` and then with
/// "next" until a call reports no such position.
pub open spec fn stepped_items(replies: Seq<Reply>) -> Seq<(Seq<u8>, Seq<u8>)>
    decreases replies.len(),
{
    if replies.len() == 0 {
        Seq::empty()
    } else {
        match full_outcome(replies[0].0, replies[0].1, replies[0].2) {
            Ok(Some((k, v))) => seq![(k, v)] + stepped_items(replies.drop_first()),
            _ => Seq::empty(),
        }
    }
}

/// The cursor operations of positioning with `first_op` and then with
/// "next" until a call reports no such position.
pub open spec fn stepped_ops(first_op: MDBX_cursor_op, replies: Seq<Reply>) -> Seq<MDBX_cursor_op>
    decreases replies.len(),
{
    if replies.len() == 0 {
        Seq::empty()
    } else {
        seq![first_op] + match full_outcome(replies[0].0, replies[0].1, replies[0].2) {
            Ok(Some(_)) => stepped_ops(MDBX_cursor_op::MDBX_NEXT, replies.drop_first()),
            _ => Seq::empty(),
        }
    }
}

/// Every reply is a plain success or "not found".
pub open spec fn plain_replies(replies: Seq<Reply>) -> bool {
    forall|i: int|
        0 <= i < replies.len() ==> (#[trigger] replies[i]).0 == sys::MDBX_SUCCESS || replies[i].0
            == sys::MDBX_NOTFOUND
}

proof fn lemma_running_matches_stepping(op: MDBX_cursor_op, replies: Seq<Reply>)
    requires
        plain_replies(replies),
    ensures
        items_of(IntoIter::Running { op, next_op: MDBX_cursor_op::MDBX_NEXT }, replies)
            == stepped_items(replies),
        ops_of(IntoIter::Running { op, next_op: MDBX_cursor_op::MDBX_NEXT }, replies)
            == stepped_ops(op, replies),
    decreases replies.len(),
{
    if replies.len() > 0 {
        let rest = replies.drop_first();
        assert(plain_replies(rest)) by {
            assert forall|i: int| 0 <= i < rest.len() implies (#[trigger] rest[i]).0
                == sys::MDBX_SUCCESS || rest[i].0 == sys::MDBX_NOTFOUND by {
                assert(rest[i] == replies[i + 1]);
            }
        }
        lemma_running_matches_stepping(MDBX_cursor_op::MDBX_NEXT, rest);
        let c = replies[0].0;
        assert(c == sys::MDBX_SUCCESS || c == sys::MDBX_NOTFOUND);
    }
}

/// Iterating from the start of a table yields the same pairs, through the
/// same cursor operations, as positioning at the first item and then
/// stepping to the next one until no item is left, for any contents the
/// engine reports through plain successes and "not found".
pub proof fn lemma_start_agrees_with_stepping(replies: Seq<Reply>)
    requires
        plain_replies(replies),
    ensures
        items_of(start_state(), replies) == stepped_items(replies),
        ops_of(start_state(), replies) == stepped_ops(MDBX_cursor_op::MDBX_FIRST, replies),
{
    lemma_running_matches_stepping(MDBX_cursor_op::MDBX_FIRST, replies);
}

/// An iteration from a seek past every stored key yields nothing and
/// performs no further cursor operation, whatever the engine would reply.
pub proof fn lemma_seek_past_end_is_empty(replies: Seq<Reply>)
    ensures
        items_of(seek_start(Ok(false)), replies) == Seq::<(Seq<u8>, Seq<u8>)>::empty(),
        ops_of(seek_start(Ok(false)), replies) == Seq::<MDBX_cursor_op>::empty(),
{
}

/// An iteration over the values of each key in turn: every item it yields
/// is itself an iteration over one key's values.
#[derive(Debug)]
pub enum IterDup {
    /// Poisoned by a failed seek: yields one poisoned iteration, then ends.
    Failed(Error),
    /// Running: `op` moves the cursor to the next key to yield.
    Running { op: MDBX_cursor_op },
    /// Over: yields nothing more.
    Done,
}

/// The pending operation of a per-key iteration, if it reads from the engine.
pub open spec fn dup_pending_of(it: IterDup) -> Option<MDBX_cursor_op> {
    match it {
        IterDup::Running { op } => Some(op),
        _ => None,
    }
}

/// The iteration over the values of the key a cursor sits on.
pub open spec fn values_at_cursor() -> IntoIter {
    IntoIter::Running { op: MDBX_cursor_op::MDBX_GET_CURRENT, next_op: MDBX_cursor_op::MDBX_NEXT_DUP }
}

impl IterDup {
    /// Iterates from the key after the cursor's position.
    pub fn from_cursor() -> (r: Self)
        ensures
            r == (IterDup::Running { op: MDBX_cursor_op::MDBX_NEXT }),
    {
        IterDup::Running { op: MDBX_cursor_op::MDBX_NEXT }
    }

    /// Iterates from the first key of the table.
    pub fn from_start() -> (r: Self)
        ensures
            r == (IterDup::Running { op: MDBX_cursor_op::MDBX_FIRST }),
    {
        IterDup::Running { op: MDBX_cursor_op::MDBX_FIRST }
    }

    /// Iterates from the position a seek to the first key not below a given
    /// key left the cursor at; empty when the seek found nothing, poisoned
    /// when it failed.
    pub fn from_seek(seek: Result<bool, Error>) -> (r: Self)
        ensures
            match seek {
                Ok(true) => r == (IterDup::Running { op: MDBX_cursor_op::MDBX_GET_CURRENT }),
                Ok(false) => r == IterDup::Done,
                Err(e) => r == IterDup::Failed(e),
            },
    {
        match seek {
            Ok(true) => IterDup::Running { op: MDBX_cursor_op::MDBX_GET_CURRENT },
            Ok(false) => IterDup::Done,
            Err(e) => IterDup::Failed(e),
        }
    }

    /// The cursor operation to perform before the next call of `next`, if
    /// that call reads from the engine.
    pub fn pending_op(&self) -> (r: Option<MDBX_cursor_op>)
        ensures
            r == dup_pending_of(*self),
    {
        match self {
            IterDup::Running { op } => Some(*op),
            _ => None,
        }
    }

    /// Yields the iteration over the next key's values. `code` is the
    /// engine's status for the pending operation, given exactly when there
    /// is one. On success the cursor sits on a new key: the values of that
    /// key are yielded (read from a copy of the cursor) and the next call
    /// moves on to the following key. Any other status ends the iteration.
    pub fn next(&mut self, code: Option<i32>) -> (r: Option<IntoIter>)
        requires
            dup_pending_of(*old(self)) is Some <==> code is Some,
        ensures
            match *old(self) {
                IterDup::Failed(e) => *final(self) == IterDup::Done && r == Some(
                    IntoIter::Failed(e),
                ),
                IterDup::Done => *final(self) == IterDup::Done && r is None,
                IterDup::Running { op } => if code == Some(sys::MDBX_SUCCESS) {
                    *final(self) == (IterDup::Running { op: MDBX_cursor_op::MDBX_NEXT_NODUP })
                        && r == Some(values_at_cursor())
                } else {
                    *final(self) == IterDup::Done && r is None
                },
            },
    {
        let mut state = IterDup::Done;
        std::mem::swap(self, &mut state);
        match state {
            IterDup::Failed(e) => Some(IntoIter::Failed(e)),
            IterDup::Done => None,
            IterDup::Running { op: _ } => {
                if code.unwrap() == sys::MDBX_SUCCESS {
                    *self = IterDup::Running { op: MDBX_cursor_op::MDBX_NEXT_NODUP };
                    Some(
                        IntoIter::Running {
                            op: MDBX_cursor_op::MDBX_GET_CURRENT,
                            next_op: MDBX_cursor_op::MDBX_NEXT_DUP,
                        },
                    )
                } else {
                    None
                }
            },
        }
    }
}

} // verus!
