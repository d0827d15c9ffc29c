use libmdbx::cursor::{position_full, position_lowerbound, position_value, write_outcome};
use libmdbx::sys::{self, MDBX_cursor_op};
use libmdbx::{CursorReply, Error, IntoIter, IterDup};

fn reply(code: i32, key: &str, value: &str) -> CursorReply {
    CursorReply { code, key: key.as_bytes().to_vec(), value: value.as_bytes().to_vec() }
}

fn pair(key: &str, value: &str) -> (Vec<u8>, Vec<u8>) {
    (key.as_bytes().to_vec(), value.as_bytes().to_vec())
}

/// Drives an iteration against a list of engine replies, recording the
/// operations asked for and the items yielded.
fn drive(
    mut it: IntoIter,
    replies: &[CursorReply],
) -> (Vec<MDBX_cursor_op>, Vec<Result<(Vec<u8>, Vec<u8>), Error>>) {
    let mut ops = Vec::new();
    let mut out = Vec::new();
    let mut i = 0;
    loop {
        let r = match it.pending_op() {
            Some(op) => {
                ops.push(op);
                let rp = replies[i].clone();
                i += 1;
                it.next(Some(rp))
            }
            None => it.next(None),
        };
        match r {
            Some(item) => out.push(item),
            None => break,
        }
    }
    (ops, out)
}

#[test]
fn positioning_outcomes() {
    assert_eq!(position_full(reply(0, "k", "v")), Ok(Some(pair("k", "v"))));
    assert_eq!(position_full(reply(sys::MDBX_NOTFOUND, "", "")), Ok(None));
    assert_eq!(position_full(reply(sys::MDBX_BAD_TXN, "", "")), Err(Error::BadTxn));
    assert_eq!(position_value(reply(0, "k", "v")), Ok(Some(b"v".to_vec())));
    assert_eq!(position_value(reply(sys::MDBX_NOTFOUND, "k", "v")), Ok(None));
    assert_eq!(
        position_lowerbound(reply(-1, "key2", "v")),
        Ok(Some((true, b"key2".to_vec(), b"v".to_vec())))
    );
    assert_eq!(
        position_lowerbound(reply(0, "key1", "v")),
        Ok(Some((false, b"key1".to_vec(), b"v".to_vec())))
    );
    assert_eq!(write_outcome(0), Ok(()));
    assert_eq!(write_outcome(sys::MDBX_KEYEXIST), Err(Error::KeyExist));
}

#[test]
fn start_iteration_reads_first_then_next() {
    let replies = [
        reply(0, "key1", "val1"),
        reply(0, "key2", "val2"),
        reply(0, "key3", "val3"),
        reply(sys::MDBX_NOTFOUND, "", ""),
    ];
    let (ops, items) = drive(IntoIter::from_start(), &replies);
    assert_eq!(
        ops,
        vec![
            MDBX_cursor_op::MDBX_FIRST,
            MDBX_cursor_op::MDBX_NEXT,
            MDBX_cursor_op::MDBX_NEXT,
            MDBX_cursor_op::MDBX_NEXT
        ]
    );
    assert_eq!(
        items,
        vec![Ok(pair("key1", "val1")), Ok(pair("key2", "val2")), Ok(pair("key3", "val3"))]
    );

    // The same replies read by stepping with first() and next().
    let mut stepped = Vec::new();
    for rp in replies.iter() {
        match position_full(rp.clone()).unwrap() {
            Some(p) => stepped.push(Ok(p)),
            None => break,
        }
    }
    assert_eq!(stepped, items);
}

#[test]
fn iteration_from_cursor_uses_next() {
    let (ops, items) = drive(IntoIter::from_cursor(), &[reply(sys::MDBX_NOTFOUND, "", "")]);
    assert_eq!(ops, vec![MDBX_cursor_op::MDBX_NEXT]);
    assert!(items.is_empty());
}

#[test]
fn hundred_pairs_in_order() {
    let mut replies: Vec<CursorReply> = Vec::new();
    let mut keys: Vec<String> = (0..100).map(|i| format!("key{}", i)).collect();
    keys.sort();
    for k in &keys {
        let v = k.replace("key", "data");
        replies.push(reply(0, k, &v));
    }
    replies.push(reply(sys::MDBX_NOTFOUND, "", ""));
    let (_, items) = drive(IntoIter::from_start(), &replies);
    assert_eq!(items.len(), 100);
    assert_eq!(items[0], Ok(pair("key0", "data0")));
    assert_eq!(items[99], Ok(pair("key99", "data99")));
}

#[test]
fn seek_past_end_is_empty() {
    let (ops, items) = drive(IntoIter::from_seek(Ok(false)), &[]);
    assert!(ops.is_empty());
    assert!(items.is_empty());
}

#[test]
fn seek_found_reads_current_then_next() {
    let replies = [reply(0, "key4", "val4"), reply(sys::MDBX_ENODATA, "", "")];
    let (ops, items) = drive(IntoIter::from_seek(Ok(true)), &replies);
    assert_eq!(ops, vec![MDBX_cursor_op::MDBX_GET_CURRENT, MDBX_cursor_op::MDBX_NEXT]);
    assert_eq!(items, vec![Ok(pair("key4", "val4"))]);
}

#[test]
fn failed_seek_yields_one_error() {
    let (ops, items) = drive(IntoIter::from_seek(Err(Error::BadDbi)), &[]);
    assert!(ops.is_empty());
    assert_eq!(items, vec![Err(Error::BadDbi)]);
}

#[test]
fn engine_error_ends_iteration_after_one_error() {
    let replies = [reply(0, "a", "1"), reply(sys::MDBX_CORRUPTED, "", "")];
    let (_, items) = drive(IntoIter::from_start(), &replies);
    assert_eq!(items, vec![Ok(pair("a", "1")), Err(Error::Corrupted)]);
}

#[test]
fn values_of_one_key() {
    let replies = [
        reply(0, "key1", "val1"),
        reply(0, "key1", "val3"),
        reply(sys::MDBX_NOTFOUND, "", ""),
    ];
    let (ops, items) = drive(IntoIter::dups_of(Ok(true)), &replies);
    assert_eq!(ops, vec![
        MDBX_cursor_op::MDBX_GET_CURRENT,
        MDBX_cursor_op::MDBX_NEXT_DUP,
        MDBX_cursor_op::MDBX_NEXT_DUP
    ]);
    assert_eq!(items, vec![Ok(pair("key1", "val1")), Ok(pair("key1", "val3"))]);
    let (ops, items) = drive(IntoIter::dups_of(Ok(false)), &[]);
    assert!(ops.is_empty() && items.is_empty());
}

#[test]
fn per_key_iteration() {
    let mut it = IterDup::from_start();
    assert_eq!(it.pending_op(), Some(MDBX_cursor_op::MDBX_FIRST));
    let inner = it.next(Some(0)).unwrap();
    assert_eq!(inner.pending_op(), Some(MDBX_cursor_op::MDBX_GET_CURRENT));
    assert_eq!(it.pending_op(), Some(MDBX_cursor_op::MDBX_NEXT_NODUP));
    assert!(it.next(Some(sys::MDBX_NOTFOUND)).is_none());
    assert_eq!(it.pending_op(), None);
    assert!(it.next(None).is_none());

    let mut failed = IterDup::from_seek(Err(Error::Busy));
    let mut inner = failed.next(None).unwrap();
    assert_eq!(inner.next(None), Some(Err(Error::Busy)));
    assert_eq!(inner.next(None), None);
    assert!(failed.next(None).is_none());

    assert_eq!(IterDup::from_seek(Ok(false)).pending_op(), None);
    assert_eq!(IterDup::from_cursor().pending_op(), Some(MDBX_cursor_op::MDBX_NEXT));
}

#[test]
fn cursor_op_codes() {
    assert_eq!(MDBX_cursor_op::MDBX_FIRST.code(), 0);
    assert_eq!(MDBX_cursor_op::MDBX_NEXT.code(), 8);
    assert_eq!(MDBX_cursor_op::MDBX_SET_RANGE.code(), 17);
    assert_eq!(MDBX_cursor_op::MDBX_SET_LOWERBOUND.code(), 19);
}
