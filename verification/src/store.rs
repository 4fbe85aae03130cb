//! The duplicate store: a persistent map from fingerprint to a tri-state
//! marker, backed by an embedded key-value tree.  An empty value marks a
//! fingerprint as seen; the one-byte value `[1]` marks it as explicitly
//! allowed; an absent entry means it was never recorded.

use crate::fingerprint::{fingerprint, fingerprint_of};
use vstd::prelude::*;

verus! {

/// The embedded key-value tree that persists the store.  The library reaches
/// it only through the trusted wrappers below.
#[verifier::external_type_specification]
#[verifier::external_body]
pub struct ExDb(sled::Db);

/// The entries the backing tree currently holds, as a map from key bytes to
/// value bytes.
pub uninterp spec fn db_entries(db: sled::Db) -> Map<Seq<u8>, Seq<u8>>;

/// A failure of the persistent store (an I/O or corruption error reported by
/// the backing tree).  It aborts the operation that met it; nothing is
/// retried.
#[derive(Debug)]
pub struct StoreError {
    pub detail: String,
}

/// The marker value recording ordinary first sight, and the one written by a
/// forbid override: the empty byte string.
pub open spec fn seen_marker() -> Seq<u8> {
    Seq::<u8>::empty()
}

/// The marker value written by an allow override: a single non-zero byte.
pub open spec fn allowed_marker() -> Seq<u8> {
    seq![1u8]
}

/// The three semantic states a fingerprint can be in.
pub enum Marker {
    Unseen,
    Seen,
    Allowed,
}

/// How the stored bytes for a fingerprint decode: absent means unseen, an
/// empty value means seen, a non-empty value means allowed.
pub open spec fn marker_of(m: Map<Seq<u8>, Seq<u8>>, fp: Seq<u8>) -> Marker {
    if !m.contains_key(fp) {
        Marker::Unseen
    } else if m[fp].len() == 0 {
        Marker::Seen
    } else {
        Marker::Allowed
    }
}

/// What `record_if_new` observed: the fingerprint was new, or it repeated a
/// seen entry, or it repeated an explicitly allowed entry.
#[derive(Clone, Copy, Debug, PartialEq, Eq, Structural)]
pub enum Recorded {
    New,
    RepeatSeen,
    RepeatAllowed,
}

/// The store after recording a fingerprint: an unseen fingerprint becomes
/// seen; a present one, seen or allowed, is left as it is.
pub open spec fn record_map(m: Map<Seq<u8>, Seq<u8>>, fp: Seq<u8>) -> Map<Seq<u8>, Seq<u8>> {
    if m.contains_key(fp) {
        m
    } else {
        m.insert(fp, seen_marker())
    }
}

/// What recording a fingerprint reports.
pub open spec fn record_outcome(m: Map<Seq<u8>, Seq<u8>>, fp: Seq<u8>) -> Recorded {
    match marker_of(m, fp) {
        Marker::Unseen => Recorded::New,
        Marker::Seen => Recorded::RepeatSeen,
        Marker::Allowed => Recorded::RepeatAllowed,
    }
}

/// The store after an allow override: the fingerprint maps to the allowed
/// marker, whatever it held before.
pub open spec fn allow_map(m: Map<Seq<u8>, Seq<u8>>, fp: Seq<u8>) -> Map<Seq<u8>, Seq<u8>> {
    m.insert(fp, allowed_marker())
}

/// The store after a forbid override: the fingerprint maps to the seen
/// marker, exactly as if the text had occurred organically.
pub open spec fn forbid_map(m: Map<Seq<u8>, Seq<u8>>, fp: Seq<u8>) -> Map<Seq<u8>, Seq<u8>> {
    m.insert(fp, seen_marker())
}

/// The duplicate store.  Its view is the map of entries the backing tree
/// holds; each operation is individually atomic against concurrent callers.
pub struct Store {
    db: sled::Db,
}

impl View for Store {
    type V = Map<Seq<u8>, Seq<u8>>;

    closed spec fn view(&self) -> Map<Seq<u8>, Seq<u8>> {
        db_entries(self.db)
    }
}

impl Store {
    /// Relies on `sled::open`: opens (creating it if absent) the tree
    /// persisted at `path`.  What it holds is whatever earlier runs left
    /// there, so nothing is stated of the entries.
    #[verifier::external_body]
    pub fn open(path: &str) -> (r: Result<Store, StoreError>) {
        match sled::open(path) {
            Ok(db) => Ok(Store { db }),
            Err(e) => Err(StoreError { detail: format!("{}", e) }),
        }
    }

    /// Relies on `sled::Config::open` with temporary storage: opens a tree
    /// backed by storage that is discarded when the store is dropped.
    #[verifier::external_body]
    pub fn open_temporary() -> (r: Result<Store, StoreError>) {
        match sled::Config::new().temporary(true).open() {
            Ok(db) => Ok(Store { db }),
            Err(e) => Err(StoreError { detail: format!("{}", e) }),
        }
    }

    /// Relies on `sled::Tree::compare_and_swap` (reached through `sled::Db`):
    /// in one atomic step, if no entry for `key` exists it is set to the
    /// empty value; if an entry exists, nothing changes and its current value
    /// is reported.
    #[verifier::external_body]
    fn cas_insert_if_absent(&mut self, key: &[u8; 16]) -> (r: Result<Option<Vec<u8>>, StoreError>)
        ensures
            match r {
                Ok(prev) => match prev {
                    None => !db_entries(old(self).db).contains_key(key@) && db_entries(
                        final(self).db,
                    ) == db_entries(old(self).db).insert(key@, seen_marker()),
                    Some(v) => db_entries(old(self).db).contains_key(key@) && db_entries(
                        old(self).db,
                    )[key@] == v@ && db_entries(final(self).db) == db_entries(old(self).db),
                },
                Err(_) => true,
            },
    {
        let empty: &[u8] = &[];
        match self.db.compare_and_swap(key, None::<&[u8]>, Some(empty)) {
            Ok(Ok(())) => Ok(None),
            Ok(Err(sled::CompareAndSwapError { current: Some(cur), .. })) => Ok(Some(cur.to_vec())),
            Ok(Err(_)) => Err(StoreError { detail: String::from("swap reported no current value") }),
            Err(e) => Err(StoreError { detail: format!("{}", e) }),
        }
    }

    /// Relies on `sled::Tree::insert` (reached through `sled::Db`): sets the
    /// entry for `key` to `value`, replacing any previous entry.
    #[verifier::external_body]
    fn db_insert(&mut self, key: &[u8; 16], value: &Vec<u8>) -> (r: Result<(), StoreError>)
        ensures
            match r {
                Ok(_) => db_entries(final(self).db) == db_entries(old(self).db).insert(
                    key@,
                    value@,
                ),
                Err(_) => true,
            },
    {
        match self.db.insert(key, value.as_slice()) {
            Ok(_) => Ok(()),
            Err(e) => Err(StoreError { detail: format!("{}", e) }),
        }
    }

    /// Records (channel, text) if it is not yet present: an unseen
    /// fingerprint becomes seen and the call reports `New`; otherwise the
    /// store is unchanged and the call reports which marker the repeat met.
    pub fn record_if_new(&mut self, channel_id: i64, text: &str) -> (r: Result<
        Recorded,
        StoreError,
    >)
        ensures
            match r {
                Ok(rec) => final(self)@ == record_map(
                    old(self)@,
                    fingerprint_of(channel_id, text@),
                ) && rec == record_outcome(old(self)@, fingerprint_of(channel_id, text@)),
                Err(_) => true,
            },
    {
        let fp = fingerprint(channel_id, text);
        match self.cas_insert_if_absent(&fp) {
            Ok(prev) => match prev {
                None => Ok(Recorded::New),
                Some(v) => if v.len() == 0 {
                    Ok(Recorded::RepeatSeen)
                } else {
                    Ok(Recorded::RepeatAllowed)
                },
            },
            Err(e) => Err(e),
        }
    }

    /// Marks (channel, text) as allowed: repeats of it are tolerated from
    /// now on, whatever the fingerprint held before.
    pub fn set_allowed(&mut self, channel_id: i64, text: &str) -> (r: Result<(), StoreError>)
        ensures
            match r {
                Ok(_) => final(self)@ == allow_map(old(self)@, fingerprint_of(channel_id, text@)),
                Err(_) => true,
            },
    {
        let fp = fingerprint(channel_id, text);
        let marker: Vec<u8> = vec![1u8];
        proof {
            assert(marker@ =~= allowed_marker());
        }
        self.db_insert(&fp, &marker)
    }

    /// Marks (channel, text) as seen, exactly as organic first sight would:
    /// the next identical live message is a repeat, even if the text was
    /// never organically sent.
    pub fn set_forbidden(&mut self, channel_id: i64, text: &str) -> (r: Result<(), StoreError>)
        ensures
            match r {
                Ok(_) => final(self)@ == forbid_map(old(self)@, fingerprint_of(channel_id, text@)),
                Err(_) => true,
            },
    {
        let fp = fingerprint(channel_id, text);
        let marker: Vec<u8> = Vec::new();
        proof {
            assert(marker@ =~= seen_marker());
        }
        self.db_insert(&fp, &marker)
    }
}

} // verus!
