//! The laws of the token lifecycle, stated over the store's map view and
//! proved once and for all. Each relates the contracts of `issue`, `lookup`
//! and `revoke` in `crate::lifecycle`: `issue` inserts the record it echoes,
//! `lookup` succeeds exactly on live keys and reads the stored record, and
//! `revoke` removes the key.

use vstd::prelude::*;

use crate::store::{fresh, live, RecordView};

verus! {

/// An issued token is immediately retrievable: after writing a fresh record
/// under `v`, the key `v` is live and holds exactly that record, so a
/// lookup returns the user and expiry just issued.
pub proof fn lemma_issue_then_lookup(
    m: Map<Seq<char>, RecordView>,
    v: Seq<char>,
    rec: RecordView,
    now: u64,
)
    requires
        fresh(rec, now),
    ensures
        live(m.insert(v, rec), v, now),
        m.insert(v, rec)[v] == rec,
{
}

/// Overwrite semantics: issuing twice under the same value, the second time
/// with a fresh record, leaves exactly the second record; a lookup then
/// returns the second user.
pub proof fn lemma_overwrite(
    m: Map<Seq<char>, RecordView>,
    v: Seq<char>,
    first: RecordView,
    second: RecordView,
    now: u64,
)
    requires
        fresh(second, now),
    ensures
        live(m.insert(v, first).insert(v, second), v, now),
        m.insert(v, first).insert(v, second)[v] == second,
{
}

/// A value never issued is not live at any time: a lookup returns
/// Not-found.
pub proof fn lemma_lookup_absent(m: Map<Seq<char>, RecordView>, v: Seq<char>, now: u64)
    requires
        !m.contains_key(v),
    ensures
        !live(m, v, now),
{
}

/// After a revocation the value is no longer live at any time: a lookup
/// returns Not-found.
pub proof fn lemma_revoke_then_lookup(m: Map<Seq<char>, RecordView>, v: Seq<char>, now: u64)
    ensures
        !live(m.remove(v), v, now),
{
}

/// Revoking a value that is not present leaves the store unchanged:
/// revocation is idempotent, and `revoke`'s contract makes it succeed
/// unconditionally.
pub proof fn lemma_revoke_absent(m: Map<Seq<char>, RecordView>, v: Seq<char>)
    requires
        !m.contains_key(v),
    ensures
        m.remove(v) == m,
{
    assert(m.remove(v) =~= m);
}

/// Round trip of the expiry: issuing with a deadline strictly in the future
/// and looking up before it reports exactly that deadline.
pub proof fn lemma_expiry_round_trip(
    m: Map<Seq<char>, RecordView>,
    v: Seq<char>,
    u: Seq<char>,
    deadline: u64,
    now: u64,
)
    requires
        now < deadline,
    ensures
        live(m.insert(v, (RecordView { user: u, deadline: Some(deadline) })), v, now),
        m.insert(v, (RecordView { user: u, deadline: Some(deadline) }))[v].deadline == Some(
            deadline,
        ),
{
}

/// A record without a deadline never expires: the key stays live at every
/// time, and a lookup reports no expiry indefinitely.
pub proof fn lemma_no_expiry_is_indefinite(
    m: Map<Seq<char>, RecordView>,
    v: Seq<char>,
    rec: RecordView,
    now: u64,
)
    requires
        rec.deadline is None,
    ensures
        live(m.insert(v, rec), v, now),
        m.insert(v, rec)[v].deadline is None,
{
}

/// A record whose deadline has been reached is no longer live: once the
/// backend's time-to-live elapses, a lookup returns Not-found.
pub proof fn lemma_expired_not_live(m: Map<Seq<char>, RecordView>, v: Seq<char>, now: u64)
    requires
        m.contains_key(v),
        m[v].deadline is Some,
        m[v].deadline->0 <= now,
    ensures
        !live(m, v, now),
{
}

} // verus!
