//! The grant authority: the only writer and reader of the grant store.
//! It records a grant for a target program, answers whether a target is
//! granted, and reads a recorded grant back.

use vstd::prelude::*;

use crate::grant_key::grant_key;
use crate::grant_key::grant_key_spec;
use crate::grant_key::lemma_grant_key_injective;
use crate::store::GrantRecord;
use crate::store::GrantStore;
use crate::values::Allowance;
use crate::values::ProgramId;

verus! {

/// Failure of a grant lookup.
#[derive(Clone, Copy, Debug, PartialEq, Eq)]
pub enum GrantError {
    /// No grant is recorded for the target program.
    NotFound,
    /// The underlying storage read could not be fetched or decoded.  The
    /// in-memory store never produces it; it is kept for callers that
    /// surface reads from a storage backend whose reads can fail.
    ReadFailure,
}

/// Records a grant for a target program, overwriting any grant already
/// recorded for it.  No ordering of `start_date` and `end_date` is
/// enforced, and no caller-identity check is performed here: restricting
/// who may issue a grant is left to the surrounding deployment.
pub fn issue_grant(
    store: &mut GrantStore,
    target: &ProgramId,
    start_date: u64,
    end_date: u64,
    allowance: Allowance,
)
    requires
        old(store).wf(),
    ensures
        final(store).wf(),
        final(store)@ == old(store)@.insert(
            grant_key_spec(target@),
            (GrantRecord { start_date, end_date, allowance }),
        ),
{
    let key = grant_key(target);
    store.put(key, GrantRecord { start_date, end_date, allowance });
}

/// Tells whether a grant is recorded for a target program.  A pure
/// existence check: the validity window plays no part in it.  Never fails.
pub fn is_granted(store: &GrantStore, target: &ProgramId) -> (r: bool)
    requires
        store.wf(),
    ensures
        r == store@.contains_key(grant_key_spec(target@)),
{
    let key = grant_key(target);
    store.has(&key)
}

/// Reads the grant recorded for a target program.  Fails with `NotFound`
/// exactly when no grant is recorded; an in-memory read cannot fail
/// otherwise, so `ReadFailure` is never returned.
pub fn read_grant(store: &GrantStore, target: &ProgramId) -> (r: Result<GrantRecord, GrantError>)
    requires
        store.wf(),
    ensures
        match r {
            Ok(record) => store@.contains_key(grant_key_spec(target@)) && record == store@[
                grant_key_spec(target@)
            ],
            Err(e) => !store@.contains_key(grant_key_spec(target@)) && e == GrantError::NotFound,
        },
{
    let key = grant_key(target);
    match store.get(&key) {
        Some(record) => Ok(record),
        None => Err(GrantError::NotFound),
    }
}

/// Reads the grant recorded for a target program as the triple
/// `(start_date, end_date, allowance)` — the same canonical field order
/// in which `issue_grant` stores it.
pub fn get_grant_info_by_smart_contract(store: &GrantStore, target: &ProgramId) -> (r: Result<
    (u64, u64, Allowance),
    GrantError,
>)
    requires
        store.wf(),
    ensures
        match r {
            Ok(info) => store@.contains_key(grant_key_spec(target@)) && info == (
                store@[grant_key_spec(target@)].start_date,
                store@[grant_key_spec(target@)].end_date,
                store@[grant_key_spec(target@)].allowance,
            ),
            Err(e) => !store@.contains_key(grant_key_spec(target@)) && e == GrantError::NotFound,
        },
{
    match read_grant(store, target) {
        Ok(record) => Ok((record.start_date, record.end_date, record.allowance)),
        Err(e) => Err(e),
    }
}

/// After a grant is issued for a target, the target is granted and the
/// store holds exactly the record issued, under the target's key.
pub proof fn lemma_issue_then_read(
    m: Map<Seq<char>, GrantRecord>,
    target: ProgramId,
    record: GrantRecord,
)
    ensures
        m.insert(grant_key_spec(target@), record).contains_key(grant_key_spec(target@)),
        m.insert(grant_key_spec(target@), record)[grant_key_spec(target@)] == record,
{
}

/// Re-issuing a grant for the same target overwrites the prior record:
/// two issues in a row leave the store as the second alone would, and a
/// read returns only the second record.
pub proof fn lemma_reissue_overwrites(
    m: Map<Seq<char>, GrantRecord>,
    target: ProgramId,
    first: GrantRecord,
    second: GrantRecord,
)
    ensures
        m.insert(grant_key_spec(target@), first).insert(grant_key_spec(target@), second)
            =~= m.insert(grant_key_spec(target@), second),
        m.insert(grant_key_spec(target@), first).insert(grant_key_spec(target@), second)[
            grant_key_spec(target@)
        ] == second,
{
}

/// A target never granted stays ungranted: issuing a grant for a distinct
/// target does not authorize this one, since distinct identifiers never
/// share a grant key.
pub proof fn lemma_other_grant_does_not_authorize(
    m: Map<Seq<char>, GrantRecord>,
    granted: ProgramId,
    other: ProgramId,
    record: GrantRecord,
)
    requires
        granted@ != other@,
        !m.contains_key(grant_key_spec(other@)),
    ensures
        !m.insert(grant_key_spec(granted@), record).contains_key(grant_key_spec(other@)),
{
    if grant_key_spec(granted@) == grant_key_spec(other@) {
        lemma_grant_key_injective(granted@, other@);
    }
}

} // verus!
