//! The reconciler's decision: which provider calls, in which order, converge
//! the zone on one desired record, given a snapshot of the zone and the
//! chosen upsert strategy.

use vstd::prelude::*;
use crate::records::{
    DesiredRecord, DesiredRecordV, ExistingRecord, ExistingRecordV, find_match, is_match,
    snapshot_view,
};

verus! {

/// Whether the provider's update endpoint is trusted to work. When it is
/// not, a matched record is deleted and recreated instead of updated. A
/// configuration choice of the caller, never decided silently.
#[derive(Clone, Copy, Debug, PartialEq, Eq, Structural)]
pub enum UpsertMode {
    UpdateCapable,
    UpdateIncapable,
}

/// One mutating call against the provider.
pub enum ProviderCall {
    Create { desired: DesiredRecord },
    Update { id: u64, desired: DesiredRecord },
    Delete { id: u64 },
}

/// Mathematical image of a `ProviderCall`.
pub enum CallV {
    Create { desired: DesiredRecordV },
    Update { id: u64, desired: DesiredRecordV },
    Delete { id: u64 },
}

impl View for ProviderCall {
    type V = CallV;

    open spec fn view(&self) -> CallV {
        match self {
            ProviderCall::Create { desired } => CallV::Create { desired: desired@ },
            ProviderCall::Update { id, desired } => (CallV::Update {
                id: *id,
                desired: desired@,
            }),
            ProviderCall::Delete { id } => CallV::Delete { id: *id },
        }
    }
}

/// A planned call sequence as a sequence of mathematical calls.
pub open spec fn calls_view(s: Seq<ProviderCall>) -> Seq<CallV> {
    s.map_values(|c: ProviderCall| c@)
}

/// The index of the first record of `s` matching `d`, if any.
pub open spec fn find_first(s: Seq<ExistingRecordV>, d: DesiredRecordV) -> Option<int>
    decreases s.len(),
{
    if s.len() == 0 {
        None
    } else if is_match(s[0], d) {
        Some(0)
    } else {
        match find_first(s.drop_first(), d) {
            Some(i) => Some(i + 1),
            None => None,
        }
    }
}

/// `find_first` returns the first matching index: the record there matches,
/// and nothing before it does; `None` exactly when nothing matches at all.
pub proof fn lemma_find_first(s: Seq<ExistingRecordV>, d: DesiredRecordV)
    ensures
        match find_first(s, d) {
            Some(i) => 0 <= i < s.len() && is_match(s[i], d) && (forall|k: int|
                0 <= k < i ==> !is_match(s[k], d)),
            None => forall|k: int| 0 <= k < s.len() ==> !is_match(s[k], d),
        },
    decreases s.len(),
{
    if s.len() > 0 && !is_match(s[0], d) {
        lemma_find_first(s.drop_first(), d);
        assert(forall|k: int| 1 <= k < s.len() ==> s[k] == s.drop_first()[k - 1]);
    }
}

/// `find_first` is pinned by its characterization: any index that matches
/// with nothing matching before it is the one returned.
pub proof fn lemma_find_first_unique(s: Seq<ExistingRecordV>, d: DesiredRecordV, i: int)
    requires
        0 <= i < s.len(),
        is_match(s[i], d),
        forall|k: int| 0 <= k < i ==> !is_match(s[k], d),
    ensures
        find_first(s, d) == Some(i),
{
    lemma_find_first(s, d);
    match find_first(s, d) {
        Some(j) => {
            if j < i {
                assert(!is_match(s[j], d));
            } else if i < j {
                assert(!is_match(s[i], d));
            }
        },
        None => {
            assert(!is_match(s[i], d));
        },
    }
}

/// The calls the reconciler issues for `d` against snapshot `s` under
/// `mode`: a bare create when nothing matches; an update of the first match
/// in update-capable mode; a delete of the first match followed by a create
/// in update-incapable mode.
pub open spec fn plan_spec(s: Seq<ExistingRecordV>, d: DesiredRecordV, mode: UpsertMode) -> Seq<
    CallV,
> {
    match find_first(s, d) {
        None => seq![CallV::Create { desired: d }],
        Some(i) => {
            if mode == UpsertMode::UpdateCapable {
                seq![CallV::Update { id: s[i].id, desired: d }]
            } else {
                seq![CallV::Delete { id: s[i].id }, CallV::Create { desired: d }]
            }
        },
    }
}

/// Plans the call sequence for one desired record.
pub fn plan_calls(records: &Vec<ExistingRecord>, d: &DesiredRecord, mode: UpsertMode) -> (r: Vec<
    ProviderCall,
>)
    ensures
        calls_view(r@) == plan_spec(snapshot_view(records@), d@, mode),
{
    let found = find_match(records, d);
    let r: Vec<ProviderCall> = match found {
        None => {
            proof {
                lemma_find_first(snapshot_view(records@), d@);
                assert(forall|k: int|
                    0 <= k < records@.len() ==> snapshot_view(records@)[k] == #[trigger] records@[k]@);
            }
            vec![ProviderCall::Create { desired: d.duplicate() }]
        },
        Some(i) => {
            proof {
                assert(forall|k: int|
                    0 <= k < records@.len() ==> snapshot_view(records@)[k] == #[trigger] records@[k]@);
                lemma_find_first_unique(snapshot_view(records@), d@, i as int);
            }
            let id = records[i].id;
            match mode {
                UpsertMode::UpdateCapable => {
                    vec![ProviderCall::Update { id, desired: d.duplicate() }]
                },
                UpsertMode::UpdateIncapable => {
                    vec![
                        ProviderCall::Delete { id },
                        ProviderCall::Create { desired: d.duplicate() },
                    ]
                },
            }
        },
    };
    proof {
        assert(calls_view(r@) =~= plan_spec(snapshot_view(records@), d@, mode));
    }
    r
}

/// When no record of the snapshot matches the desired record, the plan is
/// exactly one create carrying the desired record, and no update or delete.
pub proof fn lemma_unmatched_plans_single_create(
    s: Seq<ExistingRecordV>,
    d: DesiredRecordV,
    mode: UpsertMode,
)
    requires
        forall|k: int| 0 <= k < s.len() ==> !is_match(s[k], d),
    ensures
        plan_spec(s, d, mode) == seq![CallV::Create { desired: d }],
{
    lemma_find_first(s, d);
    if let Some(i) = find_first(s, d) {
        assert(!is_match(s[i], d));
    }
}

/// When exactly one record matches, update-capable mode plans exactly one
/// update, addressed to that record's identifier, and no create or delete.
pub proof fn lemma_single_match_plans_update(s: Seq<ExistingRecordV>, d: DesiredRecordV, i: int)
    requires
        0 <= i < s.len(),
        is_match(s[i], d),
        forall|k: int| 0 <= k < s.len() && k != i ==> !is_match(s[k], d),
    ensures
        plan_spec(s, d, UpsertMode::UpdateCapable) == seq![
            CallV::Update { id: s[i].id, desired: d },
        ],
{
    lemma_find_first_unique(s, d, i);
}

/// When exactly one record matches, update-incapable mode plans a delete of
/// that record's identifier followed by a create of the desired record, in
/// that order.
pub proof fn lemma_single_match_plans_recreate(s: Seq<ExistingRecordV>, d: DesiredRecordV, i: int)
    requires
        0 <= i < s.len(),
        is_match(s[i], d),
        forall|k: int| 0 <= k < s.len() && k != i ==> !is_match(s[k], d),
    ensures
        plan_spec(s, d, UpsertMode::UpdateIncapable) == seq![
            CallV::Delete { id: s[i].id },
            CallV::Create { desired: d },
        ],
{
    lemma_find_first_unique(s, d, i);
}

/// Matching is exact on both fields: a record differing from the desired one
/// in type or in qualified name is never selected as the match.
pub proof fn lemma_match_needs_both_fields(r: ExistingRecordV, d: DesiredRecordV)
    requires
        r.rtype != d.rtype || r.qualified_name != d.qualified_name,
    ensures
        !is_match(r, d),
{
}

/// When several records match, only the first in snapshot order is acted
/// upon: the plan is the same as if it alone matched, whatever follows it.
pub proof fn lemma_first_match_wins(
    s: Seq<ExistingRecordV>,
    d: DesiredRecordV,
    i: int,
    mode: UpsertMode,
)
    requires
        0 <= i < s.len(),
        is_match(s[i], d),
        forall|k: int| 0 <= k < i ==> !is_match(s[k], d),
    ensures
        plan_spec(s, d, mode) == plan_spec(s.take(i + 1), d, mode),
        forall|c: CallV| #[trigger] plan_spec(s, d, mode).contains(c) ==> match c {
            CallV::Create { desired } => desired == d,
            CallV::Update { id, desired } => id == s[i].id && desired == d,
            CallV::Delete { id } => id == s[i].id,
        },
{
    lemma_find_first_unique(s, d, i);
    assert(forall|k: int| 0 <= k < i + 1 ==> s.take(i + 1)[k] == s[k]);
    lemma_find_first_unique(s.take(i + 1), d, i);
}

} // verus!
