//! The record model: the supported record types, the desired state of one
//! record, and a record as the provider currently stores it.

use vstd::prelude::*;

verus! {

/// The closed set of record types the provider's schema defines. Only `A`
/// and `AAAA` are driven by the updater, but matching must be exact over
/// the whole set.
#[derive(Clone, Copy, Debug, PartialEq, Eq, Structural)]
pub enum RecordType {
    A,
    AAAA,
    CAA,
    CNAME,
    MX,
    NS,
    SRV,
    TXT,
}

/// The target state the reconciler must realize: one record of `rtype` under
/// the fully qualified name, pointing at `data`.
pub struct DesiredRecord {
    pub rtype: RecordType,
    pub qualified_name: String,
    pub data: String,
}

/// A record as currently stored by the provider. `id` is the
/// provider-assigned identifier, needed for update and delete.
pub struct ExistingRecord {
    pub id: u64,
    pub rtype: RecordType,
    pub qualified_name: String,
    pub data: String,
}

/// Mathematical image of a `DesiredRecord`.
pub struct DesiredRecordV {
    pub rtype: RecordType,
    pub qualified_name: Seq<char>,
    pub data: Seq<char>,
}

/// Mathematical image of an `ExistingRecord`.
pub struct ExistingRecordV {
    pub id: u64,
    pub rtype: RecordType,
    pub qualified_name: Seq<char>,
    pub data: Seq<char>,
}

impl View for DesiredRecord {
    type V = DesiredRecordV;

    open spec fn view(&self) -> DesiredRecordV {
        DesiredRecordV {
            rtype: self.rtype,
            qualified_name: self.qualified_name@,
            data: self.data@,
        }
    }
}

impl View for ExistingRecord {
    type V = ExistingRecordV;

    open spec fn view(&self) -> ExistingRecordV {
        ExistingRecordV {
            id: self.id,
            rtype: self.rtype,
            qualified_name: self.qualified_name@,
            data: self.data@,
        }
    }
}

/// The snapshot as a sequence of mathematical records.
pub open spec fn snapshot_view(s: Seq<ExistingRecord>) -> Seq<ExistingRecordV> {
    s.map_values(|r: ExistingRecord| r@)
}

/// An existing record matches a desired one exactly when both the type and
/// the qualified name are equal. Neither the data nor the identifier takes
/// part in matching.
pub open spec fn is_match(r: ExistingRecordV, d: DesiredRecordV) -> bool {
    r.rtype == d.rtype && r.qualified_name == d.qualified_name
}

impl DesiredRecord {
    /// An exact copy, so one desired record can drive several planned calls.
    pub fn duplicate(&self) -> (r: DesiredRecord)
        ensures
            r@ == self@,
    {
        DesiredRecord {
            rtype: self.rtype,
            qualified_name: self.qualified_name.clone(),
            data: self.data.clone(),
        }
    }
}

/// Whether `r` matches `d` on (type, qualified name).
pub fn record_matches(r: &ExistingRecord, d: &DesiredRecord) -> (b: bool)
    ensures
        b == is_match(r@, d@),
{
    r.rtype == d.rtype && r.qualified_name == d.qualified_name
}

/// The index of the first record in the snapshot matching `d`, if any. When
/// the zone holds duplicates with the same (type, qualified name), only this
/// first one is ever acted upon.
pub fn find_match(records: &Vec<ExistingRecord>, d: &DesiredRecord) -> (r: Option<usize>)
    ensures
        match r {
            Some(i) => i < records@.len() && is_match(records@[i as int]@, d@)
                && (forall|k: int| 0 <= k < i ==> !is_match(records@[k]@, d@)),
            None => forall|k: int| 0 <= k < records@.len() ==> !is_match(records@[k]@, d@),
        },
{
    let mut i: usize = 0;
    while i < records.len()
        invariant
            i <= records@.len(),
            forall|k: int| 0 <= k < i ==> !is_match(records@[k]@, d@),
        decreases records@.len() - i,
    {
        if record_matches(&records[i], d) {
            return Some(i);
        }
        i = i + 1;
    }
    None
}

} // verus!
