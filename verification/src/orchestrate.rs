//! Decisions the orchestrator makes around a run: resolving the credential,
//! qualifying the record name, and planning one pass per address family,
//! with a family whose address could not be discovered skipped rather than
//! aborting the run.

use vstd::prelude::*;
use crate::errors::DdnsError;
use crate::records::{DesiredRecord, DesiredRecordV, RecordType};

verus! {

/// One address family's part of a run: reconcile towards a desired record,
/// or skip the family because no address of it could be discovered.
pub enum FamilyPass {
    Run { desired: DesiredRecord },
    Skip,
}

/// The fully qualified name the provider stores: the subdomain joined to
/// the domain with a dot.
pub open spec fn qualified_name_spec(subdomain: Seq<char>, domain: Seq<char>) -> Seq<char> {
    subdomain + "."@ + domain
}

/// Joins a subdomain to its parent domain.
pub fn qualify(subdomain: &str, domain: &str) -> (r: String)
    ensures
        r@ == qualified_name_spec(subdomain@, domain@),
{
    let mut q = subdomain.to_owned();
    q.append(".");
    q.append(domain);
    q
}

/// Plans one address family's pass: a discovered address yields a desired
/// record of that family's type under the qualified name; a family whose
/// discovery failed is skipped, never a fatal abort.
pub fn plan_family(rtype: RecordType, qualified_name: String, address: Option<String>) -> (r:
    FamilyPass)
    ensures
        match address {
            Some(a) => r matches FamilyPass::Run { desired } && desired@ == (DesiredRecordV {
                rtype,
                qualified_name: qualified_name@,
                data: a@,
            }),
            None => r is Skip,
        },
{
    match address {
        Some(a) => FamilyPass::Run {
            desired: DesiredRecord { rtype, qualified_name, data: a },
        },
        None => FamilyPass::Skip,
    }
}

/// Resolves the credential: an explicit argument wins, the environment's
/// value stands in where no argument was given, and with neither the run
/// fails with `NotFound` instead of proceeding unauthenticated.
pub fn resolve_credential(argument: Option<String>, environment: Option<String>) -> (r: Result<
    String,
    DdnsError,
>)
    ensures
        match argument {
            Some(a) => r matches Ok(c) && c@ == a@,
            None => match environment {
                Some(e) => r matches Ok(c) && c@ == e@,
                None => r matches Err(DdnsError::NotFound),
            },
        },
{
    match argument {
        Some(a) => Ok(a),
        None => match environment {
            Some(e) => Ok(e),
            None => Err(DdnsError::NotFound),
        },
    }
}

} // verus!
