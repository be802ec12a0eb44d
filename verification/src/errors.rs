//! The error kinds the updater surfaces, shared by every component: the
//! transport failed, a response body did not have the expected shape, the
//! provider rejected a request (status and verbatim body kept for
//! diagnostics), or something required — a credential, any address at all —
//! was not found.

use vstd::prelude::*;

verus! {

/// One failure, as reported to the caller.
pub enum DdnsError {
    Transport,
    Decode,
    Api { status: u16, body: String },
    NotFound,
}

/// Mathematical image of a `DdnsError`.
pub enum DdnsErrorV {
    Transport,
    Decode,
    Api { status: u16, body: Seq<char> },
    NotFound,
}

impl View for DdnsError {
    type V = DdnsErrorV;

    open spec fn view(&self) -> DdnsErrorV {
        match self {
            DdnsError::Transport => DdnsErrorV::Transport,
            DdnsError::Decode => DdnsErrorV::Decode,
            DdnsError::Api { status, body } => (DdnsErrorV::Api {
                status: *status,
                body: body@,
            }),
            DdnsError::NotFound => DdnsErrorV::NotFound,
        }
    }
}

} // verus!
