use vstd::prelude::*;

use crate::error::EduNewsError;
use crate::types::PublisherIdentity;

verus! {

/// An identity record as held by the identity ledger, reduced to what is read of it.
#[derive(Clone, Copy, Debug, PartialEq, Eq, Structural)]
pub struct IdentityRecord {
    /// The record carries a display name.
    pub has_display: bool,
}

/// The identity shown for `address` when the identity ledger holds
/// `registration` for it. Any record at all counts as verified: a weak
/// signal by design, that looks at no registrar judgement. The display name
/// only says whether one is set, and the legal name is not read.
pub fn get_identity_from_address(address: &str, registration: Option<IdentityRecord>) -> (r:
    PublisherIdentity)
    ensures
        r.address@ == address@,
        r.verified == registration is Some,
        r.legal_name is None,
        (registration matches Some(rec) && rec.has_display) ==> (r.display_name matches Some(n)
            && n@ == "Identity Set"@),
        !(registration matches Some(rec) && rec.has_display) ==> r.display_name is None,
{
    match registration {
        Some(rec) => PublisherIdentity {
            address: address.to_owned(),
            display_name: if rec.has_display {
                Some("Identity Set".to_owned())
            } else {
                None
            },
            legal_name: None,
            verified: true,
        },
        None => PublisherIdentity {
            address: address.to_owned(),
            display_name: None,
            legal_name: None,
            verified: false,
        },
    }
}

/// Whether an identity lookup showed a verified publisher. A lookup that
/// failed (the ledger was unreachable, the address unreadable) counts as
/// unverified rather than as an error.
pub fn is_identity_verified(lookup: &Result<PublisherIdentity, EduNewsError>) -> (r: bool)
    ensures
        r == (lookup matches Ok(id) && id.verified),
{
    match lookup {
        Ok(id) => id.verified,
        Err(_) => false,
    }
}

} // verus!
