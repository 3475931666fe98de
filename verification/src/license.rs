//! Pro subscription status.
//!
//! The Store is asked about the Pro add-on; any failure along the way leaves
//! full access on (fail open), and only an add-on the Store reports as
//! inactive turns Pro features off.

use vstd::prelude::*;

verus! {

/// The Store identifier of the Pro add-on.
pub const PRODUCT_ID: &'static str = "invisibly_pro_subscription";

/// The current licensing decision.
pub struct LicenseStatus {
    pub licensed: bool,
}

impl LicenseStatus {
    /// Full access until the first Store check says otherwise.
    pub fn new() -> (l: LicenseStatus)
        ensures
            l.licensed,
    {
        LicenseStatus { licensed: true }
    }
}

pub fn is_pro_licensed(license: &LicenseStatus) -> (b: bool)
    ensures
        b == license.licensed,
{
    license.licensed
}

pub fn set_licensed(license: &mut LicenseStatus, licensed: bool)
    ensures
        final(license).licensed == licensed,
{
    license.licensed = licensed;
}

/// How far a Store license lookup got, and what it found.
#[derive(Debug, Clone, Copy, PartialEq, Eq, Structural)]
pub enum StoreLookup {
    NoStoreContext,
    LicenseRequestFailed,
    LicenseUnavailable,
    AddOnsUnreadable,
    ProductNotFound,
    ActiveUnreadable,
    Active(bool),
}

/// The licensing decision for a lookup: only an add-on reported inactive
/// denies Pro.
pub fn check_store_license(lookup: StoreLookup) -> (licensed: bool)
    ensures
        licensed == !(lookup == StoreLookup::Active(false)),
{
    match lookup {
        StoreLookup::Active(active) => active,
        _ => true,
    }
}

/// The license follows the latest completed Store check: full access until
/// a check completes, and afterwards Pro is off exactly when the last check
/// found the add-on inactive. `states` are the status at startup and after
/// each check of `lookups` in turn has been recorded.
pub proof fn law_license_follows_last_check(states: Seq<LicenseStatus>, lookups: Seq<StoreLookup>)
    requires
        states.len() == lookups.len() + 1,
        states[0].licensed,
        forall|i: int| 0 <= i < lookups.len() ==>
            states[i + 1].licensed == !(#[trigger] lookups[i] == StoreLookup::Active(false)),
    ensures
        states.last().licensed == (lookups.len() == 0 || lookups.last() != StoreLookup::Active(false)),
        !states.last().licensed ==> exists|i: int| 0 <= i < lookups.len() && #[trigger] lookups[i] == StoreLookup::Active(false),
{
    if lookups.len() > 0 {
        let n = lookups.len() - 1;
        assert(lookups[n] == lookups.last());
        assert(states[n + 1] == states.last());
    }
}

} // verus!
