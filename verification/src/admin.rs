//! The platform-wide configuration record: the operator's identity, the
//! default rake rate, and the policy that splits collected rake between a
//! tournament's creator and the platform operator.

use vstd::prelude::*;
use crate::account::AccountId;

verus! {

/// Singleton record created once at deployment by [`crate::ops::initialize_admin`].
///
/// The rake split applies prospectively: each join captures the shares in
/// force at join time. The running counters only ever grow, and only on
/// withdrawals.
#[derive(Clone, Copy, Debug)]
pub struct AdminConfig {
    /// Identity of the platform operator; fixed at initialization.
    pub admin_authority: AccountId,
    /// Default fee rate in basis points; informational only.
    pub default_rake_bps: u16,
    /// Percentage of collected rake owed to the tournament creator.
    pub creator_rake_share_pct: u16,
    /// Percentage of collected rake owed to the platform operator.
    pub admin_rake_share_pct: u16,
    /// Audit counter; never updated by the defined operations.
    pub total_rake_collected: u64,
    /// Audit counter; grows by the amount of each creator-rake withdrawal.
    pub total_creator_rake_paid: u64,
    /// Audit counter; grows by the amount of each admin-rake withdrawal.
    pub total_admin_rake_collected: u64,
}

impl AdminConfig {
    /// The record's invariant: the two shares split the whole rake.
    pub open spec fn well_formed(self) -> bool {
        self.creator_rake_share_pct as int + self.admin_rake_share_pct as int == 100
    }

    /// Runtime check of [`AdminConfig::well_formed`], for callers outside
    /// verified code.
    pub fn is_well_formed(&self) -> (r: bool)
        ensures
            r == self.well_formed(),
    {
        self.creator_rake_share_pct as u32 + self.admin_rake_share_pct as u32 == 100
    }
}

} // verus!
