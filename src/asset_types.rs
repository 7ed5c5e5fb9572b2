use vstd::prelude::*;

use crate::fields::ProfileField;
use crate::types::{AccountId, Balance, Moment};

verus! {

pub const ASSET_ID_MAX_LENGTH: usize = 36;
pub const ASSET_INFO_NAME_MAX_LENGTH: usize = 20;
pub const ASSET_INFO_VALUE_MAX_LENGTH: usize = 40;
pub const ASSET_PROFILE_MAX_INFO: usize = 10;
pub const ASSET_INSURANCE_RECLAIM_MAX_INFO: usize = 10;
pub const ASSET_HEALTHCHECK_MAX_INFO: usize = 10;

/// A profile attribute of an asset, e.g. `class: cow`.
pub type AssetProfileInfo = ProfileField;

/// A note of an insurance reclaim, e.g. `doe: 2019JAN29`.
pub type AssetInsuranceReClaimInfo = ProfileField;

/// A note of a health check, e.g. `illness: not feeding well`.
pub type AssetHealthCheckRecInfo = ProfileField;

#[derive(Clone, Copy, Debug, PartialEq, Eq, Structural)]
pub enum AssetStatus {
    NewRegi,
    InFarm,
    ForSale,
    InTransfer,
    Expired,
}

#[derive(Clone, Debug, PartialEq, Eq)]
pub struct AssetProfile {
    pub asset_id: Vec<u8>,
    pub asset_info: Option<Vec<AssetProfileInfo>>,
    pub joined_date: Moment,
    pub asset_status: AssetStatus,
    pub asset_owners: Option<Vec<AccountId>>,
    pub asset_keepers: Option<Vec<AccountId>>,
    pub asset_insurance: Option<AssetInsurance>,
}

/// Collects the fields of a new asset profile, which starts as a
/// registration request without insurance.
pub struct AssetProfileBuilder {
    asset_id: Vec<u8>,
    asset_info: Option<Vec<AssetProfileInfo>>,
    joined_date: Moment,
    asset_owners: Option<Vec<AccountId>>,
    asset_keepers: Option<Vec<AccountId>>,
}

impl AssetProfileBuilder {
    /// The profile that `build` returns.
    pub closed spec fn spec_build(&self) -> AssetProfile {
        AssetProfile {
            asset_id: self.asset_id,
            asset_info: self.asset_info,
            joined_date: self.joined_date,
            asset_status: AssetStatus::NewRegi,
            asset_owners: self.asset_owners,
            asset_keepers: self.asset_keepers,
            asset_insurance: None,
        }
    }

    pub fn update_asset_id(self, asset_id: Vec<u8>) -> (r: Self)
        ensures
            r.spec_build() == (AssetProfile { asset_id, ..self.spec_build() }),
    {
        AssetProfileBuilder { asset_id, ..self }
    }

    pub fn update_asset_profile_info(self, asset_info: Option<Vec<AssetProfileInfo>>) -> (r: Self)
        ensures
            r.spec_build() == (AssetProfile { asset_info, ..self.spec_build() }),
    {
        AssetProfileBuilder { asset_info, ..self }
    }

    pub fn update_joined_date(self, joined_date: Moment) -> (r: Self)
        ensures
            r.spec_build() == (AssetProfile { joined_date, ..self.spec_build() }),
    {
        AssetProfileBuilder { joined_date, ..self }
    }

    /// Makes `owner` the only owner.
    pub fn update_owner(self, owner: AccountId) -> (r: Self)
        ensures
            r.spec_build().asset_owners is Some,
            r.spec_build().asset_owners->0@ == seq![owner],
            r.spec_build() == (AssetProfile { asset_owners: r.spec_build().asset_owners, ..self.spec_build() }),
    {
        AssetProfileBuilder { asset_owners: Some(vec![owner]), ..self }
    }

    /// Makes `keeper` the only keeper.
    pub fn update_keeper(self, keeper: AccountId) -> (r: Self)
        ensures
            r.spec_build().asset_keepers is Some,
            r.spec_build().asset_keepers->0@ == seq![keeper],
            r.spec_build() == (AssetProfile { asset_keepers: r.spec_build().asset_keepers, ..self.spec_build() }),
    {
        AssetProfileBuilder { asset_keepers: Some(vec![keeper]), ..self }
    }

    /// The profile of a new registration request: status `NewRegi`, no
    /// insurance.
    pub fn build(self) -> (r: AssetProfile)
        ensures
            r == self.spec_build(),
            r.asset_status == AssetStatus::NewRegi,
            r.asset_insurance is None,
    {
        AssetProfile {
            asset_id: self.asset_id,
            asset_info: self.asset_info,
            joined_date: self.joined_date,
            asset_status: AssetStatus::NewRegi,
            asset_owners: self.asset_owners,
            asset_keepers: self.asset_keepers,
            asset_insurance: None,
        }
    }
}

impl Default for AssetProfileBuilder {
    fn default() -> (r: Self)
        ensures
            r.spec_build().asset_id@ == Seq::<u8>::empty(),
            r.spec_build().asset_info == None::<Vec<AssetProfileInfo>>,
            r.spec_build().joined_date == 0,
            r.spec_build().asset_owners == None::<Vec<AccountId>>,
            r.spec_build().asset_keepers == None::<Vec<AccountId>>,
    {
        AssetProfileBuilder {
            asset_id: Vec::new(),
            asset_info: None,
            joined_date: 0,
            asset_owners: None,
            asset_keepers: None,
        }
    }
}

#[derive(Clone, Copy, Debug, PartialEq, Eq, Structural)]
pub enum AssetInsuranceStatus {
    NewApplication,
    PremiumQuoted,
    PremiumPaid,
    Active,
    ReClaimInProgress,
    ReClaimDone,
    Expired,
}

#[derive(Clone, Debug, PartialEq, Eq)]
pub struct AssetInsurance {
    pub asset_id: Vec<u8>,
    pub status: AssetInsuranceStatus,
    pub start_date: Moment,
    pub expiry_date: Moment,
    pub quoted_premium: Balance,
    pub premium_paid_date: Moment,
    pub coverage: Balance,
}

/// Collects the fields of a new insurance application.
pub struct AssetInsuranceBuilder {
    asset_id: Vec<u8>,
    start_date: Moment,
    expiry_date: Moment,
    quoted_premium: Balance,
    premium_paid_date: Moment,
    coverage: Balance,
}

impl AssetInsuranceBuilder {
    /// The insurance that `build` returns.
    pub closed spec fn spec_build(&self) -> AssetInsurance {
        AssetInsurance {
            asset_id: self.asset_id,
            status: AssetInsuranceStatus::NewApplication,
            start_date: self.start_date,
            expiry_date: self.expiry_date,
            quoted_premium: self.quoted_premium,
            premium_paid_date: self.premium_paid_date,
            coverage: self.coverage,
        }
    }

    pub fn update_asset_id(self, asset_id: Vec<u8>) -> (r: Self)
        ensures
            r.spec_build() == (AssetInsurance { asset_id, ..self.spec_build() }),
    {
        AssetInsuranceBuilder { asset_id, ..self }
    }

    /// An insurance in its first state, a new application.
    pub fn build(self) -> (r: AssetInsurance)
        ensures
            r == self.spec_build(),
            r.status == AssetInsuranceStatus::NewApplication,
    {
        AssetInsurance {
            asset_id: self.asset_id,
            status: AssetInsuranceStatus::NewApplication,
            start_date: self.start_date,
            expiry_date: self.expiry_date,
            quoted_premium: self.quoted_premium,
            premium_paid_date: self.premium_paid_date,
            coverage: self.coverage,
        }
    }
}

impl Default for AssetInsuranceBuilder {
    fn default() -> (r: Self)
        ensures
            r.spec_build().asset_id@ == Seq::<u8>::empty(),
            r.spec_build().start_date == 0,
            r.spec_build().expiry_date == 0,
            r.spec_build().quoted_premium == 0,
            r.spec_build().premium_paid_date == 0,
            r.spec_build().coverage == 0,
    {
        AssetInsuranceBuilder {
            asset_id: Vec::new(),
            start_date: 0,
            expiry_date: 0,
            quoted_premium: 0,
            premium_paid_date: 0,
            coverage: 0,
        }
    }
}

#[derive(Clone, Copy, Debug, PartialEq, Eq, Structural)]
pub enum AssetInsuranceReClaimStatus {
    NewReclaim,
    CommunityApproved,
    CommunityDisApproved,
    InsurerApproved,
    InsurerDisApproved,
    CoveragePaid,
}

#[derive(Clone, Debug, PartialEq, Eq)]
pub struct AssetInsuranceReClaim {
    pub asset_id: Vec<u8>,
    pub applied_date: Moment,
    pub closed_date: Moment,
    pub status: AssetInsuranceReClaimStatus,
    pub owner_note: Option<Vec<AssetInsuranceReClaimInfo>>,
    pub community_note: Option<Vec<AssetInsuranceReClaimInfo>>,
    pub insurer_note: Option<Vec<AssetInsuranceReClaimInfo>>,
}

/// Collects the fields of a new insurance reclaim.
pub struct AssetInsuranceReClaimBuilder {
    asset_id: Vec<u8>,
    applied_date: Moment,
    closed_date: Moment,
    owner_note: Option<Vec<AssetInsuranceReClaimInfo>>,
}

impl AssetInsuranceReClaimBuilder {
    /// The reclaim that `build` returns.
    pub closed spec fn spec_build(&self) -> AssetInsuranceReClaim {
        AssetInsuranceReClaim {
            asset_id: self.asset_id,
            applied_date: self.applied_date,
            closed_date: self.closed_date,
            status: AssetInsuranceReClaimStatus::NewReclaim,
            owner_note: self.owner_note,
            community_note: None,
            insurer_note: None,
        }
    }

    pub fn update_asset_id(self, asset_id: Vec<u8>) -> (r: Self)
        ensures
            r.spec_build() == (AssetInsuranceReClaim { asset_id, ..self.spec_build() }),
    {
        AssetInsuranceReClaimBuilder { asset_id, ..self }
    }

    pub fn update_owner_note(self, owner_note: Option<Vec<AssetInsuranceReClaimInfo>>) -> (r: Self)
        ensures
            r.spec_build() == (AssetInsuranceReClaim { owner_note, ..self.spec_build() }),
    {
        AssetInsuranceReClaimBuilder { owner_note, ..self }
    }

    /// A reclaim in its first state, with the owner's note alone.
    pub fn build(self) -> (r: AssetInsuranceReClaim)
        ensures
            r == self.spec_build(),
            r.status == AssetInsuranceReClaimStatus::NewReclaim,
            r.community_note is None,
            r.insurer_note is None,
    {
        AssetInsuranceReClaim {
            asset_id: self.asset_id,
            applied_date: self.applied_date,
            closed_date: self.closed_date,
            status: AssetInsuranceReClaimStatus::NewReclaim,
            owner_note: self.owner_note,
            community_note: None,
            insurer_note: None,
        }
    }
}

impl Default for AssetInsuranceReClaimBuilder {
    fn default() -> (r: Self)
        ensures
            r.spec_build().asset_id@ == Seq::<u8>::empty(),
            r.spec_build().applied_date == 0,
            r.spec_build().closed_date == 0,
            r.spec_build().owner_note == None::<Vec<AssetInsuranceReClaimInfo>>,
    {
        AssetInsuranceReClaimBuilder { asset_id: Vec::new(), applied_date: 0, closed_date: 0, owner_note: None }
    }
}

#[derive(Clone, Copy, Debug, PartialEq, Eq, Structural)]
pub enum AssetHealthCheckRecStatus {
    NewReq,
    TreatmentInProgress,
    TreatmentDone,
    CommunityApproved,
}

#[derive(Clone, Debug, PartialEq, Eq)]
pub struct AssetHealthCheckRec {
    pub asset_id: Vec<u8>,
    pub request_date: Moment,
    pub closed_date: Moment,
    pub status: AssetHealthCheckRecStatus,
    pub owner_note: Option<Vec<AssetHealthCheckRecInfo>>,
    pub health_officer_note: Option<Vec<AssetHealthCheckRecInfo>>,
    pub community_note: Option<Vec<AssetHealthCheckRecInfo>>,
}

/// Collects the fields of a new health-check request.
pub struct AssetHealthCheckRecBuilder {
    asset_id: Vec<u8>,
    request_date: Moment,
    closed_date: Moment,
    owner_note: Option<Vec<AssetHealthCheckRecInfo>>,
}

impl AssetHealthCheckRecBuilder {
    /// The record that `build` returns.
    pub closed spec fn spec_build(&self) -> AssetHealthCheckRec {
        AssetHealthCheckRec {
            asset_id: self.asset_id,
            request_date: self.request_date,
            closed_date: self.closed_date,
            status: AssetHealthCheckRecStatus::NewReq,
            owner_note: self.owner_note,
            health_officer_note: None,
            community_note: None,
        }
    }

    pub fn update_asset_id(self, asset_id: Vec<u8>) -> (r: Self)
        ensures
            r.spec_build() == (AssetHealthCheckRec { asset_id, ..self.spec_build() }),
    {
        AssetHealthCheckRecBuilder { asset_id, ..self }
    }

    pub fn update_owner_note(self, owner_note: Option<Vec<AssetHealthCheckRecInfo>>) -> (r: Self)
        ensures
            r.spec_build() == (AssetHealthCheckRec { owner_note, ..self.spec_build() }),
    {
        AssetHealthCheckRecBuilder { owner_note, ..self }
    }

    /// A health check in its first state, with the owner's note alone.
    pub fn build(self) -> (r: AssetHealthCheckRec)
        ensures
            r == self.spec_build(),
            r.status == AssetHealthCheckRecStatus::NewReq,
            r.health_officer_note is None,
            r.community_note is None,
    {
        AssetHealthCheckRec {
            asset_id: self.asset_id,
            request_date: self.request_date,
            closed_date: self.closed_date,
            status: AssetHealthCheckRecStatus::NewReq,
            owner_note: self.owner_note,
            health_officer_note: None,
            community_note: None,
        }
    }
}

impl Default for AssetHealthCheckRecBuilder {
    fn default() -> (r: Self)
        ensures
            r.spec_build().asset_id@ == Seq::<u8>::empty(),
            r.spec_build().request_date == 0,
            r.spec_build().closed_date == 0,
            r.spec_build().owner_note == None::<Vec<AssetHealthCheckRecInfo>>,
    {
        AssetHealthCheckRecBuilder { asset_id: Vec::new(), request_date: 0, closed_date: 0, owner_note: None }
    }
}

/// What the asset registry reports after a successful operation; the first
/// field is the caller, the second the asset.
#[derive(Clone, Debug, PartialEq, Eq)]
pub enum AssetEvent {
    RequestAssetRegistration(AccountId, Vec<u8>),
    /// The last field tells whether the request was approved.
    ProcessRequestAssetRegistration(AccountId, Vec<u8>, bool),
    RequestAssetInsurance(AccountId, Vec<u8>),
    AssetInsurancePremiumQuoteUpdate(AccountId, Vec<u8>, Balance),
    AssetInsurancePremiumDepositUpdate(AccountId, Vec<u8>, Balance),
    AssetInsuranceApproved(AccountId, Vec<u8>),
    AssetInsuranceReclaim(AccountId, Vec<u8>),
    AssetInsuranceReclaimCommunityApproved(AccountId, Vec<u8>),
    AssetInsuranceReclaimInsurerApproved(AccountId, Vec<u8>),
    AssetHealthCheckRequest(AccountId, Vec<u8>),
    AssetHealthCheckHealthOfficerUpdate(AccountId, Vec<u8>),
    AssetHealthCheckCommunityUpdate(AccountId, Vec<u8>),
}

} // verus!
