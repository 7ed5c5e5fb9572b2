//! Operations of a cooperative livestock society: members and their roles,
//! the registration of assets, and the insurance, insurance reclaim and
//! health-check workflows on registered assets. Each operation checks the
//! caller's role, the payload's bounds and the state of its record before
//! it changes anything, and changes nothing when a check fails.
pub mod asset_types;
pub mod assets;
pub mod fields;
pub mod laws;
pub mod members;
pub mod store;
pub mod types;

pub use crate::asset_types::{
    AssetEvent, AssetHealthCheckRec, AssetHealthCheckRecBuilder, AssetHealthCheckRecInfo,
    AssetHealthCheckRecStatus, AssetInsurance, AssetInsuranceBuilder, AssetInsuranceReClaim,
    AssetInsuranceReClaimBuilder, AssetInsuranceReClaimInfo, AssetInsuranceReClaimStatus,
    AssetInsuranceStatus, AssetProfile, AssetProfileBuilder, AssetProfileInfo, AssetStatus,
};
pub use crate::assets::AssetRegistry;
pub use crate::fields::{validate_fields, BoundError, FieldBounds, ProfileField};
pub use crate::members::{
    MemberConfig, MemberEvent, MemberProfile, MemberProfileBuilder, MemberProfileInfo,
    MemberRegistry, MemberRole, MemberStatus,
};
pub use crate::types::{AccountId, Balance, Error, Moment, Transfer};
