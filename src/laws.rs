use vstd::prelude::*;

use crate::asset_types::{AssetEvent, AssetInsuranceStatus};
use crate::assets::{role_error, AssetRegistry};
use crate::members::{MemberRegistry, MemberRole};
use crate::types::{AccountId, Balance, Error, Moment};

verus! {

/// The state that an insurance moves to from `s`, where it moves on at all:
/// new application, premium quoted, premium paid, active.
pub open spec fn next_insurance_status(s: AssetInsuranceStatus) -> Option<AssetInsuranceStatus> {
    match s {
        AssetInsuranceStatus::NewApplication => Some(AssetInsuranceStatus::PremiumQuoted),
        AssetInsuranceStatus::PremiumQuoted => Some(AssetInsuranceStatus::PremiumPaid),
        AssetInsuranceStatus::PremiumPaid => Some(AssetInsuranceStatus::Active),
        _ => None,
    }
}

/// The insurance of asset `id` exists and is in state `s`.
pub open spec fn insured_in(r: AssetRegistry, id: Seq<u8>, s: AssetInsuranceStatus) -> bool {
    &&& r.assets().contains_key(id)
    &&& r.assets()[id].asset_insurance is Some
    &&& r.insurance_of(id).status == s
}

/// No asset id is at once a registration request and a registered asset.
pub proof fn lemma_no_dual_residency(r: AssetRegistry, id: Seq<u8>)
    requires
        r.wf(),
    ensures
        !(r.staged().contains_key(id) && r.assets().contains_key(id)),
{
}

/// Deciding twice on one registration request fails the second time, for
/// want of the request, and changes nothing: the first decision consumed it.
pub proof fn lemma_registration_decided_once(
    pre: AssetRegistry,
    mid: AssetRegistry,
    post: AssetRegistry,
    members: MemberRegistry,
    who: AccountId,
    asset_id: Vec<u8>,
    first: bool,
    second: bool,
    r1: Result<AssetEvent, Error>,
    r2: Result<AssetEvent, Error>,
)
    requires
        AssetRegistry::process_registration_post(pre, mid, members, who, asset_id, first, r1),
        r1 is Ok,
        AssetRegistry::process_registration_post(mid, post, members, who, asset_id, second, r2),
    ensures
        r2 == Err::<AssetEvent, Error>(Error::AssetIdInvalid),
        post == mid,
{
    assert(!mid.staged().contains_key(asset_id@));
}

/// Quoting a premium moves an insurance from new application to the next
/// state and no further; from any other state it fails for the state and
/// changes nothing.
pub proof fn lemma_quote_advances_one_step(
    pre: AssetRegistry,
    post: AssetRegistry,
    members: MemberRegistry,
    who: AccountId,
    asset_id: Vec<u8>,
    premium: Balance,
    r: Result<AssetEvent, Error>,
)
    requires
        AssetRegistry::update_premium_post(pre, post, members, who, asset_id, premium, r),
    ensures
        r is Ok ==> insured_in(pre, asset_id@, AssetInsuranceStatus::NewApplication) && insured_in(
            post,
            asset_id@,
            next_insurance_status(AssetInsuranceStatus::NewApplication)->0,
        ),
        r is Err ==> post == pre,
        ({
            &&& role_error(members, who, MemberRole::Insurer) is None
            &&& pre.assets().contains_key(asset_id@)
            &&& pre.assets()[asset_id@].asset_insurance is Some
            &&& pre.insurance_of(asset_id@).status != AssetInsuranceStatus::NewApplication
        }) ==> r == Err::<AssetEvent, Error>(Error::AssetInsuranceStatusUnexpected) && post == pre,
{
}

/// Paying the premium moves an insurance from premium quoted to the next
/// state and no further, and only once the payment was moved; from any
/// other state it fails for the state and changes nothing.
pub proof fn lemma_deposit_advances_one_step(
    pre: AssetRegistry,
    post: AssetRegistry,
    members: MemberRegistry,
    who: AccountId,
    asset_id: Vec<u8>,
    premium_deposit: Balance,
    transferred: bool,
    r: Result<AssetEvent, Error>,
)
    requires
        AssetRegistry::deposit_premium_post(pre, post, members, who, asset_id, premium_deposit, transferred, r),
    ensures
        r is Ok ==> transferred && insured_in(pre, asset_id@, AssetInsuranceStatus::PremiumQuoted) && insured_in(
            post,
            asset_id@,
            next_insurance_status(AssetInsuranceStatus::PremiumQuoted)->0,
        ),
        r is Err ==> post == pre,
        ({
            &&& role_error(members, who, MemberRole::AssetOwner) is None
            &&& pre.ownership_error(asset_id@, who) is None
            &&& pre.assets()[asset_id@].asset_insurance is Some
            &&& pre.insurance_of(asset_id@).status != AssetInsuranceStatus::PremiumQuoted
        }) ==> r == Err::<AssetEvent, Error>(Error::AssetInsuranceStatusUnexpected) && post == pre,
{
}

/// Approving an insurance moves it from premium paid to active and no
/// further; from any other state it fails for the state and changes nothing.
pub proof fn lemma_approval_advances_one_step(
    pre: AssetRegistry,
    post: AssetRegistry,
    members: MemberRegistry,
    who: AccountId,
    asset_id: Vec<u8>,
    now: Moment,
    r: Result<AssetEvent, Error>,
)
    requires
        AssetRegistry::approve_insurance_post(pre, post, members, who, asset_id, now, r),
    ensures
        r is Ok ==> insured_in(pre, asset_id@, AssetInsuranceStatus::PremiumPaid) && insured_in(
            post,
            asset_id@,
            next_insurance_status(AssetInsuranceStatus::PremiumPaid)->0,
        ),
        r is Err ==> post == pre,
        ({
            &&& role_error(members, who, MemberRole::Insurer) is None
            &&& pre.assets().contains_key(asset_id@)
            &&& pre.assets()[asset_id@].asset_insurance is Some
            &&& pre.insurance_of(asset_id@).status != AssetInsuranceStatus::PremiumPaid
        }) ==> r == Err::<AssetEvent, Error>(Error::AssetInsuranceStatusUnexpected) && post == pre,
{
}

} // verus!
