use vstd::prelude::*;

use crate::asset_types::{
    AssetEvent, AssetHealthCheckRec, AssetHealthCheckRecBuilder, AssetHealthCheckRecInfo,
    AssetHealthCheckRecStatus, AssetInsurance, AssetInsuranceBuilder, AssetInsuranceReClaim,
    AssetInsuranceReClaimBuilder, AssetInsuranceReClaimInfo, AssetInsuranceReClaimStatus,
    AssetInsuranceStatus, AssetProfile, AssetProfileBuilder, AssetProfileInfo, AssetStatus,
    ASSET_HEALTHCHECK_MAX_INFO, ASSET_ID_MAX_LENGTH, ASSET_INFO_NAME_MAX_LENGTH,
    ASSET_INFO_VALUE_MAX_LENGTH, ASSET_INSURANCE_RECLAIM_MAX_INFO, ASSET_PROFILE_MAX_INFO,
};
use crate::fields::{field_error, validate_fields, BoundError, FieldBounds, ProfileField};
use crate::members::{MemberRegistry, MemberRole};
use crate::store::{copy_bytes, lemma_remove_insert, Store};
use crate::types::{check_result, first_error, AccountId, Balance, Error, Moment, Transfer};

verus! {

/// The failure of a role check, if it fails.
pub open spec fn role_error(members: MemberRegistry, who: AccountId, role: MemberRole) -> Option<Error> {
    match members.role_check(who, role) {
        Ok(()) => None,
        Err(e) => Some(e),
    }
}

/// An asset id must be present and at most 36 bytes long.
pub open spec fn asset_id_error(id: Seq<u8>) -> Option<Error> {
    if id.len() == 0 {
        Some(Error::AssetIdEmpty)
    } else if id.len() > ASSET_ID_MAX_LENGTH {
        Some(Error::AssetIdTooLong)
    } else {
        None
    }
}

/// The bounds of asset profile attributes and of reclaim and health-check
/// notes.
pub open spec fn note_bounds(max_count: usize) -> FieldBounds {
    FieldBounds {
        max_count,
        max_name_len: ASSET_INFO_NAME_MAX_LENGTH,
        max_value_len: ASSET_INFO_VALUE_MAX_LENGTH,
    }
}

/// The failure for a broken bound of an asset's profile attributes.
pub open spec fn asset_info_error(info: Option<Vec<AssetProfileInfo>>) -> Option<Error> {
    match field_error(info, note_bounds(ASSET_PROFILE_MAX_INFO)) {
        None => None,
        Some(BoundError::TooManyEntries) => Some(Error::AssetProfileTooManyInfos),
        Some(BoundError::NameTooLong) => Some(Error::AssetProfileInvalidInfoName),
        Some(BoundError::ValueTooLong) => Some(Error::AssetProfileInvalidInfoValue),
    }
}

/// The failure for a broken bound of a reclaim note.
pub open spec fn reclaim_info_error(info: Option<Vec<AssetInsuranceReClaimInfo>>) -> Option<Error> {
    match field_error(info, note_bounds(ASSET_INSURANCE_RECLAIM_MAX_INFO)) {
        None => None,
        Some(BoundError::TooManyEntries) => Some(Error::AssetInsuranceReClaimTooManyInfos),
        Some(BoundError::NameTooLong) => Some(Error::AssetInsuranceReClaimInvalidInfoName),
        Some(BoundError::ValueTooLong) => Some(Error::AssetInsuranceReClaimInvalidInfoValue),
    }
}

/// The failure for a broken bound of a health-check note.
pub open spec fn healthcheck_info_error(info: Option<Vec<AssetHealthCheckRecInfo>>) -> Option<Error> {
    match field_error(info, note_bounds(ASSET_HEALTHCHECK_MAX_INFO)) {
        None => None,
        Some(BoundError::TooManyEntries) => Some(Error::AssetHealthCheckTooManyInfos),
        Some(BoundError::NameTooLong) => Some(Error::AssetHealthCheckInvalidInfoName),
        Some(BoundError::ValueTooLong) => Some(Error::AssetHealthCheckInvalidInfoValue),
    }
}

/// The entries of an optional note list.
pub open spec fn notes_view(n: Option<Vec<ProfileField>>) -> Option<Seq<ProfileField>> {
    match n {
        None => None,
        Some(v) => Some(v@),
    }
}

/// A note list with `more` appended; appending nothing leaves it as it is.
pub open spec fn appended_notes(
    notes: Option<Seq<ProfileField>>,
    more: Option<Seq<ProfileField>>,
) -> Option<Seq<ProfileField>> {
    match (notes, more) {
        (None, m) => m,
        (Some(n), None) => Some(n),
        (Some(n), Some(m)) => Some(n + m),
    }
}

/// Appends a note list to another; an absent list counts as no entries,
/// and appending to an absent list gives the appended one.
fn append_notes(notes: Option<Vec<ProfileField>>, more: Option<Vec<ProfileField>>) -> (r: Option<Vec<ProfileField>>)
    ensures
        notes_view(r) == appended_notes(notes_view(notes), notes_view(more)),
{
    match notes {
        None => more,
        Some(mut n) => match more {
            None => Some(n),
            Some(mut m) => {
                n.append(&mut m);
                Some(n)
            },
        },
    }
}

/// The profile that a registration request stages.
pub open spec fn is_new_asset_profile(
    p: AssetProfile,
    id: Seq<u8>,
    info: Option<Vec<AssetProfileInfo>>,
    owner: AccountId,
    now: Moment,
) -> bool {
    &&& p.asset_id@ == id
    &&& p.asset_info == info
    &&& p.joined_date == now
    &&& p.asset_status == AssetStatus::NewRegi
    &&& p.asset_owners is Some
    &&& p.asset_owners->0@ == seq![owner]
    &&& p.asset_keepers is Some
    &&& p.asset_keepers->0@ == seq![owner]
    &&& p.asset_insurance is None
}

/// The insurance that an application attaches.
pub open spec fn is_new_insurance(ins: AssetInsurance, id: Seq<u8>) -> bool {
    &&& ins.asset_id@ == id
    &&& ins.status == AssetInsuranceStatus::NewApplication
    &&& ins.start_date == 0
    &&& ins.expiry_date == 0
    &&& ins.quoted_premium == 0
    &&& ins.premium_paid_date == 0
    &&& ins.coverage == 0
}

/// The reclaim that an owner's request stages.
pub open spec fn is_new_reclaim(
    c: AssetInsuranceReClaim,
    id: Seq<u8>,
    note: Option<Vec<AssetInsuranceReClaimInfo>>,
) -> bool {
    &&& c.asset_id@ == id
    &&& c.applied_date == 0
    &&& c.closed_date == 0
    &&& c.status == AssetInsuranceReClaimStatus::NewReclaim
    &&& c.owner_note == note
    &&& c.community_note is None
    &&& c.insurer_note is None
}

/// The health-check record that an owner's request stages.
pub open spec fn is_new_healthcheck(
    h: AssetHealthCheckRec,
    id: Seq<u8>,
    note: Option<Vec<AssetHealthCheckRecInfo>>,
) -> bool {
    &&& h.asset_id@ == id
    &&& h.request_date == 0
    &&& h.closed_date == 0
    &&& h.status == AssetHealthCheckRecStatus::NewReq
    &&& h.owner_note == note
    &&& h.health_officer_note is None
    &&& h.community_note is None
}

/// Assets of the society: registration requests awaiting a decision, the
/// registered assets, and the reclaims and health checks in progress, each
/// keyed by asset id.
pub struct AssetRegistry {
    assets: Store<AssetProfile>,
    registration_queue: Store<AssetProfile>,
    reclaim_queue: Store<AssetInsuranceReClaim>,
    healthcheck_queue: Store<AssetHealthCheckRec>,
}

impl AssetRegistry {
    /// Registered assets.
    pub closed spec fn assets(&self) -> Map<Seq<u8>, AssetProfile> {
        self.assets@
    }

    /// Registration requests awaiting a decision.
    pub closed spec fn staged(&self) -> Map<Seq<u8>, AssetProfile> {
        self.registration_queue@
    }

    /// Insurance reclaims in progress.
    pub closed spec fn reclaims(&self) -> Map<Seq<u8>, AssetInsuranceReClaim> {
        self.reclaim_queue@
    }

    /// Health checks in progress.
    pub closed spec fn healthchecks(&self) -> Map<Seq<u8>, AssetHealthCheckRec> {
        self.healthcheck_queue@
    }

    pub closed spec fn stores_wf(&self) -> bool {
        &&& self.assets.wf()
        &&& self.registration_queue.wf()
        &&& self.reclaim_queue.wf()
        &&& self.healthcheck_queue.wf()
    }

    /// No asset id is both awaiting registration and registered.
    pub open spec fn wf(&self) -> bool {
        &&& self.stores_wf()
        &&& forall|id: Seq<u8>| #[trigger]
            self.staged().contains_key(id) ==> !self.assets().contains_key(id)
    }

    /// `post` is `pre` with the registered asset `id` set to `p`.
    pub open spec fn asset_set(pre: Self, post: Self, id: Seq<u8>, p: AssetProfile) -> bool {
        &&& post.assets() == pre.assets().insert(id, p)
        &&& post.staged() == pre.staged()
        &&& post.reclaims() == pre.reclaims()
        &&& post.healthchecks() == pre.healthchecks()
    }

    /// `post` is `pre` with the reclaim of `id` set to `c`.
    pub open spec fn reclaim_set(pre: Self, post: Self, id: Seq<u8>, c: AssetInsuranceReClaim) -> bool {
        &&& post.assets() == pre.assets()
        &&& post.staged() == pre.staged()
        &&& post.reclaims() == pre.reclaims().insert(id, c)
        &&& post.healthchecks() == pre.healthchecks()
    }

    /// `post` is `pre` with the health check of `id` set to `h`.
    pub open spec fn healthcheck_set(pre: Self, post: Self, id: Seq<u8>, h: AssetHealthCheckRec) -> bool {
        &&& post.assets() == pre.assets()
        &&& post.staged() == pre.staged()
        &&& post.reclaims() == pre.reclaims()
        &&& post.healthchecks() == pre.healthchecks().insert(id, h)
    }

    /// Only the last listed owner may act as owner.
    pub open spec fn ownership_error(&self, id: Seq<u8>, acc: AccountId) -> Option<Error> {
        if !self.assets().contains_key(id) {
            Some(Error::AssetIdInvalid)
        } else {
            match self.assets()[id].asset_owners {
                None => Some(Error::AssetOwnerUnAssigned),
                Some(owners) => if owners@.len() == 0 {
                    Some(Error::AssetOwnerUnAssigned)
                } else if owners@.last() != acc {
                    Some(Error::AssetOwnerInvalid)
                } else {
                    None
                },
            }
        }
    }

    pub open spec fn status_error(&self, id: Seq<u8>, status: AssetStatus) -> Option<Error> {
        if !self.assets().contains_key(id) {
            Some(Error::AssetIdInvalid)
        } else if self.assets()[id].asset_status != status {
            Some(Error::AssetStatusUnexpected)
        } else {
            None
        }
    }

    pub open spec fn insurance_none_error(&self, id: Seq<u8>) -> Option<Error> {
        if !self.assets().contains_key(id) {
            Some(Error::AssetIdInvalid)
        } else if self.assets()[id].asset_insurance is Some {
            Some(Error::AssetInsuranceRequestNotNew)
        } else {
            None
        }
    }

    pub open spec fn insurance_status_error(&self, id: Seq<u8>, status: AssetInsuranceStatus) -> Option<Error> {
        if !self.assets().contains_key(id) {
            Some(Error::AssetIdInvalid)
        } else if self.assets()[id].asset_insurance is None {
            Some(Error::AssetInsuranceRequestNone)
        } else if self.assets()[id].asset_insurance->0.status != status {
            Some(Error::AssetInsuranceStatusUnexpected)
        } else {
            None
        }
    }

    /// The insurance attached to the registered asset `id`.
    pub open spec fn insurance_of(&self, id: Seq<u8>) -> AssetInsurance {
        self.assets()[id].asset_insurance->0
    }

    pub fn new() -> (r: Self)
        ensures
            r.wf(),
            r.assets() == Map::<Seq<u8>, AssetProfile>::empty(),
            r.staged() == Map::<Seq<u8>, AssetProfile>::empty(),
            r.reclaims() == Map::<Seq<u8>, AssetInsuranceReClaim>::empty(),
            r.healthchecks() == Map::<Seq<u8>, AssetHealthCheckRec>::empty(),
    {
        AssetRegistry {
            assets: Store::new(),
            registration_queue: Store::new(),
            reclaim_queue: Store::new(),
            healthcheck_queue: Store::new(),
        }
    }

    /// The registered asset `id`.
    pub fn assetprofile_by_id(&self, id: &Vec<u8>) -> (r: Option<&AssetProfile>)
        requires
            self.wf(),
        ensures
            match r {
                Some(p) => self.assets().contains_key(id@) && *p == self.assets()[id@],
                None => !self.assets().contains_key(id@),
            },
    {
        self.assets.get(id)
    }

    /// The registration request for `id`.
    pub fn asset_register_inq(&self, id: &Vec<u8>) -> (r: Option<&AssetProfile>)
        requires
            self.wf(),
        ensures
            match r {
                Some(p) => self.staged().contains_key(id@) && *p == self.staged()[id@],
                None => !self.staged().contains_key(id@),
            },
    {
        self.registration_queue.get(id)
    }

    /// The insurance reclaim of `id` in progress.
    pub fn asset_insurance_reclaim_inq(&self, id: &Vec<u8>) -> (r: Option<&AssetInsuranceReClaim>)
        requires
            self.wf(),
        ensures
            match r {
                Some(c) => self.reclaims().contains_key(id@) && *c == self.reclaims()[id@],
                None => !self.reclaims().contains_key(id@),
            },
    {
        self.reclaim_queue.get(id)
    }

    /// The health check of `id` in progress.
    pub fn asset_healthcheck_rec_inq(&self, id: &Vec<u8>) -> (r: Option<&AssetHealthCheckRec>)
        requires
            self.wf(),
        ensures
            match r {
                Some(h) => self.healthchecks().contains_key(id@) && *h == self.healthchecks()[id@],
                None => !self.healthchecks().contains_key(id@),
            },
    {
        self.healthcheck_queue.get(id)
    }

    fn require_role(members: &MemberRegistry, who: AccountId, role: MemberRole) -> (r: Result<(), Error>)
        requires
            members.wf(),
        ensures
            r == check_result(role_error(*members, who, role)),
    {
        members.is_valid_member_role(who, role)
    }

    fn validate_asset_id(id: &Vec<u8>) -> (r: Result<(), Error>)
        ensures
            r == check_result(asset_id_error(id@)),
    {
        if id.len() == 0 {
            return Err(Error::AssetIdEmpty);
        }
        if id.len() > ASSET_ID_MAX_LENGTH {
            return Err(Error::AssetIdTooLong);
        }
        Ok(())
    }

    fn validate_asset_profile_info(info: &Option<Vec<AssetProfileInfo>>) -> (r: Result<(), Error>)
        ensures
            r == check_result(asset_info_error(*info)),
    {
        let bounds = FieldBounds {
            max_count: ASSET_PROFILE_MAX_INFO,
            max_name_len: ASSET_INFO_NAME_MAX_LENGTH,
            max_value_len: ASSET_INFO_VALUE_MAX_LENGTH,
        };
        match validate_fields(info, bounds) {
            Ok(()) => Ok(()),
            Err(BoundError::TooManyEntries) => Err(Error::AssetProfileTooManyInfos),
            Err(BoundError::NameTooLong) => Err(Error::AssetProfileInvalidInfoName),
            Err(BoundError::ValueTooLong) => Err(Error::AssetProfileInvalidInfoValue),
        }
    }

    fn validate_asset_insurance_reclaim_info(info: &Option<Vec<AssetInsuranceReClaimInfo>>) -> (r: Result<(), Error>)
        ensures
            r == check_result(reclaim_info_error(*info)),
    {
        let bounds = FieldBounds {
            max_count: ASSET_INSURANCE_RECLAIM_MAX_INFO,
            max_name_len: ASSET_INFO_NAME_MAX_LENGTH,
            max_value_len: ASSET_INFO_VALUE_MAX_LENGTH,
        };
        match validate_fields(info, bounds) {
            Ok(()) => Ok(()),
            Err(BoundError::TooManyEntries) => Err(Error::AssetInsuranceReClaimTooManyInfos),
            Err(BoundError::NameTooLong) => Err(Error::AssetInsuranceReClaimInvalidInfoName),
            Err(BoundError::ValueTooLong) => Err(Error::AssetInsuranceReClaimInvalidInfoValue),
        }
    }

    fn validate_asset_healthcheck_info(info: &Option<Vec<AssetHealthCheckRecInfo>>) -> (r: Result<(), Error>)
        ensures
            r == check_result(healthcheck_info_error(*info)),
    {
        let bounds = FieldBounds {
            max_count: ASSET_HEALTHCHECK_MAX_INFO,
            max_name_len: ASSET_INFO_NAME_MAX_LENGTH,
            max_value_len: ASSET_INFO_VALUE_MAX_LENGTH,
        };
        match validate_fields(info, bounds) {
            Ok(()) => Ok(()),
            Err(BoundError::TooManyEntries) => Err(Error::AssetHealthCheckTooManyInfos),
            Err(BoundError::NameTooLong) => Err(Error::AssetHealthCheckInvalidInfoName),
            Err(BoundError::ValueTooLong) => Err(Error::AssetHealthCheckInvalidInfoValue),
        }
    }

    fn validate_is_new_asset(&self, id: &Vec<u8>) -> (r: Result<(), Error>)
        requires
            self.wf(),
        ensures
            r == (if self.staged().contains_key(id@) || self.assets().contains_key(id@) {
                Err(Error::AssetIdAlreadyExists)
            } else {
                Ok(())
            }),
    {
        if self.registration_queue.contains_key(id) {
            return Err(Error::AssetIdAlreadyExists);
        }
        if self.assets.contains_key(id) {
            return Err(Error::AssetIdAlreadyExists);
        }
        Ok(())
    }

    fn validate_is_new_insurance_reclaim(&self, id: &Vec<u8>) -> (r: Result<(), Error>)
        requires
            self.wf(),
        ensures
            r == (if self.reclaims().contains_key(id@) {
                Err(Error::AssetInsuranceReclaimAlreadyExists)
            } else {
                Ok(())
            }),
    {
        if self.reclaim_queue.contains_key(id) {
            return Err(Error::AssetInsuranceReclaimAlreadyExists);
        }
        Ok(())
    }

    fn validate_is_new_healthcheck_request(&self, id: &Vec<u8>) -> (r: Result<(), Error>)
        requires
            self.wf(),
        ensures
            r == (if self.healthchecks().contains_key(id@) {
                Err(Error::AssetHealthCheckRequestAlreadyExists)
            } else {
                Ok(())
            }),
    {
        if self.healthcheck_queue.contains_key(id) {
            return Err(Error::AssetHealthCheckRequestAlreadyExists);
        }
        Ok(())
    }

    fn validate_asset_ownership(&self, id: &Vec<u8>, acc: AccountId) -> (r: Result<(), Error>)
        requires
            self.wf(),
        ensures
            r == check_result(self.ownership_error(id@, acc)),
    {
        let p = match self.assets.get(id) {
            Some(p) => p,
            None => return Err(Error::AssetIdInvalid),
        };
        match &p.asset_owners {
            None => Err(Error::AssetOwnerUnAssigned),
            Some(owners) => {
                if owners.len() == 0 {
                    Err(Error::AssetOwnerUnAssigned)
                } else if owners[owners.len() - 1] != acc {
                    Err(Error::AssetOwnerInvalid)
                } else {
                    Ok(())
                }
            },
        }
    }

    fn validate_asset_status(&self, id: &Vec<u8>, status: AssetStatus) -> (r: Result<(), Error>)
        requires
            self.wf(),
        ensures
            r == check_result(self.status_error(id@, status)),
    {
        match self.assets.get(id) {
            None => Err(Error::AssetIdInvalid),
            Some(p) => if p.asset_status != status {
                Err(Error::AssetStatusUnexpected)
            } else {
                Ok(())
            },
        }
    }

    fn validate_asset_insurance_is_none(&self, id: &Vec<u8>) -> (r: Result<(), Error>)
        requires
            self.wf(),
        ensures
            r == check_result(self.insurance_none_error(id@)),
    {
        match self.assets.get(id) {
            None => Err(Error::AssetIdInvalid),
            Some(p) => if p.asset_insurance.is_some() {
                Err(Error::AssetInsuranceRequestNotNew)
            } else {
                Ok(())
            },
        }
    }

    fn validate_asset_insurance_status(&self, id: &Vec<u8>, status: AssetInsuranceStatus) -> (r: Result<(), Error>)
        requires
            self.wf(),
        ensures
            r == check_result(self.insurance_status_error(id@, status)),
    {
        match self.assets.get(id) {
            None => Err(Error::AssetIdInvalid),
            Some(p) => match &p.asset_insurance {
                None => Err(Error::AssetInsuranceRequestNone),
                Some(ins) => if ins.status != status {
                    Err(Error::AssetInsuranceStatusUnexpected)
                } else {
                    Ok(())
                },
            },
        }
    }

    /// The first check that a registration request fails, if any.
    pub open spec fn register_asset_error(
        &self,
        members: MemberRegistry,
        who: AccountId,
        id: Seq<u8>,
        info: Option<Vec<AssetProfileInfo>>,
    ) -> Option<Error> {
        first_error(
            role_error(members, who, MemberRole::AssetOwner),
            first_error(
                asset_id_error(id),
                first_error(
                    asset_info_error(info),
                    if self.staged().contains_key(id) || self.assets().contains_key(id) {
                        Some(Error::AssetIdAlreadyExists)
                    } else {
                        None
                    },
                ),
            ),
        )
    }

    /// An asset owner asks to register a new asset; the request waits for a
    /// community leader's decision.
    pub fn register_asset(
        &mut self,
        members: &MemberRegistry,
        who: AccountId,
        asset_id: Vec<u8>,
        profile_info: Option<Vec<AssetProfileInfo>>,
        now: Moment,
    ) -> (r: Result<AssetEvent, Error>)
        requires
            old(self).wf(),
            members.wf(),
        ensures
            final(self).wf(),
            match old(self).register_asset_error(*members, who, asset_id@, profile_info) {
                Some(e) => r == Err::<AssetEvent, Error>(e) && *final(self) == *old(self),
                None => {
                    &&& r == Ok::<AssetEvent, Error>(AssetEvent::RequestAssetRegistration(who, asset_id))
                    &&& final(self).staged() == old(self).staged().insert(
                        asset_id@,
                        final(self).staged()[asset_id@],
                    )
                    &&& is_new_asset_profile(final(self).staged()[asset_id@], asset_id@, profile_info, who, now)
                    &&& final(self).assets() == old(self).assets()
                    &&& final(self).reclaims() == old(self).reclaims()
                    &&& final(self).healthchecks() == old(self).healthchecks()
                },
            },
    {
        if let Err(e) = Self::require_role(members, who, MemberRole::AssetOwner) {
            return Err(e);
        }
        if let Err(e) = Self::validate_asset_id(&asset_id) {
            return Err(e);
        }
        if let Err(e) = Self::validate_asset_profile_info(&profile_info) {
            return Err(e);
        }
        if let Err(e) = self.validate_is_new_asset(&asset_id) {
            return Err(e);
        }
        let profile = AssetProfileBuilder::default()
            .update_asset_id(copy_bytes(&asset_id))
            .update_owner(who)
            .update_keeper(who)
            .update_joined_date(now)
            .update_asset_profile_info(profile_info)
            .build();
        let ghost p = profile;
        self.registration_queue.insert(copy_bytes(&asset_id), profile);
        proof {
            assert(self.staged()[asset_id@] == p);
            assert forall|id: Seq<u8>| #[trigger] self.staged().contains_key(id) implies !self.assets().contains_key(id) by {
                if id != asset_id@ {
                    assert(old(self).staged().contains_key(id));
                }
            }
        }
        Ok(AssetEvent::RequestAssetRegistration(who, asset_id))
    }

    /// The first check that a decision on a registration request fails, if
    /// any.
    pub open spec fn process_registration_error(
        &self,
        members: MemberRegistry,
        who: AccountId,
        id: Seq<u8>,
        do_approve: bool,
    ) -> Option<Error> {
        first_error(
            role_error(members, who, MemberRole::CommunityLeader),
            if !self.staged().contains_key(id) {
                Some(Error::AssetIdInvalid)
            } else if do_approve && self.staged()[id].asset_status != AssetStatus::NewRegi {
                Some(Error::AssetStatusUnexpected)
            } else {
                None
            },
        )
    }

    /// The outcome of a decision on a registration request: the first
    /// failed check and nothing changed, or the event and the new state.
    pub open spec fn process_registration_post(
        pre: Self,
        post: Self,
        members: MemberRegistry,
        who: AccountId,
        asset_id: Vec<u8>,
        do_approve: bool,
        r: Result<AssetEvent, Error>,
    ) -> bool {
        match pre.process_registration_error(members, who, asset_id@, do_approve) {
            Some(e) => r == Err::<AssetEvent, Error>(e) && post == pre,
            None => {
                &&& r == Ok::<AssetEvent, Error>(
                    AssetEvent::ProcessRequestAssetRegistration(who, asset_id, do_approve),
                )
                &&& post.staged() == pre.staged().remove(asset_id@)
                &&& post.assets() == if do_approve {
                    pre.assets().insert(
                        asset_id@,
                        AssetProfile {
                            asset_status: AssetStatus::InFarm,
                            ..pre.staged()[asset_id@]
                        },
                    )
                } else {
                    pre.assets()
                }
                &&& post.reclaims() == pre.reclaims()
                &&& post.healthchecks() == pre.healthchecks()
            },
        }
    }

    /// A community leader decides on a registration request: the request
    /// leaves the queue, and on approval the asset is registered as in farm.
    pub fn process_new_asset_register_request(
        &mut self,
        members: &MemberRegistry,
        who: AccountId,
        asset_id: Vec<u8>,
        do_approve: bool,
    ) -> (r: Result<AssetEvent, Error>)
        requires
            old(self).wf(),
            members.wf(),
        ensures
            final(self).wf(),
            Self::process_registration_post(*old(self), *final(self), *members, who, asset_id, do_approve, r),
    {
        if let Err(e) = Self::require_role(members, who, MemberRole::CommunityLeader) {
            return Err(e);
        }
        match self.registration_queue.get(&asset_id) {
            None => return Err(Error::AssetIdInvalid),
            Some(p) => {
                if do_approve && p.asset_status != AssetStatus::NewRegi {
                    return Err(Error::AssetStatusUnexpected);
                }
            },
        }
        let mut profile = match self.registration_queue.take(&asset_id) {
            Some(p) => p,
            None => return Err(Error::AssetIdInvalid),
        };
        if do_approve {
            profile.asset_status = AssetStatus::InFarm;
            self.assets.insert(copy_bytes(&asset_id), profile);
        }
        proof {
            assert forall|id: Seq<u8>| #[trigger] self.staged().contains_key(id) implies !self.assets().contains_key(id) by {
                assert(old(self).staged().contains_key(id));
                assert(id != asset_id@);
            }
        }
        Ok(AssetEvent::ProcessRequestAssetRegistration(who, asset_id, do_approve))
    }

    /// Takes the registered asset `id` out for an update, which needs it in
    /// farm.
    fn take_in_farm_asset(&mut self, id: &Vec<u8>) -> (r: Result<AssetProfile, Error>)
        requires
            old(self).wf(),
        ensures
            match r {
                Ok(p) => {
                    &&& old(self).status_error(id@, AssetStatus::InFarm) is None
                    &&& p == old(self).assets()[id@]
                    &&& final(self).stores_wf()
                    &&& final(self).assets() == old(self).assets().remove(id@)
                    &&& final(self).staged() == old(self).staged()
                    &&& final(self).reclaims() == old(self).reclaims()
                    &&& final(self).healthchecks() == old(self).healthchecks()
                },
                Err(e) => old(self).status_error(id@, AssetStatus::InFarm) == Some(e) && *final(self)
                    == *old(self),
            },
    {
        if let Err(e) = self.validate_asset_status(id, AssetStatus::InFarm) {
            return Err(e);
        }
        match self.assets.take(id) {
            Some(p) => Ok(p),
            None => Err(Error::AssetIdInvalid),
        }
    }

    /// Puts back an asset taken by `take_in_farm_asset`.
    fn put_asset(&mut self, id: &Vec<u8>, p: AssetProfile)
        requires
            old(self).stores_wf(),
            !old(self).assets().contains_key(id@),
            !old(self).staged().contains_key(id@),
            forall|k: Seq<u8>| #[trigger]
                old(self).staged().contains_key(k) ==> !old(self).assets().contains_key(k),
        ensures
            final(self).wf(),
            Self::asset_set(*old(self), *final(self), id@, p),
    {
        self.assets.insert(copy_bytes(id), p);
    }

    /// The first check that an insurance application fails, if any.
    pub open spec fn request_insurance_error(&self, members: MemberRegistry, who: AccountId, id: Seq<u8>) -> Option<Error> {
        first_error(
            role_error(members, who, MemberRole::AssetOwner),
            first_error(
                self.ownership_error(id, who),
                first_error(self.insurance_none_error(id), self.status_error(id, AssetStatus::InFarm)),
            ),
        )
    }

    /// The owner of an asset in farm applies for its insurance.
    pub fn request_insurance(&mut self, members: &MemberRegistry, who: AccountId, asset_id: Vec<u8>) -> (r: Result<AssetEvent, Error>)
        requires
            old(self).wf(),
            members.wf(),
        ensures
            final(self).wf(),
            match old(self).request_insurance_error(*members, who, asset_id@) {
                Some(e) => r == Err::<AssetEvent, Error>(e) && *final(self) == *old(self),
                None => {
                    &&& r == Ok::<AssetEvent, Error>(AssetEvent::RequestAssetInsurance(who, asset_id))
                    &&& Self::asset_set(
                        *old(self),
                        *final(self),
                        asset_id@,
                        AssetProfile {
                            asset_insurance: Some(final(self).insurance_of(asset_id@)),
                            ..old(self).assets()[asset_id@]
                        },
                    )
                    &&& is_new_insurance(final(self).insurance_of(asset_id@), asset_id@)
                },
            },
    {
        if let Err(e) = Self::require_role(members, who, MemberRole::AssetOwner) {
            return Err(e);
        }
        if let Err(e) = self.validate_asset_ownership(&asset_id, who) {
            return Err(e);
        }
        if let Err(e) = self.validate_asset_insurance_is_none(&asset_id) {
            return Err(e);
        }
        let insurance = AssetInsuranceBuilder::default().update_asset_id(copy_bytes(&asset_id)).build();
        let mut p = match self.take_in_farm_asset(&asset_id) {
            Ok(p) => p,
            Err(e) => return Err(e),
        };
        p.asset_insurance = Some(insurance);
        let ghost updated = p;
        self.put_asset(&asset_id, p);
        proof {
            lemma_remove_insert(old(self).assets(), asset_id@, updated);
        }
        Ok(AssetEvent::RequestAssetInsurance(who, asset_id))
    }

    /// The first check that a premium quote fails, if any.
    pub open spec fn update_premium_error(&self, members: MemberRegistry, who: AccountId, id: Seq<u8>) -> Option<Error> {
        first_error(
            role_error(members, who, MemberRole::Insurer),
            first_error(
                self.insurance_status_error(id, AssetInsuranceStatus::NewApplication),
                self.status_error(id, AssetStatus::InFarm),
            ),
        )
    }

    /// The outcome of a premium quote: the first failed check and nothing
    /// changed, or the event and the quoted insurance.
    pub open spec fn update_premium_post(
        pre: Self,
        post: Self,
        members: MemberRegistry,
        who: AccountId,
        asset_id: Vec<u8>,
        premium: Balance,
        r: Result<AssetEvent, Error>,
    ) -> bool {
        match pre.update_premium_error(members, who, asset_id@) {
            Some(e) => r == Err::<AssetEvent, Error>(e) && post == pre,
            None => {
                &&& r == Ok::<AssetEvent, Error>(
                    AssetEvent::AssetInsurancePremiumQuoteUpdate(who, asset_id, premium),
                )
                &&& Self::asset_set(
                    pre,
                    post,
                    asset_id@,
                    AssetProfile {
                        asset_insurance: Some(
                            AssetInsurance {
                                quoted_premium: premium,
                                status: AssetInsuranceStatus::PremiumQuoted,
                                ..pre.insurance_of(asset_id@)
                            },
                        ),
                        ..pre.assets()[asset_id@]
                    },
                )
            },
        }
    }

    /// An insurer quotes the premium of a new application.
    pub fn update_insurance_premium(
        &mut self,
        members: &MemberRegistry,
        who: AccountId,
        asset_id: Vec<u8>,
        premium: Balance,
    ) -> (r: Result<AssetEvent, Error>)
        requires
            old(self).wf(),
            members.wf(),
        ensures
            final(self).wf(),
            Self::update_premium_post(*old(self), *final(self), *members, who, asset_id, premium, r),
    {
        if let Err(e) = Self::require_role(members, who, MemberRole::Insurer) {
            return Err(e);
        }
        if let Err(e) = self.validate_asset_insurance_status(&asset_id, AssetInsuranceStatus::NewApplication) {
            return Err(e);
        }
        let mut p = match self.take_in_farm_asset(&asset_id) {
            Ok(p) => p,
            Err(e) => return Err(e),
        };
        if let Some(ins) = &mut p.asset_insurance {
            ins.quoted_premium = premium;
            ins.status = AssetInsuranceStatus::PremiumQuoted;
        }
        let ghost updated = p;
        self.put_asset(&asset_id, p);
        proof {
            lemma_remove_insert(old(self).assets(), asset_id@, updated);
        }
        Ok(AssetEvent::AssetInsurancePremiumQuoteUpdate(who, asset_id, premium))
    }

    /// The first check that a premium payment fails, if any.
    pub open spec fn deposit_premium_error(&self, members: MemberRegistry, who: AccountId, id: Seq<u8>) -> Option<Error> {
        first_error(
            role_error(members, who, MemberRole::AssetOwner),
            first_error(
                self.ownership_error(id, who),
                first_error(
                    self.insurance_status_error(id, AssetInsuranceStatus::PremiumQuoted),
                    self.status_error(id, AssetStatus::InFarm),
                ),
            ),
        )
    }

    /// The outcome of a premium payment: the first failed check and nothing
    /// changed; or, when the ledger did not move the payment, `TransferFailed`
    /// and nothing changed; or the event and the paid insurance.
    pub open spec fn deposit_premium_post(
        pre: Self,
        post: Self,
        members: MemberRegistry,
        who: AccountId,
        asset_id: Vec<u8>,
        premium_deposit: Balance,
        transferred: bool,
        r: Result<AssetEvent, Error>,
    ) -> bool {
        match pre.deposit_premium_error(members, who, asset_id@) {
            Some(e) => r == Err::<AssetEvent, Error>(e) && post == pre,
            None => if !transferred {
                r == Err::<AssetEvent, Error>(Error::TransferFailed) && post == pre
            } else {
                &&& r == Ok::<AssetEvent, Error>(
                    AssetEvent::AssetInsurancePremiumDepositUpdate(who, asset_id, premium_deposit),
                )
                &&& Self::asset_set(
                    pre,
                    post,
                    asset_id@,
                    AssetProfile {
                        asset_insurance: Some(
                            AssetInsurance {
                                status: AssetInsuranceStatus::PremiumPaid,
                                ..pre.insurance_of(asset_id@)
                            },
                        ),
                        ..pre.assets()[asset_id@]
                    },
                )
            },
        }
    }

    fn check_deposit_insurance_premium(&self, members: &MemberRegistry, who: AccountId, asset_id: &Vec<u8>) -> (r: Result<(), Error>)
        requires
            self.wf(),
            members.wf(),
        ensures
            r == check_result(self.deposit_premium_error(*members, who, asset_id@)),
    {
        if let Err(e) = Self::require_role(members, who, MemberRole::AssetOwner) {
            return Err(e);
        }
        if let Err(e) = self.validate_asset_ownership(asset_id, who) {
            return Err(e);
        }
        if let Err(e) = self.validate_asset_insurance_status(asset_id, AssetInsuranceStatus::PremiumQuoted) {
            return Err(e);
        }
        self.validate_asset_status(asset_id, AssetStatus::InFarm)
    }

    /// The transfer of a premium payment from the owner to the society's
    /// account, or the check that the payment fails; changes nothing. The
    /// host carries the transfer out and hands its outcome to
    /// `deposit_insurance_premium`.
    pub fn prepare_deposit_insurance_premium(
        &self,
        members: &MemberRegistry,
        who: AccountId,
        asset_id: &Vec<u8>,
        premium_deposit: Balance,
    ) -> (r: Result<Transfer, Error>)
        requires
            self.wf(),
            members.wf(),
        ensures
            r == match self.deposit_premium_error(*members, who, asset_id@) {
                Some(e) => Err::<Transfer, Error>(e),
                None => Ok(Transfer { from: who, to: members.coop_account(), amount: premium_deposit }),
            },
    {
        if let Err(e) = self.check_deposit_insurance_premium(members, who, asset_id) {
            return Err(e);
        }
        let society = members.member_config().coop_society_id;
        Ok(Transfer { from: who, to: members.coop_account_id(society), amount: premium_deposit })
    }

    /// The owner pays the quoted premium; `transferred` is whether the ledger
    /// moved the payment that `prepare_deposit_insurance_premium` asked for.
    /// Only a moved payment marks the insurance paid.
    pub fn deposit_insurance_premium(
        &mut self,
        members: &MemberRegistry,
        who: AccountId,
        asset_id: Vec<u8>,
        premium_deposit: Balance,
        transferred: bool,
    ) -> (r: Result<AssetEvent, Error>)
        requires
            old(self).wf(),
            members.wf(),
        ensures
            final(self).wf(),
            Self::deposit_premium_post(
                *old(self),
                *final(self),
                *members,
                who,
                asset_id,
                premium_deposit,
                transferred,
                r,
            ),
    {
        if let Err(e) = self.check_deposit_insurance_premium(members, who, &asset_id) {
            return Err(e);
        }
        if !transferred {
            return Err(Error::TransferFailed);
        }
        let mut p = match self.take_in_farm_asset(&asset_id) {
            Ok(p) => p,
            Err(e) => return Err(e),
        };
        if let Some(ins) = &mut p.asset_insurance {
            ins.status = AssetInsuranceStatus::PremiumPaid;
        }
        let ghost updated = p;
        self.put_asset(&asset_id, p);
        proof {
            lemma_remove_insert(old(self).assets(), asset_id@, updated);
        }
        Ok(AssetEvent::AssetInsurancePremiumDepositUpdate(who, asset_id, premium_deposit))
    }

    /// The first check that an insurance approval fails, if any.
    pub open spec fn approve_insurance_error(&self, members: MemberRegistry, who: AccountId, id: Seq<u8>) -> Option<Error> {
        first_error(
            role_error(members, who, MemberRole::Insurer),
            first_error(
                self.insurance_status_error(id, AssetInsuranceStatus::PremiumPaid),
                self.status_error(id, AssetStatus::InFarm),
            ),
        )
    }

    /// The outcome of an insurance approval: the first failed check and
    /// nothing changed, or the event and the active insurance.
    pub open spec fn approve_insurance_post(
        pre: Self,
        post: Self,
        members: MemberRegistry,
        who: AccountId,
        asset_id: Vec<u8>,
        now: Moment,
        r: Result<AssetEvent, Error>,
    ) -> bool {
        match pre.approve_insurance_error(members, who, asset_id@) {
            Some(e) => r == Err::<AssetEvent, Error>(e) && post == pre,
            None => {
                &&& r == Ok::<AssetEvent, Error>(AssetEvent::AssetInsuranceApproved(who, asset_id))
                &&& Self::asset_set(
                    pre,
                    post,
                    asset_id@,
                    AssetProfile {
                        asset_insurance: Some(
                            AssetInsurance {
                                start_date: now,
                                expiry_date: now,
                                status: AssetInsuranceStatus::Active,
                                ..pre.insurance_of(asset_id@)
                            },
                        ),
                        ..pre.assets()[asset_id@]
                    },
                )
            },
        }
    }

    /// An insurer activates a paid insurance; it starts, and expires, `now`.
    pub fn approve_insurance(
        &mut self,
        members: &MemberRegistry,
        who: AccountId,
        asset_id: Vec<u8>,
        now: Moment,
    ) -> (r: Result<AssetEvent, Error>)
        requires
            old(self).wf(),
            members.wf(),
        ensures
            final(self).wf(),
            Self::approve_insurance_post(*old(self), *final(self), *members, who, asset_id, now, r),
    {
        if let Err(e) = Self::require_role(members, who, MemberRole::Insurer) {
            return Err(e);
        }
        if let Err(e) = self.validate_asset_insurance_status(&asset_id, AssetInsuranceStatus::PremiumPaid) {
            return Err(e);
        }
        let mut p = match self.take_in_farm_asset(&asset_id) {
            Ok(p) => p,
            Err(e) => return Err(e),
        };
        if let Some(ins) = &mut p.asset_insurance {
            ins.start_date = now;
            ins.expiry_date = now;
            ins.status = AssetInsuranceStatus::Active;
        }
        let ghost updated = p;
        self.put_asset(&asset_id, p);
        proof {
            lemma_remove_insert(old(self).assets(), asset_id@, updated);
        }
        Ok(AssetEvent::AssetInsuranceApproved(who, asset_id))
    }

    /// The reclaim of `id` is missing, or is not in `status`.
    pub open spec fn reclaim_status_error(&self, id: Seq<u8>, status: AssetInsuranceReClaimStatus) -> Option<Error> {
        if !self.reclaims().contains_key(id) {
            Some(Error::AssetReClaimIdInvalid)
        } else if self.reclaims()[id].status != status {
            Some(Error::AssetInsuranceReClaimStatusUnexpected)
        } else {
            None
        }
    }

    /// The health check of `id` is missing, or is not in any of the states
    /// that the step needs (`a` or `b`).
    pub open spec fn healthcheck_status_error(
        &self,
        id: Seq<u8>,
        a: AssetHealthCheckRecStatus,
        b: AssetHealthCheckRecStatus,
    ) -> Option<Error> {
        if !self.healthchecks().contains_key(id) {
            Some(Error::AssetHealthCheckRecIdInvalid)
        } else if self.healthchecks()[id].status != a && self.healthchecks()[id].status != b {
            Some(Error::AssetHealthCheckRecStatusUnexpected)
        } else {
            None
        }
    }

    /// The checks shared by the steps of a reclaim or a health check: the
    /// asset is in farm and its insurance is active.
    pub open spec fn insured_in_farm_error(&self, id: Seq<u8>) -> Option<Error> {
        first_error(
            self.status_error(id, AssetStatus::InFarm),
            self.insurance_status_error(id, AssetInsuranceStatus::Active),
        )
    }

    /// The checks before an owner opens a reclaim or a health check.
    pub open spec fn owner_case_error(&self, members: MemberRegistry, who: AccountId, id: Seq<u8>) -> Option<Error> {
        first_error(
            role_error(members, who, MemberRole::AssetOwner),
            first_error(self.ownership_error(id, who), self.insured_in_farm_error(id)),
        )
    }

    fn validate_insured_in_farm(&self, id: &Vec<u8>) -> (r: Result<(), Error>)
        requires
            self.wf(),
        ensures
            r == check_result(self.insured_in_farm_error(id@)),
    {
        if let Err(e) = self.validate_asset_status(id, AssetStatus::InFarm) {
            return Err(e);
        }
        self.validate_asset_insurance_status(id, AssetInsuranceStatus::Active)
    }

    fn validate_owner_case(&self, members: &MemberRegistry, who: AccountId, id: &Vec<u8>) -> (r: Result<(), Error>)
        requires
            self.wf(),
            members.wf(),
        ensures
            r == check_result(self.owner_case_error(*members, who, id@)),
    {
        if let Err(e) = Self::require_role(members, who, MemberRole::AssetOwner) {
            return Err(e);
        }
        if let Err(e) = self.validate_asset_ownership(id, who) {
            return Err(e);
        }
        self.validate_insured_in_farm(id)
    }

    /// The first check that a reclaim request fails, if any.
    pub open spec fn request_reclaim_error(
        &self,
        members: MemberRegistry,
        who: AccountId,
        id: Seq<u8>,
        info: Option<Vec<AssetInsuranceReClaimInfo>>,
    ) -> Option<Error> {
        first_error(
            self.owner_case_error(members, who, id),
            first_error(
                reclaim_info_error(info),
                if self.reclaims().contains_key(id) {
                    Some(Error::AssetInsuranceReclaimAlreadyExists)
                } else {
                    None
                },
            ),
        )
    }

    /// The owner of an insured asset in farm claims its insurance; the claim
    /// waits for the community's and then the insurer's approval.
    pub fn request_insurance_reclaim(
        &mut self,
        members: &MemberRegistry,
        who: AccountId,
        asset_id: Vec<u8>,
        reclaim_info: Option<Vec<AssetInsuranceReClaimInfo>>,
    ) -> (r: Result<AssetEvent, Error>)
        requires
            old(self).wf(),
            members.wf(),
        ensures
            final(self).wf(),
            match old(self).request_reclaim_error(*members, who, asset_id@, reclaim_info) {
                Some(e) => r == Err::<AssetEvent, Error>(e) && *final(self) == *old(self),
                None => {
                    &&& r == Ok::<AssetEvent, Error>(AssetEvent::AssetInsuranceReclaim(who, asset_id))
                    &&& Self::reclaim_set(*old(self), *final(self), asset_id@, final(self).reclaims()[asset_id@])
                    &&& is_new_reclaim(final(self).reclaims()[asset_id@], asset_id@, reclaim_info)
                },
            },
    {
        if let Err(e) = self.validate_owner_case(members, who, &asset_id) {
            return Err(e);
        }
        if let Err(e) = Self::validate_asset_insurance_reclaim_info(&reclaim_info) {
            return Err(e);
        }
        if let Err(e) = self.validate_is_new_insurance_reclaim(&asset_id) {
            return Err(e);
        }
        let reclaim = AssetInsuranceReClaimBuilder::default()
            .update_asset_id(copy_bytes(&asset_id))
            .update_owner_note(reclaim_info)
            .build();
        self.reclaim_queue.insert(copy_bytes(&asset_id), reclaim);
        proof {
            assert(self.staged() == old(self).staged() && self.assets() == old(self).assets());
        }
        Ok(AssetEvent::AssetInsuranceReclaim(who, asset_id))
    }

    /// Takes the reclaim of `id` out for a step that needs it in `status`.
    fn take_reclaim(&mut self, id: &Vec<u8>, status: AssetInsuranceReClaimStatus) -> (r: Result<AssetInsuranceReClaim, Error>)
        requires
            old(self).wf(),
        ensures
            match r {
                Ok(c) => {
                    &&& old(self).reclaim_status_error(id@, status) is None
                    &&& c == old(self).reclaims()[id@]
                    &&& final(self).wf()
                    &&& !final(self).reclaims().contains_key(id@)
                    &&& final(self).reclaims() == old(self).reclaims().remove(id@)
                    &&& final(self).assets() == old(self).assets()
                    &&& final(self).staged() == old(self).staged()
                    &&& final(self).healthchecks() == old(self).healthchecks()
                },
                Err(e) => old(self).reclaim_status_error(id@, status) == Some(e) && *final(self) == *old(self),
            },
    {
        match self.reclaim_queue.get(id) {
            None => return Err(Error::AssetReClaimIdInvalid),
            Some(c) => if c.status != status {
                return Err(Error::AssetInsuranceReClaimStatusUnexpected);
            },
        }
        let r = self.reclaim_queue.take(id);
        proof {
            assert(self.staged() == old(self).staged() && self.assets() == old(self).assets());
        }
        match r {
            Some(c) => Ok(c),
            None => Err(Error::AssetReClaimIdInvalid),
        }
    }

    /// Puts back a reclaim taken by `take_reclaim`, and states the result.
    fn put_reclaim(&mut self, id: &Vec<u8>, c: AssetInsuranceReClaim, Ghost(pre): Ghost<Self>)
        requires
            old(self).wf(),
            !old(self).reclaims().contains_key(id@),
            old(self).reclaims() == pre.reclaims().remove(id@),
            old(self).assets() == pre.assets(),
            old(self).staged() == pre.staged(),
            old(self).healthchecks() == pre.healthchecks(),
        ensures
            final(self).wf(),
            Self::reclaim_set(pre, *final(self), id@, c),
    {
        self.reclaim_queue.insert(copy_bytes(id), c);
        proof {
            assert(self.staged() == old(self).staged() && self.assets() == old(self).assets());
            lemma_remove_insert(pre.reclaims(), id@, c);
        }
    }

    /// The reclaim `c` after a step that appends `note` to the community's
    /// notes (`community`) or else to the insurer's, and moves to `status`.
    pub open spec fn reclaim_step(
        c: AssetInsuranceReClaim,
        next: AssetInsuranceReClaim,
        community: bool,
        note: Option<Vec<AssetInsuranceReClaimInfo>>,
        status: AssetInsuranceReClaimStatus,
    ) -> bool {
        if community {
            &&& notes_view(next.community_note) == appended_notes(notes_view(c.community_note), notes_view(note))
            &&& next == (AssetInsuranceReClaim { community_note: next.community_note, status, ..c })
        } else {
            &&& notes_view(next.insurer_note) == appended_notes(notes_view(c.insurer_note), notes_view(note))
            &&& next == (AssetInsuranceReClaim { insurer_note: next.insurer_note, status, ..c })
        }
    }

    /// The first check that a decision on a reclaim fails, if any; `status`
    /// is the state that the decision needs.
    pub open spec fn reclaim_decision_error(
        &self,
        members: MemberRegistry,
        who: AccountId,
        role: MemberRole,
        id: Seq<u8>,
        note: Option<Vec<AssetInsuranceReClaimInfo>>,
        status: AssetInsuranceReClaimStatus,
    ) -> Option<Error> {
        first_error(
            role_error(members, who, role),
            first_error(
                self.insured_in_farm_error(id),
                first_error(reclaim_info_error(note), self.reclaim_status_error(id, status)),
            ),
        )
    }

    /// A community leader approves or rejects a new reclaim, with a note.
    pub fn community_approve_insurance_reclaim(
        &mut self,
        members: &MemberRegistry,
        who: AccountId,
        asset_id: Vec<u8>,
        approve: bool,
        community_reclaim_note: Option<Vec<AssetInsuranceReClaimInfo>>,
    ) -> (r: Result<AssetEvent, Error>)
        requires
            old(self).wf(),
            members.wf(),
        ensures
            final(self).wf(),
            match old(self).reclaim_decision_error(
                *members,
                who,
                MemberRole::CommunityLeader,
                asset_id@,
                community_reclaim_note,
                AssetInsuranceReClaimStatus::NewReclaim,
            ) {
                Some(e) => r == Err::<AssetEvent, Error>(e) && *final(self) == *old(self),
                None => {
                    &&& r == Ok::<AssetEvent, Error>(AssetEvent::AssetInsuranceReclaimCommunityApproved(who, asset_id))
                    &&& Self::reclaim_set(*old(self), *final(self), asset_id@, final(self).reclaims()[asset_id@])
                    &&& Self::reclaim_step(
                        old(self).reclaims()[asset_id@],
                        final(self).reclaims()[asset_id@],
                        true,
                        community_reclaim_note,
                        if approve {
                            AssetInsuranceReClaimStatus::CommunityApproved
                        } else {
                            AssetInsuranceReClaimStatus::CommunityDisApproved
                        },
                    )
                },
            },
    {
        if let Err(e) = Self::require_role(members, who, MemberRole::CommunityLeader) {
            return Err(e);
        }
        if let Err(e) = self.validate_insured_in_farm(&asset_id) {
            return Err(e);
        }
        if let Err(e) = Self::validate_asset_insurance_reclaim_info(&community_reclaim_note) {
            return Err(e);
        }
        let ghost pre = *self;
        let mut c = match self.take_reclaim(&asset_id, AssetInsuranceReClaimStatus::NewReclaim) {
            Ok(c) => c,
            Err(e) => return Err(e),
        };
        let notes = c.community_note;
        c.community_note = append_notes(notes, community_reclaim_note);
        c.status = if approve {
            AssetInsuranceReClaimStatus::CommunityApproved
        } else {
            AssetInsuranceReClaimStatus::CommunityDisApproved
        };
        self.put_reclaim(&asset_id, c, Ghost(pre));
        Ok(AssetEvent::AssetInsuranceReclaimCommunityApproved(who, asset_id))
    }

    /// An insurer approves or rejects a reclaim that the community approved,
    /// with a note.
    pub fn insurer_approve_insurance_reclaim(
        &mut self,
        members: &MemberRegistry,
        who: AccountId,
        asset_id: Vec<u8>,
        approve: bool,
        insurer_reclaim_note: Option<Vec<AssetInsuranceReClaimInfo>>,
    ) -> (r: Result<AssetEvent, Error>)
        requires
            old(self).wf(),
            members.wf(),
        ensures
            final(self).wf(),
            match old(self).reclaim_decision_error(
                *members,
                who,
                MemberRole::Insurer,
                asset_id@,
                insurer_reclaim_note,
                AssetInsuranceReClaimStatus::CommunityApproved,
            ) {
                Some(e) => r == Err::<AssetEvent, Error>(e) && *final(self) == *old(self),
                None => {
                    &&& r == Ok::<AssetEvent, Error>(AssetEvent::AssetInsuranceReclaimInsurerApproved(who, asset_id))
                    &&& Self::reclaim_set(*old(self), *final(self), asset_id@, final(self).reclaims()[asset_id@])
                    &&& Self::reclaim_step(
                        old(self).reclaims()[asset_id@],
                        final(self).reclaims()[asset_id@],
                        false,
                        insurer_reclaim_note,
                        if approve {
                            AssetInsuranceReClaimStatus::InsurerApproved
                        } else {
                            AssetInsuranceReClaimStatus::InsurerDisApproved
                        },
                    )
                },
            },
    {
        if let Err(e) = Self::require_role(members, who, MemberRole::Insurer) {
            return Err(e);
        }
        if let Err(e) = self.validate_insured_in_farm(&asset_id) {
            return Err(e);
        }
        if let Err(e) = Self::validate_asset_insurance_reclaim_info(&insurer_reclaim_note) {
            return Err(e);
        }
        let ghost pre = *self;
        let mut c = match self.take_reclaim(&asset_id, AssetInsuranceReClaimStatus::CommunityApproved) {
            Ok(c) => c,
            Err(e) => return Err(e),
        };
        let notes = c.insurer_note;
        c.insurer_note = append_notes(notes, insurer_reclaim_note);
        c.status = if approve {
            AssetInsuranceReClaimStatus::InsurerApproved
        } else {
            AssetInsuranceReClaimStatus::InsurerDisApproved
        };
        self.put_reclaim(&asset_id, c, Ghost(pre));
        Ok(AssetEvent::AssetInsuranceReclaimInsurerApproved(who, asset_id))
    }

    /// The first check that a health-check request fails, if any.
    pub open spec fn request_healthcheck_error(
        &self,
        members: MemberRegistry,
        who: AccountId,
        id: Seq<u8>,
        info: Option<Vec<AssetHealthCheckRecInfo>>,
    ) -> Option<Error> {
        first_error(
            self.owner_case_error(members, who, id),
            first_error(
                healthcheck_info_error(info),
                if self.healthchecks().contains_key(id) {
                    Some(Error::AssetHealthCheckRequestAlreadyExists)
                } else {
                    None
                },
            ),
        )
    }

    /// The owner of an insured asset in farm asks for a health check.
    pub fn request_healthcheck(
        &mut self,
        members: &MemberRegistry,
        who: AccountId,
        asset_id: Vec<u8>,
        request_info: Option<Vec<AssetHealthCheckRecInfo>>,
    ) -> (r: Result<AssetEvent, Error>)
        requires
            old(self).wf(),
            members.wf(),
        ensures
            final(self).wf(),
            match old(self).request_healthcheck_error(*members, who, asset_id@, request_info) {
                Some(e) => r == Err::<AssetEvent, Error>(e) && *final(self) == *old(self),
                None => {
                    &&& r == Ok::<AssetEvent, Error>(AssetEvent::AssetHealthCheckRequest(who, asset_id))
                    &&& Self::healthcheck_set(
                        *old(self),
                        *final(self),
                        asset_id@,
                        final(self).healthchecks()[asset_id@],
                    )
                    &&& is_new_healthcheck(final(self).healthchecks()[asset_id@], asset_id@, request_info)
                },
            },
    {
        if let Err(e) = self.validate_owner_case(members, who, &asset_id) {
            return Err(e);
        }
        if let Err(e) = Self::validate_asset_healthcheck_info(&request_info) {
            return Err(e);
        }
        if let Err(e) = self.validate_is_new_healthcheck_request(&asset_id) {
            return Err(e);
        }
        let record = AssetHealthCheckRecBuilder::default()
            .update_asset_id(copy_bytes(&asset_id))
            .update_owner_note(request_info)
            .build();
        self.healthcheck_queue.insert(copy_bytes(&asset_id), record);
        proof {
            assert(self.staged() == old(self).staged() && self.assets() == old(self).assets());
        }
        Ok(AssetEvent::AssetHealthCheckRequest(who, asset_id))
    }

    /// Takes the health check of `id` out for a step that needs it in state
    /// `a` or `b`.
    fn take_healthcheck(
        &mut self,
        id: &Vec<u8>,
        a: AssetHealthCheckRecStatus,
        b: AssetHealthCheckRecStatus,
    ) -> (r: Result<AssetHealthCheckRec, Error>)
        requires
            old(self).wf(),
        ensures
            match r {
                Ok(h) => {
                    &&& old(self).healthcheck_status_error(id@, a, b) is None
                    &&& h == old(self).healthchecks()[id@]
                    &&& final(self).wf()
                    &&& !final(self).healthchecks().contains_key(id@)
                    &&& final(self).healthchecks() == old(self).healthchecks().remove(id@)
                    &&& final(self).assets() == old(self).assets()
                    &&& final(self).staged() == old(self).staged()
                    &&& final(self).reclaims() == old(self).reclaims()
                },
                Err(e) => old(self).healthcheck_status_error(id@, a, b) == Some(e) && *final(self) == *old(self),
            },
    {
        match self.healthcheck_queue.get(id) {
            None => return Err(Error::AssetHealthCheckRecIdInvalid),
            Some(h) => if h.status != a && h.status != b {
                return Err(Error::AssetHealthCheckRecStatusUnexpected);
            },
        }
        let r = self.healthcheck_queue.take(id);
        proof {
            assert(self.staged() == old(self).staged() && self.assets() == old(self).assets());
        }
        match r {
            Some(h) => Ok(h),
            None => Err(Error::AssetHealthCheckRecIdInvalid),
        }
    }

    /// Puts back a health check taken by `take_healthcheck`, and states the
    /// result.
    fn put_healthcheck(&mut self, id: &Vec<u8>, h: AssetHealthCheckRec, Ghost(pre): Ghost<Self>)
        requires
            old(self).wf(),
            !old(self).healthchecks().contains_key(id@),
            old(self).healthchecks() == pre.healthchecks().remove(id@),
            old(self).assets() == pre.assets(),
            old(self).staged() == pre.staged(),
            old(self).reclaims() == pre.reclaims(),
        ensures
            final(self).wf(),
            Self::healthcheck_set(pre, *final(self), id@, h),
    {
        self.healthcheck_queue.insert(copy_bytes(id), h);
        proof {
            assert(self.staged() == old(self).staged() && self.assets() == old(self).assets());
            lemma_remove_insert(pre.healthchecks(), id@, h);
        }
    }

    /// The health check `h` after a step that appends `note` to the
    /// officer's notes (`officer`) or else to the community's, and moves to
    /// `status`.
    pub open spec fn healthcheck_step(
        h: AssetHealthCheckRec,
        next: AssetHealthCheckRec,
        officer: bool,
        note: Option<Vec<AssetHealthCheckRecInfo>>,
        status: AssetHealthCheckRecStatus,
    ) -> bool {
        if officer {
            &&& notes_view(next.health_officer_note) == appended_notes(
                notes_view(h.health_officer_note),
                notes_view(note),
            )
            &&& next == (AssetHealthCheckRec { health_officer_note: next.health_officer_note, status, ..h })
        } else {
            &&& notes_view(next.community_note) == appended_notes(notes_view(h.community_note), notes_view(note))
            &&& next == (AssetHealthCheckRec { community_note: next.community_note, status, ..h })
        }
    }

    /// The first check that a remark on a health check fails, if any; the
    /// record must be in state `a` or `b`.
    pub open spec fn healthcheck_remark_error(
        &self,
        members: MemberRegistry,
        who: AccountId,
        role: MemberRole,
        id: Seq<u8>,
        note: Option<Vec<AssetHealthCheckRecInfo>>,
        a: AssetHealthCheckRecStatus,
        b: AssetHealthCheckRecStatus,
    ) -> Option<Error> {
        first_error(
            role_error(members, who, role),
            first_error(
                self.insured_in_farm_error(id),
                first_error(healthcheck_info_error(note), self.healthcheck_status_error(id, a, b)),
            ),
        )
    }

    /// A health officer adds a note to a health check under treatment, and
    /// says whether the treatment is done; it may do so repeatedly while the
    /// treatment goes on.
    pub fn healthofficer_remark(
        &mut self,
        members: &MemberRegistry,
        who: AccountId,
        asset_id: Vec<u8>,
        treatment_done: bool,
        healthofficer_note: Option<Vec<AssetHealthCheckRecInfo>>,
    ) -> (r: Result<AssetEvent, Error>)
        requires
            old(self).wf(),
            members.wf(),
        ensures
            final(self).wf(),
            match old(self).healthcheck_remark_error(
                *members,
                who,
                MemberRole::HealthOfficer,
                asset_id@,
                healthofficer_note,
                AssetHealthCheckRecStatus::NewReq,
                AssetHealthCheckRecStatus::TreatmentInProgress,
            ) {
                Some(e) => r == Err::<AssetEvent, Error>(e) && *final(self) == *old(self),
                None => {
                    &&& r == Ok::<AssetEvent, Error>(AssetEvent::AssetHealthCheckHealthOfficerUpdate(who, asset_id))
                    &&& Self::healthcheck_set(
                        *old(self),
                        *final(self),
                        asset_id@,
                        final(self).healthchecks()[asset_id@],
                    )
                    &&& Self::healthcheck_step(
                        old(self).healthchecks()[asset_id@],
                        final(self).healthchecks()[asset_id@],
                        true,
                        healthofficer_note,
                        if treatment_done {
                            AssetHealthCheckRecStatus::TreatmentDone
                        } else {
                            AssetHealthCheckRecStatus::TreatmentInProgress
                        },
                    )
                },
            },
    {
        if let Err(e) = Self::require_role(members, who, MemberRole::HealthOfficer) {
            return Err(e);
        }
        if let Err(e) = self.validate_insured_in_farm(&asset_id) {
            return Err(e);
        }
        if let Err(e) = Self::validate_asset_healthcheck_info(&healthofficer_note) {
            return Err(e);
        }
        let ghost pre = *self;
        let mut h = match self.take_healthcheck(
            &asset_id,
            AssetHealthCheckRecStatus::NewReq,
            AssetHealthCheckRecStatus::TreatmentInProgress,
        ) {
            Ok(h) => h,
            Err(e) => return Err(e),
        };
        let notes = h.health_officer_note;
        h.health_officer_note = append_notes(notes, healthofficer_note);
        h.status = if treatment_done {
            AssetHealthCheckRecStatus::TreatmentDone
        } else {
            AssetHealthCheckRecStatus::TreatmentInProgress
        };
        self.put_healthcheck(&asset_id, h, Ghost(pre));
        Ok(AssetEvent::AssetHealthCheckHealthOfficerUpdate(who, asset_id))
    }

    /// A community leader adds a note to a health check whose treatment is
    /// done, and approves it or leaves it where it is.
    pub fn community_remark(
        &mut self,
        members: &MemberRegistry,
        who: AccountId,
        asset_id: Vec<u8>,
        approved: bool,
        community_remark: Option<Vec<AssetHealthCheckRecInfo>>,
    ) -> (r: Result<AssetEvent, Error>)
        requires
            old(self).wf(),
            members.wf(),
        ensures
            final(self).wf(),
            match old(self).healthcheck_remark_error(
                *members,
                who,
                MemberRole::CommunityLeader,
                asset_id@,
                community_remark,
                AssetHealthCheckRecStatus::TreatmentDone,
                AssetHealthCheckRecStatus::TreatmentDone,
            ) {
                Some(e) => r == Err::<AssetEvent, Error>(e) && *final(self) == *old(self),
                None => {
                    &&& r == Ok::<AssetEvent, Error>(AssetEvent::AssetHealthCheckCommunityUpdate(who, asset_id))
                    &&& Self::healthcheck_set(
                        *old(self),
                        *final(self),
                        asset_id@,
                        final(self).healthchecks()[asset_id@],
                    )
                    &&& Self::healthcheck_step(
                        old(self).healthchecks()[asset_id@],
                        final(self).healthchecks()[asset_id@],
                        false,
                        community_remark,
                        if approved {
                            AssetHealthCheckRecStatus::CommunityApproved
                        } else {
                            AssetHealthCheckRecStatus::TreatmentDone
                        },
                    )
                },
            },
    {
        if let Err(e) = Self::require_role(members, who, MemberRole::CommunityLeader) {
            return Err(e);
        }
        if let Err(e) = self.validate_insured_in_farm(&asset_id) {
            return Err(e);
        }
        if let Err(e) = Self::validate_asset_healthcheck_info(&community_remark) {
            return Err(e);
        }
        let ghost pre = *self;
        let mut h = match self.take_healthcheck(
            &asset_id,
            AssetHealthCheckRecStatus::TreatmentDone,
            AssetHealthCheckRecStatus::TreatmentDone,
        ) {
            Ok(h) => h,
            Err(e) => return Err(e),
        };
        let notes = h.community_note;
        h.community_note = append_notes(notes, community_remark);
        if approved {
            h.status = AssetHealthCheckRecStatus::CommunityApproved;
        }
        self.put_healthcheck(&asset_id, h, Ghost(pre));
        Ok(AssetEvent::AssetHealthCheckCommunityUpdate(who, asset_id))
    }
}

} // verus!
