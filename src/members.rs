use vstd::prelude::*;

use crate::fields::{field_error, validate_fields, BoundError, FieldBounds, ProfileField};
use crate::store::{copy_bytes, AccountIndex, Store};
use crate::types::{check_result, first_error, AccountId, Balance, Error, Moment, Transfer};

verus! {

pub const SOCIETY_MEMBERSHIP_ID_MAX_LENGTH: usize = 36;
pub const MEMBER_PROFILE_INFO_NAME_MAX_LENGTH: usize = 10;
pub const MEMBER_PROFILE_INFO_VALUE_MAX_LENGTH: usize = 20;
pub const MEMBER_PROFILE_MAX_INFO: usize = 5;

/// A profile attribute of a member, e.g. `country: UK`.
pub type MemberProfileInfo = ProfileField;

#[derive(Clone, Copy, Debug, PartialEq, Eq, Structural)]
pub enum MemberStatus {
    Active,
    Suspended,
    Terminated,
}

#[derive(Clone, Copy, Debug, PartialEq, Eq, Structural)]
pub enum MemberRole {
    CommunityHead,
    CommunityLeader,
    AssetOwner,
    AssetKeeper,
    Insurer,
    HealthOfficer,
}

#[derive(Clone, Debug, PartialEq, Eq)]
pub struct MemberProfile {
    pub member_acc: AccountId,
    pub society_membership_id: Vec<u8>,
    pub prof_info: Option<Vec<MemberProfileInfo>>,
    pub joined_date: Moment,
    pub member_status: Option<MemberStatus>,
    pub role: Option<Vec<MemberRole>>,
    pub karma: u32,
    /// The deposit paid for membership.
    pub deposit: Balance,
}

/// Collects the fields of a new member profile.
pub struct MemberProfileBuilder {
    member_acc: AccountId,
    society_membership_id: Vec<u8>,
    prof_info: Option<Vec<MemberProfileInfo>>,
    joined_date: Moment,
    /// The deposit paid for membership.
    deposit: Balance,
}

impl MemberProfileBuilder {
    pub closed spec fn spec_member_acc(&self) -> AccountId {
        self.member_acc
    }

    pub closed spec fn spec_society_membership_id(&self) -> Seq<u8> {
        self.society_membership_id@
    }

    pub closed spec fn spec_prof_info(&self) -> Option<Vec<MemberProfileInfo>> {
        self.prof_info
    }

    pub closed spec fn spec_joined_date(&self) -> Moment {
        self.joined_date
    }

    pub closed spec fn spec_deposit(&self) -> Balance {
        self.deposit
    }

    pub fn update_member_acc(self, member_acc: AccountId) -> (r: Self)
        ensures
            r.spec_member_acc() == member_acc,
            r.spec_society_membership_id() == self.spec_society_membership_id(),
            r.spec_prof_info() == self.spec_prof_info(),
            r.spec_joined_date() == self.spec_joined_date(),
            r.spec_deposit() == self.spec_deposit(),
    {
        MemberProfileBuilder { member_acc, ..self }
    }

    pub fn update_society_membership_id(self, society_membership_id: Vec<u8>) -> (r: Self)
        ensures
            r.spec_member_acc() == self.spec_member_acc(),
            r.spec_society_membership_id() == society_membership_id@,
            r.spec_prof_info() == self.spec_prof_info(),
            r.spec_joined_date() == self.spec_joined_date(),
            r.spec_deposit() == self.spec_deposit(),
    {
        MemberProfileBuilder { society_membership_id, ..self }
    }

    pub fn update_member_profile_info(self, prof_info: Option<Vec<MemberProfileInfo>>) -> (r: Self)
        ensures
            r.spec_member_acc() == self.spec_member_acc(),
            r.spec_society_membership_id() == self.spec_society_membership_id(),
            r.spec_prof_info() == prof_info,
            r.spec_joined_date() == self.spec_joined_date(),
            r.spec_deposit() == self.spec_deposit(),
    {
        MemberProfileBuilder { prof_info, ..self }
    }

    pub fn update_joined_date(self, joined_date: Moment) -> (r: Self)
        ensures
            r.spec_member_acc() == self.spec_member_acc(),
            r.spec_society_membership_id() == self.spec_society_membership_id(),
            r.spec_prof_info() == self.spec_prof_info(),
            r.spec_joined_date() == joined_date,
            r.spec_deposit() == self.spec_deposit(),
    {
        MemberProfileBuilder { joined_date, ..self }
    }

    pub fn update_deposit(self, deposit: Balance) -> (r: Self)
        ensures
            r.spec_member_acc() == self.spec_member_acc(),
            r.spec_society_membership_id() == self.spec_society_membership_id(),
            r.spec_prof_info() == self.spec_prof_info(),
            r.spec_joined_date() == self.spec_joined_date(),
            r.spec_deposit() == deposit,
    {
        MemberProfileBuilder { deposit, ..self }
    }

    /// A profile with the collected fields, no status, no roles and no karma.
    pub fn build(self) -> (r: MemberProfile)
        ensures
            r.member_acc == self.spec_member_acc(),
            r.society_membership_id@ == self.spec_society_membership_id(),
            r.prof_info == self.spec_prof_info(),
            r.joined_date == self.spec_joined_date(),
            r.member_status == None::<MemberStatus>,
            r.role == None::<Vec<MemberRole>>,
            r.karma == 0,
            r.deposit == self.spec_deposit(),
    {
        MemberProfile {
            member_acc: self.member_acc,
            society_membership_id: self.society_membership_id,
            prof_info: self.prof_info,
            joined_date: self.joined_date,
            member_status: None,
            role: None,
            karma: 0,
            deposit: self.deposit,
        }
    }
}

impl Default for MemberProfileBuilder {
    fn default() -> (r: Self)
        ensures
            r.spec_member_acc() == 0,
            r.spec_society_membership_id() == Seq::<u8>::empty(),
            r.spec_prof_info() == None::<Vec<MemberProfileInfo>>,
            r.spec_joined_date() == 0,
            r.spec_deposit() == 0,
    {
        MemberProfileBuilder {
            member_acc: 0,
            society_membership_id: Vec::new(),
            prof_info: None,
            joined_date: 0,
            deposit: 0,
        }
    }
}

/// What the registry reports after a successful operation.
#[derive(Clone, Debug, PartialEq, Eq)]
pub enum MemberEvent {
    /// (caller, membership id, member account)
    MemberProfileRegistered(AccountId, Vec<u8>, AccountId),
    /// (caller, member account)
    MemberProfileInfoUpdated(AccountId, AccountId),
    /// (caller, member account)
    MemberProfileRoleUpdated(AccountId, AccountId),
}

/// The settings of a cooperative society.
#[derive(Clone, Copy, Debug)]
pub struct MemberConfig {
    /// The least deposit that a new member pays.
    pub member_deposit_minimum: Balance,
    /// The society's index.
    pub coop_society_id: u32,
    /// The id of the treasury module whose sub-accounts hold the funds of
    /// societies.
    pub treasury_module_id: [u8; 8],
}

/// The number that eight little-endian bytes stand for.
pub open spec fn le_u64(b: Seq<u8>) -> u64 {
    (b[0] as int + b[1] as int * 0x100 + b[2] as int * 0x1_0000 + b[3] as int * 0x100_0000 + b[4] as int
        * 0x1_0000_0000 + b[5] as int * 0x100_0000_0000 + b[6] as int * 0x1_0000_0000_0000 + b[7] as int
        * 0x100_0000_0000_0000) as u64
}

/// The sub-account of a module that holds the funds of a society. The
/// runtime encodes the type tag `modl`, the module id and the sub-account
/// value, and an eight-byte account reads the first eight bytes of that: the
/// tag and the first four bytes of the module id. The society's index lies
/// past them, so every index gives the same account.
pub open spec fn coop_sub_account(module_id: Seq<u8>) -> AccountId {
    le_u64(seq![0x6du8, 0x6fu8, 0x64u8, 0x6cu8] + module_id.subrange(0, 4))
}

/// Relies on `sp_runtime::traits::AccountIdConversion::into_sub_account` for
/// `sp_runtime::ModuleId`: it encodes `(b"modl", module id, ("coop-soci-",
/// index))` and decodes the account from the start of the encoding, which
/// for a `u64` account is its first eight bytes, little-endian.
#[verifier::external_body]
fn derive_coop_account(module_id: [u8; 8], index: u32) -> (r: AccountId)
    ensures
        r == coop_sub_account(module_id@),
{
    sp_runtime::traits::AccountIdConversion::<AccountId>::into_sub_account(
        &sp_runtime::ModuleId(module_id),
        ("coop-soci-", index),
    )
}

/// The bounds of a member's attributes.
pub open spec fn member_info_bounds() -> FieldBounds {
    FieldBounds {
        max_count: MEMBER_PROFILE_MAX_INFO,
        max_name_len: MEMBER_PROFILE_INFO_NAME_MAX_LENGTH,
        max_value_len: MEMBER_PROFILE_INFO_VALUE_MAX_LENGTH,
    }
}

/// The registry's failure for a broken bound of a member's attributes.
pub open spec fn member_info_error(e: Option<BoundError>) -> Option<Error> {
    match e {
        None => None,
        Some(BoundError::TooManyEntries) => Some(Error::MemberProfileTooManyInfos),
        Some(BoundError::NameTooLong) => Some(Error::MemberProfileInvalidInfoName),
        Some(BoundError::ValueTooLong) => Some(Error::MemberProfileInvalidInfoValue),
    }
}

/// A membership id must be present and at most 36 bytes long.
pub open spec fn membership_id_error(id: Seq<u8>) -> Option<Error> {
    if id.len() == 0 {
        Some(Error::SocietyMemberIdEmpty)
    } else if id.len() > SOCIETY_MEMBERSHIP_ID_MAX_LENGTH {
        Some(Error::SocietyMemberIdTooLong)
    } else {
        None
    }
}

/// The profile that admission creates.
pub open spec fn is_new_member_profile(
    p: MemberProfile,
    member_acc: AccountId,
    id: Seq<u8>,
    info: Option<Vec<MemberProfileInfo>>,
    now: Moment,
    deposit: Balance,
) -> bool {
    &&& p.member_acc == member_acc
    &&& p.society_membership_id@ == id
    &&& p.prof_info == info
    &&& p.joined_date == now
    &&& p.member_status == None::<MemberStatus>
    &&& p.role == None::<Vec<MemberRole>>
    &&& p.karma == 0
    &&& p.deposit == deposit
}

/// The status that a role update gives: active with at least one role.
pub open spec fn status_for_roles(roles: Option<Vec<MemberRole>>) -> MemberStatus {
    match roles {
        Some(rs) => if rs@.len() > 0 {
            MemberStatus::Active
        } else {
            MemberStatus::Suspended
        },
        None => MemberStatus::Suspended,
    }
}

/// Members of the society: profiles keyed by membership id, and the
/// membership id of each member account.
pub struct MemberRegistry {
    profiles: Store<MemberProfile>,
    member_ids: AccountIndex,
    config: MemberConfig,
}

impl MemberRegistry {
    /// Profiles by membership id.
    pub closed spec fn profiles(&self) -> Map<Seq<u8>, MemberProfile> {
        self.profiles@
    }

    /// Membership id by member account.
    pub closed spec fn member_ids(&self) -> Map<AccountId, Seq<u8>> {
        self.member_ids@
    }

    pub closed spec fn config(&self) -> MemberConfig {
        self.config
    }

    pub closed spec fn stores_wf(&self) -> bool {
        self.profiles.wf() && self.member_ids.wf()
    }

    /// Every member account leads to a profile of that account, so no two
    /// accounts share a membership id.
    pub open spec fn wf(&self) -> bool {
        &&& self.stores_wf()
        &&& forall|acc: AccountId| #[trigger]
            self.member_ids().contains_key(acc) ==> {
                &&& self.profiles().contains_key(self.member_ids()[acc])
                &&& self.profiles()[self.member_ids()[acc]].member_acc == acc
            }
    }

    /// Whether `acc` holds `role`, or why not.
    pub open spec fn role_check(&self, acc: AccountId, role: MemberRole) -> Result<(), Error> {
        if !self.member_ids().contains_key(acc) {
            Err(Error::UnknownMemberAccount)
        } else if !self.profiles().contains_key(self.member_ids()[acc]) {
            Err(Error::UnknownMemberProfile)
        } else {
            match self.profiles()[self.member_ids()[acc]].role {
                None => Err(Error::MemberRoleInvalid),
                Some(rs) => if rs@.contains(role) {
                    Ok(())
                } else {
                    Err(Error::MemberRoleInvalid)
                },
            }
        }
    }

    /// The first check that an admission fails, if any.
    pub open spec fn register_member_error(
        &self,
        privileged: bool,
        member_acc: AccountId,
        id: Seq<u8>,
        info: Option<Vec<MemberProfileInfo>>,
        deposit_value: Balance,
        member_balance: Balance,
    ) -> Option<Error> {
        if !privileged {
            Some(Error::BadOrigin)
        } else if membership_id_error(id) is Some {
            membership_id_error(id)
        } else if member_info_error(field_error(info, member_info_bounds())) is Some {
            member_info_error(field_error(info, member_info_bounds()))
        } else if self.profiles().contains_key(id) {
            Some(Error::MemberIdAlreadyExists)
        } else if self.member_ids().contains_key(member_acc) {
            Some(Error::MemberAccountAlreadyExists)
        } else if deposit_value < self.config().member_deposit_minimum {
            Some(Error::MemberDepositValueInvalid)
        } else if member_balance < self.config().member_deposit_minimum {
            Some(Error::MemberAccountBalanceLow)
        } else {
            None
        }
    }

    /// Why the profile of `acc` cannot be found, if it cannot.
    pub open spec fn lookup_error(&self, acc: AccountId) -> Option<Error> {
        if !self.member_ids().contains_key(acc) {
            Some(Error::UnknownMemberAccount)
        } else if !self.profiles().contains_key(self.member_ids()[acc]) {
            Some(Error::UnknownMemberProfile)
        } else {
            None
        }
    }

    /// The first check that an attribute update fails, if any; an absent or
    /// empty list is refused.
    pub open spec fn update_info_error(
        &self,
        privileged: bool,
        member_acc: AccountId,
        info: Option<Vec<MemberProfileInfo>>,
    ) -> Option<Error> {
        if !privileged {
            Some(Error::BadOrigin)
        } else if info is None || info->0@.len() == 0 {
            Some(Error::MemberProfileInfoEmpty)
        } else {
            first_error(
                member_info_error(field_error(info, member_info_bounds())),
                self.lookup_error(member_acc),
            )
        }
    }

    /// The first check that a role update fails, if any.
    pub open spec fn update_role_error(&self, privileged: bool, member_acc: AccountId) -> Option<Error> {
        if !privileged {
            Some(Error::BadOrigin)
        } else {
            self.lookup_error(member_acc)
        }
    }

    /// `post` is `pre` with the profile of `acc` replaced by `p`.
    pub open spec fn profile_replaced(pre: Self, post: Self, acc: AccountId, p: MemberProfile) -> bool {
        &&& post.member_ids() == pre.member_ids()
        &&& post.profiles() == pre.profiles().insert(pre.member_ids()[acc], p)
        &&& post.config() == pre.config()
    }

    pub fn new(config: MemberConfig) -> (r: Self)
        ensures
            r.wf(),
            r.profiles() == Map::<Seq<u8>, MemberProfile>::empty(),
            r.member_ids() == Map::<AccountId, Seq<u8>>::empty(),
            r.config() == config,
    {
        MemberRegistry { profiles: Store::new(), member_ids: AccountIndex::new(), config }
    }

    /// The account that the treasury module derives for the society with
    /// index `id`. Accounts have eight bytes, so the index does not reach
    /// the account: every index gives the same one.
    pub fn coop_account_id(&self, id: u32) -> (r: AccountId)
        ensures
            r == coop_sub_account(self.config().treasury_module_id@),
    {
        derive_coop_account(self.config.treasury_module_id, id)
    }

    /// The account of this society, which receives deposits and premiums.
    pub open spec fn coop_account(&self) -> AccountId {
        coop_sub_account(self.config().treasury_module_id@)
    }

    pub fn member_config(&self) -> (r: MemberConfig)
        ensures
            r == self.config(),
    {
        self.config
    }

    /// The profile registered under a membership id.
    pub fn memberprofile_by_id(&self, id: &Vec<u8>) -> (r: Option<&MemberProfile>)
        requires
            self.wf(),
        ensures
            match r {
                Some(p) => self.profiles().contains_key(id@) && *p == self.profiles()[id@],
                None => !self.profiles().contains_key(id@),
            },
    {
        self.profiles.get(id)
    }

    /// The membership id of a member account.
    pub fn member_id_by_acc(&self, acc: AccountId) -> (r: Option<&Vec<u8>>)
        requires
            self.wf(),
        ensures
            match r {
                Some(id) => self.member_ids().contains_key(acc) && id@ == self.member_ids()[acc],
                None => !self.member_ids().contains_key(acc),
            },
    {
        self.member_ids.get(acc)
    }

    fn validate_membership_id(id: &Vec<u8>) -> (r: Result<(), Error>)
        ensures
            r == check_result(membership_id_error(id@)),
    {
        if id.len() == 0 {
            return Err(Error::SocietyMemberIdEmpty);
        }
        if id.len() > SOCIETY_MEMBERSHIP_ID_MAX_LENGTH {
            return Err(Error::SocietyMemberIdTooLong);
        }
        Ok(())
    }

    fn validate_new_member(&self, id: &Vec<u8>, acc: AccountId) -> (r: Result<(), Error>)
        requires
            self.wf(),
        ensures
            r == (if self.profiles().contains_key(id@) {
                Err(Error::MemberIdAlreadyExists)
            } else if self.member_ids().contains_key(acc) {
                Err(Error::MemberAccountAlreadyExists)
            } else {
                Ok(())
            }),
    {
        if self.profiles.contains_key(id) {
            return Err(Error::MemberIdAlreadyExists);
        }
        if self.member_ids.contains_key(acc) {
            return Err(Error::MemberAccountAlreadyExists);
        }
        Ok(())
    }

    fn validate_member_profile_info(profile_info: &Option<Vec<MemberProfileInfo>>) -> (r: Result<(), Error>)
        ensures
            r == check_result(member_info_error(field_error(*profile_info, member_info_bounds()))),
    {
        let bounds = FieldBounds {
            max_count: MEMBER_PROFILE_MAX_INFO,
            max_name_len: MEMBER_PROFILE_INFO_NAME_MAX_LENGTH,
            max_value_len: MEMBER_PROFILE_INFO_VALUE_MAX_LENGTH,
        };
        match validate_fields(profile_info, bounds) {
            Ok(()) => Ok(()),
            Err(BoundError::TooManyEntries) => Err(Error::MemberProfileTooManyInfos),
            Err(BoundError::NameTooLong) => Err(Error::MemberProfileInvalidInfoName),
            Err(BoundError::ValueTooLong) => Err(Error::MemberProfileInvalidInfoValue),
        }
    }

    /// Succeeds when `member_acc` is a member whose roles include `role`.
    pub fn is_valid_member_role(&self, member_acc: AccountId, role: MemberRole) -> (r: Result<(), Error>)
        requires
            self.wf(),
        ensures
            r == self.role_check(member_acc, role),
    {
        let id = match self.member_ids.get(member_acc) {
            Some(id) => id,
            None => return Err(Error::UnknownMemberAccount),
        };
        let profile = match self.profiles.get(id) {
            Some(p) => p,
            None => return Err(Error::UnknownMemberProfile),
        };
        match &profile.role {
            None => Err(Error::MemberRoleInvalid),
            Some(roles) => {
                let mut i: usize = 0;
                while i < roles.len()
                    invariant
                        0 <= i <= roles@.len(),
                        forall|j: int| 0 <= j < i ==> roles@[j] != role,
                        self.lookup_error(member_acc) is None,
                        *profile == self.profiles()[self.member_ids()[member_acc]],
                        profile.role == Some(*roles),
                    decreases roles@.len() - i,
                {
                    if roles[i] == role {
                        assert(roles@[i as int] == role);
                        return Ok(());
                    }
                    i = i + 1;
                }
                Err(Error::MemberRoleInvalid)
            },
        }
    }

    fn check_register_member(
        &self,
        privileged: bool,
        member_acc: AccountId,
        society_membership_id: &Vec<u8>,
        profile_info: &Option<Vec<MemberProfileInfo>>,
        deposit_value: Balance,
        member_balance: Balance,
    ) -> (r: Result<(), Error>)
        requires
            self.wf(),
        ensures
            r == check_result(
                self.register_member_error(
                    privileged,
                    member_acc,
                    society_membership_id@,
                    *profile_info,
                    deposit_value,
                    member_balance,
                ),
            ),
    {
        if !privileged {
            return Err(Error::BadOrigin);
        }
        if let Err(e) = Self::validate_membership_id(society_membership_id) {
            return Err(e);
        }
        if let Err(e) = Self::validate_member_profile_info(profile_info) {
            return Err(e);
        }
        if let Err(e) = self.validate_new_member(society_membership_id, member_acc) {
            return Err(e);
        }
        if deposit_value < self.config.member_deposit_minimum {
            return Err(Error::MemberDepositValueInvalid);
        }
        if member_balance < self.config.member_deposit_minimum {
            return Err(Error::MemberAccountBalanceLow);
        }
        Ok(())
    }

    /// The deposit transfer that admitting `member_acc` needs, or the check
    /// that the admission fails; changes nothing. The host carries the
    /// transfer out and hands its outcome to `register_member`.
    pub fn prepare_register_member(
        &self,
        privileged: bool,
        member_acc: AccountId,
        society_membership_id: &Vec<u8>,
        profile_info: &Option<Vec<MemberProfileInfo>>,
        deposit_value: Balance,
        member_balance: Balance,
    ) -> (r: Result<Transfer, Error>)
        requires
            self.wf(),
        ensures
            r == match self.register_member_error(
                privileged,
                member_acc,
                society_membership_id@,
                *profile_info,
                deposit_value,
                member_balance,
            ) {
                Some(e) => Err::<Transfer, Error>(e),
                None => Ok(Transfer { from: member_acc, to: self.coop_account(), amount: deposit_value }),
            },
    {
        if let Err(e) = self.check_register_member(
            privileged,
            member_acc,
            society_membership_id,
            profile_info,
            deposit_value,
            member_balance,
        ) {
            return Err(e);
        }
        Ok(Transfer {
            from: member_acc,
            to: self.coop_account_id(self.config.coop_society_id),
            amount: deposit_value,
        })
    }

    /// Admits `member_acc` under `society_membership_id`. `privileged` is the
    /// host's verdict on whether the caller `who` may manage members;
    /// `member_balance` is the free balance of `member_acc`, `now` the host
    /// clock, and `transferred` whether the ledger moved the deposit that
    /// `prepare_register_member` asked for. Without the deposit nothing is
    /// admitted.
    pub fn register_member(
        &mut self,
        who: AccountId,
        privileged: bool,
        member_acc: AccountId,
        society_membership_id: Vec<u8>,
        profile_info: Option<Vec<MemberProfileInfo>>,
        deposit_value: Balance,
        member_balance: Balance,
        now: Moment,
        transferred: bool,
    ) -> (r: Result<MemberEvent, Error>)
        requires
            old(self).wf(),
        ensures
            final(self).wf(),
            match old(self).register_member_error(
                privileged,
                member_acc,
                society_membership_id@,
                profile_info,
                deposit_value,
                member_balance,
            ) {
                Some(e) => r == Err::<MemberEvent, Error>(e) && *final(self) == *old(self),
                None => if !transferred {
                    r == Err::<MemberEvent, Error>(Error::TransferFailed) && *final(self) == *old(self)
                } else {
                    &&& r == Ok::<MemberEvent, Error>(
                        MemberEvent::MemberProfileRegistered(who, society_membership_id, member_acc),
                    )
                    &&& final(self).member_ids() == old(self).member_ids().insert(
                        member_acc,
                        society_membership_id@,
                    )
                    &&& final(self).profiles() == old(self).profiles().insert(
                        society_membership_id@,
                        final(self).profiles()[society_membership_id@],
                    )
                    &&& is_new_member_profile(
                        final(self).profiles()[society_membership_id@],
                        member_acc,
                        society_membership_id@,
                        profile_info,
                        now,
                        deposit_value,
                    )
                    &&& final(self).config() == old(self).config()
                },
            },
    {
        if let Err(e) = self.check_register_member(
            privileged,
            member_acc,
            &society_membership_id,
            &profile_info,
            deposit_value,
            member_balance,
        ) {
            return Err(e);
        }
        if !transferred {
            return Err(Error::TransferFailed);
        }
        let profile = MemberProfileBuilder::default()
            .update_society_membership_id(copy_bytes(&society_membership_id))
            .update_member_acc(member_acc)
            .update_joined_date(now)
            .update_member_profile_info(profile_info)
            .update_deposit(deposit_value)
            .build();
        let ghost p = profile;
        self.member_ids.insert(member_acc, copy_bytes(&society_membership_id));
        self.profiles.insert(copy_bytes(&society_membership_id), profile);
        proof {
            let id = society_membership_id@;
            assert(self.profiles@[id] == p);
            assert forall|acc: AccountId| #[trigger] self.member_ids().contains_key(acc) implies {
                &&& self.profiles().contains_key(self.member_ids()[acc])
                &&& self.profiles()[self.member_ids()[acc]].member_acc == acc
            } by {
                if acc != member_acc {
                    assert(old(self).member_ids().contains_key(acc));
                    assert(old(self).member_ids()[acc] != id);
                }
            }
            assert(self.profiles() == old(self).profiles().insert(id, self.profiles()[id]));
        }
        Ok(MemberEvent::MemberProfileRegistered(who, society_membership_id, member_acc))
    }

    /// Takes the profile of `acc` out of the store, or says why it cannot.
    fn take_profile(&mut self, acc: AccountId) -> (r: Result<MemberProfile, Error>)
        requires
            old(self).wf(),
        ensures
            final(self).stores_wf(),
            final(self).member_ids() == old(self).member_ids(),
            final(self).config() == old(self).config(),
            match r {
                Ok(p) => {
                    &&& old(self).lookup_error(acc) is None
                    &&& p == old(self).profiles()[old(self).member_ids()[acc]]
                    &&& final(self).profiles() == old(self).profiles().remove(old(self).member_ids()[acc])
                },
                Err(e) => old(self).lookup_error(acc) == Some(e) && *final(self) == *old(self),
            },
    {
        let id = match self.member_ids.get(acc) {
            Some(id) => copy_bytes(id),
            None => return Err(Error::UnknownMemberAccount),
        };
        if !self.profiles.contains_key(&id) {
            return Err(Error::UnknownMemberProfile);
        }
        match self.profiles.take(&id) {
            Some(p) => Ok(p),
            None => Err(Error::UnknownMemberProfile),
        }
    }

    /// Puts back a profile taken by `take_profile`.
    fn put_profile(&mut self, acc: AccountId, p: MemberProfile)
        requires
            old(self).stores_wf(),
            old(self).member_ids().contains_key(acc),
            !old(self).profiles().contains_key(old(self).member_ids()[acc]),
        ensures
            final(self).stores_wf(),
            final(self).member_ids() == old(self).member_ids(),
            final(self).config() == old(self).config(),
            final(self).profiles() == old(self).profiles().insert(old(self).member_ids()[acc], p),
    {
        let id = match self.member_ids.get(acc) {
            Some(id) => copy_bytes(id),
            None => return ,
        };
        self.profiles.insert(id, p);
    }

    /// Replaces the attributes of the profile of `member_acc` as a whole.
    pub fn update_member_profile_info(
        &mut self,
        who: AccountId,
        privileged: bool,
        member_acc: AccountId,
        profile_info: Option<Vec<MemberProfileInfo>>,
    ) -> (r: Result<MemberEvent, Error>)
        requires
            old(self).wf(),
        ensures
            final(self).wf(),
            match old(self).update_info_error(privileged, member_acc, profile_info) {
                Some(e) => r == Err::<MemberEvent, Error>(e) && *final(self) == *old(self),
                None => {
                    &&& r == Ok::<MemberEvent, Error>(MemberEvent::MemberProfileInfoUpdated(who, member_acc))
                    &&& Self::profile_replaced(
                        *old(self),
                        *final(self),
                        member_acc,
                        MemberProfile {
                            prof_info: profile_info,
                            ..old(self).profiles()[old(self).member_ids()[member_acc]]
                        },
                    )
                },
            },
    {
        if !privileged {
            return Err(Error::BadOrigin);
        }
        let empty = match &profile_info {
            None => true,
            Some(v) => v.len() == 0,
        };
        if empty {
            return Err(Error::MemberProfileInfoEmpty);
        }
        if let Err(e) = Self::validate_member_profile_info(&profile_info) {
            return Err(e);
        }
        let mut p = match self.take_profile(member_acc) {
            Ok(p) => p,
            Err(e) => return Err(e),
        };
        p.prof_info = profile_info;
        self.put_profile(member_acc, p);
        proof {
            let id = old(self).member_ids()[member_acc];
            assert(self.profiles() =~= old(self).profiles().insert(id, self.profiles()[id]));
            self.lemma_replace_keeps_wf(*old(self), member_acc);
        }
        Ok(MemberEvent::MemberProfileInfoUpdated(who, member_acc))
    }

    /// Sets the roles of `member_acc` as a whole; the member becomes active
    /// with at least one role, and suspended otherwise.
    pub fn update_member_role(
        &mut self,
        who: AccountId,
        privileged: bool,
        member_acc: AccountId,
        profile_role: Option<Vec<MemberRole>>,
    ) -> (r: Result<MemberEvent, Error>)
        requires
            old(self).wf(),
        ensures
            final(self).wf(),
            match old(self).update_role_error(privileged, member_acc) {
                Some(e) => r == Err::<MemberEvent, Error>(e) && *final(self) == *old(self),
                None => {
                    &&& r == Ok::<MemberEvent, Error>(MemberEvent::MemberProfileRoleUpdated(who, member_acc))
                    &&& Self::profile_replaced(
                        *old(self),
                        *final(self),
                        member_acc,
                        MemberProfile {
                            member_status: Some(status_for_roles(profile_role)),
                            role: profile_role,
                            ..old(self).profiles()[old(self).member_ids()[member_acc]]
                        },
                    )
                },
            },
    {
        if !privileged {
            return Err(Error::BadOrigin);
        }
        let active = match &profile_role {
            None => false,
            Some(v) => v.len() > 0,
        };
        let status = if active {
            MemberStatus::Active
        } else {
            MemberStatus::Suspended
        };
        let mut p = match self.take_profile(member_acc) {
            Ok(p) => p,
            Err(e) => return Err(e),
        };
        p.member_status = Some(status);
        p.role = profile_role;
        self.put_profile(member_acc, p);
        proof {
            let id = old(self).member_ids()[member_acc];
            assert(self.profiles() =~= old(self).profiles().insert(id, self.profiles()[id]));
            self.lemma_replace_keeps_wf(*old(self), member_acc);
        }
        Ok(MemberEvent::MemberProfileRoleUpdated(who, member_acc))
    }

    /// Replacing a profile by one of the same account keeps the registry
    /// well formed.
    proof fn lemma_replace_keeps_wf(&self, pre: Self, acc: AccountId)
        requires
            pre.wf(),
            self.stores_wf(),
            pre.member_ids().contains_key(acc),
            self.member_ids() == pre.member_ids(),
            self.profiles() == pre.profiles().insert(
                pre.member_ids()[acc],
                self.profiles()[pre.member_ids()[acc]],
            ),
            self.profiles()[pre.member_ids()[acc]].member_acc == pre.profiles()[pre.member_ids()[acc]].member_acc,
        ensures
            self.wf(),
    {
        assert forall|a: AccountId| #[trigger] self.member_ids().contains_key(a) implies {
            &&& self.profiles().contains_key(self.member_ids()[a])
            &&& self.profiles()[self.member_ids()[a]].member_acc == a
        } by {
            assert(pre.member_ids().contains_key(a));
        }
    }
}

} // verus!
