use std::collections::HashMap;

use coop_society::{
    validate_fields, BoundError, FieldBounds, ProfileField,
    AccountId, AssetEvent, AssetHealthCheckRecInfo, AssetHealthCheckRecStatus, AssetInsuranceReClaimInfo,
    AssetInsuranceReClaimStatus, AssetInsuranceStatus, AssetProfile, AssetProfileInfo, AssetRegistry,
    AssetStatus, Balance, Error, MemberConfig, MemberEvent, MemberProfileInfo, MemberRegistry, MemberRole,
    Transfer,
};

const TEST_COMMUNITY_HEAD: &str = "Alice";
const TEST_PROFILE1_NAME: &str = "Shin Chan";
const TEST_PROFILE1_SOCIETY_MEMBER_ID: &str = "INFZ2468TN0123580";
const TEST_PROFILE2_NAME: &str = "Nene";
const TEST_PROFILE2_SOCIETY_MEMBER_ID: &str = "INFZ2468TN0123582";
const TEST_PROFILE2_ASSET_ID1: &str = "INFZ2468TN0123582-AS20-0001";
const TEST_PROFILE3_NAME: &str = "Kazama";
const TEST_PROFILE3_SOCIETY_MEMBER_ID: &str = "INFZ2468TN0123583";
const TEST_PROFILE4_NAME: &str = "Masao";
const TEST_PROFILE4_SOCIETY_MEMBER_ID: &str = "INFZ2468TN0123584";
const TEST_PROFILE5_NAME: &str = "BoChan";

/// A stable account number for a name.
fn account_key(s: &str) -> AccountId {
    s.bytes().fold(1469598103934665603u64, |h, b| (h ^ b as u64).wrapping_mul(1099511628211))
}

/// Both registries, a ledger of free balances, and the events reported.
struct Society {
    members: MemberRegistry,
    assets: AssetRegistry,
    balances: HashMap<AccountId, Balance>,
    member_events: Vec<MemberEvent>,
    asset_events: Vec<AssetEvent>,
    now: u64,
}

impl Society {
    fn new() -> Self {
        let config = MemberConfig {
            member_deposit_minimum: 1,
            coop_society_id: 369,
            treasury_module_id: *b"py/trsry",
        };
        let mut balances = HashMap::new();
        balances.insert(account_key(TEST_COMMUNITY_HEAD), 100);
        for name in [TEST_PROFILE1_NAME, TEST_PROFILE2_NAME, TEST_PROFILE3_NAME, TEST_PROFILE4_NAME, TEST_PROFILE5_NAME] {
            balances.insert(account_key(name), 50);
        }
        Society {
            members: MemberRegistry::new(config),
            assets: AssetRegistry::new(),
            balances,
            member_events: Vec::new(),
            asset_events: Vec::new(),
            now: 0,
        }
    }

    fn free_balance(&self, acc: AccountId) -> Balance {
        *self.balances.get(&acc).unwrap_or(&0)
    }

    /// Carries a transfer out, if the payer can afford it.
    fn apply(&mut self, t: Transfer) -> bool {
        let from = self.free_balance(t.from);
        if from < t.amount {
            return false;
        }
        self.balances.insert(t.from, from - t.amount);
        let to = self.free_balance(t.to);
        self.balances.insert(t.to, to + t.amount);
        true
    }

    /// Enrols a member with the deposit 2 and gives it one role.
    fn enrol(&mut self, name: &str, id: &str, kyc: &[u8], role: MemberRole) {
        let sender = account_key(TEST_COMMUNITY_HEAD);
        let acc = account_key(name);
        let balance = self.free_balance(acc);
        let info = Some(vec![MemberProfileInfo::new(b"country", b"UK"), MemberProfileInfo::new(b"kyc", kyc)]);
        let id = id.as_bytes().to_owned();
        let t = self.members.prepare_register_member(true, acc, &id, &info, 2, balance).unwrap();
        let moved = self.apply(t);
        let ev = self.members.register_member(sender, true, acc, id, info, 2, balance, self.now, moved).unwrap();
        self.member_events.push(ev);
        let ev = self.members.update_member_role(sender, true, acc, Some(vec![role])).unwrap();
        self.member_events.push(ev);
    }

    fn record(&mut self, r: Result<AssetEvent, Error>) -> Result<(), Error> {
        let ev = r?;
        self.asset_events.push(ev);
        Ok(())
    }

    fn register_asset(&mut self, who: AccountId, id: &Vec<u8>, info: Option<Vec<AssetProfileInfo>>) -> Result<(), Error> {
        let r = self.assets.register_asset(&self.members, who, id.clone(), info, self.now);
        self.record(r)
    }

    fn process(&mut self, who: AccountId, id: &Vec<u8>, approve: bool) -> Result<(), Error> {
        let r = self.assets.process_new_asset_register_request(&self.members, who, id.clone(), approve);
        self.record(r)
    }

    fn request_insurance(&mut self, who: AccountId, id: &Vec<u8>) -> Result<(), Error> {
        let r = self.assets.request_insurance(&self.members, who, id.clone());
        self.record(r)
    }

    fn update_premium(&mut self, who: AccountId, id: &Vec<u8>, premium: Balance) -> Result<(), Error> {
        let r = self.assets.update_insurance_premium(&self.members, who, id.clone(), premium);
        self.record(r)
    }

    fn deposit_premium(&mut self, who: AccountId, id: &Vec<u8>, amount: Balance) -> Result<(), Error> {
        let t = self.assets.prepare_deposit_insurance_premium(&self.members, who, id, amount)?;
        let moved = self.apply(t);
        let r = self.assets.deposit_insurance_premium(&self.members, who, id.clone(), amount, moved);
        self.record(r)
    }

    fn approve_insurance(&mut self, who: AccountId, id: &Vec<u8>) -> Result<(), Error> {
        let r = self.assets.approve_insurance(&self.members, who, id.clone(), self.now);
        self.record(r)
    }

    fn request_reclaim(&mut self, who: AccountId, id: &Vec<u8>, info: Option<Vec<AssetInsuranceReClaimInfo>>) -> Result<(), Error> {
        let r = self.assets.request_insurance_reclaim(&self.members, who, id.clone(), info);
        self.record(r)
    }

    fn community_reclaim(&mut self, who: AccountId, id: &Vec<u8>, approve: bool, note: Option<Vec<AssetInsuranceReClaimInfo>>) -> Result<(), Error> {
        let r = self.assets.community_approve_insurance_reclaim(&self.members, who, id.clone(), approve, note);
        self.record(r)
    }

    fn insurer_reclaim(&mut self, who: AccountId, id: &Vec<u8>, approve: bool, note: Option<Vec<AssetInsuranceReClaimInfo>>) -> Result<(), Error> {
        let r = self.assets.insurer_approve_insurance_reclaim(&self.members, who, id.clone(), approve, note);
        self.record(r)
    }

    fn request_healthcheck(&mut self, who: AccountId, id: &Vec<u8>, info: Option<Vec<AssetHealthCheckRecInfo>>) -> Result<(), Error> {
        let r = self.assets.request_healthcheck(&self.members, who, id.clone(), info);
        self.record(r)
    }

    fn officer_remark(&mut self, who: AccountId, id: &Vec<u8>, done: bool, note: Option<Vec<AssetHealthCheckRecInfo>>) -> Result<(), Error> {
        let r = self.assets.healthofficer_remark(&self.members, who, id.clone(), done, note);
        self.record(r)
    }

    fn community_remark(&mut self, who: AccountId, id: &Vec<u8>, approved: bool, note: Option<Vec<AssetHealthCheckRecInfo>>) -> Result<(), Error> {
        let r = self.assets.community_remark(&self.members, who, id.clone(), approved, note);
        self.record(r)
    }

    fn insurance_status(&self, id: &Vec<u8>) -> Option<AssetInsuranceStatus> {
        self.assets.assetprofile_by_id(id).and_then(|p| p.asset_insurance.as_ref().map(|i| i.status))
    }
}

fn cow_info() -> Option<Vec<AssetProfileInfo>> {
    Some(vec![
        AssetProfileInfo::new(b"class", b"cow"),
        AssetProfileInfo::new(b"type", b"sindhi"),
        AssetProfileInfo::new(b"dob", b"2018AUG15"),
        AssetProfileInfo::new(b"prime vaccination", b"Done"),
    ])
}

/// A society with a community leader, an asset owner and an insurer, and
/// the owner's asset registered and in farm.
fn society_with_asset() -> (Society, Vec<u8>) {
    let mut soc = Society::new();
    soc.now = 42;
    soc.enrol(TEST_PROFILE1_NAME, TEST_PROFILE1_SOCIETY_MEMBER_ID, b"UK007", MemberRole::CommunityLeader);
    soc.enrol(TEST_PROFILE2_NAME, TEST_PROFILE2_SOCIETY_MEMBER_ID, b"UK009", MemberRole::AssetOwner);
    soc.enrol(TEST_PROFILE3_NAME, TEST_PROFILE3_SOCIETY_MEMBER_ID, b"JP009", MemberRole::Insurer);
    let id = TEST_PROFILE2_ASSET_ID1.as_bytes().to_owned();
    soc.register_asset(account_key(TEST_PROFILE2_NAME), &id, cow_info()).unwrap();
    soc.process(account_key(TEST_PROFILE1_NAME), &id, true).unwrap();
    (soc, id)
}

/// As `society_with_asset`, with the asset's insurance active.
fn society_with_insured_asset() -> (Society, Vec<u8>) {
    let (mut soc, id) = society_with_asset();
    let owner = account_key(TEST_PROFILE2_NAME);
    let insurer = account_key(TEST_PROFILE3_NAME);
    soc.request_insurance(owner, &id).unwrap();
    soc.update_premium(insurer, &id, 5).unwrap();
    soc.deposit_premium(owner, &id, 5).unwrap();
    soc.approve_insurance(insurer, &id).unwrap();
    (soc, id)
}

#[test]
fn asset_registration_and_approval_works() {
    let mut soc = Society::new();
    let community_leader_acc = account_key(TEST_PROFILE1_NAME);
    let asset1_owner_acc = account_key(TEST_PROFILE2_NAME);
    let asset1_id = TEST_PROFILE2_ASSET_ID1.as_bytes().to_owned();
    let now = 42;
    soc.now = now;
    soc.enrol(TEST_PROFILE1_NAME, TEST_PROFILE1_SOCIETY_MEMBER_ID, b"UK007", MemberRole::CommunityLeader);
    soc.enrol(TEST_PROFILE2_NAME, TEST_PROFILE2_SOCIETY_MEMBER_ID, b"UK009", MemberRole::AssetOwner);

    assert!(soc.register_asset(asset1_owner_acc, &asset1_id, cow_info()).is_ok());
    assert_eq!(
        soc.assets.asset_register_inq(&asset1_id),
        Some(&AssetProfile {
            asset_id: asset1_id.clone(),
            asset_info: cow_info(),
            joined_date: now,
            asset_status: AssetStatus::NewRegi,
            asset_owners: Some(vec![asset1_owner_acc]),
            asset_keepers: Some(vec![asset1_owner_acc]),
            asset_insurance: None,
        })
    );
    assert!(soc.process(community_leader_acc, &asset1_id, true).is_ok());
    assert!(soc.assets.asset_register_inq(&asset1_id).is_none());
    assert_eq!(
        soc.assets.assetprofile_by_id(&asset1_id),
        Some(&AssetProfile {
            asset_id: asset1_id.clone(),
            asset_info: cow_info(),
            joined_date: now,
            asset_status: AssetStatus::InFarm,
            asset_owners: Some(vec![asset1_owner_acc]),
            asset_keepers: Some(vec![asset1_owner_acc]),
            asset_insurance: None,
        })
    );
    // Events of the registries alone: two admissions, two role updates and
    // the two registration steps; the ledger reports its transfers itself.
    assert_eq!(soc.member_events.len() + soc.asset_events.len(), 6);
    assert!(soc
        .asset_events
        .iter()
        .any(|e| *e == AssetEvent::RequestAssetRegistration(asset1_owner_acc, asset1_id.clone())));
    assert!(soc
        .asset_events
        .iter()
        .any(|e| *e == AssetEvent::ProcessRequestAssetRegistration(community_leader_acc, asset1_id.clone(), true)));
}

#[test]
fn asset_insurance_works() {
    let (mut soc, asset1_id) = society_with_asset();
    let asset1_owner_acc = account_key(TEST_PROFILE2_NAME);
    let insurer_acc = account_key(TEST_PROFILE3_NAME);
    assert!(soc.request_insurance(asset1_owner_acc, &asset1_id).is_ok());
    assert!(soc.update_premium(insurer_acc, &asset1_id, 5).is_ok());
    assert!(soc.deposit_premium(asset1_owner_acc, &asset1_id, 5).is_ok());
    assert!(soc.approve_insurance(insurer_acc, &asset1_id).is_ok());
    // Events of the registries alone: three admissions, three role updates
    // and six asset steps.
    assert_eq!(soc.member_events.len() + soc.asset_events.len(), 12);
    assert!(soc.asset_events.iter().any(|e| *e == AssetEvent::RequestAssetInsurance(asset1_owner_acc, asset1_id.clone())));
    assert!(soc
        .asset_events
        .iter()
        .any(|e| *e == AssetEvent::AssetInsurancePremiumQuoteUpdate(insurer_acc, asset1_id.clone(), 5)));
    assert!(soc
        .asset_events
        .iter()
        .any(|e| *e == AssetEvent::AssetInsurancePremiumDepositUpdate(asset1_owner_acc, asset1_id.clone(), 5)));
    assert!(soc.asset_events.iter().any(|e| *e == AssetEvent::AssetInsuranceApproved(insurer_acc, asset1_id.clone())));
}

#[test]
fn asset_insurance_reclaim_works() {
    let (mut soc, asset1_id) = society_with_insured_asset();
    let community_leader_acc = account_key(TEST_PROFILE1_NAME);
    let asset1_owner_acc = account_key(TEST_PROFILE2_NAME);
    let insurer_acc = account_key(TEST_PROFILE3_NAME);
    assert!(soc
        .request_reclaim(
            asset1_owner_acc,
            &asset1_id,
            Some(vec![
                AssetInsuranceReClaimInfo::new(b"expired", b"due to illness bovid19"),
                AssetInsuranceReClaimInfo::new(b"illness symptoms", b"tired & week"),
                AssetInsuranceReClaimInfo::new(b"doe", b"2019JAN29"),
            ]),
        )
        .is_ok());
    assert!(soc
        .community_reclaim(
            community_leader_acc,
            &asset1_id,
            true,
            Some(vec![AssetInsuranceReClaimInfo::new(b"expired", b"illness mass spread")]),
        )
        .is_ok());
    assert!(soc
        .insurer_reclaim(
            insurer_acc,
            &asset1_id,
            true,
            Some(vec![AssetInsuranceReClaimInfo::new(b"expired", b"illness mass spread")]),
        )
        .is_ok());
    // Events of the registries alone: three admissions, three role updates
    // and nine asset steps.
    assert_eq!(soc.member_events.len() + soc.asset_events.len(), 15);
    assert!(soc.asset_events.iter().any(|e| *e == AssetEvent::AssetInsuranceReclaim(asset1_owner_acc, asset1_id.clone())));
    assert!(soc
        .asset_events
        .iter()
        .any(|e| *e == AssetEvent::AssetInsuranceReclaimCommunityApproved(community_leader_acc, asset1_id.clone())));
    assert!(soc
        .asset_events
        .iter()
        .any(|e| *e == AssetEvent::AssetInsuranceReclaimInsurerApproved(insurer_acc, asset1_id.clone())));
}

#[test]
fn asset_healthcheck_works() {
    let (mut soc, asset1_id) = society_with_insured_asset();
    soc.enrol(TEST_PROFILE4_NAME, TEST_PROFILE4_SOCIETY_MEMBER_ID, b"IN009", MemberRole::HealthOfficer);
    let community_leader_acc = account_key(TEST_PROFILE1_NAME);
    let asset1_owner_acc = account_key(TEST_PROFILE2_NAME);
    let healthofficer_acc = account_key(TEST_PROFILE4_NAME);
    assert!(soc
        .request_healthcheck(
            asset1_owner_acc,
            &asset1_id,
            Some(vec![AssetHealthCheckRecInfo::new(b"illness", b"Not having enough food & water")]),
        )
        .is_ok());
    assert!(soc
        .officer_remark(
            healthofficer_acc,
            &asset1_id,
            false,
            Some(vec![
                AssetHealthCheckRecInfo::new(b"Cause", b"May be due to seasonal virus"),
                AssetHealthCheckRecInfo::new(b"prescription", b"Tab1 | Tab2 | Tab3"),
            ]),
        )
        .is_ok());
    assert!(soc
        .officer_remark(
            healthofficer_acc,
            &asset1_id,
            true,
            Some(vec![AssetHealthCheckRecInfo::new(b"Followup", b"Health Improved no more medication")]),
        )
        .is_ok());
    assert!(soc
        .community_remark(
            community_leader_acc,
            &asset1_id,
            true,
            Some(vec![AssetHealthCheckRecInfo::new(b"Followup", b"Looks healthy & active")]),
        )
        .is_ok());
    // Events of the registries alone: four admissions, four role updates
    // and ten asset steps.
    assert_eq!(soc.member_events.len() + soc.asset_events.len(), 18);
    assert!(soc.asset_events.iter().any(|e| *e == AssetEvent::AssetHealthCheckRequest(asset1_owner_acc, asset1_id.clone())));
    assert!(soc
        .asset_events
        .iter()
        .any(|e| *e == AssetEvent::AssetHealthCheckHealthOfficerUpdate(healthofficer_acc, asset1_id.clone())));
    assert!(soc
        .asset_events
        .iter()
        .any(|e| *e == AssetEvent::AssetHealthCheckCommunityUpdate(community_leader_acc, asset1_id.clone())));
    let rec = soc.assets.asset_healthcheck_rec_inq(&asset1_id).unwrap();
    assert_eq!(rec.status, AssetHealthCheckRecStatus::CommunityApproved);
    assert_eq!(
        rec.health_officer_note,
        Some(vec![
            AssetHealthCheckRecInfo::new(b"Cause", b"May be due to seasonal virus"),
            AssetHealthCheckRecInfo::new(b"prescription", b"Tab1 | Tab2 | Tab3"),
            AssetHealthCheckRecInfo::new(b"Followup", b"Health Improved no more medication"),
        ])
    );
    assert_eq!(
        rec.community_note,
        Some(vec![AssetHealthCheckRecInfo::new(b"Followup", b"Looks healthy & active")])
    );
}

#[test]
fn scenario_registration_end_to_end() {
    let mut soc = Society::new();
    soc.now = 42;
    soc.enrol(TEST_PROFILE1_NAME, TEST_PROFILE1_SOCIETY_MEMBER_ID, b"UK007", MemberRole::CommunityLeader);
    soc.enrol(TEST_PROFILE2_NAME, TEST_PROFILE2_SOCIETY_MEMBER_ID, b"UK009", MemberRole::AssetOwner);
    let owner = account_key(TEST_PROFILE2_NAME);
    let leader = account_key(TEST_PROFILE1_NAME);
    let a1 = b"A1".to_vec();
    soc.register_asset(owner, &a1, cow_info()).unwrap();
    soc.process(leader, &a1, true).unwrap();
    assert_eq!(soc.assets.assetprofile_by_id(&a1).unwrap().asset_status, AssetStatus::InFarm);
    assert!(soc.assets.asset_register_inq(&a1).is_none());
    let requests = soc.asset_events.iter().filter(|e| matches!(e, AssetEvent::RequestAssetRegistration(..))).count();
    let decisions =
        soc.asset_events.iter().filter(|e| matches!(e, AssetEvent::ProcessRequestAssetRegistration(..))).count();
    assert_eq!((requests, decisions), (1, 1));
    // The deposits went to the society's account.
    assert_eq!(soc.free_balance(soc.members.coop_account_id(369)), 4);
    assert_eq!(soc.free_balance(owner), 48);
}

#[test]
fn scenario_insurance_end_to_end() {
    let (mut soc, id) = society_with_asset();
    let owner = account_key(TEST_PROFILE2_NAME);
    let insurer = account_key(TEST_PROFILE3_NAME);
    soc.request_insurance(owner, &id).unwrap();
    assert_eq!(soc.insurance_status(&id), Some(AssetInsuranceStatus::NewApplication));
    soc.update_premium(insurer, &id, 5).unwrap();
    assert_eq!(soc.insurance_status(&id), Some(AssetInsuranceStatus::PremiumQuoted));
    soc.deposit_premium(owner, &id, 5).unwrap();
    assert_eq!(soc.insurance_status(&id), Some(AssetInsuranceStatus::PremiumPaid));
    soc.now = 77;
    soc.approve_insurance(insurer, &id).unwrap();
    let ins = soc.assets.assetprofile_by_id(&id).unwrap().asset_insurance.clone().unwrap();
    assert_eq!(ins.status, AssetInsuranceStatus::Active);
    assert_eq!(ins.quoted_premium, 5);
    assert_eq!((ins.start_date, ins.expiry_date), (77, 77));
    assert_eq!(soc.free_balance(owner), 50 - 2 - 5);
    assert_eq!(soc.free_balance(soc.members.coop_account_id(369)), 2 + 2 + 2 + 5);
}

#[test]
fn scenario_reclaim_end_to_end() {
    let (mut soc, id) = society_with_insured_asset();
    let owner = account_key(TEST_PROFILE2_NAME);
    let leader = account_key(TEST_PROFILE1_NAME);
    let insurer = account_key(TEST_PROFILE3_NAME);
    let note = || Some(vec![AssetInsuranceReClaimInfo::new(b"expired", b"illness mass spread")]);
    soc.request_reclaim(owner, &id, Some(vec![AssetInsuranceReClaimInfo::new(b"doe", b"2019JAN29")])).unwrap();
    // The insurer cannot decide before the community approved.
    assert_eq!(soc.insurer_reclaim(insurer, &id, true, note()), Err(Error::AssetInsuranceReClaimStatusUnexpected));
    assert_eq!(
        soc.assets.asset_insurance_reclaim_inq(&id).unwrap().status,
        AssetInsuranceReClaimStatus::NewReclaim
    );
    soc.community_reclaim(leader, &id, true, note()).unwrap();
    soc.insurer_reclaim(insurer, &id, true, note()).unwrap();
    let c = soc.assets.asset_insurance_reclaim_inq(&id).unwrap();
    assert_eq!(c.status, AssetInsuranceReClaimStatus::InsurerApproved);
    assert_eq!(c.owner_note, Some(vec![AssetInsuranceReClaimInfo::new(b"doe", b"2019JAN29")]));
    assert_eq!(c.community_note, note());
    assert_eq!(c.insurer_note, note());
}

#[test]
fn reclaim_rejected_by_community_cannot_proceed() {
    let (mut soc, id) = society_with_insured_asset();
    let owner = account_key(TEST_PROFILE2_NAME);
    let leader = account_key(TEST_PROFILE1_NAME);
    let insurer = account_key(TEST_PROFILE3_NAME);
    soc.request_reclaim(owner, &id, None).unwrap();
    soc.community_reclaim(leader, &id, false, None).unwrap();
    assert_eq!(
        soc.assets.asset_insurance_reclaim_inq(&id).unwrap().status,
        AssetInsuranceReClaimStatus::CommunityDisApproved
    );
    assert_eq!(soc.insurer_reclaim(insurer, &id, true, None), Err(Error::AssetInsuranceReClaimStatusUnexpected));
    assert_eq!(soc.community_reclaim(leader, &id, true, None), Err(Error::AssetInsuranceReClaimStatusUnexpected));
}

#[test]
fn no_id_is_staged_and_registered() {
    let mut soc = Society::new();
    soc.enrol(TEST_PROFILE1_NAME, TEST_PROFILE1_SOCIETY_MEMBER_ID, b"UK007", MemberRole::CommunityLeader);
    soc.enrol(TEST_PROFILE2_NAME, TEST_PROFILE2_SOCIETY_MEMBER_ID, b"UK009", MemberRole::AssetOwner);
    let owner = account_key(TEST_PROFILE2_NAME);
    let leader = account_key(TEST_PROFILE1_NAME);
    let id = b"A1".to_vec();
    soc.register_asset(owner, &id, None).unwrap();
    assert!(soc.assets.asset_register_inq(&id).is_some() && soc.assets.assetprofile_by_id(&id).is_none());
    assert_eq!(soc.register_asset(owner, &id, None), Err(Error::AssetIdAlreadyExists));
    soc.process(leader, &id, true).unwrap();
    assert!(soc.assets.asset_register_inq(&id).is_none() && soc.assets.assetprofile_by_id(&id).is_some());
    assert_eq!(soc.register_asset(owner, &id, None), Err(Error::AssetIdAlreadyExists));
    assert!(soc.assets.asset_register_inq(&id).is_none());
}

#[test]
fn registration_decision_consumes_the_request() {
    let mut soc = Society::new();
    soc.enrol(TEST_PROFILE1_NAME, TEST_PROFILE1_SOCIETY_MEMBER_ID, b"UK007", MemberRole::CommunityLeader);
    soc.enrol(TEST_PROFILE2_NAME, TEST_PROFILE2_SOCIETY_MEMBER_ID, b"UK009", MemberRole::AssetOwner);
    let owner = account_key(TEST_PROFILE2_NAME);
    let leader = account_key(TEST_PROFILE1_NAME);
    let a1 = b"A1".to_vec();
    let a2 = b"A2".to_vec();
    soc.register_asset(owner, &a1, None).unwrap();
    soc.register_asset(owner, &a2, None).unwrap();
    soc.process(leader, &a1, true).unwrap();
    assert_eq!(soc.process(leader, &a1, true), Err(Error::AssetIdInvalid));
    // A rejected request is dropped and registers nothing.
    soc.process(leader, &a2, false).unwrap();
    assert!(soc.assets.asset_register_inq(&a2).is_none() && soc.assets.assetprofile_by_id(&a2).is_none());
    assert_eq!(soc.process(leader, &a2, false), Err(Error::AssetIdInvalid));
    assert_eq!(soc.asset_events.len(), 4);
}

#[test]
fn failed_checks_change_nothing() {
    let (mut soc, id) = society_with_asset();
    let owner = account_key(TEST_PROFILE2_NAME);
    let leader = account_key(TEST_PROFILE1_NAME);
    let insurer = account_key(TEST_PROFILE3_NAME);
    let stranger = account_key(TEST_PROFILE5_NAME);
    let before = soc.assets.assetprofile_by_id(&id).cloned();
    // Wrong role, unknown member, wrong owner, wrong insurance state.
    assert_eq!(soc.request_insurance(leader, &id), Err(Error::MemberRoleInvalid));
    assert_eq!(soc.request_insurance(stranger, &id), Err(Error::UnknownMemberAccount));
    soc.enrol(TEST_PROFILE4_NAME, TEST_PROFILE4_SOCIETY_MEMBER_ID, b"IN009", MemberRole::AssetOwner);
    assert_eq!(soc.request_insurance(account_key(TEST_PROFILE4_NAME), &id), Err(Error::AssetOwnerInvalid));
    assert_eq!(soc.update_premium(insurer, &id, 5), Err(Error::AssetInsuranceRequestNone));
    assert_eq!(soc.request_reclaim(owner, &id, None), Err(Error::AssetInsuranceRequestNone));
    assert_eq!(soc.request_insurance(owner, &b"A9".to_vec()), Err(Error::AssetIdInvalid));
    assert_eq!(soc.assets.assetprofile_by_id(&id).cloned(), before);
    soc.request_insurance(owner, &id).unwrap();
    let before = soc.assets.assetprofile_by_id(&id).cloned();
    assert_eq!(soc.request_insurance(owner, &id), Err(Error::AssetInsuranceRequestNotNew));
    assert_eq!(soc.approve_insurance(insurer, &id), Err(Error::AssetInsuranceStatusUnexpected));
    assert_eq!(soc.update_premium(owner, &id, 5), Err(Error::MemberRoleInvalid));
    assert_eq!(soc.assets.assetprofile_by_id(&id).cloned(), before);
}

#[test]
fn insurance_moves_forward_one_step_at_a_time() {
    let (mut soc, id) = society_with_asset();
    let owner = account_key(TEST_PROFILE2_NAME);
    let insurer = account_key(TEST_PROFILE3_NAME);
    soc.request_insurance(owner, &id).unwrap();
    assert_eq!(soc.deposit_premium(owner, &id, 5), Err(Error::AssetInsuranceStatusUnexpected));
    assert_eq!(soc.approve_insurance(insurer, &id), Err(Error::AssetInsuranceStatusUnexpected));
    assert_eq!(soc.insurance_status(&id), Some(AssetInsuranceStatus::NewApplication));
    soc.update_premium(insurer, &id, 5).unwrap();
    assert_eq!(soc.update_premium(insurer, &id, 6), Err(Error::AssetInsuranceStatusUnexpected));
    assert_eq!(soc.approve_insurance(insurer, &id), Err(Error::AssetInsuranceStatusUnexpected));
    assert_eq!(soc.insurance_status(&id), Some(AssetInsuranceStatus::PremiumQuoted));
    soc.deposit_premium(owner, &id, 5).unwrap();
    assert_eq!(soc.deposit_premium(owner, &id, 5), Err(Error::AssetInsuranceStatusUnexpected));
    assert_eq!(soc.update_premium(insurer, &id, 6), Err(Error::AssetInsuranceStatusUnexpected));
    assert_eq!(soc.insurance_status(&id), Some(AssetInsuranceStatus::PremiumPaid));
    soc.approve_insurance(insurer, &id).unwrap();
    assert_eq!(soc.approve_insurance(insurer, &id), Err(Error::AssetInsuranceStatusUnexpected));
    assert_eq!(soc.insurance_status(&id), Some(AssetInsuranceStatus::Active));
}

#[test]
fn profile_info_bounds() {
    let (mut soc, _) = society_with_asset();
    let owner = account_key(TEST_PROFILE2_NAME);
    let entries = |n: usize| Some((0..n).map(|_| AssetProfileInfo::new(b"k", b"v")).collect::<Vec<_>>());
    assert!(soc.register_asset(owner, &b"B1".to_vec(), entries(10)).is_ok());
    assert_eq!(soc.register_asset(owner, &b"B2".to_vec(), entries(11)), Err(Error::AssetProfileTooManyInfos));
    let name20 = Some(vec![AssetProfileInfo::new(&[b'n'; 20], b"v")]);
    let name21 = Some(vec![AssetProfileInfo::new(&[b'n'; 21], b"v")]);
    let value40 = Some(vec![AssetProfileInfo::new(b"k", &[b'v'; 40])]);
    let value41 = Some(vec![AssetProfileInfo::new(b"k", &[b'v'; 41])]);
    assert!(soc.register_asset(owner, &b"B3".to_vec(), name20).is_ok());
    assert_eq!(soc.register_asset(owner, &b"B4".to_vec(), name21), Err(Error::AssetProfileInvalidInfoName));
    assert!(soc.register_asset(owner, &b"B5".to_vec(), value40).is_ok());
    assert_eq!(soc.register_asset(owner, &b"B6".to_vec(), value41), Err(Error::AssetProfileInvalidInfoValue));
    assert!(soc.register_asset(owner, &[b'x'; 36].to_vec(), None).is_ok());
    assert_eq!(soc.register_asset(owner, &[b'x'; 37].to_vec(), None), Err(Error::AssetIdTooLong));
    assert_eq!(soc.register_asset(owner, &Vec::new(), None), Err(Error::AssetIdEmpty));
}

#[test]
fn field_validator_bounds() {
    let b = FieldBounds { max_count: 5, max_name_len: 10, max_value_len: 20 };
    let list = |n: usize| Some((0..n).map(|_| ProfileField::new(b"name", b"value")).collect::<Vec<_>>());
    assert_eq!(validate_fields(&None, b), Ok(()));
    assert_eq!(validate_fields(&list(5), b), Ok(()));
    assert_eq!(validate_fields(&list(6), b), Err(BoundError::TooManyEntries));
    assert_eq!(validate_fields(&Some(vec![ProfileField::new(&[b'n'; 10], b"v")]), b), Ok(()));
    assert_eq!(
        validate_fields(&Some(vec![ProfileField::new(&[b'n'; 11], b"v")]), b),
        Err(BoundError::NameTooLong)
    );
    // The name of an entry is checked before its value, entries in order.
    assert_eq!(
        validate_fields(
            &Some(vec![ProfileField::new(b"n", &[b'v'; 21]), ProfileField::new(&[b'n'; 11], b"v")]),
            b
        ),
        Err(BoundError::ValueTooLong)
    );
    assert_eq!(
        validate_fields(&Some(vec![ProfileField::new(&[b'n'; 11], &[b'v'; 21])]), b),
        Err(BoundError::NameTooLong)
    );
    let f = ProfileField::new(b"country", b"UK");
    assert_eq!((f.info_name(), f.info_value()), (&b"country"[..], &b"UK"[..]));
}

#[test]
fn reclaim_errors() {
    let (mut soc, id) = society_with_insured_asset();
    let owner = account_key(TEST_PROFILE2_NAME);
    let leader = account_key(TEST_PROFILE1_NAME);
    let many = Some((0..11).map(|_| AssetInsuranceReClaimInfo::new(b"k", b"v")).collect::<Vec<_>>());
    assert_eq!(soc.request_reclaim(owner, &id, many), Err(Error::AssetInsuranceReClaimTooManyInfos));
    assert_eq!(
        soc.request_reclaim(owner, &id, Some(vec![AssetInsuranceReClaimInfo::new(&[b'n'; 21], b"v")])),
        Err(Error::AssetInsuranceReClaimInvalidInfoName)
    );
    assert_eq!(
        soc.request_reclaim(owner, &id, Some(vec![AssetInsuranceReClaimInfo::new(b"k", &[b'v'; 41])])),
        Err(Error::AssetInsuranceReClaimInvalidInfoValue)
    );
    assert_eq!(soc.community_reclaim(leader, &id, true, None), Err(Error::AssetReClaimIdInvalid));
    soc.request_reclaim(owner, &id, None).unwrap();
    assert_eq!(soc.request_reclaim(owner, &id, None), Err(Error::AssetInsuranceReclaimAlreadyExists));
    assert_eq!(soc.community_reclaim(owner, &id, true, None), Err(Error::MemberRoleInvalid));
}

#[test]
fn healthcheck_errors_and_repeated_remarks() {
    let (mut soc, id) = society_with_insured_asset();
    soc.enrol(TEST_PROFILE4_NAME, TEST_PROFILE4_SOCIETY_MEMBER_ID, b"IN009", MemberRole::HealthOfficer);
    let owner = account_key(TEST_PROFILE2_NAME);
    let leader = account_key(TEST_PROFILE1_NAME);
    let officer = account_key(TEST_PROFILE4_NAME);
    let many = Some((0..11).map(|_| AssetHealthCheckRecInfo::new(b"k", b"v")).collect::<Vec<_>>());
    assert_eq!(soc.request_healthcheck(owner, &id, many), Err(Error::AssetHealthCheckTooManyInfos));
    assert_eq!(
        soc.request_healthcheck(owner, &id, Some(vec![AssetHealthCheckRecInfo::new(&[b'n'; 21], b"v")])),
        Err(Error::AssetHealthCheckInvalidInfoName)
    );
    assert_eq!(
        soc.request_healthcheck(owner, &id, Some(vec![AssetHealthCheckRecInfo::new(b"k", &[b'v'; 41])])),
        Err(Error::AssetHealthCheckInvalidInfoValue)
    );
    assert_eq!(soc.officer_remark(officer, &id, false, None), Err(Error::AssetHealthCheckRecIdInvalid));
    soc.request_healthcheck(owner, &id, None).unwrap();
    assert_eq!(soc.request_healthcheck(owner, &id, None), Err(Error::AssetHealthCheckRequestAlreadyExists));
    assert_eq!(soc.community_remark(leader, &id, true, None), Err(Error::AssetHealthCheckRecStatusUnexpected));
    let note = |v: &[u8]| Some(vec![AssetHealthCheckRecInfo::new(b"visit", v)]);
    soc.officer_remark(officer, &id, false, note(b"one")).unwrap();
    soc.officer_remark(officer, &id, false, None).unwrap();
    soc.officer_remark(officer, &id, false, note(b"two")).unwrap();
    assert_eq!(
        soc.assets.asset_healthcheck_rec_inq(&id).unwrap().status,
        AssetHealthCheckRecStatus::TreatmentInProgress
    );
    soc.officer_remark(officer, &id, true, None).unwrap();
    assert_eq!(soc.officer_remark(officer, &id, true, None), Err(Error::AssetHealthCheckRecStatusUnexpected));
    // Without approval the record stays where it is.
    soc.community_remark(leader, &id, false, note(b"wait")).unwrap();
    let rec = soc.assets.asset_healthcheck_rec_inq(&id).unwrap();
    assert_eq!(rec.status, AssetHealthCheckRecStatus::TreatmentDone);
    assert_eq!(
        rec.health_officer_note,
        Some(vec![
            AssetHealthCheckRecInfo::new(b"visit", b"one"),
            AssetHealthCheckRecInfo::new(b"visit", b"two"),
        ])
    );
    assert_eq!(rec.community_note, note(b"wait"));
    soc.community_remark(leader, &id, true, None).unwrap();
    assert_eq!(
        soc.assets.asset_healthcheck_rec_inq(&id).unwrap().status,
        AssetHealthCheckRecStatus::CommunityApproved
    );
}

#[test]
fn unpaid_premium_leaves_the_quote() {
    let (mut soc, id) = society_with_asset();
    let owner = account_key(TEST_PROFILE2_NAME);
    let insurer = account_key(TEST_PROFILE3_NAME);
    soc.request_insurance(owner, &id).unwrap();
    soc.update_premium(insurer, &id, 100).unwrap();
    let coop = soc.members.coop_account_id(369);
    assert_eq!(
        soc.assets.prepare_deposit_insurance_premium(&soc.members, owner, &id, 100),
        Ok(Transfer { from: owner, to: coop, amount: 100 })
    );
    let before = soc.assets.assetprofile_by_id(&id).cloned();
    // The owner holds 48 after the membership deposit: the ledger refuses.
    assert_eq!(soc.deposit_premium(owner, &id, 100), Err(Error::TransferFailed));
    assert_eq!(soc.assets.assetprofile_by_id(&id).cloned(), before);
    assert_eq!(soc.insurance_status(&id), Some(AssetInsuranceStatus::PremiumQuoted));
    assert_eq!(soc.free_balance(owner), 48);
    // A failed check asks for no transfer.
    assert_eq!(
        soc.assets.prepare_deposit_insurance_premium(&soc.members, insurer, &id, 100),
        Err(Error::MemberRoleInvalid)
    );
    soc.deposit_premium(owner, &id, 40).unwrap();
    assert_eq!(soc.insurance_status(&id), Some(AssetInsuranceStatus::PremiumPaid));
    assert_eq!(soc.free_balance(owner), 8);
}
