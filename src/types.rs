use vstd::prelude::*;

verus! {

/// An account of the hosting ledger.
pub type AccountId = u64;

/// An amount of the ledger's currency.
pub type Balance = u128;

/// A timestamp of the host clock.
pub type Moment = u64;

/// Every way in which an operation of the cooperative can be refused.
#[derive(Clone, Copy, Debug, PartialEq, Eq, Structural)]
pub enum Error {
    /// The call does not carry the capability to manage members.
    BadOrigin,
    SocietyMemberIdEmpty,
    SocietyMemberIdTooLong,
    MemberIdAlreadyExists,
    MemberAccountAlreadyExists,
    UnknownMemberAccount,
    UnknownMemberProfile,
    MemberProfileTooManyInfos,
    MemberProfileInvalidInfoName,
    MemberProfileInvalidInfoValue,
    MemberProfileInfoEmpty,
    MemberRoleInvalid,
    MemberDepositValueInvalid,
    MemberAccountBalanceLow,
    AssetIdEmpty,
    AssetIdTooLong,
    AssetIdInvalid,
    AssetIdAlreadyExists,
    AssetProfileTooManyInfos,
    AssetProfileInvalidInfoName,
    AssetProfileInvalidInfoValue,
    AssetProfileInfoEmpty,
    AssetStatusUnexpected,
    AssetOwnerInvalid,
    AssetOwnerUnAssigned,
    AssetInsuranceRequestNotNew,
    AssetInsuranceStatusUnexpected,
    AssetInsuranceRequestNone,
    AssetInsuranceReClaimTooManyInfos,
    AssetInsuranceReClaimInvalidInfoName,
    AssetInsuranceReClaimInvalidInfoValue,
    AssetInsuranceReclaimAlreadyExists,
    AssetReClaimIdInvalid,
    AssetInsuranceReClaimStatusUnexpected,
    AssetHealthCheckRequestAlreadyExists,
    AssetHealthCheckTooManyInfos,
    AssetHealthCheckInvalidInfoName,
    AssetHealthCheckInvalidInfoValue,
    AssetHealthCheckRecIdInvalid,
    AssetHealthCheckRecStatusUnexpected,
    /// The ledger did not carry out the transfer that the operation needs.
    TransferFailed,
}

/// A movement of funds that an operation needs from the host ledger. The
/// host asks for it with the operation's `prepare_*` function, carries it
/// out, and then applies the operation with the ledger's outcome: a failed
/// transfer makes the operation fail with `TransferFailed` and change
/// nothing.
#[derive(Clone, Copy, Debug, PartialEq, Eq, Structural)]
pub struct Transfer {
    pub from: AccountId,
    pub to: AccountId,
    pub amount: Balance,
}

/// The first of two possible failures.
pub open spec fn first_error(a: Option<Error>, b: Option<Error>) -> Option<Error> {
    match a {
        Some(e) => Some(e),
        None => b,
    }
}

/// The failure of a check as the result of that check.
pub open spec fn check_result(e: Option<Error>) -> Result<(), Error> {
    match e {
        Some(e) => Err(e),
        None => Ok(()),
    }
}

} // verus!
