//! Identifiers, the per-token side record, the caller's origin and the
//! failures an action can end in.

use vstd::prelude::*;

verus! {

/// An account of the ledger.
pub type AccountId = u64;

/// A collection of the registry.
pub type ClassId = u64;

/// A token within its collection.
pub type TokenId = u64;

/// An amount of the ledger's currency.
pub type Balance = u128;

/// A cost estimate in the units of the block's execution budget.
pub type Weight = u64;

/// Why a token was reported. `Reported` is set by the curator alone, once a
/// report has been confirmed.
#[derive(Clone, Copy, Debug, PartialEq, Eq, Structural)]
pub enum ReportReason {
    /// No report stands against the token.
    Unreported,
    Illegal,
    Plagiarism,
    Duplicate,
    Reported,
}

/// The side record the gallery keeps for a token.
#[derive(Clone, Copy, Debug, PartialEq, Eq, Structural)]
pub struct ExtendedInfo {
    /// Whether the owner wants the token shown.
    pub display_flag: bool,
    /// The latest report on the token.
    pub report: ReportReason,
    /// Set while the token is committed to a pending swap.
    pub frozen: bool,
}

impl ExtendedInfo {
    /// The record of a token that was never written: hidden, unreported,
    /// not frozen.
    pub open spec fn blank() -> ExtendedInfo {
        ExtendedInfo { display_flag: false, report: ReportReason::Unreported, frozen: false }
    }
}

impl Default for ExtendedInfo {
    fn default() -> (info: ExtendedInfo)
        ensures
            info == ExtendedInfo::blank(),
    {
        ExtendedInfo { display_flag: false, report: ReportReason::Unreported, frozen: false }
    }
}

/// What a collection carries besides its metadata.
#[derive(Clone, Debug, PartialEq, Eq, Default)]
pub struct ClassData {
    pub name: Vec<u8>,
}

/// What a token carries besides its metadata.
#[derive(Clone, Debug, PartialEq, Eq, Default)]
pub struct TokenData {
    pub name: Vec<u8>,
}

/// Why an action was refused.
#[derive(Clone, Copy, Debug, PartialEq, Eq)]
pub enum Error {
    /// The caller's origin does not carry the authority the action needs.
    BadOrigin,
    CollectionNotFound,
    TokenNotFound,
    OfferNotFound,
    NotTokenOwner,
    NotCollectionOwner,
    NotCollectionOwnerOrCurator,
    NotCurator,
    LowBalance,
    TokenFrozen,
}

/// On whose authority an action is called.
#[derive(Clone, Copy, Debug, PartialEq, Eq)]
pub enum Origin {
    /// The root authority.
    Root,
    /// An account that signed the call.
    Signed(AccountId),
    /// Nobody.
    Unsigned,
}

impl Origin {
    /// The account behind a signed origin.
    pub open spec fn signer(self) -> Option<AccountId> {
        match self {
            Origin::Signed(who) => Some(who),
            _ => None,
        }
    }

    /// The signing account, or `BadOrigin` for any other origin.
    pub fn ensure_signed(self) -> (r: Result<AccountId, Error>)
        ensures
            r == match self.signer() {
                Some(who) => Ok::<AccountId, Error>(who),
                None => Err(Error::BadOrigin),
            },
    {
        match self {
            Origin::Signed(who) => Ok(who),
            _ => Err(Error::BadOrigin),
        }
    }

    /// `Ok` for the root authority, `BadOrigin` for any other origin.
    pub fn ensure_root(self) -> (r: Result<(), Error>)
        ensures
            r == if self == Origin::Root {
                Ok::<(), Error>(())
            } else {
                Err(Error::BadOrigin)
            },
    {
        match self {
            Origin::Root => Ok(()),
            _ => Err(Error::BadOrigin),
        }
    }
}

} // verus!
