//! The notifications the gallery emits, one for each action that succeeds.

use vstd::prelude::*;
use crate::types::{AccountId, Balance, ClassId, ReportReason, TokenId};

verus! {

/// A record of one successful action.
#[derive(Clone, Copy, Debug, PartialEq, Eq)]
pub enum Event {
    /// A collection was created under this identifier.
    CollectionCreated(ClassId),
    /// A token was minted in the collection.
    TokenMinted(ClassId, TokenId),
    /// The token's owner was paid the amount.
    TokenAppreciated(ClassId, TokenId, Balance),
    /// The token's display flag was set to the value.
    TokenDisplayToggled(ClassId, TokenId, bool),
    /// The token went to the account.
    TokenTransferred(ClassId, TokenId, AccountId),
    /// The account offered the amount for the token.
    OfferCreated(ClassId, TokenId, Balance, AccountId),
    /// The first account, the seller, accepted the offer of the second, the bidder.
    OfferAccepted(ClassId, TokenId, AccountId, AccountId),
    /// The second account withdrew its offer on the token owned by the first.
    OfferCanceled(ClassId, TokenId, AccountId, AccountId),
    /// The token was reported for the reason.
    ReportReceived(ClassId, TokenId, ReportReason),
    /// The curator confirmed the report on the token.
    ReportAccepted(ClassId, TokenId),
    /// The curator dismissed the report on the token.
    ReportCleared(ClassId, TokenId),
    /// The token was burned.
    TokenBurned(ClassId, TokenId),
}

} // verus!
