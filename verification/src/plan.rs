//! What an action asks of the gallery's collaborators once its checks have
//! passed, and what is to be recorded when they have done it.
//!
//! The gallery never moves a token or a balance itself. An action that needs
//! the ledger or the registry returns a [`Plan`]: the caller carries out the
//! plan's calls in order, ledger first, as one unit that happens whole or not
//! at all, and hands the plan and what became of the calls to
//! [`crate::Gallery::settle`]. If a call was refused, the collaborator's
//! error is the action's error and the gallery is as it was.

use vstd::prelude::*;
use crate::events::Event;
use crate::types::{AccountId, Balance, ClassData, ClassId, TokenData, TokenId};

verus! {

/// A request to the ledger.
#[derive(Clone, Copy, Debug, PartialEq, Eq)]
pub enum LedgerCall {
    /// Move `amount` from the free balance of `from` to that of `to`, even
    /// if this empties the account of `from`.
    Transfer { from: AccountId, to: AccountId, amount: Balance },
    /// Move `amount` from the free balance of `who` into its reserve.
    Reserve { who: AccountId, amount: Balance },
    /// Move `amount` from the reserve of `who` back to its free balance, or
    /// all of the reserve if it holds less.
    Unreserve { who: AccountId, amount: Balance },
    /// Move `amount` from the reserve of `from` to the free balance of `to`,
    /// or all of the reserve if it holds less.
    Repatriate { from: AccountId, to: AccountId, amount: Balance },
}

/// A request to the registry about an existing token.
#[derive(Clone, Copy, Debug, PartialEq, Eq)]
pub enum RegistryCall {
    /// Hand the token from `from`, its owner, to `to`.
    Transfer { from: AccountId, to: AccountId, class: ClassId, token: TokenId },
    /// Destroy the token on behalf of `owner`.
    Burn { owner: AccountId, class: ClassId, token: TokenId },
}

/// A change to the offer book that becomes due when a plan's calls
/// succeeded.
#[derive(Clone, Copy, Debug, PartialEq, Eq)]
pub enum OfferChange {
    /// Record the bidder's offer, in place of an earlier one on the token.
    Put { class: ClassId, token: TokenId, bidder: AccountId, price: Balance },
    /// Delete the bidder's offer on the token.
    Delete { class: ClassId, token: TokenId, bidder: AccountId },
}

/// An action that passed its checks and waits for the collaborators.
#[derive(Clone, Copy, Debug, PartialEq, Eq)]
pub struct Plan {
    /// The request to the ledger, carried out first.
    pub ledger: Option<LedgerCall>,
    /// The request to the registry, carried out second.
    pub registry: Option<RegistryCall>,
    /// What settling the plan records in the offer book.
    pub offer: Option<OfferChange>,
    /// What settling the plan emits.
    pub event: Event,
}

/// A request to the registry to create a collection. The registry answers
/// with the identifier it allocated.
#[derive(Clone, Debug, PartialEq, Eq)]
pub struct ClassRequest {
    pub owner: AccountId,
    pub metadata: Vec<u8>,
    pub data: ClassData,
}

impl ClassRequest {
    /// Concludes the request. `answer` is what the registry answered: the
    /// identifier of the collection it created, or its refusal.
    ///
    /// The event names the new collection; a refusal is handed on as it
    /// came.
    pub fn created<E>(&self, answer: Result<ClassId, E>) -> (r: Result<Event, E>)
        ensures
            match answer {
                Ok(class) => r == Ok::<Event, E>(Event::CollectionCreated(class)),
                Err(error) => r == Err::<Event, E>(error),
            },
    {
        match answer {
            Ok(class) => Ok(Event::CollectionCreated(class)),
            Err(error) => Err(error),
        }
    }
}

/// A request to the registry to mint a token for `owner` in `class`. The
/// registry answers with the identifier it allocated.
#[derive(Clone, Debug, PartialEq, Eq)]
pub struct TokenRequest {
    pub owner: AccountId,
    pub class: ClassId,
    pub metadata: Vec<u8>,
    pub data: TokenData,
}

impl TokenRequest {
    /// Concludes the request. `answer` is what the registry answered: the
    /// identifier of the token it minted, or its refusal.
    ///
    /// The event names the collection and the new token; a refusal is handed
    /// on as it came.
    pub fn minted<E>(&self, answer: Result<TokenId, E>) -> (r: Result<Event, E>)
        ensures
            match answer {
                Ok(token) => r == Ok::<Event, E>(Event::TokenMinted(self.class, token)),
                Err(error) => r == Err::<Event, E>(error),
            },
    {
        match answer {
            Ok(token) => Ok(Event::TokenMinted(self.class, token)),
            Err(error) => Err(error),
        }
    }
}

} // verus!
