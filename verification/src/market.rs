//! The offer market: a bidder's price is held in reserve from the offer
//! until the owner accepts it or the bidder withdraws it.

use vstd::prelude::*;
use crate::events::Event;
use crate::gallery::Gallery;
use crate::model::GalleryView;
use crate::plan::{LedgerCall, OfferChange, Plan, RegistryCall};
use crate::types::{AccountId, Balance, ClassId, Error, Origin, TokenId};

verus! {

impl Gallery {
    /// Plans an offer of `price` by the caller on a token.
    ///
    /// Any signed caller may bid, the token's owner included. The price is
    /// reserved first; if the ledger refuses, its error is the action's
    /// error and no offer is recorded.
    pub fn create_offer(origin: Origin, class: ClassId, token: TokenId, price: Balance) -> (r: Result<
        Plan,
        Error,
    >)
        ensures
            r == GalleryView::create_offer(origin, class, token, price),
    {
        let who = origin.ensure_signed()?;
        Ok(
            Plan {
                ledger: Some(LedgerCall::Reserve { who, amount: price }),
                registry: None,
                offer: Some(OfferChange::Put { class, token, bidder: who, price }),
                event: Event::OfferCreated(class, token, price, who),
            },
        )
    }

    /// Plans the sale of a token to `bidder` at the price of the bidder's
    /// standing offer. `owner` is the registry's answer for the token.
    ///
    /// Only the token's owner may accept, and only while the token is not
    /// frozen. The plan moves the reserved price to the owner's free
    /// balance, hands the token to the bidder and deletes the offer; none of
    /// the three is to happen without the others.
    pub fn accept_offer(
        &self,
        origin: Origin,
        class: ClassId,
        token: TokenId,
        bidder: AccountId,
        owner: Option<AccountId>,
    ) -> (r: Result<Plan, Error>)
        ensures
            r == self@.accept_offer(origin, class, token, bidder, owner),
    {
        let who = origin.ensure_signed()?;
        match owner {
            None => Err(Error::TokenNotFound),
            Some(owner) => {
                if owner != who {
                    Err(Error::NotTokenOwner)
                } else if self.infos.get(class, token).frozen {
                    Err(Error::TokenFrozen)
                } else {
                    match self.offers.get(class, token, bidder) {
                        None => Err(Error::OfferNotFound),
                        Some(price) => Ok(
                            Plan {
                                ledger: Some(
                                    LedgerCall::Repatriate { from: bidder, to: who, amount: price },
                                ),
                                registry: Some(
                                    RegistryCall::Transfer { from: who, to: bidder, class, token },
                                ),
                                offer: Some(OfferChange::Delete { class, token, bidder }),
                                event: Event::OfferAccepted(class, token, who, bidder),
                            },
                        ),
                    }
                }
            },
        }
    }

    /// Plans the withdrawal of the caller's own offer on a token. `owner`
    /// is the registry's answer for the token: the event names the owner, so
    /// the token must exist.
    ///
    /// Neither the token's ownership nor its freeze matters: the bidder
    /// gets the reserved price back and the offer is deleted.
    pub fn cancel_offer(&self, origin: Origin, class: ClassId, token: TokenId, owner: Option<AccountId>) -> (r:
        Result<Plan, Error>)
        ensures
            r == self@.cancel_offer(origin, class, token, owner),
    {
        let who = origin.ensure_signed()?;
        match owner {
            None => Err(Error::TokenNotFound),
            Some(owner) => match self.offers.get(class, token, who) {
                None => Err(Error::OfferNotFound),
                Some(price) => Ok(
                    Plan {
                        ledger: Some(LedgerCall::Unreserve { who, amount: price }),
                        registry: None,
                        offer: Some(OfferChange::Delete { class, token, bidder: who }),
                        event: Event::OfferCanceled(class, token, owner, who),
                    },
                ),
            },
        }
    }
}

} // verus!
