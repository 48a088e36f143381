//! The gallery as a state machine over mathematical maps: what each action
//! answers and what it leaves behind, for every state, caller and answer of
//! the collaborators. The executable gallery is proved against these
//! definitions, and the laws of the gallery are proved from them.
//!
//! Checks come in a fixed order and the first that fails decides the error:
//! the caller's origin, then whether the token (or collection) exists, then
//! the caller's authority over it, then the freeze, then the offer.

use vstd::prelude::*;
use crate::events::Event;
use crate::offers::OfferKey;
use crate::plan::{ClassRequest, LedgerCall, OfferChange, Plan, RegistryCall, TokenRequest};
use crate::types::{
    AccountId, Balance, ClassData, ClassId, Error, ExtendedInfo, Origin, ReportReason, TokenData,
    TokenId, Weight,
};

verus! {

/// What the gallery holds: the curator, the side records that were written,
/// and the standing offers.
#[verifier::ext_equal]
pub struct GalleryView {
    pub curator: AccountId,
    pub infos: Map<(ClassId, TokenId), ExtendedInfo>,
    pub offers: Map<OfferKey, Balance>,
}

impl GalleryView {
    /// The state before anything happened: the default account as curator,
    /// no record written, no offer standing.
    pub open spec fn initial() -> GalleryView {
        GalleryView { curator: 0, infos: Map::empty(), offers: Map::empty() }
    }

    /// The side record the token reads as: the one written last, the blank
    /// record if none was.
    pub open spec fn info(self, class: ClassId, token: TokenId) -> ExtendedInfo {
        if self.infos.contains_key((class, token)) {
            self.infos[(class, token)]
        } else {
            ExtendedInfo::blank()
        }
    }

    /// Whether the token is committed to a pending swap.
    pub open spec fn frozen(self, class: ClassId, token: TokenId) -> bool {
        self.info(class, token).frozen
    }

    /// The price the bidder has standing on the token.
    pub open spec fn offer(self, class: ClassId, token: TokenId, bidder: AccountId) -> Option<
        Balance,
    > {
        if self.offers.contains_key((class, token, bidder)) {
            Some(self.offers[(class, token, bidder)])
        } else {
            None
        }
    }

    /// The state with the token's record overwritten.
    pub open spec fn put_info(self, class: ClassId, token: TokenId, info: ExtendedInfo) -> GalleryView {
        GalleryView { infos: self.infos.insert((class, token), info), ..self }
    }

    /// The root authority names the curator.
    pub open spec fn set_curator(self, origin: Origin, curator: AccountId) -> (GalleryView, Result<
        (),
        Error,
    >) {
        if origin == Origin::Root {
            (GalleryView { curator, ..self }, Ok(()))
        } else {
            (self, Err(Error::BadOrigin))
        }
    }

    /// Any signed caller reports an existing token; the reason given last
    /// stands.
    pub open spec fn report(
        self,
        origin: Origin,
        class: ClassId,
        token: TokenId,
        reason: ReportReason,
        owner: Option<AccountId>,
    ) -> (GalleryView, Result<Event, Error>) {
        if origin.signer() is None {
            (self, Err(Error::BadOrigin))
        } else if owner is None {
            (self, Err(Error::TokenNotFound))
        } else {
            (
                self.put_info(
                    class,
                    token,
                    ExtendedInfo { report: reason, ..self.info(class, token) },
                ),
                Ok(Event::ReportReceived(class, token, reason)),
            )
        }
    }

    /// The curator rules on the report of an existing token: `verdict` is
    /// written as the token's report status and `event` is emitted.
    pub open spec fn rule(
        self,
        origin: Origin,
        class: ClassId,
        token: TokenId,
        owner: Option<AccountId>,
        verdict: ReportReason,
        event: Event,
    ) -> (GalleryView, Result<Event, Error>) {
        if origin.signer() is None {
            (self, Err(Error::BadOrigin))
        } else if owner is None {
            (self, Err(Error::TokenNotFound))
        } else if origin.signer() != Some(self.curator) {
            (self, Err(Error::NotCurator))
        } else {
            (
                self.put_info(
                    class,
                    token,
                    ExtendedInfo { report: verdict, ..self.info(class, token) },
                ),
                Ok(event),
            )
        }
    }

    /// The curator confirms the report on a token.
    pub open spec fn accept_report(
        self,
        origin: Origin,
        class: ClassId,
        token: TokenId,
        owner: Option<AccountId>,
    ) -> (GalleryView, Result<Event, Error>) {
        self.rule(
            origin,
            class,
            token,
            owner,
            ReportReason::Reported,
            Event::ReportAccepted(class, token),
        )
    }

    /// The curator dismisses the report on a token.
    pub open spec fn clear_report(
        self,
        origin: Origin,
        class: ClassId,
        token: TokenId,
        owner: Option<AccountId>,
    ) -> (GalleryView, Result<Event, Error>) {
        self.rule(
            origin,
            class,
            token,
            owner,
            ReportReason::Unreported,
            Event::ReportCleared(class, token),
        )
    }

    /// The owner of a token sets its display flag.
    pub open spec fn toggle_display(
        self,
        origin: Origin,
        class: ClassId,
        token: TokenId,
        display: bool,
        owner: Option<AccountId>,
    ) -> (GalleryView, Result<Event, Error>) {
        if origin.signer() is None {
            (self, Err(Error::BadOrigin))
        } else if owner is None {
            (self, Err(Error::TokenNotFound))
        } else if origin.signer() != owner {
            (self, Err(Error::NotTokenOwner))
        } else {
            (
                self.put_info(
                    class,
                    token,
                    ExtendedInfo { display_flag: display, ..self.info(class, token) },
                ),
                Ok(Event::TokenDisplayToggled(class, token, display)),
            )
        }
    }

    /// Any signed caller asks the registry for a collection of its own.
    pub open spec fn create_collection(origin: Origin, metadata: Vec<u8>, data: ClassData) -> Result<
        ClassRequest,
        Error,
    > {
        match origin.signer() {
            None => Err(Error::BadOrigin),
            Some(who) => Ok(ClassRequest { owner: who, metadata, data }),
        }
    }

    /// The owner of a collection asks the registry for a token in it.
    pub open spec fn mint(
        origin: Origin,
        class: ClassId,
        metadata: Vec<u8>,
        data: TokenData,
        class_owner: Option<AccountId>,
    ) -> Result<TokenRequest, Error> {
        match origin.signer() {
            None => Err(Error::BadOrigin),
            Some(who) => if class_owner is None {
                Err(Error::CollectionNotFound)
            } else if class_owner != Some(who) {
                Err(Error::NotCollectionOwner)
            } else {
                Ok(TokenRequest { owner: who, class, metadata, data })
            },
        }
    }

    /// Any signed caller pays the owner of a token out of its free balance.
    pub open spec fn appreciate(
        origin: Origin,
        class: ClassId,
        token: TokenId,
        amount: Balance,
        owner: Option<AccountId>,
        free: Balance,
    ) -> Result<Plan, Error> {
        match (origin.signer(), owner) {
            (None, _) => Err(Error::BadOrigin),
            (Some(_), None) => Err(Error::TokenNotFound),
            (Some(who), Some(owner)) => if free < amount {
                Err(Error::LowBalance)
            } else {
                Ok(
                    Plan {
                        ledger: Some(LedgerCall::Transfer { from: who, to: owner, amount }),
                        registry: None,
                        offer: None,
                        event: Event::TokenAppreciated(class, token, amount),
                    },
                )
            },
        }
    }

    /// The owner of a token that is not frozen hands it to `recipient`.
    pub open spec fn transfer(
        self,
        origin: Origin,
        class: ClassId,
        token: TokenId,
        recipient: AccountId,
        owner: Option<AccountId>,
    ) -> Result<Plan, Error> {
        match origin.signer() {
            None => Err(Error::BadOrigin),
            Some(who) => if owner is None {
                Err(Error::TokenNotFound)
            } else if owner != Some(who) {
                Err(Error::NotTokenOwner)
            } else if self.frozen(class, token) {
                Err(Error::TokenFrozen)
            } else {
                Ok(
                    Plan {
                        ledger: None,
                        registry: Some(
                            RegistryCall::Transfer { from: who, to: recipient, class, token },
                        ),
                        offer: None,
                        event: Event::TokenTransferred(class, token, recipient),
                    },
                )
            },
        }
    }

    /// The curator, or the owner of the token's collection, burns a token
    /// that is not frozen.
    pub open spec fn burn(
        self,
        origin: Origin,
        class: ClassId,
        token: TokenId,
        class_owner: Option<AccountId>,
    ) -> Result<Plan, Error> {
        match origin.signer() {
            None => Err(Error::BadOrigin),
            Some(who) => if class_owner is None {
                Err(Error::CollectionNotFound)
            } else if who != self.curator && class_owner != Some(who) {
                Err(Error::NotCollectionOwnerOrCurator)
            } else if self.frozen(class, token) {
                Err(Error::TokenFrozen)
            } else {
                Ok(
                    Plan {
                        ledger: None,
                        registry: Some(RegistryCall::Burn { owner: who, class, token }),
                        offer: None,
                        event: Event::TokenBurned(class, token),
                    },
                )
            },
        }
    }

    /// Any signed caller bids `price` on a token: the price goes into the
    /// caller's reserve and the offer is recorded, in place of an earlier one
    /// of the caller on the token.
    pub open spec fn create_offer(origin: Origin, class: ClassId, token: TokenId, price: Balance) -> Result<
        Plan,
        Error,
    > {
        match origin.signer() {
            None => Err(Error::BadOrigin),
            Some(who) => Ok(
                Plan {
                    ledger: Some(LedgerCall::Reserve { who, amount: price }),
                    registry: None,
                    offer: Some(OfferChange::Put { class, token, bidder: who, price }),
                    event: Event::OfferCreated(class, token, price, who),
                },
            ),
        }
    }

    /// The owner of a token that is not frozen accepts the offer of
    /// `bidder`: the reserved price goes to the owner's free balance, the
    /// token to the bidder, and the offer is deleted.
    pub open spec fn accept_offer(
        self,
        origin: Origin,
        class: ClassId,
        token: TokenId,
        bidder: AccountId,
        owner: Option<AccountId>,
    ) -> Result<Plan, Error> {
        match origin.signer() {
            None => Err(Error::BadOrigin),
            Some(who) => if owner is None {
                Err(Error::TokenNotFound)
            } else if owner != Some(who) {
                Err(Error::NotTokenOwner)
            } else if self.frozen(class, token) {
                Err(Error::TokenFrozen)
            } else {
                match self.offer(class, token, bidder) {
                    None => Err(Error::OfferNotFound),
                    Some(price) => Ok(
                        Plan {
                            ledger: Some(
                                LedgerCall::Repatriate { from: bidder, to: who, amount: price },
                            ),
                            registry: Some(
                                RegistryCall::Transfer { from: who, to: bidder, class, token },
                            ),
                            offer: Some(OfferChange::Delete { class, token, bidder }),
                            event: Event::OfferAccepted(class, token, who, bidder),
                        },
                    ),
                }
            },
        }
    }

    /// A bidder withdraws its offer on an existing token: the price leaves
    /// the bidder's reserve and the offer is deleted.
    pub open spec fn cancel_offer(
        self,
        origin: Origin,
        class: ClassId,
        token: TokenId,
        owner: Option<AccountId>,
    ) -> Result<Plan, Error> {
        match (origin.signer(), owner) {
            (None, _) => Err(Error::BadOrigin),
            (Some(_), None) => Err(Error::TokenNotFound),
            (Some(who), Some(owner)) => match self.offer(class, token, who) {
                None => Err(Error::OfferNotFound),
                Some(price) => Ok(
                    Plan {
                        ledger: Some(LedgerCall::Unreserve { who, amount: price }),
                        registry: None,
                        offer: Some(OfferChange::Delete { class, token, bidder: who }),
                        event: Event::OfferCanceled(class, token, owner, who),
                    },
                ),
            },
        }
    }

    /// The state once the plan's calls succeeded: the offer book with the
    /// plan's change applied, all else as before.
    pub open spec fn settle(self, plan: Plan) -> GalleryView {
        match plan.offer {
            None => self,
            Some(OfferChange::Put { class, token, bidder, price }) => GalleryView {
                offers: self.offers.insert((class, token, bidder), price),
                ..self
            },
            Some(OfferChange::Delete { class, token, bidder }) => GalleryView {
                offers: self.offers.remove((class, token, bidder)),
                ..self
            },
        }
    }

    /// A swap that offers the token on behalf of `source` enters the swap
    /// engine: the token is frozen, unless it is frozen already.
    pub open spec fn reserve(
        self,
        class: ClassId,
        token: TokenId,
        source: AccountId,
        owner: Option<AccountId>,
    ) -> (GalleryView, Result<(), Error>) {
        if owner is None {
            (self, Err(Error::TokenNotFound))
        } else if owner != Some(source) {
            (self, Err(Error::NotTokenOwner))
        } else if self.frozen(class, token) {
            (self, Err(Error::TokenFrozen))
        } else {
            (
                self.put_info(class, token, ExtendedInfo { frozen: true, ..self.info(class, token) }),
                Ok(()),
            )
        }
    }

    /// The swap's counterparty has done its part: the token is to go from
    /// `source` to `target` if `source` still owns it. `None` means the claim
    /// has failed without a call.
    pub open spec fn claim(
        class: ClassId,
        token: TokenId,
        source: AccountId,
        target: AccountId,
        owner: Option<AccountId>,
    ) -> Option<RegistryCall> {
        if owner == Some(source) {
            Some(RegistryCall::Transfer { from: source, to: target, class, token })
        } else {
            None
        }
    }

    /// The swap was aborted: the token is unfrozen if `source` still owns
    /// it, and nothing happens otherwise.
    pub open spec fn cancel(
        self,
        class: ClassId,
        token: TokenId,
        source: AccountId,
        owner: Option<AccountId>,
    ) -> GalleryView {
        if owner == Some(source) {
            self.put_info(class, token, ExtendedInfo { frozen: false, ..self.info(class, token) })
        } else {
            self
        }
    }
}

/// The cost estimate of a swap action: a fiftieth of the block's budget.
pub open spec fn swap_weight(max_block: Weight) -> Weight {
    (max_block / 50) as Weight
}

/// The cost estimate of a dispatched action: a hundredth of the block's
/// budget.
pub open spec fn dispatch_weight(max_block: Weight) -> Weight {
    (max_block / 100) as Weight
}

} // verus!
