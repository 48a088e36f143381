//! Actions on collections and tokens: each checks the caller's authority
//! against what the registry reports, and leaves the deed itself to the
//! registry or the ledger.

use vstd::prelude::*;
use crate::events::Event;
use crate::gallery::Gallery;
use crate::model::GalleryView;
use crate::plan::{ClassRequest, LedgerCall, Plan, RegistryCall, TokenRequest};
use crate::types::{AccountId, Balance, ClassData, ClassId, Error, Origin, TokenData, TokenId};

verus! {

impl Gallery {
    /// Asks the registry for a new collection owned by the caller. Any
    /// signed caller may.
    ///
    /// The caller of this function carries the request out and hands the
    /// registry's answer to [`ClassRequest::created`].
    pub fn create_collection(origin: Origin, metadata: Vec<u8>, class_data: ClassData) -> (r: Result<
        ClassRequest,
        Error,
    >)
        ensures
            r == GalleryView::create_collection(origin, metadata, class_data),
    {
        let who = origin.ensure_signed()?;
        Ok(ClassRequest { owner: who, metadata, data: class_data })
    }

    /// Asks the registry for a new token in `class`, owned by the caller.
    /// `class_owner` is what the registry answers when asked for the owner
    /// of `class`, `None` if it has no such collection.
    ///
    /// Only the collection's owner may mint. The caller of this function
    /// carries the request out and hands the registry's answer to
    /// [`TokenRequest::minted`].
    pub fn mint(
        origin: Origin,
        class: ClassId,
        metadata: Vec<u8>,
        token_data: TokenData,
        class_owner: Option<AccountId>,
    ) -> (r: Result<TokenRequest, Error>)
        ensures
            r == GalleryView::mint(origin, class, metadata, token_data, class_owner),
    {
        let who = origin.ensure_signed()?;
        match class_owner {
            None => Err(Error::CollectionNotFound),
            Some(class_owner) => {
                if class_owner != who {
                    Err(Error::NotCollectionOwner)
                } else {
                    Ok(TokenRequest { owner: who, class, metadata, data: token_data })
                }
            },
        }
    }

    /// Pays `amount` from the caller's free balance straight to the owner
    /// of a token. `owner` is the registry's answer for the token, `free`
    /// the ledger's answer for the caller's free balance.
    ///
    /// Any signed caller may appreciate an existing token, with an amount up
    /// to its free balance. Nothing is held in reserve.
    pub fn appreciate(
        origin: Origin,
        class: ClassId,
        token: TokenId,
        amount: Balance,
        owner: Option<AccountId>,
        free: Balance,
    ) -> (r: Result<Plan, Error>)
        ensures
            r == GalleryView::appreciate(origin, class, token, amount, owner, free),
    {
        let who = origin.ensure_signed()?;
        match owner {
            None => Err(Error::TokenNotFound),
            Some(owner) => {
                if free < amount {
                    Err(Error::LowBalance)
                } else {
                    Ok(
                        Plan {
                            ledger: Some(LedgerCall::Transfer { from: who, to: owner, amount }),
                            registry: None,
                            offer: None,
                            event: Event::TokenAppreciated(class, token, amount),
                        },
                    )
                }
            },
        }
    }

    /// Sets the display flag of a token and keeps the rest of its record.
    /// `owner` is the registry's answer for the token.
    ///
    /// Only the token's owner may.
    pub fn toggle_display(
        &mut self,
        origin: Origin,
        class: ClassId,
        token: TokenId,
        display: bool,
        owner: Option<AccountId>,
    ) -> (r: Result<Event, Error>)
        ensures
            (final(self)@, r) == old(self)@.toggle_display(origin, class, token, display, owner),
    {
        let who = origin.ensure_signed()?;
        match owner {
            None => Err(Error::TokenNotFound),
            Some(owner) => {
                if owner != who {
                    Err(Error::NotTokenOwner)
                } else {
                    let mut info = self.infos.get(class, token);
                    info.display_flag = display;
                    self.infos.put(class, token, info);
                    Ok(Event::TokenDisplayToggled(class, token, display))
                }
            },
        }
    }

    /// Plans the transfer of a token from the caller to `recipient`.
    /// `owner` is the registry's answer for the token.
    ///
    /// Only the token's owner may transfer it, and only while it is not
    /// frozen: the freeze is looked at after the ownership and before
    /// anything is asked of the registry.
    pub fn transfer(
        &self,
        origin: Origin,
        class: ClassId,
        token: TokenId,
        recipient: AccountId,
        owner: Option<AccountId>,
    ) -> (r: Result<Plan, Error>)
        ensures
            r == self@.transfer(origin, class, token, recipient, owner),
    {
        let who = origin.ensure_signed()?;
        match owner {
            None => Err(Error::TokenNotFound),
            Some(owner) => {
                if owner != who {
                    Err(Error::NotTokenOwner)
                } else if self.infos.get(class, token).frozen {
                    Err(Error::TokenFrozen)
                } else {
                    Ok(
                        Plan {
                            ledger: None,
                            registry: Some(
                                RegistryCall::Transfer { from: who, to: recipient, class, token },
                            ),
                            offer: None,
                            event: Event::TokenTransferred(class, token, recipient),
                        },
                    )
                }
            },
        }
    }

    /// Plans the burning of a token. `class_owner` is the registry's answer
    /// for the owner of the token's collection.
    ///
    /// Only the curator and the collection's owner may burn, and only while
    /// the token is not frozen.
    pub fn burn(&self, origin: Origin, class: ClassId, token: TokenId, class_owner: Option<AccountId>) -> (r:
        Result<Plan, Error>)
        ensures
            r == self@.burn(origin, class, token, class_owner),
    {
        let who = origin.ensure_signed()?;
        match class_owner {
            None => Err(Error::CollectionNotFound),
            Some(class_owner) => {
                if who != self.curator && class_owner != who {
                    Err(Error::NotCollectionOwnerOrCurator)
                } else if self.infos.get(class, token).frozen {
                    Err(Error::TokenFrozen)
                } else {
                    Ok(
                        Plan {
                            ledger: None,
                            registry: Some(RegistryCall::Burn { owner: who, class, token }),
                            offer: None,
                            event: Event::TokenBurned(class, token),
                        },
                    )
                }
            },
        }
    }
}

} // verus!
