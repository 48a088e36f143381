//! The swap capability: what an atomic-swap engine calls to commit a token
//! to a swap, to hand it over when the swap completes, and to release it
//! when the swap falls through.

use vstd::prelude::*;
use crate::gallery::Gallery;
use crate::model::{swap_weight, GalleryView};
use crate::plan::RegistryCall;
use crate::types::{AccountId, ClassId, Error, TokenId, Weight};

verus! {

/// The token one side of a swap puts up.
#[derive(Clone, Copy, Debug, PartialEq, Eq)]
pub struct ChibaSwapAction {
    collection_id: ClassId,
    token_id: TokenId,
}

impl ChibaSwapAction {
    /// The swap action on the token.
    pub fn new(collection_id: ClassId, token_id: TokenId) -> (action: ChibaSwapAction)
        ensures
            action.collection_id() == collection_id,
            action.token_id() == token_id,
    {
        ChibaSwapAction { collection_id, token_id }
    }

    /// The token's collection.
    pub closed spec fn collection_id(self) -> ClassId {
        self.collection_id
    }

    /// The token within its collection.
    pub closed spec fn token_id(self) -> TokenId {
        self.token_id
    }

    /// The token's collection and the token within it.
    pub fn asset(&self) -> (asset: (ClassId, TokenId))
        ensures
            asset == (self.collection_id(), self.token_id()),
    {
        (self.collection_id, self.token_id)
    }

    /// Commits the token to a swap offered by `source`: freezes it. `owner`
    /// is the registry's answer for the token.
    ///
    /// Fails if the token does not exist, if `source` does not own it, or if
    /// it is frozen already: a frozen token belongs to another swap. A
    /// failure changes nothing.
    pub fn reserve(&self, gallery: &mut Gallery, source: AccountId, owner: Option<AccountId>) -> (r:
        Result<(), Error>)
        ensures
            (final(gallery)@, r) == old(gallery)@.reserve(
                self.collection_id(),
                self.token_id(),
                source,
                owner,
            ),
    {
        match owner {
            None => Err(Error::TokenNotFound),
            Some(owner) => {
                if owner != source {
                    return Err(Error::NotTokenOwner);
                }
                let mut info = gallery.infos.get(self.collection_id, self.token_id);
                if info.frozen {
                    return Err(Error::TokenFrozen);
                }
                info.frozen = true;
                gallery.infos.put(self.collection_id, self.token_id, info);
                Ok(())
            },
        }
    }

    /// Decides whether the token can go from `source` to `target` now that
    /// the swap completes. `owner` is the registry's answer for the token.
    ///
    /// Returns the transfer to ask of the registry if `source` still owns
    /// the token, `None` otherwise. The gallery is not touched: a claimed
    /// token stays frozen under its new owner until a swap of the new owner
    /// is cancelled.
    pub fn claim(&self, source: AccountId, target: AccountId, owner: Option<AccountId>) -> (call: Option<
        RegistryCall,
    >)
        ensures
            call == GalleryView::claim(
                self.collection_id(),
                self.token_id(),
                source,
                target,
                owner,
            ),
    {
        match owner {
            None => None,
            Some(owner) => {
                if owner == source {
                    Some(
                        RegistryCall::Transfer {
                            from: source,
                            to: target,
                            class: self.collection_id,
                            token: self.token_id,
                        },
                    )
                } else {
                    None
                }
            },
        }
    }

    /// Whether a claim succeeded. `outcome` is what became of the call that
    /// [`ChibaSwapAction::claim`] returned: `None` if it returned none, the
    /// registry's answer otherwise.
    ///
    /// A claim succeeds when the transfer was asked of the registry and the
    /// registry carried it out.
    pub fn claimed<E>(outcome: Option<Result<(), E>>) -> (success: bool)
        ensures
            success == (outcome matches Some(Ok(_))),
    {
        match outcome {
            Some(Ok(_)) => true,
            _ => false,
        }
    }

    /// Releases the token from a swap of `source` that fell through:
    /// unfreezes it. `owner` is the registry's answer for the token.
    ///
    /// Never fails: if the token is gone or `source` no longer owns it,
    /// nothing happens.
    pub fn cancel(&self, gallery: &mut Gallery, source: AccountId, owner: Option<AccountId>)
        ensures
            final(gallery)@ == old(gallery)@.cancel(
                self.collection_id(),
                self.token_id(),
                source,
                owner,
            ),
    {
        match owner {
            None => {},
            Some(owner) => {
                if owner == source {
                    let mut info = gallery.infos.get(self.collection_id, self.token_id);
                    info.frozen = false;
                    gallery.infos.put(self.collection_id, self.token_id, info);
                }
            },
        }
    }

    /// The cost estimate of the swap action, given the execution budget of
    /// a block: a fiftieth of it.
    pub fn weight(&self, max_block: Weight) -> (weight: Weight)
        ensures
            weight == swap_weight(max_block),
    {
        max_block / 50
    }
}

} // verus!
