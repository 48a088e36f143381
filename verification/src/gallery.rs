//! The gallery's own state: the curator, the extended state store and the
//! offer book.

use vstd::prelude::*;
use vstd::std_specs::cmp::PartialEqSpecImpl;
use crate::events::Event;
use crate::model::{dispatch_weight, GalleryView};
use crate::offers::OfferBook;
use crate::plan::{OfferChange, Plan};
use crate::store::ExtendedStore;
use crate::types::{
    AccountId, Balance, ClassId, Error, ExtendedInfo, Origin, TokenId, Weight,
};

verus! {

/// The state of a gallery.
#[derive(Debug)]
pub struct Gallery {
    /// The account that rules on reports. The default account until the
    /// root authority names another.
    pub curator: AccountId,
    /// The side record of each token.
    pub infos: ExtendedStore,
    /// The standing offers.
    pub offers: OfferBook,
}

impl View for Gallery {
    type V = GalleryView;

    open spec fn view(&self) -> GalleryView {
        GalleryView { curator: self.curator, infos: self.infos@, offers: self.offers@ }
    }
}

impl Clone for Gallery {
    fn clone(&self) -> (copy: Gallery)
        ensures
            copy@ == self@,
    {
        Gallery { curator: self.curator, infos: self.infos.clone(), offers: self.offers.clone() }
    }
}

impl PartialEq for Gallery {
    /// Two galleries are equal when they have the same curator, the same
    /// records and the same offers.
    fn eq(&self, other: &Gallery) -> (same: bool) {
        let same = self.curator == other.curator && self.infos == other.infos && self.offers
            == other.offers;
        proof {
            if same {
                assert(self@ =~= other@);
            }
        }
        same
    }
}

impl PartialEqSpecImpl for Gallery {
    open spec fn obeys_eq_spec() -> bool {
        true
    }

    open spec fn eq_spec(&self, other: &Gallery) -> bool {
        self@ == other@
    }
}

impl Gallery {
    /// A gallery in which nothing has happened yet.
    pub fn new() -> (gallery: Gallery)
        ensures
            gallery@ == GalleryView::initial(),
    {
        Gallery { curator: 0, infos: ExtendedStore::new(), offers: OfferBook::new() }
    }

    /// The curator.
    pub fn curator(&self) -> (curator: AccountId)
        ensures
            curator == self@.curator,
    {
        self.curator
    }

    /// The side record written for the token, `None` if none was.
    pub fn token_extended_info(&self, class: ClassId, token: TokenId) -> (info: Option<ExtendedInfo>)
        ensures
            info == if self@.infos.contains_key((class, token)) {
                Some(self@.infos[(class, token)])
            } else {
                None
            },
    {
        self.infos.lookup(class, token)
    }

    /// The price the bidder has standing on the token, `None` if the bidder
    /// has no offer on it.
    pub fn offer(&self, class: ClassId, token: TokenId, bidder: AccountId) -> (price: Option<Balance>)
        ensures
            price == self@.offer(class, token, bidder),
    {
        self.offers.get(class, token, bidder)
    }

    /// Names the curator. Only the root authority may; any other origin is
    /// refused with `BadOrigin` and changes nothing.
    pub fn set_curator(&mut self, origin: Origin, curator: AccountId) -> (r: Result<(), Error>)
        ensures
            (final(self)@, r) == old(self)@.set_curator(origin, curator),
    {
        origin.ensure_root()?;
        self.curator = curator;
        Ok(())
    }

    /// Concludes a plan. `carried_out` is what became of the plan's calls:
    /// `Ok` if the collaborators did all of them, the error of the one that
    /// refused otherwise.
    ///
    /// After success the plan's change is in the offer book and the plan's
    /// event is returned. After a refusal the gallery is as it was and the
    /// collaborator's error is handed on as it came.
    pub fn settle<E>(&mut self, plan: Plan, carried_out: Result<(), E>) -> (r: Result<Event, E>)
        ensures
            match carried_out {
                Ok(_) => r == Ok::<Event, E>(plan.event) && final(self)@ == old(self)@.settle(plan),
                Err(error) => r == Err::<Event, E>(error) && final(self)@ == old(self)@,
            },
    {
        match carried_out {
            Err(error) => Err(error),
            Ok(_) => {
                match plan.offer {
                    None => {},
                    Some(OfferChange::Put { class, token, bidder, price }) => {
                        self.offers.insert(class, token, bidder, price);
                    },
                    Some(OfferChange::Delete { class, token, bidder }) => {
                        let _ = self.offers.remove(class, token, bidder);
                    },
                }
                Ok(plan.event)
            },
        }
    }

    /// The cost estimate of a dispatched action of the gallery, given the
    /// execution budget of a block: a hundredth of it.
    pub fn dispatch_weight(max_block: Weight) -> (weight: Weight)
        ensures
            weight == dispatch_weight(max_block),
    {
        max_block / 100
    }
}

} // verus!
