//! What holds of the gallery in every state, proved from the model.

use vstd::prelude::*;
use crate::events::Event;
use crate::model::GalleryView;
use crate::plan::{LedgerCall, OfferChange, Plan, RegistryCall};
use crate::types::{AccountId, Balance, ClassId, Error, Origin, ReportReason, TokenId};

verus! {

/// A frozen token cannot be transferred, sold or burned: whoever calls and
/// whatever the registry answers, none of the three actions yields a plan.
/// The refusal is `TokenFrozen` exactly for the callers that pass the checks
/// which come before the freeze: the token's owner for a transfer or a sale,
/// the curator or the owner of an existing collection for a burn. Any other
/// caller is refused for its own reason first.
pub proof fn frozen_token_stays_put(
    g: GalleryView,
    class: ClassId,
    token: TokenId,
    origin: Origin,
    recipient: AccountId,
    bidder: AccountId,
    owner: Option<AccountId>,
    class_owner: Option<AccountId>,
)
    requires
        g.frozen(class, token),
    ensures
        g.transfer(origin, class, token, recipient, owner) is Err,
        g.accept_offer(origin, class, token, bidder, owner) is Err,
        g.burn(origin, class, token, class_owner) is Err,
        g.transfer(origin, class, token, recipient, owner) == Err::<Plan, Error>(Error::TokenFrozen)
            <==> origin.signer() is Some && owner == origin.signer(),
        g.accept_offer(origin, class, token, bidder, owner) == Err::<Plan, Error>(Error::TokenFrozen)
            <==> origin.signer() is Some && owner == origin.signer(),
        g.burn(origin, class, token, class_owner) == Err::<Plan, Error>(Error::TokenFrozen)
            <==> origin.signer() is Some && class_owner is Some && (origin.signer() == Some(
            g.curator,
        ) || class_owner == origin.signer()),
{
}

/// A frozen token cannot be committed to a second swap: `reserve` fails,
/// whoever the source is and whatever the registry answers, and leaves the
/// gallery as it was. For the token's owner the refusal is `TokenFrozen`.
pub proof fn frozen_token_is_not_reserved_again(
    g: GalleryView,
    class: ClassId,
    token: TokenId,
    source: AccountId,
    owner: Option<AccountId>,
)
    requires
        g.frozen(class, token),
    ensures
        g.reserve(class, token, source, owner).1 is Err,
        g.reserve(class, token, source, owner).0 == g,
        g.reserve(class, token, source, owner).1 == Err::<(), Error>(Error::TokenFrozen) <==> owner
            == Some(source),
{
}

/// No token stays locked for good: once its owner's swap is cancelled, the
/// owner can commit the token to a new swap, in whatever state the gallery
/// was before.
pub proof fn cancel_then_reserve_succeeds(
    g: GalleryView,
    class: ClassId,
    token: TokenId,
    owner: AccountId,
)
    ensures
        !g.cancel(class, token, owner, Some(owner)).frozen(class, token),
        g.cancel(class, token, owner, Some(owner)).reserve(class, token, owner, Some(owner)).1 == Ok::<
            (),
            Error,
        >(()),
        g.cancel(class, token, owner, Some(owner)).reserve(class, token, owner, Some(owner)).0.frozen(
            class,
            token,
        ),
{
}

/// A successful `reserve` freezes the token it names and touches no other
/// token's record; `cancel` unfreezes at most the token it names.
pub proof fn swap_touches_its_token_only(
    g: GalleryView,
    class: ClassId,
    token: TokenId,
    source: AccountId,
    owner: Option<AccountId>,
    other_class: ClassId,
    other_token: TokenId,
)
    requires
        (other_class, other_token) != (class, token),
    ensures
        g.reserve(class, token, source, owner).1 is Ok ==> g.reserve(
            class,
            token,
            source,
            owner,
        ).0.frozen(class, token),
        g.reserve(class, token, source, owner).0.info(other_class, other_token) == g.info(
            other_class,
            other_token,
        ),
        g.cancel(class, token, source, owner).info(other_class, other_token) == g.info(
            other_class,
            other_token,
        ),
{
}

/// An offer that is made and then withdrawn by the same bidder releases
/// what it reserved: the ledger is asked to unreserve for the bidder the very
/// amount it was asked to reserve, and the bidder has no offer on the token
/// afterward. The token must exist, since the withdrawal names its owner.
pub proof fn offer_round_trip(
    g: GalleryView,
    bidder: AccountId,
    class: ClassId,
    token: TokenId,
    price: Balance,
    owner: AccountId,
)
    ensures
        ({
            let made = GalleryView::create_offer(Origin::Signed(bidder), class, token, price);
            let standing = g.settle(made->Ok_0);
            let withdrawn = standing.cancel_offer(Origin::Signed(bidder), class, token, Some(owner));
            let after = standing.settle(withdrawn->Ok_0);
            &&& made is Ok
            &&& made->Ok_0.ledger == Some(LedgerCall::Reserve { who: bidder, amount: price })
            &&& made->Ok_0.registry is None
            &&& standing.offer(class, token, bidder) == Some(price)
            &&& withdrawn is Ok
            &&& withdrawn->Ok_0.ledger == Some(LedgerCall::Unreserve { who: bidder, amount: price })
            &&& withdrawn->Ok_0.registry is None
            &&& withdrawn->Ok_0.event == Event::OfferCanceled(class, token, owner, bidder)
            &&& after.offer(class, token, bidder) is None
            &&& after.offers == g.offers.remove((class, token, bidder))
            &&& after.infos == g.infos
            &&& after.curator == g.curator
        }),
{
    let made = GalleryView::create_offer(Origin::Signed(bidder), class, token, price);
    let standing = g.settle(made->Ok_0);
    let withdrawn = standing.cancel_offer(Origin::Signed(bidder), class, token, Some(owner));
    let after = standing.settle(withdrawn->Ok_0);
    assert(after.offers =~= g.offers.remove((class, token, bidder)));
}

/// An offer that is made and then accepted by the owner of the token, while
/// the token is not frozen, pays the seller what the bidder reserved and
/// hands the token over: the ledger is asked to move the offered price from
/// the bidder's reserve to the seller's free balance, the registry to
/// transfer the token from the seller to the bidder, and the bidder has no
/// offer on the token afterward.
pub proof fn offer_accepted(
    g: GalleryView,
    bidder: AccountId,
    seller: AccountId,
    class: ClassId,
    token: TokenId,
    price: Balance,
)
    requires
        !g.frozen(class, token),
    ensures
        ({
            let made = GalleryView::create_offer(Origin::Signed(bidder), class, token, price);
            let standing = g.settle(made->Ok_0);
            let sold = standing.accept_offer(
                Origin::Signed(seller),
                class,
                token,
                bidder,
                Some(seller),
            );
            let after = standing.settle(sold->Ok_0);
            &&& made is Ok
            &&& sold is Ok
            &&& sold->Ok_0.ledger == Some(
                LedgerCall::Repatriate { from: bidder, to: seller, amount: price },
            )
            &&& sold->Ok_0.registry == Some(
                RegistryCall::Transfer { from: seller, to: bidder, class, token },
            )
            &&& sold->Ok_0.offer == Some(OfferChange::Delete { class, token, bidder })
            &&& sold->Ok_0.event == Event::OfferAccepted(class, token, seller, bidder)
            &&& after.offer(class, token, bidder) is None
            &&& after.offers == g.offers.remove((class, token, bidder))
        }),
{
    let made = GalleryView::create_offer(Origin::Signed(bidder), class, token, price);
    let standing = g.settle(made->Ok_0);
    let sold = standing.accept_offer(Origin::Signed(seller), class, token, bidder, Some(seller));
    let after = standing.settle(sold->Ok_0);
    assert(after.offers =~= g.offers.remove((class, token, bidder)));
}

/// Offers of different bidders, or on different tokens, do not touch each
/// other: settling a plan of `create_offer`, `accept_offer` or
/// `cancel_offer` leaves every other offer as it stood.
pub proof fn offers_are_independent(
    g: GalleryView,
    plan: Plan,
    class: ClassId,
    token: TokenId,
    bidder: AccountId,
)
    requires
        match plan.offer {
            None => true,
            Some(OfferChange::Put { class: c, token: t, bidder: b, .. }) => (c, t, b) != (
                class,
                token,
                bidder,
            ),
            Some(OfferChange::Delete { class: c, token: t, bidder: b }) => (c, t, b) != (
                class,
                token,
                bidder,
            ),
        },
    ensures
        g.settle(plan).offer(class, token, bidder) == g.offer(class, token, bidder),
{
}

/// A report on an existing token by any signed caller sets the token's
/// report status to the reason given; the curator's acceptance sets it to
/// `Reported`, the curator's clearing to `Unreported`. The display flag and
/// the freeze are left as they were.
pub proof fn report_transitions(
    g: GalleryView,
    class: ClassId,
    token: TokenId,
    who: AccountId,
    owner: AccountId,
    reason: ReportReason,
)
    ensures
        ({
            let reported = g.report(Origin::Signed(who), class, token, reason, Some(owner));
            let accepted = g.accept_report(Origin::Signed(g.curator), class, token, Some(owner));
            let cleared = g.clear_report(Origin::Signed(g.curator), class, token, Some(owner));
            &&& reported.1 == Ok::<Event, Error>(Event::ReportReceived(class, token, reason))
            &&& reported.0.info(class, token).report == reason
            &&& accepted.1 == Ok::<Event, Error>(Event::ReportAccepted(class, token))
            &&& accepted.0.info(class, token).report == ReportReason::Reported
            &&& cleared.1 == Ok::<Event, Error>(Event::ReportCleared(class, token))
            &&& cleared.0.info(class, token).report == ReportReason::Unreported
            &&& reported.0.info(class, token).display_flag == g.info(class, token).display_flag
            &&& reported.0.info(class, token).frozen == g.info(class, token).frozen
            &&& accepted.0.info(class, token).display_flag == g.info(class, token).display_flag
            &&& accepted.0.info(class, token).frozen == g.info(class, token).frozen
            &&& cleared.0.info(class, token).display_flag == g.info(class, token).display_flag
            &&& cleared.0.info(class, token).frozen == g.info(class, token).frozen
        }),
{
}

/// Only the curator rules on reports: for every caller but the curator,
/// `accept_report` and `clear_report` fail and leave the gallery as it was.
/// A signed caller is told `NotCurator` if the token exists.
pub proof fn only_curator_rules(
    g: GalleryView,
    origin: Origin,
    class: ClassId,
    token: TokenId,
    owner: Option<AccountId>,
)
    requires
        origin != Origin::Signed(g.curator),
    ensures
        g.accept_report(origin, class, token, owner).0 == g,
        g.clear_report(origin, class, token, owner).0 == g,
        g.accept_report(origin, class, token, owner).1 is Err,
        g.clear_report(origin, class, token, owner).1 is Err,
        origin.signer() is Some && owner is Some ==> g.accept_report(origin, class, token, owner).1
            == Err::<Event, Error>(Error::NotCurator) && g.clear_report(
            origin,
            class,
            token,
            owner,
        ).1 == Err::<Event, Error>(Error::NotCurator),
{
}

/// An action that fails changes nothing.
pub proof fn failure_changes_nothing(
    g: GalleryView,
    origin: Origin,
    class: ClassId,
    token: TokenId,
    account: AccountId,
    reason: ReportReason,
    display: bool,
    owner: Option<AccountId>,
)
    ensures
        g.set_curator(origin, account).1 is Err ==> g.set_curator(origin, account).0 == g,
        g.report(origin, class, token, reason, owner).1 is Err ==> g.report(
            origin,
            class,
            token,
            reason,
            owner,
        ).0 == g,
        g.accept_report(origin, class, token, owner).1 is Err ==> g.accept_report(
            origin,
            class,
            token,
            owner,
        ).0 == g,
        g.clear_report(origin, class, token, owner).1 is Err ==> g.clear_report(
            origin,
            class,
            token,
            owner,
        ).0 == g,
        g.toggle_display(origin, class, token, display, owner).1 is Err ==> g.toggle_display(
            origin,
            class,
            token,
            display,
            owner,
        ).0 == g,
        g.reserve(class, token, account, owner).1 is Err ==> g.reserve(
            class,
            token,
            account,
            owner,
        ).0 == g,
{
}

/// Only the swap capability freezes and unfreezes: no dispatched action
/// and no settled plan changes the freeze of any token.
pub proof fn dispatch_keeps_freeze(
    g: GalleryView,
    origin: Origin,
    class: ClassId,
    token: TokenId,
    account: AccountId,
    reason: ReportReason,
    display: bool,
    owner: Option<AccountId>,
    plan: Plan,
    any_class: ClassId,
    any_token: TokenId,
)
    ensures
        g.set_curator(origin, account).0.frozen(any_class, any_token) == g.frozen(
            any_class,
            any_token,
        ),
        g.report(origin, class, token, reason, owner).0.frozen(any_class, any_token) == g.frozen(
            any_class,
            any_token,
        ),
        g.accept_report(origin, class, token, owner).0.frozen(any_class, any_token) == g.frozen(
            any_class,
            any_token,
        ),
        g.clear_report(origin, class, token, owner).0.frozen(any_class, any_token) == g.frozen(
            any_class,
            any_token,
        ),
        g.toggle_display(origin, class, token, display, owner).0.frozen(any_class, any_token)
            == g.frozen(any_class, any_token),
        g.settle(plan).frozen(any_class, any_token) == g.frozen(any_class, any_token),
{
}

} // verus!
