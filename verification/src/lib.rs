//! A moderated gallery of digital collectibles.
//!
//! The gallery keeps, for every token of an asset registry, a side record
//! (display flag, report status, freeze flag), a book of pre-funded offers,
//! and the curator who moderates reports. Tokens and balances themselves live
//! with two collaborators, the registry and the ledger: every action here
//! takes what the collaborators answered as plain values and hands back what
//! they are asked to do next.

pub mod events;
pub mod gallery;
pub mod laws;
pub mod market;
pub mod model;
pub mod moderation;
pub mod offers;
pub mod plan;
pub mod store;
pub mod swap;
pub mod tokens;
pub mod types;

pub use events::Event;
pub use gallery::Gallery;
pub use model::GalleryView;
pub use offers::{OfferBook, OfferKey};
pub use plan::{ClassRequest, LedgerCall, OfferChange, Plan, RegistryCall, TokenRequest};
pub use store::ExtendedStore;
pub use swap::ChibaSwapAction;
pub use types::{
    AccountId, Balance, ClassData, ClassId, Error, ExtendedInfo, Origin, ReportReason, TokenData,
    TokenId, Weight,
};
