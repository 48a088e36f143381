//! The moderation workflow: anyone may report a token, the curator rules on
//! the report.

use vstd::prelude::*;
use crate::events::Event;
use crate::gallery::Gallery;
use crate::types::{AccountId, ClassId, Error, Origin, ReportReason, TokenId};

verus! {

impl Gallery {
    /// Reports a token for `reason`. `owner` is what the registry answers
    /// when asked for the token's owner, `None` if it has no such token.
    ///
    /// Any signed caller may report. The reason replaces whatever report
    /// stood before; the rest of the token's record is kept.
    pub fn report(
        &mut self,
        origin: Origin,
        class: ClassId,
        token: TokenId,
        reason: ReportReason,
        owner: Option<AccountId>,
    ) -> (r: Result<Event, Error>)
        ensures
            (final(self)@, r) == old(self)@.report(origin, class, token, reason, owner),
    {
        let _ = origin.ensure_signed()?;
        if owner.is_none() {
            return Err(Error::TokenNotFound);
        }
        let mut info = self.infos.get(class, token);
        info.report = reason;
        self.infos.put(class, token, info);
        Ok(Event::ReportReceived(class, token, reason))
    }

    /// Writes the curator's verdict on an existing token and returns
    /// `event`.
    fn rule(
        &mut self,
        origin: Origin,
        class: ClassId,
        token: TokenId,
        owner: Option<AccountId>,
        verdict: ReportReason,
        event: Event,
    ) -> (r: Result<Event, Error>)
        ensures
            (final(self)@, r) == old(self)@.rule(origin, class, token, owner, verdict, event),
    {
        let who = origin.ensure_signed()?;
        if owner.is_none() {
            return Err(Error::TokenNotFound);
        }
        if who != self.curator {
            return Err(Error::NotCurator);
        }
        let mut info = self.infos.get(class, token);
        info.report = verdict;
        self.infos.put(class, token, info);
        Ok(event)
    }

    /// Confirms the report on a token: its report status becomes
    /// `Reported`, and stays so in the store. `owner` is the registry's
    /// answer for the token.
    ///
    /// Only the curator may; the token must exist.
    pub fn accept_report(
        &mut self,
        origin: Origin,
        class: ClassId,
        token: TokenId,
        owner: Option<AccountId>,
    ) -> (r: Result<Event, Error>)
        ensures
            (final(self)@, r) == old(self)@.accept_report(origin, class, token, owner),
    {
        self.rule(
            origin,
            class,
            token,
            owner,
            ReportReason::Reported,
            Event::ReportAccepted(class, token),
        )
    }

    /// Dismisses the report on a token: its report status becomes
    /// `Unreported`, and stays so in the store. `owner` is the registry's
    /// answer for the token.
    ///
    /// Only the curator may; the token must exist.
    pub fn clear_report(
        &mut self,
        origin: Origin,
        class: ClassId,
        token: TokenId,
        owner: Option<AccountId>,
    ) -> (r: Result<Event, Error>)
        ensures
            (final(self)@, r) == old(self)@.clear_report(origin, class, token, owner),
    {
        self.rule(
            origin,
            class,
            token,
            owner,
            ReportReason::Unreported,
            Event::ReportCleared(class, token),
        )
    }
}

} // verus!
