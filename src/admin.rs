//! Operations reserved to the authority, and the two-step hand-over of the
//! authority itself.

use crate::address::Address;
use crate::error::MigaError;
use crate::events::{
    AuthorityTransferCompleted, AuthorityTransferInitiated, SaleStatusEvent, TreasuryUpdateEvent,
};
use crate::state::{AcceptAuthority, AdminOnly, Config};
use vstd::prelude::*;

verus! {

/// Where the authority stands: settled, or handed to a candidate that has
/// not yet accepted.
pub enum AuthorityState {
    Stable { authority: Address },
    PendingRotation { authority: Address, candidate: Address },
}

/// The authority state that record `c` encodes.
pub open spec fn authority_state(c: Config) -> AuthorityState {
    match c.pending_authority {
        None => AuthorityState::Stable { authority: c.authority },
        Some(candidate) => AuthorityState::PendingRotation { authority: c.authority, candidate },
    }
}

/// What `toggle_sale` by `signer` makes of record `c`.
pub open spec fn toggle_sale_outcome(signer: Address, c: Config) -> Result<Config, MigaError> {
    if signer != c.authority {
        Err(MigaError::Unauthorized)
    } else {
        Ok(Config { sale_active: !c.sale_active, ..c })
    }
}

/// What `update_treasury` by `signer` makes of record `c`.
pub open spec fn update_treasury_outcome(signer: Address, c: Config, new_treasury: Address) -> Result<
    Config,
    MigaError,
> {
    if signer != c.authority {
        Err(MigaError::Unauthorized)
    } else if new_treasury.is_null() {
        Err(MigaError::InvalidAddress)
    } else {
        Ok(Config { treasury: new_treasury, ..c })
    }
}

/// What `transfer_authority` by `signer` makes of record `c`.
pub open spec fn transfer_authority_outcome(signer: Address, c: Config, candidate: Address) -> Result<
    Config,
    MigaError,
> {
    if signer != c.authority {
        Err(MigaError::Unauthorized)
    } else if candidate.is_null() {
        Err(MigaError::InvalidAddress)
    } else {
        Ok(Config { pending_authority: Some(candidate), ..c })
    }
}

/// What `accept_authority` by `signer` makes of record `c`.
pub open spec fn accept_authority_outcome(signer: Address, c: Config) -> Result<Config, MigaError> {
    if c.pending_authority != Some(signer) {
        Err(MigaError::Unauthorized)
    } else {
        Ok(Config { authority: signer, pending_authority: None, ..c })
    }
}

/// Flips whether purchases are accepted.
pub fn toggle_sale(ctx: &mut AdminOnly, timestamp: i64) -> (r: Result<SaleStatusEvent, MigaError>)
    ensures
        final(ctx).authority == old(ctx).authority,
        match toggle_sale_outcome(old(ctx).authority, old(ctx).config) {
            Ok(c) => final(ctx).config == c && r == Ok::<SaleStatusEvent, MigaError>(
                SaleStatusEvent { active: c.sale_active, authority: old(ctx).authority, timestamp },
            ),
            Err(e) => r == Err::<SaleStatusEvent, MigaError>(e) && final(ctx).config == old(
                ctx,
            ).config,
        },
{
    if ctx.authority != ctx.config.authority {
        return Err(MigaError::Unauthorized);
    }
    ctx.config.sale_active = !ctx.config.sale_active;
    Ok(SaleStatusEvent { active: ctx.config.sale_active, authority: ctx.authority, timestamp })
}

/// Points payments at a new treasury; the all-zero address is refused.
pub fn update_treasury(ctx: &mut AdminOnly, new_treasury: Address, timestamp: i64) -> (r: Result<
    TreasuryUpdateEvent,
    MigaError,
>)
    ensures
        final(ctx).authority == old(ctx).authority,
        match update_treasury_outcome(old(ctx).authority, old(ctx).config, new_treasury) {
            Ok(c) => final(ctx).config == c && r == Ok::<TreasuryUpdateEvent, MigaError>(
                TreasuryUpdateEvent {
                    old_treasury: old(ctx).config.treasury,
                    new_treasury,
                    authority: old(ctx).authority,
                    timestamp,
                },
            ),
            Err(e) => r == Err::<TreasuryUpdateEvent, MigaError>(e) && final(ctx).config == old(
                ctx,
            ).config,
        },
{
    if ctx.authority != ctx.config.authority {
        return Err(MigaError::Unauthorized);
    }
    if new_treasury.is_default() {
        return Err(MigaError::InvalidAddress);
    }
    let old_treasury = ctx.config.treasury;
    ctx.config.treasury = new_treasury;
    Ok(TreasuryUpdateEvent { old_treasury, new_treasury, authority: ctx.authority, timestamp })
}

/// Names a candidate for the authority. The authority does not change until
/// the candidate accepts; a later call replaces the candidate.
pub fn transfer_authority(ctx: &mut AdminOnly, new_authority: Address, timestamp: i64) -> (r: Result<
    AuthorityTransferInitiated,
    MigaError,
>)
    ensures
        final(ctx).authority == old(ctx).authority,
        match transfer_authority_outcome(old(ctx).authority, old(ctx).config, new_authority) {
            Ok(c) => final(ctx).config == c && r == Ok::<AuthorityTransferInitiated, MigaError>(
                AuthorityTransferInitiated {
                    current_authority: old(ctx).authority,
                    pending_authority: new_authority,
                    timestamp,
                },
            ),
            Err(e) => r == Err::<AuthorityTransferInitiated, MigaError>(e) && final(ctx).config
                == old(ctx).config,
        },
{
    if ctx.authority != ctx.config.authority {
        return Err(MigaError::Unauthorized);
    }
    if new_authority.is_default() {
        return Err(MigaError::InvalidAddress);
    }
    ctx.config.pending_authority = Some(new_authority);
    Ok(
        AuthorityTransferInitiated {
            current_authority: ctx.authority,
            pending_authority: new_authority,
            timestamp,
        },
    )
}

/// The candidate takes over the authority; anyone else is refused.
pub fn accept_authority(ctx: &mut AcceptAuthority, timestamp: i64) -> (r: Result<
    AuthorityTransferCompleted,
    MigaError,
>)
    ensures
        final(ctx).new_authority == old(ctx).new_authority,
        match accept_authority_outcome(old(ctx).new_authority, old(ctx).config) {
            Ok(c) => final(ctx).config == c && r == Ok::<AuthorityTransferCompleted, MigaError>(
                AuthorityTransferCompleted {
                    old_authority: old(ctx).config.authority,
                    new_authority: old(ctx).new_authority,
                    timestamp,
                },
            ),
            Err(e) => r == Err::<AuthorityTransferCompleted, MigaError>(e) && final(ctx).config
                == old(ctx).config,
        },
{
    let matches = match ctx.config.pending_authority {
        Some(candidate) => candidate == ctx.new_authority,
        None => false,
    };
    if !matches {
        return Err(MigaError::Unauthorized);
    }
    let old_authority = ctx.config.authority;
    ctx.config.authority = ctx.new_authority;
    ctx.config.pending_authority = None;
    Ok(
        AuthorityTransferCompleted {
            old_authority,
            new_authority: ctx.config.authority,
            timestamp,
        },
    )
}

/// Record `c` after `a` names `b` as candidate and `b` accepts.
pub open spec fn handed_over(c: Config, a: Address, b: Address) -> Config {
    accept_authority_outcome(b, transfer_authority_outcome(a, c, b)->Ok_0)->Ok_0
}

/// The hand-over from `a` to `b`: once `a` names `b`, an acceptance by any
/// other identity is refused and changes nothing; the acceptance by `b`
/// makes `b` the authority, after which the administrative operations are
/// open to `b` and to no one else.
pub proof fn lemma_authority_rotation(c: Config, a: Address, b: Address, other: Address)
    requires
        c.authority == a,
        !b.is_null(),
        other != b,
    ensures
        ({
            let pending = transfer_authority_outcome(a, c, b);
            &&& pending is Ok
            &&& c.authority == pending->Ok_0.authority
            &&& authority_state(pending->Ok_0) == (AuthorityState::PendingRotation {
                authority: a,
                candidate: b,
            })
            &&& accept_authority_outcome(other, pending->Ok_0) == Err::<Config, MigaError>(
                MigaError::Unauthorized,
            )
            &&& accept_authority_outcome(b, pending->Ok_0) is Ok
            &&& authority_state(accept_authority_outcome(b, pending->Ok_0)->Ok_0) == (
            AuthorityState::Stable { authority: b })
            &&& handed_over(c, a, b) == accept_authority_outcome(b, pending->Ok_0)->Ok_0
            &&& forall|signer: Address|
                {
                    &&& (#[trigger] toggle_sale_outcome(signer, handed_over(c, a, b)) is Ok
                        <==> signer == b)
                    &&& (transfer_authority_outcome(signer, handed_over(c, a, b), b) is Ok
                        <==> signer == b)
                    &&& (update_treasury_outcome(signer, handed_over(c, a, b), b) is Ok
                        <==> signer == b)
                }
        }),
{
}

} // verus!
