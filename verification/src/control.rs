//! The authorisation guard and the transfer dispatcher.
//!
//! The guard looks at three things and nothing else: who asks, who controls
//! the managed account, and, for a token transfer, who has authority over the
//! token account that tokens leave. Destinations are not examined here: the
//! ledger's transfer primitives judge them, so the guard does not protect
//! against a destination that the requester chose badly.

use vstd::prelude::*;
use crate::authority::{authority_of, prove_authority};
use crate::context::{Context, ControlAAAccount};
use crate::error::ProxyError;
use crate::transfer::{
    system_transfer_instruction,
    Transfer,
    TransferView,
    ACTION_NATIVE,
    ACTION_TOKEN,
};

verus! {

/// What the guard decides for a request with the action code `action`. The
/// checks run in this order and the first that fails decides.
pub open spec fn authorization(ctx: Context<ControlAAAccount>, action: u8) -> Result<
    (),
    ProxyError,
> {
    if ctx.accounts.deployer != ctx.accounts.proxy_account.data.owner {
        Err(ProxyError::NotOwner)
    } else if ctx.accounts.pda_account.data.owner != ctx.program_id {
        Err(ProxyError::NotControlled)
    } else if action == ACTION_TOKEN && ctx.accounts.from_token_account.data.owner
        != ctx.program_id {
        Err(ProxyError::NotControlled)
    } else {
        Ok(())
    }
}

/// What the dispatcher hands out for an authorised request.
pub open spec fn dispatch_outcome(
    ctx: Context<ControlAAAccount>,
    amount: u64,
    action: u8,
) -> Result<TransferView, ProxyError> {
    let signer = authority_of(ctx.accounts.proxy_account.key, ctx.accounts.pda_account.data);
    if action == ACTION_NATIVE {
        Ok(
            TransferView::Native {
                instruction: system_transfer_instruction(
                    ctx.accounts.pda_account.key,
                    ctx.accounts.to_account,
                    amount,
                ),
                signer,
            },
        )
    } else if action == ACTION_TOKEN {
        Ok(
            TransferView::Token {
                from: ctx.accounts.from_token_account.key,
                to: ctx.accounts.to_token_account.key,
                authority: ctx.accounts.pda_account.key,
                amount,
                signer,
            },
        )
    } else {
        Err(ProxyError::InvalidActionCode)
    }
}

/// What a request to move value comes to: the guard's refusal, or else what
/// the dispatcher hands out.
pub open spec fn control_outcome(
    ctx: Context<ControlAAAccount>,
    amount: u64,
    action: u8,
) -> Result<TransferView, ProxyError> {
    match authorization(ctx, action) {
        Err(e) => Err(e),
        Ok(_) => dispatch_outcome(ctx, amount, action),
    }
}

/// The guard: is the requester the registry's owner, is the managed account
/// under the proxy's control and, for a token transfer, is the proxy the
/// authority of the token account that tokens leave?
pub fn authorize(ctx: &Context<ControlAAAccount>, action: u8) -> (r: Result<(), ProxyError>)
    ensures
        r == authorization(*ctx, action),
{
    if !ctx.accounts.deployer.same(&ctx.accounts.proxy_account.data.owner) {
        return Err(ProxyError::NotOwner);
    }
    if !ctx.accounts.pda_account.data.is_controlled_by(&ctx.program_id) {
        return Err(ProxyError::NotControlled);
    }
    if action == ACTION_TOKEN && !ctx.accounts.from_token_account.data.owner.same(
        &ctx.program_id,
    ) {
        return Err(ProxyError::NotControlled);
    }
    Ok(())
}

/// The dispatcher: picks the kind of transfer by the action code and hands
/// out that one transfer, with the capability proof of the managed account
/// in the signing slot. The request must have passed the guard.
pub fn dispatch(ctx: &Context<ControlAAAccount>, amount: u64, action: u8) -> (r: Result<
    Transfer,
    ProxyError,
>)
    requires
        authorization(*ctx, action) is Ok,
    ensures
        match r {
            Ok(t) => dispatch_outcome(*ctx, amount, action) == Ok::<TransferView, ProxyError>(t@),
            Err(e) => dispatch_outcome(*ctx, amount, action) == Err::<TransferView, ProxyError>(e),
        },
{
    if action == ACTION_NATIVE {
        let signer = prove_authority(
            &ctx.accounts.proxy_account.key,
            &ctx.accounts.pda_account.data,
        );
        Ok(
            Transfer::native(
                &ctx.accounts.pda_account.key,
                &ctx.accounts.to_account,
                amount,
                signer,
            ),
        )
    } else if action == ACTION_TOKEN {
        let signer = prove_authority(
            &ctx.accounts.proxy_account.key,
            &ctx.accounts.pda_account.data,
        );
        Ok(
            Transfer::token(
                &ctx.accounts.from_token_account.key,
                &ctx.accounts.to_token_account.key,
                &ctx.accounts.pda_account.key,
                amount,
                signer,
            ),
        )
    } else {
        Err(ProxyError::InvalidActionCode)
    }
}

/// A request from anyone but the registry's owner is refused with
/// `NotOwner`, and no transfer comes of it.
pub proof fn lemma_only_the_owner_controls(ctx: Context<ControlAAAccount>, amount: u64, action: u8)
    requires
        ctx.accounts.deployer != ctx.accounts.proxy_account.data.owner,
    ensures
        control_outcome(ctx, amount, action) == Err::<TransferView, ProxyError>(
            ProxyError::NotOwner,
        ),
{
}

/// No request moves value out of an account that the proxy does not
/// control, whoever asks.
pub proof fn lemma_uncontrolled_account_never_transfers(
    ctx: Context<ControlAAAccount>,
    amount: u64,
    action: u8,
)
    requires
        ctx.accounts.pda_account.data.owner != ctx.program_id,
    ensures
        control_outcome(ctx, amount, action) is Err,
{
}

/// The owner's request against an account that the proxy does not control
/// is refused with `NotControlled`.
pub proof fn lemma_uncontrolled_account_is_not_controlled(
    ctx: Context<ControlAAAccount>,
    amount: u64,
    action: u8,
)
    requires
        ctx.accounts.pda_account.data.owner != ctx.program_id,
        ctx.accounts.deployer == ctx.accounts.proxy_account.data.owner,
    ensures
        control_outcome(ctx, amount, action) == Err::<TransferView, ProxyError>(
            ProxyError::NotControlled,
        ),
{
}

/// The owner's request for a token transfer out of a token account whose
/// authority is not the proxy is refused with `NotControlled`.
pub proof fn lemma_foreign_token_source_is_not_controlled(
    ctx: Context<ControlAAAccount>,
    amount: u64,
)
    requires
        ctx.accounts.from_token_account.data.owner != ctx.program_id,
        ctx.accounts.deployer == ctx.accounts.proxy_account.data.owner,
    ensures
        control_outcome(ctx, amount, ACTION_TOKEN) == Err::<TransferView, ProxyError>(
            ProxyError::NotControlled,
        ),
{
}

/// An action code other than the two known ones never leads to a transfer:
/// the dispatcher answers it with `InvalidActionCode`, and so does the whole
/// request once it has passed the guard.
pub proof fn lemma_unknown_action_never_transfers(
    ctx: Context<ControlAAAccount>,
    amount: u64,
    action: u8,
)
    requires
        action != ACTION_NATIVE,
        action != ACTION_TOKEN,
    ensures
        dispatch_outcome(ctx, amount, action) == Err::<TransferView, ProxyError>(
            ProxyError::InvalidActionCode,
        ),
        control_outcome(ctx, amount, action) is Err,
        authorization(ctx, action) is Ok ==> control_outcome(ctx, amount, action) == Err::<
            TransferView,
            ProxyError,
        >(ProxyError::InvalidActionCode),
{
}

/// The owner's request for a native transfer out of an account that the
/// proxy controls leads to exactly one transfer: of the amount named, out of
/// the managed account, to the destination named, with the account's
/// capability proof in the signing slot.
pub proof fn lemma_owner_moves_native_asset(ctx: Context<ControlAAAccount>, amount: u64)
    requires
        ctx.accounts.deployer == ctx.accounts.proxy_account.data.owner,
        ctx.accounts.pda_account.data.owner == ctx.program_id,
    ensures
        control_outcome(ctx, amount, ACTION_NATIVE) == Ok::<TransferView, ProxyError>(
            TransferView::Native {
                instruction: system_transfer_instruction(
                    ctx.accounts.pda_account.key,
                    ctx.accounts.to_account,
                    amount,
                ),
                signer: authority_of(
                    ctx.accounts.proxy_account.key,
                    ctx.accounts.pda_account.data,
                ),
            },
        ),
{
}

/// The owner's request for a token transfer, where the proxy controls the
/// managed account and is the authority of the token account that tokens
/// leave, leads to exactly one transfer: of the amount named, between the
/// token accounts named, permitted by the managed account.
pub proof fn lemma_owner_moves_tokens(ctx: Context<ControlAAAccount>, amount: u64)
    requires
        ctx.accounts.deployer == ctx.accounts.proxy_account.data.owner,
        ctx.accounts.pda_account.data.owner == ctx.program_id,
        ctx.accounts.from_token_account.data.owner == ctx.program_id,
    ensures
        control_outcome(ctx, amount, ACTION_TOKEN) == Ok::<TransferView, ProxyError>(
            TransferView::Token {
                from: ctx.accounts.from_token_account.key,
                to: ctx.accounts.to_token_account.key,
                authority: ctx.accounts.pda_account.key,
                amount,
                signer: authority_of(
                    ctx.accounts.proxy_account.key,
                    ctx.accounts.pda_account.data,
                ),
            },
        ),
{
}

} // verus!
