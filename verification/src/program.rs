//! The operations of the proxy system, one function for each kind of
//! request.

use vstd::prelude::*;
use crate::address::Address;
use crate::authority::{aa_account_label, label};
use crate::context::{
    Context,
    ControlAAAccount,
    CreatePDAAccount,
    InitializeProxyAccount,
    InspectPDAAccount,
    InteractWithApplication,
};
use crate::control::{authorize, control_outcome, dispatch};
use crate::derivation::{derived_address, on_curve};
use crate::error::ProxyError;
use crate::layout::has_pda_account_layout;
use crate::state::{Account, PDAAccount, MAX_AA_ACCOUNTS};
use crate::transfer::{Transfer, TransferView};

verus! {

/// Sets up the registry of the request: the requester becomes its owner and
/// it has created no managed account yet. Anyone may create a registry.
pub fn initialize_proxy_account(ctx: &mut Context<InitializeProxyAccount>) -> (r: Result<
    (),
    ProxyError,
>)
    ensures
        r == Ok::<(), ProxyError>(()),
        final(ctx).accounts.proxy_account.data.owner == old(ctx).accounts.deployer,
        final(ctx).accounts.proxy_account.data.aa_accounts@ == Seq::<Address>::empty(),
        final(ctx).accounts.proxy_account.data.wf(),
        final(ctx).accounts.proxy_account.key == old(ctx).accounts.proxy_account.key,
        final(ctx).accounts.deployer == old(ctx).accounts.deployer,
        final(ctx).program_id == old(ctx).program_id,
{
    ctx.accounts.proxy_account.data.aa_accounts = Vec::new();
    ctx.accounts.proxy_account.data.owner = ctx.accounts.deployer;
    Ok(())
}

/// What comes of a request to create a managed account under the salt
/// `bump`: the new account's address, or the reason for refusing. A full
/// registry is refused whatever the salt.
pub open spec fn create_outcome(ctx: Context<CreatePDAAccount>, bump: u8) -> Result<
    Seq<u8>,
    ProxyError,
> {
    if ctx.accounts.proxy_account.data.is_full() {
        Err(ProxyError::CapacityExceeded)
    } else {
        match derived_address(
            ctx.program_id@,
            ctx.accounts.proxy_account.key@,
            aa_account_label(),
            bump,
        ) {
            None => Err(ProxyError::DerivationFailure),
            Some(a) => Ok(a),
        }
    }
}

/// A registry that is full takes no further managed account, whatever the
/// salt: the request is refused with `CapacityExceeded`.
pub proof fn lemma_full_registry_refuses(ctx: Context<CreatePDAAccount>, bump: u8)
    requires
        ctx.accounts.proxy_account.data.aa_accounts@.len() >= MAX_AA_ACCOUNTS,
    ensures
        create_outcome(ctx, bump) == Err::<Seq<u8>, ProxyError>(ProxyError::CapacityExceeded),
{
}

/// Creates a managed account of the request's registry: derives its address
/// from the registry's address, the fixed label and the salt `bump`, sets up
/// its record with the proxy system as controller and `bump` as control
/// proof, and appends the address to the registry's list. A refused request
/// changes nothing.
pub fn create_pda_aa_account(ctx: &mut Context<CreatePDAAccount>, bump: u8) -> (r: Result<
    (),
    ProxyError,
>)
    ensures
        match create_outcome(*old(ctx), bump) {
            Err(e) => r == Err::<(), ProxyError>(e) && *final(ctx) == *old(ctx),
            Ok(a) => {
                &&& r == Ok::<(), ProxyError>(())
                &&& final(ctx).accounts.pda_account.key@ == a
                &&& !on_curve(a)
                &&& final(ctx).accounts.pda_account.data == (PDAAccount {
                    bump,
                    owner: old(ctx).program_id,
                })
                &&& final(ctx).accounts.proxy_account.data.aa_accounts@ == old(
                    ctx,
                ).accounts.proxy_account.data.aa_accounts@.push(final(ctx).accounts.pda_account.key)
                &&& final(ctx).accounts.proxy_account.data.owner == old(
                    ctx,
                ).accounts.proxy_account.data.owner
                &&& final(ctx).accounts.proxy_account.data.wf()
                &&& final(ctx).accounts.proxy_account.key == old(ctx).accounts.proxy_account.key
                &&& final(ctx).program_id == old(ctx).program_id
            },
        },
{
    if !ctx.accounts.proxy_account.data.has_room() {
        return Err(ProxyError::CapacityExceeded);
    }
    let label = label();
    let key = match crate::derivation::derive(
        &ctx.program_id,
        &ctx.accounts.proxy_account.key,
        label.as_slice(),
        bump,
    ) {
        Ok(key) => key,
        Err(e) => {
            return Err(e);
        },
    };
    match ctx.accounts.proxy_account.data.append(key) {
        Ok(()) => {
            ctx.accounts.pda_account = Account {
                key,
                data: PDAAccount { bump, owner: ctx.program_id },
            };
            Ok(())
        },
        Err(e) => Err(e),
    }
}

/// Serves a request to move value out of a managed account: the guard first,
/// then the dispatcher. Hands back the one transfer to perform, or the
/// reason why there is none.
pub fn control_aa_account(ctx: &Context<ControlAAAccount>, amount: u64, action: u8) -> (r: Result<
    Transfer,
    ProxyError,
>)
    ensures
        match r {
            Ok(t) => control_outcome(*ctx, amount, action) == Ok::<TransferView, ProxyError>(t@),
            Err(e) => control_outcome(*ctx, amount, action) == Err::<TransferView, ProxyError>(e),
        },
{
    match authorize(ctx, action) {
        Ok(()) => dispatch(ctx, amount, action),
        Err(e) => Err(e),
    }
}

/// The place where requests addressed to other applications will be served.
/// Nothing is defined for them yet: the request is accepted and nothing
/// happens.
pub fn interact_with_application(ctx: &Context<InteractWithApplication>, aa_account: Address) -> (r:
    Result<(), ProxyError>)
    ensures
        r == Ok::<(), ProxyError>(()),
{
    Ok(())
}

/// Reads the record of a managed account back from the bytes stored at its
/// address, and hands out the control proof and the controller found there.
/// Needs no authorisation: it changes nothing, and the control proof is no
/// secret.
pub fn inspect_pda_account(ctx: &Context<InspectPDAAccount>) -> (r: Result<PDAAccount, ProxyError>)
    ensures
        match r {
            Ok(record) => record.is_stored_in(ctx.accounts.pda_account.data@),
            Err(e) => e == ProxyError::DeserializationError && !has_pda_account_layout(
                ctx.accounts.pda_account.data@,
            ),
        },
{
    PDAAccount::try_deserialize(ctx.accounts.pda_account.data.as_slice())
}

} // verus!
