use vstd::prelude::*;

use crate::errors::AmmError;
use crate::keys::Pubkey;
use solana_program_error::ProgramError;
use spl_token_2022_interface::extension::transfer_hook::TransferHook;
use spl_token_2022_interface::extension::{BaseStateWithExtensions, StateWithExtensions};
use spl_token_2022_interface::state::Mint;
use spl_transfer_hook_interface::instruction::TransferHookInstruction;

verus! {

/// The error type of the token-interface crates, carried through opaquely.
#[verifier::external_type_specification]
#[verifier::external_body]
pub struct ExProgramError(ProgramError);

/// Everything the core reads of an asset type: its identifier, its decimal
/// scale, and the callback program registered in its metadata, if any.
#[derive(Clone, Copy, Debug, PartialEq, Eq, Structural)]
pub struct AssetInfo {
    /// The asset type's identifier.
    pub id: Pubkey,
    /// Number of base-10 digits to the right of the decimal place.
    pub decimals: u8,
    /// The external callback program registered for this asset, if any.
    pub hook_program: Option<Pubkey>,
}

/// The transfer-hook lookup on raw mint account data, named: `None` when the
/// data does not parse as an initialized mint, otherwise the callback program
/// registered in the mint's transfer-hook extension, if any. The result is a
/// function of the bytes alone.
pub uninterp spec fn mint_hook_lookup(data: Seq<u8>) -> Option<Option<Pubkey>>;

/// Relies on `spl_token_2022_interface`: `StateWithExtensions::<Mint>::unpack`
/// parses raw mint account data, and `get_extension::<TransferHook>` reads the
/// transfer-hook extension from its TLV records; a mint without that extension
/// (or with no program set in it) has no callback.
#[verifier::external_body]
fn read_mint_hook_program(data: &[u8]) -> (r: Result<Option<Pubkey>, ProgramError>)
    ensures
        r is Ok <==> mint_hook_lookup(data@) is Some,
        r matches Ok(h) ==> mint_hook_lookup(data@) == Some(h),
{
    let state = StateWithExtensions::<Mint>::unpack(data)?;
    match state.get_extension::<TransferHook>() {
        Ok(ext) => match ext.program_id.copied() {
            Some(a) => {
                let b = a.to_bytes();
                let hi = u128::from_be_bytes(b[..16].try_into().unwrap());
                let lo = u128::from_be_bytes(b[16..].try_into().unwrap());
                Ok(Some(Pubkey { hi, lo }))
            },
            None => Ok(None),
        },
        Err(_) => Ok(None),
    }
}

/// Looks up the callback program an asset's mint declares, from the mint's
/// raw account data. Fails with [`AmmError::InvalidAmount`] exactly when the
/// supplied account data is not an initialized mint.
pub fn hook_program_of_mint(data: &Vec<u8>) -> (r: Result<Option<Pubkey>, AmmError>)
    ensures
        r is Ok <==> mint_hook_lookup(data@) is Some,
        r matches Ok(h) ==> mint_hook_lookup(data@) == Some(h),
        r matches Err(e) ==> e == AmmError::InvalidAmount,
{
    match read_mint_hook_program(data.as_slice()) {
        Ok(h) => Ok(h),
        Err(_) => Err(AmmError::InvalidAmount),
    }
}

/// Builds the asset-metadata record the orchestrator works on, resolving the
/// asset's callback program from its raw mint account data.
pub fn asset_info_from_mint(id: Pubkey, decimals: u8, mint_data: &Vec<u8>) -> (r: Result<
    AssetInfo,
    AmmError,
>)
    ensures
        r is Ok <==> mint_hook_lookup(mint_data@) is Some,
        r matches Ok(info) ==> info.id == id && info.decimals == decimals && mint_hook_lookup(
            mint_data@,
        ) == Some(info.hook_program),
        r matches Err(e) ==> e == AmmError::InvalidAmount,
{
    let hook_program = hook_program_of_mint(mint_data)?;
    Ok(AssetInfo { id, decimals, hook_program })
}

/// Whether the asset's metadata registers a callback program that must
/// observe every transfer of the asset; `None` means transfers move directly.
pub fn is_hook_required(info: &AssetInfo) -> (r: Option<Pubkey>)
    ensures
        r == info.hook_program,
{
    info.hook_program
}

/// The instruction decoding of the transfer-hook interface, named: `None`
/// when the bytes are not a well-formed interface instruction, `Some(Some(a))`
/// for an `Execute` carrying transfer amount `a`, and `Some(None)` for the
/// two account-meta maintenance instructions. A function of the bytes alone.
pub uninterp spec fn hook_instruction_amount(data: Seq<u8>) -> Option<Option<u64>>;

/// Relies on `spl_transfer_hook_interface`'s `TransferHookInstruction::unpack`:
/// decodes the interface's wire format (an eight-byte discriminator followed
/// by the instruction payload; `Execute` carries a little-endian `u64`
/// amount).
#[verifier::external_body]
fn unpack_hook_instruction(data: &[u8]) -> (r: Result<Option<u64>, ProgramError>)
    ensures
        r is Ok <==> hook_instruction_amount(data@) is Some,
        r matches Ok(a) ==> hook_instruction_amount(data@) == Some(a),
{
    match TransferHookInstruction::unpack(data)? {
        TransferHookInstruction::Execute { amount } => Ok(Some(amount)),
        TransferHookInstruction::InitializeExtraAccountMetaList { .. } => Ok(None),
        TransferHookInstruction::UpdateExtraAccountMetaList { .. } => Ok(None),
    }
}

/// The sample callback shipped with this crate, demonstrating a hook that can
/// fail a transfer on-chain: it approves a transfer exactly when the amount
/// is even, and rejects odd amounts with [`AmmError::TransferNotAllowed`].
pub fn transfer_hook(amount: u64) -> (r: Result<(), AmmError>)
    ensures
        r is Ok <==> amount % 2 == 0,
        r == (if amount % 2 == 0 {
            Result::<(), AmmError>::Ok(())
        } else {
            Result::<(), AmmError>::Err(AmmError::TransferNotAllowed)
        }),
{
    if amount % 2 == 1 {
        return Err(AmmError::TransferNotAllowed);
    }
    Ok(())
}

/// What [`fallback`] returns for each decoded instruction: the sample
/// callback's verdict for an `Execute`, [`AmmError::InvalidAmount`] for
/// undecodable data or a non-`Execute` instruction.
pub open spec fn fallback_result(decoded: Option<Option<u64>>) -> Result<(), AmmError> {
    match decoded {
        Option::Some(Option::Some(a)) => if a % 2 == 0 {
            Result::Ok(())
        } else {
            Result::Err(AmmError::TransferNotAllowed)
        },
        _ => Result::Err(AmmError::InvalidAmount),
    }
}

/// Entry point of the sample callback program: decodes an interface
/// instruction from raw bytes and dispatches an `Execute` to
/// [`transfer_hook`].
pub fn fallback(instruction_data: &Vec<u8>) -> (r: Result<(), AmmError>)
    ensures
        r == fallback_result(hook_instruction_amount(instruction_data@)),
{
    match unpack_hook_instruction(instruction_data.as_slice()) {
        Ok(Some(amount)) => {
            let r = transfer_hook(amount);
            proof {
                assert(hook_instruction_amount(instruction_data@) == Some(Some(amount)));
                if amount % 2 == 0 {
                    assert(r == fallback_result(hook_instruction_amount(instruction_data@)));
                } else {
                    assert(r == fallback_result(hook_instruction_amount(instruction_data@)));
                }
            }
            r
        },
        Ok(None) => {
            proof {
                assert(hook_instruction_amount(instruction_data@) == Some(Option::<u64>::None));
            }
            Err(AmmError::InvalidAmount)
        },
        Err(_) => Err(AmmError::InvalidAmount),
    }
}

/// Capability-style interface for the untrusted external callback attached to
/// an asset type: it observes every transfer of the asset and may reject it.
/// The interface carries no contract on purpose — the core never relies on a
/// callback's behavior for authorization, only on the whitelist checked
/// strictly before any transfer.
pub trait TransferCallback {
    /// Observes a transfer of `amount` and may reject it with an error.
    fn on_transfer(&self, amount: u64) -> Result<(), AmmError>;
}

/// The sample callback as a capability: rejects odd transfer amounts.
pub struct ParityHook;

impl TransferCallback for ParityHook {
    fn on_transfer(&self, amount: u64) -> Result<(), AmmError> {
        transfer_hook(amount)
    }
}

} // verus!
