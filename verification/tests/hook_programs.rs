use solana_address::Address;
use spl_token_2022_interface::extension::transfer_hook::TransferHook;
use spl_token_2022_interface::extension::{
    BaseStateWithExtensionsMut, ExtensionType, StateWithExtensionsMut,
};
use spl_token_2022_interface::state::Mint;
use spl_transfer_hook_interface::instruction::TransferHookInstruction;

use token_2022_amm::errors::AmmError;
use token_2022_amm::hooks::{
    asset_info_from_mint, fallback, hook_program_of_mint, is_hook_required, transfer_hook,
    ParityHook, TransferCallback,
};
use token_2022_amm::keys::Pubkey;

/// Serialized mint account data carrying a transfer-hook extension whose
/// program id is `program` (or unset when `None`).
fn mint_data_with_hook_extension(program: Option<[u8; 32]>) -> Vec<u8> {
    let len =
        ExtensionType::try_calculate_account_len::<Mint>(&[ExtensionType::TransferHook]).unwrap();
    let mut buf = vec![0u8; len];
    let mut state = StateWithExtensionsMut::<Mint>::unpack_uninitialized(&mut buf).unwrap();
    let ext = state.init_extension::<TransferHook>(true).unwrap();
    if let Some(bytes) = program {
        ext.program_id = Address::new_from_array(bytes).into();
    }
    let mut base = Mint::default();
    base.decimals = 9;
    base.is_initialized = true;
    state.base = base;
    state.pack_base();
    state.init_account_type().unwrap();
    buf
}

#[test]
fn mint_hook_lookup_finds_the_registered_program() {
    let data = mint_data_with_hook_extension(Some([7u8; 32]));
    let expected = Pubkey {
        hi: u128::from_be_bytes([7u8; 16]),
        lo: u128::from_be_bytes([7u8; 16]),
    };
    assert_eq!(hook_program_of_mint(&data), Ok(Some(expected)));
}

#[test]
fn mint_without_a_set_program_has_no_hook() {
    let data = mint_data_with_hook_extension(None);
    assert_eq!(hook_program_of_mint(&data), Ok(None));
}

#[test]
fn malformed_mint_data_is_rejected() {
    let data = vec![1u8, 2, 3];
    assert_eq!(hook_program_of_mint(&data), Err(AmmError::InvalidAmount));
}

#[test]
fn asset_info_carries_the_resolved_hook() {
    let data = mint_data_with_hook_extension(Some([9u8; 32]));
    let id = Pubkey { hi: 1, lo: 2 };
    let info = asset_info_from_mint(id, 9, &data).unwrap();
    assert_eq!(info.id, id);
    assert_eq!(info.decimals, 9);
    let expected = Pubkey {
        hi: u128::from_be_bytes([9u8; 16]),
        lo: u128::from_be_bytes([9u8; 16]),
    };
    assert_eq!(info.hook_program, Some(expected));
    assert_eq!(is_hook_required(&info), Some(expected));
}

#[test]
fn hook_approves_even_amounts_and_rejects_odd_ones() {
    assert_eq!(transfer_hook(42), Ok(()));
    assert_eq!(transfer_hook(43), Err(AmmError::TransferNotAllowed));
    assert_eq!(ParityHook.on_transfer(0), Ok(()));
    assert_eq!(ParityHook.on_transfer(1), Err(AmmError::TransferNotAllowed));
}

#[test]
fn fallback_dispatches_execute_instructions() {
    let even = TransferHookInstruction::Execute { amount: 42 }.pack();
    assert_eq!(fallback(&even), Ok(()));

    let odd = TransferHookInstruction::Execute { amount: 43 }.pack();
    assert_eq!(fallback(&odd), Err(AmmError::TransferNotAllowed));
}

#[test]
fn fallback_rejects_other_or_malformed_instructions() {
    let init = TransferHookInstruction::InitializeExtraAccountMetaList {
        extra_account_metas: vec![],
    }
    .pack();
    assert_eq!(fallback(&init), Err(AmmError::InvalidAmount));

    let junk = vec![0u8; 4];
    assert_eq!(fallback(&junk), Err(AmmError::InvalidAmount));
}
