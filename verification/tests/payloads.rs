use continuum_cp_swap::forwarding::{
    create_pool_account_metas, create_pool_instruction_data, immediate_swap_account_metas,
    swap_account_metas, swap_instruction_data, AccountMeta, INITIALIZE_POOL, SWAP_BASE_INPUT,
    SWAP_BASE_OUTPUT,
};
use continuum_cp_swap::state::{AccountInfo, Pubkey};

fn pay_key(n: u8) -> Pubkey {
    Pubkey::new_from_array([n; 32])
}

fn pay_info(n: u8, is_signer: bool, is_writable: bool) -> AccountInfo {
    AccountInfo { key: pay_key(n), is_signer, is_writable }
}

#[test]
fn opcodes_are_the_fixed_bytes() {
    assert_eq!(SWAP_BASE_INPUT, [143, 190, 90, 218, 196, 30, 51, 222]);
    assert_eq!(SWAP_BASE_OUTPUT, [55, 217, 98, 86, 163, 74, 180, 173]);
    assert_eq!(INITIALIZE_POOL, [175, 175, 109, 31, 13, 152, 155, 237]);
}

#[test]
fn base_input_payload_is_opcode_amount_in_min_out() {
    assert_eq!(
        swap_instruction_data(true, 1000, 900),
        vec![
            143, 190, 90, 218, 196, 30, 51, 222, 232, 3, 0, 0, 0, 0, 0, 0, 132, 3, 0, 0, 0, 0, 0,
            0
        ]
    );
}

#[test]
fn base_output_payload_is_opcode_max_in_amount_out() {
    assert_eq!(
        swap_instruction_data(false, 1000, 900),
        vec![
            55, 217, 98, 86, 163, 74, 180, 173, 132, 3, 0, 0, 0, 0, 0, 0, 232, 3, 0, 0, 0, 0, 0, 0
        ]
    );
}

#[test]
fn payload_amounts_are_little_endian_over_all_eight_bytes() {
    let data = swap_instruction_data(true, 0x0102030405060708, u64::MAX);
    assert_eq!(data.len(), 24);
    assert_eq!(&data[8..16], &[8, 7, 6, 5, 4, 3, 2, 1]);
    assert_eq!(&data[16..24], &[255; 8]);
    let zero = swap_instruction_data(false, 0, 0);
    assert_eq!(&zero[8..24], &[0; 16]);
}

#[test]
fn create_pool_payload_names_the_custom_authority() {
    let authority = pay_key(77);
    let data = create_pool_instruction_data(5_000_000, 7, 1_700_000_000, &authority);
    let mut expected: Vec<u8> = vec![175, 175, 109, 31, 13, 152, 155, 237];
    expected.extend_from_slice(&[64, 75, 76, 0, 0, 0, 0, 0]);
    expected.extend_from_slice(&[7, 0, 0, 0, 0, 0, 0, 0]);
    expected.extend_from_slice(&[0, 241, 83, 101, 0, 0, 0, 0]);
    expected.extend_from_slice(&[1, 1]);
    expected.extend_from_slice(&[77; 32]);
    assert_eq!(data.len(), 66);
    assert_eq!(data, expected);
}

#[test]
fn account_meta_constructors_set_write_access() {
    assert_eq!(
        AccountMeta::new(pay_key(1), true),
        AccountMeta { pubkey: pay_key(1), is_signer: true, is_writable: true }
    );
    assert_eq!(
        AccountMeta::new_readonly(pay_key(1), false),
        AccountMeta { pubkey: pay_key(1), is_signer: false, is_writable: false }
    );
}

#[test]
fn swap_accounts_start_with_authority_then_token_accounts() {
    let remaining = vec![pay_info(40, true, true), pay_info(41, true, false), pay_info(42, false, true)];
    let metas = swap_account_metas(&pay_key(1), &pay_key(2), &pay_key(3), &remaining);
    assert_eq!(
        metas,
        vec![
            AccountMeta { pubkey: pay_key(1), is_signer: true, is_writable: false },
            AccountMeta { pubkey: pay_key(2), is_signer: false, is_writable: true },
            AccountMeta { pubkey: pay_key(3), is_signer: false, is_writable: true },
            AccountMeta { pubkey: pay_key(40), is_signer: false, is_writable: true },
            AccountMeta { pubkey: pay_key(41), is_signer: false, is_writable: false },
            AccountMeta { pubkey: pay_key(42), is_signer: false, is_writable: true },
        ]
    );
    assert_eq!(swap_account_metas(&pay_key(1), &pay_key(2), &pay_key(3), &vec![]).len(), 3);
}

#[test]
fn immediate_swap_accounts_make_the_first_a_readonly_signer() {
    let remaining = vec![pay_info(40, false, true), pay_info(41, true, true), pay_info(42, true, false)];
    assert_eq!(
        immediate_swap_account_metas(&remaining),
        vec![
            AccountMeta { pubkey: pay_key(40), is_signer: true, is_writable: false },
            AccountMeta { pubkey: pay_key(41), is_signer: false, is_writable: true },
            AccountMeta { pubkey: pay_key(42), is_signer: false, is_writable: false },
        ]
    );
    assert!(immediate_swap_account_metas(&vec![]).is_empty());
}

#[test]
fn create_pool_accounts_keep_declared_rights() {
    let remaining = vec![
        pay_info(40, true, true),
        pay_info(41, true, false),
        pay_info(42, false, true),
        pay_info(43, false, false),
    ];
    assert_eq!(
        create_pool_account_metas(&remaining),
        vec![
            AccountMeta { pubkey: pay_key(40), is_signer: true, is_writable: true },
            AccountMeta { pubkey: pay_key(41), is_signer: true, is_writable: false },
            AccountMeta { pubkey: pay_key(42), is_signer: false, is_writable: true },
            AccountMeta { pubkey: pay_key(43), is_signer: false, is_writable: false },
        ]
    );
}
