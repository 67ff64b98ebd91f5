use borsh::BorshSerialize;
use echo_program::address::{
    authorized_buffer_address, find_authorized_buffer_address, find_vending_machine_address,
    same_address,
};
use echo_program::buffer::{write_echo, write_header, write_payload};
use echo_program::mint::is_token_mint;
use echo_program::{
    Account, Action, AuthorizedBufferHeader, CreateAccountRequest, EchoInstruction, ProcessError,
    Processor, VendingMachineBufferHeader, AUTH_BUFFER_HEADER_SIZE, VENDING_MACHINE_HEADER_SIZE,
};
use solana_program::pubkey::Pubkey;

fn key() -> [u8; 32] {
    Pubkey::new_unique().to_bytes()
}

fn account(key: [u8; 32], len: usize) -> Account {
    Account { key, data: vec![0; len] }
}

fn pda(seeds: &[&[u8]], program_id: &[u8; 32]) -> ([u8; 32], u8) {
    let (k, b) = Pubkey::find_program_address(seeds, &Pubkey::new_from_array(*program_id));
    (k.to_bytes(), b)
}

fn create_authorized(
    program_id: &[u8; 32],
    authority: [u8; 32],
    buffer_seed: u64,
    buffer_size: usize,
) -> Vec<Account> {
    let (address, _) = pda(&[b"authority", &authority, &buffer_seed.to_le_bytes()], program_id);
    let mut accounts = vec![account(address, 0), account(authority, 0), account(key(), 0)];
    let ix = EchoInstruction::InitializeAuthorizedEcho { buffer_seed, buffer_size }.encode();
    let request = match Processor::process_instruction(program_id, &mut accounts, &ix) {
        Ok(Action::CreateAuthorizedBuffer(request)) => request,
        other => panic!("unexpected outcome {:?}", other),
    };
    accounts[0].data = vec![0; request.space];
    Processor::complete_creation(&request, &mut accounts[0].data).unwrap();
    accounts
}

#[test]
fn echo_scenario_writes_whole_buffer() {
    let program_id = key();
    let mut accounts = vec![Account { key: key(), data: vec![1, 2, 3] }];
    let ix = EchoInstruction::Echo { data: vec![9, 9, 9] }.encode();
    let r = Processor::process_instruction(&program_id, &mut accounts, &ix);
    assert!(matches!(r, Ok(Action::Done)));
    assert_eq!(accounts[0].data, vec![9, 9, 9]);
}

#[test]
fn echo_short_payload_is_zero_filled() {
    let mut buffer = vec![7u8; 5];
    write_echo(&mut buffer, &vec![1, 2]).unwrap();
    assert_eq!(buffer, vec![1, 2, 0, 0, 0]);
    let mut buffer = vec![7u8; 2];
    write_echo(&mut buffer, &vec![1, 2, 3, 4]).unwrap();
    assert_eq!(buffer, vec![1, 2]);
}

#[test]
fn echo_on_empty_buffer_is_refused() {
    let mut accounts = vec![account(key(), 0)];
    let ix = EchoInstruction::Echo { data: vec![1] }.encode();
    let r = Processor::process_instruction(&key(), &mut accounts, &ix);
    assert_eq!(r.unwrap_err(), ProcessError::AccountDataTooSmall);
    assert!(accounts[0].data.is_empty());
}

#[test]
fn initialize_authorized_echo_scenario() {
    let program_id = key();
    let authority = key();
    let (address, bump) = pda(&[b"authority", &authority, &3u64.to_le_bytes()], &program_id);
    let mut accounts = vec![account(address, 0), account(authority, 0), account(key(), 0)];
    let ix = EchoInstruction::InitializeAuthorizedEcho { buffer_seed: 3, buffer_size: 16 }.encode();
    let request: CreateAccountRequest =
        match Processor::process_instruction(&program_id, &mut accounts, &ix) {
            Ok(Action::CreateAuthorizedBuffer(request)) => request,
            other => panic!("unexpected outcome {:?}", other),
        };
    assert_eq!(request.address, address);
    assert_eq!(request.bump_seed, bump);
    assert_eq!(request.space, 16);
    assert_eq!(request.payer, 1);
    assert_eq!(request.target, 0);
    assert_eq!(
        request.signer_seeds,
        vec![b"authority".to_vec(), authority.to_vec(), 3u64.to_le_bytes().to_vec(), vec![bump]]
    );
    let mut data = vec![0u8; 16];
    Processor::complete_creation(&request, &mut data).unwrap();
    let header = AuthorizedBufferHeader { bump_seed: bump, buffer_seed: 3 }.encode();
    assert_eq!(&data[..AUTH_BUFFER_HEADER_SIZE], &header[..]);
    assert!(data[AUTH_BUFFER_HEADER_SIZE..].iter().all(|b| *b == 0));
    assert_eq!(data.len(), 16);
}

#[test]
fn authorized_echo_scenario() {
    let program_id = key();
    let authority = key();
    let mut accounts = create_authorized(&program_id, authority, 3, 16);
    let header: Vec<u8> = accounts[0].data[..AUTH_BUFFER_HEADER_SIZE].to_vec();
    let ix = EchoInstruction::AuthorizedEcho { data: vec![1, 2] }.encode();
    let r = Processor::process_instruction(&program_id, &mut accounts, &ix);
    assert!(matches!(r, Ok(Action::Done)));
    assert_eq!(&accounts[0].data[..AUTH_BUFFER_HEADER_SIZE], &header[..]);
    assert_eq!(accounts[0].data[AUTH_BUFFER_HEADER_SIZE..].to_vec(), vec![1, 2, 0, 0, 0, 0, 0]);
}

#[test]
fn authorized_echo_with_other_authority_is_refused() {
    let program_id = key();
    let mut accounts = create_authorized(&program_id, key(), 3, 16);
    accounts[1].key = key();
    let before = accounts[0].data.clone();
    let ix = EchoInstruction::AuthorizedEcho { data: vec![5, 5] }.encode();
    let r = Processor::process_instruction(&program_id, &mut accounts, &ix);
    assert_eq!(r.unwrap_err(), ProcessError::IllegalOwner);
    assert_eq!(accounts[0].data, before);
}

#[test]
fn authorized_echo_on_short_buffer_is_refused() {
    let mut buffer = vec![1u8; AUTH_BUFFER_HEADER_SIZE - 1];
    let r = Processor::authorized_echo(&key(), &key(), &mut buffer, &key(), &vec![1]);
    assert_eq!(r, Err(ProcessError::AccountDataTooSmall));
    assert_eq!(buffer, vec![1u8; AUTH_BUFFER_HEADER_SIZE - 1]);
}

#[test]
fn creation_guard_refuses_small_sizes() {
    let program_id = key();
    let authority = key();
    let (address, _) = pda(&[b"authority", &authority, &3u64.to_le_bytes()], &program_id);
    let mut accounts = vec![account(address, 0), account(authority, 0), account(key(), 0)];
    for size in [0usize, 1, AUTH_BUFFER_HEADER_SIZE] {
        let ix = EchoInstruction::InitializeAuthorizedEcho { buffer_seed: 3, buffer_size: size }.encode();
        let r = Processor::process_instruction(&program_id, &mut accounts, &ix);
        assert_eq!(r.unwrap_err(), ProcessError::InvalidArgument);
    }
    let mut none: Vec<Account> = Vec::new();
    let ix = EchoInstruction::InitializeAuthorizedEcho { buffer_seed: 3, buffer_size: 9 }.encode();
    let r = Processor::process_instruction(&program_id, &mut none, &ix);
    assert_eq!(r.unwrap_err(), ProcessError::InvalidArgument);
}

#[test]
fn initialize_with_wrong_buffer_is_refused() {
    let program_id = key();
    let mut accounts = vec![account(key(), 0), account(key(), 0), account(key(), 0)];
    let ix = EchoInstruction::InitializeAuthorizedEcho { buffer_seed: 3, buffer_size: 16 }.encode();
    let r = Processor::process_instruction(&program_id, &mut accounts, &ix);
    assert_eq!(r.unwrap_err(), ProcessError::InvalidAccountData);
}

#[test]
fn missing_accounts_are_refused() {
    let program_id = key();
    let cases = vec![
        (EchoInstruction::Echo { data: vec![1] }, 0usize),
        (EchoInstruction::InitializeAuthorizedEcho { buffer_seed: 1, buffer_size: 16 }, 2),
        (EchoInstruction::AuthorizedEcho { data: vec![1] }, 1),
        (EchoInstruction::InitializeVendingMachine { price: 1, buffer_size: 16 }, 3),
    ];
    for (ix, n) in cases {
        let mut accounts: Vec<Account> = (0..n).map(|_| account(key(), 16)).collect();
        let r = Processor::process_instruction(&program_id, &mut accounts, &ix.encode());
        assert_eq!(r.unwrap_err(), ProcessError::NotEnoughAccountKeys);
    }
}

#[test]
fn malformed_instructions_are_refused() {
    let program_id = key();
    let mut accounts = vec![Account { key: key(), data: vec![4, 4] }];
    let mut trailing = EchoInstruction::Echo { data: vec![1] }.encode();
    trailing.push(0);
    let cases: Vec<Vec<u8>> = vec![
        vec![],
        vec![4],
        vec![9, 0, 0, 0, 0],
        vec![0, 2, 0, 0, 0, 1],
        vec![1, 3, 0, 0, 0, 0, 0, 0, 0],
        trailing,
    ];
    for bytes in cases {
        let r = Processor::process_instruction(&program_id, &mut accounts, &bytes);
        assert_eq!(r.unwrap_err(), ProcessError::InvalidInstructionData);
        assert_eq!(accounts[0].data, vec![4, 4]);
    }
}

#[test]
fn instruction_bytes_match_borsh_layout() {
    let echo = EchoInstruction::Echo { data: vec![1, 2, 3] };
    assert_eq!(echo.encode(), (0u8, vec![1u8, 2, 3]).try_to_vec().unwrap());
    let init = EchoInstruction::InitializeAuthorizedEcho { buffer_seed: 3, buffer_size: 16 };
    assert_eq!(init.encode(), (1u8, 3u64, 16u64).try_to_vec().unwrap());
    let auth = EchoInstruction::AuthorizedEcho { data: vec![] };
    assert_eq!(auth.encode(), (2u8, Vec::<u8>::new()).try_to_vec().unwrap());
    let vm = EchoInstruction::InitializeVendingMachine { price: 500, buffer_size: 40 };
    assert_eq!(vm.encode(), (3u8, 500u64, 40u64).try_to_vec().unwrap());
    for ix in [echo, init, auth, vm] {
        assert_eq!(EchoInstruction::decode(&ix.encode()), Some(ix));
    }
}

#[test]
fn header_round_trip() {
    let a = AuthorizedBufferHeader { bump_seed: 254, buffer_seed: 0x0102_0304_0506_0708 };
    let bytes = a.encode();
    assert_eq!(bytes, (254u8, 0x0102_0304_0506_0708u64).try_to_vec().unwrap());
    assert_eq!(bytes, vec![254, 8, 7, 6, 5, 4, 3, 2, 1]);
    assert_eq!(AuthorizedBufferHeader::decode(&bytes), Some(a));
    let v = VendingMachineBufferHeader { bump_seed: 3, price: u64::MAX };
    let bytes = v.encode();
    assert_eq!(bytes.len(), VENDING_MACHINE_HEADER_SIZE);
    assert_eq!(VendingMachineBufferHeader::decode(&bytes), Some(v));
    assert_eq!(VendingMachineBufferHeader::decode(&bytes[..8].to_vec()), None);
}

#[test]
fn derivation_is_deterministic() {
    let program_id = key();
    let authority = key();
    let first = find_authorized_buffer_address(&program_id, &authority, 42);
    let second = find_authorized_buffer_address(&program_id, &authority, 42);
    assert!(first.is_some());
    assert_eq!(first, second);
    assert_eq!(first, Some(pda(&[b"authority", &authority, &42u64.to_le_bytes()], &program_id)));
}

#[test]
fn derivation_domains_are_separated() {
    let program_id = key();
    let a = key();
    for s in [0u64, 1, 3, 1000] {
        let (auth, _) = find_authorized_buffer_address(&program_id, &a, s).unwrap();
        let (vm, _) = find_vending_machine_address(&program_id, &a, s).unwrap();
        assert_ne!(auth, vm);
        assert_eq!(vm, pda(&[b"vending_machine", &a, &s.to_le_bytes()], &program_id).0);
    }
}

#[test]
fn rederivation_matches_create_program_address() {
    let program_id = key();
    let authority = key();
    let (address, bump) = pda(&[b"authority", &authority, &7u64.to_le_bytes()], &program_id);
    assert_eq!(authorized_buffer_address(&program_id, &authority, 7, bump), Some(address));
    assert_ne!(authorized_buffer_address(&program_id, &authority, 8, bump), Some(address));
    assert!(same_address(&address, &address));
    assert!(!same_address(&address, &authority));
}

#[test]
fn payload_write_stays_in_bounds() {
    let mut buffer = vec![9u8; 12];
    write_payload(&mut buffer, 9, &vec![1]);
    assert_eq!(buffer, vec![9, 9, 9, 9, 9, 9, 9, 9, 9, 1, 0, 0]);
    let mut buffer = vec![9u8; 11];
    write_payload(&mut buffer, 9, &vec![1, 2, 3, 4]);
    assert_eq!(buffer, vec![9, 9, 9, 9, 9, 9, 9, 9, 9, 1, 2]);
    let mut buffer = vec![0u8; 4];
    write_header(&mut buffer, &vec![5, 6]);
    assert_eq!(buffer, vec![5, 6, 0, 0]);
}

#[test]
fn complete_creation_refuses_short_account() {
    let program_id = key();
    let authority = key();
    let accounts = create_authorized(&program_id, authority, 1, 10);
    assert_eq!(accounts[0].data.len(), 10);
    let (address, bump) = pda(&[b"authority", &authority, &1u64.to_le_bytes()], &program_id);
    let request = CreateAccountRequest {
        payer: 1,
        target: 0,
        address,
        bump_seed: bump,
        space: 10,
        signer_seeds: vec![],
        header: vec![1; 9],
    };
    let mut short = vec![0u8; 8];
    assert_eq!(Processor::complete_creation(&request, &mut short), Err(ProcessError::AccountDataTooSmall));
    assert_eq!(short, vec![0u8; 8]);
}

#[test]
fn initialize_vending_machine_creates_buffer() {
    let program_id = key();
    let mint = key();
    let (address, bump) = pda(&[b"vending_machine", &mint, &500u64.to_le_bytes()], &program_id);
    let mut accounts = vec![
        account(address, 0),
        account(mint, 82),
        account(key(), 0),
        account(key(), 0),
    ];
    let ix = EchoInstruction::InitializeVendingMachine { price: 500, buffer_size: 32 }.encode();
    let (request, mint_well_formed) =
        match Processor::process_instruction(&program_id, &mut accounts, &ix) {
            Ok(Action::CreateVendingMachineBuffer { request, mint_well_formed }) => {
                (request, mint_well_formed)
            }
            other => panic!("unexpected outcome {:?}", other),
        };
    assert!(mint_well_formed);
    assert_eq!(request.address, address);
    assert_eq!(request.payer, 2);
    assert_eq!(request.space, 32);
    let mut data = vec![0u8; 32];
    Processor::complete_creation(&request, &mut data).unwrap();
    let header = VendingMachineBufferHeader { bump_seed: bump, price: 500 };
    assert_eq!(VendingMachineBufferHeader::decode(&data), Some(header));
}

#[test]
fn vending_machine_reports_bad_mint_and_guards_size() {
    let program_id = key();
    let mint = key();
    let (address, _) = pda(&[b"vending_machine", &mint, &5u64.to_le_bytes()], &program_id);
    let (r, mint_well_formed) =
        Processor::initialize_vending_machine(&program_id, &address, &mint, &vec![0; 10], 5, 20);
    assert!(!mint_well_formed);
    assert!(r.is_ok());
    let (r, _) =
        Processor::initialize_vending_machine(&program_id, &address, &mint, &vec![0; 82], 5, 8);
    assert_eq!(r.unwrap_err(), ProcessError::InvalidArgument);
    let (r, _) =
        Processor::initialize_vending_machine(&program_id, &key(), &mint, &vec![0; 82], 5, 20);
    assert_eq!(r.unwrap_err(), ProcessError::InvalidAccountData);
}

#[test]
fn token_mint_layout_check() {
    let mut data = vec![0u8; 82];
    assert!(is_token_mint(&data));
    data[0] = 1;
    data[45] = 1;
    assert!(is_token_mint(&data));
    data[45] = 2;
    assert!(!is_token_mint(&data));
    data[45] = 1;
    data[47] = 1;
    assert!(!is_token_mint(&data));
    assert!(!is_token_mint(&vec![0u8; 81]));
}
