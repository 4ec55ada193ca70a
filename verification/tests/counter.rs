use ledger_programs::account::{Account, AllocationRequest};
use ledger_programs::address::Address;
use ledger_programs::counter::entrypoint::{allocation_request, entrypoints};
use ledger_programs::counter::error::CustomError;
use ledger_programs::counter::instructions::{CounterInstruction, Unpack};
use ledger_programs::counter::processor::{
    initialize_counter_request, process_change_counter, process_initialize_counter,
};
use ledger_programs::counter::state::{CounterAccount, COUNTER_ACCOUNT_LEN};
use ledger_programs::error::ProgramError;

fn address(byte: u8) -> Address {
    Address { bytes: [byte; 32] }
}

fn empty_account(address: Address, balance: u64) -> Account {
    Account { address, owner: Address { bytes: [0; 32] }, balance, data: Vec::new() }
}

fn counter_account(program_id: Address, count: i64) -> Account {
    Account {
        address: address(9),
        owner: program_id,
        balance: 1_000,
        data: count.to_le_bytes().to_vec(),
    }
}

/// Plays the host's allocator: a zeroed buffer, owned by the requested
/// program, funded by the payer.
fn allocate(accounts: &mut Vec<Account>, request: &AllocationRequest, rent: u64) {
    assert_eq!(accounts[0].address, request.new_account);
    assert_eq!(accounts[1].address, request.payer);
    accounts[1].balance -= rent;
    accounts[0].balance += rent;
    accounts[0].owner = request.owner;
    accounts[0].data = vec![0u8; request.space as usize];
}

fn fresh_accounts() -> Vec<Account> {
    vec![
        empty_account(address(1), 0),
        empty_account(address(2), 1_000_000),
        empty_account(address(0), 1),
    ]
}

#[test]
fn test_init() {
    let program_id = address(7);
    let mut accounts = fresh_accounts();
    let init_val = 42i64;

    let mut init_instruction_data: Vec<u8> =
        vec![CounterInstruction::InitCounter { init_value: 0 }.into()];
    init_instruction_data.extend_from_slice(&init_val.to_le_bytes());

    let request = allocation_request(&program_id, &accounts, &init_instruction_data)
        .unwrap()
        .unwrap();
    allocate(&mut accounts, &request, 946_560);
    entrypoints(&program_id, &mut accounts, &init_instruction_data, Ok(())).unwrap();

    let counter = CounterAccount::try_from_slice(&accounts[0].data)
        .expect("failed to deserialize counter data");
    assert_eq!(counter.count, init_val);

    let inc: u8 = CounterInstruction::IncCounter.into();
    let mut target = vec![accounts[0].clone()];
    assert_eq!(allocation_request(&program_id, &target, &[inc]), Ok(None));
    entrypoints(&program_id, &mut target, &[inc], Ok(())).unwrap();
    let counter = CounterAccount::try_from_slice(&target[0].data)
        .expect("failed to deserialize counter data");
    assert_eq!(counter.count, init_val + 1);

    let dec: u8 = CounterInstruction::DecCounter.into();
    entrypoints(&program_id, &mut target, &[dec], Ok(())).unwrap();
    let counter = CounterAccount::try_from_slice(&target[0].data)
        .expect("failed to deserialize counter data");
    assert_eq!(counter.count, init_val);
}

#[test]
fn init_request_names_target_payer_size_and_owner() {
    let program_id = address(7);
    let accounts = fresh_accounts();
    let request = initialize_counter_request(&program_id, &accounts).unwrap();
    assert_eq!(
        request,
        AllocationRequest {
            payer: address(2),
            new_account: address(1),
            space: 8,
            owner: program_id,
        }
    );
    assert_eq!(COUNTER_ACCOUNT_LEN, 8);
    assert_eq!(
        initialize_counter_request(&program_id, &accounts[..2].to_vec()),
        Err(ProgramError::NotEnoughAccountKeys)
    );
}

#[test]
fn init_reports_allocation_failure_and_touches_nothing() {
    let mut accounts = fresh_accounts();
    let before = accounts.clone();
    assert_eq!(
        process_initialize_counter(&mut accounts, 5, Err(17)),
        Err(ProgramError::AllocationFailed(17))
    );
    assert_eq!(accounts, before);
}

#[test]
fn init_needs_three_accounts_and_eight_bytes() {
    let mut two = fresh_accounts();
    two.pop();
    let before = two.clone();
    assert_eq!(
        process_initialize_counter(&mut two, 5, Ok(())),
        Err(ProgramError::NotEnoughAccountKeys)
    );
    assert_eq!(two, before);

    let mut short = fresh_accounts();
    short[0].data = vec![0u8; 7];
    let before = short.clone();
    assert_eq!(
        process_initialize_counter(&mut short, 5, Ok(())),
        Err(ProgramError::InvalidAccountData)
    );
    assert_eq!(short, before);
}

#[test]
fn init_writes_only_the_first_eight_bytes() {
    let mut accounts = fresh_accounts();
    accounts[0].data = vec![0xaa; 11];
    process_initialize_counter(&mut accounts, -2, Ok(())).unwrap();
    assert_eq!(
        accounts[0].data,
        vec![0xfe, 0xff, 0xff, 0xff, 0xff, 0xff, 0xff, 0xff, 0xaa, 0xaa, 0xaa]
    );
    assert_eq!(accounts[1], fresh_accounts()[1]);
    assert_eq!(accounts[2], fresh_accounts()[2]);
}

#[test]
fn counter_record_round_trips() {
    for count in [0i64, 1, -1, 42, i64::MAX, i64::MIN, 0x0102_0304_0506_0708] {
        let record = CounterAccount { count };
        let mut buffer = vec![0u8; 8];
        record.serialize(&mut buffer).unwrap();
        assert_eq!(buffer, count.to_le_bytes().to_vec());
        assert_eq!(buffer, borsh::to_vec(&count).unwrap());
        assert_eq!(CounterAccount::try_from_slice(&buffer), Ok(record));
    }
}

#[test]
fn counter_record_layout_is_little_endian() {
    let mut buffer = vec![0u8; 8];
    CounterAccount { count: 0x0102_0304_0506_0708 }.serialize(&mut buffer).unwrap();
    assert_eq!(buffer, vec![8, 7, 6, 5, 4, 3, 2, 1]);
    assert_eq!(
        CounterAccount::try_from_slice(&[0, 0, 0, 0, 0, 0, 0, 0x80]),
        Ok(CounterAccount { count: i64::MIN })
    );
    assert_eq!(
        CounterAccount::try_from_slice(&[1, 1, 0, 0, 0, 0, 0, 0]),
        Ok(CounterAccount { count: 257 })
    );
}

#[test]
fn counter_decode_rejects_wrong_lengths() {
    assert_eq!(CounterAccount::try_from_slice(&[]), Err(ProgramError::InvalidAccountData));
    assert_eq!(CounterAccount::try_from_slice(&[1; 7]), Err(ProgramError::InvalidAccountData));
    assert_eq!(CounterAccount::try_from_slice(&[1; 9]), Err(ProgramError::InvalidAccountData));
}

#[test]
fn counter_encode_rejects_short_buffer() {
    let mut buffer = vec![3u8; 7];
    assert_eq!(
        CounterAccount { count: 1 }.serialize(&mut buffer),
        Err(ProgramError::InvalidAccountData)
    );
    assert_eq!(buffer, vec![3u8; 7]);
}

#[test]
fn increment_at_max_overflows() {
    let program_id = address(7);
    let mut accounts = vec![counter_account(program_id, i64::MAX)];
    let before = accounts.clone();
    let r = process_change_counter(&program_id, &mut accounts, 1);
    assert_eq!(r, Err(ProgramError::from(CustomError::Overflow)));
    assert_eq!(r, Err(ProgramError::Custom(0)));
    assert_eq!(accounts, before);
    assert_eq!(entrypoints(&program_id, &mut accounts, &[1], Ok(())), Err(ProgramError::Custom(0)));
    assert_eq!(accounts, before);
}

#[test]
fn decrement_at_min_underflows() {
    let program_id = address(7);
    let mut accounts = vec![counter_account(program_id, i64::MIN)];
    let before = accounts.clone();
    let r = process_change_counter(&program_id, &mut accounts, -1);
    assert_eq!(r, Err(ProgramError::from(CustomError::Underflow)));
    assert_eq!(r, Err(ProgramError::Custom(1)));
    assert_eq!(accounts, before);
    assert_eq!(entrypoints(&program_id, &mut accounts, &[2], Ok(())), Err(ProgramError::Custom(1)));
    assert_eq!(accounts, before);
}

#[test]
fn change_reaches_both_ends_of_the_range() {
    let program_id = address(7);
    let mut accounts = vec![counter_account(program_id, i64::MAX - 1)];
    process_change_counter(&program_id, &mut accounts, 1).unwrap();
    assert_eq!(CounterAccount::try_from_slice(&accounts[0].data).unwrap().count, i64::MAX);
    let mut accounts = vec![counter_account(program_id, i64::MIN + 1)];
    process_change_counter(&program_id, &mut accounts, -1).unwrap();
    assert_eq!(CounterAccount::try_from_slice(&accounts[0].data).unwrap().count, i64::MIN);
    let mut accounts = vec![counter_account(program_id, -1)];
    process_change_counter(&program_id, &mut accounts, 1).unwrap();
    assert_eq!(accounts[0].data, vec![0u8; 8]);
    assert_eq!(accounts[0].balance, 1_000);
    assert_eq!(accounts[0].owner, program_id);
}

#[test]
fn change_refuses_foreign_account() {
    let program_id = address(7);
    let mut accounts = vec![counter_account(address(8), 5)];
    let before = accounts.clone();
    assert_eq!(
        process_change_counter(&program_id, &mut accounts, 1),
        Err(ProgramError::IncorrectProgramId)
    );
    assert_eq!(
        entrypoints(&program_id, &mut accounts, &[1], Ok(())),
        Err(ProgramError::IncorrectProgramId)
    );
    assert_eq!(
        entrypoints(&program_id, &mut accounts, &[2], Ok(())),
        Err(ProgramError::IncorrectProgramId)
    );
    assert_eq!(accounts, before);
}

#[test]
fn change_needs_an_account_holding_a_record() {
    let program_id = address(7);
    let mut none: Vec<Account> = Vec::new();
    assert_eq!(
        process_change_counter(&program_id, &mut none, 1),
        Err(ProgramError::NotEnoughAccountKeys)
    );
    let mut accounts = vec![counter_account(program_id, 5)];
    accounts[0].data.pop();
    let before = accounts.clone();
    assert_eq!(
        process_change_counter(&program_id, &mut accounts, 1),
        Err(ProgramError::InvalidAccountData)
    );
    assert_eq!(accounts, before);
}

#[test]
fn unpack_reads_tag_and_operand() {
    let mut init = vec![0u8];
    init.extend_from_slice(&42i64.to_le_bytes());
    assert_eq!(
        CounterInstruction::unpack(&init),
        Ok(CounterInstruction::InitCounter { init_value: 42 })
    );
    let mut negative = vec![0u8];
    negative.extend_from_slice(&(-3i64).to_le_bytes());
    negative.extend_from_slice(&[5, 6, 7]);
    assert_eq!(
        CounterInstruction::unpack(&negative),
        Ok(CounterInstruction::InitCounter { init_value: -3 })
    );
    assert_eq!(CounterInstruction::unpack(&[1]), Ok(CounterInstruction::IncCounter));
    assert_eq!(CounterInstruction::unpack(&[2, 9, 9]), Ok(CounterInstruction::DecCounter));
}

#[test]
fn unpack_rejects_malformed_bytes() {
    assert_eq!(CounterInstruction::unpack(&[]), Err(ProgramError::InvalidInstructionData));
    assert_eq!(CounterInstruction::unpack(&[0]), Err(ProgramError::InvalidInstructionData));
    assert_eq!(
        CounterInstruction::unpack(&[0, 1, 2, 3, 4, 5, 6, 7]),
        Err(ProgramError::InvalidInstructionData)
    );
    assert_eq!(CounterInstruction::unpack(&[3]), Err(ProgramError::InvalidInstructionData));
    assert_eq!(CounterInstruction::unpack(&[99]), Err(ProgramError::InvalidInstructionData));
    assert_eq!(
        CounterInstruction::unpack(&[99, 0, 0, 0, 0, 0, 0, 0, 0, 1]),
        Err(ProgramError::InvalidInstructionData)
    );
}

#[test]
fn unknown_instruction_touches_no_account() {
    let program_id = address(7);
    let mut accounts = vec![counter_account(program_id, 5)];
    let before = accounts.clone();
    assert_eq!(
        entrypoints(&program_id, &mut accounts, &[99, 1, 2], Ok(())),
        Err(ProgramError::InvalidInstructionData)
    );
    assert_eq!(
        allocation_request(&program_id, &accounts, &[99, 1, 2]),
        Err(ProgramError::InvalidInstructionData)
    );
    assert_eq!(accounts, before);
}

#[test]
fn counter_tags_are_zero_one_two() {
    assert_eq!(u8::from(CounterInstruction::InitCounter { init_value: 77 }), 0);
    assert_eq!(u8::from(CounterInstruction::IncCounter), 1);
    assert_eq!(u8::from(CounterInstruction::DecCounter), 2);
}

#[test]
fn counter_errors_have_codes_and_words() {
    assert_eq!(ProgramError::from(CustomError::Overflow), ProgramError::Custom(0));
    assert_eq!(ProgramError::from(CustomError::Underflow), ProgramError::Custom(1));
    assert_eq!(CustomError::Overflow.message(), "Operation will overflow");
    assert_eq!(CustomError::Underflow.message(), "Operation will underflow");
}

#[test]
fn addresses_compare_by_bytes() {
    let mut bytes = [4u8; 32];
    assert!(Address { bytes }.same(&address(4)));
    bytes[31] = 5;
    assert!(!Address { bytes }.same(&address(4)));
    let mut buffer = vec![0u8; 40];
    for (i, b) in buffer.iter_mut().enumerate() {
        *b = i as u8;
    }
    let read = Address::from_slice(&buffer[3..35]).unwrap();
    assert_eq!(read.bytes.to_vec(), buffer[3..35].to_vec());
    assert_eq!(Address::from_slice(&buffer[..31]), None);
    assert_eq!(Address::from_slice(&buffer[..33]), None);
    assert_eq!(Address::from_slice(&[]), None);
}

#[test]
fn unpack_through_the_trait_agrees() {
    fn decode<T: Unpack>(input: &[u8]) -> Result<T, ProgramError> {
        T::unpack(input)
    }
    assert_eq!(decode::<CounterInstruction>(&[1]), Ok(CounterInstruction::IncCounter));
    assert_eq!(
        decode::<CounterInstruction>(&[0, 42, 0, 0, 0, 0, 0, 0, 0]),
        Ok(CounterInstruction::InitCounter { init_value: 42 })
    );
    assert_eq!(decode::<CounterInstruction>(&[7]), Err(ProgramError::InvalidInstructionData));
}

#[test]
fn operations_without_allocation_ignore_the_answer() {
    let program_id = address(7);
    let mut with_ok = vec![counter_account(program_id, 5)];
    let mut with_err = with_ok.clone();
    assert_eq!(entrypoints(&program_id, &mut with_ok, &[1], Ok(())), Ok(()));
    assert_eq!(entrypoints(&program_id, &mut with_err, &[1], Err(9)), Ok(()));
    assert_eq!(with_ok, with_err);
    assert_eq!(with_ok[0].data, 6i64.to_le_bytes().to_vec());

    let mut init = vec![0u8];
    init.extend_from_slice(&1i64.to_le_bytes());
    let mut two = fresh_accounts();
    two.pop();
    assert_eq!(
        allocation_request(&program_id, &two, &init),
        Err(ProgramError::NotEnoughAccountKeys)
    );
    assert_eq!(
        entrypoints(&program_id, &mut two, &init, Ok(())),
        Err(ProgramError::NotEnoughAccountKeys)
    );
    let mut three = fresh_accounts();
    three[0].data = vec![0u8; 8];
    let before = three.clone();
    assert_eq!(
        entrypoints(&program_id, &mut three, &init, Err(4)),
        Err(ProgramError::AllocationFailed(4))
    );
    assert_eq!(three, before);
}
