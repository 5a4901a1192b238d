use escrow_settlement::address::{derive_associated, verify};
use escrow_settlement::token::{close_account, reclaim, transfer};
use escrow_settlement::validation::{
    check_associated_account, check_associated_address, check_mint_interface,
    check_program_owned, check_signer, init_associated_account_if_needed,
};
use escrow_settlement::{
    Account, AccountData, Address, Authority, Escrow, PinocchioError, ProgramError, Refund,
    RefundAccounts, Signing, Step, Take, TakeAccounts, TokenAccount,
};

fn addr(tag: u8) -> Address {
    let mut bytes = [0u8; 32];
    bytes[0] = tag;
    bytes[31] = tag;
    Address { bytes }
}

fn system() -> Address {
    Address { bytes: [0u8; 32] }
}

fn program_id() -> Address {
    addr(200)
}

fn token_program() -> Address {
    addr(201)
}

/// A maker for which `(seed, bump)` has a derived address.
fn maker_for(seed: u64, bump: u8) -> (Address, Address) {
    let mut tag: u8 = 1;
    loop {
        let maker = addr(tag);
        if let Some(escrow) = escrow_settlement::address::derive(&maker, seed, bump, &program_id()) {
            return (maker, escrow);
        }
        tag += 1;
    }
}

fn wallet(address: Address, is_signer: bool, lamports: u64) -> Account {
    Account { address, owner: system(), is_signer, lamports, data: AccountData::Empty }
}

fn mint(address: Address) -> Account {
    Account {
        address,
        owner: token_program(),
        is_signer: false,
        lamports: 10,
        data: AccountData::Mint,
    }
}

fn associated(owner: &Address, mint: &Address) -> Address {
    derive_associated(owner, &token_program(), mint).unwrap()
}

fn token(mint: Address, owner: Address, amount: u64) -> Account {
    Account {
        address: associated(&owner, &mint),
        owner: token_program(),
        is_signer: false,
        lamports: 20,
        data: AccountData::Token(TokenAccount { mint, owner, amount }),
    }
}

fn absent(address: Address) -> Account {
    Account { address, owner: system(), is_signer: false, lamports: 0, data: AccountData::Empty }
}

struct World {
    maker: Address,
    taker: Address,
    escrow: Address,
    mint_x: Address,
    mint_y: Address,
    record: Escrow,
}

fn world() -> World {
    let (maker, escrow) = maker_for(42, 7);
    let mint_x = addr(150);
    let mint_y = addr(151);
    World {
        maker,
        taker: addr(100),
        escrow,
        mint_x,
        mint_y,
        record: Escrow { seed: 42, maker, mint_a: mint_x, mint_b: mint_y, receive: 1000, bump: 7 },
    }
}

fn record_account(w: &World) -> Account {
    Account {
        address: w.escrow,
        owner: program_id(),
        is_signer: false,
        lamports: 30,
        data: AccountData::Record(w.record),
    }
}

fn take_list(w: &World) -> Vec<Account> {
    vec![
        wallet(w.taker, true, 1_000),
        wallet(w.maker, false, 2_000),
        record_account(w),
        mint(w.mint_x),
        mint(w.mint_y),
        token(w.mint_x, w.escrow, 500),
        token(w.mint_x, w.taker, 5),
        token(w.mint_y, w.taker, 1_500),
        token(w.mint_y, w.maker, 7),
        wallet(system(), false, 1),
        wallet(token_program(), false, 1),
        absent(addr(199)),
    ]
}

fn refund_list(w: &World) -> Vec<Account> {
    vec![
        wallet(w.maker, true, 2_000),
        record_account(w),
        mint(w.mint_x),
        token(w.mint_x, w.escrow, 500),
        token(w.mint_x, w.maker, 11),
        wallet(system(), false, 1),
        wallet(token_program(), false, 1),
        absent(addr(199)),
    ]
}

fn custom(e: PinocchioError) -> ProgramError {
    ProgramError::from(e)
}

fn amount_of(a: &Account) -> u64 {
    match a.data {
        AccountData::Token(t) => t.amount,
        _ => panic!("not a token account"),
    }
}

fn closed(a: &Account) -> bool {
    a.data == AccountData::Empty && a.lamports == 0 && a.owner == system()
}

#[test]
fn error_codes_are_stable() {
    assert_eq!(PinocchioError::NotSigner.code(), 0);
    assert_eq!(PinocchioError::InvalidOwner.code(), 1);
    assert_eq!(PinocchioError::InvalidAccountData.code(), 2);
    assert_eq!(PinocchioError::InvalidAddress.code(), 3);
    assert_eq!(ProgramError::from(PinocchioError::InvalidAddress), ProgramError::Custom(3));
    assert_eq!(ProgramError::from(PinocchioError::NotSigner), ProgramError::Custom(0));
}

#[test]
fn error_codes_decode() {
    assert_eq!(PinocchioError::try_from(0), Ok(PinocchioError::NotSigner));
    assert_eq!(PinocchioError::try_from(1), Ok(PinocchioError::InvalidOwner));
    assert_eq!(PinocchioError::try_from(2), Ok(PinocchioError::InvalidAccountData));
    assert_eq!(PinocchioError::try_from(3), Ok(PinocchioError::InvalidAddress));
    assert_eq!(PinocchioError::try_from(4), Err(ProgramError::InvalidArgument));
    assert_eq!(PinocchioError::try_from(u32::MAX), Err(ProgramError::InvalidArgument));
}

#[test]
fn error_messages() {
    assert_eq!(PinocchioError::NotSigner.to_str(), "Error: Not signer of the transaction");
    assert_eq!(PinocchioError::InvalidOwner.to_str(), "Error: Invalid account owner");
    assert_eq!(PinocchioError::InvalidAccountData.to_str(), "Error: Invalid account data");
    assert_eq!(PinocchioError::InvalidAddress.to_str(), "Error: Invalid address");
}

#[test]
fn error_descriptions() {
    assert_eq!(PinocchioError::NotSigner.message(), "Not the signer");
    assert_eq!(PinocchioError::InvalidOwner.message(), "Invalid owner account");
    assert_eq!(PinocchioError::InvalidAccountData.message(), "Invalid account data");
    assert_eq!(PinocchioError::InvalidAddress.message(), "Invalid address");
}

#[test]
fn selectors() {
    assert_eq!(Take::DISCRIMINATOR, 1);
    assert_eq!(Refund::DISCRIMINATOR, 2);
}

#[test]
fn address_comparison() {
    let a = addr(1);
    let mut b = a;
    assert!(a.same(&b));
    b.bytes[17] = 9;
    assert!(!a.same(&b));
    assert_eq!(a.to_vec(), a.bytes.to_vec());
    assert_eq!(verify(&a, &a), Ok(()));
    assert_eq!(verify(&a, &b), Err(PinocchioError::InvalidAddress));
}

#[test]
fn derivation_matches_the_ledger() {
    let w = world();
    let id = solana_address::Address::new_from_array(program_id().bytes);
    let seed = 42u64.to_le_bytes();
    let expected = solana_address::Address::create_program_address(
        &[b"escrow", &w.maker.bytes, &seed, &[7u8]],
        &id,
    )
    .unwrap();
    assert_eq!(w.escrow.bytes, expected.to_bytes());
    assert_ne!(w.escrow, program_id());
    assert_ne!(w.escrow, w.maker);
    assert_eq!(escrow_settlement::address::derive(&w.maker, 42, 7, &program_id()), Some(w.escrow));
    assert_ne!(escrow_settlement::address::derive(&w.maker, 43, 7, &program_id()), Some(w.escrow));
    assert_ne!(escrow_settlement::address::derive(&w.maker, 42, 7, &addr(77)), Some(w.escrow));
}

#[test]
fn derivation_agrees_on_every_bump() {
    let maker = addr(9);
    let id = solana_address::Address::new_from_array(program_id().bytes);
    let seed = 7u64.to_le_bytes();
    let mut found = 0;
    let mut missing = 0;
    for bump in 0..=255u8 {
        let expected = solana_address::Address::create_program_address(
            &[b"escrow", &maker.bytes, &seed, &[bump]],
            &id,
        )
        .ok()
        .map(|a| Address { bytes: a.to_bytes() });
        assert_eq!(escrow_settlement::address::derive(&maker, 7, bump, &program_id()), expected);
        if expected.is_some() {
            found += 1;
        } else {
            missing += 1;
        }
    }
    assert!(found > 0);
    assert!(missing > 0);
}

#[test]
fn account_checks() {
    let w = world();
    assert_eq!(check_signer(&wallet(w.taker, true, 0)), Ok(()));
    assert_eq!(check_signer(&wallet(w.taker, false, 0)), Err(PinocchioError::NotSigner));
    assert_eq!(check_program_owned(&record_account(&w), &program_id()), Ok(()));
    assert_eq!(
        check_program_owned(&record_account(&w), &addr(1)),
        Err(PinocchioError::InvalidOwner)
    );
    assert_eq!(check_mint_interface(&mint(w.mint_x)), Ok(()));
    assert_eq!(
        check_mint_interface(&wallet(w.mint_x, false, 0)),
        Err(PinocchioError::InvalidAccountData)
    );
    let held = token(w.mint_x, w.taker, 5);
    assert_eq!(check_associated_account(&held, &w.taker, &w.mint_x, &token_program()), Ok(()));
    assert_eq!(
        check_associated_account(&held, &w.maker, &w.mint_x, &token_program()),
        Err(PinocchioError::InvalidAccountData)
    );
    assert_eq!(
        check_associated_account(&held, &w.taker, &w.mint_y, &token_program()),
        Err(PinocchioError::InvalidAccountData)
    );
    assert_eq!(
        check_associated_account(&absent(held.address), &w.taker, &w.mint_x, &token_program()),
        Err(PinocchioError::InvalidAccountData)
    );
}

#[test]
fn record_load() {
    let w = world();
    assert_eq!(Escrow::load(&record_account(&w)), Ok(w.record));
    assert_eq!(Escrow::load(&absent(w.escrow)), Err(PinocchioError::InvalidAccountData));
    assert_eq!(Escrow::load(&mint(w.escrow)), Err(PinocchioError::InvalidAccountData));
}

#[test]
fn lazy_creation_creates_once() {
    let w = world();
    let missing = absent(associated(&w.taker, &w.mint_x));
    let made = init_associated_account_if_needed(&missing, &w.taker, &w.mint_x, &token_program()).unwrap();
    assert_eq!(
        made.data,
        AccountData::Token(TokenAccount { mint: w.mint_x, owner: w.taker, amount: 0 })
    );
    assert_eq!(made.address, missing.address);
    let again = init_associated_account_if_needed(&made, &w.taker, &w.mint_x, &token_program()).unwrap();
    assert_eq!(again, made);
    let funded = token(w.mint_x, w.taker, 77);
    assert_eq!(init_associated_account_if_needed(&funded, &w.taker, &w.mint_x, &token_program()), Ok(funded));
    assert_eq!(
        init_associated_account_if_needed(&funded, &w.maker, &w.mint_x, &token_program()),
        Err(PinocchioError::InvalidAccountData)
    );
}

#[test]
fn authority_comes_from_signature_or_derivation() {
    let w = world();
    assert!(Authority::signed_by(&wallet(w.taker, false, 0)).is_none());
    let signed = Authority::signed_by(&wallet(w.taker, true, 0)).unwrap();
    assert!(signed.speaks_for(&w.taker));
    assert!(!signed.speaks_for(&w.maker));
    let delegated = Authority::delegated(&w.maker, 42, 7, &program_id()).unwrap();
    assert!(delegated.speaks_for(&w.escrow));
    assert!(!delegated.speaks_for(&w.maker));
}

#[test]
fn transfer_moves_exactly_the_amount() {
    let w = world();
    let signer = Authority::signed_by(&wallet(w.taker, true, 0)).unwrap();
    let from = token(w.mint_y, w.taker, 1_500);
    let to = token(w.mint_y, w.maker, 7);
    let (from_after, to_after) = transfer(&from, &to, &signer, 1_000).unwrap();
    assert_eq!(amount_of(&from_after), 500);
    assert_eq!(amount_of(&to_after), 1_007);
    assert_eq!(from_after.lamports, from.lamports);
    assert_eq!(transfer(&from, &to, &signer, 1_501), Err(ProgramError::InsufficientFunds));
    let full = token(w.mint_y, w.maker, u64::MAX);
    assert_eq!(transfer(&from, &full, &signer, 1), Err(ProgramError::ArithmeticOverflow));
    let other_mint = token(w.mint_x, w.maker, 7);
    assert_eq!(transfer(&from, &other_mint, &signer, 1), Err(ProgramError::Custom(2)));
    assert_eq!(transfer(&from, &absent(addr(9)), &signer, 1), Err(ProgramError::Custom(2)));
    let stranger = Authority::signed_by(&wallet(w.maker, true, 0)).unwrap();
    assert_eq!(transfer(&from, &to, &stranger, 1), Err(ProgramError::Custom(1)));
}

#[test]
fn closing_returns_storage() {
    let w = world();
    let authority = Authority::delegated(&w.maker, 42, 7, &program_id()).unwrap();
    let empty_vault = token(w.mint_x, w.escrow, 0);
    let maker = wallet(w.maker, false, 2_000);
    let (vault_after, maker_after) = close_account(&empty_vault, &maker, &authority).unwrap();
    assert!(closed(&vault_after));
    assert_eq!(maker_after.lamports, 2_020);
    let full_vault = token(w.mint_x, w.escrow, 1);
    assert_eq!(close_account(&full_vault, &maker, &authority), Err(ProgramError::InvalidArgument));
    let rich = wallet(w.maker, false, u64::MAX);
    assert_eq!(close_account(&empty_vault, &rich, &authority), Err(ProgramError::ArithmeticOverflow));
    let signer = Authority::signed_by(&wallet(w.taker, true, 0)).unwrap();
    assert_eq!(close_account(&empty_vault, &maker, &signer), Err(ProgramError::Custom(1)));
    assert_eq!(close_account(&maker, &maker, &authority), Err(ProgramError::Custom(2)));
    let (record_after, taker_after) =
        reclaim(&record_account(&w), &wallet(w.taker, true, 1_000)).unwrap();
    assert!(closed(&record_after));
    assert_eq!(taker_after.lamports, 1_030);
    assert_eq!(reclaim(&record_account(&w), &rich), Err(ProgramError::ArithmeticOverflow));
}

#[test]
fn take_needs_twelve_accounts() {
    let w = world();
    let mut list = take_list(&w);
    list.pop();
    assert_eq!(TakeAccounts::try_from(&list, &program_id()), Err(ProgramError::NotEnoughAccountKeys));
    assert_eq!(Take::try_from(&list, &program_id()), Err(ProgramError::NotEnoughAccountKeys));
    assert_eq!(Take::try_from(&[], &program_id()), Err(ProgramError::NotEnoughAccountKeys));
    let mut unsigned: Vec<Account> = take_list(&w);
    unsigned[0].is_signer = false;
    unsigned.pop();
    assert_eq!(Take::try_from(&unsigned, &program_id()), Err(ProgramError::NotEnoughAccountKeys));
}

#[test]
fn refund_needs_eight_accounts() {
    let w = world();
    let mut list = refund_list(&w);
    list.pop();
    assert_eq!(
        RefundAccounts::try_from(&list, &program_id()),
        Err(ProgramError::NotEnoughAccountKeys)
    );
    assert_eq!(Refund::try_from(&list, &program_id()), Err(ProgramError::NotEnoughAccountKeys));
}

#[test]
fn take_names_its_slots() {
    let w = world();
    let list = take_list(&w);
    let named = TakeAccounts::try_from(&list, &program_id()).unwrap();
    assert_eq!(named.taker, list[0]);
    assert_eq!(named.maker, list[1]);
    assert_eq!(named.escrow_pda, list[2]);
    assert_eq!(named.mint_a, list[3]);
    assert_eq!(named.mint_b, list[4]);
    assert_eq!(named.vault_pda, list[5]);
    assert_eq!(named.taker_ata_a, list[6]);
    assert_eq!(named.taker_ata_b, list[7]);
    assert_eq!(named.maker_ata_b, list[8]);
    assert_eq!(named.system_program, list[9]);
    assert_eq!(named.token_program, list[10]);
}

#[test]
fn refund_names_its_slots() {
    let w = world();
    let list = refund_list(&w);
    let named = RefundAccounts::try_from(&list, &program_id()).unwrap();
    assert_eq!(named.maker, list[0]);
    assert_eq!(named.escrow_pda, list[1]);
    assert_eq!(named.mint_a, list[2]);
    assert_eq!(named.vault_pda, list[3]);
    assert_eq!(named.maker_ata_a, list[4]);
    assert_eq!(named.system_program, list[5]);
    assert_eq!(named.token_program, list[6]);
}

#[test]
fn take_validation_faults() {
    let w = world();
    let mut list = take_list(&w);
    list[0].is_signer = false;
    list[2].owner = addr(1);
    assert_eq!(Take::try_from(&list, &program_id()), Err(custom(PinocchioError::NotSigner)));
    let mut list = take_list(&w);
    list[2].owner = addr(1);
    assert_eq!(Take::try_from(&list, &program_id()), Err(custom(PinocchioError::InvalidOwner)));
    let mut list = take_list(&w);
    list[3].data = AccountData::Other;
    assert_eq!(Take::try_from(&list, &program_id()), Err(custom(PinocchioError::InvalidAccountData)));
    let mut list = take_list(&w);
    list[4].data = AccountData::Empty;
    assert_eq!(Take::try_from(&list, &program_id()), Err(custom(PinocchioError::InvalidAccountData)));
    let mut list = take_list(&w);
    list[7] = token(w.mint_y, w.maker, 1_500);
    assert_eq!(Take::try_from(&list, &program_id()), Err(custom(PinocchioError::InvalidAccountData)));
    let mut list = take_list(&w);
    list[5] = token(w.mint_x, w.taker, 500);
    assert_eq!(Take::try_from(&list, &program_id()), Err(custom(PinocchioError::InvalidAccountData)));
    let mut list = take_list(&w);
    list[6] = token(w.mint_y, w.taker, 5);
    assert_eq!(Take::try_from(&list, &program_id()), Err(custom(PinocchioError::InvalidAccountData)));
}

#[test]
fn refund_validation_faults() {
    let w = world();
    let mut list = refund_list(&w);
    list[0].is_signer = false;
    assert_eq!(Refund::try_from(&list, &program_id()), Err(custom(PinocchioError::NotSigner)));
    let mut list = refund_list(&w);
    list[1].owner = system();
    assert_eq!(Refund::try_from(&list, &program_id()), Err(custom(PinocchioError::InvalidOwner)));
    let mut list = refund_list(&w);
    list[2].data = AccountData::Other;
    assert_eq!(
        Refund::try_from(&list, &program_id()),
        Err(custom(PinocchioError::InvalidAccountData))
    );
    let mut list = refund_list(&w);
    list[3] = absent(associated(&w.escrow, &w.mint_x));
    assert_eq!(
        Refund::try_from(&list, &program_id()),
        Err(custom(PinocchioError::InvalidAccountData))
    );
    let mut list = refund_list(&w);
    list[4] = token(w.mint_x, w.taker, 11);
    assert_eq!(
        Refund::try_from(&list, &program_id()),
        Err(custom(PinocchioError::InvalidAccountData))
    );
}

#[test]
fn take_settles_the_swap() {
    let w = world();
    let list = take_list(&w);
    let mut take = Take::try_from(&list, &program_id()).unwrap();
    let before = take.accounts;
    assert_eq!(take.process(), Ok(()));
    let after = take.accounts;
    assert!(closed(&after.vault_pda));
    assert!(closed(&after.escrow_pda));
    assert_eq!(amount_of(&after.taker_ata_a), 505);
    assert_eq!(amount_of(&after.taker_ata_a) - amount_of(&before.taker_ata_a), 500);
    assert_eq!(amount_of(&after.maker_ata_b), 1_007);
    assert_eq!(amount_of(&after.maker_ata_b) - amount_of(&before.maker_ata_b), 1_000);
    assert_eq!(amount_of(&after.taker_ata_b), 500);
    assert_eq!(after.taker.lamports, 1_030);
    assert_eq!(after.maker.lamports, 2_020);
    assert_eq!(after.mint_a, before.mint_a);
    assert_eq!(after.mint_b, before.mint_b);
    assert_eq!(take.program_id, program_id());
}

#[test]
fn refund_returns_the_deposit() {
    let w = world();
    let list = refund_list(&w);
    let mut refund = Refund::try_from(&list, &program_id()).unwrap();
    let before = refund.accounts;
    assert_eq!(refund.process(), Ok(()));
    let after = refund.accounts;
    assert!(closed(&after.vault_pda));
    assert!(closed(&after.escrow_pda));
    assert_eq!(amount_of(&after.maker_ata_a), 511);
    assert_eq!(amount_of(&after.maker_ata_a) - amount_of(&before.maker_ata_a), 500);
    assert_eq!(after.maker.lamports, 2_050);
    assert_eq!(after.mint_a, before.mint_a);
}

#[test]
fn take_creates_missing_accounts() {
    let w = world();
    let mut list = take_list(&w);
    list[6] = absent(associated(&w.taker, &w.mint_x));
    list[8] = absent(associated(&w.maker, &w.mint_y));
    let mut take = Take::try_from(&list, &program_id()).unwrap();
    assert_eq!(amount_of(&take.accounts.taker_ata_a), 0);
    assert_eq!(amount_of(&take.accounts.maker_ata_b), 0);
    assert_eq!(take.process(), Ok(()));
    assert_eq!(amount_of(&take.accounts.taker_ata_a), 500);
    assert_eq!(amount_of(&take.accounts.maker_ata_b), 1_000);
}

#[test]
fn validation_keeps_existing_balances() {
    let w = world();
    let list = take_list(&w);
    let first = Take::try_from(&list, &program_id()).unwrap();
    let second = Take::try_from(&list, &program_id()).unwrap();
    assert_eq!(first, second);
    assert_eq!(first.accounts.taker_ata_a, list[6]);
    assert_eq!(first.accounts.maker_ata_b, list[8]);
    let list = refund_list(&w);
    let refund = Refund::try_from(&list, &program_id()).unwrap();
    assert_eq!(refund.accounts.maker_ata_a, list[4]);
    assert_eq!(Refund::try_from(&list, &program_id()).unwrap(), refund);
}

#[test]
fn wrong_record_address_is_refused() {
    let w = world();
    let mut list = take_list(&w);
    list[2].address = addr(33);
    list[5] = token(w.mint_x, addr(33), 500);
    let mut take = Take::try_from(&list, &program_id()).unwrap();
    let before = take;
    assert_eq!(take.process(), Err(custom(PinocchioError::InvalidAddress)));
    assert_eq!(take, before);
    let mut list = refund_list(&w);
    list[1].address = addr(33);
    list[3] = token(w.mint_x, addr(33), 500);
    let mut refund = Refund::try_from(&list, &program_id()).unwrap();
    let before = refund;
    assert_eq!(refund.process(), Err(custom(PinocchioError::InvalidAddress)));
    assert_eq!(refund, before);
}

#[test]
fn wrong_seed_bump_or_program_is_refused() {
    let w = world();
    let list = take_list(&w);
    let valid = Take::try_from(&list, &program_id()).unwrap();
    let mut take = valid;
    take.accounts.escrow_pda.data = AccountData::Record(Escrow { seed: 43, ..w.record });
    assert_eq!(take.process(), Err(custom(PinocchioError::InvalidAddress)));
    let mut take = valid;
    take.accounts.escrow_pda.data = AccountData::Record(Escrow { bump: 8, ..w.record });
    assert_eq!(take.process(), Err(custom(PinocchioError::InvalidAddress)));
    let mut take = valid;
    take.program_id = addr(1);
    assert_eq!(take.process(), Err(custom(PinocchioError::InvalidAddress)));
}

#[test]
fn maker_slot_must_hold_the_records_maker() {
    let w = world();
    let mut list = take_list(&w);
    list[1].address = addr(99);
    list[8] = token(w.mint_y, addr(99), 7);
    let mut take = Take::try_from(&list, &program_id()).unwrap();
    assert_eq!(take.process(), Err(custom(PinocchioError::InvalidAddress)));
    let mut list = refund_list(&w);
    list[0].address = addr(99);
    list[4] = token(w.mint_x, addr(99), 11);
    let mut refund = Refund::try_from(&list, &program_id()).unwrap();
    assert_eq!(refund.process(), Err(custom(PinocchioError::InvalidAddress)));
}

#[test]
fn unsigned_settlement_is_refused() {
    let w = world();
    let mut take = Take::try_from(&take_list(&w), &program_id()).unwrap();
    take.accounts.taker.is_signer = false;
    take.accounts.escrow_pda.address = addr(33);
    let before = take;
    assert_eq!(take.process(), Err(custom(PinocchioError::NotSigner)));
    assert_eq!(take, before);
    let mut refund = Refund::try_from(&refund_list(&w), &program_id()).unwrap();
    refund.accounts.maker.is_signer = false;
    let before = refund;
    assert_eq!(refund.process(), Err(custom(PinocchioError::NotSigner)));
    assert_eq!(refund, before);
}

#[test]
fn failed_take_changes_nothing() {
    let w = world();
    let mut list = take_list(&w);
    list[7] = token(w.mint_y, w.taker, 999);
    let mut take = Take::try_from(&list, &program_id()).unwrap();
    let before = take;
    assert_eq!(take.process(), Err(ProgramError::InsufficientFunds));
    assert_eq!(take, before);
    let mut list = take_list(&w);
    list[0].lamports = u64::MAX;
    let mut take = Take::try_from(&list, &program_id()).unwrap();
    let before = take;
    assert_eq!(take.process(), Err(ProgramError::ArithmeticOverflow));
    assert_eq!(take, before);
    let mut list = take_list(&w);
    list[6] = token(w.mint_x, w.taker, u64::MAX);
    let mut take = Take::try_from(&list, &program_id()).unwrap();
    assert_eq!(take.process(), Err(ProgramError::ArithmeticOverflow));
}

#[test]
fn failed_refund_changes_nothing() {
    let w = world();
    let mut list = refund_list(&w);
    list[0].lamports = u64::MAX - 40;
    let mut refund = Refund::try_from(&list, &program_id()).unwrap();
    let before = refund;
    assert_eq!(refund.process(), Err(ProgramError::ArithmeticOverflow));
    assert_eq!(refund, before);
    let mut refund = Refund::try_from(&refund_list(&w), &program_id()).unwrap();
    refund.accounts.escrow_pda.data = AccountData::Other;
    let before = refund;
    assert_eq!(refund.process(), Err(custom(PinocchioError::InvalidAccountData)));
    assert_eq!(refund, before);
}

#[test]
fn settlement_happens_once() {
    let w = world();
    let mut take = Take::try_from(&take_list(&w), &program_id()).unwrap();
    assert_eq!(take.process(), Ok(()));
    let settled = take;
    assert_eq!(take.process(), Err(custom(PinocchioError::InvalidAccountData)));
    assert_eq!(take, settled);
    let a = settled.accounts;
    let again = vec![
        a.taker,
        a.maker,
        a.escrow_pda,
        a.mint_a,
        a.mint_b,
        a.vault_pda,
        a.taker_ata_a,
        a.taker_ata_b,
        a.maker_ata_b,
        a.system_program,
        a.token_program,
        absent(addr(199)),
    ];
    assert_eq!(Take::try_from(&again, &program_id()), Err(custom(PinocchioError::InvalidOwner)));

    let mut refund = Refund::try_from(&refund_list(&w), &program_id()).unwrap();
    assert_eq!(refund.process(), Ok(()));
    let settled = refund;
    assert_eq!(refund.process(), Err(custom(PinocchioError::InvalidAccountData)));
    assert_eq!(refund, settled);
    let a = settled.accounts;
    let again = vec![
        a.maker,
        a.escrow_pda,
        a.mint_a,
        a.vault_pda,
        a.maker_ata_a,
        a.system_program,
        a.token_program,
        absent(addr(199)),
    ];
    assert_eq!(Refund::try_from(&again, &program_id()), Err(custom(PinocchioError::InvalidOwner)));
}

#[test]
fn refund_after_take_is_refused() {
    let w = world();
    let mut take = Take::try_from(&take_list(&w), &program_id()).unwrap();
    assert_eq!(take.process(), Ok(()));
    let mut list = refund_list(&w);
    list[1] = take.accounts.escrow_pda;
    list[3] = take.accounts.vault_pda;
    assert_eq!(Refund::try_from(&list, &program_id()), Err(custom(PinocchioError::InvalidOwner)));
    let mut refund = Refund::try_from(&refund_list(&w), &program_id()).unwrap();
    refund.accounts.escrow_pda = take.accounts.escrow_pda;
    assert_eq!(refund.process(), Err(custom(PinocchioError::InvalidAccountData)));
}

#[test]
fn scenario_take_then_refund_on_the_same_record() {
    let w = world();
    assert_eq!(w.record.seed, 42);
    assert_eq!(w.record.bump, 7);
    assert_eq!(w.record.receive, 1000);
    let mut list = take_list(&w);
    list[6] = token(w.mint_x, w.taker, 0);
    list[8] = token(w.mint_y, w.maker, 0);
    let mut take = Take::try_from(&list, &program_id()).unwrap();
    assert_eq!(take.process(), Ok(()));
    assert!(closed(&take.accounts.vault_pda));
    assert_eq!(amount_of(&take.accounts.taker_ata_a), 500);
    assert_eq!(amount_of(&take.accounts.maker_ata_b), 1000);
    assert!(closed(&take.accounts.escrow_pda));
    assert_eq!(take.accounts.taker.lamports, 1_000 + 30);

    let mut list = refund_list(&w);
    list[4] = token(w.mint_x, w.maker, 0);
    let mut refund = Refund::try_from(&list, &program_id()).unwrap();
    assert_eq!(refund.process(), Ok(()));
    assert!(closed(&refund.accounts.vault_pda));
    assert_eq!(amount_of(&refund.accounts.maker_ata_a), 500);
    assert!(closed(&refund.accounts.escrow_pda));
    assert_eq!(refund.accounts.maker.lamports, 2_000 + 20 + 30);
}

#[test]
fn take_steps_run_in_order() {
    let w = world();
    let take = Take::try_from(&take_list(&w), &program_id()).unwrap();
    let signing = Signing::Delegated { maker: w.maker, seed: 42, bump: 7 };
    let expected = vec![
        Step::Transfer {
            from: associated(&w.escrow, &w.mint_x),
            to: associated(&w.taker, &w.mint_x),
            authority: w.escrow,
            amount: 500,
            signing,
        },
        Step::CloseAccount {
            account: associated(&w.escrow, &w.mint_x),
            destination: w.maker,
            authority: w.escrow,
            signing,
        },
        Step::Transfer {
            from: associated(&w.taker, &w.mint_y),
            to: associated(&w.maker, &w.mint_y),
            authority: w.taker,
            amount: 1000,
            signing: Signing::Direct,
        },
        Step::CloseRecord { account: w.escrow, destination: w.taker },
    ];
    assert_eq!(take.steps(), Ok(expected));
}

#[test]
fn refund_steps_run_in_order() {
    let w = world();
    let refund = Refund::try_from(&refund_list(&w), &program_id()).unwrap();
    let signing = Signing::Delegated { maker: w.maker, seed: 42, bump: 7 };
    let expected = vec![
        Step::Transfer {
            from: associated(&w.escrow, &w.mint_x),
            to: associated(&w.maker, &w.mint_x),
            authority: w.escrow,
            amount: 500,
            signing,
        },
        Step::CloseAccount {
            account: associated(&w.escrow, &w.mint_x),
            destination: w.maker,
            authority: w.escrow,
            signing,
        },
        Step::CloseRecord { account: w.escrow, destination: w.maker },
    ];
    assert_eq!(refund.steps(), Ok(expected));
}

#[test]
fn refused_settlement_has_no_steps() {
    let w = world();
    let mut take = Take::try_from(&take_list(&w), &program_id()).unwrap();
    take.accounts.escrow_pda.address = addr(33);
    assert_eq!(take.steps(), Err(custom(PinocchioError::InvalidAddress)));
    let mut list = take_list(&w);
    list[7] = token(w.mint_y, w.taker, 999);
    let take = Take::try_from(&list, &program_id()).unwrap();
    assert_eq!(take.steps(), Err(ProgramError::InsufficientFunds));
    let mut refund = Refund::try_from(&refund_list(&w), &program_id()).unwrap();
    refund.accounts.maker.is_signer = false;
    assert_eq!(refund.steps(), Err(custom(PinocchioError::NotSigner)));
}

#[test]
fn associated_address_matches_the_ledger() {
    let w = world();
    let program = solana_address::Address::from_str_const(
        "ATokenGPvbdGVxr1b2hvZbsiqW5xWH25efTNsLJA8knL",
    );
    assert_eq!(escrow_settlement::address::associated_token_program().bytes, program.to_bytes());
    let (expected, _) = solana_address::Address::find_program_address(
        &[&w.taker.bytes, &token_program().bytes, &w.mint_x.bytes],
        &program,
    );
    let found = derive_associated(&w.taker, &token_program(), &w.mint_x).unwrap();
    assert_eq!(found.bytes, expected.to_bytes());
    assert_ne!(found, w.taker);
    assert_ne!(found, associated(&w.maker, &w.mint_x));
    assert_ne!(found, associated(&w.taker, &w.mint_y));
    assert_ne!(Some(found), derive_associated(&w.taker, &addr(5), &w.mint_x));
}

#[test]
fn token_account_at_another_address_is_refused() {
    let w = world();
    let mut held = token(w.mint_x, w.taker, 5);
    assert_eq!(check_associated_address(&held, &w.taker, &w.mint_x, &token_program()), Ok(()));
    held.address = addr(9);
    assert_eq!(
        check_associated_address(&held, &w.taker, &w.mint_x, &token_program()),
        Err(PinocchioError::InvalidAddress)
    );
    assert_eq!(
        check_associated_account(&held, &w.taker, &w.mint_x, &token_program()),
        Err(PinocchioError::InvalidAddress)
    );
    assert_eq!(
        init_associated_account_if_needed(&held, &w.taker, &w.mint_x, &token_program()),
        Err(PinocchioError::InvalidAddress)
    );
    assert_eq!(
        init_associated_account_if_needed(&absent(addr(9)), &w.taker, &w.mint_x, &token_program()),
        Err(PinocchioError::InvalidAddress)
    );
    let mut list = take_list(&w);
    list[5].address = addr(9);
    assert_eq!(Take::try_from(&list, &program_id()), Err(custom(PinocchioError::InvalidAddress)));
    let mut list = take_list(&w);
    list[7].address = addr(9);
    assert_eq!(Take::try_from(&list, &program_id()), Err(custom(PinocchioError::InvalidAddress)));
    let mut list = take_list(&w);
    list[8] = absent(addr(9));
    assert_eq!(Take::try_from(&list, &program_id()), Err(custom(PinocchioError::InvalidAddress)));
    let mut list = refund_list(&w);
    list[3].address = addr(9);
    assert_eq!(Refund::try_from(&list, &program_id()), Err(custom(PinocchioError::InvalidAddress)));
    let mut list = refund_list(&w);
    list[4] = absent(addr(9));
    assert_eq!(Refund::try_from(&list, &program_id()), Err(custom(PinocchioError::InvalidAddress)));
}

#[test]
fn record_decodes_from_bytes() {
    let w = world();
    let mut bytes: Vec<u8> = Vec::new();
    bytes.extend_from_slice(&42u64.to_le_bytes());
    bytes.extend_from_slice(&w.maker.bytes);
    bytes.extend_from_slice(&w.mint_x.bytes);
    bytes.extend_from_slice(&w.mint_y.bytes);
    bytes.extend_from_slice(&1000u64.to_le_bytes());
    bytes.push(7);
    assert_eq!(bytes.len(), 113);
    assert_eq!(Escrow::from_bytes(&bytes), Ok(w.record));
    bytes[0] = 0x01;
    bytes[1] = 0x02;
    bytes[104] = 0xff;
    bytes[111] = 0x80;
    let decoded = Escrow::from_bytes(&bytes).unwrap();
    assert_eq!(decoded.seed, 0x0201);
    assert_eq!(decoded.receive, 0x8000_0000_0000_03ff);
    bytes.push(0);
    assert_eq!(Escrow::from_bytes(&bytes), Err(PinocchioError::InvalidAccountData));
    assert_eq!(Escrow::from_bytes(&bytes[..112]), Err(PinocchioError::InvalidAccountData));
    assert_eq!(Escrow::from_bytes(&[]), Err(PinocchioError::InvalidAccountData));
    let from = Address::from_slice(&bytes, 8);
    assert_eq!(from, w.maker);
}
