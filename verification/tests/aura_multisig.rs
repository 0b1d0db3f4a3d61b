use aura_programs::accounts::{Account, Clock, Signer, SystemTransfer};
use aura_programs::aura_multisig::contexts::{
    ApproveTransaction, CreateTransaction, CreateTransactionBumps, ExecuteTransaction,
    InitializeMultisig, InitializeMultisigBumps,
};
use aura_programs::aura_multisig::events::{
    TransactionApproved, TransactionCreated, TransactionExecuted,
};
use aura_programs::aura_multisig::seeds::multisig_signer_seeds;
use aura_programs::aura_multisig::state::{
    count_approvals, find_owner, Multisig, MultisigError, MultisigTransaction,
    TransactionCategory,
};
use aura_programs::aura_multisig::treasury::{
    approve_transaction, copy_keys, create_transaction, empty_approvals, execute_transaction,
    initialize_multisig,
};
use aura_programs::pubkey::Pubkey;

fn key(tag: u8) -> Pubkey {
    Pubkey::new_from_array([tag; 32])
}

fn at(unix_timestamp: i64) -> Clock {
    Clock { slot: 1, unix_timestamp }
}

fn blank_multisig() -> Account<Multisig> {
    Account {
        key: key(1),
        lamports: 0,
        data: Multisig { owners: Vec::new(), threshold: 0, nonce: 9, bump: 0 },
    }
}

fn blank_transaction() -> Account<MultisigTransaction> {
    Account {
        key: key(2),
        lamports: 0,
        data: MultisigTransaction {
            multisig: Pubkey::default(),
            amount: 0,
            destination: Pubkey::default(),
            category: TransactionCategory::Operations,
            executed: false,
            approvals: Vec::new(),
            created_at: 0,
            executed_at: None,
            bump: 0,
        },
    }
}

fn owners() -> Vec<Pubkey> {
    vec![key(10), key(11), key(12)]
}

/// Three owners, two approvals needed.
fn treasury() -> Account<Multisig> {
    let mut ctx = InitializeMultisig {
        multisig: blank_multisig(),
        bumps: InitializeMultisigBumps { multisig: 250 },
    };
    initialize_multisig(&mut ctx, owners(), 2).unwrap();
    ctx.multisig
}

fn payment() -> Account<MultisigTransaction> {
    let mut ctx = CreateTransaction {
        transaction: blank_transaction(),
        multisig: treasury(),
        bumps: CreateTransactionBumps { transaction: 249 },
    };
    create_transaction(&mut ctx, 5_000, key(40), TransactionCategory::Marketing, at(100));
    ctx.transaction
}

fn approved_by(transaction: Account<MultisigTransaction>, owner: u8) -> ApproveTransaction {
    let mut ctx = ApproveTransaction {
        transaction,
        multisig: treasury(),
        signer: Signer { key: key(owner), lamports: 0 },
    };
    approve_transaction(&mut ctx).unwrap();
    ctx
}

#[test]
fn treasury_is_set_up_with_owners_and_threshold() {
    let mut ctx = InitializeMultisig {
        multisig: blank_multisig(),
        bumps: InitializeMultisigBumps { multisig: 250 },
    };
    let event = initialize_multisig(&mut ctx, owners(), 2).unwrap();
    assert_eq!(event.multisig, key(1));
    assert_eq!(event.owners, owners());
    assert_eq!(event.threshold, 2);
    assert_eq!(
        ctx.multisig.data,
        Multisig { owners: owners(), threshold: 2, nonce: 0, bump: 250 }
    );
}

#[test]
fn threshold_must_be_between_one_and_the_number_of_owners() {
    let fresh = || InitializeMultisig {
        multisig: blank_multisig(),
        bumps: InitializeMultisigBumps { multisig: 250 },
    };
    let mut ctx = fresh();
    assert_eq!(initialize_multisig(&mut ctx, owners(), 0), Err(MultisigError::InvalidThreshold));
    assert_eq!(initialize_multisig(&mut ctx, owners(), 4), Err(MultisigError::InvalidThreshold));
    assert_eq!(initialize_multisig(&mut ctx, Vec::new(), 1), Err(MultisigError::InvalidThreshold));
    assert_eq!(ctx, fresh());
    assert!(initialize_multisig(&mut fresh(), owners(), 1).is_ok());
    assert!(initialize_multisig(&mut fresh(), owners(), 3).is_ok());

    let ten: Vec<Pubkey> = (0..10).map(key).collect();
    let eleven: Vec<Pubkey> = (0..11).map(key).collect();
    assert!(initialize_multisig(&mut fresh(), ten, 10).is_ok());
    assert_eq!(initialize_multisig(&mut fresh(), eleven.clone(), 11), Err(MultisigError::TooManyOwners));
    assert_eq!(initialize_multisig(&mut fresh(), eleven, 12), Err(MultisigError::InvalidThreshold));
    // The number of owners is compared as it is, however large.
    let many: Vec<Pubkey> = (0..=255).map(key).chain(std::iter::once(key(0))).collect();
    assert_eq!(many.len(), 257);
    assert_eq!(initialize_multisig(&mut fresh(), many, 2), Err(MultisigError::TooManyOwners));
}

#[test]
fn a_payment_starts_with_no_approvals() {
    let mut ctx = CreateTransaction {
        transaction: blank_transaction(),
        multisig: treasury(),
        bumps: CreateTransactionBumps { transaction: 249 },
    };
    let event =
        create_transaction(&mut ctx, 5_000, key(40), TransactionCategory::Marketing, at(100));
    assert_eq!(
        event,
        TransactionCreated {
            multisig: key(1),
            transaction: key(2),
            amount: 5_000,
            destination: key(40),
            category: TransactionCategory::Marketing,
            created_at: 100,
        }
    );
    assert_eq!(
        ctx.transaction.data,
        MultisigTransaction {
            multisig: key(1),
            amount: 5_000,
            destination: key(40),
            category: TransactionCategory::Marketing,
            executed: false,
            approvals: vec![false, false, false],
            created_at: 100,
            executed_at: None,
            bump: 249,
        }
    );
    assert_eq!(ctx.multisig, treasury());
}

#[test]
fn each_owner_approves_once() {
    let mut ctx = ApproveTransaction {
        transaction: payment(),
        multisig: treasury(),
        signer: Signer { key: key(11), lamports: 0 },
    };
    assert_eq!(
        approve_transaction(&mut ctx),
        Ok(TransactionApproved {
            multisig: key(1),
            transaction: key(2),
            approver: key(11),
            approval_count: 1,
        })
    );
    assert_eq!(ctx.transaction.data.approvals, vec![false, true, false]);
    let before = ctx.clone();
    assert_eq!(approve_transaction(&mut ctx), Err(MultisigError::AlreadyApproved));
    assert_eq!(ctx, before);

    ctx.signer.key = key(12);
    assert_eq!(approve_transaction(&mut ctx).unwrap().approval_count, 2);
    assert_eq!(ctx.transaction.data.approvals, vec![false, true, true]);

    ctx.signer.key = key(66);
    assert_eq!(approve_transaction(&mut ctx), Err(MultisigError::NotOwner));
    assert_eq!(ctx.transaction.data.approvals, vec![false, true, true]);
}

#[test]
fn an_owner_without_a_slot_cannot_approve() {
    let mut short = payment();
    short.data.approvals = vec![false];
    let mut ctx = ApproveTransaction {
        transaction: short,
        multisig: treasury(),
        signer: Signer { key: key(12), lamports: 0 },
    };
    let before = ctx.clone();
    assert_eq!(approve_transaction(&mut ctx), Err(MultisigError::NotOwner));
    assert_eq!(ctx, before);
    ctx.signer.key = key(10);
    assert!(approve_transaction(&mut ctx).is_ok());
}

#[test]
fn a_payment_is_executed_once_the_threshold_is_reached() {
    let one = approved_by(payment(), 10);
    let mut ctx = ExecuteTransaction {
        transaction: one.transaction.clone(),
        multisig: treasury(),
        multisig_vault: key(3),
        destination: key(40),
    };
    let before = ctx.clone();
    assert_eq!(execute_transaction(&mut ctx, at(200)), Err(MultisigError::InsufficientApprovals));
    assert_eq!(ctx, before);

    let two = approved_by(one.transaction, 12);
    let mut ctx = ExecuteTransaction {
        transaction: two.transaction,
        multisig: treasury(),
        multisig_vault: key(3),
        destination: key(40),
    };
    let (event, transfer) = execute_transaction(&mut ctx, at(200)).unwrap();
    assert_eq!(
        event,
        TransactionExecuted {
            multisig: key(1),
            transaction: key(2),
            amount: 5_000,
            destination: key(40),
            category: TransactionCategory::Marketing,
            executed_at: 200,
        }
    );
    assert_eq!(transfer, SystemTransfer { from: key(3), to: key(40), lamports: 5_000 });
    assert!(ctx.transaction.data.executed);
    assert_eq!(ctx.transaction.data.executed_at, Some(200));
    assert_eq!(ctx.transaction.data.approvals, vec![true, false, true]);

    let before = ctx.clone();
    assert_eq!(execute_transaction(&mut ctx, at(300)), Err(MultisigError::AlreadyExecuted));
    assert_eq!(ctx, before);
}

#[test]
fn approvals_are_counted_and_owners_found() {
    assert_eq!(count_approvals(&Vec::new()), 0);
    assert_eq!(count_approvals(&vec![true, false, true, true]), 3);
    assert_eq!(count_approvals(&empty_approvals(4)), 0);
    assert_eq!(empty_approvals(2), vec![false, false]);
    assert_eq!(find_owner(&owners(), &key(10)), Some(0));
    assert_eq!(find_owner(&owners(), &key(12)), Some(2));
    assert_eq!(find_owner(&owners(), &key(13)), None);
    assert_eq!(find_owner(&vec![key(5), key(6), key(5)], &key(5)), Some(0));
    assert_eq!(copy_keys(&owners()), owners());
}

#[test]
fn approval_count_is_reported_up_to_255() {
    let many: Vec<Pubkey> = (0..=255).map(key).chain((0..44).map(key)).collect();
    let mut slots = vec![true; 300];
    slots[255] = false;
    let mut transaction = payment();
    transaction.data.approvals = slots;
    let mut multisig = treasury();
    multisig.data.owners = many;
    let mut ctx = ApproveTransaction {
        transaction,
        multisig,
        signer: Signer { key: key(255), lamports: 0 },
    };
    assert_eq!(approve_transaction(&mut ctx).unwrap().approval_count, 255);
    assert_eq!(count_approvals(&ctx.transaction.data.approvals), 300);
}

#[test]
fn the_treasury_signs_with_label_address_and_bump() {
    assert_eq!(
        multisig_signer_seeds(&key(1), 250),
        vec![b"multisig".to_vec(), vec![1u8; 32], vec![250u8]]
    );
}

#[test]
fn treasury_errors_have_their_messages() {
    assert_eq!(MultisigError::InvalidThreshold.message(), "Invalid threshold");
    assert_eq!(MultisigError::TooManyOwners.message(), "Too many owners");
    assert_eq!(MultisigError::NotOwner.message(), "Not an owner");
    assert_eq!(MultisigError::AlreadyApproved.message(), "Already approved");
    assert_eq!(MultisigError::AlreadyExecuted.message(), "Already executed");
    assert_eq!(MultisigError::InsufficientApprovals.message(), "Insufficient approvals");
}
