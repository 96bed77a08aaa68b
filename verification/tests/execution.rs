use multisig::{
    approve, create_transaction, execute_transaction, initialize, record_execution, AccountMeta,
    Instruction, Multisig, MultisigError, Pubkey, Transaction, TransactionAccount,
};

fn key(b: u8) -> Pubkey {
    Pubkey::new([b; 32])
}

fn registry_key() -> Pubkey {
    key(100)
}

fn signer() -> Pubkey {
    key(200)
}

const NOW: i64 = 1_700_000_000;

fn abc(threshold: u64) -> Multisig {
    initialize(vec![key(1), key(2), key(3)], threshold, 0).unwrap()
}

fn resources(n: usize) -> Vec<TransactionAccount> {
    (0..n)
        .map(|i| TransactionAccount { pubkey: key(10 + i as u8), is_signer: i % 2 == 1, is_writable: i % 3 == 0 })
        .collect()
}

fn proposal(registry: &Multisig, n: usize) -> Transaction {
    create_transaction(registry_key(), registry, &key(1), key(50), resources(n), vec![5, 6, 7]).unwrap()
}

#[test]
fn scenario_quorum_then_single_execution() {
    let registry = abc(2);
    let mut tx = proposal(&registry, 2);
    assert_eq!(tx.signers, vec![true, false, false]);
    assert_eq!(approve(&registry_key(), &registry, &mut tx, &key(2)), Ok(()));
    assert_eq!(tx.signers, vec![true, true, false]);
    let ix = execute_transaction(&registry_key(), &registry, &tx, &signer(), 2, NOW).unwrap();
    assert_eq!(ix.program_id, key(50));
    assert_eq!(record_execution(&registry_key(), &registry, &mut tx, 2, NOW), Ok(()));
    assert_eq!(tx.executed_at, NOW);
    assert_eq!(approve(&registry_key(), &registry, &mut tx, &key(3)), Ok(()));
    assert_eq!(tx.signers, vec![true, true, true]);
    assert_eq!(
        execute_transaction(&registry_key(), &registry, &tx, &signer(), 2, NOW),
        Err(MultisigError::AlreadyExecuted)
    );
    assert_eq!(tx.executed_at, NOW);
}

#[test]
fn scenario_stale_proposal_cannot_be_approved() {
    let mut registry = abc(1);
    let mut tx = proposal(&registry, 0);
    registry.owners_version = 1;
    assert_eq!(
        approve(&registry_key(), &registry, &mut tx, &key(2)),
        Err(MultisigError::OwnerSetChanged)
    );
    assert_eq!(tx.signers, vec![true, false, false]);
}

#[test]
fn scenario_resource_count_must_match() {
    let registry = abc(1);
    let tx = proposal(&registry, 3);
    assert_eq!(
        execute_transaction(&registry_key(), &registry, &tx, &signer(), 2, NOW),
        Err(MultisigError::InvalidAccounts)
    );
    assert_eq!(
        execute_transaction(&registry_key(), &registry, &tx, &signer(), 4, NOW),
        Err(MultisigError::InvalidAccounts)
    );
    assert!(execute_transaction(&registry_key(), &registry, &tx, &signer(), 3, NOW).is_ok());
}

#[test]
fn execute_below_quorum_is_refused() {
    let registry = abc(2);
    let tx = proposal(&registry, 1);
    let before = tx.clone();
    assert_eq!(
        execute_transaction(&registry_key(), &registry, &tx, &signer(), 1, NOW),
        Err(MultisigError::NotEnoughSignatures)
    );
    assert_eq!(tx, before);
    assert_eq!(tx.executed_at, 0);
}

#[test]
fn execute_at_exact_quorum_is_allowed() {
    let registry = abc(3);
    let mut tx = proposal(&registry, 1);
    approve(&registry_key(), &registry, &mut tx, &key(2)).unwrap();
    assert_eq!(
        execute_transaction(&registry_key(), &registry, &tx, &signer(), 1, NOW),
        Err(MultisigError::NotEnoughSignatures)
    );
    approve(&registry_key(), &registry, &mut tx, &key(3)).unwrap();
    assert!(execute_transaction(&registry_key(), &registry, &tx, &signer(), 1, NOW).is_ok());
}

#[test]
fn execute_for_another_registry_is_refused() {
    let registry = abc(1);
    let tx = proposal(&registry, 1);
    assert_eq!(
        execute_transaction(&key(101), &registry, &tx, &signer(), 1, NOW),
        Err(MultisigError::InvalidMultisig)
    );
}

#[test]
fn execute_examines_conditions_in_order() {
    let registry = abc(2);
    let mut tx = proposal(&registry, 3);
    // below quorum, wrong count, wrong registry: quorum is reported
    assert_eq!(
        execute_transaction(&key(101), &registry, &tx, &signer(), 0, NOW),
        Err(MultisigError::NotEnoughSignatures)
    );
    approve(&registry_key(), &registry, &mut tx, &key(2)).unwrap();
    // wrong count, wrong registry: the count is reported
    assert_eq!(
        execute_transaction(&key(101), &registry, &tx, &signer(), 0, NOW),
        Err(MultisigError::InvalidAccounts)
    );
    record_execution(&registry_key(), &registry, &mut tx, 3, 77).unwrap();
    // executed comes before everything else
    assert_eq!(
        execute_transaction(&key(101), &registry, &tx, &signer(), 0, NOW),
        Err(MultisigError::AlreadyExecuted)
    );
}

#[test]
fn record_execution_writes_once() {
    let registry = abc(1);
    let mut tx = proposal(&registry, 0);
    assert_eq!(record_execution(&registry_key(), &registry, &mut tx, 0, 42), Ok(()));
    assert_eq!(tx.executed_at, 42);
    let marked = tx.clone();
    assert_eq!(
        record_execution(&registry_key(), &registry, &mut tx, 0, 43),
        Err(MultisigError::AlreadyExecuted)
    );
    assert_eq!(tx, marked);
    assert_eq!(
        record_execution(&registry_key(), &registry, &mut tx, 0, 0),
        Err(MultisigError::AlreadyExecuted)
    );
    assert_eq!(tx.executed_at, 42);
}

#[test]
fn record_execution_changes_only_the_time() {
    let registry = abc(1);
    let mut tx = proposal(&registry, 2);
    let before = tx.clone();
    record_execution(&registry_key(), &registry, &mut tx, 2, -5).unwrap();
    assert_eq!(tx.executed_at, -5);
    tx.executed_at = 0;
    assert_eq!(tx, before);
}

#[test]
fn record_execution_asks_for_quorum() {
    let registry = abc(2);
    let mut tx = proposal(&registry, 1);
    let before = tx.clone();
    assert_eq!(
        record_execution(&registry_key(), &registry, &mut tx, 1, 99),
        Err(MultisigError::NotEnoughSignatures)
    );
    assert_eq!(tx, before);
    approve(&registry_key(), &registry, &mut tx, &key(3)).unwrap();
    let approved = tx.clone();
    assert_eq!(
        record_execution(&registry_key(), &registry, &mut tx, 2, 99),
        Err(MultisigError::InvalidAccounts)
    );
    assert_eq!(
        record_execution(&key(101), &registry, &mut tx, 1, 99),
        Err(MultisigError::InvalidMultisig)
    );
    assert_eq!(tx, approved);
    assert_eq!(record_execution(&registry_key(), &registry, &mut tx, 1, 99), Ok(()));
    assert_eq!(tx.executed_at, 99);
}

#[test]
fn clock_reading_of_zero_is_refused() {
    let registry = abc(1);
    let mut tx = proposal(&registry, 0);
    let before = tx.clone();
    assert_eq!(
        execute_transaction(&registry_key(), &registry, &tx, &signer(), 0, 0),
        Err(MultisigError::InvalidTimestamp)
    );
    assert_eq!(
        record_execution(&registry_key(), &registry, &mut tx, 0, 0),
        Err(MultisigError::InvalidTimestamp)
    );
    assert_eq!(tx, before);
    // every other reading is taken, negative ones too, and none leaves the proposal pending
    assert_eq!(record_execution(&registry_key(), &registry, &mut tx, 0, -1), Ok(()));
    assert_eq!(tx.executed_at, -1);
    assert_eq!(
        execute_transaction(&registry_key(), &registry, &tx, &signer(), 0, NOW),
        Err(MultisigError::AlreadyExecuted)
    );
}

#[test]
fn clock_reading_is_examined_last() {
    let mut registry = abc(2);
    let tx = proposal(&registry, 1);
    assert_eq!(
        execute_transaction(&registry_key(), &registry, &tx, &signer(), 1, 0),
        Err(MultisigError::NotEnoughSignatures)
    );
    registry.threshold = 1;
    registry.owners_version = 1;
    assert_eq!(
        execute_transaction(&registry_key(), &registry, &tx, &signer(), 1, 0),
        Err(MultisigError::OwnerSetChanged)
    );
}

#[test]
fn stale_proposal_with_quorum_is_not_executed() {
    let mut registry = abc(2);
    let mut tx = proposal(&registry, 2);
    approve(&registry_key(), &registry, &mut tx, &key(2)).unwrap();
    assert_eq!(tx.signers, vec![true, true, false]);
    assert!(execute_transaction(&registry_key(), &registry, &tx, &signer(), 2, NOW).is_ok());
    registry.owners_version = 1;
    let before = tx.clone();
    assert_eq!(
        approve(&registry_key(), &registry, &mut tx, &key(3)),
        Err(MultisigError::OwnerSetChanged)
    );
    assert_eq!(
        execute_transaction(&registry_key(), &registry, &tx, &signer(), 2, NOW),
        Err(MultisigError::OwnerSetChanged)
    );
    assert_eq!(
        record_execution(&registry_key(), &registry, &mut tx, 2, NOW),
        Err(MultisigError::OwnerSetChanged)
    );
    assert_eq!(tx, before);
    assert_eq!(tx.executed_at, 0);
}

#[test]
fn owner_set_is_examined_after_the_registry() {
    let mut registry = abc(1);
    let tx = proposal(&registry, 1);
    registry.owners_version = 7;
    assert_eq!(
        execute_transaction(&key(101), &registry, &tx, &signer(), 1, NOW),
        Err(MultisigError::InvalidMultisig)
    );
    assert_eq!(
        execute_transaction(&registry_key(), &registry, &tx, &signer(), 0, NOW),
        Err(MultisigError::InvalidAccounts)
    );
    assert_eq!(
        execute_transaction(&registry_key(), &registry, &tx, &signer(), 1, NOW),
        Err(MultisigError::OwnerSetChanged)
    );
}

#[test]
fn failed_invocation_leaves_proposal_pending() {
    let registry = abc(1);
    let tx = proposal(&registry, 1);
    let first = execute_transaction(&registry_key(), &registry, &tx, &signer(), 1, NOW).unwrap();
    // the host reports failure: nothing is recorded, and a later attempt is admitted again
    assert_eq!(tx.executed_at, 0);
    let second = execute_transaction(&registry_key(), &registry, &tx, &signer(), 1, NOW).unwrap();
    assert_eq!(first, second);
}

#[test]
fn instruction_substitutes_the_signing_authority() {
    let tx = Transaction {
        multisig: registry_key(),
        program_id: key(50),
        accounts: vec![
            TransactionAccount { pubkey: key(10), is_signer: true, is_writable: false },
            TransactionAccount { pubkey: signer(), is_signer: false, is_writable: false },
            TransactionAccount { pubkey: key(11), is_signer: false, is_writable: true },
            TransactionAccount { pubkey: key(12), is_signer: false, is_writable: false },
        ],
        data: vec![1, 2, 3, 4],
        signers: vec![true],
        executed_at: 0,
        owners_version: 0,
    };
    let ix = tx.to_instruction(&signer());
    assert_eq!(
        ix,
        Instruction {
            program_id: key(50),
            accounts: vec![
                AccountMeta { pubkey: key(10), is_signer: true, is_writable: false },
                AccountMeta { pubkey: signer(), is_signer: true, is_writable: true },
                AccountMeta { pubkey: key(11), is_signer: false, is_writable: true },
                AccountMeta { pubkey: key(12), is_signer: false, is_writable: false },
            ],
            data: vec![1, 2, 3, 4],
        }
    );
}

#[test]
fn instruction_without_the_authority_keeps_all_rights() {
    let registry = abc(1);
    let tx = proposal(&registry, 4);
    let ix = tx.to_instruction(&signer());
    assert_eq!(ix.accounts.len(), 4);
    for (meta, acc) in ix.accounts.iter().zip(tx.accounts.iter()) {
        assert_eq!(meta.pubkey, acc.pubkey);
        assert_eq!(meta.is_signer, acc.is_signer);
        assert_eq!(meta.is_writable, acc.is_writable);
    }
    assert_eq!(ix.data, vec![5, 6, 7]);
}

#[test]
fn instruction_from_proposal_uses_the_registry_key() {
    let tx = Transaction {
        multisig: registry_key(),
        program_id: key(50),
        accounts: vec![
            TransactionAccount { pubkey: registry_key(), is_signer: false, is_writable: false },
            TransactionAccount { pubkey: key(11), is_signer: false, is_writable: false },
        ],
        data: vec![],
        signers: vec![],
        executed_at: 0,
        owners_version: 0,
    };
    let expected = tx.to_instruction(&registry_key());
    assert_eq!(Instruction::from(&tx), expected);
    assert!(expected.accounts[0].is_signer && expected.accounts[0].is_writable);
    assert!(!expected.accounts[1].is_signer && !expected.accounts[1].is_writable);
    assert_eq!(Instruction::from(tx), expected);
}

#[test]
fn executed_instruction_is_the_proposals() {
    let registry = abc(1);
    let tx = proposal(&registry, 2);
    let ix = execute_transaction(&registry_key(), &registry, &tx, &key(10), 2, NOW).unwrap();
    assert_eq!(ix, tx.to_instruction(&key(10)));
    assert!(ix.accounts[0].is_signer && ix.accounts[0].is_writable);
}
