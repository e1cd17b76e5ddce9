use ao::{settle_transaction, verify_settlement, EscrowProcess, EscrowStatus};

#[test]
fn test_create_escrow() {
    let mut process = EscrowProcess::new();
    let result = process.create_escrow(
        "test.ao".to_string(),
        "seller123".to_string(),
        "buyer123".to_string(),
        1000,
    );

    assert!(result.is_ok());
}

#[test]
fn test_escrow_flow() {
    let mut process = EscrowProcess::new();

    let escrow_id = process
        .create_escrow("test.ao".to_string(), "seller123".to_string(), "buyer123".to_string(), 1000)
        .unwrap();

    assert!(process.fund_escrow(escrow_id.clone()).is_ok());

    assert!(process.release_escrow(escrow_id.clone()).is_ok());

    let transaction = process.get_transaction(&escrow_id).unwrap();

    let settlement = settle_transaction(transaction, "tx_hash_123".to_string()).unwrap();

    assert!(verify_settlement(&settlement));
}

#[test]
fn clock_flow_leaves_a_completed_transaction() {
    let mut process = EscrowProcess::new();
    let escrow_id = process
        .create_escrow("test.ao".to_string(), "seller123".to_string(), "buyer123".to_string(), 1000)
        .unwrap();
    process.fund_escrow(escrow_id.clone()).unwrap();
    process.release_escrow(escrow_id.clone()).unwrap();
    let settlement =
        settle_transaction(process.get_transaction(&escrow_id).unwrap(), "tx_hash_123".to_string())
            .unwrap();

    assert_eq!(settlement.escrow_id, escrow_id);
    assert_eq!(settlement.domain_name, "test.ao");
    assert_eq!(settlement.seller, "seller123");
    assert_eq!(settlement.buyer, "buyer123");
    assert_eq!(settlement.amount, 1000);
    assert_eq!(settlement.transaction_hash, "tx_hash_123");

    let transaction = process.get_transaction(&escrow_id).unwrap();
    assert_eq!(transaction.status, EscrowStatus::Completed);
    assert!(!transaction.updated_at.is_before(&transaction.created_at));
    assert!(!settlement.settled_at.is_before(&transaction.created_at));
}

#[test]
fn clock_created_escrows_have_distinct_ids() {
    let mut process = EscrowProcess::new();
    let mut ids: Vec<String> = Vec::new();
    for _ in 0..50 {
        let id = process
            .create_escrow("test.ao".to_string(), "seller123".to_string(), "buyer123".to_string(), 1)
            .unwrap();
        assert!(id.starts_with("escrow_"));
        assert!(!ids.contains(&id));
        ids.push(id);
    }
}

#[test]
fn clock_cancel_of_a_pending_escrow() {
    let mut process = EscrowProcess::new();
    let id = process
        .create_escrow("test.ao".to_string(), "seller123".to_string(), "buyer123".to_string(), 1000)
        .unwrap();
    assert_eq!(process.cancel_escrow(id.clone()), Ok(()));
    assert_eq!(process.get_transaction(&id).unwrap().status, EscrowStatus::Cancelled);
}
