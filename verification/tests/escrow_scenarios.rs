use ao::escrow::ids::escrow_id;
use ao::{
    settle_transaction_at, verify_settlement, verify_settlement_with, EscrowError, EscrowProcess,
    EscrowStatus, EscrowTransaction, SettlementRecord, Timestamp,
};

const T0: i64 = 1_700_000_000;

fn at(offset: i64) -> Timestamp {
    Timestamp::new(T0 + offset, 0)
}

fn text(s: &str) -> String {
    s.to_string()
}

fn status_of(process: &mut EscrowProcess, id: &str) -> EscrowStatus {
    process.get_transaction(id).unwrap().status
}

#[test]
fn scenario_escrow_from_creation_to_settlement() {
    let mut process = EscrowProcess::new();
    let id = process.create_escrow_at(text("d1.ao"), text("S"), text("B2"), 200, at(0)).unwrap();
    assert_eq!(process.fund_escrow_at(id.clone(), at(1)), Ok(()));
    assert_eq!(process.release_escrow_at(id.clone(), at(2)), Ok(()));
    let record =
        settle_transaction_at(process.get_transaction(&id).unwrap(), text("hash1"), at(3)).unwrap();

    assert_eq!(record.amount, 200);
    assert_eq!(record.escrow_id, id);
    assert_eq!(record.domain_name, "d1.ao");
    assert_eq!(record.seller, "S");
    assert_eq!(record.buyer, "B2");
    assert_eq!(record.transaction_hash, "hash1");
    assert_eq!(record.settled_at, at(3));
    assert!(verify_settlement(&record));
    assert_eq!(status_of(&mut process, &id), EscrowStatus::Completed);
}

#[test]
fn scenario_cancel_after_funding_is_refused() {
    let mut process = EscrowProcess::new();
    let id = process.create_escrow_at(text("d1.ao"), text("S"), text("B2"), 200, at(0)).unwrap();
    process.fund_escrow_at(id.clone(), at(1)).unwrap();
    assert_eq!(process.cancel_escrow_at(id.clone(), at(2)), Err(EscrowError::InvalidState));
    assert_eq!(status_of(&mut process, &id), EscrowStatus::Funded);
    assert_eq!(process.cancel_escrow(id.clone()), Err(EscrowError::InvalidState));
    assert_eq!(status_of(&mut process, &id), EscrowStatus::Funded);
}

#[test]
fn new_escrow_is_pending_with_its_terms() {
    let mut process = EscrowProcess::new();
    let moment = Timestamp::new(T0, 5);
    let id = process.create_escrow_at(text("d1.ao"), text("S"), text("B"), 42, moment).unwrap();
    assert_eq!(id, "escrow_1700000000_0");
    let transaction = process.get_transaction(&id).unwrap();
    assert_eq!(transaction.id, "escrow_1700000000_0");
    assert_eq!(transaction.domain_name, "d1.ao");
    assert_eq!(transaction.seller, "S");
    assert_eq!(transaction.buyer, "B");
    assert_eq!(transaction.amount, 42);
    assert_eq!(transaction.status, EscrowStatus::Pending);
    assert_eq!(transaction.created_at, moment);
    assert_eq!(transaction.updated_at, moment);
}

#[test]
fn identifiers_count_up_within_one_second() {
    let mut process = EscrowProcess::new();
    let mut ids: Vec<String> = Vec::new();
    for k in 0..12 {
        let id = process.create_escrow_at(text("d.ao"), text("S"), text("B"), k, at(0)).unwrap();
        assert_eq!(id, format!("escrow_1700000000_{}", k));
        assert!(!ids.contains(&id));
        ids.push(id);
    }
    for (k, id) in ids.iter().enumerate() {
        assert_eq!(process.get_transaction(id).unwrap().amount, k as u64);
    }
}

#[test]
fn identifier_text_is_exact() {
    assert_eq!(escrow_id(0, 0), "escrow_0_0");
    assert_eq!(escrow_id(9, 10), "escrow_9_10");
    assert_eq!(escrow_id(1_700_000_000, 7), "escrow_1700000000_7");
    assert_eq!(escrow_id(-5, 1), "escrow_-5_1");
    assert_eq!(escrow_id(-1, 109), "escrow_-1_109");
    assert_eq!(escrow_id(i64::MAX, u64::MAX), "escrow_9223372036854775807_18446744073709551615");
    assert_eq!(escrow_id(i64::MIN, 1000), "escrow_-9223372036854775808_1000");
    assert_ne!(escrow_id(1, 11), escrow_id(11, 1));
}

#[test]
fn unknown_identifier_is_not_found() {
    let mut process = EscrowProcess::new();
    process.create_escrow_at(text("d1.ao"), text("S"), text("B"), 1, at(0)).unwrap();
    assert_eq!(process.fund_escrow_at(text("escrow_1"), at(1)), Err(EscrowError::NotFound));
    assert_eq!(process.release_escrow_at(text("escrow_1"), at(1)), Err(EscrowError::NotFound));
    assert_eq!(process.cancel_escrow_at(text("escrow_1"), at(1)), Err(EscrowError::NotFound));
    assert_eq!(process.fund_escrow(text("")), Err(EscrowError::NotFound));
    assert_eq!(process.release_escrow(text("")), Err(EscrowError::NotFound));
    assert_eq!(process.cancel_escrow(text("")), Err(EscrowError::NotFound));
    assert!(process.get_transaction("escrow_1").is_none());
}

#[test]
fn each_step_needs_the_status_before_it() {
    let mut process = EscrowProcess::new();
    let id = process.create_escrow_at(text("d1.ao"), text("S"), text("B"), 1, at(0)).unwrap();

    assert_eq!(process.release_escrow_at(id.clone(), at(1)), Err(EscrowError::InvalidState));
    assert_eq!(status_of(&mut process, &id), EscrowStatus::Pending);
    assert_eq!(process.fund_escrow_at(id.clone(), at(1)), Ok(()));
    assert_eq!(status_of(&mut process, &id), EscrowStatus::Funded);

    assert_eq!(process.fund_escrow_at(id.clone(), at(2)), Err(EscrowError::InvalidState));
    assert_eq!(process.release_escrow_at(id.clone(), at(2)), Ok(()));
    assert_eq!(status_of(&mut process, &id), EscrowStatus::Released);

    assert_eq!(process.fund_escrow_at(id.clone(), at(3)), Err(EscrowError::InvalidState));
    assert_eq!(process.release_escrow_at(id.clone(), at(3)), Err(EscrowError::InvalidState));
    assert_eq!(process.cancel_escrow_at(id.clone(), at(3)), Err(EscrowError::InvalidState));
    assert_eq!(status_of(&mut process, &id), EscrowStatus::Released);
    assert_eq!(process.get_transaction(&id).unwrap().updated_at, at(2));
}

#[test]
fn cancelled_escrow_stays_cancelled() {
    let mut process = EscrowProcess::new();
    let id = process.create_escrow_at(text("d1.ao"), text("S"), text("B"), 1, at(0)).unwrap();
    assert_eq!(process.cancel_escrow_at(id.clone(), at(1)), Ok(()));
    assert_eq!(status_of(&mut process, &id), EscrowStatus::Cancelled);
    assert_eq!(process.cancel_escrow_at(id.clone(), at(2)), Err(EscrowError::InvalidState));
    assert_eq!(process.fund_escrow_at(id.clone(), at(2)), Err(EscrowError::InvalidState));
    assert_eq!(process.release_escrow_at(id.clone(), at(2)), Err(EscrowError::InvalidState));
    let transaction = process.get_transaction(&id).unwrap();
    assert!(settle_transaction_at(transaction, text("h"), at(3)).is_err());
    assert_eq!(status_of(&mut process, &id), EscrowStatus::Cancelled);
}

#[test]
fn settlement_needs_a_released_escrow() {
    let mut process = EscrowProcess::new();
    let id = process.create_escrow_at(text("d1.ao"), text("S"), text("B"), 1, at(0)).unwrap();
    let pending = settle_transaction_at(process.get_transaction(&id).unwrap(), text("h"), at(1));
    assert_eq!(pending.unwrap_err(), EscrowError::InvalidState);
    assert_eq!(status_of(&mut process, &id), EscrowStatus::Pending);

    process.fund_escrow_at(id.clone(), at(1)).unwrap();
    let funded = settle_transaction_at(process.get_transaction(&id).unwrap(), text("h"), at(2));
    assert_eq!(funded.unwrap_err(), EscrowError::InvalidState);
    assert_eq!(status_of(&mut process, &id), EscrowStatus::Funded);
    assert_eq!(process.get_transaction(&id).unwrap().updated_at, at(1));
}

#[test]
fn settlement_happens_once() {
    let mut process = EscrowProcess::new();
    let id = process.create_escrow_at(text("d1.ao"), text("S"), text("B"), 1, at(0)).unwrap();
    process.fund_escrow_at(id.clone(), at(1)).unwrap();
    process.release_escrow_at(id.clone(), at(2)).unwrap();
    assert!(settle_transaction_at(process.get_transaction(&id).unwrap(), text("h"), at(3)).is_ok());
    let again = settle_transaction_at(process.get_transaction(&id).unwrap(), text("h"), at(4));
    assert_eq!(again.unwrap_err(), EscrowError::InvalidState);
    let transaction = process.get_transaction(&id).unwrap();
    assert_eq!(transaction.status, EscrowStatus::Completed);
    assert_eq!(transaction.updated_at, at(3));
}

#[test]
fn time_of_update_is_the_time_of_the_call() {
    let mut process = EscrowProcess::new();
    let id = process.create_escrow_at(text("d1.ao"), text("S"), text("B"), 1, at(100)).unwrap();
    process.fund_escrow_at(id.clone(), at(200)).unwrap();
    assert_eq!(process.get_transaction(&id).unwrap().updated_at, at(200));

    process.release_escrow_at(id.clone(), at(150)).unwrap();
    let transaction = process.get_transaction(&id).unwrap();
    assert_eq!(transaction.status, EscrowStatus::Released);
    assert_eq!(transaction.created_at, at(100));
    assert_eq!(transaction.updated_at, at(150));

    let record =
        settle_transaction_at(process.get_transaction(&id).unwrap(), text("h"), at(100)).unwrap();
    assert_eq!(record.settled_at, at(100));
    let transaction = process.get_transaction(&id).unwrap();
    assert_eq!(transaction.status, EscrowStatus::Completed);
    assert_eq!(transaction.updated_at, at(100));
    assert_eq!(transaction.created_at, at(100));
}

#[test]
fn time_of_update_never_lies_before_the_creation() {
    let mut process = EscrowProcess::new();
    let id = process.create_escrow_at(text("d1.ao"), text("S"), text("B"), 1, at(100)).unwrap();
    assert_eq!(process.fund_escrow_at(id.clone(), at(50)), Ok(()));
    let transaction = process.get_transaction(&id).unwrap();
    assert_eq!(transaction.status, EscrowStatus::Funded);
    assert_eq!(transaction.created_at, at(100));
    assert_eq!(transaction.updated_at, at(100));

    process.release_escrow_at(id.clone(), at(300)).unwrap();
    let early = Timestamp::new(T0 + 99, 999_999_999);
    let record = settle_transaction_at(process.get_transaction(&id).unwrap(), text("h"), early).unwrap();
    assert_eq!(record.settled_at, early);
    let transaction = process.get_transaction(&id).unwrap();
    assert_eq!(transaction.status, EscrowStatus::Completed);
    assert_eq!(transaction.updated_at, at(300));

    let other = process.create_escrow_at(text("d2.ao"), text("S"), text("B"), 1, at(100)).unwrap();
    assert_eq!(process.cancel_escrow_at(other.clone(), at(101)), Ok(()));
    assert_eq!(process.get_transaction(&other).unwrap().updated_at, at(101));
}

#[test]
fn other_transactions_are_left_alone() {
    let mut process = EscrowProcess::new();
    let first = process.create_escrow_at(text("a.ao"), text("S"), text("B"), 1, at(0)).unwrap();
    let second = process.create_escrow_at(text("b.ao"), text("S"), text("B"), 2, at(0)).unwrap();
    process.fund_escrow_at(second.clone(), at(5)).unwrap();
    assert_eq!(status_of(&mut process, &first), EscrowStatus::Pending);
    assert_eq!(process.get_transaction(&first).unwrap().updated_at, at(0));
    assert_eq!(status_of(&mut process, &second), EscrowStatus::Funded);
    assert_eq!(process.get_transaction(&second).unwrap().amount, 2);
}

#[test]
fn settling_a_transaction_outside_an_engine() {
    let mut transaction = EscrowTransaction {
        id: text("escrow_1_0"),
        domain_name: text("d1.ao"),
        seller: text("S"),
        buyer: text("B"),
        amount: 9,
        status: EscrowStatus::Released,
        created_at: at(0),
        updated_at: at(1),
    };
    let copy = transaction.clone();
    let record = settle_transaction_at(&mut transaction, text("proof"), at(2)).unwrap();
    assert_eq!(record.escrow_id, "escrow_1_0");
    assert_eq!(record.amount, 9);
    assert_eq!(transaction.status, EscrowStatus::Completed);
    assert_eq!(transaction.updated_at, at(2));
    assert_eq!(copy.status, EscrowStatus::Released);
    assert_eq!(copy.id, transaction.id);
    assert_eq!(copy.updated_at, at(1));
}

#[test]
fn settlement_check_is_the_callers() {
    let record = SettlementRecord {
        escrow_id: text("escrow_1_0"),
        domain_name: text("d1.ao"),
        seller: text("S"),
        buyer: text("B"),
        amount: 9,
        settled_at: at(2),
        transaction_hash: text(""),
    };
    assert!(verify_settlement(&record));
    assert!(!verify_settlement_with(&record, |r: &SettlementRecord| !r.transaction_hash.is_empty()));
    assert!(verify_settlement_with(&record, |r: &SettlementRecord| r.amount == 9));
}

#[test]
fn escrow_refusals_have_words() {
    assert_eq!(EscrowError::NotFound.message(), "Escrow not found");
    assert_eq!(EscrowError::InvalidState.message(), "Escrow is not in the state that this needs");
}
