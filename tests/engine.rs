use transaction_action::{Amount, Engine, Error, TransactionRecord, TransactionType};

fn dec(mantissa: i128, scale: u32) -> Amount {
    Amount::from_parts(mantissa, scale).unwrap()
}

fn record(
    transaction_type: TransactionType,
    client_id: u16,
    transaction_id: u32,
    amount: Option<Amount>,
) -> TransactionRecord {
    TransactionRecord { transaction_type, client_id, transaction_id, amount }
}

fn available(engine: &Engine, client_id: u16) -> Amount {
    engine.clients().get_client(client_id).unwrap().available_amount
}

fn held(engine: &Engine, client_id: u16) -> Amount {
    engine.clients().get_client(client_id).unwrap().held_amount
}

#[test]
fn engine_test_process_deposit() -> Result<(), Error> {
    let mut engine = Engine::default();
    let client_id = 1;

    // Should correctly process deposits
    engine.process_deposit(&record(TransactionType::Deposit, client_id, 9, Some(dec(11, 1))))?;
    engine.process_deposit(&record(TransactionType::Deposit, client_id, 10, Some(dec(2, 0))))?;
    engine.process_deposit(&record(TransactionType::Deposit, client_id, 11, Some(dec(9, 0))))?;

    assert_eq!(
        available(&engine, client_id),
        dec(121, 1),
        "sequence of deposits should correctly update available amount"
    );

    // Should return error if amount is missing
    assert_eq!(
        engine.process_deposit(&record(TransactionType::Deposit, client_id, 999, None)),
        Err(Error::DepositTransactionMissingAmount(999)),
        "deposit transaction requires amount"
    );

    // Should return error if transaction id is reused
    assert_eq!(
        engine.process_deposit(&record(TransactionType::Deposit, client_id, 9, Some(dec(11, 1)))),
        Err(Error::TransactionIdAlreadyExists(9)),
        "transaction ids need to be globally unique"
    );

    assert_eq!(
        available(&engine, client_id),
        dec(121, 1),
        "failed deposits should not update available amount"
    );

    Ok(())
}

#[test]
fn engine_test_process_withdrawal() -> Result<(), Error> {
    let mut engine = Engine::default();

    let client_id = 1;
    engine.process_deposit(&record(TransactionType::Deposit, client_id, 1, Some(dec(3622, 2))))?;

    // Should correctly process withdrawals
    engine.process_withdrawal(&record(
        TransactionType::Withdrawal,
        client_id,
        10,
        Some(dec(1001, 2)),
    ))?;
    engine.process_withdrawal(&record(
        TransactionType::Withdrawal,
        client_id,
        11,
        Some(dec(1001, 2)),
    ))?;

    assert_eq!(
        available(&engine, client_id),
        dec(1620, 2),
        "sequence of withdrawals should correctly update available amount"
    );

    // Should return error if amount is more than available
    assert_eq!(
        engine.process_withdrawal(&record(
            TransactionType::Withdrawal,
            client_id,
            12,
            Some(dec(1000, 0))
        )),
        Err(Error::ClientCannotWithdrawl {
            id: client_id,
            amount: dec(1000, 0),
            available: dec(1620, 2)
        }),
        "should fail if amount is higher than available amount"
    );

    // Should return error if amount is missing
    assert_eq!(
        engine.process_withdrawal(&record(TransactionType::Withdrawal, client_id, 999, None)),
        Err(Error::WithdrawalTransactionMissingAmount(999)),
        "should fail if amount is missing"
    );

    // Should return error if transaction id is reused
    assert_eq!(
        engine.process_withdrawal(&record(
            TransactionType::Withdrawal,
            client_id,
            10,
            Some(dec(1, 1))
        )),
        Err(Error::TransactionIdAlreadyExists(10)),
        "should fail if transaction id is reused"
    );

    assert_eq!(
        available(&engine, client_id),
        dec(1620, 2),
        "failed withdrawals should not update available amount"
    );

    Ok(())
}

#[test]
fn engine_test_process_dispute() -> Result<(), Error> {
    let mut engine = Engine::default();

    let client_id = 1;
    let transaction_id = 55;

    engine.process_deposit(&record(
        TransactionType::Deposit,
        client_id,
        transaction_id,
        Some(dec(10195, 2)),
    ))?;

    engine.process_dispute(&record(TransactionType::Dispute, client_id, transaction_id, None))?;

    assert_eq!(available(&engine, client_id), dec(0, 2), "dispute should lower available amount");

    assert_eq!(held(&engine, client_id), dec(10195, 2), "dispute should update held amount");

    assert_eq!(
        engine.process_dispute(&record(TransactionType::Dispute, client_id, transaction_id, None)),
        Err(Error::DisputeAlreadyDisputedTransaction(transaction_id)),
        "should not be able to dispute an already disputed transaction"
    );

    let other_deposit_tx = 66;
    let withdrawal_tx = 67;
    engine.process_deposit(&record(
        TransactionType::Deposit,
        client_id,
        other_deposit_tx,
        Some(dec(200, 0)),
    ))?;

    engine.process_withdrawal(&record(
        TransactionType::Withdrawal,
        client_id,
        withdrawal_tx,
        Some(dec(100, 0)),
    ))?;

    assert_eq!(
        engine.process_dispute(&record(TransactionType::Dispute, client_id, withdrawal_tx, None)),
        Err(Error::DisputeNonDepositTransaction(withdrawal_tx)),
        "cannot dispute withdrawal transactions"
    );

    assert_eq!(
        engine.process_dispute(&record(TransactionType::Dispute, client_id, other_deposit_tx, None)),
        Err(Error::ClientCannotDispute {
            id: client_id,
            amount: dec(200, 0),
            available: dec(100, 0)
        }),
        "cannot dispute when available balance is lower than transaction amount"
    );

    assert_eq!(
        engine.process_dispute(&record(TransactionType::Dispute, client_id, 99999, None)),
        Err(Error::TransactionNotExists(99999)),
        "cannot dispute non-existant transaction"
    );

    Ok(())
}

#[test]
fn engine_test_process_resolve() -> Result<(), Error> {
    let mut engine = Engine::default();

    let client_id = 1;
    let transaction_id = 55;

    engine.process_deposit(&record(
        TransactionType::Deposit,
        client_id,
        transaction_id,
        Some(dec(10195, 2)),
    ))?;

    engine.process_dispute(&record(TransactionType::Dispute, client_id, transaction_id, None))?;

    engine.process_resolve(&record(TransactionType::Resolve, client_id, transaction_id, None))?;

    assert_eq!(
        available(&engine, client_id),
        dec(10195, 2),
        "resolving a dispute should put back held funds into available"
    );

    assert_eq!(
        held(&engine, client_id),
        dec(0, 0),
        "resolving a dispute should put back held funds into available"
    );

    assert_eq!(
        engine.process_resolve(&record(TransactionType::Resolve, client_id, transaction_id, None)),
        Err(Error::ResolveNonDisputedTransaction(transaction_id)),
        "should not be able to resolve a non-disputed transaction"
    );

    assert_eq!(
        engine.process_resolve(&record(TransactionType::Resolve, client_id, 9875, None)),
        Err(Error::TransactionNotExists(9875)),
        "should not be able to resolve non-existant transaction"
    );

    Ok(())
}

#[test]
fn engine_test_process_chargeback() -> Result<(), Error> {
    let mut engine = Engine::default();

    let client_id = 1;
    let transaction_id = 55;

    engine.process_deposit(&record(
        TransactionType::Deposit,
        client_id,
        transaction_id,
        Some(dec(10195, 2)),
    ))?;

    engine.process_dispute(&record(TransactionType::Dispute, client_id, transaction_id, None))?;

    engine.process_chargeback(&record(
        TransactionType::Chargeback,
        client_id,
        transaction_id,
        None,
    ))?;

    assert_eq!(
        available(&engine, client_id),
        dec(0, 0),
        "chargeback should not put back held funds into available"
    );

    assert_eq!(held(&engine, client_id), dec(0, 0), "chargeback should remove funds from held");

    assert_eq!(
        engine.process_chargeback(&record(
            TransactionType::Chargeback,
            client_id,
            transaction_id,
            None
        )),
        Err(Error::ChargeBackNonDisputedTransaction(transaction_id)),
        "should not be able to chargeback a non-disputed transaction"
    );

    assert_eq!(
        engine.process_chargeback(&record(TransactionType::Chargeback, client_id, 9875, None)),
        Err(Error::TransactionNotExists(9875)),
        "should not be able to chargeback non-existant transaction"
    );

    Ok(())
}
