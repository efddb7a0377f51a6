use payments_engine::{Account, Data, Transaction, TransactionType};

fn units(amount: f64) -> i64 {
    (amount * 10_000.0).round() as i64
}

#[test]
fn ok_chargeback_0() {
    let mut data = Data::new();

    let tr = Transaction {
        transaction_type: TransactionType::Deposit,
        client: 1,
        tx: 1,
        amount: Some(units(2.5)),
    };

    let _ = data.execute_transaction(tr);

    let tr = Transaction {
        transaction_type: TransactionType::Dispute,
        client: 1,
        tx: 1,
        amount: None,
    };

    let _ = data.execute_transaction(tr);

    let tr = Transaction {
        transaction_type: TransactionType::Chargeback,
        client: 1,
        tx: 1,
        amount: None,
    };

    let _ = data.execute_transaction(tr);

    let account = data.account(1).unwrap();

    assert_eq!(
        account,
        Account {
            available: units(0.0),
            held: units(0.0),
            total: units(0.0),
            locked: true,
        }
    )
}

#[test]
fn ok_chargeback_1() {
    let mut data = Data::new();

    let tr = Transaction {
        transaction_type: TransactionType::Deposit,
        client: 1,
        tx: 1,
        amount: Some(units(2.5)),
    };

    let _ = data.execute_transaction(tr);

    let tr = Transaction {
        transaction_type: TransactionType::Dispute,
        client: 1,
        tx: 1,
        amount: None,
    };

    let _ = data.execute_transaction(tr);

    let tr = Transaction {
        transaction_type: TransactionType::Chargeback,
        client: 1,
        tx: 1,
        amount: None,
    };

    let _ = data.execute_transaction(tr);

    let tr = Transaction {
        transaction_type: TransactionType::Deposit,
        client: 1,
        tx: 2,
        amount: Some(units(2.5)),
    };

    let _ = data.execute_transaction(tr);

    let account = data.account(1).unwrap();

    assert_eq!(
        account,
        Account {
            available: units(0.0),
            held: units(0.0),
            total: units(0.0),
            locked: true,
        }
    )
}
