use payments_engine::{Account, Data, Transaction, TransactionType};

fn units(amount: f64) -> i64 {
    (amount * 10_000.0).round() as i64
}

#[test]
fn ok_resolve_0() {
    let mut data = Data::new();

    let tr = Transaction {
        transaction_type: TransactionType::Deposit,
        client: 1,
        tx: 1,
        amount: Some(units(2.5)),
    };

    let _ = data.execute_transaction(tr);

    let tr = Transaction {
        transaction_type: TransactionType::Dispute,
        client: 1,
        tx: 1,
        amount: None,
    };

    let _ = data.execute_transaction(tr);

    let tr = Transaction {
        transaction_type: TransactionType::Resolve,
        client: 1,
        tx: 1,
        amount: None,
    };

    let _ = data.execute_transaction(tr);

    let account = data.account(1).unwrap();

    assert_eq!(
        account,
        Account {
            available: units(2.5),
            held: units(0.0),
            total: units(2.5),
            locked: false,
        }
    )
}
