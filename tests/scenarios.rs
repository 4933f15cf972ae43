use paymentlib::{run, EngineEvent, Transaction, TransactionType};

fn ev(typename: TransactionType, client: u16, tx: u32, amount: Option<i64>) -> EngineEvent {
    EngineEvent::Tx(Transaction::new(typename, client, tx, amount))
}

fn report_of(mut events: Vec<EngineEvent>) -> String {
    events.push(EngineEvent::Report());
    run(&events).unwrap()
}

fn disputed_pair() -> Vec<EngineEvent> {
    vec![
        ev(TransactionType::Deposit, 1, 1, Some(10000)),
        ev(TransactionType::Deposit, 1, 2, Some(5000)),
        ev(TransactionType::Dispute, 1, 1, None),
    ]
}

#[test]
fn mod_test_empty_file() {
    assert_eq!(report_of(vec![]), "".to_string());
}

#[test]
fn test_precision() {
    let events = vec![
        ev(TransactionType::Deposit, 1, 1, Some(1000)),
        ev(TransactionType::Deposit, 2, 2, Some(1234)),
        ev(TransactionType::Deposit, 3, 3, Some(1000)),
        ev(TransactionType::Deposit, 4, 4, Some(200)),
        ev(TransactionType::Deposit, 5, 5, Some(3000)),
        ev(TransactionType::Withdrawal, 5, 6, Some(2000)),
        ev(TransactionType::Deposit, 6, 7, Some(0)),
        ev(TransactionType::Deposit, 7, 8, Some(1)),
        ev(TransactionType::Withdrawal, 7, 9, Some(1)),
    ];
    assert_eq!(report_of(events), "client,available,held,total,locked\n1,0.1,0,0.1,false\n2,0.1234,0,0.1234,false\n3,0.1,0,0.1,false\n4,0.02,0,0.02,false\n5,0.1,0,0.1,false\n6,0,0,0,false\n7,0,0,0,false\n".to_string());
}

#[test]
fn test_duplicate_tx() {
    let events = vec![
        ev(TransactionType::Deposit, 1, 1, Some(20000)),
        ev(TransactionType::Deposit, 1, 1, Some(20000)),
        ev(TransactionType::Deposit, 2, 1, Some(10000)),
        ev(TransactionType::Withdrawal, 2, 1, Some(10000)),
    ];
    assert_eq!(report_of(events), "client,available,held,total,locked\n1,2,0,2,false\n2,0,0,0,false\n".to_string());
}

#[test]
fn mod_test_header_only() {
    assert_eq!(run(&vec![EngineEvent::Report()]).unwrap(), "".to_string());
}

#[test]
fn mod_test_deposit() {
    let events = vec![
        ev(TransactionType::Deposit, 1, 1, Some(10000)),
        ev(TransactionType::Deposit, 2, 2, Some(20000)),
        ev(TransactionType::Deposit, 1, 3, Some(20000)),
    ];
    assert_eq!(report_of(events), "client,available,held,total,locked\n1,3,0,3,false\n2,2,0,2,false\n".to_string());
}

#[test]
fn mod_test_withdrawl() {
    let events = vec![
        ev(TransactionType::Deposit, 1, 1, Some(10000)),
        ev(TransactionType::Deposit, 2, 2, Some(20000)),
        ev(TransactionType::Deposit, 1, 3, Some(20000)),
        ev(TransactionType::Withdrawal, 1, 4, Some(15000)),
        ev(TransactionType::Withdrawal, 2, 5, Some(30000)),
    ];
    assert_eq!(report_of(events), "client,available,held,total,locked\n1,1.5,0,1.5,false\n2,2,0,2,false\n".to_string());
}

#[test]
fn mod_test_dispute() {
    assert_eq!(
        report_of(disputed_pair()),
        "client,available,held,total,locked\n1,0.5,1,1.5,false\n".to_string()
    );
}

#[test]
fn mod_test_resolve() {
    let mut events = disputed_pair();
    events.push(ev(TransactionType::Resolve, 1, 1, None));
    assert_eq!(
        report_of(events),
        "client,available,held,total,locked\n1,1.5,0,1.5,false\n".to_string()
    );
}

#[test]
fn mod_test_invalid_resolve() {
    let mut events = disputed_pair();
    events.push(ev(TransactionType::Resolve, 1, 2, None));
    assert_eq!(
        report_of(events),
        "client,available,held,total,locked\n1,0.5,1,1.5,false\n".to_string()
    );
}

#[test]
fn mod_test_chargeback() {
    let mut events = disputed_pair();
    events.push(ev(TransactionType::Chargeback, 1, 1, None));
    assert_eq!(
        report_of(events),
        "client,available,held,total,locked\n1,0.5,0,0.5,true\n".to_string()
    );
}

#[test]
fn mod_test_invalid_chargeback() {
    let events = vec![
        ev(TransactionType::Deposit, 1, 1, Some(10000)),
        ev(TransactionType::Deposit, 1, 2, Some(5000)),
        ev(TransactionType::Chargeback, 1, 1, None),
    ];
    assert_eq!(
        report_of(events),
        "client,available,held,total,locked\n1,1.5,0,1.5,false\n".to_string()
    );
}
