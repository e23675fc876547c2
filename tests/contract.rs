use cw_stream::contract::{
    execute, instantiate, query, try_create_stream, try_withdraw, CheckedAddrs, Deposit,
    ExecuteMsg, QueryMsg, QueryResponse, ReceiveMsg, Response,
};
use cw_stream::error::ContractError;
use cw_stream::state::{Ledger, Stream};

const MOCK_CONTRACT_ADDR: &str = "cosmos2contract";
// the default block time of cosmwasm's mock environment, in milliseconds
const NOW: u64 = 1_571_797_419_879;

fn plus_seconds(secs: u64) -> u64 {
    NOW + secs * 1000
}

fn accepted(owner: &str, recipient: &str) -> CheckedAddrs {
    CheckedAddrs { owner: Some(owner.to_string()), recipient: Some(recipient.to_string()) }
}

fn setup(creator: &str) -> Ledger {
    instantiate(creator.to_string(), None, Some(MOCK_CONTRACT_ADDR.to_string())).unwrap()
}

fn receive(sender: &str, amount: u128, recipient: &str, start_time: u64, end_time: u64) -> ExecuteMsg {
    ExecuteMsg::Receive(Deposit {
        sender: sender.to_string(),
        amount,
        msg: ReceiveMsg::CreateStream { recipient: recipient.to_string(), start_time, end_time },
    })
}

fn stored_stream(ledger: &Ledger, id: u128) -> Stream {
    match query(ledger, QueryMsg::GetStream { id }).unwrap() {
        QueryResponse::Stream(s) => s,
        other => panic!("unexpected response: {:?}", other),
    }
}

#[test]
fn initialization() {
    let ledger = setup("creator");
    match query(&ledger, QueryMsg::GetConfig).unwrap() {
        QueryResponse::Config(c) => {
            assert_eq!(c.owner, "creator");
            assert_eq!(c.cw20_addr, String::from(MOCK_CONTRACT_ADDR));
        }
        other => panic!("unexpected response: {:?}", other),
    }
    assert_eq!(ledger.stream_seq, 0);
}

#[test]
fn create_stream() {
    let mut ledger = setup("Alice");
    let amount: u128 = 100;
    let start_time = plus_seconds(10000);
    let end_time = plus_seconds(15000);
    let msg = receive("Alice", amount, "Bob", start_time, end_time);
    let res = execute(
        &mut ledger,
        NOW,
        &MOCK_CONTRACT_ADDR.to_string(),
        msg,
        &accepted("Alice", "Bob"),
    )
    .unwrap();
    let created = match res {
        Response::Created(c) => c,
        other => panic!("unexpected response: {:?}", other),
    };
    assert_eq!(created.id, 1);
    assert_eq!(created.stream.owner, "Alice");
    assert_eq!(created.stream.recipient, "Bob");
    assert_eq!(created.stream.amount, amount);
    assert_eq!(created.stream.start_time, start_time);
    assert_eq!(created.stream.end_time, end_time);

    let stream = stored_stream(&ledger, 1);
    assert_eq!(
        stream,
        Stream {
            owner: "Alice".to_string(),
            recipient: "Bob".to_string(),
            amount,
            claimed_amount: 0,
            start_time,
            end_time,
        }
    );
}

#[test]
fn invalid_start_time() {
    let mut ledger = setup("Alice");
    let start_time = plus_seconds(10000);
    let end_time = plus_seconds(2000);
    let msg = receive("Alice", 100, "Bob", start_time, end_time);
    let err = execute(
        &mut ledger,
        NOW,
        &MOCK_CONTRACT_ADDR.to_string(),
        msg,
        &accepted("Alice", "Bob"),
    )
    .unwrap_err();
    // an inverted window is rejected as such
    match err {
        ContractError::InvalidWindow => {}
        e => panic!("unexpected error: {:?}", e),
    }
    assert_eq!(ledger.stream_seq, 0);
}

#[test]
fn invalid_cw20_addr() {
    let mut ledger = setup("Alice");
    let start_time = plus_seconds(10000);
    let end_time = plus_seconds(2000);
    let msg = receive("Alice", 100, "Bob", start_time, end_time);
    let err = execute(&mut ledger, NOW, &"wrongCw20".to_string(), msg, &accepted("Alice", "Bob"))
        .unwrap_err();
    match err {
        ContractError::Unauthorized => {}
        e => panic!("unexpected error: {:?}", e),
    }
    assert_eq!(ledger.stream_seq, 0);
    assert!(query(&ledger, QueryMsg::GetStream { id: 1 }).is_err());
}

#[test]
fn withdraw() {
    let mut ledger = setup("Alice");
    let amount: u128 = 100;
    let start_time = NOW;
    let end_time = plus_seconds(15000);
    let msg = receive("Alice", amount, "Bob", start_time, end_time);
    let res = execute(
        &mut ledger,
        NOW,
        &MOCK_CONTRACT_ADDR.to_string(),
        msg,
        &accepted("Alice", "Bob"),
    )
    .unwrap();
    match res {
        Response::Created(c) => {
            assert_eq!(c.id, 1);
            assert_eq!(c.stream.owner, "Alice");
            assert_eq!(c.stream.recipient, "Bob");
            assert_eq!(c.stream.amount, amount);
            assert_eq!(c.stream.start_time, start_time);
            assert_eq!(c.stream.end_time, end_time);
        }
        other => panic!("unexpected response: {:?}", other),
    }
    assert_eq!(
        stored_stream(&ledger, 1),
        Stream {
            owner: "Alice".to_string(),
            recipient: "Bob".to_string(),
            amount,
            claimed_amount: 0,
            start_time,
            end_time,
        }
    );

    // at the very start of the window nothing has vested yet
    let err = execute(
        &mut ledger,
        NOW,
        &"Bob".to_string(),
        ExecuteMsg::Withdraw { id: 1 },
        &accepted("Alice", "Bob"),
    )
    .unwrap_err();
    assert_eq!(err, ContractError::NoFundsToClaim);

    // halfway through, half of it has
    let res = execute(
        &mut ledger,
        plus_seconds(7500),
        &"Bob".to_string(),
        ExecuteMsg::Withdraw { id: 1 },
        &accepted("Alice", "Bob"),
    )
    .unwrap();
    match res {
        Response::Withdrawn(c) => {
            assert_eq!(c.stream_id, 1);
            assert_eq!(c.amount, 50);
            assert_eq!(c.recipient, "Bob");
        }
        other => panic!("unexpected response: {:?}", other),
    }
}

#[test]
fn linear_vesting_scenario() {
    let t: u64 = 1_000_000;
    let mut ledger = setup("Alice");
    let created = try_create_stream(
        &mut ledger,
        t,
        "Alice".to_string(),
        "Bob".to_string(),
        100,
        t,
        t + 15000,
        &accepted("Alice", "Bob"),
    )
    .unwrap();
    let bob = "Bob".to_string();
    let claim = try_withdraw(&mut ledger, t + 7500, &bob, created.id).unwrap();
    assert_eq!(claim.amount, 50);
    assert_eq!(stored_stream(&ledger, created.id).claimed_amount, 50);
    let claim = try_withdraw(&mut ledger, t + 15000, &bob, created.id).unwrap();
    assert_eq!(claim.amount, 50);
    assert_eq!(stored_stream(&ledger, created.id).claimed_amount, 100);
    assert_eq!(
        try_withdraw(&mut ledger, t + 15000, &bob, created.id),
        Err(ContractError::StreamFullyClaimed)
    );
}

#[test]
fn withdraw_by_other_identity_fails() {
    let t: u64 = 5000;
    let mut ledger = setup("Alice");
    let id = try_create_stream(
        &mut ledger,
        t,
        "Alice".to_string(),
        "Bob".to_string(),
        100,
        t,
        t + 1000,
        &accepted("Alice", "Bob"),
    )
    .unwrap()
    .id;
    assert_eq!(
        try_withdraw(&mut ledger, t + 500, &"Alice".to_string(), id),
        Err(ContractError::NotStreamRecipient)
    );
    assert_eq!(stored_stream(&ledger, id).claimed_amount, 0);
}
