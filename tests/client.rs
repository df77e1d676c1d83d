use std::str::FromStr;
use web3::types::{Address, H256, U256};
use yield_farming_client::abi::{is_admissible_abi_text, ContractInterface};
use yield_farming_client::calls::{queried, submitted, Invocation, Query};
use yield_farming_client::client::YieldFarmingClient;
use yield_farming_client::error::ClientError;
use yield_farming_client::receipt::{Confirmation, Outcome, Receipt};

const FARM_ABI: &[u8] = br#"[
  {"type":"function","name":"deposit","inputs":[{"name":"amount","type":"uint256"}],"outputs":[],"stateMutability":"nonpayable"},
  {"type":"function","name":"balanceOf","inputs":[{"name":"account","type":"address"}],"outputs":[{"name":"","type":"uint256"}],"stateMutability":"view"},
  {"type":"function","name":"getCurrentAPY","inputs":[],"outputs":[{"name":"","type":"uint256"}],"stateMutability":"view"}
]"#;

fn address() -> Address {
    Address::from_str("0x1234567890123456789012345678901234567890").unwrap()
}

fn farm_client() -> YieldFarmingClient {
    YieldFarmingClient::new("http://localhost:8545", address(), FARM_ABI).unwrap()
}

fn receipt(status: Option<u64>) -> Receipt {
    Receipt { transaction_hash: H256::repeat_byte(7), block_number: Some(12), status }
}

#[test]
fn test_client_initialization() {
    let rpc_url = "https://goerli.infura.io/v3/YOUR_PROJECT_ID";
    let contract_address = Address::from_str("0x1234567890123456789012345678901234567890").unwrap();

    let result = YieldFarmingClient::new(rpc_url, contract_address, b"[]");
    assert!(result.is_ok());
}

#[test]
fn construction_keeps_address_and_abi() {
    let client = farm_client();
    assert_eq!(*client.contract_address(), address());
    assert_eq!(client.contract_abi(), FARM_ABI);
}

#[test]
fn malformed_abi_is_a_configuration_error() {
    let r = YieldFarmingClient::new("http://localhost:8545", address(), b"not an abi");
    assert!(matches!(r, Err(ClientError::ConfigurationError)));
    let r = YieldFarmingClient::new("http://localhost:8545", address(), b"[{\"type\":\"function\"");
    assert!(matches!(r, Err(ClientError::ConfigurationError)));
}

#[test]
fn malformed_endpoint_is_a_configuration_error() {
    let r = YieldFarmingClient::new("not a url", address(), b"[]");
    assert!(matches!(r, Err(ClientError::ConfigurationError)));
}

#[test]
fn refused_transport_is_a_configuration_error() {
    let r = YieldFarmingClient::with_transport(Err(web3::Error::Unreachable), address(), b"[]", ContractInterface::empty());
    assert!(matches!(r, Err(ClientError::ConfigurationError)));
}

#[test]
fn construction_is_repeatable() {
    let a = YieldFarmingClient::new("http://localhost:8545", address(), FARM_ABI).unwrap();
    let b = YieldFarmingClient::new("http://localhost:8545", address(), FARM_ABI).unwrap();
    assert!(a.deposit(U256::from(5u64), address()).is_ok());
    assert!(b.deposit(U256::from(5u64), address()).is_ok());
    assert!(a.withdraw(U256::from(5u64), address()).is_err());
    assert!(b.withdraw(U256::from(5u64), address()).is_err());
}

#[test]
fn empty_interface_refuses_every_named_call() {
    let client = YieldFarmingClient::new("http://localhost:8545", address(), b"[]").unwrap();
    let one = U256::from(1u64);
    assert!(matches!(client.deposit(one, address()), Err(ClientError::InvocationError)));
    assert!(matches!(client.withdraw(one, address()), Err(ClientError::InvocationError)));
    assert!(matches!(client.claim_rewards(address()), Err(ClientError::InvocationError)));
    assert!(matches!(client.get_staked_balance(address()), Err(ClientError::QueryError)));
    assert!(matches!(client.get_pending_rewards(address()), Err(ClientError::QueryError)));
    assert!(matches!(client.get_total_value_locked(), Err(ClientError::QueryError)));
    assert!(matches!(client.get_current_apy(), Err(ClientError::QueryError)));
}

#[test]
fn declared_functions_are_prepared() {
    let client = farm_client();
    let amount = U256::from(1_000_000_000_000_000_000u64);
    match client.deposit(amount, address()) {
        Ok(Invocation::Deposit { amount: a, from }) => {
            assert_eq!(a, amount);
            assert_eq!(from, address());
        },
        _ => panic!("deposit should be prepared"),
    }
    assert!(matches!(client.claim_rewards(address()), Err(ClientError::InvocationError)));
    match client.get_staked_balance(address()) {
        Ok(Query::StakedBalance { account }) => assert_eq!(account, address()),
        _ => panic!("balance query should be prepared"),
    }
    assert!(matches!(client.get_current_apy(), Ok(Query::CurrentApy)));
    assert!(matches!(client.get_pending_rewards(address()), Err(ClientError::QueryError)));
    assert!(matches!(client.get_total_value_locked(), Err(ClientError::QueryError)));
}

#[test]
fn batched_queries_answer_independently() {
    let client = farm_client();
    let answers = client.prepare_queries(vec![
        Query::TotalValueLocked,
        Query::StakedBalance { account: address() },
        Query::CurrentApy,
        Query::PendingRewards { account: address() },
        Query::CurrentApy,
    ]);
    assert_eq!(answers.len(), 5);
    assert!(matches!(answers[0], Err(ClientError::QueryError)));
    assert!(matches!(answers[1], Ok(Query::StakedBalance { .. })));
    assert!(matches!(answers[2], Ok(Query::CurrentApy)));
    assert!(matches!(answers[3], Err(ClientError::QueryError)));
    assert!(matches!(answers[4], Ok(Query::CurrentApy)));
    assert!(client.prepare_queries(Vec::new()).is_empty());
}

#[test]
fn function_names() {
    let one = U256::from(1u64);
    assert_eq!(Invocation::Deposit { amount: one, from: address() }.name(), "deposit");
    assert_eq!(Invocation::Withdraw { amount: one, from: address() }.name(), "withdraw");
    assert_eq!(Invocation::ClaimRewards { from: address() }.name(), "claimRewards");
    assert_eq!(Query::StakedBalance { account: address() }.name(), "balanceOf");
    assert_eq!(Query::PendingRewards { account: address() }.name(), "pendingRewards");
    assert_eq!(Query::TotalValueLocked.name(), "totalValueLocked");
    assert_eq!(Query::CurrentApy.name(), "getCurrentAPY");
}

#[test]
fn interface_lookup() {
    let interface = ContractInterface { functions: vec!["deposit".to_string(), "withdraw".to_string()] };
    assert!(interface.has_function("withdraw"));
    assert!(interface.has_function("deposit"));
    assert!(!interface.has_function("deposi"));
    assert!(!interface.has_function(""));
    assert!(!ContractInterface::empty().has_function("deposit"));
}

#[test]
fn missing_receipt_is_not_yet_mined() {
    let client = farm_client();
    assert!(matches!(client.wait_for_transaction(Ok(None)), Ok(Confirmation::NotYetMined)));
}

#[test]
fn found_receipt_is_mined_and_stable() {
    let client = farm_client();
    for _ in 0..2 {
        match client.wait_for_transaction(Ok(Some(receipt(Some(1))))) {
            Ok(Confirmation::Mined(r)) => {
                assert_eq!(r.transaction_hash, H256::repeat_byte(7));
                assert_eq!(r.block_number, Some(12));
                assert_eq!(r.outcome(), Outcome::Succeeded);
            },
            _ => panic!("receipt should be reported as mined"),
        }
    }
}

#[test]
fn failed_lookup_is_a_lookup_error() {
    let client = farm_client();
    assert!(matches!(client.wait_for_transaction(Err(web3::Error::Unreachable)), Err(ClientError::LookupError)));
}

#[test]
fn receipt_outcomes() {
    assert_eq!(receipt(Some(1)).outcome(), Outcome::Succeeded);
    assert_eq!(receipt(Some(0)).outcome(), Outcome::Failed);
    assert_eq!(receipt(None).outcome(), Outcome::Unknown);
}

#[test]
fn latest_block_number() {
    let client = farm_client();
    assert_eq!(client.get_latest_block(Ok(Some(Some(17_000_000)))), Ok(17_000_000));
    assert_eq!(client.get_latest_block(Ok(Some(None))), Err(ClientError::LookupError));
    assert_eq!(client.get_latest_block(Ok(None)), Err(ClientError::LookupError));
    assert_eq!(client.get_latest_block(Err(web3::Error::Unreachable)), Err(ClientError::LookupError));
}

#[test]
fn submission_and_query_errors() {
    let hash = H256::repeat_byte(3);
    assert_eq!(submitted(Ok(hash)), Ok(hash));
    assert_eq!(submitted(Err(web3::contract::Error::InterfaceUnsupported)), Err(ClientError::InvocationError));
    assert_eq!(queried(Ok(U256::from(42u64))), Ok(U256::from(42u64)));
    assert_eq!(queried(Err(web3::contract::Error::InvalidOutputType("u256".to_string()))), Err(ClientError::QueryError));
}

#[test]
fn unbalanced_type_bracket_is_refused() {
    let abi = br#"[{"type":"function","name":"f","inputs":[{"name":"a","type":"]"}],"outputs":[]}]"#;
    let r = YieldFarmingClient::new("http://localhost:8545", address(), abi);
    assert!(matches!(r, Err(ClientError::ConfigurationError)));
    let abi = br#"[{"type":"function","name":"f","inputs":[{"name":"a","type":"5]"}],"outputs":[]}]"#;
    let r = YieldFarmingClient::new("http://localhost:8545", address(), abi);
    assert!(matches!(r, Err(ClientError::ConfigurationError)));
}

#[test]
fn non_ascii_type_is_refused() {
    let abi = "[{\"type\":\"function\",\"name\":\"f\",\"inputs\":[{\"name\":\"a\",\"type\":\"\u{e9}[]\"}],\"outputs\":[]}]";
    let r = YieldFarmingClient::new("http://localhost:8545", address(), abi.as_bytes());
    assert!(matches!(r, Err(ClientError::ConfigurationError)));
    let escaped = br#"[{"type":"function","name":"f","inputs":[{"name":"a","type":"\u00e9[]"}],"outputs":[]}]"#;
    let r = YieldFarmingClient::new("http://localhost:8545", address(), escaped);
    assert!(matches!(r, Err(ClientError::ConfigurationError)));
}

#[test]
fn array_types_are_accepted() {
    let abi = br#"[{"type":"function","name":"deposit","inputs":[{"name":"a","type":"uint256[]"},{"name":"b","type":"bool[][5]"}],"outputs":[],"stateMutability":"nonpayable"}]"#;
    let client = YieldFarmingClient::new("http://localhost:8545", address(), abi).unwrap();
    assert!(client.deposit(U256::from(1u64), address()).is_ok());
}

#[test]
fn abi_text_check() {
    assert!(is_admissible_abi_text(b""));
    assert!(is_admissible_abi_text(b"[]"));
    assert!(is_admissible_abi_text(b"\"uint8[12]\""));
    assert!(is_admissible_abi_text(b"[{}]"));
    assert!(!is_admissible_abi_text(b"\"]\""));
    assert!(!is_admissible_abi_text(b"\"a]\""));
    assert!(!is_admissible_abi_text(b"\"[1a]\""));
    assert!(!is_admissible_abi_text(b"\"\\n\""));
    assert!(!is_admissible_abi_text(&[b'"', 0xc3, 0xa9, b'"']));
    let mut long = vec![b'"'];
    long.extend(std::iter::repeat(b'a').take(256));
    long.push(b'"');
    assert!(is_admissible_abi_text(&long));
    let mut longer = vec![b'"'];
    longer.extend(std::iter::repeat(b'a').take(257));
    longer.push(b'"');
    assert!(!is_admissible_abi_text(&longer));
}
