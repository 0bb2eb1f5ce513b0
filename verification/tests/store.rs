use cosmwasm_std::testing::MockApi;
use cosmwasm_std::{MemoryStorage, ReadonlyStorage, Storage};
use credit_ledger::contract::init;
use credit_ledger::env::{Env, MessageInfo};
use credit_ledger::error::{ContractError, ErrorKind};
use credit_ledger::contract::{handle, query, try_get_credits};
use credit_ledger::ledger::{add_balance, get_balance};
use credit_ledger::mock::mock_dependencies;
use credit_ledger::msg::{CreditsResponse, HandleMsg, QueryMsg};
use credit_ledger::record::{frame_owner, unframe_owner, CLOSING, OPENING};
use credit_ledger::msg::InitMsg;
use credit_ledger::state::{
    config, config_read, credits_storage, credits_storage_read, State, BUCKET_USER_CREDITS,
    CONFIG_KEY,
};

#[test]
fn keys_spell_their_names() {
    assert_eq!(&CONFIG_KEY, b"config");
    assert_eq!(&BUCKET_USER_CREDITS, b"usercredits");
}

#[test]
fn new_store_is_empty() {
    let store = MemoryStorage::new();
    assert!(config_read(&store).is_err());
    assert_eq!(credits_storage_read(&store, b"demian"), Ok(None));
    assert_eq!(get_balance(&store, b"demian"), Ok(0));
}

#[test]
fn owner_is_padded_to_the_canonical_length() {
    let mut store = MemoryStorage::new();
    let api = MockApi::new(8);
    let env = Env { message: MessageInfo { sender: "creator".to_string() } };
    init(&mut store, &api, env, InitMsg {}).unwrap();
    assert_eq!(config_read(&store).unwrap().owner, b"creator\0".to_vec());
    assert_eq!(
        store.get(b"\x00\x06config"),
        Some(b"{\"owner\":\"Y3JlYXRvcgA=\"}".to_vec())
    );

    let env = Env { message: MessageInfo { sender: "creator99".to_string() } };
    assert!(init(&mut store, &api, env, InitMsg {}).is_err());
    assert_eq!(config_read(&store).unwrap().owner, b"creator\0".to_vec());
}

#[test]
fn largest_balance_of_a_one_byte_identity() {
    let mut store = MemoryStorage::new();
    assert_eq!(add_balance(&mut store, b"x", u64::MAX), Ok(u64::MAX));
    assert_eq!(add_balance(&mut store, b"x", 1), Err(ContractError::Overflow));
    assert_eq!(get_balance(&store, b"x"), Ok(u64::MAX));
}

#[test]
fn config_round_trip() {
    let mut store = MemoryStorage::new();
    assert!(config_read(&store).is_err());

    assert_eq!(config(&mut store, &State { owner: vec![1, 2, 3, 250] }), Ok(()));
    assert_eq!(config_read(&store), Ok(State { owner: vec![1, 2, 3, 250] }));

    assert_eq!(config(&mut store, &State { owner: vec![] }), Ok(()));
    assert_eq!(config_read(&store), Ok(State { owner: vec![] }));
}

#[test]
fn config_is_kept_under_its_key() {
    let mut store = MemoryStorage::new();
    config(&mut store, &State { owner: b"creator".to_vec() }).unwrap();
    assert_eq!(
        store.get(b"\x00\x06config"),
        Some(b"{\"owner\":\"Y3JlYXRvcg==\"}".to_vec())
    );
    assert_eq!(store.get(b"config"), None);
}

#[test]
fn credits_round_trip() {
    let mut store = MemoryStorage::new();
    assert_eq!(credits_storage_read(&store, b"demian"), Ok(None));

    assert_eq!(credits_storage(&mut store, b"demian", 7), Ok(()));
    assert_eq!(credits_storage_read(&store, b"demian"), Ok(Some(7)));
    assert_eq!(credits_storage_read(&store, b"demia"), Ok(None));
    assert_eq!(credits_storage_read(&store, b"demian\0"), Ok(None));

    assert_eq!(credits_storage(&mut store, b"demian", u64::MAX), Ok(()));
    assert_eq!(credits_storage_read(&store, b"demian"), Ok(Some(u64::MAX)));
    assert_eq!(credits_storage(&mut store, b"", 0), Ok(()));
    assert_eq!(credits_storage_read(&store, b""), Ok(Some(0)));
    assert_eq!(credits_storage_read(&store, b"demian"), Ok(Some(u64::MAX)));
}

#[test]
fn credits_are_kept_under_their_namespace() {
    let mut store = MemoryStorage::new();
    credits_storage(&mut store, b"demian", 18446744073709551615).unwrap();
    assert_eq!(
        store.get(b"\x00\x0busercreditsdemian"),
        Some(b"18446744073709551615".to_vec())
    );
    assert_eq!(store.get(b"demian"), None);
}

#[test]
fn config_and_credits_do_not_touch_each_other() {
    let mut store = MemoryStorage::new();
    config(&mut store, &State { owner: b"creator".to_vec() }).unwrap();
    credits_storage(&mut store, b"creator", 5).unwrap();
    credits_storage(&mut store, b"config", 6).unwrap();
    credits_storage(&mut store, b"", 8).unwrap();
    assert_eq!(config_read(&store), Ok(State { owner: b"creator".to_vec() }));

    config(&mut store, &State { owner: b"demian".to_vec() }).unwrap();
    assert_eq!(credits_storage_read(&store, b"creator"), Ok(Some(5)));
    assert_eq!(credits_storage_read(&store, b"config"), Ok(Some(6)));
    assert_eq!(credits_storage_read(&store, b""), Ok(Some(8)));
    assert_eq!(config_read(&store), Ok(State { owner: b"demian".to_vec() }));
}

#[test]
fn unreadable_entry_is_not_a_missing_one() {
    let mut store = MemoryStorage::new();
    store.set(b"\x00\x0busercreditsdemian", b"seven");
    assert!(credits_storage_read(&store, b"demian").is_err());

    let err = get_balance(&store, b"demian").unwrap_err();
    assert_eq!(err.kind(), ErrorKind::Store);
    assert!(matches!(err, ContractError::Store(cosmwasm_std::StdError::ParseErr { .. })));

    let err = add_balance(&mut store, b"demian", 3).unwrap_err();
    assert_eq!(err.kind(), ErrorKind::Store);
    assert_eq!(store.get(b"\x00\x0busercreditsdemian"), Some(b"seven".to_vec()));

    assert_eq!(get_balance(&store, b"someone"), Ok(0));
    assert_eq!(add_balance(&mut store, b"someone", 3), Ok(3));
    assert_eq!(store.get(b"\x00\x0busercreditsdemian"), Some(b"seven".to_vec()));
}

#[test]
fn unreadable_entry_fails_the_calls() {
    let mut store = MemoryStorage::new();
    let api = MockApi::new(20);
    let creator = || Env { message: MessageInfo { sender: "creator".to_string() } };
    init(&mut store, &api, creator(), InitMsg {}).unwrap();
    let mut key = b"\x00\x0busercredits".to_vec();
    key.extend_from_slice(b"demian");
    key.resize(13 + 20, 0);
    store.set(&key, b"-1");

    let err = try_get_credits(&store, &api, "demian".to_string()).unwrap_err();
    assert_eq!(err.kind(), ErrorKind::Store);
    let err = query(&store, &api, QueryMsg::GetCredits { address: "demian".to_string() })
        .unwrap_err();
    assert_eq!(err.kind(), ErrorKind::Store);

    let msg = HandleMsg::Add { credits: 7, address: "demian".to_string() };
    let err = handle(&mut store, &api, creator(), msg).unwrap_err();
    assert_eq!(err.kind(), ErrorKind::Store);
    assert_eq!(store.get(&key), Some(b"-1".to_vec()));

    // a stranger is still turned away first
    let stranger = Env { message: MessageInfo { sender: "demian".to_string() } };
    let msg = HandleMsg::Add { credits: 7, address: "demian".to_string() };
    assert_eq!(handle(&mut store, &api, stranger, msg).unwrap_err(), ContractError::Unauthorized);

    // other entries are served as before
    let msg = HandleMsg::Add { credits: 7, address: "someone".to_string() };
    handle(&mut store, &api, creator(), msg).unwrap();
    assert_eq!(
        try_get_credits(&store, &api, "someone".to_string()),
        Ok(CreditsResponse { owned_credits: 7 })
    );
    assert_eq!(store.get(&key), Some(b"-1".to_vec()));
}

#[test]
fn writing_a_balance_replaces_an_unreadable_entry() {
    let mut store = MemoryStorage::new();
    store.set(b"\x00\x0busercreditsdemian", b"seven");
    assert!(credits_storage_read(&store, b"demian").is_err());
    assert_eq!(credits_storage(&mut store, b"demian", 3), Ok(()));
    assert_eq!(credits_storage_read(&store, b"demian"), Ok(Some(3)));
}

#[test]
fn unreadable_config_is_not_configured() {
    let api = MockApi::new(20);
    let creator = || Env { message: MessageInfo { sender: "creator".to_string() } };
    let add = || HandleMsg::Add { credits: 7, address: "demian".to_string() };

    // not a record at all
    let mut store = MemoryStorage::new();
    store.set(b"\x00\x06config", b"7");
    assert_eq!(config_read(&store), Err(ContractError::NotConfigured(None)));
    let err = handle(&mut store, &api, creator(), add()).unwrap_err();
    assert_eq!(err, ContractError::NotConfigured(None));
    assert_eq!(store.get(b"\x00\x06config"), Some(b"7".to_vec()));

    // an address alone is no record
    store.set(b"\x00\x06config", b"\"Y3JlYXRvcg==\"");
    assert_eq!(config_read(&store), Err(ContractError::NotConfigured(None)));

    // a record whose field is no address
    store.set(b"\x00\x06config", b"{\"owner\":7}");
    match config_read(&store).unwrap_err() {
        ContractError::NotConfigured(Some(e)) => {
            assert!(matches!(e, cosmwasm_std::StdError::ParseErr { .. }))
        }
        other => panic!("unexpected failure: {:?}", other),
    }
    let err = handle(&mut store, &api, creator(), add()).unwrap_err();
    assert_eq!(err.kind(), ErrorKind::NotConfigured);
    assert_eq!(store.get(b"\x00\x06config"), Some(b"{\"owner\":7}".to_vec()));

    // a record with another field
    store.set(b"\x00\x06config", b"{\"Owner\":\"Y3JlYXRvcg==\"}");
    assert_eq!(config_read(&store), Err(ContractError::NotConfigured(None)));
    store.set(b"\x00\x06config", b"{\"owner\":\"Y3JlYXRvcg==\"");
    assert_eq!(config_read(&store), Err(ContractError::NotConfigured(None)));
    store.set(b"\x00\x06config", b"");
    assert_eq!(config_read(&store), Err(ContractError::NotConfigured(None)));
}

#[test]
fn record_written_elsewhere_reads() {
    // the record of the owner "creator", padded to twenty bytes
    let mut store = MemoryStorage::new();
    store.set(b"\x00\x06config", b"{\"owner\":\"Y3JlYXRvcgAAAAAAAAAAAAAAAAA=\"}");
    let mut owner = b"creator".to_vec();
    owner.resize(20, 0);
    assert_eq!(config_read(&store), Ok(State { owner }));

    let api = MockApi::new(20);
    let env = Env { message: MessageInfo { sender: "creator".to_string() } };
    let msg = HandleMsg::Add { credits: 7, address: "demian".to_string() };
    handle(&mut store, &api, env, msg).unwrap();
    assert_eq!(
        try_get_credits(&store, &api, "demian".to_string()),
        Ok(CreditsResponse { owned_credits: 7 })
    );
}

#[test]
fn record_frames_its_value() {
    assert_eq!(&OPENING, b"{\"owner\":");
    assert_eq!(CLOSING, b'}');
    assert_eq!(frame_owner(b"\"QQ==\""), b"{\"owner\":\"QQ==\"}".to_vec());
    assert_eq!(frame_owner(b""), b"{\"owner\":}".to_vec());
    assert_eq!(unframe_owner(b"{\"owner\":\"QQ==\"}"), Some(&b"\"QQ==\""[..]));
    assert_eq!(unframe_owner(b"{\"owner\":}"), Some(&b""[..]));
    assert_eq!(unframe_owner(b"{\"owner\":"), None);
    assert_eq!(unframe_owner(b"{\"owner\" :\"QQ==\"}"), None);
    assert_eq!(unframe_owner(b"{\"owner\":\"QQ==\"} "), None);
    assert_eq!(unframe_owner(b"}"), None);
    assert_eq!(unframe_owner(b""), None);
}

#[test]
fn writes_touch_one_store_key_each() {
    let (mut store, api) = mock_dependencies(20);
    store.set(b"\x00\x05other", b"1");
    store.set(b"\x00\x0busercredits", b"\"AQ==\"");
    store.set(b"\x00\x06config", b"2");
    store.set(b"stray", b"3");
    let creator = || Env { message: MessageInfo { sender: "creator".to_string() } };

    init(&mut store, &api, creator(), InitMsg {}).unwrap();
    assert_eq!(store.get(b"\x00\x05other"), Some(b"1".to_vec()));
    assert_eq!(store.get(b"\x00\x0busercredits"), Some(b"\"AQ==\"".to_vec()));
    assert_eq!(store.get(b"stray"), Some(b"3".to_vec()));
    assert_ne!(store.get(b"\x00\x06config"), Some(b"2".to_vec()));
    let config_bytes = store.get(b"\x00\x06config");

    let msg = HandleMsg::Add { credits: 7, address: "demian".to_string() };
    handle(&mut store, &api, creator(), msg).unwrap();
    assert_eq!(store.get(b"\x00\x05other"), Some(b"1".to_vec()));
    assert_eq!(store.get(b"\x00\x0busercredits"), Some(b"\"AQ==\"".to_vec()));
    assert_eq!(store.get(b"stray"), Some(b"3".to_vec()));
    assert_eq!(store.get(b"\x00\x06config"), config_bytes);

    handle(&mut store, &api, creator(), HandleMsg::Reset {}).unwrap();
    assert_eq!(store.get(b"\x00\x06config"), config_bytes);
    assert_eq!(
        try_get_credits(&store, &api, "demian".to_string()),
        Ok(CreditsResponse { owned_credits: 7 })
    );
}

#[test]
fn new_mock_host_is_empty_and_pads() {
    let (mut store, api) = mock_dependencies(8);
    assert!(config_read(&store).is_err());
    assert_eq!(credits_storage_read(&store, b"creator\0"), Ok(None));
    assert_eq!(get_balance(&store, b""), Ok(0));

    let env = Env { message: MessageInfo { sender: "creator".to_string() } };
    init(&mut store, &api, env, InitMsg {}).unwrap();
    assert_eq!(config_read(&store).unwrap().owner, b"creator\0".to_vec());
    assert_eq!(
        try_get_credits(&store, &api, "creator".to_string()),
        Ok(CreditsResponse { owned_credits: 0 })
    );
    assert!(try_get_credits(&store, &api, "creator99".to_string()).is_err());
}

#[test]
fn balance_of_a_missing_entry_is_zero() {
    let mut store = MemoryStorage::new();
    assert_eq!(get_balance(&store, b"demian"), Ok(0));
    credits_storage(&mut store, b"demian", 12).unwrap();
    assert_eq!(get_balance(&store, b"demian"), Ok(12));
    assert_eq!(get_balance(&store, b"someone"), Ok(0));
}

#[test]
fn add_balance_returns_the_new_balance() {
    let mut store = MemoryStorage::new();
    assert_eq!(add_balance(&mut store, b"demian", 7), Ok(7));
    assert_eq!(add_balance(&mut store, b"demian", 5), Ok(12));
    assert_eq!(add_balance(&mut store, b"someone", 1), Ok(1));
    assert_eq!(get_balance(&store, b"demian"), Ok(12));
    assert_eq!(get_balance(&store, b"someone"), Ok(1));
}

#[test]
fn add_balance_refuses_to_overflow() {
    let mut store = MemoryStorage::new();
    assert_eq!(add_balance(&mut store, b"demian", u64::MAX - 1), Ok(u64::MAX - 1));
    assert_eq!(add_balance(&mut store, b"demian", 2), Err(ContractError::Overflow));
    assert_eq!(get_balance(&store, b"demian"), Ok(u64::MAX - 1));
    assert_eq!(add_balance(&mut store, b"demian", 1), Ok(u64::MAX));
    assert_eq!(add_balance(&mut store, b"demian", 1), Err(ContractError::Overflow));
    assert_eq!(add_balance(&mut store, b"demian", 0), Ok(u64::MAX));
    assert_eq!(get_balance(&store, b"demian"), Ok(u64::MAX));
}

#[test]
fn add_balance_leaves_the_config_alone() {
    let mut store = MemoryStorage::new();
    config(&mut store, &State { owner: b"creator".to_vec() }).unwrap();
    add_balance(&mut store, b"creator", 7).unwrap();
    assert_eq!(config_read(&store), Ok(State { owner: b"creator".to_vec() }));
}
