use cosmwasm_std::testing::MockStorage;
use cosmwasm_std::Storage as RawStorage;

use scrt_sdk_core::address_store::CanonicalAddr;
use scrt_sdk_core::address_store::ExecuteLoadWithStorage;
use scrt_sdk_core::address_store::ExecuteSaveWithStorage;
use scrt_sdk_core::address_store::LoadForAddress;
use scrt_sdk_core::address_store::SaveForAddress;
use scrt_sdk_core::codec::Codec;
use scrt_sdk_core::codec::Unencodable;
use scrt_sdk_core::error::StdError;
use scrt_sdk_core::error::StdErrorExt;
use scrt_sdk_core::state::Config;
use scrt_sdk_core::state::Reminder;
use scrt_sdk_core::state::State;
use scrt_sdk_core::storage::load;
use scrt_sdk_core::storage::save;
use scrt_sdk_core::storage::StaticKey;
use scrt_sdk_core::storage::StaticLoad;
use scrt_sdk_core::storage::StaticSave;
use scrt_sdk_core::storage::StaticUpdate;

#[test]
fn round_trip_state() {
    let v = State { reminder_count: 12345 };
    let bytes = v.encode().unwrap();
    let back = State::decode(&bytes).unwrap();
    assert_eq!(back, v);
}

#[test]
fn round_trip_config() {
    let v = Config { max_size: 280 };
    let bytes = v.encode().unwrap();
    let back = Config::decode(&bytes).unwrap();
    assert_eq!(back, v);
}

#[test]
fn round_trip_reminder() {
    let v = Reminder { content: vec![1, 2, 3, 255], timestamp: 42 };
    let bytes = v.encode().unwrap();
    let back = Reminder::decode(&bytes).unwrap();
    assert_eq!(back, v);
}

#[test]
fn round_trip_string() {
    let v = String::from("hello world");
    let bytes = v.encode().unwrap();
    let back = String::decode(&bytes).unwrap();
    assert_eq!(back, v);
}

#[test]
fn encoding_is_little_endian_fixed_width() {
    let v = State { reminder_count: 5 };
    let bytes = v.encode().unwrap();
    assert_eq!(bytes, vec![5, 0, 0, 0, 0, 0, 0, 0]);
}

#[test]
fn encoding_of_string_is_length_prefixed() {
    let v = String::from("hello");
    let bytes = v.encode().unwrap();
    assert_eq!(bytes, vec![5, 0, 0, 0, 0, 0, 0, 0, 104, 101, 108, 108, 111]);
}

#[test]
fn encoding_of_reminder_is_length_prefixed_pair() {
    let v = Reminder { content: vec![1, 2, 3], timestamp: 42 };
    let bytes = v.encode().unwrap();
    let expected = vec![3, 0, 0, 0, 0, 0, 0, 0, 1, 2, 3, 42, 0, 0, 0, 0, 0, 0, 0];
    assert_eq!(bytes, expected);
}

#[test]
fn decode_of_garbage_is_serialize_err() {
    let r = State::decode(&[1, 2]);
    assert!(r.unwrap_err().is_serialize_err());
}

#[test]
fn save_then_load_returns_value() {
    let mut store = MockStorage::new();
    let v = Reminder { content: vec![9, 8, 7], timestamp: 11 };
    save(&mut store, b"some-key", &v).unwrap();
    let back: Reminder = load(&store, b"some-key").unwrap();
    assert_eq!(back, v);
}

#[test]
fn load_of_unwritten_key_is_not_found() {
    let store = MockStorage::new();
    let r: Result<State, StdError> = load(&store, b"never-written");
    let e = r.unwrap_err();
    assert!(e.is_not_found());
}

#[test]
fn not_found_carries_key_rendering() {
    let store = MockStorage::new();
    let r: Result<State, StdError> = <State as StaticLoad<State>>::load(&store);
    match r.unwrap_err() {
        StdError::NotFound { kind } => {
            assert_eq!(kind, "Key 'state' not found in storage");
        },
        other => panic!("expected NotFound, got {:?}", other),
    }
}

#[test]
fn static_keys_are_the_branding_constants() {
    assert_eq!(Config::key(), b"config".to_vec());
    assert_eq!(State::key(), b"state".to_vec());
}

#[test]
fn static_save_and_load_use_the_fixed_key() {
    let mut store = MockStorage::new();
    let cfg = Config { max_size: 64 };
    cfg.save(&mut store).unwrap();
    let raw = RawStorage::get(&store, b"config").expect("fixed key must be written");
    assert_eq!(raw, vec![64, 0, 0, 0, 0, 0, 0, 0]);
    let back: Config = <Config as StaticLoad<Config>>::load(&store).unwrap();
    assert_eq!(back, cfg);
}

#[test]
fn update_is_load_apply_save() {
    let mut updated = MockStorage::new();
    let mut manual = MockStorage::new();
    let initial = State { reminder_count: 5 };
    initial.save(&mut updated).unwrap();
    initial.save(&mut manual).unwrap();

    <State as StaticUpdate<State>>::update(
        |c: State| State { reminder_count: c.reminder_count * 3 },
        &mut updated,
    )
    .unwrap();

    let loaded: State = <State as StaticLoad<State>>::load(&manual).unwrap();
    let next = State { reminder_count: loaded.reminder_count * 3 };
    next.save(&mut manual).unwrap();

    let a: State = <State as StaticLoad<State>>::load(&updated).unwrap();
    let b: State = <State as StaticLoad<State>>::load(&manual).unwrap();
    assert_eq!(a, b);
    assert_eq!(a.reminder_count, 15);
}

#[test]
fn update_of_missing_value_is_not_found_and_writes_nothing() {
    let mut store = MockStorage::new();
    let r = <State as StaticUpdate<State>>::update(
        |c: State| State { reminder_count: c.reminder_count + 1 },
        &mut store,
    );
    assert!(r.unwrap_err().is_not_found());
    assert!(RawStorage::get(&store, b"state").is_none());
}

#[test]
fn counter_updated_three_times_reads_three() {
    let mut store = MockStorage::new();
    State { reminder_count: 0 }.save(&mut store).unwrap();
    for _ in 0..3 {
        <State as StaticUpdate<State>>::update(
            |c: State| State { reminder_count: c.reminder_count + 1 },
            &mut store,
        )
        .unwrap();
    }
    let back: State = <State as StaticLoad<State>>::load(&store).unwrap();
    assert_eq!(back.reminder_count, 3);
}

#[test]
fn save_for_address_then_load_for_same_address() {
    let mut store = MockStorage::new();
    let greeting = String::from("hello");
    let op = greeting.save_for_address(CanonicalAddr(vec![0x01]));
    op.execute_with_storage(&mut store).unwrap();

    let op = <String as LoadForAddress>::load_for_address(CanonicalAddr(vec![0x01]));
    let back: String = op.execute_with_storage(&store).unwrap();
    assert_eq!(back, "hello");
}

#[test]
fn load_for_untouched_address_is_not_found() {
    let mut store = MockStorage::new();
    let greeting = String::from("hello");
    let op = greeting.save_for_address(CanonicalAddr(vec![0x01]));
    op.execute_with_storage(&mut store).unwrap();

    let op = <String as LoadForAddress>::load_for_address(CanonicalAddr(vec![0x02]));
    let r: Result<String, StdError> = op.execute_with_storage(&store);
    assert!(r.unwrap_err().is_not_found());
}

#[test]
fn load_for_fresh_store_is_not_found() {
    let store = MockStorage::new();
    let op = <String as LoadForAddress>::load_for_address(CanonicalAddr(vec![0x02]));
    let r: Result<String, StdError> = op.execute_with_storage(&store);
    assert!(r.unwrap_err().is_not_found());
}

#[test]
fn constructing_operations_touches_no_store() {
    let mut store = MockStorage::new();
    let value = Reminder { content: vec![1], timestamp: 1 };
    let _pending_save = value.save_for_address(CanonicalAddr(vec![0x07]));
    let _pending_load = <Reminder as LoadForAddress>::load_for_address(CanonicalAddr(vec![0x07]));
    // Neither operation was executed: the store never saw a get or a set,
    // so the key both of them bind to is still absent.
    let r: Result<Reminder, StdError> = load(&mut store, &[0x07]);
    assert!(r.unwrap_err().is_not_found());
}

#[test]
fn failed_encode_leaves_store_unmodified() {
    let mut store = MockStorage::new();
    State { reminder_count: 7 }.save(&mut store).unwrap();
    let r = save(&mut store, b"state", &Unencodable);
    assert!(r.unwrap_err().is_serialize_err());
    let back: State = <State as StaticLoad<State>>::load(&store).unwrap();
    assert_eq!(back.reminder_count, 7);
}

#[test]
fn error_kind_predicates_match_their_variants() {
    let not_found = StdError::NotFound { kind: String::from("k") };
    let serialize = StdError::SerializeErr { source: String::from("t"), msg: String::from("m") };
    let base64 = StdError::InvalidBase64 { msg: String::from("m") };
    let utf8 = StdError::InvalidUtf8 { msg: String::from("m") };
    let parse = StdError::ParseErr { target: String::from("t"), msg: String::from("m") };
    let unauthorized = StdError::Unauthorized;
    let underflow = StdError::Underflow {
        minuend: String::from("1"),
        subtrahend: String::from("2"),
    };

    assert!(not_found.is_not_found());
    assert!(serialize.is_serialize_err());
    assert!(base64.is_invalid_base64());
    assert!(utf8.is_invalid_utf8());
    assert!(parse.is_parse_err());
    assert!(unauthorized.is_unauthorized());
    assert!(underflow.is_underflow());

    assert!(!not_found.is_serialize_err());
    assert!(!serialize.is_not_found());
    assert!(!base64.is_invalid_utf8());
    assert!(!utf8.is_invalid_base64());
    assert!(!parse.is_unauthorized());
    assert!(!unauthorized.is_underflow());
    assert!(!underflow.is_parse_err());
}

#[test]
fn distinct_addresses_use_distinct_slots() {
    let mut store = MockStorage::new();
    let first = String::from("first");
    let second = String::from("second");
    first.save_for_address(CanonicalAddr(vec![0xAA])).execute_with_storage(&mut store).unwrap();
    second.save_for_address(CanonicalAddr(vec![0xBB])).execute_with_storage(&mut store).unwrap();

    let a: String = <String as LoadForAddress>::load_for_address(CanonicalAddr(vec![0xAA]))
        .execute_with_storage(&store)
        .unwrap();
    let b: String = <String as LoadForAddress>::load_for_address(CanonicalAddr(vec![0xBB]))
        .execute_with_storage(&store)
        .unwrap();
    assert_eq!(a, "first");
    assert_eq!(b, "second");
}

#[test]
fn save_overwrites_previous_value() {
    let mut store = MockStorage::new();
    State { reminder_count: 1 }.save(&mut store).unwrap();
    State { reminder_count: 2 }.save(&mut store).unwrap();
    let back: State = <State as StaticLoad<State>>::load(&store).unwrap();
    assert_eq!(back.reminder_count, 2);
}
