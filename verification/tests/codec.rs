use contract_env::call::{CallData, CallParams, CreateParams, ReturnType};
use contract_env::codec::{Decode, Encode};
use contract_env::types::{AccountId, Encoded, Key, Selector};

fn encoded<V: Encode>(value: &V) -> Vec<u8> {
    let mut dest = Vec::new();
    value.encode_to(&mut dest);
    dest
}

#[test]
fn u32_is_written_least_significant_byte_first() {
    assert_eq!(encoded(&42u32), vec![42, 0, 0, 0]);
    assert_eq!(encoded(&0xAABBCCDDu32), vec![0xDD, 0xCC, 0xBB, 0xAA]);
    assert_eq!(encoded(&0u32), vec![0, 0, 0, 0]);
    assert_eq!(encoded(&u32::MAX), vec![0xFF; 4]);
}

#[test]
fn u64_is_written_least_significant_byte_first() {
    assert_eq!(encoded(&0x0102030405060708u64), vec![8, 7, 6, 5, 4, 3, 2, 1]);
    assert_eq!(encoded(&u64::MAX), vec![0xFF; 8]);
}

#[test]
fn u128_is_written_least_significant_byte_first() {
    let mut expected = vec![0u8; 16];
    expected[0] = 0x34;
    expected[1] = 0x12;
    expected[15] = 0x80;
    assert_eq!(encoded(&((0x80u128 << 120) | 0x1234)), expected);
    assert_eq!(encoded(&u128::MAX), vec![0xFF; 16]);
}

#[test]
fn encoding_is_appended_to_what_is_there() {
    let mut dest = vec![9u8, 9];
    7u32.encode_to(&mut dest);
    AccountId([5; 32]).encode_to(&mut dest);
    let mut expected = vec![9u8, 9, 7, 0, 0, 0];
    expected.extend_from_slice(&[5; 32]);
    assert_eq!(dest, expected);
}

#[test]
fn encodings_are_those_of_the_codec() {
    assert_eq!(encoded(&42u32), parity_scale_codec::Encode::encode(&42u32));
    assert_eq!(encoded(&77u64), parity_scale_codec::Encode::encode(&77u64));
    assert_eq!(encoded(&(1u128 << 100)), parity_scale_codec::Encode::encode(&(1u128 << 100)));
    assert_eq!(encoded(&AccountId([3; 32])), parity_scale_codec::Encode::encode(&[3u8; 32]));
}

#[test]
fn u32_is_read_from_exactly_four_bytes() {
    assert_eq!(u32::decode(&[1, 2, 3, 4]), Some(0x04030201));
    assert_eq!(u32::decode(&[42, 0, 0, 0]), Some(42));
    assert_eq!(u32::decode(&[1, 2, 3]), None);
    assert_eq!(u32::decode(&[1, 2, 3, 4, 5]), None);
    assert_eq!(u32::decode(&[]), None);
}

#[test]
fn u64_is_read_from_exactly_eight_bytes() {
    assert_eq!(u64::decode(&[8, 7, 6, 5, 4, 3, 2, 1]), Some(0x0102030405060708));
    assert_eq!(u64::decode(&[0; 7]), None);
    assert_eq!(u64::decode(&[0; 9]), None);
}

#[test]
fn u128_is_read_from_exactly_sixteen_bytes() {
    let mut bytes = [0u8; 16];
    bytes[0] = 1;
    bytes[15] = 2;
    assert_eq!(u128::decode(&bytes), Some((2u128 << 120) | 1));
    assert_eq!(u128::decode(&[0; 15]), None);
    assert_eq!(u128::decode(&[0; 17]), None);
}

#[test]
fn account_id_and_hash_are_their_bytes() {
    let mut bytes = [0u8; 32];
    for (i, b) in bytes.iter_mut().enumerate() {
        *b = i as u8;
    }
    assert_eq!(encoded(&AccountId(bytes)), bytes.to_vec());
    assert_eq!(encoded(&contract_env::types::Hash(bytes)), bytes.to_vec());
    assert_eq!(AccountId::decode(&bytes), Some(AccountId(bytes)));
    assert_eq!(contract_env::types::Hash::decode(&bytes), Some(contract_env::types::Hash(bytes)));
    assert_eq!(AccountId::decode(&bytes[..31]), None);
    assert_eq!(contract_env::types::Hash::decode(&[0; 33]), None);
}

#[test]
fn encoded_bytes_are_carried_as_they_are() {
    let raw = Encoded(vec![1, 2, 3]);
    assert_eq!(encoded(&raw), vec![1, 2, 3]);
    assert_eq!(Encoded::decode(&[4, 5]), Some(Encoded(vec![4, 5])));
    assert_eq!(Encoded::decode(&[]), Some(Encoded(vec![])));
}

#[test]
fn numbers_survive_the_round_trip() {
    for value in [0u32, 1, 255, 256, 0xAABBCCDD, u32::MAX] {
        assert_eq!(u32::decode(&encoded(&value)), Some(value));
    }
    for value in [0u64, 1 << 40, u64::MAX] {
        assert_eq!(u64::decode(&encoded(&value)), Some(value));
    }
    for value in [0u128, 1 << 100, u128::MAX] {
        assert_eq!(u128::decode(&encoded(&value)), Some(value));
    }
}

#[test]
fn call_data_starts_with_the_selector() {
    let mut data = CallData::new(Selector([0xAA, 0xBB, 0xCC, 0xDD]));
    assert_eq!(data.to_bytes(), &[0xAA, 0xBB, 0xCC, 0xDD]);
    assert_eq!(data.params(), &[] as &[u8]);
    data.push_arg(&[1, 2]);
    data.push_arg(&[3]);
    assert_eq!(data.selector(), Selector([0xAA, 0xBB, 0xCC, 0xDD]));
    assert_eq!(data.params(), &[1, 2, 3]);
    assert_eq!(data.to_bytes(), &[0xAA, 0xBB, 0xCC, 0xDD, 1, 2, 3]);
    assert_eq!(encoded(&data), vec![0xAA, 0xBB, 0xCC, 0xDD, 1, 2, 3]);
}

#[test]
fn call_data_needs_four_bytes() {
    assert!(CallData::from_bytes(&[]).is_none());
    assert!(CallData::from_bytes(&[1, 2, 3]).is_none());
    let data = CallData::from_bytes(&[1, 2, 3, 4]).unwrap();
    assert_eq!(data.selector(), Selector([1, 2, 3, 4]));
    assert_eq!(data.params(), &[] as &[u8]);
    let data = CallData::from_bytes(&[1, 2, 3, 4, 5, 6]).unwrap();
    assert_eq!(data.params(), &[5, 6]);
}

#[test]
fn a_call_without_selector_has_the_zero_selector() {
    let params = CallParams::<()>::build(AccountId([1; 32]), 5, 6).finish();
    assert_eq!(params.callee(), AccountId([1; 32]));
    assert_eq!(params.gas_limit(), 5);
    assert_eq!(params.endowment(), 6);
    assert_eq!(params.input_data().to_bytes(), &[0, 0, 0, 0]);
}

#[test]
fn the_builder_keeps_arguments_when_the_selector_is_set_late() {
    let params = CallParams::<()>::build(AccountId([1; 32]), 5, 6)
        .push_arg(&[7, 8])
        .selector(Selector([1, 2, 3, 4]))
        .push_arg(&[9])
        .finish();
    assert_eq!(params.input_data().to_bytes(), &[1, 2, 3, 4, 7, 8, 9]);
    let params = CallParams::<()>::build(AccountId([1; 32]), 5, 6)
        .selector(Selector([1, 2, 3, 4]))
        .selector(Selector([5, 6, 7, 8]))
        .finish();
    assert_eq!(params.input_data().to_bytes(), &[5, 6, 7, 8]);
}

#[test]
fn a_call_is_encoded_field_by_field() {
    let params = CallParams::<ReturnType<u32>>::build(AccountId([0x11; 32]), 0x0102, 0x0304)
        .selector(Selector([0xAA, 0xBB, 0xCC, 0xDD]))
        .push_arg(&[1, 2, 3])
        .finish();
    let mut expected = vec![0x11u8; 32];
    expected.extend_from_slice(&[2, 1, 0, 0, 0, 0, 0, 0]);
    expected.extend_from_slice(&[4, 3, 0, 0, 0, 0, 0, 0, 0, 0, 0, 0, 0, 0, 0, 0]);
    expected.extend_from_slice(&[0xAA, 0xBB, 0xCC, 0xDD, 1, 2, 3]);
    assert_eq!(encoded(&params), expected);
}

#[test]
fn a_call_survives_the_round_trip() {
    let a1 = encoded(&7u32);
    let a2 = encoded(&AccountId([9; 32]));
    let params = CallParams::<()>::build(AccountId([0xA0; 32]), 1_000_000, 1u128 << 90)
        .selector(Selector([0xDE, 0xAD, 0xBE, 0xEF]))
        .push_arg(&a1)
        .push_arg(&a2)
        .finish();
    let decoded = CallParams::<()>::decode(&encoded(&params)).unwrap();
    assert_eq!(decoded.callee(), AccountId([0xA0; 32]));
    assert_eq!(decoded.gas_limit(), 1_000_000);
    assert_eq!(decoded.endowment(), 1u128 << 90);
    assert_eq!(decoded.input_data().selector(), Selector([0xDE, 0xAD, 0xBE, 0xEF]));
    let mut args = a1.clone();
    args.extend_from_slice(&a2);
    assert_eq!(decoded.input_data().params(), &args[..]);
    assert_eq!(u32::decode(&decoded.input_data().params()[..4]), Some(7));
    assert_eq!(AccountId::decode(&decoded.input_data().params()[4..]), Some(AccountId([9; 32])));
}

#[test]
fn a_call_needs_sixty_bytes() {
    assert!(CallParams::<()>::decode(&[]).is_none());
    assert!(CallParams::<()>::decode(&[0; 59]).is_none());
    let decoded = CallParams::<()>::decode(&[0; 60]).unwrap();
    assert_eq!(decoded.callee(), AccountId([0; 32]));
    assert_eq!(decoded.gas_limit(), 0);
    assert_eq!(decoded.endowment(), 0);
    assert_eq!(decoded.input_data().to_bytes(), &[0, 0, 0, 0]);
}

#[test]
fn an_instantiation_survives_the_round_trip() {
    let params = CreateParams::build(contract_env::types::Hash([0xC0; 32]), 77, 88)
        .selector(Selector([1, 2, 3, 4]))
        .push_arg(&[5, 6])
        .finish();
    assert_eq!(params.code_hash(), contract_env::types::Hash([0xC0; 32]));
    let bytes = encoded(&params);
    assert_eq!(bytes.len(), 62);
    assert_eq!(&bytes[..32], &[0xC0; 32]);
    assert_eq!(&bytes[32..40], &[77, 0, 0, 0, 0, 0, 0, 0]);
    assert_eq!(bytes[40], 88);
    assert_eq!(&bytes[56..], &[1, 2, 3, 4, 5, 6]);
    let decoded = CreateParams::decode(&bytes).unwrap();
    assert_eq!(decoded.code_hash(), contract_env::types::Hash([0xC0; 32]));
    assert_eq!(decoded.gas_limit(), 77);
    assert_eq!(decoded.endowment(), 88);
    assert_eq!(decoded.input_data().to_bytes(), &[1, 2, 3, 4, 5, 6]);
    assert!(CreateParams::decode(&bytes[..59]).is_none());
}

#[test]
fn an_instantiation_without_selector_has_the_zero_selector() {
    let params = CreateParams::build(contract_env::types::Hash([2; 32]), 1, 2)
        .push_arg(&[9])
        .finish();
    assert_eq!(params.input_data().to_bytes(), &[0, 0, 0, 0, 9]);
    let params = CreateParams::build(contract_env::types::Hash([2; 32]), 1, 2)
        .push_arg(&[9])
        .selector(Selector([4, 3, 2, 1]))
        .finish();
    assert_eq!(params.input_data().to_bytes(), &[4, 3, 2, 1, 9]);
}

#[test]
fn keys_compare_by_their_bytes() {
    assert_eq!(Key([1; 32]), Key([1; 32]));
    assert_ne!(Key([1; 32]), Key([2; 32]));
}
