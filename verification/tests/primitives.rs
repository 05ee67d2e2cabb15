use alloy_primitives::{Address as AlloyAddress, I256 as AlloyI256, U256 as AlloyU256};
use flashblocks_digestor::abi::{
    address_from_topic, decode_address, decode_bool, decode_int24, decode_int256, decode_uint128,
    decode_uint16, decode_uint160, decode_uint256, decode_uint8, uint16_from_topic,
};
use flashblocks_digestor::primitives::{read_be, store_be, Address, B256, I256, U256};

fn word(bytes: [u8; 32]) -> B256 {
    B256::from_be_bytes(&bytes)
}

fn word_of_u64(value: u64) -> B256 {
    B256::new(0, value as u128)
}

#[test]
fn a_word_is_read_big_endian() {
    let mut bytes = [0u8; 32];
    bytes[0] = 0x01;
    bytes[15] = 0x02;
    bytes[16] = 0x03;
    bytes[31] = 0x04;
    let w = word(bytes);
    assert_eq!(w.hi, (1u128 << 120) + 2);
    assert_eq!(w.lo, (3u128 << 120) + 4);
    assert_eq!(w.to_be_bytes(), bytes);
}

#[test]
fn words_and_addresses_go_to_bytes_and_back() {
    let mut bytes = [0u8; 32];
    for (i, b) in bytes.iter_mut().enumerate() {
        *b = (i as u8).wrapping_mul(37).wrapping_add(11);
    }
    assert_eq!(B256::from_be_bytes(&bytes).to_be_bytes(), bytes);
    assert_eq!(B256::zero().to_be_bytes(), [0u8; 32]);
    assert_eq!(B256::new(u128::MAX, u128::MAX).to_be_bytes(), [0xffu8; 32]);

    let mut addr = [0u8; 20];
    for (i, b) in addr.iter_mut().enumerate() {
        *b = 0xf0 ^ (i as u8);
    }
    let a = Address::from_be_bytes(&addr);
    assert_eq!(a.to_be_bytes(), addr);
    assert_eq!(a.hi, u32::from_be_bytes([addr[0], addr[1], addr[2], addr[3]]));
    assert_eq!(Address::new(0, 1).to_be_bytes()[19], 1);
}

#[test]
fn read_and_store_agree_with_std() {
    let bytes: Vec<u8> = (0u8..40).collect();
    let expected = u128::from_be_bytes(bytes[3..19].try_into().unwrap());
    assert_eq!(read_be(&bytes, 3, 16), expected);
    assert_eq!(read_be(&bytes, 5, 0), 0);
    assert_eq!(read_be(&bytes, 1, 2), 0x0102);

    let mut out = [0xaau8; 8];
    store_be(&mut out, 2, 3, 0x010203);
    assert_eq!(out, [0xaa, 0xaa, 1, 2, 3, 0xaa, 0xaa, 0xaa]);
}

#[test]
fn an_address_word_needs_twelve_zero_bytes() {
    let address = AlloyAddress::repeat_byte(0x11);
    let w = word(address.into_word().0);
    let decoded = decode_address(w).unwrap();
    assert_eq!(decoded.to_be_bytes(), address.0 .0);

    let mut dirty = address.into_word().0;
    dirty[11] = 1;
    assert_eq!(decode_address(word(dirty)), None);
    assert_eq!(address_from_topic(word(dirty)).to_be_bytes(), address.0 .0);
    dirty[11] = 0;
    dirty[0] = 0x80;
    assert_eq!(decode_address(word(dirty)), None);
    assert_eq!(decode_uint160(word(dirty)), None);
    assert_eq!(address_from_topic(word(dirty)).to_be_bytes(), address.0 .0);
}

#[test]
fn unsigned_words_are_held_to_their_width() {
    assert_eq!(decode_uint8(word_of_u64(0)), Some(0));
    assert_eq!(decode_uint8(word_of_u64(255)), Some(255));
    assert_eq!(decode_uint8(word_of_u64(256)), None);
    assert_eq!(decode_uint16(word_of_u64(65535)), Some(65535));
    assert_eq!(decode_uint16(word_of_u64(65536)), None);
    assert_eq!(decode_uint16(B256::new(1, 7)), None);
    assert_eq!(decode_uint128(B256::new(0, u128::MAX)), Some(u128::MAX));
    assert_eq!(decode_uint128(B256::new(1, 0)), None);
    let price = decode_uint160(B256::new(0xffff_ffff, 5)).unwrap();
    assert_eq!((price.hi, price.lo), (0xffff_ffff, 5));
    assert_eq!(decode_uint160(B256::new(0x1_0000_0000, 5)), None);
    assert_eq!(decode_uint256(B256::new(9, 8)), U256 { hi: 9, lo: 8 });
    assert_eq!(uint16_from_topic(B256::new(u128::MAX, 0x1_2345)), 0x2345);
}

#[test]
fn a_bool_word_is_true_unless_its_last_byte_is_zero() {
    assert_eq!(decode_bool(word_of_u64(0)), Some(false));
    assert_eq!(decode_bool(word_of_u64(1)), Some(true));
    assert_eq!(decode_bool(word_of_u64(2)), Some(true));
    assert_eq!(decode_bool(word_of_u64(256)), None);
    assert_eq!(decode_bool(B256::new(1, 1)), None);
}

#[test]
fn an_int24_word_must_extend_its_sign() {
    assert_eq!(decode_int24(word_of_u64(0)), Some(0));
    assert_eq!(decode_int24(word_of_u64(0x7f_ffff)), Some(8_388_607));
    assert_eq!(decode_int24(word_of_u64(0x80_0000)), None);
    assert_eq!(decode_int24(B256::new(u128::MAX, u128::MAX)), Some(-1));
    assert_eq!(decode_int24(B256::new(u128::MAX, u128::MAX - 0x7f_ffff)), Some(-8_388_608));
    assert_eq!(decode_int24(B256::new(u128::MAX, u128::MAX - 0x80_0000)), None);
    assert_eq!(decode_int24(B256::new(0, u128::MAX)), None);
    assert_eq!(decode_int24(B256::new(u128::MAX, 5)), None);
    let tick = AlloyI256::try_from(-198_765i64).unwrap();
    assert_eq!(decode_int24(word(tick.to_be_bytes::<32>())), Some(-198_765));
}

#[test]
fn wide_integers_keep_every_bit() {
    let minus_one = decode_int256(B256::new(u128::MAX, u128::MAX));
    assert!(minus_one.negative());
    assert_eq!(AlloyI256::from_be_bytes(minus_one.to_word().to_be_bytes()), AlloyI256::MINUS_ONE);
    let plus = I256::from_word(B256::new(0, 42));
    assert!(!plus.negative());
    let big: AlloyU256 = AlloyU256::from(123_456_789u64) << 200usize;
    let ours = U256::from_word(word(big.to_be_bytes::<32>()));
    assert_eq!(AlloyU256::from_be_bytes(ours.to_word().to_be_bytes()), big);
}
