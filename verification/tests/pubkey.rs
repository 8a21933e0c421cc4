use sola_table::pubkey::{Pubkey, PUBKEY_BYTES};

#[test]
fn pubkey_round_trips_its_bytes() {
    let mut bytes = [0u8; 32];
    for (i, b) in bytes.iter_mut().enumerate() {
        *b = (i * 7) as u8;
    }
    let key = Pubkey::new_from_array(bytes);
    assert_eq!(key.to_bytes(), bytes);
    assert_eq!(key.0, bytes);
    assert_eq!(key.to_bytes().len(), PUBKEY_BYTES);
}

#[test]
fn pubkeys_are_equal_when_every_byte_is() {
    let a = Pubkey([5; 32]);
    assert_eq!(a, Pubkey([5; 32]));
    for i in 0..32 {
        let mut bytes = [5u8; 32];
        bytes[i] = 6;
        assert_ne!(a, Pubkey(bytes));
        assert_ne!(Pubkey(bytes), a);
    }
}
