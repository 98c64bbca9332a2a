use std::collections::HashSet;
use gromnie_client::crypto::CryptoSystem;

#[test]
fn test_crypto_system_sequence() {
    let mut crypto = CryptoSystem::new(0x12345678);
    let keys: Vec<u32> = (0..100).map(|_| crypto.get_send_key()).collect();
    let unique_keys: HashSet<_> = keys.iter().collect();
    assert_eq!(keys.len(), unique_keys.len(), "Generated keys should all be unique");
}

#[test]
fn test_crypto_system_deterministic() {
    let mut crypto1 = CryptoSystem::new(0x12345678);
    let mut crypto2 = CryptoSystem::new(0x12345678);
    assert_eq!(crypto1.get_send_key(), crypto2.get_send_key());
    assert_eq!(crypto1.get_send_key(), crypto2.get_send_key());
    assert_eq!(crypto1.get_send_key(), crypto2.get_send_key());
}

#[test]
fn different_seeds_give_different_keys() {
    let mut a = CryptoSystem::new(1);
    let mut b = CryptoSystem::new(2);
    assert_ne!(a.get_send_key(), b.get_send_key());
}
