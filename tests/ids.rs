use rtp::ids::{get_bank_id, get_partnership_id, hex_string};
use std::collections::hash_map::DefaultHasher;
use std::hash::{Hash, Hasher};

#[test]
fn hex_string_writes_lowercase_digits_without_leading_zeros() {
    assert_eq!(hex_string(0), "0");
    assert_eq!(hex_string(15), "f");
    assert_eq!(hex_string(255), "ff");
    assert_eq!(hex_string(0x1a2b), "1a2b");
    assert_eq!(hex_string(u64::MAX), "ffffffffffffffff");
}

#[test]
fn bank_id_is_the_hex_digest_of_the_name() {
    let mut hasher = DefaultHasher::new();
    "Deutsche Bank".hash(&mut hasher);
    assert_eq!(get_bank_id("Deutsche Bank"), format!("{:x}", hasher.finish()));
}

#[test]
fn bank_id_is_stable_across_calls() {
    assert_eq!(get_bank_id("Sparkasse"), get_bank_id("Sparkasse"));
    assert_ne!(get_bank_id("Sparkasse"), get_bank_id("Deutsche Bank"));
}

#[test]
fn partnership_id_ignores_the_order_of_the_banks() {
    let ab = get_partnership_id("Deutsche Bank".to_string(), "Sparkasse".to_string());
    let ba = get_partnership_id("Sparkasse".to_string(), "Deutsche Bank".to_string());
    assert_eq!(ab, ba);
    let mut hasher = DefaultHasher::new();
    ("Deutsche Bank", "Sparkasse").hash(&mut hasher);
    assert_eq!(ab, format!("{:x}", hasher.finish()));
}

#[test]
fn partnership_ids_differ_between_pairs() {
    let ab = get_partnership_id("JPMorgan".to_string(), "Wells Fargo".to_string());
    let ac = get_partnership_id("JPMorgan".to_string(), "Sparkasse".to_string());
    assert_ne!(ab, ac);
}
