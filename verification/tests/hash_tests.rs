use lottery::decimal::u64_to_string;
use lottery::hash::{finalize, hash_to_u64, init, update};

const ALICE: &str = "sei18rszd3tmgpjvjwq2qajtmn5jqvtscd2yuygl4z";
const BOB: &str = "sei1aan9kqywf4rf274cal0hj6eyly6wu0uv7edxy2";

#[test]
fn seed_init_should_works() {
    // SHA-256 over the identity and the height, rendered as padded Base64
    let seed = init("contract0", 12345);
    assert_eq!(seed, "UEedwcyUepM+i/2LmiXOGk266KNRCrOPdsKzKo6+QEk=");
    assert_eq!(seed.len(), 44);

    // a different identity or height gives an unrelated seed
    assert_ne!(init("contract1", 12345), seed);
    assert_ne!(init("contract0", 12346), seed);
}

#[test]
fn seed_update_is_deterministic() {
    let seed = init("contract0", 12345);
    let memo = Some("恭喜发财!".to_string());
    let once = update(&seed, ALICE, 1, 12345, &memo);
    let twice = update(&seed, ALICE, 1, 12345, &memo);
    assert_eq!(once, twice);
    assert_eq!(once, "QKVhclNtePVhDJRdhyFhhIb8vFVv0YHbpJb+FLfcowg=");

    // every folded input matters
    assert_ne!(update(&seed, BOB, 1, 12345, &memo), once);
    assert_ne!(update(&seed, ALICE, 2, 12345, &memo), once);
    assert_ne!(update(&seed, ALICE, 1, 12346, &memo), once);
    assert_ne!(update(&seed, ALICE, 1, 12345, &None), once);
}

#[test]
fn seed_finalize_is_deterministic() {
    let seed = init("contract0", 12345);
    let tx = Some("0".to_string());
    let once = finalize(&seed, ALICE, 12345, &tx);
    let twice = finalize(&seed, ALICE, 12345, &tx);
    assert_eq!(once, twice);
    assert_ne!(once, seed);
    assert_ne!(finalize(&seed, ALICE, 12345, &None), once);
}

#[test]
fn hash_to_u64_is_deterministic() {
    let seed = init("contract0", 12345);
    assert_eq!(hash_to_u64(&seed), hash_to_u64(&seed));
    assert_ne!(hash_to_u64("a"), hash_to_u64("b"));
}

#[test]
fn u64_to_string_should_works() {
    assert_eq!(u64_to_string(0), "0");
    assert_eq!(u64_to_string(7), "7");
    assert_eq!(u64_to_string(10), "10");
    assert_eq!(u64_to_string(12345), "12345");
    assert_eq!(u64_to_string(u64::MAX), "18446744073709551615");
}
