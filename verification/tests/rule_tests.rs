use lottery::rule::{choose_idx_by_nano, nano_part};
use lottery::types::Timestamp;

#[test]
fn test_nanos() {
    assert_eq!(0, nano_part(&Timestamp::from_seconds(0)));

    let ts = &Timestamp::from_nanos(2_232_332_234);
    assert_eq!(2, nano_part(ts));

    let idx = choose_idx_by_nano(ts, 2);
    let expected = 2 % 2;
    assert_eq!(expected, idx);

    let idx = choose_idx_by_nano(ts, 10);
    let expected = 2 % 10;
    assert_eq!(expected, idx);
}
