use cronos::search::ranking::{Order, RankKey};
use std::cmp::Ordering;

#[test]
fn descending_keys_compare_like_their_numbers() {
    let low = RankKey::descending(200);
    let high = RankKey::descending(1000);
    assert_eq!(low.partial_cmp(&high), Some(Ordering::Less));
    assert_eq!(high.partial_cmp(&low), Some(Ordering::Greater));
    assert_eq!(high.partial_cmp(&high), Some(Ordering::Equal));
    assert!(low < high);
    assert!(high > low);
    assert!(high == RankKey::descending(1000));
}

#[test]
fn ascending_keys_compare_the_other_way_round() {
    let low = RankKey::ascending(200);
    let high = RankKey::ascending(1000);
    assert_eq!(low.partial_cmp(&high), Some(Ordering::Greater));
    assert_eq!(high.partial_cmp(&low), Some(Ordering::Less));
    assert_eq!(low.partial_cmp(&low), Some(Ordering::Equal));
    assert!(low > high);
}

#[test]
fn turning_the_order_round_mirrors_every_comparison() {
    let numbers: [i128; 5] = [-3, 0, 1, 1, 18_446_744_073_709_551_615];
    for a in numbers {
        for b in numbers {
            let descending = RankKey::new(a, Order::Desc).partial_cmp(&RankKey::new(b, Order::Desc));
            let ascending = RankKey::new(a, Order::Asc).partial_cmp(&RankKey::new(b, Order::Asc));
            assert_eq!(ascending, descending.map(Ordering::reverse));
        }
    }
}

#[test]
fn keys_of_different_directions_do_not_compare() {
    let a = RankKey::new(1, Order::Desc);
    let b = RankKey::new(1, Order::Asc);
    assert_eq!(a.partial_cmp(&b), None);
    assert!(a != b);
    assert!(!(a < b));
    assert!(!(a > b));
}

#[test]
fn the_default_order_is_descending() {
    assert!(matches!(Order::default(), Order::Desc));
    assert!(Order::Desc.same(Order::Desc));
    assert!(Order::Asc.same(Order::Asc));
    assert!(!Order::Asc.same(Order::Desc));
}

#[test]
fn the_best_key_of_a_top_k_pass() {
    let mut descending: Vec<RankKey> =
        [200, 1000, 50].iter().map(|number| RankKey::new(*number, Order::Desc)).collect();
    descending.sort_by(|a, b| b.partial_cmp(a).unwrap());
    assert_eq!(descending[0].number, 1000);
    let mut ascending: Vec<RankKey> =
        [200, 1000, 50].iter().map(|number| RankKey::ascending(*number)).collect();
    ascending.sort_by(|a, b| b.partial_cmp(a).unwrap());
    assert_eq!(ascending[0].number, 50);
    assert_eq!(ascending[2].number, 1000);
}
