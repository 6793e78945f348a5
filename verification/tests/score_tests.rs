use suika::score::{HighScore, merge_into_high_scores};
use suika::tiers::{MAX_TIER, TIER_COUNT, fruit_of};

#[test]
fn high_score_insertion_keeps_top_eight() {
    let mut hs = HighScore([50, 40, 30, 20, 10, 0, 0, 0]);
    merge_into_high_scores(&mut hs, 35);
    assert_eq!(hs.0, [50, 40, 35, 30, 20, 10, 0, 0]);
}

#[test]
fn high_score_insert_above_all() {
    let mut hs = HighScore([50, 40, 30, 20, 10, 5, 2, 1]);
    merge_into_high_scores(&mut hs, 99);
    assert_eq!(hs.0, [99, 50, 40, 30, 20, 10, 5, 2]);
}

#[test]
fn high_score_insert_below_all_is_dropped() {
    let mut hs = HighScore([50, 40, 30, 20, 10, 5, 2, 1]);
    merge_into_high_scores(&mut hs, 0);
    assert_eq!(hs.0, [50, 40, 30, 20, 10, 5, 2, 1]);
}

#[test]
fn high_score_insert_equal_value_goes_after_its_equals() {
    let mut hs = HighScore([50, 40, 30, 20, 10, 0, 0, 0]);
    merge_into_high_scores(&mut hs, 40);
    assert_eq!(hs.0, [50, 40, 40, 30, 20, 10, 0, 0]);
}

#[test]
fn high_score_zero_into_default_list() {
    let mut hs = HighScore::default_list();
    assert_eq!(hs.0, [0, 0, 0, 0, 0, 0, 0, 0]);
    merge_into_high_scores(&mut hs, 0);
    assert_eq!(hs.0, [0, 0, 0, 0, 0, 0, 0, 0]);
}

#[test]
fn high_score_fills_default_list() {
    let mut hs = HighScore::default_list();
    merge_into_high_scores(&mut hs, 7);
    assert_eq!(hs.0, [7, 0, 0, 0, 0, 0, 0, 0]);
    merge_into_high_scores(&mut hs, 3);
    assert_eq!(hs.0, [7, 3, 0, 0, 0, 0, 0, 0]);
    merge_into_high_scores(&mut hs, 5);
    assert_eq!(hs.0, [7, 5, 3, 0, 0, 0, 0, 0]);
}

#[test]
fn sortedness_check_tells_valid_from_corrupt() {
    assert!(HighScore([50, 40, 30, 20, 10, 0, 0, 0]).is_sorted());
    assert!(HighScore([7, 7, 7, 7, 7, 7, 7, 7]).is_sorted());
    assert!(!HighScore([50, 40, 41, 20, 10, 0, 0, 0]).is_sorted());
    assert!(!HighScore([0, 0, 0, 0, 0, 0, 0, 1]).is_sorted());
}

#[test]
fn catalog_sizes_strictly_increase() {
    let mut prev = -1;
    for id in 0..TIER_COUNT {
        let f = fruit_of(id);
        assert_eq!(f.id, id);
        assert!(f.size > prev);
        prev = f.size;
    }
}

#[test]
fn catalog_exact_values() {
    let sizes = [338, 383, 542, 633, 802, 1027, 1163, 1378, 1592, 1976, 2350];
    let scores = [0, 1, 3, 6, 10, 15, 21, 28, 36, 45, 55];
    for id in 0..TIER_COUNT {
        assert_eq!(fruit_of(id).size, sizes[id as usize]);
        assert_eq!(fruit_of(id).score, scores[id as usize]);
    }
    assert_eq!(MAX_TIER, TIER_COUNT - 1);
}
