use libtranslate::selection::{exclude, select, weigh, Weighted};

fn pool(entries: &[(&str, u64)]) -> Vec<Weighted> {
    entries.iter().map(|(name, weight)| Weighted { name: name.to_string(), weight: *weight }).collect()
}

fn names_of(pool: &Vec<Weighted>) -> Vec<String> {
    pool.iter().map(|candidate| candidate.name.clone()).collect()
}

#[test]
fn the_total_is_the_sum() {
    assert_eq!(weigh(&pool(&[])), 0);
    assert_eq!(weigh(&pool(&[("a", 100), ("b", 50)])), 150);
    assert_eq!(weigh(&pool(&[("a", 0), ("b", 0)])), 0);
    assert_eq!(
        weigh(&pool(&[("a", u64::MAX), ("b", u64::MAX), ("c", 2)])),
        2 * (u64::MAX as u128) + 2
    );
}

#[test]
fn selection_is_proportional_to_weight() {
    let candidates = pool(&[("a", 100), ("b", 50)]);
    let mut first = 0;
    let mut second = 0;
    for draw in 1..=150u128 {
        match select(&candidates, draw) {
            0 => first += 1,
            1 => second += 1,
            other => panic!("{}", other),
        }
    }
    assert_eq!(first, 100);
    assert_eq!(second, 50);
}

#[test]
fn a_draw_selects_the_candidate_whose_share_it_falls_in() {
    let candidates = pool(&[("a", 3), ("b", 0), ("c", 2), ("d", 1)]);
    let picked: Vec<usize> = (1..=6u128).map(|draw| select(&candidates, draw)).collect();
    assert_eq!(picked, vec![0, 0, 0, 2, 2, 3]);
}

#[test]
fn a_candidate_without_weight_is_never_selected() {
    let candidates = pool(&[("a", 0), ("b", 4), ("c", 0)]);
    for draw in 1..=4u128 {
        assert_eq!(select(&candidates, draw), 1);
    }
}

#[test]
fn huge_weights_are_selected_too() {
    let candidates = pool(&[("a", u64::MAX), ("b", u64::MAX)]);
    assert_eq!(select(&candidates, 1), 0);
    assert_eq!(select(&candidates, u64::MAX as u128), 0);
    assert_eq!(select(&candidates, u64::MAX as u128 + 1), 1);
    assert_eq!(select(&candidates, 2 * (u64::MAX as u128)), 1);
}

#[test]
fn exclude_takes_the_name_out() {
    let mut candidates = pool(&[("a", 1), ("b", 2), ("c", 3)]);
    exclude(&mut candidates, "b");
    assert_eq!(names_of(&candidates), vec!["a", "c"]);
    assert_eq!(weigh(&candidates), 4);
    exclude(&mut candidates, "b");
    assert_eq!(names_of(&candidates), vec!["a", "c"]);
    exclude(&mut candidates, "c");
    exclude(&mut candidates, "a");
    assert!(candidates.is_empty());
    exclude(&mut candidates, "a");
    assert!(candidates.is_empty());
}

#[test]
fn exclude_takes_every_candidate_of_the_name() {
    let mut candidates = pool(&[("a", 1), ("b", 2), ("a", 3), ("a", 4), ("c", 5)]);
    exclude(&mut candidates, "a");
    assert_eq!(names_of(&candidates), vec!["b", "c"]);
    assert_eq!(candidates[0].weight, 2);
    assert_eq!(candidates[1].weight, 5);
}

#[test]
fn an_excluded_candidate_is_not_selected_again() {
    let mut candidates = pool(&[("a", 5), ("b", 5), ("c", 5)]);
    exclude(&mut candidates, "b");
    for draw in 1..=weigh(&candidates) {
        assert_ne!(candidates[select(&candidates, draw)].name, "b");
    }
}
