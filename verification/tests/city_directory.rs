use weatherbot::cities::{cities, get_random_city};

#[test]
fn directory_has_the_expected_shape() {
    let table = cities();
    assert_eq!(table.len(), 88);
    assert_eq!(table[0], ("New York", "USA", "🇺🇸"));
    assert_eq!(table[87], ("Ulaanbaatar", "Mongolia", "🇲🇳"));
    assert!(table.contains(&("Tokyo", "Japan", "🇯🇵")));
}

#[test]
fn random_city_always_comes_from_the_directory() {
    let table = cities();
    for _ in 0..2_000 {
        let entry = get_random_city();
        assert!(table.contains(&entry));
    }
}

#[test]
fn every_directory_entry_is_reachable() {
    // 88 entries and 40000 uniform draws: the chance any entry is never
    // drawn is below 1e-80
    let table = cities();
    let mut seen = vec![false; table.len()];
    for _ in 0..40_000 {
        let entry = get_random_city();
        let idx = table.iter().position(|e| *e == entry).expect("entry not in table");
        seen[idx] = true;
    }
    assert!(seen.iter().all(|b| *b));
}
