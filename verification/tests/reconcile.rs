use startup_disk::candidate::{reconcile, BootCandidate, Volume};
use startup_disk::text::str_eq;

fn cand(vg: u128, part: u128, names: &[&str]) -> BootCandidate {
    BootCandidate {
        vg_uuid: vg,
        volumes: names
            .iter()
            .map(|n| Volume {
                name: (*n).to_owned(),
                is_system: false,
            })
            .collect(),
        part_uuid: part,
    }
}

#[test]
fn identity_needs_both_identifiers() {
    let a = cand(1, 2, &["macos"]);
    let same_pair = cand(1, 2, &["other", "names"]);
    let vg_only = cand(1, 3, &["macos"]);
    let part_only = cand(4, 2, &["macos"]);
    assert!(a.is_same(&same_pair));
    assert!(same_pair.is_same(&a));
    assert!(!a.is_same(&vg_only));
    assert!(!a.is_same(&part_only));
}

#[test]
fn identity_ignores_names_entirely() {
    let a = cand(10, 20, &["fedora", "data"]);
    let b = cand(10, 20, &[]);
    assert!(a.is_same(&b));
}

#[test]
fn reconcile_reports_no_selection_when_nothing_matches() {
    let list = vec![cand(1, 2, &["one"]), cand(3, 4, &["two"])];
    let current = cand(1, 4, &["one"]);
    assert_eq!(reconcile(&list, &current), None);
}

#[test]
fn reconcile_on_empty_list_reports_no_selection() {
    let list: Vec<BootCandidate> = Vec::new();
    let current = cand(1, 2, &[]);
    assert_eq!(reconcile(&list, &current), None);
}

#[test]
fn reconcile_selects_the_unique_match_despite_differing_names() {
    let list = vec![
        cand(1, 2, &["alpha"]),
        cand(3, 4, &["BRAVO", "Data"]),
        cand(5, 6, &["charlie"]),
    ];
    let current = cand(3, 4, &["bravo"]);
    assert_eq!(reconcile(&list, &current), Some(1));
}

#[test]
fn reconcile_picks_the_first_of_equal_candidates() {
    let list = vec![cand(3, 4, &["first"]), cand(3, 4, &["second"])];
    let current = cand(3, 4, &[]);
    assert_eq!(reconcile(&list, &current), Some(0));
}

#[test]
fn str_eq_decides_exact_equality() {
    assert!(str_eq("get_boot_volume", "get_boot_volume"));
    assert!(str_eq("", ""));
    assert!(!str_eq("get_boot_volume", "get_boot_volumes"));
    assert!(!str_eq("get_boot_volume", "get_boot_volumE"));
    assert!(!str_eq("abc", "abd"));
}
