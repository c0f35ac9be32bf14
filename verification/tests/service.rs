use startup_disk::candidate::{reconcile, BootCandidate};
use startup_disk::error::StartupDiskError;
use startup_disk::startup_disk::asahi::AsahiBlessLibrary;
use startup_disk::startup_disk::mock::MockLibrary;
use startup_disk::startup_disk::{startup_disk_library, StartupDiskLibrary, StartupDiskTrait};

fn mock_candidates() -> Vec<BootCandidate> {
    MockLibrary.get_boot_candidates().unwrap()
}

fn all_ids(cands: &[BootCandidate]) -> Vec<u128> {
    let mut ids = Vec::new();
    for c in cands {
        ids.push(c.vg_uuid);
        ids.push(c.part_uuid);
    }
    ids
}

fn disjoint(a: &[u128], b: &[u128]) -> bool {
    a.iter().all(|x| !b.contains(x))
}

#[test]
fn mock_enumerates_three_candidates_of_two_volumes() {
    let cands = mock_candidates();
    assert_eq!(cands.len(), 3);
    for c in &cands {
        assert_eq!(c.volumes.len(), 2);
    }
}

#[test]
fn mock_volume_names_are_short_lowercase() {
    let cands = mock_candidates();
    for c in &cands {
        for v in &c.volumes {
            let n = v.name.chars().count();
            assert!(1 <= n && n <= 10, "name length {n} out of range");
            assert!(v.name.chars().all(|ch| ch.is_ascii_lowercase()));
        }
    }
}

#[test]
fn mock_volume_system_flags_follow_fixed_pattern() {
    let cands = mock_candidates();
    assert!(cands[0].volumes[0].is_system && !cands[0].volumes[1].is_system);
    assert!(!cands[1].volumes[0].is_system && cands[1].volumes[1].is_system);
    assert!(!cands[2].volumes[0].is_system && !cands[2].volumes[1].is_system);
}

#[test]
fn mock_identifiers_are_fresh_on_every_call() {
    let first = all_ids(&mock_candidates());
    let second = all_ids(&mock_candidates());
    assert!(disjoint(&first, &second));
}

#[test]
fn mock_default_candidate_has_no_volumes() {
    let next = MockLibrary.get_boot_volume(true).unwrap();
    assert!(next.volumes.is_empty());
    let persistent = MockLibrary.get_boot_volume(false).unwrap();
    assert!(persistent.volumes.is_empty());
}

#[test]
fn mock_default_never_matches_enumerated_candidates() {
    let cands = mock_candidates();
    let current = MockLibrary.get_boot_volume(false).unwrap();
    assert_eq!(reconcile(&cands, &current), None);
}

#[test]
fn mock_backend_reports_supported_and_unprivileged() {
    assert!(MockLibrary.is_supported());
    assert!(!MockLibrary.needs_escalation("get_boot_candidates"));
    assert!(!MockLibrary.needs_escalation("get_boot_volume"));
    assert!(!MockLibrary.needs_escalation("set_boot_volume"));
    assert!(!MockLibrary.needs_escalation("is_supported"));
}

#[test]
fn real_backend_escalation_table() {
    let lib = startup_disk_library(false, false, true);
    assert!(matches!(lib, StartupDiskLibrary::AsahiBless(_)));
    assert!(lib.needs_escalation("get_boot_candidates"));
    assert!(lib.needs_escalation("get_boot_volume"));
    assert!(lib.needs_escalation("set_boot_volume"));
    assert!(!lib.needs_escalation("is_supported"));
    assert!(!lib.needs_escalation("needs_escalation"));
    assert!(!lib.needs_escalation(""));
}

#[test]
fn backend_selection_policy() {
    // (override, debug build, platform supported) -> mock?
    let cases = [
        (false, false, false, false),
        (false, false, true, false),
        (false, true, false, true),
        (false, true, true, false),
        (true, false, false, true),
        (true, false, true, true),
        (true, true, false, true),
        (true, true, true, true),
    ];
    for (use_mock, debug, platform, expect_mock) in cases {
        let lib = startup_disk_library(use_mock, debug, platform);
        let got_mock = matches!(lib, StartupDiskLibrary::Mock(_));
        assert_eq!(got_mock, expect_mock, "case {use_mock} {debug} {platform}");
    }
}

#[test]
fn unsupported_platform_production_selection_reports_unsupported() {
    // No forcing override, production mode, platform probe false: the real
    // backend is selected and defers to the platform detector, which finds
    // no Apple-Silicon firmware marker on this machine.
    let lib = startup_disk_library(false, false, false);
    assert!(matches!(lib, StartupDiskLibrary::AsahiBless(_)));
    assert!(!lib.is_supported());
}

#[test]
fn end_to_end_mock_scenario() {
    let lib = startup_disk_library(true, false, false);
    assert!(matches!(lib, StartupDiskLibrary::Mock(_)));
    assert!(lib.is_supported());

    let cands = lib.get_boot_candidates().unwrap();
    assert_eq!(cands.len(), 3);

    assert!(!lib.needs_escalation("set_boot_volume"));
    lib.set_boot_volume(&cands[0], false).unwrap();

    // No observable persistent effect: a second enumeration returns a
    // disjoint identifier set.
    let again = lib.get_boot_candidates().unwrap();
    assert!(disjoint(&all_ids(&cands), &all_ids(&again)));
}

#[test]
fn real_backend_read_fails_cleanly_without_nvram_device() {
    // On a machine without the Asahi nvram device the read cannot succeed;
    // the failure must come back structured, never as a panic or a guess.
    let r = AsahiBlessLibrary.get_boot_volume(false);
    assert!(matches!(r, Err(StartupDiskError::NvramRead(_))));
}

#[test]
fn real_backend_write_fails_cleanly_without_nvram_device() {
    let cand = BootCandidate {
        vg_uuid: 1,
        volumes: Vec::new(),
        part_uuid: 2,
    };
    let r = AsahiBlessLibrary.set_boot_volume(&cand, false);
    assert!(matches!(r, Err(StartupDiskError::Apply(_))));
}

#[test]
fn mock_set_boot_volume_accepts_any_candidate() {
    let empty = BootCandidate {
        vg_uuid: 7,
        volumes: Vec::new(),
        part_uuid: 9,
    };
    assert!(MockLibrary.set_boot_volume(&empty, true).is_ok());
    assert!(MockLibrary.set_boot_volume(&empty, false).is_ok());
}
