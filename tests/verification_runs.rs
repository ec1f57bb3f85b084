use hashr::cli::HashType;
use hashr::digest::{compute_hash, hash_line};
use hashr::verification::{
    check_outcome, final_component_of, find_requested, had_failure, outcome_line, plan_checks,
    uncovered_line, unmatched_label, FileRead, Outcome, Target,
};

fn strings(items: &[&str]) -> Vec<String> {
    items.iter().map(|s| s.to_string()).collect()
}

#[test]
fn final_components() {
    assert_eq!(final_component_of("./iso/x.img"), "x.img");
    assert_eq!(final_component_of("x.img"), "x.img");
    assert_eq!(final_component_of("/abs/path/y"), "y");
    assert_eq!(final_component_of("dir/"), "");
    assert_eq!(final_component_of(""), "");
}

#[test]
fn requested_files_match_by_final_component() {
    let files = strings(&["a/one.txt", "./iso/x.img", "b/x.img"]);
    assert_eq!(find_requested(&files, "x.img"), Some(1));
    assert_eq!(find_requested(&files, "other/one.txt"), Some(0));
    assert_eq!(find_requested(&files, "two.txt"), None);
}

#[test]
fn labels_of_requested_files() {
    assert_eq!(unmatched_label("dir/missing.txt"), "missing.txt");
    assert_eq!(unmatched_label("dir/"), "dir/");
    assert_eq!(uncovered_line("x/missing.txt"), "missing.txt: NOT FOUND in checksum file");
}

#[test]
fn full_mode_checks_every_entry() {
    let lines = strings(&["# header", "", "aa  one.txt", "bad line", "BB  sub/two.txt"]);
    let plan = plan_checks(&lines, &Vec::new());
    assert_eq!(plan.checks.len(), 2);
    assert_eq!(plan.checks[0].line, 2);
    assert_eq!(plan.checks[0].entry.expected_digest, "aa");
    assert_eq!(plan.checks[0].entry.filename, "one.txt");
    assert_eq!(plan.checks[0].target, Target::Declared);
    assert_eq!(plan.checks[1].line, 4);
    assert_eq!(plan.checks[1].entry.filename, "sub/two.txt");
    assert_eq!(plan.warnings, vec![3]);
    assert!(plan.unmatched.is_empty());
}

#[test]
fn filtered_mode_selects_requested() {
    let lines = strings(&["aa  one.txt", "bb  two.txt", "cc  dir/three.txt"]);
    let files = strings(&["./x/three.txt", "missing.txt"]);
    let plan = plan_checks(&lines, &files);
    assert_eq!(plan.checks.len(), 1);
    assert_eq!(plan.checks[0].line, 2);
    assert_eq!(plan.checks[0].target, Target::Requested(0));
    assert_eq!(plan.unmatched, vec![1]);
}

#[test]
fn duplicate_requested_path_is_covered() {
    let lines = strings(&["aa  one.txt"]);
    let files = strings(&["one.txt", "one.txt", "other/one.txt"]);
    let plan = plan_checks(&lines, &files);
    assert_eq!(plan.checks.len(), 1);
    assert_eq!(plan.checks[0].target, Target::Requested(0));
    assert_eq!(plan.unmatched, vec![2]);
}

#[test]
fn round_trip_hash_then_verify() {
    let data = b"round trip contents".to_vec();
    let digest = compute_hash(&data, &HashType::Sha256);
    let line = hash_line(&digest, "f");
    let files = strings(&["f"]);
    let plan = plan_checks(&vec![line], &files);
    assert_eq!(plan.checks.len(), 1);
    assert_eq!(plan.checks[0].target, Target::Requested(0));
    assert!(plan.unmatched.is_empty());
    let outcome = check_outcome(
        &FileRead::Contents(data),
        &plan.checks[0].entry.expected_digest,
        &HashType::Sha256,
    );
    assert!(matches!(outcome, Outcome::Passed));
    assert!(!had_failure(&vec![outcome], 0));
}

#[test]
fn uppercase_manifest_digest_passes() {
    let data = b"case".to_vec();
    let upper = compute_hash(&data, &HashType::Blake3).to_uppercase();
    let outcome = check_outcome(&FileRead::Contents(data), &upper, &HashType::Blake3);
    assert!(matches!(outcome, Outcome::Passed));
}

#[test]
fn malformed_line_does_not_fail_run() {
    let lines = strings(&["not-two-parts-no-separator"]);
    let plan = plan_checks(&lines, &Vec::new());
    assert!(plan.checks.is_empty());
    assert_eq!(plan.warnings, vec![0]);
    assert!(!had_failure(&Vec::new(), plan.unmatched.len()));
}

#[test]
fn requested_file_absent_from_manifest_fails() {
    let lines = strings(&["d41d8cd98f00b204e9800998ecf8427e  empty.txt"]);
    let files = strings(&["missing.txt"]);
    let plan = plan_checks(&lines, &files);
    assert!(plan.checks.is_empty());
    assert_eq!(plan.unmatched, vec![0]);
    assert!(had_failure(&Vec::new(), plan.unmatched.len()));
}

#[test]
fn missing_file_on_disk_is_not_found() {
    let outcome = check_outcome(&FileRead::Missing, "abcd", &HashType::Sha256);
    assert!(matches!(outcome, Outcome::NotFound));
    assert_eq!(outcome_line("gone.txt", &outcome), "gone.txt: NOT FOUND");
    assert!(had_failure(&vec![outcome], 0));
}

#[test]
fn unreadable_file_is_read_error() {
    let outcome =
        check_outcome(&FileRead::Unreadable("permission denied".to_string()), "ab", &HashType::Md5);
    match &outcome {
        Outcome::ReadError(msg) => assert_eq!(msg, "permission denied"),
        other => panic!("unexpected {:?}", other),
    }
    assert_eq!(outcome_line("f", &outcome), "f: FAILED open or read");
    assert!(had_failure(&vec![outcome], 0));
}

#[test]
fn digest_mismatch_fails() {
    let expected = compute_hash(b"original", &HashType::Sha512);
    let outcome = check_outcome(&FileRead::Contents(b"tampered".to_vec()), &expected, &HashType::Sha512);
    assert!(matches!(outcome, Outcome::Failed));
    assert_eq!(outcome_line("f", &outcome), "f: FAILED");
    assert!(had_failure(&vec![Outcome::Passed, outcome], 0));
}

#[test]
fn all_matching_manifest_succeeds() {
    let a = b"first".to_vec();
    let b = b"second".to_vec();
    let lines = vec![
        hash_line(&compute_hash(&a, &HashType::Blake2b), "a.txt"),
        hash_line(&compute_hash(&b, &HashType::Blake2b), "b.txt"),
    ];
    let plan = plan_checks(&lines, &Vec::new());
    let reads = [FileRead::Contents(a), FileRead::Contents(b)];
    let outcomes: Vec<Outcome> = plan
        .checks
        .iter()
        .zip(reads.iter())
        .map(|(c, r)| check_outcome(r, &c.entry.expected_digest, &HashType::Blake2b))
        .collect();
    assert!(outcomes.iter().all(|o| matches!(o, Outcome::Passed)));
    assert!(!had_failure(&outcomes, plan.unmatched.len()));
}

#[test]
fn md5_empty_file_reports_ok() {
    let lines = strings(&["d41d8cd98f00b204e9800998ecf8427e  empty.txt"]);
    let plan = plan_checks(&lines, &Vec::new());
    assert_eq!(plan.checks.len(), 1);
    let check = &plan.checks[0];
    assert_eq!(check.target, Target::Declared);
    let outcome =
        check_outcome(&FileRead::Contents(Vec::new()), &check.entry.expected_digest, &HashType::Md5);
    assert_eq!(outcome_line(&check.entry.filename, &outcome), "empty.txt:  OK");
    assert!(!had_failure(&vec![outcome], plan.unmatched.len()));
}
