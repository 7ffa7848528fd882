use images_rs::batch::decode_batch;
use images_rs::decode_batch_verbose;
use images_rs::outcome::DecodeOutcome;
use images_rs::outcome::FailureKind;
use images_rs::read;

fn failure_kind(outcome: &DecodeOutcome) -> FailureKind {
    match outcome {
        DecodeOutcome::Image(_) => panic!("expected a failure for a missing file"),
        DecodeOutcome::Failure(f) => f.kind,
    }
}

#[test]
fn empty_batch_is_empty() {
    let outcomes = decode_batch(&Vec::new());
    assert_eq!(outcomes.len(), 0);
}

#[test]
fn empty_read_is_empty() {
    let slots = read(&Vec::new(), None);
    assert_eq!(slots.len(), 0);
}

#[test]
fn one_outcome_per_path() {
    let paths = vec![
        String::from("no_such_dir/a.png"),
        String::from("no_such_dir/b.jpg"),
        String::from("no_such_dir/c"),
    ];
    let outcomes = decode_batch(&paths);
    assert_eq!(outcomes.len(), paths.len());
    for o in &outcomes {
        assert_eq!(failure_kind(o), FailureKind::IoError);
        match o {
            DecodeOutcome::Failure(f) => assert!(!f.message.is_empty()),
            DecodeOutcome::Image(_) => unreachable!(),
        }
    }
}

#[test]
fn permuting_paths_permutes_outcomes() {
    let a = String::from("missing_one.png");
    let b = String::from("missing_two.nope");
    let forward = decode_batch(&vec![a.clone(), b.clone()]);
    let backward = decode_batch(&vec![b, a]);
    assert_eq!(forward.len(), 2);
    assert_eq!(backward.len(), 2);
    assert_eq!(failure_kind(&forward[0]), failure_kind(&backward[1]));
    assert_eq!(failure_kind(&forward[1]), failure_kind(&backward[0]));
}

#[test]
fn repeated_path_gets_independent_equal_outcomes() {
    let p = String::from("repeated_missing.gif");
    let outcomes = decode_batch(&vec![p.clone(), p]);
    assert_eq!(outcomes.len(), 2);
    assert_eq!(failure_kind(&outcomes[0]), FailureKind::IoError);
    assert_eq!(failure_kind(&outcomes[1]), FailureKind::IoError);
}

#[test]
fn verbose_batch_reports_every_missing_file() {
    let paths = vec![String::from("gone_a.png"), String::from("gone_b.bmp")];
    let report = decode_batch_verbose(&paths);
    assert_eq!(report.images.len(), 0);
    assert_eq!(report.errors.len(), 2);
    assert_eq!(report.errors[0].0, 0);
    assert_eq!(report.errors[1].0, 1);
    assert!(!report.errors[0].1.is_empty());
    assert!(!report.errors[1].1.is_empty());
}

#[test]
fn pool_size_is_taken_once_and_later_requests_are_ignored() {
    let paths = vec![String::from("still_missing.png")];
    let first = read(&paths, Some(4));
    assert_eq!(first.len(), 1);
    assert!(first[0].is_none());
    let second = read(&paths, Some(2));
    assert_eq!(second.len(), 1);
    assert!(second[0].is_none());
}
