use images_rs::codec::decode_bytes;
use images_rs::format::FormatHint;
use images_rs::outcome::DecodeFailure;
use images_rs::outcome::DecodeOutcome;
use images_rs::outcome::FailureKind;
use images_rs::reconcile::finalize;
use images_rs::reconcile::finalize_verbose;

fn solid_png_bytes(width: u32, height: u32, rgb: [u8; 3]) -> Vec<u8> {
    let img = image::RgbImage::from_pixel(width, height, image::Rgb(rgb));
    let mut buf = std::io::Cursor::new(Vec::new());
    img.write_to(&mut buf, image::ImageFormat::Png).unwrap();
    buf.into_inner()
}

fn partial_batch_outcomes() -> Vec<DecodeOutcome> {
    let valid = decode_bytes(&solid_png_bytes(2, 2, [7, 8, 9]), FormatHint::Png);
    assert!(matches!(valid, DecodeOutcome::Image(_)));
    vec![
        valid,
        DecodeOutcome::Failure(DecodeFailure {
            kind: FailureKind::IoError,
            message: String::from("No such file or directory"),
        }),
        DecodeOutcome::Failure(DecodeFailure {
            kind: FailureKind::SourceError,
            message: String::from("corrupt png stream"),
        }),
    ]
}

#[test]
fn tolerant_output_keeps_one_slot_per_item() {
    let slots = finalize(partial_batch_outcomes());
    assert_eq!(slots.len(), 3);
    let img = slots[0].as_ref().expect("first slot must hold the decoded image");
    assert_eq!(img.width, 2);
    assert_eq!(img.height, 2);
    assert_eq!(img.data.len(), 2 * 2 * 3);
    assert!(slots[1].is_none());
    assert!(slots[2].is_none());
}

#[test]
fn verbose_output_splits_successes_and_failures() {
    let report = finalize_verbose(partial_batch_outcomes());
    assert_eq!(report.images.len(), 1);
    assert_eq!(report.images[0].0, 0);
    assert_eq!(report.images[0].1.width, 2);
    assert_eq!(report.errors.len(), 2);
    assert_eq!(report.errors[0].0, 1);
    assert!(!report.errors[0].1.is_empty());
    assert_eq!(report.errors[1].0, 2);
    assert!(!report.errors[1].1.is_empty());
}

#[test]
fn finalize_moves_the_buffer_unchanged() {
    let outcomes = vec![DecodeOutcome::Image(images_rs::outcome::DecodedImage {
        data: vec![1, 2, 3, 4, 5, 6],
        width: 2,
        height: 1,
    })];
    let slots = finalize(outcomes);
    assert_eq!(slots.len(), 1);
    let img = slots[0].as_ref().unwrap();
    assert_eq!(img.data, vec![1, 2, 3, 4, 5, 6]);
    assert_eq!(img.width, 2);
    assert_eq!(img.height, 1);
}

#[test]
fn all_failures_give_only_absent_slots() {
    let outcomes = vec![
        DecodeOutcome::Failure(DecodeFailure {
            kind: FailureKind::IoError,
            message: String::from("missing"),
        }),
        DecodeOutcome::Failure(DecodeFailure {
            kind: FailureKind::SourceError,
            message: String::from("broken"),
        }),
    ];
    let slots = finalize(outcomes);
    assert_eq!(slots.len(), 2);
    assert!(slots[0].is_none());
    assert!(slots[1].is_none());
}
