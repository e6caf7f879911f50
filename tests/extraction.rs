use aco_qp::mask::{extract_valid, mask_fits_frame};
use aco_qp::pipeline::{extract_measurements, PipelineError};

#[test]
fn single_segment_skips_false_entry() {
    let frame: Vec<f32> = vec![1.0, 2.0, 3.0];
    let mask = vec![vec![true, false, true]];
    let y = extract_valid(&frame, &mask);
    let y64: Vec<f64> = y.iter().map(|v| *v as f64).collect();
    assert_eq!(y64, vec![1.0, 3.0]);
    assert_eq!(y64.len(), 2);
}

#[test]
fn all_valid_two_element_frame() {
    let frame: Vec<f32> = vec![3.0, 4.0];
    let mask = vec![vec![true, true]];
    let y = extract_measurements(&frame, &mask, 2).unwrap();
    let y64: Vec<f64> = y.iter().map(|v| *v as f64).collect();
    assert_eq!(y64, vec![3.0, 4.0]);
}

#[test]
fn segments_in_mask_order_with_in_segment_indices() {
    let frame: Vec<i32> = vec![10, 11, 12, 13];
    let mask = vec![vec![false, true, true], vec![true, false, false, true], vec![]];
    let y = extract_valid(&frame, &mask);
    assert_eq!(y, vec![11, 12, 10, 13]);
    let count: usize = mask.iter().map(|s| s.iter().filter(|b| **b).count()).sum();
    assert_eq!(y.len(), count);
}

#[test]
fn empty_mask_gives_empty_output() {
    let frame: Vec<f32> = vec![1.0, 2.0];
    let mask: Vec<Vec<bool>> = vec![];
    assert!(extract_valid(&frame, &mask).is_empty());
    let mask2 = vec![vec![false, false]];
    assert!(extract_valid(&frame, &mask2).is_empty());
}

#[test]
fn extraction_is_repeatable() {
    let frame: Vec<f32> = vec![0.5, -1.5, 2.5, 7.0];
    let mask = vec![vec![true, false, true, true], vec![false, true]];
    let a = extract_valid(&frame, &mask);
    let b = extract_valid(&frame, &mask);
    assert_eq!(a, b);
    assert_eq!(a, vec![0.5, 2.5, 7.0, -1.5]);
}

#[test]
fn mask_beyond_frame_is_detected() {
    let mask = vec![vec![true, false, true]];
    assert!(!mask_fits_frame(&mask, 2));
    assert!(mask_fits_frame(&mask, 3));
    let padded = vec![vec![true, false, false, false]];
    assert!(mask_fits_frame(&padded, 1));
    let frame: Vec<f32> = vec![1.0, 2.0];
    assert_eq!(
        extract_measurements(&frame, &mask, 2),
        Err(PipelineError::MaskExceedsFrame { frame_len: 2 })
    );
}

#[test]
fn measurement_count_mismatch_is_fatal() {
    let frame: Vec<f32> = vec![1.0, 2.0, 3.0];
    let mask = vec![vec![true, false, true]];
    assert_eq!(
        extract_measurements(&frame, &mask, 3),
        Err(PipelineError::MeasurementCount { expected: 3, found: 2 })
    );
}
