use forecast_inference::{
    create_window_input, create_window_prev_out, InferenceError, FEATURE_WIDTH,
    INPUT_WINDOW_LEN, OUTPUT_WIDTH, RECURRENCE_WINDOW_LEN,
};

fn hours(n: usize) -> Vec<Vec<f64>> {
    (0..n)
        .map(|h| (0..FEATURE_WIDTH).map(|k| (h * 100 + k + 1) as f64).collect())
        .collect()
}

fn outputs(n: usize) -> Vec<Vec<f64>> {
    (0..n)
        .map(|h| (0..OUTPUT_WIDTH).map(|k| (h * 1000 + k + 1) as f64).collect())
        .collect()
}

#[test]
fn windows_have_fixed_lengths() {
    let hs = hours(24);
    for n in 0..24 {
        let past = outputs(n);
        for i in 0..24 {
            assert_eq!(create_window_input(&hs, i, 0.0).unwrap().len(), INPUT_WINDOW_LEN);
            assert_eq!(create_window_prev_out(&past, i, 0.0).len(), RECURRENCE_WINDOW_LEN);
        }
    }
}

#[test]
fn first_hour_pads_four_slots() {
    let hs = hours(24);
    let w = create_window_input(&hs, 0, 0.0).unwrap();
    assert!(w[..4 * FEATURE_WIDTH].iter().all(|v| *v == 0.0));
    assert_eq!(&w[4 * FEATURE_WIDTH..5 * FEATURE_WIDTH], &hs[0][..]);
    assert_eq!(&w[5 * FEATURE_WIDTH..], &hs[1][..]);
}

#[test]
fn last_hour_pads_lookahead() {
    let hs = hours(24);
    let w = create_window_input(&hs, 23, 0.0).unwrap();
    assert!(w[5 * FEATURE_WIDTH..].iter().all(|v| *v == 0.0));
    for s in 0..5 {
        assert_eq!(&w[s * FEATURE_WIDTH..(s + 1) * FEATURE_WIDTH], &hs[19 + s][..]);
    }
}

#[test]
fn middle_hour_reads_six_hours() {
    let hs = hours(24);
    let w = create_window_input(&hs, 10, 0.0).unwrap();
    let expected: Vec<f64> = (6..12).flat_map(|h| hs[h].clone()).collect();
    assert_eq!(w, expected);
}

#[test]
fn window_without_hours_is_missing_base() {
    let empty: Vec<Vec<f64>> = Vec::new();
    assert_eq!(create_window_input(&empty, 0, 0.0), Err(InferenceError::MissingBaseVector));
}

#[test]
fn recurrence_last_slot_is_zero() {
    for i in 0..24 {
        let past = outputs(i);
        let w = create_window_prev_out(&past, i, 0.0);
        assert!(w[3 * OUTPUT_WIDTH..].iter().all(|v| *v == 0.0));
    }
}

#[test]
fn recurrence_reads_three_prior_outputs() {
    let past = outputs(5);
    let w = create_window_prev_out(&past, 5, 0.0);
    let mut expected: Vec<f64> = (2..5).flat_map(|h| past[h].clone()).collect();
    expected.extend(vec![0.0; OUTPUT_WIDTH]);
    assert_eq!(w, expected);
    let w = create_window_prev_out(&past[..1].to_vec(), 1, 0.0);
    let mut expected = vec![0.0; 2 * OUTPUT_WIDTH];
    expected.extend(past[0].clone());
    expected.extend(vec![0.0; OUTPUT_WIDTH]);
    assert_eq!(w, expected);
}
