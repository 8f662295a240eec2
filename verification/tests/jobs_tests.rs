use adpt::client::Timestamp;
use adpt::jobs::{
    duration_millis, get_common_stage_info, is_shaded_row, job_duration, job_owner, newest_first,
    stage_progress, CommonJobFields, StageInfo,
};

fn times(millis: &[u64]) -> Vec<Timestamp> {
    millis.iter().map(|m| Timestamp(*m)).collect()
}

#[test]
fn jobs_are_listed_newest_first() {
    assert_eq!(newest_first(&times(&[10, 30, 20])), vec![1, 2, 0]);
    assert_eq!(newest_first(&times(&[3, 2, 1])), vec![0, 1, 2]);
    assert_eq!(newest_first(&times(&[1, 2, 3])), vec![2, 1, 0]);
    assert_eq!(newest_first(&times(&[])), Vec::<usize>::new());
    assert_eq!(newest_first(&times(&[5])), vec![0]);
}

#[test]
fn jobs_of_the_same_time_keep_their_order() {
    assert_eq!(newest_first(&times(&[7, 9, 7, 9, 7])), vec![1, 3, 0, 2, 4]);
    assert_eq!(newest_first(&times(&[4, 4, 4])), vec![0, 1, 2]);
}

#[test]
fn the_order_agrees_with_a_stable_descending_sort() {
    let mut seed: u64 = 99;
    let mut millis = Vec::new();
    for _ in 0..60 {
        seed = seed.wrapping_mul(6364136223846793005).wrapping_add(1442695040888963407);
        millis.push((seed >> 33) % 12);
    }
    let mut expected: Vec<usize> = (0..millis.len()).collect();
    expected.sort_by(|a, b| millis[*a].cmp(&millis[*b]).reverse());
    assert_eq!(newest_first(&times(&millis)), expected);
}

#[test]
fn a_missing_duration_counts_as_zero() {
    assert_eq!(duration_millis(None), 0);
    assert_eq!(duration_millis(Some(0)), 0);
    assert_eq!(duration_millis(Some(1500)), 1500);
    assert_eq!(duration_millis(Some(i64::MAX)), i64::MAX as u64);
}

#[test]
fn a_negative_duration_is_read_as_unsigned() {
    assert_eq!(duration_millis(Some(-1)), u64::MAX);
    assert_eq!(duration_millis(Some(-2)), u64::MAX - 1);
    assert_eq!(duration_millis(Some(i64::MIN)), 1u64 << 63);
    assert_eq!(duration_millis(Some(-12345)), (-12345i64) as u64);
}

#[test]
fn durations_are_written_in_two_units() {
    assert_eq!(job_duration(None), "0");
    assert_eq!(job_duration(Some(185_000)), "3m 5s");
    assert_eq!(job_duration(Some(1_500)), "1s 500ms");
    assert_eq!(job_duration(Some(3_723_000)), "1h 2m");
    assert_eq!(job_duration(Some(3_600_000 + 30)), "1h");
    assert_eq!(job_duration(Some(42)), "42ms");
}

#[test]
fn the_owner_is_name_and_address() {
    assert_eq!(job_owner(Some(("Ada", "ada@example.com"))), "Ada <ada@example.com>");
    assert_eq!(job_owner(Some(("", ""))), " <>");
    assert_eq!(job_owner(None), "Unknown");
}

#[test]
fn every_second_row_is_shaded() {
    assert!(!is_shaded_row(0));
    assert!(is_shaded_row(1));
    assert!(!is_shaded_row(2));
    assert!(is_shaded_row(usize::MAX));
}

#[test]
fn the_sample_counts_are_taken_from_any_kind_of_stage() {
    let expected =
        CommonJobFields { processed_num_samples: Some(3), total_num_samples: Some(10) };
    assert_eq!(
        get_common_stage_info(&StageInfo::Training {
            processed_num_samples: Some(3),
            total_num_samples: Some(10)
        }),
        expected
    );
    assert_eq!(
        get_common_stage_info(&StageInfo::Eval {
            processed_num_samples: Some(3),
            total_num_samples: Some(10)
        }),
        expected
    );
    assert_eq!(
        get_common_stage_info(&StageInfo::BatchInference {
            processed_num_samples: None,
            total_num_samples: Some(10)
        }),
        CommonJobFields { processed_num_samples: None, total_num_samples: Some(10) }
    );
}

#[test]
fn stage_progress_is_processed_over_total() {
    let fields = |p, t| CommonJobFields { processed_num_samples: p, total_num_samples: t };
    assert_eq!(stage_progress(fields(Some(3), Some(10))), "3/10");
    assert_eq!(stage_progress(fields(Some(0), Some(0))), "0/0");
    assert_eq!(stage_progress(fields(Some(-1), Some(5))), "-1/5");
    assert_eq!(stage_progress(fields(None, Some(10))), "Unknown");
    assert_eq!(stage_progress(fields(Some(3), None)), "Unknown");
    assert_eq!(stage_progress(fields(None, None)), "Unknown");
}
