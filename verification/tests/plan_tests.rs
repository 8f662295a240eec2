use adpt::plan::{
    calculate_upload_parts, div_ceil, PlanningError, MAX_CHUNK_SIZE_BYTES, MAX_PARTS_COUNT,
    MAX_UPLOAD_SIZE_BYTES, MEGABYTE, MIN_CHUNK_SIZE_BYTES, SIZE_10GB, SIZE_500MB, SIZE_50GB,
};

#[test]
fn just_under_five_million_bytes_is_too_small() {
    assert_eq!(
        calculate_upload_parts(4_999_999),
        Err(PlanningError::TooSmall { file_size: 4_999_999 })
    );
}

#[test]
fn five_million_bytes_is_still_under_five_mebibytes() {
    assert_eq!(
        calculate_upload_parts(5_000_000),
        Err(PlanningError::TooSmall { file_size: 5_000_000 })
    );
}

#[test]
fn zero_bytes_is_too_small() {
    assert_eq!(calculate_upload_parts(0), Err(PlanningError::TooSmall { file_size: 0 }));
}

#[test]
fn one_byte_under_the_minimum_is_too_small() {
    let size = MIN_CHUNK_SIZE_BYTES - 1;
    assert_eq!(calculate_upload_parts(size), Err(PlanningError::TooSmall { file_size: size }));
}

#[test]
fn the_minimum_size_is_one_part() {
    assert_eq!(calculate_upload_parts(5 * 1024 * 1024), Ok((1, 5 * 1024 * 1024)));
}

#[test]
fn one_byte_over_the_minimum_is_two_parts() {
    assert_eq!(calculate_upload_parts(5 * 1024 * 1024 + 1), Ok((2, 5 * 1024 * 1024)));
}

#[test]
fn six_hundred_mebibytes_is_sixty_parts_of_ten() {
    assert_eq!(calculate_upload_parts(600 * MEGABYTE), Ok((60, 10 * MEGABYTE)));
}

#[test]
fn six_hundred_million_bytes_is_fifty_eight_parts_of_ten() {
    assert_eq!(calculate_upload_parts(600_000_000), Ok((58, 10 * MEGABYTE)));
}

#[test]
fn a_million_million_bytes_and_one_still_fits() {
    assert_eq!(calculate_upload_parts(1_000_000_000_001), Ok((9537, 100 * MEGABYTE)));
}

#[test]
fn a_thousand_gibibytes_and_one_byte_is_too_large() {
    let size = 1000 * 1024 * MEGABYTE + 1;
    assert_eq!(calculate_upload_parts(size), Err(PlanningError::TooLarge { file_size: size }));
}

#[test]
fn the_largest_upload_is_ten_thousand_parts() {
    assert_eq!(MAX_UPLOAD_SIZE_BYTES, 1_048_576_000_000);
    assert_eq!(
        calculate_upload_parts(MAX_UPLOAD_SIZE_BYTES),
        Ok((MAX_PARTS_COUNT, MAX_CHUNK_SIZE_BYTES))
    );
}

#[test]
fn one_byte_over_the_largest_upload_is_too_large() {
    let size = MAX_UPLOAD_SIZE_BYTES + 1;
    assert_eq!(calculate_upload_parts(size), Err(PlanningError::TooLarge { file_size: size }));
}

#[test]
fn the_largest_number_is_too_large() {
    assert_eq!(
        calculate_upload_parts(u64::MAX),
        Err(PlanningError::TooLarge { file_size: u64::MAX })
    );
}

#[test]
fn each_tier_has_its_part_size() {
    assert_eq!(calculate_upload_parts(SIZE_500MB - 1), Ok((100, 5 * MEGABYTE)));
    assert_eq!(calculate_upload_parts(SIZE_500MB), Ok((50, 10 * MEGABYTE)));
    assert_eq!(calculate_upload_parts(SIZE_10GB - 1), Ok((1024, 10 * MEGABYTE)));
    assert_eq!(calculate_upload_parts(SIZE_10GB), Ok((205, 50 * MEGABYTE)));
    assert_eq!(calculate_upload_parts(SIZE_50GB - 1), Ok((1024, 50 * MEGABYTE)));
    assert_eq!(calculate_upload_parts(SIZE_50GB), Ok((512, 100 * MEGABYTE)));
}

#[test]
fn planned_parts_cover_the_file_and_keep_the_limits() {
    let mut size: u64 = MIN_CHUNK_SIZE_BYTES;
    while size <= MAX_UPLOAD_SIZE_BYTES {
        let (parts, chunk) = calculate_upload_parts(size).unwrap();
        assert!(parts * chunk >= size);
        assert!((parts - 1) * chunk < size);
        assert!(parts >= 1 && parts <= MAX_PARTS_COUNT);
        assert!(chunk >= MIN_CHUNK_SIZE_BYTES && chunk <= MAX_CHUNK_SIZE_BYTES);
        size = size + size / 3 + 12_345;
    }
}

#[test]
fn planning_the_same_size_twice_gives_the_same_plan() {
    for size in [0u64, 5_242_880, 7_000_000, 600_000_000, 1_048_576_000_001] {
        assert_eq!(calculate_upload_parts(size), calculate_upload_parts(size));
    }
}

#[test]
fn div_ceil_rounds_up() {
    assert_eq!(div_ceil(0, 7), 0);
    assert_eq!(div_ceil(1, 7), 1);
    assert_eq!(div_ceil(7, 7), 1);
    assert_eq!(div_ceil(8, 7), 2);
    assert_eq!(div_ceil(u64::MAX, 1), u64::MAX);
    assert_eq!(div_ceil(u64::MAX, 2), 1 << 63);
}
