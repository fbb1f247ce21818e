use mvcompression::MVCompression;
use mvcompression::policy::COMPRESSIBLE_BLOCK_WEIGHT;
use mvcompression::policy::INITIAL_COMPRESSION_VALUE;
use mvcompression::policy::MAX_COMPRESSION_VALUE;
use mvcompression::policy::MIN_COMPRESSION_VALUE;
use mvcompression::policy::NON_COMPRESSIBLE_BLOCK_WEIGHT;
use mvcompression::policy::SKIP_COMPRESSION_BLOCK_WEIGHT;

#[test]
fn test_new_mvcompression() {
    let mvc = MVCompression::new();
    assert_eq!(mvc.get_compression_value(), INITIAL_COMPRESSION_VALUE);
    assert_eq!(mvc.get_compressed_average(), 0);
    assert_eq!(mvc.get_uncompressed_average(), 0);
}

#[test]
fn test_default_trait() {
    let mvc = MVCompression::default();
    assert_eq!(mvc.get_compression_value(), INITIAL_COMPRESSION_VALUE);
    assert_eq!(mvc.get_compressed_average(), 0);
    assert_eq!(mvc.get_uncompressed_average(), 0);
}

#[test]
fn test_compression_ratio_update_good_compression() {
    let mut mvc = MVCompression::new();
    let initial_value = mvc.get_compression_value();

    // Excellent compression ratio (0.5).
    mvc.update_compression_ratio(500, 1000);
    assert!(mvc.get_compression_value() < initial_value);
    assert_eq!(mvc.get_compression_value(), initial_value + COMPRESSIBLE_BLOCK_WEIGHT);
}

#[test]
fn test_compression_ratio_update_poor_compression() {
    let mut mvc = MVCompression::new();
    let initial_value = mvc.get_compression_value();

    // Poor compression ratio (0.95).
    mvc.update_compression_ratio(950, 1000);
    assert!(mvc.get_compression_value() > initial_value);
    assert_eq!(mvc.get_compression_value(), initial_value + NON_COMPRESSIBLE_BLOCK_WEIGHT);
}

#[test]
fn test_compression_ratio_boundary_conditions() {
    let mut mvc = MVCompression::new();
    let initial_value = mvc.get_compression_value();

    // Exactly at the boundary (0.9): counts as good compression.
    mvc.update_compression_ratio(900, 1000);
    assert_eq!(mvc.get_compression_value(), initial_value + COMPRESSIBLE_BLOCK_WEIGHT);

    // Just above the boundary (0.901): counts as poor compression.
    let mut mvc2 = MVCompression::new();
    mvc2.update_compression_ratio(901, 1000);
    assert_eq!(mvc2.get_compression_value(), initial_value + NON_COMPRESSIBLE_BLOCK_WEIGHT);
}

#[test]
fn test_compression_value_bounds() {
    let mut mvc = MVCompression::new();

    // Upper bound: repeatedly report poor compression (ratio 1.0).
    for _ in 0..100 {
        mvc.update_compression_ratio(1000, 1000);
    }
    assert!(mvc.get_compression_value() <= MAX_COMPRESSION_VALUE);

    let mut mvc2 = MVCompression::new();
    // Lower bound: repeatedly report excellent compression (ratio 0.1).
    for _ in 0..100 {
        mvc2.update_compression_ratio(100, 1000);
    }
    assert!(mvc2.get_compression_value() >= MIN_COMPRESSION_VALUE);
}

#[test]
fn test_moving_averages_update() {
    let mut mvc = MVCompression::new();

    // First update.
    mvc.update_compression_ratio(800, 1000);

    let compressed_avg = mvc.get_compressed_average();
    let uncompressed_avg = mvc.get_uncompressed_average();

    // Moving averages should be non-zero after the first update.
    assert!(compressed_avg > 0);
    assert!(uncompressed_avg > 0);

    // A second update should change the averages.
    mvc.update_compression_ratio(600, 1200);

    assert_ne!(mvc.get_compressed_average(), compressed_avg);
    assert_ne!(mvc.get_uncompressed_average(), uncompressed_avg);
}

#[test]
fn test_skip_compression_initially_false() {
    let mut mvc = MVCompression::new();
    // Initially the bias value is negative, so nothing is skipped.
    assert!(!mvc.should_skip_compression(1000));
    assert!(!mvc.should_skip_compression(0));
    assert!(!mvc.should_skip_compression(usize::MAX));
}

#[test]
fn test_skip_compression_activation() {
    let mut mvc = MVCompression::new();

    // Force the bias value positive with poor compression results.
    for _ in 0..30 {
        mvc.update_compression_ratio(1000, 1000);
    }

    assert!(mvc.get_compression_value() > 0);

    // Build up some average size history.
    for _ in 0..10 {
        mvc.update_compression_ratio(1000, 1000);
    }

    let expected_size = mvc.get_uncompressed_average();

    // Blocks of familiar size are skipped.
    assert!(mvc.should_skip_compression(expected_size));
    assert!(mvc.should_skip_compression(expected_size + (expected_size >> 3)));

    // It does not skip significantly larger blocks.
    assert!(!mvc.should_skip_compression(expected_size * 2));
}

#[test]
fn test_skip_compression_updates_value() {
    let mut mvc = MVCompression::new();

    // Force the bias value positive.
    for _ in 0..30 {
        mvc.update_compression_ratio(1000, 1000);
    }

    // Build up the average.
    for _ in 0..10 {
        mvc.update_compression_ratio(1000, 1000);
    }

    let initial_compression_value = mvc.get_compression_value();
    let expected_size = mvc.get_uncompressed_average();

    // Skipping moves the bias value one step down.
    if mvc.should_skip_compression(expected_size) {
        assert_eq!(
            mvc.get_compression_value(),
            initial_compression_value + SKIP_COMPRESSION_BLOCK_WEIGHT
        );
    }
}

#[test]
fn test_moving_average_calculation() {
    let mut mvc = MVCompression::new();

    mvc.update_compression_ratio(800, 1000);

    let expected_compressed: usize = 800 >> 3;
    let expected_uncompressed: usize = 1000 >> 3;

    assert_eq!(mvc.get_compressed_average(), expected_compressed);
    assert_eq!(mvc.get_uncompressed_average(), expected_uncompressed);
}

#[test]
fn test_zero_size_handling() {
    let mut mvc = MVCompression::new();

    // Zero compressed size (perfect compression).
    mvc.update_compression_ratio(0, 1000);
    assert!(mvc.get_compression_value() < INITIAL_COMPRESSION_VALUE);

    // A tiny uncompressed size with a large compressed size.
    let mut mvc2 = MVCompression::new();
    mvc2.update_compression_ratio(100, 1);
    // Handled without panicking.
    assert!(mvc2.get_compression_value() != INITIAL_COMPRESSION_VALUE);
}

#[test]
fn test_large_size_values() {
    let mut mvc = MVCompression::new();

    // Large values must not overflow the calculations.
    let large_size = usize::MAX >> 10;
    mvc.update_compression_ratio(large_size / 2, large_size);

    assert!(mvc.get_compressed_average() > 0);
    assert!(mvc.get_uncompressed_average() > 0);
}

#[test]
fn test_sequential_behavior_simulation() {
    let mut mvc = MVCompression::new();
    let mut skip_count: i32 = 0;
    let mut compress_count: i32 = 0;

    // A stream of blocks that never compress.
    for _i in 1..30 {
        let uncompressed: usize = 1000;
        let compressed: usize = 1000;

        if mvc.should_skip_compression(uncompressed) {
            skip_count += 1;
        } else {
            mvc.update_compression_ratio(compressed, uncompressed);
            compress_count += 1;
        }
    }

    // The engine eventually starts skipping, but only after attempting.
    assert!(skip_count > 0, "Should have skipped some compressions");
    assert!(compress_count > 0, "Should have attempted some compressions");
    assert!(mvc.get_compression_value() > INITIAL_COMPRESSION_VALUE);
}
