use ceangal::model::{DeviceLimits, FrameError, GpuError, InitError};
use ceangal::runtime::{frame_outcome, scope_outcome, surface_size};
use ceangal::scene::{tile_count, ITEM_SLOTS, ITEM_WORDS, TABLE_BYTES, TABLE_WORDS};

#[test]
fn closed_scopes_that_caught_nothing_report_nothing() {
    assert_eq!(scope_outcome((false, false)), None);
}

#[test]
fn a_validation_error_is_reported_first() {
    assert_eq!(scope_outcome((true, false)), Some(GpuError::Validation));
    assert_eq!(scope_outcome((true, true)), Some(GpuError::Validation));
}

#[test]
fn an_out_of_memory_error_is_reported_alone() {
    assert_eq!(scope_outcome((false, true)), Some(GpuError::OutOfMemory));
}

#[test]
fn a_frame_without_caught_errors_keeps_its_answer() {
    assert!(matches!(frame_outcome(Err(FrameError::Outdated), (false, false)), Err(FrameError::Outdated)));
    assert!(matches!(frame_outcome(Err(FrameError::Lost), (false, false)), Err(FrameError::Lost)));
}

#[test]
fn a_frame_with_a_caught_error_is_rejected() {
    assert!(matches!(frame_outcome(Err(FrameError::Timeout), (true, false)), Err(FrameError::Rejected)));
    assert!(matches!(frame_outcome(Err(FrameError::Other), (false, true)), Err(FrameError::Rejected)));
}

#[test]
fn tiles_cover_every_pixel() {
    assert_eq!(tile_count(0), 0);
    assert_eq!(tile_count(1), 1);
    assert_eq!(tile_count(16), 1);
    assert_eq!(tile_count(17), 2);
    assert_eq!(tile_count(800), 50);
    assert_eq!(tile_count(601), 38);
}

#[test]
fn the_item_table_fills_its_buffer() {
    assert_eq!(ITEM_SLOTS * ITEM_WORDS, TABLE_WORDS);
    assert_eq!(4 * TABLE_WORDS as u64, TABLE_BYTES);
}

fn limits_8192() -> DeviceLimits {
    DeviceLimits {
        max_buffer_size: 1 << 28,
        max_texture_dimension_2d: 8192,
        unrestricted_index_buffer: true,
        indirect_execution: true,
    }
}

#[test]
fn a_zero_size_is_raised_to_one() {
    assert_eq!(surface_size(limits_8192(), 0, 0), Ok((1, 1)));
    assert_eq!(surface_size(limits_8192(), 0, 600), Ok((1, 600)));
}

#[test]
fn a_size_within_the_limit_is_kept() {
    assert_eq!(surface_size(limits_8192(), 800, 600), Ok((800, 600)));
    assert_eq!(surface_size(limits_8192(), 8192, 8192), Ok((8192, 8192)));
}

#[test]
fn a_size_beyond_the_limit_is_too_large() {
    assert_eq!(surface_size(limits_8192(), 8193, 600), Err(InitError::SurfaceTooLarge));
    assert_eq!(surface_size(limits_8192(), 800, 9000), Err(InitError::SurfaceTooLarge));
}
