use thermometer::raster::RasterError;
use thermometer::raster::clamp_scale_milli;
use thermometer::raster::plan_raster;

#[test]
fn scale_is_clamped_into_its_range() {
    // A wish of 0.05 is raised to 0.1; one of 10.0 is lowered to 5.0.
    assert_eq!(clamp_scale_milli(50), 100);
    assert_eq!(clamp_scale_milli(10_000), 5_000);
    assert_eq!(clamp_scale_milli(100), 100);
    assert_eq!(clamp_scale_milli(5_000), 5_000);
    assert_eq!(clamp_scale_milli(1_000), 1_000);
    assert_eq!(clamp_scale_milli(-3), 100);
}

#[test]
fn pixel_dimensions_are_the_scaled_intrinsic_size_rounded() {
    let plan = plan_raster(800, 960, 2_500).unwrap();
    assert_eq!(plan.pixel_width, 2_000);
    assert_eq!(plan.pixel_height, 2_400);
    assert!(!plan.identity_transform);

    // Rounding to the nearest pixel, halves up.
    let plan = plan_raster(801, 961, 500).unwrap();
    assert_eq!(plan.pixel_width, 401);
    assert_eq!(plan.pixel_height, 481);

    let plan = plan_raster(800, 960, 100).unwrap();
    assert_eq!(plan.pixel_width, 80);
    assert_eq!(plan.pixel_height, 96);
}

#[test]
fn scale_one_draws_with_the_identity_transform() {
    let plan = plan_raster(800, 960, 1_000).unwrap();
    assert_eq!(plan.pixel_width, 800);
    assert_eq!(plan.pixel_height, 960);
    assert!(plan.identity_transform);
}

#[test]
fn degenerate_plans_are_refused_as_allocation_failures() {
    assert_eq!(
        plan_raster(0, 960, 1_000),
        Err(RasterError::BufferAllocationFailed)
    );
    // One pixel at a tenth scale rounds to no pixels at all.
    assert_eq!(
        plan_raster(1, 100, 100),
        Err(RasterError::BufferAllocationFailed)
    );
}

#[test]
fn each_failure_has_its_fixed_message() {
    assert_eq!(RasterError::ParseFailed.message(), "Failed to parse SVG");
    assert_eq!(
        RasterError::BufferAllocationFailed.message(),
        "Failed to create pixmap"
    );
    assert_eq!(RasterError::EncodeFailed.message(), "Failed to encode PNG");
}
