use rusty::camera::SampleType;
use rusty::objects::Shot;
use rusty::utils::Axis;

#[test]
fn shots_compare_by_variant() {
    assert_eq!(Shot::Hit, Shot::Hit);
    assert_ne!(Shot::Hit, Shot::Miss);
}

#[test]
fn axes_are_distinct() {
    assert_ne!(Axis::X, Axis::Y);
    assert_ne!(Axis::Y, Axis::Z);
    assert_eq!(Axis::Z, Axis::Z);
}

#[test]
fn sample_types_are_distinct() {
    assert_ne!(SampleType::PixelRatio, SampleType::Blurry);
    assert_ne!(SampleType::Blurry, SampleType::Blurrier);
}
