use firkin::cli::{parse, DEFAULT_HEIGHT_PX, DEFAULT_WIDTH_PX};
use firkin::units::PX;

#[test]
fn parse_fills_in_the_documented_defaults() {
    let opts = parse(String::from("/data/scan.raw"), None, None);
    assert_eq!(opts.input, "/data/scan.raw");
    assert_eq!(opts.width.per(PX), DEFAULT_WIDTH_PX);
    assert_eq!(opts.height.per(PX), DEFAULT_HEIGHT_PX);
    assert_eq!(opts.width.per(PX), 1900);
    assert_eq!(opts.height.per(PX), 800);
}

#[test]
fn parse_keeps_explicit_dimensions() {
    let opts = parse(String::from("/data/scan.raw"), Some(640), Some(480));
    assert_eq!(opts.input, "/data/scan.raw");
    assert_eq!(opts.width.per(PX), 640);
    assert_eq!(opts.height.per(PX), 480);
}
