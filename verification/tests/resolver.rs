use media_serve::resolve::{resolve, validate, Dpr, ResizeRequest, TargetDimensions};
use media_serve::ServeError;

fn request() -> ResizeRequest {
    ResizeRequest { size: None, width: None, height: None, max_side: None, fit: None, dpr: None }
}

fn target(r: Option<TargetDimensions>) -> (u32, u32) {
    let t = r.expect("a resize should have been resolved");
    (t.width, t.height)
}

#[test]
fn size_gives_square_bounded_by_shorter_side() {
    let mut req = request();
    req.size = Some(400);
    assert_eq!(target(resolve(&req, 800, 600)), (400, 400));
}

#[test]
fn size_larger_than_source_clamps_to_shorter_side() {
    let mut req = request();
    req.size = Some(400);
    assert_eq!(target(resolve(&req, 100, 200)), (100, 100));
}

#[test]
fn size_takes_precedence_over_every_other_parameter() {
    let mut req = request();
    req.size = Some(50);
    req.max_side = Some(70);
    req.width = Some(300);
    req.height = Some(20);
    assert_eq!(target(resolve(&req, 100, 100)), (50, 50));
}

#[test]
fn max_side_clamps_longer_side_and_scales_the_other() {
    let mut req = request();
    req.max_side = Some(500);
    assert_eq!(target(resolve(&req, 1920, 1080)), (500, 281));
}

#[test]
fn max_side_portrait_clamps_height() {
    let mut req = request();
    req.max_side = Some(500);
    assert_eq!(target(resolve(&req, 1080, 1920)), (281, 500));
}

#[test]
fn max_side_larger_than_source_keeps_dimensions() {
    let mut req = request();
    req.max_side = Some(5000);
    assert_eq!(target(resolve(&req, 1920, 1080)), (1920, 1080));
}

#[test]
fn width_and_height_clamp_each_axis_independently() {
    let mut req = request();
    req.width = Some(1000);
    req.height = Some(200);
    assert_eq!(target(resolve(&req, 800, 600)), (800, 200));
}

#[test]
fn width_only_preserves_aspect_ratio() {
    let mut req = request();
    req.width = Some(400);
    assert_eq!(target(resolve(&req, 800, 600)), (400, 300));
}

#[test]
fn width_only_truncates_derived_height() {
    let mut req = request();
    req.width = Some(500);
    // 500 * 1080 / 1920 = 281.25, truncated toward zero.
    assert_eq!(target(resolve(&req, 1920, 1080)), (500, 281));
}

#[test]
fn height_only_preserves_aspect_ratio() {
    let mut req = request();
    req.height = Some(300);
    assert_eq!(target(resolve(&req, 800, 600)), (400, 300));
}

#[test]
fn no_parameters_means_no_resize() {
    assert!(resolve(&request(), 800, 600).is_none());
}

#[test]
fn dpr_scales_both_axes() {
    let mut req = request();
    req.size = Some(400);
    req.dpr = Some(Dpr { milli: 2000 });
    assert_eq!(target(resolve(&req, 800, 600)), (800, 800));
}

#[test]
fn dpr_truncates_toward_zero() {
    let mut req = request();
    req.size = Some(3);
    req.dpr = Some(Dpr { milli: 500 });
    assert_eq!(target(resolve(&req, 100, 100)), (1, 1));
}

#[test]
fn dpr_monotonic_on_concrete_values() {
    let mut low = request();
    low.size = Some(400);
    low.dpr = Some(Dpr { milli: 500 });
    let mut high = request();
    high.size = Some(400);
    high.dpr = Some(Dpr { milli: 1500 });
    let (lw, lh) = target(resolve(&low, 800, 600));
    let (hw, hh) = target(resolve(&high, 800, 600));
    assert!(lw <= hw && lh <= hh);
    assert_eq!((lw, lh), (200, 200));
    assert_eq!((hw, hh), (600, 600));
}

#[test]
fn degenerate_axis_is_floored_to_one_pixel() {
    let mut req = request();
    req.width = Some(500);
    // 500 * 1 / 1000 truncates to zero; the output axis floors at one.
    assert_eq!(target(resolve(&req, 1000, 1)), (500, 1));
}

#[test]
fn resolution_is_idempotent_on_resolved_pairs() {
    let mut req = request();
    req.max_side = Some(500);
    let (tw, th) = target(resolve(&req, 1920, 1080));
    let mut again = request();
    again.width = Some(tw);
    again.height = Some(th);
    assert_eq!(target(resolve(&again, 1920, 1080)), (tw, th));
}

#[test]
fn validate_accepts_positive_parameters() {
    let mut req = request();
    req.size = Some(1);
    req.dpr = Some(Dpr { milli: 1 });
    assert!(validate(&req).is_ok());
}

#[test]
fn validate_rejects_zero_dimension() {
    let mut req = request();
    req.size = Some(0);
    assert_eq!(validate(&req), Err(ServeError::InvalidParameters));
}

#[test]
fn validate_rejects_zero_ratio() {
    let mut req = request();
    req.dpr = Some(Dpr { milli: 0 });
    assert_eq!(validate(&req), Err(ServeError::InvalidParameters));
}
