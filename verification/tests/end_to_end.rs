use media_serve::pipeline::{plan_response, serve_bytes, ServeOutput};
use media_serve::policy::{AssetMetadata, AssetRecord, Disposition};
use media_serve::resolve::{ResizeRequest, TargetDimensions};
use media_serve::transcode::{fit_of, transcode, FitPolicy, OutputCodec};

fn png_bytes(width: u32, height: u32) -> Vec<u8> {
    let raster = image::DynamicImage::ImageRgb8(image::RgbImage::new(width, height));
    let mut bytes: Vec<u8> = Vec::new();
    raster
        .write_to(&mut std::io::Cursor::new(&mut bytes), image::ImageFormat::Png)
        .expect("encoding the fixture image failed");
    bytes
}

fn decoded_dimensions(bytes: &[u8]) -> (u32, u32) {
    let img = image::ImageReader::new(std::io::Cursor::new(bytes))
        .with_guessed_format()
        .expect("format sniffing failed")
        .decode()
        .expect("decoding the produced bytes failed");
    (img.width(), img.height())
}

fn request() -> ResizeRequest {
    ResizeRequest { size: None, width: None, height: None, max_side: None, fit: None, dpr: None }
}

fn image_record(content_type: &str, width: u32, height: u32) -> AssetRecord {
    AssetRecord {
        content_type: content_type.to_owned(),
        deleted: false,
        metadata: AssetMetadata::Image { width, height },
    }
}

#[test]
fn scenario_square_resize_to_configured_codec() {
    let source = png_bytes(800, 600);
    let mut req = request();
    req.size = Some(400);
    let plan = plan_response(
        image_record("image/jpeg", 800, 600),
        &Some(req),
        source,
        &OutputCodec::Png,
        "max-age=604800".to_owned(),
    );
    assert_eq!(plan.content_type, "image/png");
    assert_eq!(plan.disposition, Disposition::Inline);
    assert_eq!(plan.cache_control, "max-age=604800");
    assert_eq!(decoded_dimensions(&plan.bytes), (400, 400));
}

#[test]
fn scenario_max_side_clamps_longer_side() {
    let source = png_bytes(1920, 1080);
    let mut req = request();
    req.max_side = Some(500);
    let plan = plan_response(
        image_record("image/png", 1920, 1080),
        &Some(req),
        source,
        &OutputCodec::Png,
        String::new(),
    );
    assert_eq!(decoded_dimensions(&plan.bytes), (500, 281));
}

#[test]
fn scenario_corrupt_bytes_fall_back_to_original() {
    let source: Vec<u8> = b"certainly not an image".to_vec();
    let mut req = request();
    req.size = Some(100);
    let plan = plan_response(
        image_record("image/jpeg", 800, 600),
        &Some(req),
        source.clone(),
        &OutputCodec::Png,
        String::new(),
    );
    assert_eq!(plan.bytes, source);
    assert_eq!(plan.content_type, "image/jpeg");
    assert_eq!(plan.disposition, Disposition::Inline);
}

#[test]
fn no_resize_request_serves_original() {
    let source = png_bytes(10, 10);
    let plan = plan_response(
        image_record("image/png", 10, 10),
        &None,
        source.clone(),
        &OutputCodec::Png,
        String::new(),
    );
    assert_eq!(plan.bytes, source);
    assert_eq!(plan.content_type, "image/png");
}

#[test]
fn non_image_asset_is_served_unchanged() {
    let source: Vec<u8> = vec![1, 2, 3, 4];
    let mut req = request();
    req.size = Some(100);
    let record = AssetRecord {
        content_type: "application/pdf".to_owned(),
        deleted: false,
        metadata: AssetMetadata::Other,
    };
    let plan = plan_response(record, &Some(req), source.clone(), &OutputCodec::Png, String::new());
    assert_eq!(plan.bytes, source);
    assert_eq!(plan.content_type, "application/pdf");
    assert_eq!(plan.disposition, Disposition::Attachment);
}

#[test]
fn webp_codec_stamps_its_own_type() {
    let source = png_bytes(64, 64);
    let mut req = request();
    req.size = Some(32);
    let out: ServeOutput = serve_bytes(
        source,
        &AssetMetadata::Image { width: 64, height: 64 },
        &Some(req),
        &OutputCodec::Webp { quality: Some(80) },
    );
    assert_eq!(out.content_type.as_deref(), Some("image/webp"));
    assert_eq!(&out.bytes[0..4], b"RIFF");
}

#[test]
fn webp_lossless_also_produces_webp() {
    let source = png_bytes(16, 16);
    let target = TargetDimensions { width: 8, height: 8 };
    let out = transcode(&source, target, FitPolicy::Contain, &OutputCodec::Webp { quality: None })
        .expect("lossless transcode failed");
    assert_eq!(out.content_type, "image/webp");
    assert_eq!(&out.bytes[0..4], b"RIFF");
}

#[test]
fn cover_fit_fills_the_exact_box() {
    let source = png_bytes(800, 600);
    let target = TargetDimensions { width: 300, height: 100 };
    let out = transcode(&source, target, FitPolicy::Cover, &OutputCodec::Png)
        .expect("cover transcode failed");
    assert_eq!(decoded_dimensions(&out.bytes), (300, 100));
}

#[test]
fn contain_fit_scales_to_the_requested_box() {
    let source = png_bytes(800, 600);
    let target = TargetDimensions { width: 200, height: 150 };
    let out = transcode(&source, target, FitPolicy::Contain, &OutputCodec::Png)
        .expect("contain transcode failed");
    assert_eq!(decoded_dimensions(&out.bytes), (200, 150));
}

#[test]
fn transcode_reports_decode_error_on_corrupt_bytes() {
    let source: Vec<u8> = vec![0, 1, 2, 3];
    let target = TargetDimensions { width: 10, height: 10 };
    let r = transcode(&source, target, FitPolicy::Contain, &OutputCodec::Png);
    assert_eq!(r.unwrap_err(), media_serve::transcode::TranscodeError::DecodeError);
}

fn grayscale_png_bytes(width: u32, height: u32) -> Vec<u8> {
    let raster = image::DynamicImage::ImageLuma8(image::GrayImage::new(width, height));
    let mut bytes: Vec<u8> = Vec::new();
    raster
        .write_to(&mut std::io::Cursor::new(&mut bytes), image::ImageFormat::Png)
        .expect("encoding the fixture image failed");
    bytes
}

#[test]
fn webp_refuses_grayscale_with_encode_error() {
    let source = grayscale_png_bytes(10, 10);
    let target = TargetDimensions { width: 5, height: 5 };
    let r = transcode(&source, target, FitPolicy::Contain, &OutputCodec::Webp { quality: Some(50) });
    assert_eq!(r.unwrap_err(), media_serve::transcode::TranscodeError::EncodeError);
}

#[test]
fn encode_failure_falls_back_to_original_bytes() {
    let source = grayscale_png_bytes(10, 10);
    let mut req = request();
    req.size = Some(5);
    let plan = plan_response(
        image_record("image/png", 10, 10),
        &Some(req),
        source.clone(),
        &OutputCodec::Webp { quality: Some(50) },
        String::new(),
    );
    assert_eq!(plan.bytes, source);
    assert_eq!(plan.content_type, "image/png");
}

#[test]
fn transcode_is_deterministic_in_its_inputs() {
    let source = png_bytes(100, 80);
    let target = TargetDimensions { width: 50, height: 40 };
    let codec = OutputCodec::Webp { quality: Some(60) };
    let first = transcode(&source, target, FitPolicy::Contain, &codec)
        .expect("transcode failed");
    let second = transcode(&source, target, FitPolicy::Contain, &codec)
        .expect("transcode failed");
    assert_eq!(first.bytes, second.bytes);
    assert_eq!(first.content_type, second.content_type);
}

#[test]
fn fit_parameter_recognizes_cover_alone() {
    assert_eq!(fit_of(&Some("cover".to_owned())), FitPolicy::Cover);
    assert_eq!(fit_of(&Some("COVER".to_owned())), FitPolicy::Contain);
    assert_eq!(fit_of(&Some("anything".to_owned())), FitPolicy::Contain);
    assert_eq!(fit_of(&None), FitPolicy::Contain);
}

#[test]
fn dpr_can_exceed_source_resolution() {
    let source = png_bytes(100, 80);
    let mut req = request();
    req.size = Some(80);
    req.dpr = Some(media_serve::resolve::Dpr { milli: 2000 });
    let plan = plan_response(
        image_record("image/png", 100, 80),
        &Some(req),
        source,
        &OutputCodec::Png,
        String::new(),
    );
    assert_eq!(decoded_dimensions(&plan.bytes), (160, 160));
}
