use std::io::Cursor;

use image_resize::codec::{thumbnail_fits, DecodedImage};
use image_resize::config::Config;
use image_resize::resize::{
    decoded_response, image_loaded, original_response, resize_image, transcoded_response,
    ImageRequest, ReadError, ReadFailure, Step,
};
use image_resize::response::{
    blocking_task_failed, cache_control, create_failure_response, create_image_response,
    create_refusal, Response,
};
use image_resize::transcode::{decode, resize_image_to_webp, should_resize, thumbnail_size};
use image_resize::validate::UrlType;

fn config(is_development: bool, allowed: &[&str]) -> Config {
    Config {
        mount_path: String::from("/mnt/images/"),
        is_development,
        max_age: 86400,
        s_max_age: 2592000,
        allowed_origins: allowed.iter().map(|s| s.to_string()).collect(),
    }
}

fn picture(width: u32, height: u32) -> image::RgbaImage {
    image::RgbaImage::from_fn(width, height, |x, y| {
        image::Rgba([(x % 256) as u8, (y % 256) as u8, ((x + y) % 256) as u8, 255])
    })
}

fn file(width: u32, height: u32, format: image::ImageFormat) -> Vec<u8> {
    let mut out = Cursor::new(Vec::new());
    image::DynamicImage::ImageRgba8(picture(width, height)).write_to(&mut out, format).unwrap();
    out.into_inner()
}

fn jpeg_file(width: u32, height: u32) -> Vec<u8> {
    let mut out = Cursor::new(Vec::new());
    let rgb = image::DynamicImage::ImageRgba8(picture(width, height)).to_rgb8();
    image::DynamicImage::ImageRgb8(rgb).write_to(&mut out, image::ImageFormat::Jpeg).unwrap();
    out.into_inner()
}

fn request(location: &str, width: u32) -> ImageRequest {
    ImageRequest { url_type: UrlType::Local, location: String::from(location), width }
}

fn expect_image(response: Response) -> (String, String, String, Vec<u8>) {
    assert_eq!(response.status(), 200);
    match response {
        Response::Image { content_type, allow_origin, cache_control, body } => {
            (content_type, allow_origin, cache_control, body)
        }
        Response::Failure { status, message, .. } => panic!("failure {} {}", status, message),
    }
}

fn expect_failure(response: Response) -> (u16, String, String) {
    match response {
        Response::Failure { status, message, detail } => (status, message, detail),
        Response::Image { content_type, .. } => panic!("image {}", content_type),
    }
}

fn expect_respond(step: Step) -> Response {
    match step {
        Step::Respond(response) => response,
        Step::Read(request) => panic!("read {}", request.location),
    }
}

fn expect_read(step: Step) -> ImageRequest {
    match step {
        Step::Read(request) => request,
        Step::Respond(response) => panic!("respond {}", response.status()),
    }
}

#[test]
fn scenario_png_is_shrunk_to_the_requested_width() {
    let c = config(false, &["https://a.example"]);
    let step = resize_image(Some("https://a.example"), Some("photo.png"), Some("100"), &c);
    let req = expect_read(step);
    assert_eq!(req.url_type, UrlType::Local);
    assert_eq!(req.location, "/mnt/images/photo.png");
    assert_eq!(req.width, 100);
    let source = file(500, 300, image::ImageFormat::Png);
    let (content_type, allow_origin, cache, body) =
        expect_image(image_loaded(&req, Ok(source.clone()), &c));
    assert_eq!(content_type, "image/webp");
    assert_eq!(allow_origin, "*");
    assert_eq!(cache, "public, max-age=86400, s-maxage=2592000");
    assert_ne!(body, source);
    assert_eq!(image::guess_format(&body).unwrap(), image::ImageFormat::WebP);
    let out = image::load_from_memory(&body).unwrap();
    assert_eq!(out.width(), 100);
    assert_eq!(out.height(), 60);
}

#[test]
fn scenario_gif_is_never_resized() {
    let c = config(true, &[]);
    let req = expect_read(resize_image(None, Some("photo.gif"), Some("50"), &c));
    let source = file(500, 300, image::ImageFormat::Gif);
    let (content_type, allow_origin, cache, body) =
        expect_image(image_loaded(&req, Ok(source.clone()), &c));
    assert_eq!(content_type, "image/gif");
    assert_eq!(allow_origin, "*");
    assert_eq!(cache, "public, max-age=86400, s-maxage=2592000");
    assert_eq!(body, source);
}

#[test]
fn scenario_wide_request_keeps_the_original() {
    let c = config(true, &[]);
    let req = expect_read(resize_image(None, Some("photo.jpg"), Some("9999"), &c));
    let source = jpeg_file(500, 300);
    let (content_type, _, cache, body) = expect_image(image_loaded(&req, Ok(source.clone()), &c));
    assert_eq!(content_type, "image/jpg");
    assert_eq!(cache, "public, max-age=86400, s-maxage=2592000");
    assert_eq!(body, source);
}

#[test]
fn scenario_missing_width() {
    let c = config(true, &[]);
    let response = expect_respond(resize_image(None, Some("photo.png"), None, &c));
    assert_eq!(response.status(), 400);
    let (status, message, detail) = expect_failure(response);
    assert_eq!(status, 400);
    assert_eq!(message, "width is required");
    assert_eq!(detail, "");
}

#[test]
fn scenario_disallowed_origin() {
    let c = config(false, &["https://a.example"]);
    let step = resize_image(Some("https://evil.example"), Some("photo.png"), Some("100"), &c);
    let (status, message, detail) = expect_failure(expect_respond(step));
    assert_eq!(status, 403);
    assert_eq!(message, "Invalid origin");
    assert_eq!(detail, "");
    let step = resize_image(None, None, None, &c);
    let (status, message, _) = expect_failure(expect_respond(step));
    assert_eq!(status, 403);
    assert_eq!(message, "Invalid origin");
}

#[test]
fn missing_header_passes_where_the_empty_origin_is_allowed() {
    let c = config(false, &[""]);
    let req = expect_read(resize_image(None, Some("photo.png"), Some("10"), &c));
    assert_eq!(req.location, "/mnt/images/photo.png");
}

#[test]
fn missing_image_url() {
    let c = config(true, &[]);
    let (status, message, _) =
        expect_failure(expect_respond(resize_image(None, None, Some("100"), &c)));
    assert_eq!(status, 400);
    assert_eq!(message, "image_url is required");
}

#[test]
fn first_failing_parameter_decides() {
    let c = config(true, &[]);
    let (status, message, _) =
        expect_failure(expect_respond(resize_image(None, Some("a.txt"), Some("x"), &c)));
    assert_eq!(status, 400);
    assert_eq!(message, "txt is not image extension.");
    let (status, message, _) =
        expect_failure(expect_respond(resize_image(None, Some(""), None, &c)));
    assert_eq!(status, 400);
    assert_eq!(message, "image_url is required.");
    let (status, message, _) =
        expect_failure(expect_respond(resize_image(None, Some("a.png"), Some("x"), &c)));
    assert_eq!(status, 400);
    assert_eq!(message, "width should be number.");
    let (_, message, _) =
        expect_failure(expect_respond(resize_image(None, Some("a.png"), Some(""), &c)));
    assert_eq!(message, "width is required.");
    let (_, message, _) =
        expect_failure(expect_respond(resize_image(None, Some("a.png"), Some("0"), &c)));
    assert_eq!(message, "width should be greater than 0.");
    let restricted = config(false, &["o"]);
    let step = resize_image(Some("o"), Some("https://h/a.png"), Some("5"), &restricted);
    let (status, message, _) = expect_failure(expect_respond(step));
    assert_eq!(status, 400);
    assert_eq!(message, "image_url is invalid.");
}

#[test]
fn remote_source_is_fetched_as_it_stands() {
    let c = config(true, &[]);
    let req = expect_read(resize_image(None, Some("https://host/dir/a.jpeg"), Some("64"), &c));
    assert_eq!(req.url_type, UrlType::Http);
    assert_eq!(req.location, "https://host/dir/a.jpeg");
    assert_eq!(req.width, 64);
}

#[test]
fn failed_read_gives_a_generic_body() {
    let c = config(true, &[]);
    let req = request("/mnt/images/photo.png", 100);
    let cases = [
        (ReadFailure::Download, "Failed to download image"),
        (ReadFailure::RemoteBody, "Failed to read image from URL"),
        (ReadFailure::Storage, "Failed to read image from storage"),
    ];
    for (kind, headline) in cases {
        let error = ReadError { kind, cause: String::from("no such file") };
        assert_eq!(error.headline(), headline);
        assert_eq!(error.message(), format!("{}: no such file", headline));
        let response = image_loaded(&req, Err(error), &c);
        assert_eq!(response.status(), 500);
        let (status, message, detail) = expect_failure(response);
        assert_eq!(status, 500);
        assert_eq!(message, headline);
        assert_eq!(detail, format!("{}: no such file", headline));
    }
}

#[test]
fn undecodable_bytes_fail_for_a_resized_extension_only() {
    let c = config(true, &[]);
    let garbage = vec![1u8, 2, 3, 4, 5];
    let (status, message, detail) =
        expect_failure(image_loaded(&request("a.png", 10), Ok(garbage.clone()), &c));
    assert_eq!(status, 500);
    assert_eq!(message, "Failed to handle image");
    assert!(detail.starts_with("Failed to handle image: "));
    assert!(detail.len() > "Failed to handle image: ".len());
    let (content_type, _, _, body) =
        expect_image(image_loaded(&request("a.webp", 10), Ok(garbage.clone()), &c));
    assert_eq!(content_type, "image/webp");
    assert_eq!(body, garbage);
}

#[test]
fn content_type_trusts_the_extension() {
    let c = config(true, &[]);
    let png = file(8, 8, image::ImageFormat::Png);
    let (content_type, _, _, body) =
        expect_image(image_loaded(&request("a.gif", 4), Ok(png.clone()), &c));
    assert_eq!(content_type, "image/gif");
    assert_eq!(body, png);
    let (content_type, _, _, body) =
        expect_image(image_loaded(&request("a.jpeg", 8), Ok(png.clone()), &c));
    assert_eq!(content_type, "image/jpeg");
    assert_eq!(body, png);
    let (content_type, _, _, body) =
        expect_image(image_loaded(&request("a.jpg", 4), Ok(png.clone()), &c));
    assert_eq!(content_type, "image/webp");
    let out = image::load_from_memory(&body).unwrap();
    assert_eq!((out.width(), out.height()), (4, 4));
}

#[test]
fn equal_width_keeps_the_original() {
    let c = config(true, &[]);
    let png = file(40, 30, image::ImageFormat::Png);
    let (content_type, _, _, body) =
        expect_image(image_loaded(&request("a.png", 40), Ok(png.clone()), &c));
    assert_eq!(content_type, "image/png");
    assert_eq!(body, png);
    let (content_type, _, _, body) =
        expect_image(image_loaded(&request("a.png", 39), Ok(png.clone()), &c));
    assert_eq!(content_type, "image/webp");
    let out = image::load_from_memory(&body).unwrap();
    assert_eq!((out.width(), out.height()), (39, 29));
}

#[test]
fn same_request_gives_the_same_bytes() {
    let c = config(true, &[]);
    let png = file(120, 90, image::ImageFormat::Png);
    let req = request("/mnt/images/a.png", 50);
    let first = expect_image(image_loaded(&req, Ok(png.clone()), &c));
    let second = expect_image(image_loaded(&req, Ok(png.clone()), &c));
    assert_eq!(first, second);
    let a = expect_read(resize_image(None, Some("a.png"), Some("50"), &c));
    let b = expect_read(resize_image(None, Some("a.png"), Some("50"), &c));
    assert_eq!((a.url_type, a.location, a.width), (b.url_type, b.location, b.width));
}

#[test]
fn thumbnail_size_keeps_proportions() {
    assert_eq!(thumbnail_size(500, 300, 100), (100, 60));
    assert_eq!(thumbnail_size(500, 300, 9999), (500, 300));
    assert_eq!(thumbnail_size(500, 300, 500), (500, 300));
    assert_eq!(thumbnail_size(500, 300, 499), (499, 299));
    assert_eq!(thumbnail_size(3, 2, 2), (2, 1));
    assert_eq!(thumbnail_size(500, 1, 100), (100, 0));
    assert_eq!(thumbnail_size(1, 4000000000, 7), (1, 4000000000));
    assert_eq!(
        thumbnail_size(4000000000, 4000000000, 3000000000),
        (3000000000, 3000000000)
    );
    assert_eq!(thumbnail_size(10, 10, 0), (0, 0));
}

#[test]
fn should_resize_needs_extension_and_width() {
    assert!(should_resize("png", 500, 100));
    assert!(should_resize("jpg", 101, 100));
    assert!(should_resize("jpeg", 101, 100));
    assert!(!should_resize("png", 100, 100));
    assert!(!should_resize("png", 99, 100));
    assert!(!should_resize("gif", 500, 100));
    assert!(!should_resize("webp", 500, 100));
}

#[test]
fn decoded_image_needs_four_samples_a_pixel() {
    assert!(DecodedImage::new(2, 3, vec![0u8; 24]).is_some());
    assert!(DecodedImage::new(2, 3, vec![0u8; 23]).is_none());
    assert!(DecodedImage::new(2, 3, vec![0u8; 25]).is_none());
    assert!(DecodedImage::new(0, 3, Vec::new()).is_some());
    assert!(DecodedImage::new(4294967295, 4294967295, Vec::new()).is_none());
}

#[test]
fn decode_gives_rgba_samples() {
    let source = picture(5, 3);
    let img = decode(&file(5, 3, image::ImageFormat::Png)).unwrap();
    assert_eq!((img.width, img.height), (5, 3));
    assert_eq!(img.pixels, source.clone().into_raw());
    assert_eq!(img.pixels.len(), 60);
    assert!(decode(&[0u8, 1, 2]).is_err());
    assert!(decode(&[]).is_err());
}

#[test]
fn transcoding_a_picture_gives_webp_of_the_thumbnail() {
    let source = picture(500, 300);
    let img = DecodedImage::new(500, 300, source.clone().into_raw()).unwrap();
    let data = resize_image_to_webp(&img, 100).unwrap();
    assert_eq!(image::guess_format(&data).unwrap(), image::ImageFormat::WebP);
    let out = image::load_from_memory(&data).unwrap();
    assert_eq!((out.width(), out.height()), (100, 60));
    let expected = image::imageops::thumbnail(&source, 100, 60);
    assert_eq!(out.to_rgba8().into_raw(), expected.into_raw());
    let same_size = resize_image_to_webp(&img, 9999).unwrap();
    let out = image::load_from_memory(&same_size).unwrap();
    assert_eq!((out.width(), out.height()), (500, 300));
    assert_eq!(out.to_rgba8().into_raw(), source.into_raw());
}

#[test]
fn transcoding_to_no_pixels_fails() {
    let img = DecodedImage::new(500, 1, vec![7u8; 2000]).unwrap();
    let error = resize_image_to_webp(&img, 100).unwrap_err();
    assert!(error.starts_with("Failed to encode image to webp: "));
    let c = config(true, &[]);
    let (status, message, detail) =
        expect_failure(decoded_response("png", vec![1, 2, 3], Ok(img), 100, &c));
    assert_eq!(status, 500);
    assert_eq!(message, "Image processing failed");
    assert_eq!(detail, format!("Image processing failed: {}", error));
}

#[test]
fn decoded_response_compares_the_widths() {
    let c = config(true, &[]);
    let original = vec![9u8, 8, 7];
    let img = DecodedImage::new(4, 2, vec![200u8; 32]).unwrap();
    let (content_type, _, _, body) =
        expect_image(decoded_response("png", original.clone(), Ok(img), 4, &c));
    assert_eq!(content_type, "image/png");
    assert_eq!(body, original);
    let img = DecodedImage::new(4, 2, vec![200u8; 32]).unwrap();
    let (content_type, _, _, body) =
        expect_image(decoded_response("png", original.clone(), Ok(img), 2, &c));
    assert_eq!(content_type, "image/webp");
    let out = image::load_from_memory(&body).unwrap();
    assert_eq!((out.width(), out.height()), (2, 1));
    let img = DecodedImage::new(4, 2, vec![200u8; 32]).unwrap();
    let (content_type, _, _, body) =
        expect_image(decoded_response("gif", original.clone(), Ok(img), 2, &c));
    assert_eq!(content_type, "image/gif");
    assert_eq!(body, original);
    let (status, message, detail) = expect_failure(decoded_response(
        "png",
        original.clone(),
        Err(String::from("bad magic")),
        2,
        &c,
    ));
    assert_eq!(status, 500);
    assert_eq!(message, "Failed to handle image");
    assert_eq!(detail, "Failed to handle image: bad magic");
}

#[test]
fn transcoded_response_for_each_outcome() {
    let c = config(true, &[]);
    let (content_type, allow_origin, cache, body) =
        expect_image(transcoded_response(Ok(vec![1, 2, 3]), &c));
    assert_eq!(content_type, "image/webp");
    assert_eq!(allow_origin, "*");
    assert_eq!(cache, "public, max-age=86400, s-maxage=2592000");
    assert_eq!(body, vec![1, 2, 3]);
    let (status, message, detail) =
        expect_failure(transcoded_response(Err(String::from("boom")), &c));
    assert_eq!(status, 500);
    assert_eq!(message, "Image processing failed");
    assert_eq!(detail, "Image processing failed: boom");
}

#[test]
fn response_builders() {
    let mut c = config(true, &[]);
    c.max_age = 0;
    c.s_max_age = 4294967295;
    assert_eq!(cache_control(60, 3600), "public, max-age=60, s-maxage=3600");
    let (content_type, allow_origin, cache, body) =
        expect_image(create_image_response("image/png", vec![5, 6], &c));
    assert_eq!(content_type, "image/png");
    assert_eq!(allow_origin, "*");
    assert_eq!(cache, "public, max-age=0, s-maxage=4294967295");
    assert_eq!(body, vec![5, 6]);
    let (content_type, _, _, body) = expect_image(original_response("jpeg", vec![1], &c));
    assert_eq!(content_type, "image/jpeg");
    assert_eq!(body, vec![1]);
    assert_eq!(
        expect_failure(create_failure_response("Headline", "cause")),
        (500, String::from("Headline"), String::from("Headline: cause"))
    );
    assert_eq!(
        expect_failure(create_refusal(403, String::from("Invalid origin"))),
        (403, String::from("Invalid origin"), String::new())
    );
    assert_eq!(
        expect_failure(blocking_task_failed("cancelled")),
        (500, String::from("Blocking task failed"), String::from("Blocking task failed: cancelled"))
    );
}

#[test]
fn blocks_must_fit_a_sum_of_32_bits() {
    assert!(thumbnail_fits(500, 300, 100, 60));
    assert!(thumbnail_fits(500, 300, 500, 300));
    assert!(thumbnail_fits(4000, 4000, 1, 1));
    assert!(!thumbnail_fits(5000, 5000, 1, 1));
    assert!(thumbnail_fits(5000, 5000, 2, 2));
    assert!(thumbnail_fits(4194304, 1, 4194304, 1));
    assert!(!thumbnail_fits(4194305, 1, 4194305, 1));
    assert!(!thumbnail_fits(1, 4194305, 1, 1));
    assert!(thumbnail_fits(10, 10, 0, 0));
    assert!(thumbnail_fits(4294967295, 4294967295, 0, 7));
    assert!(!thumbnail_fits(10, 10, 20, 5));
    assert!(!thumbnail_fits(10, 10, 5, 20));
}

#[test]
fn a_picture_too_large_for_one_block_is_refused() {
    let img = DecodedImage::new(5000, 5000, vec![255u8; 100000000]).unwrap();
    let error = resize_image_to_webp(&img, 1).unwrap_err();
    assert_eq!(error, "Failed to resize image: the picture is too large for the requested width");
    let c = config(true, &[]);
    let (status, message, detail) =
        expect_failure(decoded_response("png", vec![1, 2, 3], Ok(img), 1, &c));
    assert_eq!(status, 500);
    assert_eq!(message, "Image processing failed");
    assert_eq!(detail, format!("Image processing failed: {}", error));
}

#[test]
fn the_largest_block_is_averaged_without_overflow() {
    let img = DecodedImage::new(4000, 4000, vec![255u8; 64000000]).unwrap();
    let data = resize_image_to_webp(&img, 1).unwrap();
    let out = image::load_from_memory(&data).unwrap();
    assert_eq!((out.width(), out.height()), (1, 1));
    assert_eq!(out.to_rgba8().into_raw(), vec![255u8, 255, 255, 255]);
}

#[test]
fn wide_widths_are_accepted() {
    let c = config(true, &[]);
    let req = expect_read(resize_image(None, Some("photo.png"), Some("3000000000"), &c));
    assert_eq!(req.width, 3000000000);
    let png = file(8, 8, image::ImageFormat::Png);
    let (content_type, _, _, body) = expect_image(image_loaded(&req, Ok(png.clone()), &c));
    assert_eq!(content_type, "image/png");
    assert_eq!(body, png);
}
