use realty::errors::AppError;
use realty::media::{
    picture_file_name, prepare_picture, rent_picture_path, rent_picture_url, sale_picture_path,
    sale_picture_url, validate_picture,
};

fn png_bytes() -> Vec<u8> {
    vec![0x89, 0x50, 0x4E, 0x47, 0x0D, 0x0A, 0x1A, 0x0A, 0x00]
}

fn jpeg_bytes() -> Vec<u8> {
    vec![0xFF, 0xD8, 0xFF, 0xE0, 0x00, 0x10]
}

fn gif_bytes() -> Vec<u8> {
    vec![0x47, 0x49, 0x46, 0x38, 0x39, 0x61]
}

#[test]
fn a_gif_renamed_to_png_is_rejected_by_its_bytes() {
    let r = prepare_picture(&Some("cat.png".to_string()), &gif_bytes());
    assert_eq!(r.unwrap_err(), AppError::InvalidInput);
}

#[test]
fn png_content_is_accepted() {
    let r = prepare_picture(&Some("My Garden.png".to_string()), &png_bytes());
    assert_eq!(r.unwrap(), "my-garden.png");
}

#[test]
fn jpeg_content_is_accepted() {
    let r = prepare_picture(&Some("photo.jpeg".to_string()), &jpeg_bytes());
    assert_eq!(r.unwrap(), "photo.jpeg");
}

#[test]
fn unknown_or_empty_content_is_rejected() {
    assert_eq!(
        validate_picture(&[0x00, 0x01, 0x02, 0x03]).unwrap_err(),
        AppError::InvalidInput
    );
    assert_eq!(validate_picture(&[]).unwrap_err(), AppError::InvalidInput);
}

#[test]
fn a_missing_file_name_is_rejected() {
    let r = prepare_picture(&None, &png_bytes());
    assert_eq!(r.unwrap_err(), AppError::InvalidInput);
}

#[test]
fn file_names_are_slugified_around_the_dots() {
    assert_eq!(picture_file_name("My Cool Photo!!.png"), "my-cool-photo.png");
    // The stem is everything before the first dot; the extension is
    // everything after the last one, kept as it came.
    assert_eq!(picture_file_name("my.photo.PNG"), "my.PNG");
    // With no dot the whole name stands in for both parts.
    assert_eq!(picture_file_name("photo"), "photo.photo");
}

#[test]
fn paths_and_urls_are_assembled_around_the_file_name() {
    assert_eq!(rent_picture_path("a.png"), "./uploaded/rents/a.png");
    assert_eq!(sale_picture_path("a.png"), "./uploaded/sales/a.png");
    assert_eq!(
        rent_picture_url("http://localhost:8080", "a.png"),
        "http://localhost:8080/rent-pictures/a.png"
    );
    assert_eq!(
        sale_picture_url("http://localhost:8080", "a.png"),
        "http://localhost:8080/sale-pictures/a.png"
    );
}
