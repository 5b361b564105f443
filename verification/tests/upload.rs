use server::upload::{
    delete_image, is_image_field, stored_image, upload_image, InvalidFilename, UploadError,
};

fn png_bytes() -> Vec<u8> {
    let pixels = image::RgbImage::from_pixel(3, 2, image::Rgb([200, 10, 30]));
    let mut bytes = std::io::Cursor::new(Vec::new());
    image::DynamicImage::ImageRgb8(pixels)
        .write_to(&mut bytes, image::ImageFormat::Png)
        .unwrap();
    bytes.into_inner()
}

#[test]
fn an_address_elsewhere_names_no_stored_file() {
    assert_eq!(delete_image("https://example.com/a.jpg"), Ok(None));
    assert_eq!(delete_image(""), Ok(None));
    assert_eq!(delete_image("/uploads"), Ok(None));
    assert_eq!(delete_image("uploads/a.jpg"), Ok(None));
    assert_eq!(delete_image("/Uploads/a.jpg"), Ok(None));
    assert_eq!(delete_image("/static/uploads/a.jpg"), Ok(None));
}

#[test]
fn an_address_under_the_upload_path_names_its_file() {
    assert_eq!(delete_image("/uploads/a.jpg"), Ok(Some(String::from("a.jpg"))));
    assert_eq!(delete_image("/uploads/.hidden"), Ok(Some(String::from(".hidden"))));
    assert_eq!(delete_image("/uploads/a.b.c"), Ok(Some(String::from("a.b.c"))));
    assert_eq!(
        delete_image("/uploads/f\u{00fc}r \u{732b}.jpg"),
        Ok(Some(String::from("f\u{00fc}r \u{732b}.jpg")))
    );
}

#[test]
fn the_upload_path_alone_names_the_empty_file_name() {
    assert_eq!(delete_image("/uploads/"), Ok(Some(String::new())));
}

#[test]
fn a_file_name_that_could_leave_the_directory_is_refused() {
    assert_eq!(delete_image("/uploads/../secret"), Err(InvalidFilename));
    assert_eq!(delete_image("/uploads/.."), Err(InvalidFilename));
    assert_eq!(delete_image("/uploads/a..b"), Err(InvalidFilename));
    assert_eq!(delete_image("/uploads/a/b.jpg"), Err(InvalidFilename));
    assert_eq!(delete_image("/uploads//"), Err(InvalidFilename));
    assert_eq!(delete_image("/uploads/a\\b.jpg"), Err(InvalidFilename));
    assert_eq!(delete_image("/uploads/x.jpg/"), Err(InvalidFilename));
}

#[test]
fn only_the_field_named_image_holds_the_image() {
    assert!(is_image_field("image"));
    assert!(!is_image_field("Image"));
    assert!(!is_image_field("images"));
    assert!(!is_image_field("imag"));
    assert!(!is_image_field(""));
    assert!(!is_image_field(" image"));
}

#[test]
fn an_image_is_stored_under_a_fresh_name() {
    let stored = upload_image(&png_bytes()).unwrap();
    assert_eq!(stored.image.width(), 3);
    assert_eq!(stored.image.height(), 2);
    let name = stored.file_path.strip_prefix("uploads/").unwrap();
    let id = name.strip_suffix(".jpg").unwrap();
    let parsed = uuid::Uuid::parse_str(id).unwrap();
    assert_eq!(parsed.get_version_num(), 4);
    assert_eq!(parsed.to_string(), id);
    assert_eq!(stored.response.url(), &format!("/uploads/{}", name));
}

#[test]
fn two_uploads_get_two_names() {
    let first = upload_image(&png_bytes()).unwrap();
    let second = upload_image(&png_bytes()).unwrap();
    assert_ne!(first.file_path, second.file_path);
    assert_ne!(first.response.url(), second.response.url());
}

#[test]
fn the_address_of_an_upload_names_the_file_it_stored() {
    let stored = upload_image(&png_bytes()).unwrap();
    let name = delete_image(stored.response.url()).unwrap().unwrap();
    assert_eq!(format!("uploads/{}", name), stored.file_path);
}

#[test]
fn bytes_that_are_no_image_are_turned_down() {
    match upload_image(b"this is no image") {
        Err(error) => {
            assert!(matches!(error, UploadError::InvalidImage(_)));
            assert_eq!(error.status(), 400);
            assert!(error.message().starts_with("Invalid image format: "));
            assert!(error.message().len() > "Invalid image format: ".len());
        }
        Ok(_) => panic!("these bytes decode to nothing"),
    }
    assert!(matches!(upload_image(&[]), Err(UploadError::InvalidImage(_))));
}

#[test]
fn the_reason_of_the_decoder_is_handed_on() {
    let bytes = b"this is no image";
    let reason = image::load_from_memory(bytes).err().unwrap().to_string();
    match upload_image(bytes) {
        Err(error) => assert_eq!(error.message(), format!("Invalid image format: {}", reason)),
        Ok(_) => panic!("these bytes decode to nothing"),
    }
}

#[test]
fn a_truncated_image_is_turned_down() {
    let bytes = png_bytes();
    assert!(matches!(upload_image(&bytes[..bytes.len() / 2]), Err(UploadError::InvalidImage(_))));
}

#[test]
fn a_decoded_image_is_named_after_its_identifier() {
    let decoded = image::load_from_memory(&png_bytes()).map_err(|error| error.to_string());
    let stored = stored_image("abc", decoded).unwrap();
    assert_eq!(stored.file_path, "uploads/abc.jpg");
    assert_eq!(stored.response.url(), "/uploads/abc.jpg");
    assert_eq!(stored.image.width(), 3);
}

#[test]
fn a_decoding_error_names_nothing() {
    match stored_image("abc", Err(String::from("unknown format"))) {
        Err(error) => {
            assert_eq!(error.status(), 400);
            assert_eq!(error.message(), "Invalid image format: unknown format");
        }
        Ok(_) => panic!("an error stores nothing"),
    }
}

#[test]
fn upload_errors_answer_with_status_and_text() {
    let malformed = UploadError::MalformedBody(String::from("bad boundary"));
    assert_eq!((malformed.status(), malformed.message()), (400, String::from("bad boundary")));
    let unreadable = UploadError::UnreadableField(String::from("stream ended"));
    assert_eq!((unreadable.status(), unreadable.message()), (500, String::from("stream ended")));
    let invalid = UploadError::InvalidImage(String::from("unknown format"));
    assert_eq!(
        (invalid.status(), invalid.message()),
        (400, String::from("Invalid image format: unknown format"))
    );
    let failed = UploadError::SaveFailed(String::from("disk full"));
    assert_eq!(
        (failed.status(), failed.message()),
        (500, String::from("Failed to save image: disk full"))
    );
    assert_eq!(UploadError::MissingImage.status(), 400);
    assert_eq!(UploadError::MissingImage.message(), "No image field found");
}
