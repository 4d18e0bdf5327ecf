use slatehub_api::error::AppError;
use slatehub_api::storage::{
    content_type_for_extension, is_supported_content_type, StorageService, MAX_IMAGE_BYTES,
};

fn bad_request_message(r: Result<(), AppError>) -> String {
    match r {
        Err(AppError::BadRequest(m)) => m,
        Err(e) => panic!("unexpected error kind: {}", e.message()),
        Ok(()) => panic!("expected a rejection"),
    }
}

#[test]
fn empty_payload_is_rejected() {
    let svc = StorageService::new();
    let m = bad_request_message(svc.validate_image(&[], "image/png"));
    assert_eq!(m, "Empty image data");
    assert!(svc.upload_image(&[], "image/jpeg").is_err());
}

#[test]
fn payload_over_ten_megabytes_is_rejected() {
    let svc = StorageService::new();
    let data = vec![0u8; 10 * 1024 * 1024 + 1];
    let m = bad_request_message(svc.validate_image(&data, "image/png"));
    assert_eq!(m, "Image too large (max 10MB)");
    assert!(svc.upload_image(&data, "image/png").is_err());
}

#[test]
fn payload_of_exactly_ten_megabytes_is_accepted() {
    let svc = StorageService::new();
    let data = vec![0u8; MAX_IMAGE_BYTES];
    assert_eq!(MAX_IMAGE_BYTES, 10485760);
    assert!(svc.validate_image(&data, "image/webp").is_ok());
    assert!(svc.upload_image(&data, "image/webp").is_ok());
}

#[test]
fn unsupported_content_type_is_rejected() {
    let svc = StorageService::new();
    let m = bad_request_message(svc.validate_image(&[1, 2, 3], "text/plain"));
    assert_eq!(m, "Unsupported image format. Supported formats: JPEG, PNG, WebP");
    assert!(svc.upload_image(&[1, 2, 3], "text/plain").is_err());
    assert!(svc.validate_image(&[1], "image/gif").is_err());
    assert!(svc.validate_image(&[1], "IMAGE/PNG").is_err());
    assert!(!is_supported_content_type("text/plain"));
}

#[test]
fn supported_content_types_are_accepted() {
    let svc = StorageService::new();
    for ct in ["image/jpeg", "image/jpg", "image/png", "image/webp"] {
        assert!(is_supported_content_type(ct));
        assert!(svc.validate_image(&[0xff, 0xd8], ct).is_ok());
        assert!(svc.upload_image(&[0xff, 0xd8], ct).is_ok());
    }
}

#[test]
fn file_extensions_follow_content_type() {
    let svc = StorageService::new();
    assert_eq!(svc.get_file_extension("image/jpeg"), ".jpg");
    assert_eq!(svc.get_file_extension("image/jpg"), ".jpg");
    assert_eq!(svc.get_file_extension("image/png"), ".png");
    assert_eq!(svc.get_file_extension("image/webp"), ".webp");
    assert_eq!(svc.get_file_extension("text/plain"), ".bin");
}

#[test]
fn content_type_follows_file_extension() {
    let svc = StorageService::new();
    assert_eq!(svc.get_content_type_from_filename("a.jpg"), "image/jpeg");
    assert_eq!(svc.get_content_type_from_filename("a.jpeg"), "image/jpeg");
    assert_eq!(svc.get_content_type_from_filename("a.png"), "image/png");
    assert_eq!(svc.get_content_type_from_filename("dir/b.webp"), "image/webp");
    assert_eq!(svc.get_content_type_from_filename("a.tar.png"), "image/png");
    assert_eq!(svc.get_content_type_from_filename("a.gif"), "application/octet-stream");
    assert_eq!(svc.get_content_type_from_filename("noext"), "application/octet-stream");
    assert_eq!(svc.get_content_type_from_filename(".png"), "application/octet-stream");
    assert_eq!(svc.get_content_type_from_filename("a.PNG"), "application/octet-stream");
    assert_eq!(content_type_for_extension(Some("webp")), "image/webp");
    assert_eq!(content_type_for_extension(None), "application/octet-stream");
}

#[test]
fn uploaded_name_gives_back_its_content_type() {
    let svc = StorageService::new();
    for (ct, ext, served) in [
        ("image/jpeg", ".jpg", "image/jpeg"),
        ("image/jpg", ".jpg", "image/jpeg"),
        ("image/png", ".png", "image/png"),
        ("image/webp", ".webp", "image/webp"),
    ] {
        let t = match svc.upload_image(&[1, 2, 3], ct) {
            Ok(t) => t,
            Err(e) => panic!("upload refused: {}", e.message()),
        };
        let name = t.storage_filename.clone();
        assert_eq!(name.len(), 36 + ext.len());
        assert!(name.ends_with(ext));
        let id = &name[..36];
        for (i, c) in id.chars().enumerate() {
            if i == 8 || i == 13 || i == 18 || i == 23 {
                assert_eq!(c, '-');
            } else {
                assert!(c.is_ascii_hexdigit() && !c.is_ascii_uppercase());
            }
        }
        assert_eq!(t.storage_path, format!("./uploads/{}", name));
        assert_eq!(svc.get_content_type_from_filename(&name), served);
    }
}

#[test]
fn uploads_get_distinct_names() {
    let svc = StorageService::new();
    let a = svc.upload_image(&[1], "image/png").ok().map(|t| t.storage_filename);
    let b = svc.upload_image(&[1], "image/png").ok().map(|t| t.storage_filename);
    assert!(a.is_some());
    assert_ne!(a, b);
}

#[test]
fn image_url_and_file_path() {
    let svc = StorageService::new();
    assert_eq!(svc.storage_path, "./uploads");
    assert_eq!(svc.get_image_url("abc.png"), "/api/images/abc.png");
    assert_eq!(svc.file_path("abc.png"), "./uploads/abc.png");
    let other = StorageService::with_path("/srv/img".to_string());
    assert_eq!(other.file_path("x.jpg"), "/srv/img/x.jpg");
}

#[test]
fn error_constructors_keep_kind_and_message() {
    assert!(matches!(AppError::not_found("Image not found"), AppError::NotFound(m) if m == "Image not found"));
    assert!(matches!(AppError::storage("disk"), AppError::Storage(m) if m == "disk"));
    assert_eq!(AppError::bad_request("bad").message(), "bad");
}
