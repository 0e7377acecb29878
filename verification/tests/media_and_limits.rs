use pingcrm::media::Media;
use pingcrm::rate_limit::RateLimiterState;

fn media(filename: &str, mime: &str, path: &str) -> Media {
    Media {
        id: 1,
        filename: filename.to_string(),
        original_filename: filename.to_string(),
        file_path: path.to_string(),
        mime_type: mime.to_string(),
        file_size: 1024,
        width: None,
        height: None,
        uploaded_by: None,
        title: None,
        alt_text: None,
        caption: None,
        is_public: true,
    }
}

#[test]
fn thumbnails_of_images() {
    let m = media("photo.final.png", "image/png", "/uploads/photo.final.png");
    assert!(m.is_image());
    assert_eq!(m.original_path(), "public/uploads/photo.final.png");
    assert_eq!(m.generate_thumbnail_filename(150, 100, true), "photo.final-150x100-crop.png");
    assert_eq!(m.generate_thumbnail_filename(800, 800, false), "photo.final-800x800.png");
    let hash = m.path_hash();
    assert_eq!(hash.len(), 32);
    assert_eq!(hash, format!("{:x}", md5::compute("public/uploads/photo.final.png".as_bytes())));
    assert_ne!(hash, "public/uploads/photo.final.png");
    assert_eq!(
        m.get_thumbnail_url(None, Some(200), false),
        format!("/media/images/default/{}/photo.final-300x200.png", hash)
    );
    assert_eq!(
        m.get_thumbnail_path(10, 20, true),
        format!("public/media/images/default/{}/photo.final-10x20-crop.png", hash)
    );
}

#[test]
fn files_without_extension_get_jpg_thumbnails() {
    let m = media("scan", "image/tiff", "scan");
    assert_eq!(m.generate_thumbnail_filename(1, 2, false), "scan-1x2.jpg");
}

#[test]
fn other_files_are_served_from_uploads() {
    let m = media("report.pdf", "application/pdf", "/docs/report.pdf");
    assert!(!m.is_image());
    assert_eq!(m.get_url(), "/uploads/tus/report.pdf");
    assert_eq!(m.get_thumbnail_url(Some(1), Some(1), true), "/uploads/tus/report.pdf");
    assert_eq!(m.disk(), "default");
}

#[test]
fn a_client_gets_a_hundred_requests_a_minute() {
    let mut limiter = RateLimiterState::new();
    let t0: u64 = 1_000;
    for _ in 0..100 {
        assert!(limiter.check("10.0.0.1", t0));
    }
    assert!(!limiter.check("10.0.0.1", t0 + 1));
    assert!(limiter.check("10.0.0.2", t0 + 1));
    assert!(!limiter.check("10.0.0.1", t0 + 60_000_000_000));
    assert!(limiter.check("10.0.0.1", t0 + 60_000_000_001));
}
