use rustbot::attachments::{
    attachment_file_extension, attachment_paths, check_folders, download_url, exceeds_attachment_limit,
    generate_file_name, image_extension, image_file_paths, rotate_image, is_supported_image, join_path, original_folder, picture_size_allowed,
    rotated_folder,
};

#[test]
fn saved_extensions() {
    assert_eq!(attachment_file_extension("photo.PNG"), ".PNG");
    assert_eq!(attachment_file_extension("archive.tar.gz"), ".gz");
    assert_eq!(attachment_file_extension(".bashrc"), "");
    assert_eq!(attachment_file_extension("README"), "");
    assert_eq!(attachment_file_extension("clip.verylongext"), "");
    assert_eq!(attachment_file_extension("a.b-c"), "");
    assert_eq!(attachment_file_extension("trailing."), "");
    assert_eq!(attachment_file_extension(".."), "");
    assert_eq!(attachment_file_extension("dir/x.jpg"), ".jpg");
}

#[test]
fn paths_are_joined() {
    assert_eq!(join_path("data", "x"), "data/x");
    assert_eq!(join_path("data/", "x"), "data/x");
    assert_eq!(join_path("", "x"), "x");
    assert_eq!(join_path("data", "/abs"), "/abs");
    assert_eq!(original_folder(), "data/discord_images/original");
    assert_eq!(rotated_folder(), "data/discord_images/rotated");
}

#[test]
fn image_names_and_paths() {
    assert_eq!(generate_file_name("42".to_string(), "image/jpeg"), "42.jpg");
    assert_eq!(generate_file_name("42".to_string(), "image/png"), "42.png");
    assert_eq!(generate_file_name("42".to_string(), "text/plain"), "42.png");
    let (original, rotated) = image_file_paths("42".to_string(), "image/jpeg");
    assert_eq!(original, "data/discord_images/original/42.jpg");
    assert_eq!(rotated, "data/discord_images/rotated/42.jpg");
    let (dir, path) = attachment_paths("7", "8", "a.gif");
    assert_eq!(dir, "data/message_attachments/7");
    assert_eq!(path, "data/message_attachments/7/8.gif");
}

#[test]
fn image_checks() {
    assert!(check_folders(true, true, true));
    assert!(!check_folders(true, false, true));
    assert!(is_supported_image(Some("image/png")));
    assert!(is_supported_image(Some("image/jpeg")));
    assert!(!is_supported_image(Some("image/gif")));
    assert!(!is_supported_image(None));
    assert!(picture_size_allowed(Some(50_000_000)));
    assert!(!picture_size_allowed(Some(50_000_001)));
    assert!(!picture_size_allowed(None));
    assert!(exceeds_attachment_limit(50_000_001));
    assert!(!exceeds_attachment_limit(50_000_000));
    assert_eq!(download_url("", "proxy"), "proxy");
    assert_eq!(download_url("url", "proxy"), "url");
}

#[test]
fn images_turn_upside_down() {
    assert_eq!(image_extension("image/jpeg"), "jpg");
    assert_eq!(image_extension("image/png"), "png");
    let mut picture = image::RgbImage::new(2, 1);
    picture.put_pixel(0, 0, image::Rgb([255, 0, 0]));
    picture.put_pixel(1, 0, image::Rgb([0, 0, 255]));
    let mut bytes = std::io::Cursor::new(Vec::new());
    image::DynamicImage::ImageRgb8(picture).write_to(&mut bytes, image::ImageFormat::Png).unwrap();
    let bytes = bytes.into_inner();
    let rotated = rotate_image(&bytes, "image/png").unwrap();
    assert_ne!(rotated, bytes);
    let decoded = image::load_from_memory(&rotated).unwrap().to_rgb8();
    assert_eq!(decoded.get_pixel(0, 0), &image::Rgb([0, 0, 255]));
    assert_eq!(decoded.get_pixel(1, 0), &image::Rgb([255, 0, 0]));
    assert!(rotate_image(b"not an image", "image/png").is_none());
}
