use serv::filetype::FileType;
use serv::keys::{check_key, generate_key, make_storage_key};
use serv::server::{
    content_type, decide_upload, get_file, make_public_url, upload, upload_with_stem,
    ServerConfig, UploadError,
};
use serv::store::Store;

fn config() -> ServerConfig {
    ServerConfig {
        api_key: "wawawa".to_string(),
        public_base: "http://localhost:8080".to_string(),
    }
}

fn png_body() -> Vec<u8> {
    vec![0x89, 0x50, 0x4e, 0x47, 0x0d, 0x0a, 0x1a, 0x0a, 0x10, 0x20, 0x30]
}

fn jpeg_body() -> Vec<u8> {
    vec![0xff, 0xd8, 0xff, 0x00, 0x01, 0x02, 0xff, 0xd9]
}

fn is_alnum(c: char) -> bool {
    c.is_ascii_lowercase() || c.is_ascii_uppercase() || c.is_ascii_digit()
}

#[test]
fn storage_keys_are_stem_dot_extension() {
    let key = make_storage_key("abc1234", &FileType::Png);
    assert_eq!(key, "abc1234.png");
    let key = make_storage_key("XYZ0009", &FileType::Jpg);
    assert_eq!(key, "XYZ0009.jpeg");
}

#[test]
fn generated_keys_are_fresh_wellformed_names() {
    let key = generate_key(&FileType::Png);
    assert_eq!(key.len(), 11);
    assert!(key.ends_with(".png"));
    assert!(key[..7].chars().all(is_alnum));

    let key = generate_key(&FileType::Jpg);
    assert_eq!(key.len(), 12);
    assert!(key.ends_with(".jpeg"));
    assert!(key[..7].chars().all(is_alnum));
}

#[test]
fn check_key_accepts_the_generated_shape_only() {
    assert_eq!(check_key("abc1234.png"), Some(FileType::Png));
    assert_eq!(check_key("A1b2C3d.jpeg"), Some(FileType::Jpg));
    assert_eq!(check_key(""), None);
    assert_eq!(check_key("abc1234.gif"), None);
    assert_eq!(check_key("abc1234png"), None);
    assert_eq!(check_key("abcd.png"), None);
    assert_eq!(check_key("abc!234.png"), None);
    assert_eq!(check_key("../../etc/passwd"), None);
    assert_eq!(check_key("..\\boot.ini"), None);
}

#[test]
fn upload_roundtrip_png() {
    // POST /upload with a PNG-signed body and the correct credential: the
    // answer is {public_base}/{7-char}.png, and a GET on that key returns
    // the original bytes under Content-Type: image/png.
    let cfg = config();
    let mut store = Store::new();
    let body = png_body();
    let credential = "wawawa".to_string();

    let url = upload(&cfg, Some(&credential), body.clone(), &mut store).unwrap();
    let prefix = "http://localhost:8080/";
    assert!(url.starts_with(prefix));
    let key = url[prefix.len()..].to_string();
    assert_eq!(key.len(), 11);
    assert!(key.ends_with(".png"));
    assert!(key[..7].chars().all(is_alnum));

    let (ctype, bytes) = get_file(&store, &key).unwrap();
    assert_eq!(ctype, "image/png");
    assert_eq!(bytes, body);
}

#[test]
fn upload_roundtrip_jpeg() {
    let cfg = config();
    let mut store = Store::new();
    let body = jpeg_body();
    let credential = "wawawa".to_string();

    let url = upload(&cfg, Some(&credential), body.clone(), &mut store).unwrap();
    let key = url["http://localhost:8080/".len()..].to_string();
    assert!(key.ends_with(".jpeg"));

    let (ctype, bytes) = get_file(&store, &key).unwrap();
    assert_eq!(ctype, "image/jpeg");
    assert_eq!(bytes, body);
}

#[test]
fn wrong_credential_is_unauthorized_whatever_the_payload() {
    let cfg = config();
    let mut store = Store::new();
    let wrong = "guess".to_string();

    let r = upload(&cfg, Some(&wrong), png_body(), &mut store);
    assert_eq!(r, Err(UploadError::AuthInvalid));

    let r = upload(&cfg, Some(&wrong), b"not an image".to_vec(), &mut store);
    assert_eq!(r, Err(UploadError::AuthInvalid));

    assert_eq!(UploadError::AuthInvalid.status_code(), 401);
    assert_eq!(UploadError::AuthInvalid.reason(), "Invalid API key");
}

#[test]
fn missing_credential_is_a_bad_request() {
    let cfg = config();
    let mut store = Store::new();
    let r = upload(&cfg, None, png_body(), &mut store);
    assert_eq!(r, Err(UploadError::AuthMissing));
    assert_eq!(UploadError::AuthMissing.status_code(), 400);
    assert_eq!(UploadError::AuthMissing.reason(), "`Authorization` header is missing");
}

#[test]
fn invalid_image_fails_the_precondition() {
    // POST /upload with b"not an image" and the correct credential: 412,
    // reason "Invalid image."
    let cfg = config();
    let mut store = Store::new();
    let credential = "wawawa".to_string();
    let r = upload(&cfg, Some(&credential), b"not an image".to_vec(), &mut store);
    assert_eq!(r, Err(UploadError::ValidationFailed));
    assert_eq!(UploadError::ValidationFailed.status_code(), 412);
    assert_eq!(UploadError::ValidationFailed.reason(), "Invalid image.");
}

#[test]
fn truncated_png_still_uploads() {
    // Intended but notable: only the signature is checked, never the image
    // structure, so a payload cut off right after the PNG signature is
    // accepted and stored as it is.
    let cfg = config();
    let mut store = Store::new();
    let credential = "wawawa".to_string();
    let body = vec![0x89, 0x50, 0x4e, 0x47, 0x0d, 0x0a, 0x1a, 0x0a];

    let url = upload(&cfg, Some(&credential), body.clone(), &mut store).unwrap();
    let key = url["http://localhost:8080/".len()..].to_string();
    let (ctype, bytes) = get_file(&store, &key).unwrap();
    assert_eq!(ctype, "image/png");
    assert_eq!(bytes, body);
}

#[test]
fn decide_upload_orders_its_checks() {
    let cfg = config();
    // A missing credential is rejected before the payload is looked at.
    assert_eq!(decide_upload(&cfg, None, &b"not an image".to_vec()), Err(UploadError::AuthMissing));
    let credential = "wawawa".to_string();
    assert_eq!(decide_upload(&cfg, Some(&credential), &png_body()), Ok(FileType::Png));
    assert_eq!(decide_upload(&cfg, Some(&credential), &jpeg_body()), Ok(FileType::Jpg));
}

#[test]
fn fetching_a_never_stored_key_is_not_found() {
    let store = Store::new();
    assert!(get_file(&store, &"abc1234.png".to_string()).is_none());
}

#[test]
fn fetching_a_traversal_key_never_escapes_the_root() {
    let cfg = config();
    let mut store = Store::new();
    let credential = "wawawa".to_string();
    upload(&cfg, Some(&credential), png_body(), &mut store).unwrap();

    assert!(get_file(&store, &"../../etc/passwd".to_string()).is_none());
    assert!(get_file(&store, &"..".to_string()).is_none());
    assert!(get_file(&store, &"a/b.png".to_string()).is_none());
    assert!(get_file(&store, &"..\\x.png".to_string()).is_none());
}

#[test]
fn no_collision_check_is_made_on_generated_keys() {
    // Generate-and-write without checking: a second upload that draws an
    // already used stem succeeds all the same and overwrites the first
    // payload. The gap is by design, and this documents it.
    let cfg = config();
    let mut store = Store::new();
    let credential = "wawawa".to_string();
    let first = png_body();
    let mut second = png_body();
    second.push(0x99);

    let url1 = upload_with_stem(&cfg, Some(&credential), first, "aaaaaaa", &mut store).unwrap();
    let url2 =
        upload_with_stem(&cfg, Some(&credential), second.clone(), "aaaaaaa", &mut store).unwrap();
    assert_eq!(url1, url2);
    assert_eq!(url1, "http://localhost:8080/aaaaaaa.png");

    let (_, bytes) = get_file(&store, &"aaaaaaa.png".to_string()).unwrap();
    assert_eq!(bytes, second);
}

#[test]
fn stored_bytes_are_exactly_the_received_bytes() {
    let mut store = Store::new();
    let body = vec![1u8, 2, 3, 4, 5];
    store.put("k1..png".to_string(), body.clone());
    assert_eq!(store.get(&"k1..png".to_string()), Some(&body));
    assert!(store.exists_key(&"k1..png".to_string()));
    assert!(!store.exists_key(&"other".to_string()));
    assert_eq!(store.get(&"other".to_string()), None);
}

#[test]
fn public_urls_join_base_and_key() {
    assert_eq!(make_public_url("http://h", "k.png"), "http://h/k.png");
    assert_eq!(content_type(&FileType::Png), "image/png");
    assert_eq!(content_type(&FileType::Jpg), "image/jpeg");
}
