use generative_art::web::{cache_image, get_image, get_index, rocket, ImageQueryError};

#[test]
fn malformed_hex_is_refused() {
    let cache = rocket();
    assert_eq!(get_image("zz", &cache), Err(ImageQueryError::InvalidHex));
    assert_eq!(get_image("0g", &cache), Err(ImageQueryError::InvalidHex));
    // An odd number of digits cannot decode either.
    assert_eq!(get_image("abc", &cache), Err(ImageQueryError::InvalidHex));
}

#[test]
fn wrong_hash_length_is_refused_with_the_length() {
    let cache = rocket();
    assert_eq!(get_image("abcd", &cache), Err(ImageQueryError::WrongLength(2)));
    let long = "00".repeat(40);
    assert_eq!(get_image(&long, &cache), Err(ImageQueryError::WrongLength(40)));
}

#[test]
fn lookup_misses_and_hits() {
    let mut cache = rocket();
    let hash_hex = "0a".repeat(32);
    assert_eq!(get_image(&hash_hex, &cache), Err(ImageQueryError::NotFound));

    let hash_bytes = vec![0x0au8; 32];
    let png = vec![137u8, 80, 78, 71, 1, 2, 3];
    cache_image(&mut cache, hash_bytes, png.clone());
    assert_eq!(get_image(&hash_hex, &cache), Ok(png));

    // Uppercase digits decode to the same hash.
    let upper = "0A".repeat(32);
    assert!(get_image(&upper, &cache).is_ok());
}

#[test]
fn replacing_a_cached_image_keeps_the_newest() {
    let mut cache = rocket();
    let hash = vec![1u8; 32];
    cache_image(&mut cache, hash.clone(), vec![1, 2, 3]);
    cache_image(&mut cache, hash, vec![4, 5, 6]);
    let hex_hash = "01".repeat(32);
    assert_eq!(get_image(&hex_hash, &cache), Ok(vec![4, 5, 6]));
}

#[test]
fn index_page_is_served() {
    let page = get_index();
    assert!(!page.is_empty());
    assert!(page.contains("html"));
}
