use pulsar_core::image::{Image, ImageError, MAX_IMAGE_LEN};

#[test]
fn empty_string_encodes_to_all_zero_buffer() {
    let img = Image::from_str("").unwrap();
    assert_eq!(img.as_bytes().len(), MAX_IMAGE_LEN);
    assert!(img.as_bytes().iter().all(|b| *b == 0));
    assert_eq!(img.display_string(), "");
}

#[test]
fn longest_accepted_path_has_one_byte_of_padding() {
    let path = "a".repeat(MAX_IMAGE_LEN - 1);
    let img = Image::from_str(&path).unwrap();
    assert_eq!(img.as_bytes()[MAX_IMAGE_LEN - 2], b'a');
    assert_eq!(img.as_bytes()[MAX_IMAGE_LEN - 1], 0);
    assert_eq!(img.display_string(), path);
}

#[test]
fn path_at_capacity_is_refused() {
    let path = "a".repeat(MAX_IMAGE_LEN);
    assert!(matches!(Image::from_str(&path), Err(ImageError::TooLong)));
}

#[test]
fn non_ascii_path_is_refused() {
    assert!(matches!(Image::from_str("/usr/bin/caff\u{e8}"), Err(ImageError::NotAscii)));
}

#[test]
fn display_stops_at_first_zero_byte() {
    let img = Image::from_str("/usr/bin/true").unwrap();
    assert_eq!(img.display_string(), "/usr/bin/true");
    assert_eq!(img.as_bytes()[..13], *b"/usr/bin/true");
    assert_eq!(img.as_bytes()[13], 0);
}

#[test]
fn same_key_compares_buffer_contents() {
    let a = Image::from_str("/bin/sh").unwrap();
    let b = Image::from_str("/bin/sh").unwrap();
    let c = Image::from_str("/bin/zsh").unwrap();
    assert!(a.same_key(&b));
    assert!(!a.same_key(&c));
}
