use cgns::{dimensions_match, raw_to_string, to_c_string, to_fixed_buffer, CgnsDataType, GotoContext, INTEGER};
use cgns::{NAME_CAPACITY, SHORT_NAME_CAPACITY};

#[test]
fn trailing_nulls_are_trimmed() {
    let buf = b"Zone1\0\0\0";
    assert_eq!(raw_to_string(buf), Some("Zone1".to_string()));
}

#[test]
fn trims_at_first_null_of_full_buffer() {
    let mut buf = [0u8; NAME_CAPACITY];
    buf[..5].copy_from_slice(b"Elem\0");
    buf[5..9].copy_from_slice(b"junk");
    assert_eq!(raw_to_string(&buf), Some("Elem".to_string()));
}

#[test]
fn buffer_without_null_is_refused() {
    assert_eq!(raw_to_string(b"Zone1"), None);
    assert_eq!(raw_to_string(b""), None);
}

#[test]
fn buffer_with_invalid_text_is_refused() {
    assert_eq!(raw_to_string(&[0xff, 0xfe, 0]), None);
}

#[test]
fn empty_name_decodes_empty() {
    assert_eq!(raw_to_string(&[0u8; SHORT_NAME_CAPACITY]), Some(String::new()));
}

#[test]
fn longest_short_name_round_trips() {
    let name: String = std::iter::repeat('x').take(SHORT_NAME_CAPACITY - 1).collect();
    let mut buf = [0u8; SHORT_NAME_CAPACITY];
    buf[..SHORT_NAME_CAPACITY - 1].copy_from_slice(name.as_bytes());
    assert_eq!(raw_to_string(&buf), Some(name));
}

#[test]
fn non_ascii_name_round_trips() {
    let name = "Zoné";
    let mut buf = [0u8; NAME_CAPACITY];
    buf[..name.len()].copy_from_slice(name.as_bytes());
    assert_eq!(raw_to_string(&buf), Some(name.to_string()));
}

#[test]
fn c_string_is_null_terminated() {
    assert_eq!(to_c_string("Base"), Some(b"Base\0".to_vec()));
    assert_eq!(to_c_string(""), Some(vec![0u8]));
}

#[test]
fn c_string_refuses_inner_null() {
    assert_eq!(to_c_string("Ba\0se"), None);
}

#[test]
fn c_string_decodes_back() {
    let bytes = to_c_string("GridCoordinates").unwrap();
    assert_eq!(raw_to_string(&bytes), Some("GridCoordinates".to_string()));
}

#[test]
fn dimensions_matching_length() {
    assert!(dimensions_match(&[2, 3], 6));
    assert!(dimensions_match(&[6], 6));
    assert!(dimensions_match(&[3, 2, 1], 6));
    assert!(dimensions_match(&[-2, -3], 6));
}

#[test]
fn dimensions_not_matching_length() {
    assert!(!dimensions_match(&[2, 3], 5));
    assert!(!dimensions_match(&[2, 3], 7));
    assert!(!dimensions_match(&[-2, 3], 6));
}

#[test]
fn no_dimensions_never_match() {
    assert!(!dimensions_match(&[], 1));
    assert!(!dimensions_match(&[], 0));
}

#[test]
fn zero_dimension_matches_only_empty_data() {
    assert!(dimensions_match(&[4, 0, 7], 0));
    assert!(!dimensions_match(&[4, 0, 7], 28));
    assert!(!dimensions_match(&[4, 7], 0));
}

#[test]
fn huge_dimensions_do_not_overflow() {
    let d = [i32::MAX, i32::MAX, i32::MAX, i32::MAX, i32::MAX];
    assert!(!dimensions_match(&d, usize::MAX));
    assert!(dimensions_match(&[65536, 65536, 65536, 0], 0));
    assert!(dimensions_match(&[65536, 65536], 1usize << 32));
}

#[test]
fn goto_context_checks_array_shape() {
    let ctx = GotoContext::new(());
    assert!(ctx.array_fits(&[2, 2], 4));
    assert!(!ctx.array_fits(&[2, 2], 3));
}

#[test]
fn integer_type_tag() {
    assert_eq!(<i32 as CgnsDataType>::data_type(), INTEGER);
    assert_eq!(INTEGER, 2);
}

#[test]
fn fixed_buffer_is_padded_with_nulls() {
    assert_eq!(to_fixed_buffer("Zone1", 8), Some(b"Zone1\0\0\0".to_vec()));
    assert_eq!(to_fixed_buffer("", 2), Some(vec![0u8, 0u8]));
}

#[test]
fn fixed_buffer_needs_room_for_null() {
    assert_eq!(to_fixed_buffer("Zone1", 5), None);
    assert_eq!(to_fixed_buffer("Zone1", 6), Some(b"Zone1\0".to_vec()));
    assert_eq!(to_fixed_buffer("Zo\0ne", 64), None);
}

#[test]
fn fixed_buffer_of_full_length_name_round_trips() {
    let name: String = std::iter::repeat('n').take(NAME_CAPACITY - 1).collect();
    let buf = to_fixed_buffer(&name, NAME_CAPACITY).unwrap();
    assert_eq!(buf.len(), NAME_CAPACITY);
    assert_eq!(raw_to_string(&buf), Some(name));
}
