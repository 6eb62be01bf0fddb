use body_compat::compat::Compat;
use body_compat::size_hint::SizeHint;
use body_compat::trailers::{convert_one, convert_trailers, field_from_name, Field};

fn field(n: &[u8], v: &[u8]) -> Field {
    Field { name: n.to_vec(), value: v.to_vec() }
}

fn bytes(f: &Option<Field>) -> Option<(Vec<u8>, Vec<u8>)> {
    f.as_ref().map(|f| (f.name.clone(), f.value.clone()))
}

#[test]
fn name_is_normalized_to_lower_case() {
    let r = convert_one(&field(b"X-Checksum", b"abc"));
    assert_eq!(bytes(&r), Some((b"x-checksum".to_vec(), b"abc".to_vec())));
}

#[test]
fn standard_name_converts() {
    let r = convert_one(&field(b"Content-Length", b"12"));
    assert_eq!(bytes(&r), Some((b"content-length".to_vec(), b"12".to_vec())));
}

#[test]
fn long_name_converts() {
    let name = vec![b'a'; 100];
    let r = convert_one(&field(&name, b"v"));
    assert_eq!(bytes(&r), Some((name, b"v".to_vec())));
}

#[test]
fn empty_name_is_refused() {
    assert!(convert_one(&field(b"", b"v")).is_none());
}

#[test]
fn name_with_space_is_refused() {
    assert!(convert_one(&field(b"bad field", b"v")).is_none());
}

#[test]
fn value_with_control_byte_is_refused() {
    assert!(convert_one(&field(b"x", b"a\nb")).is_none());
    assert!(convert_one(&field(b"x", b"a\x7f")).is_none());
}

#[test]
fn value_with_tab_and_high_bytes_converts() {
    let r = convert_one(&field(b"x", b"a\tb\xff"));
    assert_eq!(bytes(&r), Some((b"x".to_vec(), b"a\tb\xff".to_vec())));
}

#[test]
fn empty_value_converts() {
    let r = convert_one(&field(b"x", b""));
    assert_eq!(bytes(&r), Some((b"x".to_vec(), Vec::new())));
}

#[test]
fn field_from_accepted_name() {
    let r = field_from_name(Some(b"n".to_vec()), &b"v".to_vec());
    assert_eq!(bytes(&r), Some((b"n".to_vec(), b"v".to_vec())));
}

#[test]
fn field_from_refused_name() {
    assert!(field_from_name(None, &b"v".to_vec()).is_none());
}

#[test]
fn field_from_name_with_bad_value() {
    assert!(field_from_name(Some(b"n".to_vec()), &b"\x00".to_vec()).is_none());
}

#[test]
fn trailer_set_keeps_order_and_drops_refused() {
    let set = vec![field(b"B", b"2"), field(b"a b", b"1"), field(b"A", b"1"), field(b"c", b"\r")];
    let r: Vec<(Vec<u8>, Vec<u8>)> =
        convert_trailers(&set).into_iter().map(|f| (f.name, f.value)).collect();
    assert_eq!(r, vec![(b"b".to_vec(), b"2".to_vec()), (b"a".to_vec(), b"1".to_vec())]);
}

#[test]
fn empty_trailer_set_converts_to_empty() {
    assert!(convert_trailers(&Vec::new()).is_empty());
}

#[test]
fn size_hint_passes_bounds_through() {
    let c: Compat<String> = Compat::new();
    let mut source = SizeHint::new();
    source.set_upper(10);
    source.set_lower(4);
    let r = c.size_hint(&source);
    assert_eq!(r.lower(), 4);
    assert_eq!(r.upper(), Some(10));
}

#[test]
fn size_hint_without_upper_bound() {
    let c: Compat<String> = Compat::new();
    let mut source = SizeHint::new();
    source.set_lower(7);
    let r = c.size_hint(&source);
    assert_eq!(r.lower(), 7);
    assert_eq!(r.upper(), None);
}

#[test]
fn size_hint_of_unknown_source() {
    let c: Compat<String> = Compat::new();
    let r = c.size_hint(&SizeHint::new());
    assert_eq!(r.lower(), 0);
    assert_eq!(r.upper(), None);
}

#[test]
fn size_hint_exact() {
    let c: Compat<String> = Compat::new();
    let mut source = SizeHint::new();
    source.set_upper(u64::MAX);
    source.set_lower(u64::MAX);
    let r = c.size_hint(&source);
    assert_eq!(r.lower(), u64::MAX);
    assert_eq!(r.upper(), Some(u64::MAX));
}
