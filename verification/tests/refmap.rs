use builder::refmap::RefMap;

#[test]
fn ref_map_maps_success() {
    let r: Result<String, u8> = Ok("abc".to_string());
    assert_eq!(r.ref_map(|s| s.len()), Ok(3));
}

#[test]
fn ref_map_passes_error() {
    let r: Result<String, u8> = Err(7);
    assert_eq!(r.ref_map(|s| s.len()), Err(7));
}
