use overlay_hook::signatures::{resolve_all, SignatureEntry};

fn entry(name: &str, pattern: &[u8], mask: &str) -> SignatureEntry {
    SignatureEntry { name: String::from(name), pattern: pattern.to_vec(), mask: String::from(mask) }
}

#[test]
fn a_signature_resolves_to_base_plus_offset() {
    let image = [0x90u8, 0x55, 0x8B, 0xEC, 0xC3];
    let sig = entry("ServerCmd", &[0x55, 0x8B, 0xEC], "xxx");
    assert_eq!(sig.resolve(&image, 0x40_0000), Some(0x40_0001));
}

#[test]
fn a_wildcarded_signature_resolves() {
    let image = [0x55u8, 0x8B, 0x11, 0xEC];
    let sig = entry("ClientCmd", &[0x8B, 0x00, 0xEC], "x?x");
    assert_eq!(sig.resolve(&image, 0x40_0000), Some(0x40_0001));
}

#[test]
fn a_missing_signature_does_not_resolve() {
    let image = [0x90u8, 0x90, 0x90];
    let sig = entry("GetMaxClients", &[0x55, 0x8B], "xx");
    assert_eq!(sig.resolve(&image, 0x40_0000), None);
}

#[test]
fn a_whole_table_resolves_in_order() {
    let image = [0x90u8, 0x55, 0x8B, 0xEC, 0xC3, 0xCC];
    let table = vec![
        entry("First", &[0x55, 0x8B], "xx"),
        entry("Second", &[0xC3, 0xCC], "xx"),
        entry("Third", &[0x90], "x"),
    ];
    let addrs = resolve_all(&table, &image, 0x40_0000).unwrap();
    assert_eq!(addrs, vec![0x40_0001, 0x40_0004, 0x40_0000]);
}

#[test]
fn the_first_missing_signature_is_reported() {
    let image = [0x90u8, 0x55, 0x8B];
    let table = vec![
        entry("First", &[0x55, 0x8B], "xx"),
        entry("Second", &[0xC3], "x"),
        entry("Third", &[0xAB], "x"),
    ];
    assert_eq!(resolve_all(&table, &image, 0x40_0000), Err(1));
}
