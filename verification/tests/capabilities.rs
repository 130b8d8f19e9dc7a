use wgpu_external_memory::{ExternalMemoryCapabilities, EXPORT_BIT, IMPORT_BIT};

#[test]
fn capability_bits() {
    assert_eq!(ExternalMemoryCapabilities::empty().bits(), 0);
    assert_eq!(ExternalMemoryCapabilities::import().bits(), 0b0001);
    assert_eq!(ExternalMemoryCapabilities::export().bits(), 0b0010);
    assert_eq!(ExternalMemoryCapabilities::import_export().bits(), 0b0011);
    assert_eq!(IMPORT_BIT, 1);
    assert_eq!(EXPORT_BIT, 2);
}

#[test]
fn capability_from_bits() {
    assert_eq!(ExternalMemoryCapabilities::from_bits(0), Some(ExternalMemoryCapabilities::empty()));
    assert_eq!(ExternalMemoryCapabilities::from_bits(1), Some(ExternalMemoryCapabilities::import()));
    assert_eq!(ExternalMemoryCapabilities::from_bits(2), Some(ExternalMemoryCapabilities::export()));
    assert_eq!(
        ExternalMemoryCapabilities::from_bits(3),
        Some(ExternalMemoryCapabilities::import_export())
    );
    assert_eq!(ExternalMemoryCapabilities::from_bits(4), None);
    assert_eq!(ExternalMemoryCapabilities::from_bits(u16::MAX), None);
}

#[test]
fn capability_bits_round_trip() {
    for bits in 0u16..4 {
        assert_eq!(ExternalMemoryCapabilities::from_bits(bits).unwrap().bits(), bits);
    }
}

#[test]
fn capability_set_operations() {
    let none = ExternalMemoryCapabilities::empty();
    let import = ExternalMemoryCapabilities::import();
    let export = ExternalMemoryCapabilities::export();
    let both = ExternalMemoryCapabilities::import_export();
    assert!(none.is_empty());
    assert!(!import.is_empty());
    assert_eq!(import.union(export), both);
    assert_eq!(both.intersection(import), import);
    assert_eq!(import.intersection(export), none);
    assert!(both.contains(import));
    assert!(both.contains(export));
    assert!(!import.contains(export));
    assert!(!import.contains(both));
    assert!(import.contains(none));
}
