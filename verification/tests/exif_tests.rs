use imgsorter::exif::{device_name_of_fields, extract_device_name, MODEL_TAG};

/// A minimal little-endian TIFF holding one IFD with a single ASCII entry.
fn tiff_with_ascii_tag(tag: u16, value: &[u8]) -> Vec<u8> {
    assert!(value.len() > 4);
    let mut b: Vec<u8> = Vec::new();
    b.extend_from_slice(b"II\x2a\x00");
    b.extend_from_slice(&8u32.to_le_bytes()); // offset of IFD0
    b.extend_from_slice(&1u16.to_le_bytes()); // one entry
    b.extend_from_slice(&tag.to_le_bytes());
    b.extend_from_slice(&2u16.to_le_bytes()); // ASCII format
    b.extend_from_slice(&(value.len() as u32).to_le_bytes());
    b.extend_from_slice(&26u32.to_le_bytes()); // data lies after the IFD
    b.extend_from_slice(&0u32.to_le_bytes()); // no further IFD
    b.extend_from_slice(value);
    b
}

#[test]
fn extract_device_name_reads_the_model_field() {
    let bytes = tiff_with_ascii_tag(0x0110, b"Canon EOS 80D\0");
    assert_eq!(extract_device_name(&bytes), Some(String::from("Canon EOS 80D")));
}

#[test]
fn extract_device_name_trims_the_model_field() {
    let bytes = tiff_with_ascii_tag(0x0110, b" Canon EOS 80D \0");
    assert_eq!(extract_device_name(&bytes), Some(String::from("Canon EOS 80D")));
}

#[test]
fn extract_device_name_without_model_field_is_none() {
    // a Make field alone carries no device name
    let bytes = tiff_with_ascii_tag(0x010f, b"Canon\0");
    assert_eq!(extract_device_name(&bytes), None);
}

#[test]
fn extract_device_name_of_unparsable_bytes_is_none() {
    assert_eq!(extract_device_name(b"just some text, no metadata"), None);
    assert_eq!(extract_device_name(b""), None);
}

#[test]
fn device_name_of_fields_takes_the_first_model() {
    let fields = vec![
        (0x010fu32, String::from("Canon")),
        (MODEL_TAG, String::from(" EOS 80D ")),
        (MODEL_TAG, String::from("second")),
    ];
    assert_eq!(device_name_of_fields(&fields), Some(String::from("EOS 80D")));
}

#[test]
fn device_name_of_fields_without_model_is_none() {
    let fields = vec![(0x010fu32, String::from("Canon"))];
    assert_eq!(device_name_of_fields(&fields), None);
    assert_eq!(device_name_of_fields(&Vec::new()), None);
}
