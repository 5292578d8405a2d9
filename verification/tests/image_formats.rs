use viu::image_formats::{
    register_image_formats, registration_warning, CODESTREAM_SIGNATURE, CONTAINER_SIGNATURE,
    EXTENSION,
};

fn decoding_failure(bytes: &[u8]) -> image::ImageError {
    image::ImageReader::new(std::io::Cursor::new(bytes.to_vec()))
        .with_guessed_format()
        .unwrap()
        .decode()
        .unwrap_err()
}

#[test]
fn jpeg_xl_registration() {
    assert_eq!(EXTENSION, "jxl");
    assert_eq!(CODESTREAM_SIGNATURE, [0xff, 0x0a]);
    assert_eq!(
        CONTAINER_SIGNATURE,
        [0x00, 0x00, 0x00, 0x0c, 0x4a, 0x58, 0x4c, 0x20, 0x0d, 0x0a, 0x87, 0x0a]
    );
    let mut codestream = CODESTREAM_SIGNATURE.to_vec();
    codestream.extend([0u8; 14]);
    let mut container = CONTAINER_SIGNATURE.to_vec();
    container.extend([0u8; 4]);

    // before the registration nothing knows what to make of the bytes
    assert!(!image::hooks::decoding_hook_registered("jxl".as_ref()));
    assert!(matches!(decoding_failure(&codestream), image::ImageError::Unsupported(_)));
    assert!(matches!(decoding_failure(&container), image::ImageError::Unsupported(_)));

    // the first registration in a process is taken
    assert!(register_image_formats());
    assert!(image::hooks::decoding_hook_registered("jxl".as_ref()));
    // after it the bytes go to the decoder, which finds no picture in them
    assert!(!matches!(decoding_failure(&codestream), image::ImageError::Unsupported(_)));
    assert!(!matches!(decoding_failure(&container), image::ImageError::Unsupported(_)));

    // a second registration is refused
    assert!(!register_image_formats());
    assert!(image::hooks::decoding_hook_registered("jxl".as_ref()));
}

#[test]
fn warning_after_a_refused_registration() {
    assert_eq!(registration_warning(true), None);
    assert_eq!(registration_warning(false), Some("Could not register jxl decoder."));
}
