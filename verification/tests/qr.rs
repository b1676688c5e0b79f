use pharmachain::qr::{check_width, qr_artifact};
use pharmachain::{
    generate_qr_code, qr_file_name, qr_payload, render_code, DrugBatch, QrFailure, QrImage,
    MAX_SYMBOL_WIDTH,
};

fn sample() -> DrugBatch {
    DrugBatch::new(0x550e8400e29b41d4a716446655440000, "Amoxicillin", "Acme", "B100", "2026-01-01")
}

#[test]
fn payload_has_five_lines_in_order() {
    assert_eq!(
        qr_payload(&sample()),
        "Batch ID: 550e8400-e29b-41d4-a716-446655440000\nName: Amoxicillin\nManufacturer: Acme\nBatch No: B100\nExpiry: 2026-01-01"
    );
}

#[test]
fn payload_takes_texts_as_they_are_and_ignores_the_flag() {
    let mut batch = DrugBatch::new(0, "", "a\nb", " ", "\u{e9}t\u{e9}");
    let before = qr_payload(&batch);
    assert_eq!(
        before,
        "Batch ID: 00000000-0000-0000-0000-000000000000\nName: \nManufacturer: a\nb\nBatch No:  \nExpiry: \u{e9}t\u{e9}"
    );
    batch.recalled = true;
    assert_eq!(qr_payload(&batch), before);
}

#[test]
fn file_name_is_derived_from_the_identifier() {
    assert_eq!(
        qr_file_name(0x550e8400e29b41d4a716446655440000),
        "qr_550e8400-e29b-41d4-a716-446655440000.png"
    );
    assert_eq!(qr_file_name(0), "qr_00000000-0000-0000-0000-000000000000.png");
}

#[test]
fn generated_code_is_what_the_encoder_draws_for_the_payload() {
    let batch = sample();
    let artifact = generate_qr_code(&batch).unwrap();
    assert_eq!(artifact.file_name, "qr_550e8400-e29b-41d4-a716-446655440000.png");

    let code = qrcode::QrCode::new(qr_payload(&batch).as_bytes()).unwrap();
    let expected = code.render::<image::Luma<u8>>().build();
    assert_eq!(artifact.image.width, expected.width());
    assert_eq!(artifact.image.height, expected.height());
    assert_eq!(artifact.image.pixels, expected.into_raw());
}

#[test]
fn generated_code_is_a_square_of_black_and_white_pixels() {
    let artifact = generate_qr_code(&sample()).unwrap();
    let image = artifact.image;
    assert!(image.width > 0);
    assert_eq!(image.width, image.height);
    assert_eq!(image.pixels.len(), image.width as usize * image.height as usize);
    assert!(image.pixels.iter().all(|p| *p == 0 || *p == 255));
    assert!(image.pixels.iter().any(|p| *p == 0));
    assert!(image.pixels.iter().any(|p| *p == 255));
    assert_ne!(image.pixels, qr_payload(&sample()).into_bytes());
}

#[test]
fn generated_code_depends_on_the_payload_alone() {
    let first = generate_qr_code(&sample()).unwrap();
    let again = generate_qr_code(&sample()).unwrap();
    assert_eq!(first.image.pixels, again.image.pixels);
    assert_eq!(first.image.width, again.image.width);

    let mut recalled = sample();
    recalled.recalled = true;
    assert_eq!(generate_qr_code(&recalled).unwrap().image.pixels, first.image.pixels);

    let other = DrugBatch::new(0x550e8400e29b41d4a716446655440000, "Amoxicillin", "Acme", "B101", "2026-01-01");
    assert_ne!(generate_qr_code(&other).unwrap().image.pixels, first.image.pixels);
}

#[test]
fn a_payload_too_long_for_a_code_is_reported() {
    let long = "x".repeat(5000);
    let batch = DrugBatch::new(1, &long, "Acme", "B100", "2026-01-01");
    match generate_qr_code(&batch) {
        Err(failure) => assert_eq!(failure, QrFailure::DataTooLong),
        Ok(_) => panic!("5000 characters cannot fit"),
    }
}

#[test]
fn artifact_joins_picture_and_file_name_or_hands_the_failure_on() {
    let image = QrImage { width: 2, height: 1, pixels: vec![0, 255] };
    let made = qr_artifact(3, Ok(image)).unwrap();
    assert_eq!(made.file_name, "qr_00000000-0000-0000-0000-000000000003.png");
    assert_eq!(made.image.width, 2);
    assert_eq!(made.image.height, 1);
    assert_eq!(made.image.pixels, vec![0, 255]);

    for failure in [
        QrFailure::DataTooLong,
        QrFailure::InvalidVersion,
        QrFailure::UnsupportedCharacterSet,
        QrFailure::InvalidEciDesignator,
        QrFailure::InvalidCharacter,
    ] {
        assert_eq!(qr_artifact(3, Err(failure)).unwrap_err(), failure);
    }
}

#[test]
fn texts_outside_ascii_are_encoded_as_their_utf8_bytes() {
    let batch = DrugBatch::new(
        7,
        "\u{4e2d}\u{6587}\u{836f}\u{54c1}",
        "\u{30a2}\u{30e2}\u{30ad}\u{30b7}\u{30b7}\u{30ea}\u{30f3}",
        "\u{e9}\u{eb}\u{fc}",
        "\u{1F48A} 2026",
    );
    let artifact = generate_qr_code(&batch).unwrap();
    let code = qrcode::QrCode::new(qr_payload(&batch).as_bytes()).unwrap();
    let expected = code.render::<image::Luma<u8>>().build();
    assert_eq!(artifact.image.width, expected.width());
    assert_eq!(artifact.image.height, expected.height());
    assert_eq!(artifact.image.pixels, expected.into_raw());
}

#[test]
fn an_empty_record_still_gets_a_code() {
    let batch = DrugBatch::new(0, "", "", "", "");
    let artifact = generate_qr_code(&batch).unwrap();
    assert_eq!(artifact.file_name, "qr_00000000-0000-0000-0000-000000000000.png");
    assert_eq!(artifact.image.width, artifact.image.height);
    assert_eq!(artifact.image.pixels.len(), (artifact.image.width * artifact.image.height) as usize);
}

#[test]
fn check_width_lets_symbols_up_to_the_limit_pass() {
    assert_eq!(MAX_SYMBOL_WIDTH, 57);
    assert_eq!(check_width(Ok(21)), Ok(21));
    assert_eq!(check_width(Ok(53)), Ok(53));
    assert_eq!(check_width(Ok(57)), Ok(57));
    assert_eq!(check_width(Ok(58)), Err(QrFailure::DataTooLong));
    assert_eq!(check_width(Ok(61)), Err(QrFailure::DataTooLong));
    assert_eq!(check_width(Ok(177)), Err(QrFailure::DataTooLong));
    for failure in [
        QrFailure::DataTooLong,
        QrFailure::InvalidVersion,
        QrFailure::UnsupportedCharacterSet,
        QrFailure::InvalidEciDesignator,
        QrFailure::InvalidCharacter,
    ] {
        assert_eq!(check_width(Err(failure)), Err(failure));
    }
}

#[test]
fn render_code_of_little_data_is_the_smallest_symbol() {
    let image = render_code(b"").unwrap();
    assert_eq!(image.width, (21 + 2 * 4) * 8);
    assert_eq!(image.height, 232);
    assert_eq!(image.pixels.len(), 232 * 232);
    let expected = qrcode::QrCode::new(b"").unwrap().render::<image::Luma<u8>>().build();
    assert_eq!(image.pixels, expected.into_raw());
}

#[test]
fn render_code_draws_exactly_the_symbols_within_the_limit() {
    let mut drawn = 0;
    let mut refused = 0;
    for n in (0..400).step_by(7).chain(200..230) {
        let data = "x".repeat(n);
        let code = qrcode::QrCode::new(data.as_bytes()).unwrap();
        match render_code(data.as_bytes()) {
            Ok(image) => {
                assert!(code.width() <= 57, "{} bytes need {} modules", n, code.width());
                assert_eq!(image.width as usize, (code.width() + 8) * 8);
                assert_eq!(image.pixels, code.render::<image::Luma<u8>>().build().into_raw());
                drawn += 1;
            }
            Err(failure) => {
                assert!(code.width() > 57, "{} bytes need {} modules", n, code.width());
                assert_eq!(failure, QrFailure::DataTooLong);
                refused += 1;
            }
        }
    }
    assert!(drawn > 0);
    assert!(refused > 0);
}

#[test]
fn the_largest_symbol_drawn_holds_213_bytes() {
    let fits = "x".repeat(213);
    let image = render_code(fits.as_bytes()).unwrap();
    assert_eq!(image.width, (57 + 8) * 8);
    let over = "x".repeat(214);
    assert_eq!(render_code(over.as_bytes()).unwrap_err(), QrFailure::DataTooLong);
}

#[test]
fn a_record_that_needs_a_wider_symbol_gets_no_code() {
    let name = "n".repeat(150);
    let batch = DrugBatch::new(1, &name, "Acme", "B100", "2026-01-01");
    assert!(qrcode::QrCode::new(qr_payload(&batch).as_bytes()).unwrap().width() > 57);
    match generate_qr_code(&batch) {
        Err(failure) => assert_eq!(failure, QrFailure::DataTooLong),
        Ok(_) => panic!("the payload needs a symbol wider than 57 modules"),
    }
    let shorter = DrugBatch::new(1, &"n".repeat(100), "Acme", "B100", "2026-01-01");
    assert!(generate_qr_code(&shorter).is_ok());
}
