use glyphos::model::Glyph;
use glyphos::qr::{
    data_of_symbols, first_symbol, rasterize, split_rows, DecodeError, EncodeError, QrFailure,
    Raster,
};

fn png_of(image: &image::GrayImage) -> Vec<u8> {
    let mut file = Vec::new();
    image.write_to(&mut std::io::Cursor::new(&mut file), image::ImageFormat::Png).unwrap();
    file
}

fn enlarged(file: &[u8], factor: u32) -> Vec<u8> {
    let small = image::load_from_memory(file).unwrap().to_luma8();
    let mut large = image::GrayImage::new(small.width() * factor, small.height() * factor);
    for y in 0..large.height() {
        for x in 0..large.width() {
            large.put_pixel(x, y, *small.get_pixel(x / factor, y / factor));
        }
    }
    png_of(&large)
}

fn scan(file: &[u8]) -> Vec<Option<String>> {
    let picture = image::load_from_memory(file).unwrap();
    bardecoder::default_decoder().decode(&picture).into_iter().map(|symbol| symbol.ok()).collect()
}

fn texts(symbols: &[Option<&str>]) -> Vec<Option<String>> {
    symbols.iter().map(|symbol| symbol.map(|text| text.to_string())).collect()
}

fn chars(rows: &[&str]) -> Vec<Vec<char>> {
    rows.iter().map(|row| row.chars().collect()).collect()
}

#[test]
fn image_is_a_square_black_and_white_png() {
    let file = Glyph::to_qr_code(b"some binary form").unwrap();
    assert_eq!(&file[..8], &[0x89, b'P', b'N', b'G', 0x0d, 0x0a, 0x1a, 0x0a]);
    let image = image::load_from_memory(&file).unwrap();
    assert_eq!(image.color(), image::ColorType::L8);
    let pixels = image.to_luma8();
    assert_eq!(pixels.width(), pixels.height());
    assert!(pixels.width() >= 21 + 8);
    assert!(pixels.pixels().all(|p| p.0[0] == 0 || p.0[0] == 255));
    // The quiet zone is white.
    assert_eq!(pixels.get_pixel(0, 0).0[0], 255);
    // The finder pattern starts behind four modules of quiet zone.
    assert_eq!(pixels.get_pixel(4, 4).0[0], 0);
}

#[test]
fn image_carries_base64_of_the_data() {
    let data: Vec<u8> = (0u8..40).collect();
    let file = Glyph::to_qr_code(&data).unwrap();
    let text = base64::Engine::encode(&base64::engine::general_purpose::STANDARD, &data);
    let code = qrcode::QrCode::new(text.as_bytes()).unwrap();
    let pixels = image::load_from_memory(&file).unwrap().to_luma8();
    let width = code.width() as u32;
    assert_eq!(pixels.width(), width + 8);
    for y in 0..width {
        for x in 0..width {
            let dark = code[(x as usize, y as usize)] == qrcode::Color::Dark;
            assert_eq!(pixels.get_pixel(x + 4, y + 4).0[0], if dark { 0 } else { 255 });
        }
    }
}

#[test]
fn qr_round_trip() {
    let data: Vec<u8> = vec![0xa2, 0x66, 0x68, 0x65, 0x61, 0x64, 0x65, 0x72, 0x00, 0xff, 0x10];
    let file = Glyph::to_qr_code(&data).unwrap();
    assert_eq!(data_of_symbols(&scan(&enlarged(&file, 8))), Ok(data));
}

#[test]
fn qr_round_trip_of_empty_data() {
    let file = Glyph::to_qr_code(&[]).unwrap();
    assert_eq!(data_of_symbols(&scan(&enlarged(&file, 8))), Ok(vec![]));
}

#[test]
fn qr_round_trip_of_longer_data() {
    let data: Vec<u8> = (0..300u32).map(|i| (i * 7 % 256) as u8).collect();
    let file = Glyph::to_qr_code(&data).unwrap();
    assert_eq!(data_of_symbols(&scan(&enlarged(&file, 6))), Ok(data));
}

#[test]
fn too_much_data_is_refused() {
    let data = vec![0u8; 4000];
    assert_eq!(Glyph::to_qr_code(&data), Err(EncodeError::Barcode(QrFailure::DataTooLong)));
}

#[test]
fn blank_image_has_no_barcode() {
    let blank = image::GrayImage::from_pixel(200, 200, image::Luma([255u8]));
    assert_eq!(data_of_symbols(&scan(&png_of(&blank))), Err(DecodeError::NoBarcodeFound));
    let black = image::GrayImage::from_pixel(120, 80, image::Luma([0u8]));
    assert_eq!(data_of_symbols(&scan(&png_of(&black))), Err(DecodeError::NoBarcodeFound));
}

#[test]
fn no_readable_barcode_is_none_found() {
    assert_eq!(data_of_symbols(&texts(&[])), Err(DecodeError::NoBarcodeFound));
    assert_eq!(data_of_symbols(&texts(&[None])), Err(DecodeError::NoBarcodeFound));
    assert_eq!(data_of_symbols(&texts(&[None, None, None])), Err(DecodeError::NoBarcodeFound));
}

#[test]
fn first_readable_barcode_decides() {
    assert_eq!(data_of_symbols(&texts(&[Some("AQID")])), Ok(vec![1, 2, 3]));
    assert_eq!(data_of_symbols(&texts(&[None, Some("AQID"), Some("BAUG")])), Ok(vec![1, 2, 3]));
    assert_eq!(data_of_symbols(&texts(&[Some("AQID"), None, Some("!")])), Ok(vec![1, 2, 3]));
    assert_eq!(
        data_of_symbols(&texts(&[None, Some("no base64"), Some("AQID")])),
        Err(DecodeError::BadEncoding)
    );
}

#[test]
fn base64_text_is_read_strictly() {
    assert_eq!(data_of_symbols(&texts(&[Some("")])), Ok(vec![]));
    assert_eq!(data_of_symbols(&texts(&[Some("AA==")])), Ok(vec![0]));
    assert_eq!(data_of_symbols(&texts(&[Some("/w==")])), Ok(vec![255]));
    assert_eq!(data_of_symbols(&texts(&[Some("AAE=")])), Ok(vec![0, 1]));
    assert_eq!(data_of_symbols(&texts(&[Some("+/+/")])), Ok(vec![0xfb, 0xff, 0xbf]));
    assert_eq!(
        data_of_symbols(&texts(&[Some("aGVsbG8gd29ybGQ=")])),
        Ok(b"hello world".to_vec())
    );
    for bad in [
        "A", "AA", "AAA", "AA=", "AB==", "AAF=", "A===", "====", "=AAA", "AA==AAAA", "AQID ",
        " AQID", "AQ\nID", "AQI-", "AQI_", "AQI\u{e9}",
    ] {
        assert_eq!(data_of_symbols(&texts(&[Some(bad)])), Err(DecodeError::BadEncoding), "{bad}");
    }
}

#[test]
fn barcode_without_base64_is_bad_encoding() {
    let code = qrcode::QrCode::new(b"this is no base64 text!").unwrap();
    let width = code.width() as u32;
    let mut small = image::GrayImage::from_pixel(width + 8, width + 8, image::Luma([255u8]));
    for y in 0..width {
        for x in 0..width {
            if code[(x as usize, y as usize)] == qrcode::Color::Dark {
                small.put_pixel(x + 4, y + 4, image::Luma([0u8]));
            }
        }
    }
    assert_eq!(
        data_of_symbols(&scan(&enlarged(&png_of(&small), 8))),
        Err(DecodeError::BadEncoding)
    );
}

#[test]
fn rows_are_split_at_line_feeds() {
    assert_eq!(split_rows(""), Vec::<Vec<char>>::new());
    assert_eq!(split_rows("# #"), chars(&["# #"]));
    assert_eq!(split_rows("# #\n ##"), chars(&["# #", " ##"]));
    assert_eq!(split_rows("# #\n ##\n"), chars(&["# #", " ##"]));
    assert_eq!(split_rows("#\n\n#"), chars(&["#", "", "#"]));
    assert_eq!(split_rows("\n"), chars(&[""]));
    assert_eq!(split_rows("\n\n"), chars(&["", ""]));
}

#[test]
fn rows_are_drawn_black_on_white() {
    let raster = rasterize(&chars(&["# #", " ##"])).unwrap();
    assert_eq!(raster, Raster { width: 3, height: 2, pixels: vec![0, 255, 0, 255, 0, 0] });
    let other = rasterize(&chars(&["x#"])).unwrap();
    assert_eq!(other, Raster { width: 2, height: 1, pixels: vec![255, 0] });
}

#[test]
fn no_rows_make_an_empty_raster() {
    assert_eq!(rasterize(&chars(&[])), Some(Raster { width: 0, height: 0, pixels: vec![] }));
    assert_eq!(rasterize(&chars(&["", ""])), Some(Raster { width: 0, height: 2, pixels: vec![] }));
}

#[test]
fn ragged_rows_are_not_drawn() {
    assert_eq!(rasterize(&chars(&["##", "#"])), None);
    assert_eq!(rasterize(&chars(&["#", "##"])), None);
    assert_eq!(rasterize(&chars(&["#", "", "#"])), None);
}

#[test]
fn first_readable_symbol_is_taken() {
    let none: Vec<Option<String>> = vec![];
    assert_eq!(first_symbol(&none), None);
    assert_eq!(first_symbol(&vec![None, None]), None);
    let a = "a".to_string();
    let b = "b".to_string();
    assert_eq!(first_symbol(&vec![Some(a.clone()), Some(b.clone())]), Some(&a));
    assert_eq!(first_symbol(&vec![None, Some(b.clone()), Some(a.clone())]), Some(&b));
}
