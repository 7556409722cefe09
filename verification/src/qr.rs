//! Optical transport: the binary form of a document as a QR code in a PNG
//! image, and back.
//!
//! The barcode carries the base64 text of the binary form. Drawing the
//! barcode and writing the image file are the work of the `qrcode` and
//! `image` crates; what lies between those steps is done here. Reading an
//! image file and recognising the barcodes in it is left to the caller, who
//! hands over what the recogniser made of each barcode; what follows is done
//! here.

use crate::armor::{
    base64_data, base64_text, is_base64, lemma_base64_injective, lemma_base64_round_trip,
    standard_decode, standard_encode,
};
use crate::model::Glyph;
use vstd::prelude::*;

verus! {

/// Why a barcode could not be built.
#[derive(Debug, Clone, Copy, PartialEq, Eq)]
pub enum QrFailure {
    DataTooLong,
    InvalidVersion,
    UnsupportedCharacterSet,
    InvalidEciDesignator,
    InvalidCharacter,
}

/// Why a document's binary form could not be turned into an image.
#[derive(Debug, Clone, Copy, PartialEq, Eq)]
pub enum EncodeError {
    /// No barcode holds the text.
    Barcode(QrFailure),
    /// The barcode's rendering is no rectangle of rows that an image can hold.
    NotDrawable,
    /// The image could not be written as PNG.
    Png,
}

/// Why the barcodes of an image gave no binary form of a document.
#[derive(Debug, Clone, Copy, PartialEq, Eq)]
pub enum DecodeError {
    /// No barcode in the image could be read.
    NoBarcodeFound,
    /// The barcode's text is no base64 text.
    BadEncoding,
}

/// A greyscale image, one byte per pixel, row after row from the top.
#[derive(Debug, Clone, PartialEq, Eq)]
pub struct Raster {
    pub width: u32,
    pub height: u32,
    pub pixels: Vec<u8>,
}

/// The text that a barcode failure is shown as.
pub open spec fn qr_failure_text(failure: QrFailure) -> Seq<char> {
    match failure {
        QrFailure::DataTooLong => "data too long"@,
        QrFailure::InvalidVersion => "invalid version"@,
        QrFailure::UnsupportedCharacterSet => "unsupported character set"@,
        QrFailure::InvalidEciDesignator => "invalid ECI designator"@,
        QrFailure::InvalidCharacter => "invalid character"@,
    }
}

/// The text that an encoding error is shown as.
pub open spec fn encode_error_text(error: EncodeError) -> Seq<char> {
    match error {
        EncodeError::Barcode(failure) => qr_failure_text(failure),
        EncodeError::NotDrawable => "QR code rendering is not a rectangle"@,
        EncodeError::Png => "QR code image could not be written"@,
    }
}

/// The text that a decoding error is shown as.
pub open spec fn decode_error_text(error: DecodeError) -> Seq<char> {
    match error {
        DecodeError::NoBarcodeFound => "No valid QR code found in image"@,
        DecodeError::BadEncoding => "QR code does not hold base64 text"@,
    }
}

impl QrFailure {
    /// The text that the failure is shown as.
    pub fn message(&self) -> (res: String)
        ensures
            res@ == qr_failure_text(*self),
    {
        match self {
            QrFailure::DataTooLong => String::from_str("data too long"),
            QrFailure::InvalidVersion => String::from_str("invalid version"),
            QrFailure::UnsupportedCharacterSet => String::from_str("unsupported character set"),
            QrFailure::InvalidEciDesignator => String::from_str("invalid ECI designator"),
            QrFailure::InvalidCharacter => String::from_str("invalid character"),
        }
    }
}

impl EncodeError {
    /// The text that the error is shown as.
    pub fn message(&self) -> (res: String)
        ensures
            res@ == encode_error_text(*self),
    {
        match self {
            EncodeError::Barcode(failure) => failure.message(),
            EncodeError::NotDrawable => String::from_str("QR code rendering is not a rectangle"),
            EncodeError::Png => String::from_str("QR code image could not be written"),
        }
    }
}

impl DecodeError {
    /// The text that the error is shown as.
    pub fn message(&self) -> (res: String)
        ensures
            res@ == decode_error_text(*self),
    {
        match self {
            DecodeError::NoBarcodeFound => String::from_str("No valid QR code found in image"),
            DecodeError::BadEncoding => String::from_str("QR code does not hold base64 text"),
        }
    }
}

/// The rendering of the QR code that `qrcode` builds for a text at the medium
/// error correction level: one row of characters for each row of modules,
/// quiet zone included, `#` for a dark module and a space for a light one,
/// the rows parted by line feeds.
pub uninterp spec fn qr_rendering(text: Seq<char>) -> Result<Seq<char>, QrFailure>;

/// The PNG file that `image` writes for a greyscale image of the given width
/// and height, if it writes one.
pub uninterp spec fn png_encoding(width: int, height: int, pixels: Seq<u8>) -> Option<Seq<u8>>;

/// Calls `qrcode::QrCode::new` on the bytes of the text and renders the code
/// with `#` for dark and a space for light modules. The rendering is named,
/// not described; a failure of the crate is handed on under its own name.
#[verifier::external_body]
fn render_qr(text: &str) -> (res: Result<String, QrFailure>)
    ensures
        match res {
            Ok(rendering) => qr_rendering(text@) == Ok::<Seq<char>, QrFailure>(rendering@),
            Err(failure) => qr_rendering(text@) == Err::<Seq<char>, QrFailure>(failure),
        },
{
    match qrcode::QrCode::new(text.as_bytes()) {
        Ok(code) => Ok(code.render().light_color(' ').dark_color('#').build()),
        Err(qrcode::types::QrError::DataTooLong) => Err(QrFailure::DataTooLong),
        Err(qrcode::types::QrError::InvalidVersion) => Err(QrFailure::InvalidVersion),
        Err(qrcode::types::QrError::UnsupportedCharacterSet) => Err(
            QrFailure::UnsupportedCharacterSet,
        ),
        Err(qrcode::types::QrError::InvalidEciDesignator) => Err(QrFailure::InvalidEciDesignator),
        Err(qrcode::types::QrError::InvalidCharacter) => Err(QrFailure::InvalidCharacter),
    }
}

/// Builds an `image::GrayImage` from the pixels and calls its `write_to` with
/// the PNG format on a buffer in memory. The file is named, not described.
#[verifier::external_body]
fn write_png(width: u32, height: u32, pixels: Vec<u8>) -> (res: Option<Vec<u8>>)
    ensures
        match res {
            Some(file) => png_encoding(width as int, height as int, pixels@) == Some(file@),
            None => png_encoding(width as int, height as int, pixels@) is None,
        },
{
    let image = image::GrayImage::from_raw(width, height, pixels)?;
    let mut file = Vec::new();
    image.write_to(&mut std::io::Cursor::new(&mut file), image::ImageFormat::Png).ok()?;
    Some(file)
}

/// The characters of each text of a list of optional texts.
pub open spec fn symbol_texts(symbols: Seq<Option<String>>) -> Seq<Option<Seq<char>>> {
    symbols.map_values(
        |symbol: Option<String>|
            match symbol {
                Some(text) => Some(text@),
                None => None,
            },
    )
}

/// The pieces of a text between its line feeds; there is always one piece
/// more than there are line feeds.
pub open spec fn segments(text: Seq<char>) -> Seq<Seq<char>>
    decreases text.len(),
{
    if text.len() == 0 {
        seq![Seq::empty()]
    } else {
        let before = segments(text.drop_last());
        if text.last() == '\n' {
            before.push(Seq::empty())
        } else {
            before.drop_last().push(before.last().push(text.last()))
        }
    }
}

/// The rows of a rendering: the pieces between its line feeds, without the
/// last piece where that one is empty.
pub open spec fn rows_of(text: Seq<char>) -> Seq<Seq<char>> {
    let pieces = segments(text);
    if pieces.last().len() == 0 {
        pieces.drop_last()
    } else {
        pieces
    }
}

/// The grey value of a module: black for `#`, white for anything else.
pub open spec fn shade(c: char) -> u8 {
    if c == '#' {
        0
    } else {
        255
    }
}

/// The grey values of one row.
pub open spec fn row_shades(row: Seq<char>) -> Seq<u8> {
    row.map_values(|c: char| shade(c))
}

/// The grey values of all rows, row after row.
pub open spec fn shades(rows: Seq<Seq<char>>) -> Seq<u8>
    decreases rows.len(),
{
    if rows.len() == 0 {
        Seq::empty()
    } else {
        shades(rows.drop_last()) + row_shades(rows.last())
    }
}

/// The length of the first row, or zero where there is no row.
pub open spec fn width_of(rows: Seq<Seq<char>>) -> nat {
    if rows.len() == 0 {
        0
    } else {
        rows[0].len()
    }
}

/// Whether the rows make an image: all are as long as the first, and both
/// their number and their length fit the size fields of an image.
pub open spec fn drawable(rows: Seq<Seq<char>>) -> bool {
    &&& rows.len() <= u32::MAX
    &&& width_of(rows) <= u32::MAX
    &&& forall|y: int| 0 <= y < rows.len() ==> (#[trigger] rows[y]).len() == width_of(rows)
}

/// The characters of each row of a list of rows.
pub open spec fn grid(rows: Seq<Vec<char>>) -> Seq<Seq<char>> {
    rows.map_values(|row: Vec<char>| row@)
}

/// The first text in a list of optional texts.
pub open spec fn first_text(symbols: Seq<Option<Seq<char>>>) -> Option<Seq<char>>
    decreases symbols.len(),
{
    if symbols.len() == 0 {
        None
    } else if symbols[0] is Some {
        symbols[0]
    } else {
        first_text(symbols.skip(1))
    }
}

/// The image that carries the binary form `data`, or why there is none.
pub open spec fn qr_image(data: Seq<u8>) -> Result<Seq<u8>, EncodeError> {
    match qr_rendering(base64_text(data)) {
        Err(failure) => Err(EncodeError::Barcode(failure)),
        Ok(rendering) => {
            let rows = rows_of(rendering);
            if !drawable(rows) {
                Err(EncodeError::NotDrawable)
            } else {
                match png_encoding(width_of(rows) as int, rows.len() as int, shades(rows)) {
                    Some(file) => Ok(file),
                    None => Err(EncodeError::Png),
                }
            }
        },
    }
}

/// The binary form that a list of barcode outcomes carries: the data that
/// the first readable text is the base64 text of. Where no barcode could be
/// read there is none, and where the first readable text is no base64 text
/// it is badly encoded.
pub open spec fn carried(symbols: Seq<Option<Seq<char>>>) -> Result<Seq<u8>, DecodeError> {
    match first_text(symbols) {
        None => Err(DecodeError::NoBarcodeFound),
        Some(text) => if is_base64(text) {
            Ok(base64_data(text))
        } else {
            Err(DecodeError::BadEncoding)
        },
    }
}

/// Whatever recogniser gives back the text that a barcode was built from
/// gives back the data: barcode outcomes of which the first readable one is
/// the base64 text of some data carry those data.
pub proof fn lemma_scanned_data_comes_back(symbols: Seq<Option<Seq<char>>>, data: Seq<u8>)
    requires
        first_text(symbols) == Some(base64_text(data)),
    ensures
        carried(symbols) == Ok::<Seq<u8>, DecodeError>(data),
{
    lemma_base64_round_trip(data);
}

/// Splits a rendering into its rows.
pub fn split_rows(text: &str) -> (res: Vec<Vec<char>>)
    ensures
        grid(res@) == rows_of(text@),
{
    let mut done: Vec<Vec<char>> = Vec::new();
    let mut current: Vec<char> = Vec::new();
    for c in it: text.chars()
        invariant
            it.seq() == text@,
            grid(done@).push(current@) == segments(text@.take(it.index() as int)),
    {
        assert(text@.take(it.index() + 1).drop_last() =~= text@.take(it.index() as int));
        if c == '\n' {
            done.push(current);
            current = Vec::new();
        } else {
            current.push(c);
        }
    }
    assert(text@.take(text@.len() as int) =~= text@);
    if current.len() > 0 {
        done.push(current);
    }
    done
}

/// Draws the rows as a greyscale image, one pixel for each character, if the
/// rows make an image.
pub fn rasterize(rows: &Vec<Vec<char>>) -> (res: Option<Raster>)
    ensures
        res is Some == drawable(grid(rows@)),
        res matches Some(raster) ==> {
            &&& raster.width == width_of(grid(rows@))
            &&& raster.height == rows@.len()
            &&& raster.pixels@ == shades(grid(rows@))
        },
{
    let height = rows.len();
    let width = if height == 0 {
        0
    } else {
        rows[0].len()
    };
    if height > 0xFFFF_FFFF || width > 0xFFFF_FFFF {
        return None;
    }
    let mut pixels: Vec<u8> = Vec::new();
    let mut y: usize = 0;
    while y < height
        invariant
            y <= height,
            height == rows@.len(),
            width == width_of(grid(rows@)),
            pixels@ == shades(grid(rows@).take(y as int)),
            forall|k: int| 0 <= k < y ==> (#[trigger] grid(rows@)[k]).len() == width,
        decreases height - y,
    {
        let row = &rows[y];
        if row.len() != width {
            assert(grid(rows@)[y as int].len() != width_of(grid(rows@)));
            return None;
        }
        let ghost before = pixels@;
        let mut x: usize = 0;
        while x < width
            invariant
                x <= width,
                width == row@.len(),
                pixels@ == before + row_shades(row@.take(x as int)),
            decreases width - x,
        {
            let value: u8 = if row[x] == '#' {
                0
            } else {
                255
            };
            pixels.push(value);
            x = x + 1;
        }
        assert(grid(rows@).take(y + 1).drop_last() =~= grid(rows@).take(y as int));
        y = y + 1;
    }
    assert(grid(rows@).take(height as int) =~= grid(rows@));
    Some(Raster { width: width as u32, height: height as u32, pixels })
}

/// The first barcode text that could be read, if there is one; barcodes that
/// could not be read are passed over.
pub fn first_symbol(symbols: &Vec<Option<String>>) -> (res: Option<&String>)
    ensures
        match res {
            Some(text) => first_text(symbol_texts(symbols@)) == Some(text@),
            None => first_text(symbol_texts(symbols@)) is None,
        },
{
    let ghost all = symbol_texts(symbols@);
    let mut i: usize = 0;
    assert(all.skip(0) =~= all);
    while i < symbols.len()
        invariant
            i <= symbols.len(),
            all == symbol_texts(symbols@),
            first_text(all) == first_text(all.skip(i as int)),
        decreases symbols.len() - i,
    {
        match &symbols[i] {
            Some(text) => {
                return Some(text);
            },
            None => {
                assert(all.skip(i as int).skip(1) =~= all.skip(i + 1));
            },
        }
        i = i + 1;
    }
    None
}

impl Glyph {
    /// The PNG image of the QR code that carries `cbor_data`, the binary form
    /// of a document, as base64 text: one pixel for each module, black on
    /// white, quiet zone included.
    pub fn to_qr_code(cbor_data: &[u8]) -> (res: Result<Vec<u8>, EncodeError>)
        requires
            cbor_data@.len() <= isize::MAX,
        ensures
            match res {
                Ok(file) => qr_image(cbor_data@) == Ok::<Seq<u8>, EncodeError>(file@),
                Err(error) => qr_image(cbor_data@) == Err::<Seq<u8>, EncodeError>(error),
            },
    {
        let text = standard_encode(cbor_data);
        let rendering = match render_qr(text.as_str()) {
            Ok(rendering) => rendering,
            Err(failure) => {
                return Err(EncodeError::Barcode(failure));
            },
        };
        let rows = split_rows(rendering.as_str());
        let raster = match rasterize(&rows) {
            Some(raster) => raster,
            None => {
                return Err(EncodeError::NotDrawable);
            },
        };
        match write_png(raster.width, raster.height, raster.pixels) {
            Some(file) => Ok(file),
            None => Err(EncodeError::Png),
        }
    }
}

/// The binary form of a document that barcode outcomes carry. `symbols`
/// holds, for each barcode that a recogniser found in an image, the text
/// that it read or nothing where it could not read the barcode.
///
/// The first readable text is taken and the rest passed over. Fails with
/// `NoBarcodeFound` where there is no readable text, be it that no barcode
/// was found or that none could be read, and with `BadEncoding` where the
/// first readable text is no base64 text.
pub fn data_of_symbols(symbols: &Vec<Option<String>>) -> (res: Result<Vec<u8>, DecodeError>)
    ensures
        match res {
            Ok(data) => carried(symbol_texts(symbols@)) == Ok::<Seq<u8>, DecodeError>(data@),
            Err(error) => carried(symbol_texts(symbols@)) == Err::<Seq<u8>, DecodeError>(error),
        },
{
    let text = match first_symbol(symbols) {
        Some(text) => text,
        None => {
            return Err(DecodeError::NoBarcodeFound);
        },
    };
    match standard_decode(text.as_str()) {
        Some(data) => {
            proof {
                lemma_base64_injective(base64_data(text@), data@);
            }
            Ok(data)
        },
        None => Err(DecodeError::BadEncoding),
    }
}

} // verus!
