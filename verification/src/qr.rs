//! The scannable code that is made for each minted batch: the text it
//! carries, the name of the file it goes to, and the picture itself.

use crate::batch::{BatchView, DrugBatch};
use crate::ident::{format_id, id_text};
use qrcode::types::QrError;
use vstd::prelude::*;
use vstd::string::*;
use vstd::utf8::encode_utf8;

verus! {

/// Why no code could be made of a text.
#[derive(Debug, Clone, Copy, PartialEq, Eq)]
pub enum QrFailure {
    DataTooLong,
    InvalidVersion,
    UnsupportedCharacterSet,
    InvalidEciDesignator,
    InvalidCharacter,
}

/// What a picture holds, as mathematical values.
pub struct QrImageView {
    pub width: u32,
    pub height: u32,
    pub pixels: Seq<u8>,
}

/// A grey-scale picture: `width` by `height` pixels of one byte each, row by
/// row from the top.
#[derive(Debug)]
pub struct QrImage {
    pub width: u32,
    pub height: u32,
    pub pixels: Vec<u8>,
}

impl View for QrImage {
    type V = QrImageView;

    open spec fn view(&self) -> QrImageView {
        QrImageView { width: self.width, height: self.height, pixels: self.pixels@ }
    }
}

/// What an artifact holds, as mathematical values.
pub struct QrArtifactView {
    pub file_name: Seq<char>,
    pub image: QrImageView,
}

/// The code made for one batch, ready to be written out.
#[derive(Debug)]
pub struct QrArtifact {
    pub file_name: String,
    pub image: QrImage,
}

impl View for QrArtifact {
    type V = QrArtifactView;

    open spec fn view(&self) -> QrArtifactView {
        QrArtifactView { file_name: self.file_name@, image: self.image@ }
    }
}

/// The text that a batch's code carries: five lines, the identifier in its
/// canonical form and the four texts of the record as they are. The recalled
/// flag is not part of it.
pub open spec fn payload_text(batch: BatchView) -> Seq<char> {
    "Batch ID: "@ + id_text(batch.id) + "\nName: "@ + batch.name + "\nManufacturer: "@
        + batch.manufacturer + "\nBatch No: "@ + batch.batch_number + "\nExpiry: "@
        + batch.expiry_date
}

/// The name of the file that the code of batch `id` goes to.
pub open spec fn artifact_name(id: u128) -> Seq<char> {
    "qr_"@ + id_text(id) + ".png"@
}

/// The artifact of batch `id`, given what drawing its code came to.
pub open spec fn artifact_of(id: u128, rendering: Result<QrImageView, QrFailure>) -> Result<
    QrArtifactView,
    QrFailure,
> {
    match rendering {
        Ok(image) => Ok(QrArtifactView { file_name: artifact_name(id), image }),
        Err(failure) => Err(failure),
    }
}

/// The view of an outcome: of the artifact where there is one, the failure
/// as it is.
pub open spec fn made_view(made: Result<QrArtifact, QrFailure>) -> Result<
    QrArtifactView,
    QrFailure,
> {
    match made {
        Ok(artifact) => Ok(artifact@),
        Err(failure) => Err(failure),
    }
}

/// The widest symbol that is drawn, in modules a side: the tenth of the
/// forty sizes, which holds a little over 200 bytes.
pub const MAX_SYMBOL_WIDTH: i16 = 57;

/// The side, in modules, of the symbol that `qrcode` settles on for `data`,
/// or the reason it gives for settling on none.
pub uninterp spec fn qr_width(data: Seq<u8>) -> Result<i16, QrFailure>;

/// The picture that `qrcode` draws for `data`, or the reason it gives for
/// drawing none.
pub uninterp spec fn qr_rendering(data: Seq<u8>) -> Result<QrImageView, QrFailure>;

/// What becomes of a measured width: it stands if the symbol is not wider
/// than `MAX_SYMBOL_WIDTH`; a wider symbol counts as data too long.
pub open spec fn allowed_width(measured: Result<i16, QrFailure>) -> Result<i16, QrFailure> {
    match measured {
        Ok(width) => if width <= MAX_SYMBOL_WIDTH {
            Ok(width)
        } else {
            Err(QrFailure::DataTooLong)
        },
        Err(failure) => Err(failure),
    }
}

/// The picture made of `data`: the one that `qrcode` draws, where the symbol
/// it settles on is not wider than `MAX_SYMBOL_WIDTH`.
pub open spec fn code_of(data: Seq<u8>) -> Result<QrImageView, QrFailure> {
    match allowed_width(qr_width(data)) {
        Ok(_) => qr_rendering(data),
        Err(failure) => Err(failure),
    }
}

/// The view of a drawing's outcome.
pub open spec fn rendered_view(rendered: Result<QrImage, QrFailure>) -> Result<
    QrImageView,
    QrFailure,
> {
    match rendered {
        Ok(image) => Ok(image@),
        Err(failure) => Err(failure),
    }
}

/// Lays `data` out with `qrcode::bits::encode_auto` at medium error
/// correction, which is the first step of `qrcode::QrCode::new`, and hands out
/// the side of the symbol it settled on (`Bits::version`, `Version::width`).
/// The outcome depends on `data` alone and is named as a function of it.
#[verifier::external_body]
pub(crate) fn qrcode_symbol_width(data: &[u8]) -> (measured: Result<i16, QrFailure>)
    ensures
        measured == qr_width(data@),
{
    match qrcode::bits::encode_auto(data, qrcode::EcLevel::M) {
        Ok(bits) => Ok(bits.version().width()),
        Err(QrError::DataTooLong) => Err(QrFailure::DataTooLong),
        Err(QrError::InvalidVersion) => Err(QrFailure::InvalidVersion),
        Err(QrError::UnsupportedCharacterSet) => Err(QrFailure::UnsupportedCharacterSet),
        Err(QrError::InvalidEciDesignator) => Err(QrFailure::InvalidEciDesignator),
        Err(QrError::InvalidCharacter) => Err(QrFailure::InvalidCharacter),
    }
}

/// Encodes `data` with `qrcode::QrCode::new` (medium error correction, the
/// smallest symbol that fits) and draws it with `render::<Luma<u8>>().build()`
/// at the crate's defaults. Both steps depend on `data` alone, so the outcome
/// is named as a function of it; nothing more is claimed.
///
/// `QrCode::new` lays the data out with `encode_auto` and takes the symbol's
/// size from it, so the width in the `requires` is the width of the symbol
/// that is drawn. The bound is there because `QrCode::new` scores each mask
/// in 16-bit sums. On a symbol of side `w` each score is bounded as follows.
/// Runs of one colour: at most `w * w` in each direction. Blocks of two by
/// two: at most `3 * (w - 1) * (w - 1)`. Look-alikes of the finder pattern: 40
/// for each that has four light or missing modules before it or after it;
/// two that qualify by the same side start at least 11 modules apart, so a
/// line holds at most `2 * ((w - 7) / 11 + 1)` of them. Balance: at most 100.
/// For `w` up to 57 that is at most 2 * 3249 + 9408 + 2 * 22800 + 100 = 61606,
/// below 65536, so no sum overflows.
#[verifier::external_body]
pub(crate) fn qrcode_render(data: &[u8]) -> (rendered: Result<QrImage, QrFailure>)
    requires
        qr_width(data@) matches Ok(width) && width <= MAX_SYMBOL_WIDTH,
    ensures
        rendered_view(rendered) == qr_rendering(data@),
{
    match qrcode::QrCode::new(data) {
        Ok(code) => {
            let image = code.render::<image::Luma<u8>>().build();
            Ok(QrImage { width: image.width(), height: image.height(), pixels: image.into_raw() })
        },
        Err(QrError::DataTooLong) => Err(QrFailure::DataTooLong),
        Err(QrError::InvalidVersion) => Err(QrFailure::InvalidVersion),
        Err(QrError::UnsupportedCharacterSet) => Err(QrFailure::UnsupportedCharacterSet),
        Err(QrError::InvalidEciDesignator) => Err(QrFailure::InvalidEciDesignator),
        Err(QrError::InvalidCharacter) => Err(QrFailure::InvalidCharacter),
    }
}

/// The text that the code of `batch` carries.
pub fn qr_payload(batch: &DrugBatch) -> (text: String)
    ensures
        text@ == payload_text(batch@),
{
    let id = format_id(batch.id);
    let mut text = String::from_str("Batch ID: ");
    text.append(id.as_str());
    text.append("\nName: ");
    text.append(batch.name.as_str());
    text.append("\nManufacturer: ");
    text.append(batch.manufacturer.as_str());
    text.append("\nBatch No: ");
    text.append(batch.batch_number.as_str());
    text.append("\nExpiry: ");
    text.append(batch.expiry_date.as_str());
    text
}

/// The name of the file for the code of batch `id`.
pub fn qr_file_name(id: u128) -> (name: String)
    ensures
        name@ == artifact_name(id),
{
    let text = format_id(id);
    let mut name = String::from_str("qr_");
    name.append(text.as_str());
    name.append(".png");
    name
}

/// Decides on a measured width: it stands if the symbol is not wider than
/// `MAX_SYMBOL_WIDTH`; a wider symbol is reported as data too long; a failure
/// to measure is handed on.
pub fn check_width(measured: Result<i16, QrFailure>) -> (checked: Result<i16, QrFailure>)
    ensures
        checked == allowed_width(measured),
{
    match measured {
        Ok(width) => if width <= MAX_SYMBOL_WIDTH {
            Ok(width)
        } else {
            Err(QrFailure::DataTooLong)
        },
        Err(failure) => Err(failure),
    }
}

/// Draws the code of `data`. The symbol's size is measured first, and
/// nothing is drawn for data that needs a symbol wider than
/// `MAX_SYMBOL_WIDTH`: that is reported as data too long, like data that fits
/// no symbol at all.
pub fn render_code(data: &[u8]) -> (rendered: Result<QrImage, QrFailure>)
    ensures
        rendered_view(rendered) == code_of(data@),
{
    match check_width(qrcode_symbol_width(data)) {
        Ok(_) => qrcode_render(data),
        Err(failure) => Err(failure),
    }
}

/// Puts a drawn picture together with the file name of batch `id`, or hands
/// the failure on.
pub fn qr_artifact(id: u128, rendered: Result<QrImage, QrFailure>) -> (made: Result<
    QrArtifact,
    QrFailure,
>)
    ensures
        made_view(made) == artifact_of(id, rendered_view(rendered)),
{
    match rendered {
        Ok(image) => Ok(QrArtifact { file_name: qr_file_name(id), image }),
        Err(failure) => Err(failure),
    }
}

/// Makes the code of a batch: the picture of its payload text, to be written
/// to the file named after its identifier. Fails where no code is made of
/// the text: when the encoder refuses it, or when it is longer than a symbol
/// of `MAX_SYMBOL_WIDTH` modules a side can hold.
pub fn generate_qr_code(batch: &DrugBatch) -> (made: Result<QrArtifact, QrFailure>)
    ensures
        made_view(made) == artifact_of(batch.id, code_of(encode_utf8(payload_text(batch@)))),
{
    let text = qr_payload(batch);
    let rendered = render_code(text.as_str().as_bytes());
    qr_artifact(batch.id, rendered)
}

} // verus!
