//! The QR matrix of a device-link URI, drawn by the linker window.
use vstd::prelude::*;
use crate::error::Error;
use crate::text::{chars_of, push_str};

verus! {

/// Why the `qrcode` crate could not encode data (its `QrError`).
#[derive(Debug, Clone, Copy, PartialEq, Eq, Structural)]
pub enum QrFailure {
    DataTooLong,
    InvalidVersion,
    UnsupportedCharacterSet,
    InvalidEciDesignator,
    InvalidCharacter,
}

/// What `qrcode::QrCode::new` makes of the data (error-correction level
/// M, smallest fitting version): the modules per side and the row-major
/// bitmap (`true` = dark), or why it failed.
pub uninterp spec fn qr_encoding(data: Seq<u8>) -> Result<(nat, Seq<bool>), QrFailure>;

/// `qrcode::QrCode::new` on `data`, read back through `width()` and
/// `to_colors()`. The result is `qr_encoding` of the data; the bitmap
/// holds `width * width` modules, as the crate's canvas is allocated.
#[verifier::external_body]
fn qr_encode(data: &[u8]) -> (r: Result<(usize, Vec<bool>), QrFailure>)
    ensures
        match r {
            Ok((w, bits)) => qr_encoding(data@) == Ok::<(nat, Seq<bool>), QrFailure>((w as nat, bits@))
                && bits@.len() == w * w,
            Err(f) => qr_encoding(data@) == Err::<(nat, Seq<bool>), QrFailure>(f),
        },
{
    match qrcode::QrCode::new(data) {
        Ok(code) => Ok((code.width(), code.to_colors().iter().map(|c| *c == qrcode::Color::Dark).collect())),
        Err(e) => Err(match e {
            qrcode::types::QrError::DataTooLong => QrFailure::DataTooLong,
            qrcode::types::QrError::InvalidVersion => QrFailure::InvalidVersion,
            qrcode::types::QrError::UnsupportedCharacterSet => QrFailure::UnsupportedCharacterSet,
            qrcode::types::QrError::InvalidEciDesignator => QrFailure::InvalidEciDesignator,
            qrcode::types::QrError::InvalidCharacter => QrFailure::InvalidCharacter,
        }),
    }
}

/// How the `qrcode` crate words each failure.
pub open spec fn qr_failure_text(f: QrFailure) -> Seq<char> {
    match f {
        QrFailure::DataTooLong => "data too long"@,
        QrFailure::InvalidVersion => "invalid version"@,
        QrFailure::UnsupportedCharacterSet => "unsupported character set"@,
        QrFailure::InvalidEciDesignator => "invalid ECI designator"@,
        QrFailure::InvalidCharacter => "invalid character"@,
    }
}

fn failure_text(f: QrFailure) -> (s: &'static str)
    ensures
        s@ == qr_failure_text(f),
{
    match f {
        QrFailure::DataTooLong => "data too long",
        QrFailure::InvalidVersion => "invalid version",
        QrFailure::UnsupportedCharacterSet => "unsupported character set",
        QrFailure::InvalidEciDesignator => "invalid ECI designator",
        QrFailure::InvalidCharacter => "invalid character",
    }
}

/// Modules of a QR code.
#[derive(Debug, Clone)]
pub struct QrMatrix {
    /// Side length in modules (without the quiet zone).
    pub width: usize,
    /// Row-major bitmap; `true` = dark module.
    pub bits: Vec<bool>,
}

/// Turn an encoding result into the matrix, or the error
/// `qr encode: <reason>`.
pub fn qr_matrix_from(r: Result<(usize, Vec<bool>), QrFailure>) -> (m: Result<QrMatrix, Error>)
    ensures
        match r {
            Ok((w, bits)) => m matches Ok(q) && q.width == w && q.bits@ == bits@,
            Err(f) => m matches Err(e) && e.msg() == "qr encode: "@ + qr_failure_text(f),
        },
{
    match r {
        Ok((width, bits)) => Ok(QrMatrix { width, bits }),
        Err(f) => {
            let mut v = chars_of("qr encode: ");
            push_str(&mut v, failure_text(f));
            Err(Error::config(v.as_slice()))
        },
    }
}

/// QR matrix of a link URI (its UTF-8 bytes).
pub fn build_qr(uri: &str) -> (m: Result<QrMatrix, Error>)
    ensures
        match qr_encoding(vstd::utf8::encode_utf8(uri@)) {
            Ok((w, bits)) => m matches Ok(q) && q.width == w && q.bits@ == bits && q.bits@.len()
                == q.width * q.width,
            Err(f) => m matches Err(e) && e.msg() == "qr encode: "@ + qr_failure_text(f),
        },
{
    let r = qr_encode(uri.as_bytes());
    qr_matrix_from(r)
}

} // verus!
