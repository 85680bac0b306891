//! The invoice overlay: the invoice to pay, drawn as a QR code.
use vstd::prelude::*;

verus! {

/// The invoice that the overlay shows.
pub struct CurrentQrString(pub String);

/// Error correction level of a QR code, from lowest to highest.
#[derive(Clone, Copy, PartialEq, Eq, Structural, Debug)]
pub enum QrEcLevel {
    L,
    M,
    Q,
    H,
}

/// The SVG picture that the `qrcode` crate draws for `data` as a QR code of
/// the given (normal) version and error correction level, sized by
/// `min_px` and `max_px` and coloured with `dark` and `light`; `None` when the
/// data does not fit in such a code.
pub uninterp spec fn qr_svg(
    data: Seq<char>,
    version: i16,
    ec_level: QrEcLevel,
    min_px: u32,
    max_px: u32,
    dark: Seq<char>,
    light: Seq<char>,
) -> Option<Seq<char>>;

/// Largest picture size, in pixels, that the drawing is asked for.
pub const QR_MAX_PX: u32 = 100_000;

/// Draws `data` as a QR code in SVG: `qrcode::QrCode::with_version` with
/// `Version::Normal(version)`, then `render::<svg::Color>()` with
/// `min_dimensions`, `max_dimensions`, `dark_color`, `light_color` and
/// `build`. The picture is a function of the arguments alone and is only
/// named here; the contract says no more of it. `with_version` reports data
/// that does not fit as an error, which becomes `None`.
#[verifier::external_body]
fn render_qr_svg(
    data: &str,
    version: i16,
    ec_level: QrEcLevel,
    min_px: u32,
    max_px: u32,
    dark: &str,
    light: &str,
) -> (r: Option<String>)
    requires
        1 <= version <= 40,
        min_px <= QR_MAX_PX,
        max_px <= QR_MAX_PX,
    ensures
        match r {
            Some(s) => qr_svg(data@, version, ec_level, min_px, max_px, dark@, light@) == Some(s@),
            None => qr_svg(data@, version, ec_level, min_px, max_px, dark@, light@) is None,
        },
{
    let ec = match ec_level {
        QrEcLevel::L => qrcode::EcLevel::L,
        QrEcLevel::M => qrcode::EcLevel::M,
        QrEcLevel::Q => qrcode::EcLevel::Q,
        QrEcLevel::H => qrcode::EcLevel::H,
    };
    let code = qrcode::QrCode::with_version(data, qrcode::Version::Normal(version), ec).ok()?;
    Some(code.render::<qrcode::render::svg::Color>().min_dimensions(min_px, min_px).max_dimensions(
        max_px,
        max_px,
    ).dark_color(qrcode::render::svg::Color(dark)).light_color(qrcode::render::svg::Color(light)).build())
}

/// Version of the QR code that shows an invoice: 53 modules a side.
pub const INVOICE_QR_VERSION: i16 = 9;

/// Smallest size, in pixels, of the invoice picture.
pub const INVOICE_QR_MIN_PX: u32 = 200;

/// Largest size, in pixels, of the invoice picture.
pub const INVOICE_QR_MAX_PX: u32 = 300;

/// The picture of the invoice in `qr`: a version 9 QR code with low error
/// correction, 200 to 300 pixels wide, dark red on light yellow; `None` when
/// the invoice does not fit in such a code.
pub fn setup_qr(qr: &CurrentQrString) -> (r: Option<String>)
    ensures
        match r {
            Some(s) => qr_svg(qr.0@, 9, QrEcLevel::L, 200, 300, "#800000"@, "#ffff80"@) == Some(s@),
            None => qr_svg(qr.0@, 9, QrEcLevel::L, 200, 300, "#800000"@, "#ffff80"@) is None,
        },
{
    render_qr_svg(
        qr.0.as_str(),
        INVOICE_QR_VERSION,
        QrEcLevel::L,
        INVOICE_QR_MIN_PX,
        INVOICE_QR_MAX_PX,
        "#800000",
        "#ffff80",
    )
}

} // verus!
