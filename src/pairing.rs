use vstd::prelude::*;

verus! {

/// The error of `qrcode` when a text fits in no QR code; carried opaquely.
#[verifier::external_type_specification]
#[verifier::external_body]
pub struct ExQrError(qrcode::types::QrError);

/// The terminal drawing of the QR code for a text, when the text fits in one.
pub uninterp spec fn qr_drawing_of(code: Seq<char>) -> Option<Seq<char>>;

/// Relies on `qrcode::QrCode::new` and its unicode renderer: the code for
/// the text's bytes at error correction level M, drawn with half-block
/// characters in inverted colours. Whether it fits, and the drawing, depend
/// on the text alone.
#[verifier::external_body]
fn draw_qr(code: &str) -> (r: Result<String, qrcode::types::QrError>)
    ensures
        match r {
            Ok(s) => qr_drawing_of(code@) == Some(s@),
            Err(_) => qr_drawing_of(code@) is None,
        },
{
    let qr = qrcode::QrCode::new(code.as_bytes())?;
    Ok(qr.render::<qrcode::render::unicode::Dense1x2>()
        .dark_color(qrcode::render::unicode::Dense1x2::Light)
        .light_color(qrcode::render::unicode::Dense1x2::Dark)
        .build())
}

/// The descriptions that `qrcode` gives of its errors.
pub open spec fn is_qr_error_text(t: Seq<char>) -> bool {
    t == "data too long"@ || t == "invalid version"@ || t == "unsupported character set"@ || t
        == "invalid ECI designator"@ || t == "invalid character"@
}

/// Relies on the `Display` of `qrcode::types::QrError`: one fixed
/// description for each of its five variants.
#[verifier::external_body]
fn qr_error_text(e: &qrcode::types::QrError) -> (r: String)
    ensures
        is_qr_error_text(r@),
{
    e.to_string()
}

/// What the operator is shown for a pairing code.
#[derive(Clone, Debug)]
pub enum PairingDisplay {
    /// Lines to print: a banner, the drawn code, and how to link a device.
    Scan(Vec<String>),
    /// No code could be drawn: why, and the raw pairing text.
    Failed { reason: String, raw: String },
}

/// The lines printed around a drawn code.
pub open spec fn scan_lines(drawing: Seq<char>) -> Seq<Seq<char>> {
    seq![
        "\n╔═══════════════════════════════════════════╗"@,
        "║     Scan this QR code with WhatsApp       ║"@,
        "╚═══════════════════════════════════════════╝\n"@,
        drawing,
        "\nOpen WhatsApp → Settings → Linked Devices → Link a Device\n"@,
    ]
}

/// The text of each line.
pub open spec fn lines_view(v: Seq<String>) -> Seq<Seq<char>> {
    v.map_values(|s: String| s@)
}

/// The display for pairing text `code`, given `drawing`, its drawn QR code
/// or why none could be made.
pub fn pairing_display_from(code: &str, drawing: Result<String, String>) -> (r: PairingDisplay)
    ensures
        match drawing {
            Ok(d) => match r {
                PairingDisplay::Scan(lines) => lines_view(lines@) == scan_lines(d@),
                _ => false,
            },
            Err(why) => match r {
                PairingDisplay::Failed { reason, raw } => reason@ == why@ && raw@ == code@,
                _ => false,
            },
        },
{
    match drawing {
        Ok(d) => {
            let ghost dv = d@;
            let lines = vec![
                "\n╔═══════════════════════════════════════════╗".to_string(),
                "║     Scan this QR code with WhatsApp       ║".to_string(),
                "╚═══════════════════════════════════════════╝\n".to_string(),
                d,
                "\nOpen WhatsApp → Settings → Linked Devices → Link a Device\n".to_string(),
            ];
            assert(lines_view(lines@) =~= scan_lines(dv));
            PairingDisplay::Scan(lines)
        },
        Err(why) => PairingDisplay::Failed { reason: why, raw: code.to_string() },
    }
}

/// The display for pairing text `code`: its QR code with instructions, or,
/// when the text fits in no QR code, `qrcode`'s description of why and the
/// raw text.
pub fn pairing_display(code: &str) -> (r: PairingDisplay)
    ensures
        match qr_drawing_of(code@) {
            Some(d) => match r {
                PairingDisplay::Scan(lines) => lines_view(lines@) == scan_lines(d),
                _ => false,
            },
            None => match r {
                PairingDisplay::Failed { reason, raw } => is_qr_error_text(reason@) && raw@ == code@,
                _ => false,
            },
        },
{
    let drawing = match draw_qr(code) {
        Ok(d) => Ok(d),
        Err(e) => Err(qr_error_text(&e)),
    };
    pairing_display_from(code, drawing)
}

} // verus!
