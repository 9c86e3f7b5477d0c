use vstd::prelude::*;

verus! {

#[verifier::external_type_specification]
#[verifier::external_body]
pub struct ExQrCode(qrcode::QrCode);

/// Whether the bytes of `s` fit in a QR code at error-correction level M.
pub uninterp spec fn qr_encodable(s: Seq<char>) -> bool;

/// Encodes a text as a QR code and draws it for the terminal.
pub struct QRCodeGenerator {
    /// The text to encode.
    pub input: String,
    /// The code last generated, if any.
    pub qr_code: Option<qrcode::QrCode>,
    /// A status line about the last export, for display.
    pub tools_export_message: Option<String>,
}

impl QRCodeGenerator {
    /// Creates a generator with empty input and no code.
    pub fn new() -> (r: Self)
        ensures
            r.input@.len() == 0,
            r.qr_code is None,
            r.tools_export_message is None,
    {
        QRCodeGenerator { input: String::new(), qr_code: None, tools_export_message: None }
    }

    /// Encodes `input`; a text too long for a QR code leaves no code.
    pub fn generate_qr_code(&mut self)
        ensures
            final(self).input == old(self).input,
            final(self).tools_export_message == old(self).tools_export_message,
            final(self).qr_code is Some <==> qr_encodable(old(self).input@),
    {
        self.qr_code = encode_qr(self.input.as_str());
    }

    /// The code drawn with Unicode half blocks and no quiet zone, or a hint
    /// to enter some data when there is no code yet.
    pub fn get_qr_string(&self) -> (r: String)
        ensures
            self.qr_code is None ==> r@
                == "No QR code generated yet, Please enter the data in the input field to create one."@,
    {
        match &self.qr_code {
            Some(qr) => render_dense(qr),
            None => String::from_str(
                "No QR code generated yet, Please enter the data in the input field to create one.",
            ),
        }
    }
}

/// Relies on `qrcode::QrCode::new`: a code at level M for the bytes of `s`,
/// or `None` where the data does not fit.
#[verifier::external_body]
fn encode_qr(s: &str) -> (r: Option<qrcode::QrCode>)
    ensures
        r is Some <==> qr_encodable(s@),
{
    qrcode::QrCode::new(s.as_bytes()).ok()
}

/// Relies on `qrcode::QrCode::render` with the `unicode::Dense1x2` renderer
/// and no quiet zone.
#[verifier::external_body]
fn render_dense(qr: &qrcode::QrCode) -> String {
    qr.render::<qrcode::render::unicode::Dense1x2>().quiet_zone(false).build()
}

} // verus!
