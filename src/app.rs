use crate::base64_encoder::Base64Encoder;
use crate::color_converter::ColorConverter;
use crate::date_converter::DateConverter;
use crate::hash_generator::HashGenerator;
use crate::number_base_converter::NumberBaseConverter;
use crate::password_generator::PasswordGenerator;
use crate::qr_code_generator::QRCodeGenerator;
use crate::tool::Tool;
use crate::uuid_generator::UuidGenerator;
use vstd::prelude::*;

verus! {

/// Every tool of the collection and which one is selected.
pub struct App {
    /// The tool being shown.
    pub current_tool: Tool,
    pub base64_encoder: Base64Encoder,
    pub color_converter: ColorConverter,
    pub date_converter: DateConverter,
    pub hash_generator: HashGenerator,
    pub number_base_converter: NumberBaseConverter,
    pub password_generator: PasswordGenerator,
    pub qr_code_generator: QRCodeGenerator,
    pub uuid_generator: UuidGenerator,
}

impl App {
    /// Creates every tool in its initial state, the base64 encoder selected.
    pub fn new() -> (r: App)
        ensures
            r.current_tool == Tool::Base64Encoder,
            r.base64_encoder.input@.len() == 0,
            r.color_converter.input@.len() == 0,
            r.date_converter.input@.len() == 0,
            r.hash_generator.input_text().len() == 0,
            r.number_base_converter.base_from == 10,
            r.number_base_converter.base_to == 2,
            r.password_generator.length == 12,
            r.password_generator.quantity == 1,
            r.qr_code_generator.qr_code is None,
            r.uuid_generator.length == 1,
    {
        App {
            current_tool: Tool::Base64Encoder,
            base64_encoder: Base64Encoder::new(),
            color_converter: ColorConverter::new(),
            date_converter: DateConverter::new(),
            hash_generator: HashGenerator::new(),
            number_base_converter: NumberBaseConverter::new(),
            password_generator: PasswordGenerator::new(),
            qr_code_generator: QRCodeGenerator::new(),
            uuid_generator: UuidGenerator::new(),
        }
    }

    /// Selects the next tool, the last one wrapping round to the first.
    pub fn next_tool(&mut self)
        ensures
            *final(self) == (App { current_tool: final(self).current_tool, ..*old(self) }),
            final(self).current_tool.position() == (old(self).current_tool.position() + 1) % 8,
    {
        self.current_tool = self.current_tool.next();
    }
}

} // verus!
