use vstd::prelude::*;

verus! {

/// The tools of the collection, in the order they are cycled through.
#[derive(Debug, Clone, Copy, PartialEq, Eq, Structural)]
pub enum Tool {
    Base64Encoder,
    ColorConverter,
    DateConverter,
    HashGenerator,
    NumberBaseConverter,
    PasswordGenerator,
    QRCodeGenerator,
    UuidGenerator,
}

/// How many tools there are.
pub const TOOL_COUNT: usize = 8;

impl Tool {
    /// The tool's place in the cycle, from 0.
    pub open spec fn position(self) -> nat {
        match self {
            Tool::Base64Encoder => 0,
            Tool::ColorConverter => 1,
            Tool::DateConverter => 2,
            Tool::HashGenerator => 3,
            Tool::NumberBaseConverter => 4,
            Tool::PasswordGenerator => 5,
            Tool::QRCodeGenerator => 6,
            Tool::UuidGenerator => 7,
        }
    }

    /// The tool's place in the cycle, from 0.
    pub fn index(self) -> (r: usize)
        ensures
            r == self.position(),
            r < TOOL_COUNT,
    {
        match self {
            Tool::Base64Encoder => 0,
            Tool::ColorConverter => 1,
            Tool::DateConverter => 2,
            Tool::HashGenerator => 3,
            Tool::NumberBaseConverter => 4,
            Tool::PasswordGenerator => 5,
            Tool::QRCodeGenerator => 6,
            Tool::UuidGenerator => 7,
        }
    }

    /// The tool after this one, the last one wrapping round to the first.
    pub fn next(self) -> (r: Tool)
        ensures
            r.position() == (self.position() + 1) % (TOOL_COUNT as nat),
    {
        match self {
            Tool::Base64Encoder => Tool::ColorConverter,
            Tool::ColorConverter => Tool::DateConverter,
            Tool::DateConverter => Tool::HashGenerator,
            Tool::HashGenerator => Tool::NumberBaseConverter,
            Tool::NumberBaseConverter => Tool::PasswordGenerator,
            Tool::PasswordGenerator => Tool::QRCodeGenerator,
            Tool::QRCodeGenerator => Tool::UuidGenerator,
            Tool::UuidGenerator => Tool::Base64Encoder,
        }
    }
}

} // verus!
