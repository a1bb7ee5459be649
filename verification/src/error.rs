//! The ways in which a compilation can fail.

use crate::chip8::{append_hex3, hex3};
use crate::label::Label;
use vstd::prelude::*;
use vstd::string::*;

verus! {

/// Why a compilation failed.
#[derive(Debug, Clone, Copy, PartialEq, Eq, Structural)]
pub enum CompileError {
    /// The ROM holds no bytes.
    EmptyInput,
    /// A reference was made to a label that was never defined.
    UnknownLabel(Label),
    /// A label was defined a second time.
    DuplicateLabel(Label),
    /// The emitted code does not fit in the image.
    ImageTooLarge,
    /// A `JP` or `CALL` targets an address that holds no scanned
    /// instruction.
    UnknownBranchTarget(u16),
}

impl CompileError {
    /// The one-line text of the error.
    pub open spec fn spec_message(self) -> Seq<char> {
        match self {
            CompileError::EmptyInput => "ROM file is empty"@,
            CompileError::UnknownLabel(l) => "Undefined label: "@ + l.spec_name(),
            CompileError::DuplicateLabel(l) => "Duplicate label: "@ + l.spec_name(),
            CompileError::ImageTooLarge => "Image too large"@,
            CompileError::UnknownBranchTarget(a) => "Branch to unknown address "@ + hex3(a),
        }
    }

    /// The one-line text of the error.
    pub fn message(&self) -> (r: String)
        ensures
            r@ == self.spec_message(),
    {
        match self {
            CompileError::EmptyInput => String::from_str("ROM file is empty"),
            CompileError::UnknownLabel(l) => {
                let mut s = String::from_str("Undefined label: ");
                let n = l.name();
                s.append(n.as_str());
                s
            },
            CompileError::DuplicateLabel(l) => {
                let mut s = String::from_str("Duplicate label: ");
                let n = l.name();
                s.append(n.as_str());
                s
            },
            CompileError::ImageTooLarge => String::from_str("Image too large"),
            CompileError::UnknownBranchTarget(a) => {
                let mut s = String::from_str("Branch to unknown address ");
                append_hex3(&mut s, *a);
                s
            },
        }
    }
}

} // verus!
