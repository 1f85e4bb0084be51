//! The errors of the library.

use crate::format::FormatDefect;
use vstd::prelude::*;
use vstd::string::*;

verus! {

/// The part that a file plays in an operation.
#[derive(Clone, Copy, Debug, PartialEq, Eq, Structural)]
pub enum FileRole {
    /// The earlier version of the content.
    Old,
    /// The later version of the content.
    New,
    /// The patch that leads from the old version to the new one.
    Patch,
    /// A file that is looked at for its own sake.
    Any,
}

/// Why an operation failed.
#[derive(Clone, Debug, PartialEq, Eq)]
pub enum PatchError {
    /// Nothing exists at the path.
    NotFound { role: FileRole, path: String },
    /// The path names something that is not a regular file.
    NotAFile { path: String },
    /// The file could not be read, or the patch could not be produced for it.
    IoError { path: String, cause: String },
    /// The old input is too long for the delta engine: `max` is the
    /// maximum that the engine declares, and it takes shorter inputs only.
    InputTooLarge { actual: u64, max: u64 },
    /// The patch does not have the layout of a patch file.
    FormatError { defect: FormatDefect },
    /// The delta engine could not apply the patch to the old input.
    ApplyError { reason: String },
    /// Access to the path was refused.
    PermissionError { path: String },
}

/// A [`PatchError`] with its texts as sequences of characters.
pub enum PatchErrorView {
    NotFound { role: FileRole, path: Seq<char> },
    NotAFile { path: Seq<char> },
    IoError { path: Seq<char>, cause: Seq<char> },
    InputTooLarge { actual: u64, max: u64 },
    FormatError { defect: FormatDefect },
    ApplyError { reason: Seq<char> },
    PermissionError { path: Seq<char> },
}

impl View for PatchError {
    type V = PatchErrorView;

    open spec fn view(&self) -> PatchErrorView {
        match *self {
            PatchError::NotFound { role, path } => PatchErrorView::NotFound { role, path: path@ },
            PatchError::NotAFile { path } => PatchErrorView::NotAFile { path: path@ },
            PatchError::IoError { path, cause } => PatchErrorView::IoError {
                path: path@,
                cause: cause@,
            },
            PatchError::InputTooLarge { actual, max } => PatchErrorView::InputTooLarge {
                actual,
                max,
            },
            PatchError::FormatError { defect } => PatchErrorView::FormatError { defect },
            PatchError::ApplyError { reason } => PatchErrorView::ApplyError { reason: reason@ },
            PatchError::PermissionError { path } => PatchErrorView::PermissionError {
                path: path@,
            },
        }
    }
}

/// The character of a decimal digit.
pub open spec fn digit(value: nat) -> char {
    if value == 0 {
        '0'
    } else if value == 1 {
        '1'
    } else if value == 2 {
        '2'
    } else if value == 3 {
        '3'
    } else if value == 4 {
        '4'
    } else if value == 5 {
        '5'
    } else if value == 6 {
        '6'
    } else if value == 7 {
        '7'
    } else if value == 8 {
        '8'
    } else {
        '9'
    }
}

/// A number in decimal digits, without leading zeros.
pub open spec fn decimal(value: nat) -> Seq<char>
    decreases value,
{
    if value < 10 {
        seq![digit(value)]
    } else {
        decimal(value / 10).push(digit(value % 10))
    }
}

/// What a file in the part `role` is called in a message.
pub open spec fn role_text(role: FileRole) -> Seq<char> {
    match role {
        FileRole::Old => "Old file"@,
        FileRole::New => "New file"@,
        FileRole::Patch => "Patch file"@,
        FileRole::Any => "File"@,
    }
}

/// What a defect of a patch header is called in a message.
pub open spec fn defect_text(defect: FormatDefect) -> Seq<char> {
    match defect {
        FormatDefect::TooShort => "shorter than a patch header"@,
        FormatDefect::BadMagic => "the BSDIFF40 magic is missing"@,
        FormatDefect::BlocksExceedPatch => "the declared blocks exceed the patch"@,
    }
}

/// The message of an error.
pub open spec fn message_text(error: PatchErrorView) -> Seq<char> {
    match error {
        PatchErrorView::NotFound { role, path } => role_text(role) + " not found: "@ + path,
        PatchErrorView::NotAFile { path } => "Path is not a file: "@ + path,
        PatchErrorView::IoError { path, cause } => "I/O error on "@ + path + ": "@ + cause,
        PatchErrorView::InputTooLarge { actual, max } => "Old file too large: "@ + decimal(
            actual as nat,
        ) + " bytes (max: "@ + decimal(max as nat) + " bytes)"@,
        PatchErrorView::FormatError { defect } => "Invalid patch format: "@ + defect_text(defect),
        PatchErrorView::ApplyError { reason } => "Failed to apply patch: "@ + reason,
        PatchErrorView::PermissionError { path } => "Permission denied: "@ + path,
    }
}

/// The text of one decimal digit.
fn digit_str(value: u64) -> (text: &'static str)
    requires
        value < 10,
    ensures
        text@ == seq![digit(value as nat)],
{
    proof {
        reveal_strlit("0");
        reveal_strlit("1");
        reveal_strlit("2");
        reveal_strlit("3");
        reveal_strlit("4");
        reveal_strlit("5");
        reveal_strlit("6");
        reveal_strlit("7");
        reveal_strlit("8");
        reveal_strlit("9");
    }
    let text = if value == 0 {
        "0"
    } else if value == 1 {
        "1"
    } else if value == 2 {
        "2"
    } else if value == 3 {
        "3"
    } else if value == 4 {
        "4"
    } else if value == 5 {
        "5"
    } else if value == 6 {
        "6"
    } else if value == 7 {
        "7"
    } else if value == 8 {
        "8"
    } else {
        "9"
    };
    assert(text@ =~= seq![digit(value as nat)]);
    text
}

/// Writes a number in decimal digits, without leading zeros.
pub fn decimal_string(value: u64) -> (text: String)
    ensures
        text@ == decimal(value as nat),
    decreases value,
{
    if value < 10 {
        String::from_str(digit_str(value))
    } else {
        let mut text = decimal_string(value / 10);
        text.append(digit_str(value % 10));
        assert(text@ =~= decimal((value / 10) as nat).push(digit((value % 10) as nat)));
        text
    }
}

impl FileRole {
    /// What a file in this part is called in a message.
    pub fn text(&self) -> (text: &'static str)
        ensures
            text@ == role_text(*self),
    {
        match self {
            FileRole::Old => "Old file",
            FileRole::New => "New file",
            FileRole::Patch => "Patch file",
            FileRole::Any => "File",
        }
    }
}

impl FormatDefect {
    /// What the defect is called in a message.
    pub fn text(&self) -> (text: &'static str)
        ensures
            text@ == defect_text(*self),
    {
        match self {
            FormatDefect::TooShort => "shorter than a patch header",
            FormatDefect::BadMagic => "the BSDIFF40 magic is missing",
            FormatDefect::BlocksExceedPatch => "the declared blocks exceed the patch",
        }
    }
}

impl PatchError {
    /// The error of a write to `path` that the host could not complete:
    /// `PermissionError` where the write was refused, `IoError` with the
    /// cause for every other failure.
    pub fn write_failure(path: &str, refused: bool, cause: &str) -> (error: PatchError)
        ensures
            refused ==> error@ == (PatchErrorView::PermissionError { path: path@ }),
            !refused ==> error@ == (PatchErrorView::IoError { path: path@, cause: cause@ }),
    {
        if refused {
            PatchError::PermissionError { path: path.to_owned() }
        } else {
            PatchError::IoError { path: path.to_owned(), cause: cause.to_owned() }
        }
    }

    /// The message of the error: what failed, and on which path or with
    /// which numbers.
    pub fn message(&self) -> (text: String)
        ensures
            text@ == message_text(self@),
    {
        match self {
            PatchError::NotFound { role, path } => {
                let mut text = String::from_str(role.text());
                text.append(" not found: ");
                text.append(path.as_str());
                text
            },
            PatchError::NotAFile { path } => {
                let mut text = String::from_str("Path is not a file: ");
                text.append(path.as_str());
                text
            },
            PatchError::IoError { path, cause } => {
                let mut text = String::from_str("I/O error on ");
                text.append(path.as_str());
                text.append(": ");
                text.append(cause.as_str());
                text
            },
            PatchError::InputTooLarge { actual, max } => {
                let mut text = String::from_str("Old file too large: ");
                text.append(decimal_string(*actual).as_str());
                text.append(" bytes (max: ");
                text.append(decimal_string(*max).as_str());
                text.append(" bytes)");
                text
            },
            PatchError::FormatError { defect } => {
                let mut text = String::from_str("Invalid patch format: ");
                text.append(defect.text());
                text
            },
            PatchError::ApplyError { reason } => {
                let mut text = String::from_str("Failed to apply patch: ");
                text.append(reason.as_str());
                text
            },
            PatchError::PermissionError { path } => {
                let mut text = String::from_str("Permission denied: ");
                text.append(path.as_str());
                text
            },
        }
    }
}

} // verus!
