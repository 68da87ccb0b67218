//! Classification of format codes, and the typed errors of the interpreter.
//!
//! A code is either one of the supported field selectors, or one of the
//! codes that are deliberately rejected with a remediation hint, or unknown.
//! Every rejection carries the offending code; the rendered message is part
//! of the observable contract.

use vstd::prelude::*;
use crate::strutil::str_eq;

verus! {

/// A supported format code: the commit field it selects.
#[derive(Clone, Copy, PartialEq, Eq, Structural)]
pub enum FormatCode {
    /// `H`: full commit hash, lowercase hex.
    FullHash,
    /// `h`: abbreviated commit hash, from the collaborator.
    AbbrevHash,
    /// `T`: full tree hash, lowercase hex.
    TreeHash,
    /// `t`: abbreviated tree hash, from the collaborator.
    AbbrevTreeHash,
    /// `P`: full parent hashes, in parent order.
    ParentHashes,
    /// `p`: abbreviated parent hashes, in parent order.
    AbbrevParentHashes,
    /// `an`: author name.
    AuthorName,
    /// `ae`: author email.
    AuthorEmail,
    /// `at`: author timestamp, POSIX seconds.
    AuthorTimestamp,
    /// `aI`: author timestamp, RFC 3339 with explicit offset.
    AuthorIso,
    /// `ct`: committer timestamp, POSIX seconds.
    CommitTimestamp,
    /// `cI`: committer timestamp, RFC 3339 with explicit offset.
    CommitIso,
    /// `D`: short names of the references pointing at this commit.
    RefNames,
    /// `s`: commit summary line.
    Summary,
    /// `B`: full commit message.
    FullMessage,
}

/// Why a code is rejected rather than interpreted.
#[derive(Clone, Copy, Debug, PartialEq, Eq, Structural)]
pub enum UnsupportedKind {
    /// `aN`/`aE`: mailmap resolution.
    Mailmap,
    /// `ad`/`aD`/`ar`/`ai`: pre-formatted author dates.
    AuthorDate,
    /// `cd`/`cD`/`cr`/`ci`: pre-formatted committer dates.
    CommitDate,
    /// `d`: formatted ref-name decoration.
    RefDecoration,
    /// `b`: body-only extraction.
    BodyOnly,
    /// `N`: commit notes.
    Notes,
    /// `GG`/`G?`/`GS`/`GK`: signature inspection.
    Signature,
    /// Any other code.
    NotFound,
}

/// What a format code means: a supported field, or a rejection.
#[derive(Clone, Copy, PartialEq, Eq, Structural)]
pub enum CodeClass {
    Supported(FormatCode),
    Rejected(UnsupportedKind),
}

/// The text field whose bytes were not valid UTF-8.
#[derive(Clone, Copy, Debug, PartialEq, Eq, Structural)]
pub enum TextField {
    AuthorName,
    AuthorEmail,
    Summary,
    Message,
}

/// The classification of one textual format code.
pub open spec fn spec_classify(code: Seq<char>) -> CodeClass {
    if code == "H"@ {
        CodeClass::Supported(FormatCode::FullHash)
    } else if code == "h"@ {
        CodeClass::Supported(FormatCode::AbbrevHash)
    } else if code == "T"@ {
        CodeClass::Supported(FormatCode::TreeHash)
    } else if code == "t"@ {
        CodeClass::Supported(FormatCode::AbbrevTreeHash)
    } else if code == "P"@ {
        CodeClass::Supported(FormatCode::ParentHashes)
    } else if code == "p"@ {
        CodeClass::Supported(FormatCode::AbbrevParentHashes)
    } else if code == "an"@ {
        CodeClass::Supported(FormatCode::AuthorName)
    } else if code == "ae"@ {
        CodeClass::Supported(FormatCode::AuthorEmail)
    } else if code == "aN"@ || code == "aE"@ {
        CodeClass::Rejected(UnsupportedKind::Mailmap)
    } else if code == "at"@ {
        CodeClass::Supported(FormatCode::AuthorTimestamp)
    } else if code == "aI"@ {
        CodeClass::Supported(FormatCode::AuthorIso)
    } else if code == "ad"@ || code == "aD"@ || code == "ar"@ || code == "ai"@ {
        CodeClass::Rejected(UnsupportedKind::AuthorDate)
    } else if code == "ct"@ {
        CodeClass::Supported(FormatCode::CommitTimestamp)
    } else if code == "cI"@ {
        CodeClass::Supported(FormatCode::CommitIso)
    } else if code == "cd"@ || code == "cD"@ || code == "cr"@ || code == "ci"@ {
        CodeClass::Rejected(UnsupportedKind::CommitDate)
    } else if code == "d"@ {
        CodeClass::Rejected(UnsupportedKind::RefDecoration)
    } else if code == "D"@ {
        CodeClass::Supported(FormatCode::RefNames)
    } else if code == "s"@ {
        CodeClass::Supported(FormatCode::Summary)
    } else if code == "b"@ {
        CodeClass::Rejected(UnsupportedKind::BodyOnly)
    } else if code == "B"@ {
        CodeClass::Supported(FormatCode::FullMessage)
    } else if code == "N"@ {
        CodeClass::Rejected(UnsupportedKind::Notes)
    } else if code == "GG"@ || code == "G?"@ || code == "GS"@ || code == "GK"@ {
        CodeClass::Rejected(UnsupportedKind::Signature)
    } else {
        CodeClass::Rejected(UnsupportedKind::NotFound)
    }
}

/// Classifies one textual format code.
pub fn classify_code(code: &str) -> (r: CodeClass)
    ensures
        r == spec_classify(code@),
{
    if str_eq(code, "H") {
        CodeClass::Supported(FormatCode::FullHash)
    } else if str_eq(code, "h") {
        CodeClass::Supported(FormatCode::AbbrevHash)
    } else if str_eq(code, "T") {
        CodeClass::Supported(FormatCode::TreeHash)
    } else if str_eq(code, "t") {
        CodeClass::Supported(FormatCode::AbbrevTreeHash)
    } else if str_eq(code, "P") {
        CodeClass::Supported(FormatCode::ParentHashes)
    } else if str_eq(code, "p") {
        CodeClass::Supported(FormatCode::AbbrevParentHashes)
    } else if str_eq(code, "an") {
        CodeClass::Supported(FormatCode::AuthorName)
    } else if str_eq(code, "ae") {
        CodeClass::Supported(FormatCode::AuthorEmail)
    } else if str_eq(code, "aN") || str_eq(code, "aE") {
        CodeClass::Rejected(UnsupportedKind::Mailmap)
    } else if str_eq(code, "at") {
        CodeClass::Supported(FormatCode::AuthorTimestamp)
    } else if str_eq(code, "aI") {
        CodeClass::Supported(FormatCode::AuthorIso)
    } else if str_eq(code, "ad") || str_eq(code, "aD") || str_eq(code, "ar") || str_eq(
        code,
        "ai",
    ) {
        CodeClass::Rejected(UnsupportedKind::AuthorDate)
    } else if str_eq(code, "ct") {
        CodeClass::Supported(FormatCode::CommitTimestamp)
    } else if str_eq(code, "cI") {
        CodeClass::Supported(FormatCode::CommitIso)
    } else if str_eq(code, "cd") || str_eq(code, "cD") || str_eq(code, "cr") || str_eq(
        code,
        "ci",
    ) {
        CodeClass::Rejected(UnsupportedKind::CommitDate)
    } else if str_eq(code, "d") {
        CodeClass::Rejected(UnsupportedKind::RefDecoration)
    } else if str_eq(code, "D") {
        CodeClass::Supported(FormatCode::RefNames)
    } else if str_eq(code, "s") {
        CodeClass::Supported(FormatCode::Summary)
    } else if str_eq(code, "b") {
        CodeClass::Rejected(UnsupportedKind::BodyOnly)
    } else if str_eq(code, "B") {
        CodeClass::Supported(FormatCode::FullMessage)
    } else if str_eq(code, "N") {
        CodeClass::Rejected(UnsupportedKind::Notes)
    } else if str_eq(code, "GG") || str_eq(code, "G?") || str_eq(code, "GS") || str_eq(
        code,
        "GK",
    ) {
        CodeClass::Rejected(UnsupportedKind::Signature)
    } else {
        CodeClass::Rejected(UnsupportedKind::NotFound)
    }
}

/// A typed interpreter error.
#[derive(Debug)]
pub enum FormatError {
    /// The code is recognized but deliberately rejected, or unknown.
    Unsupported { code: String, kind: UnsupportedKind },
    /// A text field of the commit is not valid UTF-8.
    InvalidText { field: TextField },
    /// The abbreviation collaborator produced no valid short hash.
    BadShortHash,
    /// The timestamp or offset lies outside the renderable range.
    TimestampOutOfRange,
}

/// The mathematical shape of a `FormatError`.
pub enum ErrSpec {
    Unsupported { code: Seq<char>, kind: UnsupportedKind },
    InvalidText { field: TextField },
    BadShortHash,
    TimestampOutOfRange,
}

impl View for FormatError {
    type V = ErrSpec;

    open spec fn view(&self) -> ErrSpec {
        match self {
            FormatError::Unsupported { code, kind } => ErrSpec::Unsupported {
                code: code@,
                kind: *kind,
            },
            FormatError::InvalidText { field } => ErrSpec::InvalidText { field: *field },
            FormatError::BadShortHash => ErrSpec::BadShortHash,
            FormatError::TimestampOutOfRange => ErrSpec::TimestampOutOfRange,
        }
    }
}

/// The remediation text for a rejected code.
pub open spec fn spec_reason(kind: UnsupportedKind) -> Seq<char> {
    match kind {
        UnsupportedKind::Mailmap => (
        "Mailmaps not currently supported, consider using `an`/`ae` instead of `aN`/`aE`")@,
        UnsupportedKind::AuthorDate => (
        "Formatted dates not supported, use `aI` and format the date yourself")@,
        UnsupportedKind::CommitDate => (
        "Formatted dates not supported, use `cI` and format the date yourself")@,
        UnsupportedKind::RefDecoration => (
        "Formatted ref names not supported, use `D` and format the names yourself")@,
        UnsupportedKind::BodyOnly => ("Body not supported, use `B` and extract the body yourself")@,
        UnsupportedKind::Notes => ("Notes not currently supported")@,
        UnsupportedKind::Signature => ("Signatures not currently supported")@,
        UnsupportedKind::NotFound => ("Not found")@,
    }
}

/// The single-line diagnostic for an error, as the run reports it.
pub open spec fn spec_message(e: ErrSpec) -> Seq<char> {
    match e {
        ErrSpec::Unsupported { code, kind } => "Invalid format `"@ + code + "`: "@ + spec_reason(
            kind,
        ),
        ErrSpec::InvalidText { field } => match field {
            TextField::AuthorName => ("Author name contains invalid UTF8")@,
            TextField::AuthorEmail => ("Author email contains invalid UTF8")@,
            TextField::Summary => ("Commit header contains invalid UTF8")@,
            TextField::Message => ("Commit message contains invalid UTF8")@,
        },
        ErrSpec::BadShortHash => ("libgit returned a bad shorthash")@,
        ErrSpec::TimestampOutOfRange => (
        "timestamp or offset out of range for ISO-8601 formatting")@,
    }
}

/// The remediation text for a rejected code.
fn reason_str(kind: UnsupportedKind) -> (r: &'static str)
    ensures
        r@ == spec_reason(kind),
{
    match kind {
        UnsupportedKind::Mailmap => "Mailmaps not currently supported, consider using `an`/`ae` instead of `aN`/`aE`",
        UnsupportedKind::AuthorDate => "Formatted dates not supported, use `aI` and format the date yourself",
        UnsupportedKind::CommitDate => "Formatted dates not supported, use `cI` and format the date yourself",
        UnsupportedKind::RefDecoration => "Formatted ref names not supported, use `D` and format the names yourself",
        UnsupportedKind::BodyOnly => "Body not supported, use `B` and extract the body yourself",
        UnsupportedKind::Notes => "Notes not currently supported",
        UnsupportedKind::Signature => "Signatures not currently supported",
        UnsupportedKind::NotFound => "Not found",
    }
}

impl FormatError {
    /// Renders the single-line diagnostic for this error.
    pub fn message(&self) -> (r: String)
        ensures
            r@ == spec_message(self@),
    {
        match self {
            FormatError::Unsupported { code, kind } => {
                let mut m = String::from_str("Invalid format `");
                m.append(code.as_str());
                m.append("`: ");
                m.append(reason_str(*kind));
                proof {
                    assert(m@ =~= spec_message(self@));
                }
                m
            },
            FormatError::InvalidText { field } => match field {
                TextField::AuthorName => String::from_str("Author name contains invalid UTF8"),
                TextField::AuthorEmail => String::from_str("Author email contains invalid UTF8"),
                TextField::Summary => String::from_str("Commit header contains invalid UTF8"),
                TextField::Message => String::from_str("Commit message contains invalid UTF8"),
            },
            FormatError::BadShortHash => String::from_str("libgit returned a bad shorthash"),
            FormatError::TimestampOutOfRange => String::from_str(
                "timestamp or offset out of range for ISO-8601 formatting",
            ),
        }
    }
}

} // verus!
