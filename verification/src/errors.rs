use vstd::prelude::*;

verus! {

/// Which declaration family a discriminator check failed in.
#[derive(Clone, Copy, Debug, PartialEq, Eq, Structural)]
pub enum DiscKind {
    Account,
    Instruction,
    Event,
}

/// The errors the document operations can report.
#[derive(Debug)]
pub enum IdlError {
    /// No line of the scanned source declares the program identifier.
    MacroNotFound,
    /// The declaring line does not carry a complete quoted literal.
    MalformedLiteral,
    /// The template document has no string `name` member.
    MissingProgramName,
    /// The template document is not a JSON object.
    MalformedTemplate,
    /// The document's `address` field is empty.
    MissingAddress,
    /// The document's `metadata.name` field is empty.
    MissingName,
    /// The document's `metadata.version` field is empty.
    MissingVersion,
    /// A declaration of the named kind carries an empty discriminator.
    EmptyDiscriminator { kind: DiscKind, name: String },
}

} // verus!
