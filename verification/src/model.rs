use vstd::prelude::*;

verus! {

/// The length of an array type: a literal element count, or the name of a
/// generic parameter standing for the count.
pub enum IdlArrayLen {
    Literal(u64),
    Generic(String),
}

/// One argument applied to a parameterized user-declared type: either a type
/// expression or the literal text of a constant value.
pub enum IdlGenericArg {
    Type { ty: IdlType },
    Const { value: String },
}

/// A type expression of the document model: scalar kinds, the recursive
/// forms, and a placeholder for variants this model does not know.
pub enum IdlType {
    Bool,
    U8,
    I8,
    U16,
    I16,
    U32,
    I32,
    F32,
    U64,
    I64,
    F64,
    U128,
    I128,
    U256,
    I256,
    Bytes,
    Text,
    Pubkey,
    OptionOf(Box<IdlType>),
    VecOf(Box<IdlType>),
    Array(Box<IdlType>, IdlArrayLen),
    Defined { name: String, generics: Vec<IdlGenericArg> },
    Generic(String),
    Unknown,
}

/// The part of a program-derived-address descriptor the document operations
/// read: how many seeds the address is derived from.
pub struct IdlPda {
    pub seed_count: u64,
}

/// A leaf account requirement of an instruction.
pub struct IdlInstructionAccount {
    pub name: String,
    pub writable: bool,
    pub signer: bool,
    pub optional: bool,
    pub pda: Option<IdlPda>,
}

/// An entry of an instruction's account list: a leaf account, or a named
/// group of further entries, nested arbitrarily deep.
pub enum IdlInstructionAccountItem {
    Single(IdlInstructionAccount),
    Composite { name: String, accounts: Vec<IdlInstructionAccountItem> },
}

/// A named, typed, documented argument of an instruction.
pub struct IdlField {
    pub name: String,
    pub docs: Vec<String>,
    pub ty: IdlType,
}

/// One callable instruction of the document.
pub struct IdlInstruction {
    pub name: String,
    pub docs: Vec<String>,
    pub discriminator: Vec<u8>,
    pub accounts: Vec<IdlInstructionAccountItem>,
    pub args: Vec<IdlField>,
    pub returns: Option<IdlType>,
}

/// A named declaration tagged on the wire by a discriminator; the document's
/// account and event lists are sequences of these.
pub struct IdlItemDecl {
    pub name: String,
    pub discriminator: Vec<u8>,
}

/// A user-declared type of the document; only its name is modeled here.
pub struct IdlTypeDecl {
    pub name: String,
}

/// The document's name and version metadata.
pub struct IdlMetadata {
    pub name: String,
    pub version: String,
}

/// A parsed document describing a program's callable surface.
pub struct IdlDocument {
    pub address: String,
    pub metadata: IdlMetadata,
    pub instructions: Vec<IdlInstruction>,
    pub accounts: Vec<IdlItemDecl>,
    pub events: Vec<IdlItemDecl>,
    pub types: Vec<IdlTypeDecl>,
}

} // verus!
