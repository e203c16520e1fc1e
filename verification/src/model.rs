//! The schema data model: the entities that together form one IDL document.
//!
//! All entities are immutable value types with structural equality. A document
//! is produced in one load step by a deserialization collaborator outside this
//! library and is read-only afterwards; the only recursive structure is the
//! type-expression tree [`IdlType`] (and the account-item tree, which nests
//! account groups).

use vstd::prelude::*;

verus! {

/// One IDL document: address, metadata, docs, and the ordered sequences of
/// instructions, accounts, events, errors, type definitions and constants.
/// `instructions` is the only sequence that is required by construction;
/// every other field defaults to its empty value.
#[derive(Debug, PartialEq)]
pub struct Idl {
    pub address: String,
    pub metadata: IdlMetadata,
    pub docs: Vec<String>,
    pub instructions: Vec<IdlInstruction>,
    pub accounts: Vec<IdlAccount>,
    pub events: Vec<IdlEvent>,
    pub errors: Vec<IdlErrorCode>,
    pub types: Vec<IdlTypeDef>,
    pub constants: Vec<IdlConst>,
}

/// Document metadata: name, version and spec identifier are required strings;
/// the rest is optional or defaults to empty.
#[derive(Debug, Clone, PartialEq)]
pub struct IdlMetadata {
    pub name: String,
    pub version: String,
    pub spec: String,
    pub description: Option<String>,
    pub repository: Option<String>,
    pub dependencies: Vec<IdlDependency>,
    pub contact: Option<String>,
    pub deployments: Option<IdlDeployments>,
}

/// A named dependency of the program: a name and a version.
#[derive(Debug, Clone, PartialEq)]
pub struct IdlDependency {
    pub name: String,
    pub version: String,
}

/// Optional per-network deployment addresses.
#[derive(Debug, Clone, PartialEq)]
pub struct IdlDeployments {
    pub mainnet: Option<String>,
    pub testnet: Option<String>,
    pub devnet: Option<String>,
    pub localnet: Option<String>,
}

/// One instruction of the program: its wire discriminator, the accounts it
/// touches, its argument fields and an optional return type.
#[derive(Debug, PartialEq)]
pub struct IdlInstruction {
    pub name: String,
    pub docs: Vec<String>,
    pub discriminator: IdlDiscriminator,
    pub accounts: Vec<IdlInstructionAccountItem>,
    pub args: Vec<IdlField>,
    pub returns: Option<IdlType>,
}

/// An entry of an instruction's account list: either a single account or a
/// named group of nested entries. A group is recognized structurally, by the
/// presence of a nested `accounts` sequence.
#[derive(Debug, PartialEq)]
pub enum IdlInstructionAccountItem {
    Composite(IdlInstructionAccounts),
    Single(IdlInstructionAccount),
}

/// A single account taken by an instruction, with its access flags, an
/// optional fixed address, an optional PDA derivation spec and relation names.
#[derive(Debug, Clone, PartialEq)]
pub struct IdlInstructionAccount {
    pub name: String,
    pub docs: Vec<String>,
    pub writable: bool,
    pub signer: bool,
    pub optional: bool,
    pub address: Option<String>,
    pub pda: Option<IdlPda>,
    pub relations: Vec<String>,
}

/// A named group of account entries, nested arbitrarily.
#[derive(Debug, PartialEq)]
pub struct IdlInstructionAccounts {
    pub name: String,
    pub accounts: Vec<IdlInstructionAccountItem>,
}

/// A program-derived-address specification: the ordered seeds and an optional
/// seed naming the owning program.
#[derive(Debug, Clone, PartialEq, Eq, Hash)]
pub struct IdlPda {
    pub seeds: Vec<IdlSeed>,
    pub program: Option<IdlSeed>,
}

/// One seed of a PDA derivation: constant bytes, an instruction-argument
/// path, or an account-field path. Seed equality is structural and total, so
/// seeds can take part in set- or hash-based deduplication.
#[derive(Debug, Clone, PartialEq, Eq, Hash)]
pub enum IdlSeed {
    Const(IdlSeedConst),
    Arg(IdlSeedArg),
    Account(IdlSeedAccount),
}

/// A constant-bytes seed.
#[derive(Debug, Clone, PartialEq, Eq, Hash)]
pub struct IdlSeedConst {
    pub value: Vec<u8>,
}

/// A seed that refers to an instruction argument by path.
#[derive(Debug, Clone, PartialEq, Eq, Hash)]
pub struct IdlSeedArg {
    pub path: String,
}

/// A seed that refers to a field of an account by path, optionally qualified
/// by the referenced account's type name.
#[derive(Debug, Clone, PartialEq, Eq, Hash)]
pub struct IdlSeedAccount {
    pub path: String,
    pub account: Option<String>,
}

/// An account type of the program: a name and its wire discriminator.
#[derive(Debug, Clone, PartialEq)]
pub struct IdlAccount {
    pub name: String,
    pub discriminator: IdlDiscriminator,
}

/// An event type of the program: a name and its wire discriminator.
#[derive(Debug, Clone, PartialEq)]
pub struct IdlEvent {
    pub name: String,
    pub discriminator: IdlDiscriminator,
}

/// A named constant: its type expression and its literal value rendered as a
/// string. The literal is not interpreted against the type by this library.
#[derive(Debug, PartialEq)]
pub struct IdlConst {
    pub name: String,
    pub docs: Vec<String>,
    pub ty: IdlType,
    pub value: String,
}

/// A numbered error of the program, with an optional message. Codes are
/// expected to be unique, but this library does not enforce that.
#[derive(Debug, Clone, PartialEq, Eq)]
pub struct IdlErrorCode {
    pub code: u32,
    pub name: String,
    pub msg: Option<String>,
}

/// A named, documented field with a type expression: the atomic unit the
/// projection engine consumes.
#[derive(Debug, PartialEq)]
pub struct IdlField {
    pub name: String,
    pub docs: Vec<String>,
    pub ty: IdlType,
}

/// A user-declared type of the document: its serialization discipline, an
/// optional representation modifier, generic parameters and its shape.
#[derive(Debug, PartialEq)]
pub struct IdlTypeDef {
    pub name: String,
    pub docs: Vec<String>,
    pub serialization: IdlSerialization,
    pub repr: Option<IdlRepr>,
    pub generics: Vec<IdlTypeDefGeneric>,
    pub ty: IdlTypeDefTy,
}

/// The serialization discipline of a type definition: the default layout
/// scheme, a fixed in-memory layout, an unchecked fixed in-memory layout, or
/// a named custom scheme.
#[derive(Debug, Clone, PartialEq)]
#[non_exhaustive]
pub enum IdlSerialization {
    Borsh,
    Bytemuck,
    BytemuckUnsafe,
    Custom(String),
}

/// A representation modifier mirroring a native-layout annotation, tagged by
/// the low-level ABI family it targets.
#[derive(Debug, Clone, PartialEq)]
#[non_exhaustive]
pub enum IdlRepr {
    Rust(IdlReprModifier),
    C(IdlReprModifier),
    Transparent,
}

/// The packed flag and optional alignment of a representation modifier.
#[derive(Debug, Clone, PartialEq)]
pub struct IdlReprModifier {
    pub packed: bool,
    pub align: Option<usize>,
}

/// A generic parameter of a type definition: a type parameter, or a named
/// constant parameter with its own type.
#[derive(Debug, Clone, PartialEq)]
pub enum IdlTypeDefGeneric {
    Type { name: String },
    Const { name: String, ty: String },
}

/// The shape of a type definition: a struct with optional fields, an enum
/// with variants, or a direct type alias.
#[derive(Debug, PartialEq)]
pub enum IdlTypeDefTy {
    Struct { fields: Option<IdlDefinedFields> },
    Enum { variants: Vec<IdlEnumVariant> },
    Type { alias: IdlType },
}

/// One variant of an enum type definition, with an optional field list.
#[derive(Debug, PartialEq)]
pub struct IdlEnumVariant {
    pub name: String,
    pub fields: Option<IdlDefinedFields>,
}

/// The field list of a struct or enum variant: named fields or a tuple of
/// bare type expressions.
#[derive(Debug, PartialEq)]
pub enum IdlDefinedFields {
    Named(Vec<IdlField>),
    Tuple(Vec<IdlType>),
}

/// The length of a fixed array: a concrete literal, or the name of a generic
/// parameter.
#[derive(Debug, Clone, PartialEq)]
pub enum IdlArrayLen {
    Generic(String),
    Value(usize),
}

/// A generic argument attached to a defined-type reference: a nested type
/// expression, or a constant value rendered as a string.
#[derive(Debug, PartialEq)]
pub enum IdlGenericArg {
    Type { ty: IdlType },
    Const { value: String },
}

/// A legacy spelling of a defined-type generic argument: a generic-parameter
/// name, a constant value, or a nested type expression.
#[derive(Debug, PartialEq)]
pub enum IdlDefinedTypeArg {
    Generic(String),
    Value(String),
    Type(IdlType),
}

/// The recursive type-expression tree at the heart of the model: primitives,
/// an address/public-key primitive (`Pubkey`, with the legacy alias
/// `PublicKey`), option/vector/array wrappers, bare generic-parameter
/// references, and references to defined types.
#[derive(Debug, PartialEq)]
#[non_exhaustive]
pub enum IdlType {
    Bool,
    U8,
    I8,
    U16,
    I16,
    U32,
    I32,
    F32,
    U64,
    I64,
    F64,
    U128,
    I128,
    U256,
    I256,
    Bytes,
    String,
    Pubkey,
    Option(Box<IdlType>),
    Vec(Box<IdlType>),
    Array(Box<IdlType>, IdlArrayLen),
    Generic(String),
    Defined(DefinedType),
    PublicKey,
}

/// A reference to a defined type, in the two encodings older document
/// versions use: a bare name, or a name with generic arguments.
#[derive(Debug, PartialEq)]
pub enum DefinedType {
    Simple(String),
    Complex { name: String, generics: Vec<IdlGenericArg> },
}

/// An ordered byte sequence identifying an instruction, account or event on
/// the wire; empty by default.
pub type IdlDiscriminator = Vec<u8>;

} // verus!
