//! A verified model of an interface-description-language (IDL) schema for
//! on-chain programs, together with a type-projection engine that turns each
//! abstract type expression of the schema into a concrete target type
//! expression for code generation.

pub mod defaults;
pub mod model;
pub mod projection;

pub use defaults::is_default;
pub use model::DefinedType;
pub use model::Idl;
pub use model::IdlAccount;
pub use model::IdlArrayLen;
pub use model::IdlConst;
pub use model::IdlDefinedFields;
pub use model::IdlDefinedTypeArg;
pub use model::IdlDependency;
pub use model::IdlDeployments;
pub use model::IdlDiscriminator;
pub use model::IdlEnumVariant;
pub use model::IdlErrorCode;
pub use model::IdlEvent;
pub use model::IdlField;
pub use model::IdlGenericArg;
pub use model::IdlInstruction;
pub use model::IdlInstructionAccount;
pub use model::IdlInstructionAccountItem;
pub use model::IdlInstructionAccounts;
pub use model::IdlMetadata;
pub use model::IdlPda;
pub use model::IdlRepr;
pub use model::IdlReprModifier;
pub use model::IdlSeed;
pub use model::IdlSeedAccount;
pub use model::IdlSeedArg;
pub use model::IdlSeedConst;
pub use model::IdlSerialization;
pub use model::IdlType;
pub use model::IdlTypeDef;
pub use model::IdlTypeDefGeneric;
pub use model::IdlTypeDefTy;
pub use projection::idl_type_to_syn_type;
pub use projection::ProjectionError;
pub use projection::SynType;
