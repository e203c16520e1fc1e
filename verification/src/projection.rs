//! The type projection engine: a recursive function from an [`IdlType`] node
//! to a target type expression, together with a flag saying whether the
//! result references a user-defined type.
//!
//! Structural wrappers (option, vector, array) recurse into their element at
//! nesting level 0: the nesting bound is meant to limit chains of
//! defined-type indirection raised by the caller, not structural wrapping.
//! The engine fails fast when the nesting level reaches the ceiling, or when
//! an array length is a generic parameter instead of a literal.

use vstd::prelude::*;

use crate::model::DefinedType;
use crate::model::IdlArrayLen;
use crate::model::IdlType;

verus! {

/// The nesting ceiling: a projection entered at this level or above fails.
pub const MAX_NESTING: u8 = 5;

/// A target type expression produced by projection: a bare named type, an
/// optional, a growable sequence, or a fixed-length array.
#[derive(Debug, PartialEq)]
pub enum SynType {
    Named(String),
    Optional(Box<SynType>),
    Sequence(Box<SynType>),
    FixedArray(Box<SynType>, usize),
}

/// The mathematical abstraction of a [`SynType`]: the same tree with names as
/// character sequences and lengths as unbounded integers.
pub ghost enum TyExpr {
    Named(Seq<char>),
    Optional(Box<TyExpr>),
    Sequence(Box<TyExpr>),
    FixedArray(Box<TyExpr>, int),
}

/// The abstraction of one target type expression: names become character
/// sequences, lengths become unbounded integers.
pub open spec fn syn_type_view(t: SynType) -> TyExpr
    decreases t,
{
    match t {
        SynType::Named(name) => TyExpr::Named(name@),
        SynType::Optional(inner) => TyExpr::Optional(Box::new(syn_type_view(*inner))),
        SynType::Sequence(inner) => TyExpr::Sequence(Box::new(syn_type_view(*inner))),
        SynType::FixedArray(inner, len) => TyExpr::FixedArray(
            Box::new(syn_type_view(*inner)),
            len as int,
        ),
    }
}

impl View for SynType {
    type V = TyExpr;

    open spec fn view(&self) -> TyExpr {
        syn_type_view(*self)
    }
}

/// Why a projection was refused: the nesting ceiling was reached, or an array
/// length was a generic parameter, which projection does not support.
#[derive(Debug, Clone, Copy, PartialEq, Eq, Structural)]
pub enum ProjectionError {
    DepthLimitExceeded,
    GenericArrayLength,
}

/// What projecting `t` at nesting level `depth` returns. `convert_pkey`
/// selects whether the address primitive maps to the abstract account
/// identifier type or to the raw public-key type.
pub open spec fn spec_project(t: IdlType, depth: int, convert_pkey: bool) -> Result<
    (TyExpr, bool),
    ProjectionError,
>
    decreases t,
{
    if depth >= MAX_NESTING as int {
        Err(ProjectionError::DepthLimitExceeded)
    } else {
        match t {
            IdlType::Bool => Ok((TyExpr::Named("bool"@), false)),
            IdlType::U8 => Ok((TyExpr::Named("u8"@), false)),
            IdlType::I8 => Ok((TyExpr::Named("i8"@), false)),
            IdlType::U16 => Ok((TyExpr::Named("u16"@), false)),
            IdlType::I16 => Ok((TyExpr::Named("i16"@), false)),
            IdlType::U32 => Ok((TyExpr::Named("u32"@), false)),
            IdlType::I32 => Ok((TyExpr::Named("i32"@), false)),
            IdlType::F32 => Ok((TyExpr::Named("f32"@), false)),
            IdlType::U64 => Ok((TyExpr::Named("u64"@), false)),
            IdlType::I64 => Ok((TyExpr::Named("i64"@), false)),
            IdlType::F64 => Ok((TyExpr::Named("f64"@), false)),
            IdlType::U128 => Ok((TyExpr::Named("u128"@), false)),
            IdlType::I128 => Ok((TyExpr::Named("i128"@), false)),
            IdlType::U256 => Ok((TyExpr::Named("u256"@), false)),
            IdlType::I256 => Ok((TyExpr::Named("i256"@), false)),
            IdlType::Bytes => Ok((TyExpr::Sequence(Box::new(TyExpr::Named("u8"@))), false)),
            IdlType::String => Ok((TyExpr::Named("String"@), false)),
            IdlType::Pubkey | IdlType::PublicKey => Ok(
                (
                    TyExpr::Named(if convert_pkey { "AccountId"@ } else { "Pubkey"@ }),
                    false,
                ),
            ),
            IdlType::Option(inner) => match spec_project(*inner, 0, convert_pkey) {
                Ok(p) => Ok((TyExpr::Optional(Box::new(p.0)), p.1)),
                Err(e) => Err(e),
            },
            IdlType::Vec(inner) => match spec_project(*inner, 0, convert_pkey) {
                Ok(p) => Ok((TyExpr::Sequence(Box::new(p.0)), p.1)),
                Err(e) => Err(e),
            },
            IdlType::Array(inner, len) => match spec_project(*inner, 0, convert_pkey) {
                Ok(p) => match len {
                    IdlArrayLen::Generic(_) => Err(ProjectionError::GenericArrayLength),
                    IdlArrayLen::Value(n) => Ok((TyExpr::FixedArray(Box::new(p.0), n as int), p.1)),
                },
                Err(e) => Err(e),
            },
            IdlType::Generic(name) => Ok((TyExpr::Named(name@), true)),
            IdlType::Defined(d) => match d {
                DefinedType::Simple(name) => Ok((TyExpr::Named(name@), true)),
                DefinedType::Complex { name, generics: _ } => Ok((TyExpr::Named(name@), true)),
            },
        }
    }
}

/// The abstraction of a projection result: the target type is replaced by its
/// view, the flag and the error are kept.
pub open spec fn projected_view(r: Result<(SynType, bool), ProjectionError>) -> Result<
    (TyExpr, bool),
    ProjectionError,
> {
    match r {
        Ok(p) => Ok((p.0@, p.1)),
        Err(e) => Err(e),
    }
}

/// Project an [`IdlType`] at nesting level `nestings` into a target type
/// expression and a flag saying whether the result references a user-defined
/// type. `convert_pkey` selects the account-identifier mapping for the
/// address primitive.
pub fn idl_type_to_syn_type(idl_type: &IdlType, nestings: u8, convert_pkey: bool) -> (r: Result<
    (SynType, bool),
    ProjectionError,
>)
    ensures
        projected_view(r) == spec_project(*idl_type, nestings as int, convert_pkey),
    decreases *idl_type,
{
    if nestings >= MAX_NESTING {
        return Err(ProjectionError::DepthLimitExceeded);
    }
    match idl_type {
        IdlType::Bool => Ok((SynType::Named("bool".to_string()), false)),
        IdlType::U8 => Ok((SynType::Named("u8".to_string()), false)),
        IdlType::I8 => Ok((SynType::Named("i8".to_string()), false)),
        IdlType::U16 => Ok((SynType::Named("u16".to_string()), false)),
        IdlType::I16 => Ok((SynType::Named("i16".to_string()), false)),
        IdlType::U32 => Ok((SynType::Named("u32".to_string()), false)),
        IdlType::I32 => Ok((SynType::Named("i32".to_string()), false)),
        IdlType::F32 => Ok((SynType::Named("f32".to_string()), false)),
        IdlType::U64 => Ok((SynType::Named("u64".to_string()), false)),
        IdlType::I64 => Ok((SynType::Named("i64".to_string()), false)),
        IdlType::F64 => Ok((SynType::Named("f64".to_string()), false)),
        IdlType::U128 => Ok((SynType::Named("u128".to_string()), false)),
        IdlType::I128 => Ok((SynType::Named("i128".to_string()), false)),
        IdlType::U256 => Ok((SynType::Named("u256".to_string()), false)),
        IdlType::I256 => Ok((SynType::Named("i256".to_string()), false)),
        IdlType::Bytes => {
            let elem = SynType::Named("u8".to_string());
            proof {
                assert(syn_type_view(elem) == TyExpr::Named("u8"@));
            }
            Ok((SynType::Sequence(Box::new(elem)), false))
        },
        IdlType::String => Ok((SynType::Named("String".to_string()), false)),
        IdlType::Pubkey | IdlType::PublicKey => {
            if convert_pkey {
                Ok((SynType::Named("AccountId".to_string()), false))
            } else {
                Ok((SynType::Named("Pubkey".to_string()), false))
            }
        },
        IdlType::Option(inner) => match idl_type_to_syn_type(&**inner, 0, convert_pkey) {
            Ok(p) => Ok((SynType::Optional(Box::new(p.0)), p.1)),
            Err(e) => Err(e),
        },
        IdlType::Vec(inner) => match idl_type_to_syn_type(&**inner, 0, convert_pkey) {
            Ok(p) => Ok((SynType::Sequence(Box::new(p.0)), p.1)),
            Err(e) => Err(e),
        },
        IdlType::Array(inner, len) => match idl_type_to_syn_type(&**inner, 0, convert_pkey) {
            Ok(p) => match len {
                IdlArrayLen::Generic(_) => Err(ProjectionError::GenericArrayLength),
                IdlArrayLen::Value(n) => Ok((SynType::FixedArray(Box::new(p.0), *n), p.1)),
            },
            Err(e) => Err(e),
        },
        IdlType::Generic(name) => Ok((SynType::Named(name.clone()), true)),
        IdlType::Defined(d) => match d {
            DefinedType::Simple(name) => Ok((SynType::Named(name.clone()), true)),
            DefinedType::Complex { name, generics: _ } => Ok(
                (SynType::Named(name.clone()), true),
            ),
        },
    }
}

/// Whether `t` is one of the non-recursive primitive variants other than the
/// address primitive.
pub open spec fn is_primitive(t: IdlType) -> bool {
    ||| t is Bool
    ||| t is U8
    ||| t is I8
    ||| t is U16
    ||| t is I16
    ||| t is U32
    ||| t is I32
    ||| t is F32
    ||| t is U64
    ||| t is I64
    ||| t is F64
    ||| t is U128
    ||| t is I128
    ||| t is U256
    ||| t is I256
    ||| t is Bytes
    ||| t is String
}

/// The fixed target type of each primitive variant.
pub open spec fn primitive_target(t: IdlType) -> TyExpr
    recommends
        is_primitive(t),
{
    match t {
        IdlType::Bool => TyExpr::Named("bool"@),
        IdlType::U8 => TyExpr::Named("u8"@),
        IdlType::I8 => TyExpr::Named("i8"@),
        IdlType::U16 => TyExpr::Named("u16"@),
        IdlType::I16 => TyExpr::Named("i16"@),
        IdlType::U32 => TyExpr::Named("u32"@),
        IdlType::I32 => TyExpr::Named("i32"@),
        IdlType::F32 => TyExpr::Named("f32"@),
        IdlType::U64 => TyExpr::Named("u64"@),
        IdlType::I64 => TyExpr::Named("i64"@),
        IdlType::F64 => TyExpr::Named("f64"@),
        IdlType::U128 => TyExpr::Named("u128"@),
        IdlType::I128 => TyExpr::Named("i128"@),
        IdlType::U256 => TyExpr::Named("u256"@),
        IdlType::I256 => TyExpr::Named("i256"@),
        IdlType::Bytes => TyExpr::Sequence(Box::new(TyExpr::Named("u8"@))),
        IdlType::String => TyExpr::Named("String"@),
        _ => TyExpr::Named(Seq::empty()),
    }
}

/// Law: projection is total on the primitive variants. Below the nesting
/// ceiling, every primitive projects to its fixed, table-driven target type,
/// never references a user-defined type, and ignores the address flag.
pub proof fn lemma_projection_total_on_primitives(t: IdlType, depth: int, convert_pkey: bool)
    requires
        is_primitive(t),
        depth < MAX_NESTING as int,
    ensures
        spec_project(t, depth, convert_pkey) == Ok::<(TyExpr, bool), ProjectionError>(
            (primitive_target(t), false),
        ),
{
}

/// Law: below the nesting ceiling, the address primitive projects to the
/// abstract account-identifier type when the flag is set and to the raw
/// public-key type when it is not, and never references a user-defined type.
pub proof fn lemma_address_projection(depth: int, convert_pkey: bool)
    requires
        depth < MAX_NESTING as int,
    ensures
        spec_project(IdlType::Pubkey, depth, convert_pkey) == Ok::<
            (TyExpr, bool),
            ProjectionError,
        >((TyExpr::Named(if convert_pkey { "AccountId"@ } else { "Pubkey"@ }), false)),
{
}

/// Law: the legacy alternate spelling of the address primitive is equivalent
/// to the canonical one under projection, at every nesting level and for
/// either value of the address flag.
pub proof fn lemma_address_alias_equivalence(depth: int, convert_pkey: bool)
    ensures
        spec_project(IdlType::Pubkey, depth, convert_pkey) == spec_project(
            IdlType::PublicKey,
            depth,
            convert_pkey,
        ),
{
}

/// Law: the nesting level does not influence what a projection below the
/// ceiling returns, because structural wrappers restart their element at
/// level 0; the level only decides whether the ceiling check at entry fails.
pub proof fn lemma_depth_below_ceiling_irrelevant(t: IdlType, d1: int, d2: int, convert_pkey: bool)
    requires
        d1 < MAX_NESTING as int,
        d2 < MAX_NESTING as int,
    ensures
        spec_project(t, d1, convert_pkey) == spec_project(t, d2, convert_pkey),
{
}

/// Law: a projection fails with the nesting-ceiling error exactly when it is
/// entered at or above the ceiling; below the ceiling no input ever raises
/// that error, because structural recursion restarts at level 0.
pub proof fn lemma_depth_ceiling(t: IdlType, depth: int, convert_pkey: bool)
    ensures
        (depth >= MAX_NESTING as int) <==> (spec_project(t, depth, convert_pkey) == Err::<
            (TyExpr, bool),
            ProjectionError,
        >(ProjectionError::DepthLimitExceeded)),
    decreases t,
{
    if depth < MAX_NESTING as int {
        match t {
            IdlType::Option(inner) => lemma_depth_ceiling(*inner, 0, convert_pkey),
            IdlType::Vec(inner) => lemma_depth_ceiling(*inner, 0, convert_pkey),
            IdlType::Array(inner, _) => lemma_depth_ceiling(*inner, 0, convert_pkey),
            _ => {},
        }
    }
}

/// Law: an array whose length is a generic parameter never projects, at any
/// nesting level: the result is an error, either the unsupported-length error
/// itself or one raised by the element or the ceiling check.
pub proof fn lemma_generic_array_len_never_projects(
    t: IdlType,
    name: String,
    depth: int,
    convert_pkey: bool,
)
    ensures
        spec_project(
            IdlType::Array(Box::new(t), IdlArrayLen::Generic(name)),
            depth,
            convert_pkey,
        ) is Err,
{
}

/// Whether `t` holds, along its chain of structural wrappers, an array whose
/// length is a generic parameter.
pub open spec fn has_generic_array_len(t: IdlType) -> bool
    decreases t,
{
    match t {
        IdlType::Option(inner) => has_generic_array_len(*inner),
        IdlType::Vec(inner) => has_generic_array_len(*inner),
        IdlType::Array(inner, len) => len is Generic || has_generic_array_len(*inner),
        _ => false,
    }
}

/// Law: projection succeeds exactly when it is entered below the nesting
/// ceiling and no array along the chain of structural wrappers has a
/// generic-parameter length; on every other input it returns an error.
pub proof fn lemma_projection_success(t: IdlType, depth: int, convert_pkey: bool)
    ensures
        spec_project(t, depth, convert_pkey) is Ok <==> (depth < MAX_NESTING as int
            && !has_generic_array_len(t)),
    decreases t,
{
    if depth < MAX_NESTING as int {
        match t {
            IdlType::Option(inner) => lemma_projection_success(*inner, 0, convert_pkey),
            IdlType::Vec(inner) => lemma_projection_success(*inner, 0, convert_pkey),
            IdlType::Array(inner, _) => lemma_projection_success(*inner, 0, convert_pkey),
            _ => {},
        }
    }
}

/// Whether the innermost element of `t`, through any chain of structural
/// wrappers, is a reference to a defined type or to a generic parameter.
pub open spec fn mentions_defined(t: IdlType) -> bool
    decreases t,
{
    match t {
        IdlType::Option(inner) => mentions_defined(*inner),
        IdlType::Vec(inner) => mentions_defined(*inner),
        IdlType::Array(inner, _) => mentions_defined(*inner),
        IdlType::Generic(_) => true,
        IdlType::Defined(_) => true,
        _ => false,
    }
}

/// Law: a projection that succeeds returns `true` as its
/// references-a-defined-type flag exactly when the innermost element of the
/// input, through any chain of structural wrappers, is a defined-type or
/// generic-parameter reference; the flag propagates unchanged through the
/// wrappers.
pub proof fn lemma_defined_flag_propagation(t: IdlType, depth: int, convert_pkey: bool)
    ensures
        spec_project(t, depth, convert_pkey) matches Ok(p) ==> p.1 == mentions_defined(t),
    decreases t,
{
    match t {
        IdlType::Option(inner) => lemma_defined_flag_propagation(*inner, 0, convert_pkey),
        IdlType::Vec(inner) => lemma_defined_flag_propagation(*inner, 0, convert_pkey),
        IdlType::Array(inner, _) => lemma_defined_flag_propagation(*inner, 0, convert_pkey),
        _ => {},
    }
}

} // verus!
