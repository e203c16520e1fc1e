//! Default-value introspection: the single reusable predicate behind the
//! "omit a field holding its type's default" rule of the document format.
//!
//! A field type that can be omitted implements [`DefaultValued`], which pairs
//! a specification of what "holds the default value" means with an executable
//! check proved against it. The serialization collaborator outside this
//! library consults [`is_default`] to decide which fields to write.

use vstd::prelude::*;

use crate::model::IdlMetadata;
use crate::model::IdlSerialization;

verus! {

/// A type with a distinguished default value that the document format omits.
pub trait DefaultValued: Sized {
    /// Whether this value is the default value of its type.
    spec fn spec_is_default(&self) -> bool;

    /// Decide `spec_is_default`.
    fn check_default(&self) -> (r: bool)
        ensures
            r == self.spec_is_default(),
    ;
}

/// Get whether the given data is the default of its type.
pub fn is_default<T: DefaultValued>(it: &T) -> (r: bool)
    ensures
        r == it.spec_is_default(),
{
    it.check_default()
}

impl DefaultValued for bool {
    open spec fn spec_is_default(&self) -> bool {
        !*self
    }

    fn check_default(&self) -> (r: bool)
        ensures
            r == self.spec_is_default(),
    {
        !*self
    }
}

impl DefaultValued for u32 {
    open spec fn spec_is_default(&self) -> bool {
        *self == 0
    }

    fn check_default(&self) -> (r: bool)
        ensures
            r == self.spec_is_default(),
    {
        *self == 0
    }
}

impl DefaultValued for usize {
    open spec fn spec_is_default(&self) -> bool {
        *self == 0
    }

    fn check_default(&self) -> (r: bool)
        ensures
            r == self.spec_is_default(),
    {
        *self == 0
    }
}

impl DefaultValued for String {
    open spec fn spec_is_default(&self) -> bool {
        self@.len() == 0
    }

    fn check_default(&self) -> (r: bool)
        ensures
            r == self.spec_is_default(),
    {
        let empty = String::new();
        let r = *self == empty;
        proof {
            if self@.len() == 0 {
                assert(self@ =~= empty@);
            }
        }
        r
    }
}

impl<T> DefaultValued for Vec<T> {
    open spec fn spec_is_default(&self) -> bool {
        self@.len() == 0
    }

    fn check_default(&self) -> (r: bool)
        ensures
            r == self.spec_is_default(),
    {
        self.len() == 0
    }
}

impl<T> DefaultValued for Option<T> {
    open spec fn spec_is_default(&self) -> bool {
        *self is None
    }

    fn check_default(&self) -> (r: bool)
        ensures
            r == self.spec_is_default(),
    {
        self.is_none()
    }
}

impl DefaultValued for IdlSerialization {
    open spec fn spec_is_default(&self) -> bool {
        *self is Borsh
    }

    fn check_default(&self) -> (r: bool)
        ensures
            r == self.spec_is_default(),
    {
        match self {
            IdlSerialization::Borsh => true,
            _ => false,
        }
    }
}

impl Default for IdlSerialization {
    /// The default serialization discipline is the default layout scheme.
    fn default() -> (r: Self)
        ensures
            r == IdlSerialization::Borsh,
            r.spec_is_default(),
    {
        IdlSerialization::Borsh
    }
}

impl Default for IdlMetadata {
    /// The default metadata holds the empty value of every field.
    fn default() -> (r: Self)
        ensures
            r.spec_is_default(),
    {
        IdlMetadata {
            name: String::new(),
            version: String::new(),
            spec: String::new(),
            description: None,
            repository: None,
            dependencies: Vec::new(),
            contact: None,
            deployments: None,
        }
    }
}

impl DefaultValued for IdlMetadata {
    open spec fn spec_is_default(&self) -> bool {
        &&& self.name@.len() == 0
        &&& self.version@.len() == 0
        &&& self.spec@.len() == 0
        &&& self.description is None
        &&& self.repository is None
        &&& self.dependencies@.len() == 0
        &&& self.contact is None
        &&& self.deployments is None
    }

    fn check_default(&self) -> (r: bool)
        ensures
            r == self.spec_is_default(),
    {
        self.name.check_default() && self.version.check_default() && self.spec.check_default()
            && self.description.check_default() && self.repository.check_default()
            && self.dependencies.check_default() && self.contact.check_default()
            && self.deployments.check_default()
    }
}

} // verus!
