//! Runtime identity of value types, and the shapes of function symbols.
//!
//! The term algebra is heterogeneous: every value carries a runtime type,
//! and every function symbol declares the types of its arguments and of its
//! result.  A [`TypeShape`] is the stable identity of one concrete value
//! type: a numeric identifier, which decides equality, and a human-readable
//! name used by the serialized form of terms.

use vstd::prelude::*;

verus! {

/// Numeric identifiers of the concrete value types of the catalog.
pub const TYPE_PROTOCOL_VERSION: u64 = 1;

pub const TYPE_RANDOM: u64 = 2;

pub const TYPE_SESSION_ID: u64 = 3;

pub const TYPE_CIPHER_SUITES: u64 = 4;

pub const TYPE_CIPHER_SUITE: u64 = 5;

pub const TYPE_COMPRESSIONS: u64 = 6;

pub const TYPE_COMPRESSION: u64 = 7;

pub const TYPE_CLIENT_EXTENSIONS: u64 = 8;

pub const TYPE_CLIENT_EXTENSION: u64 = 9;

pub const TYPE_SERVER_EXTENSIONS: u64 = 10;

pub const TYPE_SERVER_EXTENSION: u64 = 11;

pub const TYPE_PAYLOAD: u64 = 12;

pub const TYPE_MESSAGE: u64 = 13;

pub const TYPE_MULTI_MESSAGE: u64 = 14;

pub const TYPE_OPAQUE_MESSAGE: u64 = 15;

pub const TYPE_HANDSHAKE_HASH: u64 = 16;

pub const TYPE_U64: u64 = 17;

pub const TYPE_KEY: u64 = 18;

pub const TYPE_BYTES: u64 = 19;

pub const TYPE_CERTIFICATE: u64 = 20;

pub const TYPE_ECDH_PARAMS: u64 = 21;

/// Mathematical model of a [`TypeShape`].
pub struct TypeShapeV {
    pub id: u64,
    pub name: Seq<char>,
}

/// The stable identity of a concrete value type.
///
/// Two shapes denote the same type exactly when their identifiers match;
/// the name is carried for serialization and display.  A well-formed
/// signature never associates one identifier with two names.
#[derive(Debug)]
pub struct TypeShape {
    pub id: u64,
    pub name: String,
}

impl View for TypeShape {
    type V = TypeShapeV;

    open spec fn view(&self) -> TypeShapeV {
        TypeShapeV { id: self.id, name: self.name@ }
    }
}

impl TypeShape {
    /// An exact copy of this shape.
    pub fn deep_clone(&self) -> (r: TypeShape)
        ensures
            r@ == self@,
    {
        TypeShape { id: self.id, name: self.name.clone() }
    }

    /// Whether this shape denotes the same type as `other`.  Equality of
    /// type shapes is by runtime identifier.
    pub fn matches(&self, other: &TypeShape) -> (r: bool)
        ensures
            r == (self.id == other.id),
    {
        self.id == other.id
    }
}

/// Mathematical model of a [`DynamicFunctionShape`].
pub struct ShapeV {
    pub name: Seq<char>,
    pub argument_types: Seq<TypeShapeV>,
    pub return_type: TypeShapeV,
}

/// The identifiers of a list of type shapes, in order.
pub open spec fn arg_ids(argument_types: Seq<TypeShapeV>) -> Seq<u64> {
    argument_types.map_values(|t: TypeShapeV| t.id)
}

/// The declared shape of a function symbol: name, argument types, result
/// type.  Two shapes are the same symbol shape exactly when all three
/// components agree.
#[derive(Debug)]
pub struct DynamicFunctionShape {
    pub name: String,
    pub argument_types: Vec<TypeShape>,
    pub return_type: TypeShape,
}

impl View for DynamicFunctionShape {
    type V = ShapeV;

    open spec fn view(&self) -> ShapeV {
        ShapeV {
            name: self.name@,
            argument_types: Seq::new(
                self.argument_types@.len(),
                |i: int| self.argument_types@[i]@,
            ),
            return_type: self.return_type@,
        }
    }
}

impl DynamicFunctionShape {
    /// How many arguments the symbol takes.
    pub fn arity(&self) -> (r: usize)
        ensures
            r == self@.argument_types.len(),
    {
        self.argument_types.len()
    }

    /// An exact copy of this shape.
    pub fn deep_clone(&self) -> (r: DynamicFunctionShape)
        ensures
            r@ == self@,
    {
        let mut argument_types: Vec<TypeShape> = Vec::new();
        let mut i: usize = 0;
        while i < self.argument_types.len()
            invariant
                i <= self.argument_types.len(),
                argument_types@.len() == i,
                forall|j: int| 0 <= j < i ==> argument_types@[j]@ == self.argument_types@[j]@,
            decreases self.argument_types.len() - i,
        {
            argument_types.push(self.argument_types[i].deep_clone());
            i += 1;
        }
        let r = DynamicFunctionShape {
            name: self.name.clone(),
            argument_types,
            return_type: self.return_type.deep_clone(),
        };
        proof {
            assert(r@.argument_types =~= self@.argument_types);
            assert(r@ =~= self@);
        }
        r
    }

    /// Whether the argument type lists of the two shapes agree, comparing
    /// type identifiers position by position.
    pub fn same_argument_types(&self, other: &DynamicFunctionShape) -> (r: bool)
        ensures
            r == (arg_ids(self@.argument_types) == arg_ids(other@.argument_types)),
    {
        if self.argument_types.len() != other.argument_types.len() {
            proof {
                assert(arg_ids(self@.argument_types).len() == self@.argument_types.len());
                assert(arg_ids(other@.argument_types).len() == other@.argument_types.len());
            }
            return false;
        }
        let mut i: usize = 0;
        while i < self.argument_types.len()
            invariant
                i <= self.argument_types.len(),
                self.argument_types.len() == other.argument_types.len(),
                forall|j: int|
                    0 <= j < i ==> self.argument_types@[j].id == other.argument_types@[j].id,
            decreases self.argument_types.len() - i,
        {
            if self.argument_types[i].id != other.argument_types[i].id {
                proof {
                    assert(arg_ids(self@.argument_types)[i as int] != arg_ids(
                        other@.argument_types,
                    )[i as int]);
                }
                return false;
            }
            i += 1;
        }
        proof {
            assert(arg_ids(self@.argument_types) =~= arg_ids(other@.argument_types));
        }
        true
    }
}

} // verus!
