//! Input data model: descriptors of the native module's public surface.
//!
//! Descriptors are produced upstream and only read here. `TypeDesc` is a
//! closed tagged union; `List` carries its element type structurally, so no
//! source-text pattern matching is ever needed to recover an element name.

use vstd::prelude::*;

verus! {

/// Abstract type of a field, argument or return value of the native surface.
#[derive(Debug)]
pub enum TypeDesc {
    Void,
    Boolean,
    Byte,
    Int,
    Long,
    Float,
    Double,
    Str,
    /// A value struct, by name.
    Struct(String),
    /// A callback interface, by name.
    Callback(String),
    /// A homogeneous list with the given element type.
    List(Box<TypeDesc>),
}

impl Clone for TypeDesc {
    fn clone(&self) -> (r: Self)
        ensures
            r == *self,
        decreases self,
    {
        match self {
            TypeDesc::Void => TypeDesc::Void,
            TypeDesc::Boolean => TypeDesc::Boolean,
            TypeDesc::Byte => TypeDesc::Byte,
            TypeDesc::Int => TypeDesc::Int,
            TypeDesc::Long => TypeDesc::Long,
            TypeDesc::Float => TypeDesc::Float,
            TypeDesc::Double => TypeDesc::Double,
            TypeDesc::Str => TypeDesc::Str,
            TypeDesc::Struct(name) => TypeDesc::Struct(name.clone()),
            TypeDesc::Callback(name) => TypeDesc::Callback(name.clone()),
            TypeDesc::List(elem) => TypeDesc::List(Box::new((**elem).clone())),
        }
    }
}

/// One field of a value struct.
#[derive(Debug)]
pub struct FieldDesc {
    pub name: String,
    pub ty: TypeDesc,
}

/// One argument of a method.
#[derive(Debug)]
pub struct ArgDesc {
    pub name: String,
    pub ty: TypeDesc,
}

/// One method of a trait (callback interface or exported service).
#[derive(Debug)]
pub struct MethodDesc {
    pub name: String,
    pub return_ty: TypeDesc,
    pub args: Vec<ArgDesc>,
}

/// A value struct: named, with an ordered field list.
#[derive(Debug)]
pub struct StructDesc {
    pub name: String,
    pub fields: Vec<FieldDesc>,
}

/// A trait: named, with an ordered method list. Whether it plays the
/// callback role or the exported-service role is decided by the caller.
#[derive(Debug)]
pub struct TraitDesc {
    pub name: String,
    pub methods: Vec<MethodDesc>,
}

} // verus!
