//! TypeMapper: from an abstract type descriptor to its host (Java) type
//! representation and the marshalling policy used when the value crosses the
//! native-call boundary.
//!
//! The native boundary only understands scalars and raw byte buffers, so
//! richer shapes are marshalled: booleans become ints, callbacks become
//! registry identifiers, byte lists pass through raw, and every other list
//! shape crosses as textual interchange.

use vstd::prelude::*;
use crate::descriptor::TypeDesc;
use crate::error::GenError;

verus! {

/// A Java type as referenced by emitted source. `Ref` names a generated
/// value type or callback interface inside the target package. `Array` is a
/// raw array (primitive or reference elements); `BoxedArray` renders scalar
/// elements in their boxed form (`Integer[]`), as such arrays are rebuilt
/// from decoded textual interchange data.
#[derive(Debug)]
pub enum HostType {
    Void,
    Boolean,
    Byte,
    Int,
    Long,
    Float,
    Double,
    Text,
    Ref(String),
    Array(Box<HostType>),
    BoxedArray(Box<HostType>),
}

/// How a value of some host type crosses the native-call boundary.
#[derive(Clone, Copy, Debug, PartialEq, Eq, Structural)]
pub enum Policy {
    /// Passed as-is.
    Direct,
    /// A boolean argument crosses as the int `1` or `0`.
    BooleanAsInt,
    /// A byte list crosses untouched as a raw byte array.
    RawBytes,
    /// Serialized to a textual interchange form and rebuilt on the far side.
    BoxedListViaText,
    /// An array of generated value types.
    StructArray,
}

/// The derived mapping of one type descriptor: host type plus policy.
#[derive(Debug)]
pub struct HostRepr {
    pub host: HostType,
    pub policy: Policy,
}

/// The total host-type mapping. `List` maps to a raw array for byte and
/// struct elements, and to a boxed-element array for every other element,
/// since those arrays are rebuilt from decoded interchange text.
pub open spec fn host_of(t: TypeDesc) -> HostType
    decreases t,
{
    match t {
        TypeDesc::Void => HostType::Void,
        TypeDesc::Boolean => HostType::Boolean,
        TypeDesc::Byte => HostType::Byte,
        TypeDesc::Int => HostType::Int,
        TypeDesc::Long => HostType::Long,
        TypeDesc::Float => HostType::Float,
        TypeDesc::Double => HostType::Double,
        TypeDesc::Str => HostType::Text,
        TypeDesc::Struct(name) => HostType::Ref(name),
        TypeDesc::Callback(name) => HostType::Ref(name),
        TypeDesc::List(elem) => match *elem {
            TypeDesc::Byte => HostType::Array(Box::new(HostType::Byte)),
            TypeDesc::Struct(name) => HostType::Array(Box::new(HostType::Ref(name))),
            _ => HostType::BoxedArray(Box::new(host_of(*elem))),
        },
    }
}

/// The marshalling policy of a type. `crossing` is true when the value is an
/// argument of the native call; only there does a boolean cross as an int.
pub open spec fn policy_of(t: TypeDesc, crossing: bool) -> Policy {
    match t {
        TypeDesc::Boolean => if crossing {
            Policy::BooleanAsInt
        } else {
            Policy::Direct
        },
        TypeDesc::List(elem) => match *elem {
            TypeDesc::Byte => Policy::RawBytes,
            TypeDesc::Struct(_) => Policy::StructArray,
            _ => Policy::BoxedListViaText,
        },
        _ => Policy::Direct,
    }
}

/// No `Void` may stand anywhere inside a `List`.
pub open spec fn lists_ok(t: TypeDesc) -> bool
    decreases t,
{
    match t {
        TypeDesc::List(elem) => !(*elem is Void) && lists_ok(*elem),
        _ => true,
    }
}

/// A type may stand as a struct field: anything but `Void`, with no `Void`
/// buried in a list.
pub open spec fn valid_field_ty(t: TypeDesc) -> bool {
    !(t is Void) && lists_ok(t)
}

/// A type may stand as a declared method argument: anything but `Void`,
/// with no `Void` buried in a list. (A `Void` facade argument is a
/// placeholder handled by the service emitter, not by the mapper.)
pub open spec fn valid_arg_ty(t: TypeDesc) -> bool {
    !(t is Void) && lists_ok(t)
}

/// A type may stand as a return type: `Void` is legal at top level, but not
/// inside a list.
pub open spec fn valid_return_ty(t: TypeDesc) -> bool {
    lists_ok(t)
}

impl HostType {
    /// Executable mirror of `host_of`.
    pub fn of(t: &TypeDesc) -> (r: HostType)
        ensures
            r == host_of(*t),
        decreases *t,
    {
        match t {
            TypeDesc::Void => HostType::Void,
            TypeDesc::Boolean => HostType::Boolean,
            TypeDesc::Byte => HostType::Byte,
            TypeDesc::Int => HostType::Int,
            TypeDesc::Long => HostType::Long,
            TypeDesc::Float => HostType::Float,
            TypeDesc::Double => HostType::Double,
            TypeDesc::Str => HostType::Text,
            TypeDesc::Struct(name) => HostType::Ref(name.clone()),
            TypeDesc::Callback(name) => HostType::Ref(name.clone()),
            TypeDesc::List(elem) => match &**elem {
                TypeDesc::Byte => HostType::Array(Box::new(HostType::Byte)),
                TypeDesc::Struct(name) => HostType::Array(
                    Box::new(HostType::Ref(name.clone())),
                ),
                _ => HostType::BoxedArray(Box::new(HostType::of(&**elem))),
            },
        }
    }
}

/// Executable mirror of `policy_of`.
pub fn policy_for(t: &TypeDesc, crossing: bool) -> (r: Policy)
    ensures
        r == policy_of(*t, crossing),
{
    match t {
        TypeDesc::Boolean => if crossing {
            Policy::BooleanAsInt
        } else {
            Policy::Direct
        },
        TypeDesc::List(elem) => match &**elem {
            TypeDesc::Byte => Policy::RawBytes,
            TypeDesc::Struct(_) => Policy::StructArray,
            _ => Policy::BoxedListViaText,
        },
        _ => Policy::Direct,
    }
}

/// Executable mirror of `lists_ok`.
pub fn lists_ok_check(t: &TypeDesc) -> (r: bool)
    ensures
        r == lists_ok(*t),
    decreases *t,
{
    match t {
        TypeDesc::List(elem) => match &**elem {
            TypeDesc::Void => false,
            _ => lists_ok_check(&**elem),
        },
        _ => true,
    }
}

/// The host type a converted argument local has at the native-call
/// boundary: booleans cross as ints, callbacks as their long registry
/// identifier, byte lists as raw byte arrays, every other list as
/// interchange text, and everything else in its mapped host type.
pub open spec fn transfer_of(t: TypeDesc) -> HostType {
    match t {
        TypeDesc::Boolean => HostType::Int,
        TypeDesc::Callback(_) => HostType::Long,
        TypeDesc::List(elem) => match *elem {
            TypeDesc::Byte => HostType::Array(Box::new(HostType::Byte)),
            _ => HostType::Text,
        },
        _ => host_of(t),
    }
}

/// Executable mirror of `transfer_of`.
pub fn transfer_type(t: &TypeDesc) -> (r: HostType)
    ensures
        r == transfer_of(*t),
{
    match t {
        TypeDesc::Boolean => HostType::Int,
        TypeDesc::Callback(_) => HostType::Long,
        TypeDesc::List(elem) => match &**elem {
            TypeDesc::Byte => HostType::Array(Box::new(HostType::Byte)),
            _ => HostType::Text,
        },
        _ => HostType::of(t),
    }
}

/// Map a struct field's type. Succeeds exactly on valid field types, with
/// the `Direct`-position mapping; fails with `UnsupportedShape` naming the
/// field otherwise.
pub fn map_field(t: &TypeDesc, field_name: &str) -> (r: Result<HostRepr, GenError>)
    ensures
        valid_field_ty(*t) ==> (r matches Ok(repr)
            && repr.host == host_of(*t) && repr.policy == policy_of(*t, false)),
        !valid_field_ty(*t) ==> (r matches Err(e)
            && (e matches GenError::UnsupportedShape(n) && n@ == field_name@)),
{
    if matches!(t, TypeDesc::Void) || !lists_ok_check(t) {
        Err(GenError::UnsupportedShape(field_name.to_owned()))
    } else {
        Ok(HostRepr { host: HostType::of(t), policy: policy_for(t, false) })
    }
}

/// Map a declared method argument's type (callback interfaces and facade
/// signatures). Succeeds exactly on valid argument types; fails with
/// `UnsupportedShape` naming the argument otherwise.
pub fn map_arg(t: &TypeDesc, arg_name: &str, crossing: bool) -> (r: Result<
    HostRepr,
    GenError,
>)
    ensures
        valid_arg_ty(*t) ==> (r matches Ok(repr)
            && repr.host == host_of(*t) && repr.policy == policy_of(*t, crossing)),
        !valid_arg_ty(*t) ==> (r matches Err(e)
            && (e matches GenError::UnsupportedShape(n) && n@ == arg_name@)),
{
    if matches!(t, TypeDesc::Void) || !lists_ok_check(t) {
        Err(GenError::UnsupportedShape(arg_name.to_owned()))
    } else {
        Ok(HostRepr { host: HostType::of(t), policy: policy_for(t, crossing) })
    }
}

/// Map a return type. `Void` is legal here; a `Void` inside a list is not
/// and fails with `UnsupportedShape` naming the method.
pub fn map_return(t: &TypeDesc, method_name: &str) -> (r: Result<HostRepr, GenError>)
    ensures
        valid_return_ty(*t) ==> (r matches Ok(repr)
            && repr.host == host_of(*t) && repr.policy == policy_of(*t, false)),
        !valid_return_ty(*t) ==> (r matches Err(e)
            && (e matches GenError::UnsupportedShape(n) && n@ == method_name@)),
{
    if !lists_ok_check(t) {
        Err(GenError::UnsupportedShape(method_name.to_owned()))
    } else {
        Ok(HostRepr { host: HostType::of(t), policy: policy_for(t, false) })
    }
}

} // verus!
