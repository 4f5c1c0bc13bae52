//! StructEmitter: one serializable host value type per struct descriptor,
//! with one public field per field descriptor, in declared order.

use vstd::prelude::*;
use crate::descriptor::{FieldDesc, StructDesc};
use crate::error::GenError;
use crate::mapper::{host_of, map_field, valid_field_ty, HostType};

verus! {

/// One public field of an emitted value type.
#[derive(Debug)]
pub struct FieldModel {
    pub name: String,
    pub host: HostType,
}

/// The model of one emitted value type: a public class implementing the
/// host's serializable capability, holding the listed public fields and
/// nothing else.
#[derive(Debug)]
pub struct ClassModel {
    pub name: String,
    pub fields: Vec<FieldModel>,
}

/// The emitted field list mirrors the descriptor's field list exactly:
/// same length, same names, same order, each typed by the total mapping.
pub open spec fn fields_match(emitted: Seq<FieldModel>, declared: Seq<FieldDesc>) -> bool {
    &&& emitted.len() == declared.len()
    &&& forall|i: int|
        0 <= i < declared.len() ==> {
            &&& (#[trigger] emitted[i]).name@ == declared[i].name@
            &&& emitted[i].host == host_of(declared[i].ty)
        }
}

/// Build the value-type model for one struct descriptor.
///
/// Succeeds exactly when every field type may stand as a field; the result
/// then has one public field per descriptor field, in declared order, with
/// the mapped host type. Otherwise fails with `UnsupportedShape` naming the
/// first offending field, and no partial model is returned.
pub fn struct_model(desc: &StructDesc) -> (r: Result<ClassModel, GenError>)
    ensures
        (forall|i: int|
            0 <= i < desc.fields@.len() ==> valid_field_ty(
                (#[trigger] desc.fields@[i]).ty,
            )) ==> (r matches Ok(m) && m.name@ == desc.name@ && fields_match(
            m.fields@,
            desc.fields@,
        )),
        (exists|i: int|
            0 <= i < desc.fields@.len() && !valid_field_ty(
                (#[trigger] desc.fields@[i]).ty,
            )) ==> (r matches Err(e) && exists|j: int|
            {
                &&& 0 <= j < desc.fields@.len()
                &&& !valid_field_ty((#[trigger] desc.fields@[j]).ty)
                &&& forall|k: int| 0 <= k < j ==> valid_field_ty((#[trigger] desc.fields@[k]).ty)
                &&& (e matches GenError::UnsupportedShape(n) && n@ == desc.fields@[j].name@)
            }),
{
    let mut fields: Vec<FieldModel> = Vec::new();
    let n = desc.fields.len();
    for i in 0..n
        invariant
            n == desc.fields@.len(),
            fields@.len() == i,
            forall|k: int| 0 <= k < i ==> valid_field_ty((#[trigger] desc.fields@[k]).ty),
            fields_match(fields@, desc.fields@.subrange(0, i as int)),
    {
        let field = &desc.fields[i];
        match map_field(&field.ty, field.name.as_str()) {
            Ok(repr) => {
                fields.push(FieldModel { name: field.name.clone(), host: repr.host });
                assert(fields@ =~= fields@.subrange(0, i as int).push(fields@[i as int]));
                assert(desc.fields@.subrange(0, i + 1) =~= desc.fields@.subrange(
                    0,
                    i as int,
                ).push(desc.fields@[i as int]));
            },
            Err(e) => {
                return Err(e);
            },
        }
    }
    assert(desc.fields@.subrange(0, n as int) =~= desc.fields@);
    Ok(ClassModel { name: desc.name.clone(), fields })
}

} // verus!
