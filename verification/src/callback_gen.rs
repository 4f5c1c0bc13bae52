//! CallbackEmitter: one serializable host interface type per callback-role
//! trait descriptor, with one method per method descriptor in source order.
//! Callback interface declarations are host-side only, so no
//! boundary-crossing policy applies to their signatures.

use vstd::prelude::*;
use crate::descriptor::{MethodDesc, TraitDesc};
use crate::error::GenError;
use crate::mapper::{host_of, map_arg, map_return, valid_arg_ty, valid_return_ty, HostType};

verus! {

/// One declared parameter of an emitted interface method.
#[derive(Debug)]
pub struct ParamModel {
    pub name: String,
    pub host: HostType,
}

/// One declared method of an emitted interface.
#[derive(Debug)]
pub struct SigModel {
    pub name: String,
    pub ret: HostType,
    pub params: Vec<ParamModel>,
}

/// The model of one emitted callback interface: a public interface
/// extending the host's serializable capability, declaring the listed
/// methods and nothing else.
#[derive(Debug)]
pub struct InterfaceModel {
    pub name: String,
    pub methods: Vec<SigModel>,
}

/// Every type in the method is mappable in its position: the return type
/// may be anything without a buried `Void`, each argument additionally may
/// not itself be `Void` (a parameter cannot be declared `void`).
pub open spec fn cb_method_valid(m: MethodDesc) -> bool {
    &&& valid_return_ty(m.return_ty)
    &&& forall|i: int|
        0 <= i < m.args@.len() ==> valid_arg_ty((#[trigger] m.args@[i]).ty)
}

/// The declared signature mirrors the descriptor: same name, mapped return
/// type, and the arguments by name and mapped type, in source order.
pub open spec fn sig_matches(s: SigModel, m: MethodDesc) -> bool {
    &&& s.name@ == m.name@
    &&& s.ret == host_of(m.return_ty)
    &&& s.params@.len() == m.args@.len()
    &&& forall|i: int|
        0 <= i < m.args@.len() ==> {
            &&& (#[trigger] s.params@[i]).name@ == m.args@[i].name@
            &&& s.params@[i].host == host_of(m.args@[i].ty)
        }
}

/// `n` is the name reported for the first fault in `m`: the method's own
/// name when the return type is unmappable, else the name of the first
/// argument with an unmappable type.
pub open spec fn names_first_fault(n: Seq<char>, m: MethodDesc) -> bool {
    if !valid_return_ty(m.return_ty) {
        n == m.name@
    } else {
        exists|j: int|
            {
                &&& 0 <= j < m.args@.len()
                &&& !valid_arg_ty((#[trigger] m.args@[j]).ty)
                &&& forall|k: int| 0 <= k < j ==> valid_arg_ty((#[trigger] m.args@[k]).ty)
                &&& n == m.args@[j].name@
            }
    }
}

/// Build the declared signature for one interface method. Succeeds exactly
/// on valid methods; otherwise reports `UnsupportedShape` with the first
/// offending name.
pub fn method_sig(m: &MethodDesc) -> (r: Result<SigModel, GenError>)
    ensures
        cb_method_valid(*m) ==> (r matches Ok(s) && sig_matches(s, *m)),
        !cb_method_valid(*m) ==> (r matches Err(e) && (e matches GenError::UnsupportedShape(n)
            && names_first_fault(n@, *m))),
{
    let ret = match map_return(&m.return_ty, m.name.as_str()) {
        Ok(repr) => repr.host,
        Err(e) => {
            return Err(e);
        },
    };
    let mut params: Vec<ParamModel> = Vec::new();
    let n = m.args.len();
    for i in 0..n
        invariant
            n == m.args@.len(),
            valid_return_ty(m.return_ty),
            params@.len() == i,
            forall|k: int| 0 <= k < i ==> valid_arg_ty((#[trigger] m.args@[k]).ty),
            forall|k: int|
                0 <= k < i ==> {
                    &&& (#[trigger] params@[k]).name@ == m.args@[k].name@
                    &&& params@[k].host == host_of(m.args@[k].ty)
                },
    {
        let arg = &m.args[i];
        match map_arg(&arg.ty, arg.name.as_str(), false) {
            Ok(repr) => {
                params.push(ParamModel { name: arg.name.clone(), host: repr.host });
            },
            Err(e) => {
                return Err(e);
            },
        }
    }
    Ok(SigModel { name: m.name.clone(), ret, params })
}

/// Build the interface model for one callback-role trait descriptor.
///
/// Succeeds exactly when every method is mappable; the result then declares
/// one method per descriptor method, in source order, each mirroring its
/// descriptor. Otherwise fails with `UnsupportedShape` naming the first
/// fault of the first unmappable method, and no partial model is returned.
pub fn callback_model(desc: &TraitDesc) -> (r: Result<InterfaceModel, GenError>)
    ensures
        (forall|i: int|
            0 <= i < desc.methods@.len() ==> cb_method_valid(
                #[trigger] desc.methods@[i],
            )) ==> (r matches Ok(m) && m.name@ == desc.name@ && m.methods@.len()
            == desc.methods@.len() && forall|i: int|
            0 <= i < desc.methods@.len() ==> sig_matches(
                (#[trigger] m.methods@[i]),
                desc.methods@[i],
            )),
        (exists|i: int|
            0 <= i < desc.methods@.len() && !cb_method_valid(
                #[trigger] desc.methods@[i],
            )) ==> (r matches Err(e) && exists|j: int|
            {
                &&& 0 <= j < desc.methods@.len()
                &&& !cb_method_valid(#[trigger] desc.methods@[j])
                &&& forall|k: int| 0 <= k < j ==> cb_method_valid(#[trigger] desc.methods@[k])
                &&& (e matches GenError::UnsupportedShape(n) && names_first_fault(
                    n@,
                    desc.methods@[j],
                ))
            }),
{
    let mut methods: Vec<SigModel> = Vec::new();
    let n = desc.methods.len();
    for i in 0..n
        invariant
            n == desc.methods@.len(),
            methods@.len() == i,
            forall|k: int| 0 <= k < i ==> cb_method_valid(#[trigger] desc.methods@[k]),
            forall|k: int|
                0 <= k < i ==> sig_matches((#[trigger] methods@[k]), desc.methods@[k]),
    {
        match method_sig(&desc.methods[i]) {
            Ok(sig) => {
                methods.push(sig);
            },
            Err(e) => {
                return Err(e);
            },
        }
    }
    Ok(InterfaceModel { name: desc.name.clone(), methods })
}

} // verus!
