//! ServiceEmitter: the facade class for the exported service trait.
//!
//! The facade class loads the primary native library and every extra
//! declared library, owns the callback registry, exposes the registry's
//! release operation, and carries one facade method per exported method:
//! argument conversion, the native call, and return conversion, in that
//! order. The native entry point paired with a method is named
//! `"native_" + methodName`; converted locals are named `"r_" + argName`,
//! and a callback argument's identifier local `argName + "_callback_index"`.

use vstd::prelude::*;
use crate::descriptor::{ArgDesc, MethodDesc, TraitDesc, TypeDesc};
use crate::error::GenError;
use crate::mapper::{host_of, map_arg, map_return, valid_arg_ty, valid_return_ty, HostType};
use crate::text::{split_commas, split_commas_list, views_match};

verus! {

/// What the facade does to one declared argument before the native call.
#[derive(Clone, Copy, Debug, PartialEq, Eq, Structural)]
pub enum ArgConv {
    /// The converted local is the argument itself (direct scalars and
    /// references, and raw byte arrays, which cross untouched).
    Direct,
    /// An int local holding `1` when the argument is true, else `0`.
    BoolToInt,
    /// A fresh registry identifier is taken, the argument is stored under
    /// it, and a long local holds the identifier.
    RegisterCallback,
    /// A text local holding the interchange encoding of the argument.
    EncodeText,
}

/// What the facade does to the captured native result.
#[derive(Clone, Copy, Debug, PartialEq, Eq, Structural)]
pub enum RetConv {
    /// Void return: nothing is captured, nothing returned.
    Nothing,
    /// The native result is returned unchanged.
    Direct,
    /// The textual native result is decoded into a host collection and
    /// materialized as an array of the declared element type.
    DecodeText,
}

/// The conversion applied to a native-call argument of the given type.
pub open spec fn arg_conv_of(t: TypeDesc) -> ArgConv {
    match t {
        TypeDesc::Callback(_) => ArgConv::RegisterCallback,
        TypeDesc::Boolean => ArgConv::BoolToInt,
        TypeDesc::List(elem) => match *elem {
            TypeDesc::Byte => ArgConv::Direct,
            _ => ArgConv::EncodeText,
        },
        _ => ArgConv::Direct,
    }
}

/// The conversion applied to the native result for the given declared
/// return type. Only boxed lists cross back as interchange text; raw byte
/// arrays and struct arrays come back in their declared host type.
pub open spec fn ret_conv_of(t: TypeDesc) -> RetConv {
    match t {
        TypeDesc::Void => RetConv::Nothing,
        TypeDesc::List(elem) => match *elem {
            TypeDesc::Byte => RetConv::Direct,
            TypeDesc::Struct(_) => RetConv::Direct,
            _ => RetConv::DecodeText,
        },
        _ => RetConv::Direct,
    }
}

/// Executable mirror of `arg_conv_of`.
pub fn arg_conv_for(t: &TypeDesc) -> (r: ArgConv)
    ensures
        r == arg_conv_of(*t),
{
    match t {
        TypeDesc::Callback(_) => ArgConv::RegisterCallback,
        TypeDesc::Boolean => ArgConv::BoolToInt,
        TypeDesc::List(elem) => match &**elem {
            TypeDesc::Byte => ArgConv::Direct,
            _ => ArgConv::EncodeText,
        },
        _ => ArgConv::Direct,
    }
}

/// Executable mirror of `ret_conv_of`.
pub fn ret_conv_for(t: &TypeDesc) -> (r: RetConv)
    ensures
        r == ret_conv_of(*t),
{
    match t {
        TypeDesc::Void => RetConv::Nothing,
        TypeDesc::List(elem) => match &**elem {
            TypeDesc::Byte => RetConv::Direct,
            TypeDesc::Struct(_) => RetConv::Direct,
            _ => RetConv::DecodeText,
        },
        _ => RetConv::Direct,
    }
}

/// One argument of a facade method: declared name and host type, and the
/// conversion its local receives before the native call.
#[derive(Debug)]
pub struct FacadeArg {
    pub name: String,
    pub host: HostType,
    pub conv: ArgConv,
}

/// One facade method: same name as the exported method, mapped return
/// type, the non-void arguments in declared order, and the two boundary
/// conversions. The native call passes the converted locals in the same
/// order as `args`.
#[derive(Debug)]
pub struct FacadeMethod {
    pub name: String,
    pub ret: HostType,
    pub ret_conv: RetConv,
    pub args: Vec<FacadeArg>,
}

/// The facade class model: class name, the native libraries to load at
/// class initialization (primary first, then the extra libraries in
/// declared order), the facade methods in source order, and the distinct
/// callback interface names referenced by any method argument.
#[derive(Debug)]
pub struct FacadeModel {
    pub name: String,
    pub libs: Vec<String>,
    pub methods: Vec<FacadeMethod>,
    pub used_callbacks: Vec<String>,
}

/// The declared arguments with `Void` placeholders dropped.
pub open spec fn nonvoid_args(args: Seq<ArgDesc>) -> Seq<ArgDesc> {
    args.filter(|a: ArgDesc| !(a.ty is Void))
}

/// `n` is the name of one of the supplied callback descriptors.
pub open spec fn cb_known(cbs: Seq<TraitDesc>, n: Seq<char>) -> bool {
    exists|i: int| 0 <= i < cbs.len() && (#[trigger] cbs[i]).name@ == n
}

/// Some argument of `m` is a callback of interface name `n`.
pub open spec fn refd_in_method(m: MethodDesc, n: Seq<char>) -> bool {
    exists|j: int|
        0 <= j < m.args@.len() && ((#[trigger] m.args@[j]).ty matches TypeDesc::Callback(c)
            && c@ == n)
}

/// Some argument of some method of the trait is a callback of name `n`.
pub open spec fn refd_in_trait(methods: Seq<MethodDesc>, n: Seq<char>) -> bool {
    exists|k: int| 0 <= k < methods.len() && refd_in_method(#[trigger] methods[k], n)
}

/// `n` occurs among the listed names.
pub open spec fn contains_name(s: Seq<String>, n: Seq<char>) -> bool {
    exists|i: int| 0 <= i < s.len() && (#[trigger] s[i])@ == n
}

/// The listed names are pairwise distinct.
pub open spec fn no_dup(s: Seq<String>) -> bool {
    forall|i: int, j: int| 0 <= i < j < s.len() ==> (#[trigger] s[i])@ != (#[trigger] s[j])@
}

/// One declared argument is acceptable for the facade: a `Void`
/// placeholder, or a mappable type whose callback interface, if any, is
/// among the supplied callback descriptors.
pub open spec fn svc_arg_ok(a: ArgDesc, cbs: Seq<TraitDesc>) -> bool {
    ||| a.ty is Void
    ||| (valid_arg_ty(a.ty) && (a.ty matches TypeDesc::Callback(c) ==> cb_known(cbs, c@)))
}

/// One exported method is acceptable: mappable return type and every
/// argument acceptable.
pub open spec fn svc_method_ok(m: MethodDesc, cbs: Seq<TraitDesc>) -> bool {
    &&& valid_return_ty(m.return_ty)
    &&& forall|i: int| 0 <= i < m.args@.len() ==> svc_arg_ok(#[trigger] m.args@[i], cbs)
}

/// The facade arguments are exactly the non-void declared arguments, in
/// declared order, each with its mapped host type and its conversion.
pub open spec fn facade_args_match(fa: Seq<FacadeArg>, declared: Seq<ArgDesc>) -> bool {
    let nv = nonvoid_args(declared);
    &&& fa.len() == nv.len()
    &&& forall|i: int|
        0 <= i < nv.len() ==> {
            &&& (#[trigger] fa[i]).name@ == nv[i].name@
            &&& fa[i].host == host_of(nv[i].ty)
            &&& fa[i].conv == arg_conv_of(nv[i].ty)
        }
}

/// The facade method mirrors the exported method: same name, mapped
/// return type and return conversion, and matching argument list.
pub open spec fn facade_method_matches(f: FacadeMethod, m: MethodDesc) -> bool {
    &&& f.name@ == m.name@
    &&& f.ret == host_of(m.return_ty)
    &&& f.ret_conv == ret_conv_of(m.return_ty)
    &&& facade_args_match(f.args@, m.args@)
}

/// The error reported for one unacceptable argument: `UnsupportedShape`
/// naming the argument when its type is unmappable, else
/// `UnresolvedCallback` naming the missing callback interface.
pub open spec fn arg_fault_named(e: GenError, a: ArgDesc, cbs: Seq<TraitDesc>) -> bool {
    if !valid_arg_ty(a.ty) {
        e matches GenError::UnsupportedShape(n) && n@ == a.name@
    } else {
        a.ty matches TypeDesc::Callback(c) && !cb_known(cbs, c@) && (e
            matches GenError::UnresolvedCallback(n) && n@ == c@)
    }
}

/// The error reported for one unacceptable method: the method's own name
/// when its return type is unmappable, else the fault of the first
/// unacceptable argument.
pub open spec fn svc_names_first_fault(e: GenError, m: MethodDesc, cbs: Seq<TraitDesc>) -> bool {
    if !valid_return_ty(m.return_ty) {
        e matches GenError::UnsupportedShape(n) && n@ == m.name@
    } else {
        exists|j: int|
            {
                &&& 0 <= j < m.args@.len()
                &&& !svc_arg_ok(#[trigger] m.args@[j], cbs)
                &&& forall|k: int| 0 <= k < j ==> svc_arg_ok(#[trigger] m.args@[k], cbs)
                &&& arg_fault_named(e, m.args@[j], cbs)
            }
    }
}

/// The libraries the facade's initialization block loads, in order: the
/// primary library first, then each comma-separated extra library. An
/// empty extra-library string declares no extra libraries.
pub open spec fn load_libs(so: Seq<char>, ext: Seq<char>) -> Seq<Seq<char>> {
    if ext.len() == 0 {
        seq![so]
    } else {
        seq![so] + split_commas(ext)
    }
}

/// Is `n` the name of one of the supplied callback descriptors?
fn find_callback(cbs: &Vec<TraitDesc>, n: &String) -> (r: bool)
    ensures
        r == cb_known(cbs@, n@),
{
    let mut i: usize = 0;
    while i < cbs.len()
        invariant
            i <= cbs@.len(),
            forall|k: int| 0 <= k < i ==> (#[trigger] cbs@[k]).name@ != n@,
        decreases cbs@.len() - i,
    {
        if cbs[i].name.eq(n) {
            return true;
        }
        i += 1;
    }
    false
}

/// Is `n` already listed?
fn name_listed(v: &Vec<String>, n: &String) -> (r: bool)
    ensures
        r == contains_name(v@, n@),
{
    let mut i: usize = 0;
    while i < v.len()
        invariant
            i <= v@.len(),
            forall|k: int| 0 <= k < i ==> (#[trigger] v@[k])@ != n@,
        decreases v@.len() - i,
    {
        if v[i].eq(n) {
            return true;
        }
        i += 1;
    }
    false
}

/// Appending one declared argument to the filtered list: a `Void`
/// placeholder disappears, anything else lands at the end.
proof fn lemma_nonvoid_push(prefix: Seq<ArgDesc>, a: ArgDesc)
    ensures
        nonvoid_args(prefix.push(a)) == if a.ty is Void {
            nonvoid_args(prefix)
        } else {
            nonvoid_args(prefix).push(a)
        },
{
    reveal(Seq::filter);
    let q = prefix.push(a);
    assert(q.drop_last() =~= prefix);
    assert(q.last() == a);
}

/// Build one facade method, collecting the callback interface names its
/// arguments reference into `used` (first occurrence kept, duplicates
/// dropped, unresolved names reported, never skipped).
fn facade_method(m: &MethodDesc, callbacks: &Vec<TraitDesc>, used: &mut Vec<String>) -> (r:
    Result<FacadeMethod, GenError>)
    ensures
        svc_method_ok(*m, callbacks@) ==> (r matches Ok(f) && facade_method_matches(f, *m)),
        !svc_method_ok(*m, callbacks@) ==> (r matches Err(e) && svc_names_first_fault(
            e,
            *m,
            callbacks@,
        )),
        final(used)@.len() >= old(used)@.len(),
        forall|i: int| 0 <= i < old(used)@.len() ==> final(used)@[i] == old(used)@[i],
        forall|i: int|
            old(used)@.len() <= i < final(used)@.len() ==> refd_in_method(
                *m,
                (#[trigger] final(used)@[i])@,
            ) && cb_known(callbacks@, final(used)@[i]@),
        no_dup(old(used)@) ==> no_dup(final(used)@),
        r is Ok ==> forall|n: Seq<char>|
            refd_in_method(*m, n) ==> contains_name(final(used)@, n),
{
    let ret = match map_return(&m.return_ty, m.name.as_str()) {
        Ok(repr) => repr.host,
        Err(e) => {
            return Err(e);
        },
    };
    let ret_conv = ret_conv_for(&m.return_ty);
    let mut fargs: Vec<FacadeArg> = Vec::new();
    let n = m.args.len();
    for ai in 0..n
        invariant
            n == m.args@.len(),
            valid_return_ty(m.return_ty),
            forall|k: int| 0 <= k < ai ==> svc_arg_ok(#[trigger] m.args@[k], callbacks@),
            facade_args_match(fargs@, m.args@.subrange(0, ai as int)),
            used@.len() >= old(used)@.len(),
            forall|i: int| 0 <= i < old(used)@.len() ==> used@[i] == old(used)@[i],
            forall|i: int|
                old(used)@.len() <= i < used@.len() ==> refd_in_method(
                    *m,
                    (#[trigger] used@[i])@,
                ) && cb_known(callbacks@, used@[i]@),
            no_dup(old(used)@) ==> no_dup(used@),
            forall|j: int|
                0 <= j < ai ==> ((#[trigger] m.args@[j]).ty matches TypeDesc::Callback(c)
                    ==> contains_name(used@, c@)),
    {
        let arg = &m.args[ai];
        let ghost used_entry = used@;
        proof {
            lemma_nonvoid_push(m.args@.subrange(0, ai as int), m.args@[ai as int]);
            assert(m.args@.subrange(0, ai + 1) =~= m.args@.subrange(0, ai as int).push(
                m.args@[ai as int],
            ));
        }
        match &arg.ty {
            TypeDesc::Void => {},
            ty => {
                let repr = match map_arg(ty, arg.name.as_str(), true) {
                    Ok(repr) => repr,
                    Err(e) => {
                        return Err(e);
                    },
                };
                if let TypeDesc::Callback(cname) = ty {
                    if !find_callback(callbacks, cname) {
                        return Err(GenError::UnresolvedCallback(cname.clone()));
                    }
                    proof {
                        assert(m.args@[ai as int].ty == TypeDesc::Callback(*cname));
                        assert(refd_in_method(*m, cname@));
                    }
                    if !name_listed(used, cname) {
                        used.push(cname.clone());
                        proof {
                            assert(used@[used@.len() - 1]@ == cname@);
                        }
                    }
                    proof {
                        assert(contains_name(used@, cname@));
                    }
                }
                let conv = arg_conv_for(ty);
                fargs.push(FacadeArg { name: arg.name.clone(), host: repr.host, conv });
            },
        }
        proof {
            assert forall|n: Seq<char>| contains_name(used_entry, n) implies contains_name(
                used@,
                n,
            ) by {
                let i = choose|i: int|
                    0 <= i < used_entry.len() && (#[trigger] used_entry[i])@ == n;
                assert(used@[i]@ == n);
            }
        }
    }
    proof {
        assert(m.args@.subrange(0, n as int) =~= m.args@);
    }
    Ok(FacadeMethod { name: m.name.clone(), ret, ret_conv, args: fargs })
}

/// Build the facade class model for the exported service trait.
///
/// Succeeds exactly when every exported method is acceptable; the result
/// then carries the library load list (primary first, extras in declared
/// order), one facade method per exported method in source order, and the
/// distinct callback interface names referenced by any argument.
/// Otherwise fails with the first fault of the first unacceptable method,
/// and no partial model is returned.
pub fn service_model(
    desc: &TraitDesc,
    so_name: &str,
    ext_libs: &str,
    callbacks: &Vec<TraitDesc>,
) -> (r: Result<FacadeModel, GenError>)
    ensures
        (forall|i: int|
            0 <= i < desc.methods@.len() ==> svc_method_ok(
                #[trigger] desc.methods@[i],
                callbacks@,
            )) ==> (r matches Ok(m) && {
            &&& m.name@ == desc.name@
            &&& views_match(m.libs@, load_libs(so_name@, ext_libs@))
            &&& m.methods@.len() == desc.methods@.len()
            &&& forall|i: int|
                0 <= i < desc.methods@.len() ==> facade_method_matches(
                    (#[trigger] m.methods@[i]),
                    desc.methods@[i],
                )
            &&& no_dup(m.used_callbacks@)
            &&& forall|n: Seq<char>|
                contains_name(m.used_callbacks@, n) <==> refd_in_trait(desc.methods@, n)
        }),
        (exists|i: int|
            0 <= i < desc.methods@.len() && !svc_method_ok(
                #[trigger] desc.methods@[i],
                callbacks@,
            )) ==> (r matches Err(e) && exists|j: int|
            {
                &&& 0 <= j < desc.methods@.len()
                &&& !svc_method_ok(#[trigger] desc.methods@[j], callbacks@)
                &&& forall|k: int|
                    0 <= k < j ==> svc_method_ok(#[trigger] desc.methods@[k], callbacks@)
                &&& svc_names_first_fault(e, desc.methods@[j], callbacks@)
            }),
{
    let mut libs: Vec<String> = Vec::new();
    libs.push(so_name.to_owned());
    if !ext_libs.is_empty() {
        let extra = split_commas_list(ext_libs);
        let k = extra.len();
        for e in 0..k
            invariant
                k == extra@.len(),
                libs@.len() == e + 1,
                libs@[0]@ == so_name@,
                views_match(extra@, split_commas(ext_libs@)),
                forall|i: int| 0 <= i < e ==> (#[trigger] libs@[i + 1])@ == extra@[i]@,
        {
            libs.push(extra[e].clone());
        }
        proof {
            let ll = load_libs(so_name@, ext_libs@);
            let sp = split_commas(ext_libs@);
            assert(ll == seq![so_name@] + sp);
            assert forall|i: int| 0 <= i < ll.len() implies (#[trigger] libs@[i])@ == ll[i] by {
                if i == 0 {
                    assert(ll[0] == so_name@);
                } else {
                    assert(libs@[(i - 1) + 1]@ == extra@[i - 1]@);
                    assert(extra@[i - 1]@ == sp[i - 1]);
                    assert(ll[i] == sp[i - 1]);
                }
            }
            assert(views_match(libs@, ll));
        }
    } else {
        proof {
            assert(libs@.len() == 1);
            assert(libs@[0]@ == so_name@);
            assert(load_libs(so_name@, ext_libs@) == seq![so_name@]);
            assert(views_match(libs@, load_libs(so_name@, ext_libs@)));
        }
    }
    let mut used: Vec<String> = Vec::new();
    let mut methods: Vec<FacadeMethod> = Vec::new();
    let nm = desc.methods.len();
    for mi in 0..nm
        invariant
            nm == desc.methods@.len(),
            methods@.len() == mi,
            forall|k: int| 0 <= k < mi ==> svc_method_ok(#[trigger] desc.methods@[k], callbacks@),
            forall|k: int|
                0 <= k < mi ==> facade_method_matches(
                    (#[trigger] methods@[k]),
                    desc.methods@[k],
                ),
            no_dup(used@),
            forall|n: Seq<char>|
                contains_name(used@, n) ==> exists|k: int|
                    0 <= k < mi && refd_in_method(#[trigger] desc.methods@[k], n),
            forall|k: int, n: Seq<char>|
                0 <= k < mi && #[trigger] refd_in_method(desc.methods@[k], n) ==> contains_name(
                    used@,
                    n,
                ),
            views_match(libs@, load_libs(so_name@, ext_libs@)),
    {
        let ghost used_before = used@;
        match facade_method(&desc.methods[mi], callbacks, &mut used) {
            Ok(f) => {
                methods.push(f);
                proof {
                    assert forall|n: Seq<char>| contains_name(used_before, n) implies contains_name(
                        used@,
                        n,
                    ) by {
                        let i = choose|i: int|
                            0 <= i < used_before.len() && (#[trigger] used_before[i])@ == n;
                        assert(used@[i]@ == n);
                    }
                    assert forall|n: Seq<char>| contains_name(used@, n) implies exists|k: int|
                        0 <= k < mi + 1 && refd_in_method(#[trigger] desc.methods@[k], n) by {
                        let i = choose|i: int|
                            0 <= i < used@.len() && (#[trigger] used@[i])@ == n;
                        if i < used_before.len() {
                            assert(used_before[i]@ == n);
                            assert(contains_name(used_before, n));
                            let k = choose|k: int|
                                0 <= k < mi && refd_in_method(#[trigger] desc.methods@[k], n);
                            assert(0 <= k < mi + 1 && refd_in_method(desc.methods@[k], n));
                        } else {
                            assert(refd_in_method(*(&desc.methods@[mi as int]), used@[i]@));
                            assert(0 <= mi < mi + 1 && refd_in_method(desc.methods@[mi as int], n));
                        }
                    }
                    assert forall|k: int, n: Seq<char>|
                        0 <= k < mi + 1 && #[trigger] refd_in_method(
                            desc.methods@[k],
                            n,
                        ) implies contains_name(used@, n) by {
                        if k < mi {
                            assert(contains_name(used_before, n));
                            assert(contains_name(used@, n));
                        }
                    }
                }
            },
            Err(e) => {
                return Err(e);
            },
        }
    }
    Ok(FacadeModel { name: desc.name.clone(), libs, methods, used_callbacks: used })
}

} // verus!
