//! Rendering the emitted models into Java token streams and source text.
//!
//! Every render function states the exact item sequence it appends, so the
//! token stream handed to the formatter is pinned, atom by atom, to the
//! model. The formatter's own layout work is trusted (see `jtokens`).

use vstd::prelude::*;
use crate::callback_gen::{callback_model, cb_method_valid, names_first_fault, sig_matches, InterfaceModel, ParamModel, SigModel};
use crate::descriptor::{StructDesc, TraitDesc};
use crate::error::GenError;
use crate::jtokens::{import_atom, indent_atom, lit_atom, newline_atom, render_java_file, rendered_file, toks_import, toks_indent, toks_lit, toks_new, toks_push, toks_unindent, unindent_atom, JavaTokens, toks_items};
use crate::mapper::{host_of, valid_field_ty, HostType};
use crate::struct_gen::{fields_match, struct_model, ClassModel, FieldModel};

verus! {

/// The token items of one Java type reference. A `Ref` is imported from
/// the target package; a boxed scalar renders under its boxed name, since
/// boxed-element arrays are rebuilt from decoded interchange data.
pub open spec fn type_atoms(h: HostType, pkg: Seq<char>, boxed: bool) -> Seq<
    (int, Seq<char>, Seq<char>),
>
    decreases h,
{
    match h {
        HostType::Void => seq![lit_atom("void"@)],
        HostType::Boolean => seq![
            lit_atom(if boxed {
                "Boolean"@
            } else {
                "boolean"@
            }),
        ],
        HostType::Byte => seq![
            lit_atom(if boxed {
                "Byte"@
            } else {
                "byte"@
            }),
        ],
        HostType::Int => seq![
            lit_atom(if boxed {
                "Integer"@
            } else {
                "int"@
            }),
        ],
        HostType::Long => seq![
            lit_atom(if boxed {
                "Long"@
            } else {
                "long"@
            }),
        ],
        HostType::Float => seq![
            lit_atom(if boxed {
                "Float"@
            } else {
                "float"@
            }),
        ],
        HostType::Double => seq![
            lit_atom(if boxed {
                "Double"@
            } else {
                "double"@
            }),
        ],
        HostType::Text => seq![import_atom("java.lang"@, "String"@)],
        HostType::Ref(name) => seq![import_atom(pkg, name@)],
        HostType::Array(elem) => type_atoms(*elem, pkg, false) + seq![lit_atom("[]"@)],
        HostType::BoxedArray(elem) => type_atoms(*elem, pkg, true) + seq![lit_atom("[]"@)],
    }
}

/// Append one Java type reference.
pub(crate) fn render_type(t: &mut JavaTokens, h: &HostType, pkg: &str, boxed: bool)
    ensures
        toks_items(*final(t)) == toks_items(*old(t)) + type_atoms(*h, pkg@, boxed),
    decreases *h,
{
    match h {
        HostType::Void => {
            toks_lit(t, "void");
            proof {
                assert(toks_items(*t) =~= toks_items(*old(t)) + type_atoms(*h, pkg@, boxed));
            }
        },
        HostType::Boolean => {
            if boxed {
                toks_lit(t, "Boolean");
            } else {
                toks_lit(t, "boolean");
            }
            proof {
                assert(toks_items(*t) =~= toks_items(*old(t)) + type_atoms(*h, pkg@, boxed));
            }
        },
        HostType::Byte => {
            if boxed {
                toks_lit(t, "Byte");
            } else {
                toks_lit(t, "byte");
            }
            proof {
                assert(toks_items(*t) =~= toks_items(*old(t)) + type_atoms(*h, pkg@, boxed));
            }
        },
        HostType::Int => {
            if boxed {
                toks_lit(t, "Integer");
            } else {
                toks_lit(t, "int");
            }
            proof {
                assert(toks_items(*t) =~= toks_items(*old(t)) + type_atoms(*h, pkg@, boxed));
            }
        },
        HostType::Long => {
            if boxed {
                toks_lit(t, "Long");
            } else {
                toks_lit(t, "long");
            }
            proof {
                assert(toks_items(*t) =~= toks_items(*old(t)) + type_atoms(*h, pkg@, boxed));
            }
        },
        HostType::Float => {
            if boxed {
                toks_lit(t, "Float");
            } else {
                toks_lit(t, "float");
            }
            proof {
                assert(toks_items(*t) =~= toks_items(*old(t)) + type_atoms(*h, pkg@, boxed));
            }
        },
        HostType::Double => {
            if boxed {
                toks_lit(t, "Double");
            } else {
                toks_lit(t, "double");
            }
            proof {
                assert(toks_items(*t) =~= toks_items(*old(t)) + type_atoms(*h, pkg@, boxed));
            }
        },
        HostType::Text => {
            toks_import(t, "java.lang", "String");
            proof {
                assert(toks_items(*t) =~= toks_items(*old(t)) + type_atoms(*h, pkg@, boxed));
            }
        },
        HostType::Ref(name) => {
            toks_import(t, pkg, name.as_str());
            proof {
                assert(toks_items(*t) =~= toks_items(*old(t)) + type_atoms(*h, pkg@, boxed));
            }
        },
        HostType::Array(elem) => {
            render_type(t, &**elem, pkg, false);
            toks_lit(t, "[]");
            proof {
                assert(toks_items(*t) =~= toks_items(*old(t)) + type_atoms(*h, pkg@, boxed));
            }
        },
        HostType::BoxedArray(elem) => {
            render_type(t, &**elem, pkg, true);
            toks_lit(t, "[]");
            proof {
                assert(toks_items(*t) =~= toks_items(*old(t)) + type_atoms(*h, pkg@, boxed));
            }
        },
    }
}

/// Name and host type of each emitted field, by view.
pub open spec fn field_views(fs: Seq<FieldModel>) -> Seq<(Seq<char>, HostType)> {
    Seq::new(fs.len(), |i: int| (fs[i].name@, fs[i].host))
}

/// The token items of one public field declaration.
pub open spec fn field_atoms(fv: (Seq<char>, HostType), pkg: Seq<char>) -> Seq<
    (int, Seq<char>, Seq<char>),
> {
    seq![newline_atom(), lit_atom("public "@)] + type_atoms(fv.1, pkg, false) + seq![
        lit_atom(" "@),
        lit_atom(fv.0),
        lit_atom(";"@),
    ]
}

/// The token items of a field list, in declared order.
pub open spec fn fields_atoms(fvs: Seq<(Seq<char>, HostType)>, pkg: Seq<char>) -> Seq<
    (int, Seq<char>, Seq<char>),
>
    decreases fvs.len(),
{
    if fvs.len() == 0 {
        Seq::empty()
    } else {
        fields_atoms(fvs.drop_last(), pkg) + field_atoms(fvs.last(), pkg)
    }
}

/// The token items of one value-type source unit: a public class
/// implementing `java.io.Serializable`, holding the fields and nothing
/// else.
pub open spec fn struct_unit_atoms(
    name: Seq<char>,
    fvs: Seq<(Seq<char>, HostType)>,
    pkg: Seq<char>,
) -> Seq<(int, Seq<char>, Seq<char>)> {
    seq![
        lit_atom("public class "@),
        lit_atom(name),
        lit_atom(" implements "@),
        import_atom("java.io"@, "Serializable"@),
        lit_atom(" {"@),
        indent_atom(),
    ] + fields_atoms(fvs, pkg) + seq![unindent_atom(), newline_atom(), lit_atom("}"@)]
}

/// Build the token stream of one value-type unit.
pub(crate) fn render_struct(m: &ClassModel, pkg: &str) -> (t: JavaTokens)
    ensures
        toks_items(t) == struct_unit_atoms(m.name@, field_views(m.fields@), pkg@),
{
    let mut t = toks_new();
    toks_lit(&mut t, "public class ");
    toks_lit(&mut t, m.name.as_str());
    toks_lit(&mut t, " implements ");
    toks_import(&mut t, "java.io", "Serializable");
    toks_lit(&mut t, " {");
    toks_indent(&mut t);
    let ghost head = toks_items(t);
    let ghost fvs = field_views(m.fields@);
    proof {
        assert(fields_atoms(fvs.subrange(0, 0), pkg@) == Seq::<(int, Seq<char>, Seq<char>)>::empty());
        assert(head =~= head + fields_atoms(fvs.subrange(0, 0), pkg@));
    }
    let n = m.fields.len();
    for i in 0..n
        invariant
            n == m.fields@.len(),
            fvs == field_views(m.fields@),
            fvs.len() == n,
            toks_items(t) == head + fields_atoms(fvs.subrange(0, i as int), pkg@),
    {
        let ghost before = toks_items(t);
        toks_push(&mut t);
        toks_lit(&mut t, "public ");
        let field = &m.fields[i];
        render_type(&mut t, &field.host, pkg, false);
        toks_lit(&mut t, " ");
        toks_lit(&mut t, field.name.as_str());
        toks_lit(&mut t, ";");
        proof {
            assert(fvs[i as int] == (m.fields@[i as int].name@, m.fields@[i as int].host));
            assert(toks_items(t) =~= before + field_atoms(fvs[i as int], pkg@));
            assert(fvs.subrange(0, i + 1).drop_last() =~= fvs.subrange(0, i as int));
            assert(fvs.subrange(0, i + 1).last() == fvs[i as int]);
            assert(fields_atoms(fvs.subrange(0, i + 1), pkg@) == fields_atoms(
                fvs.subrange(0, i as int),
                pkg@,
            ) + field_atoms(fvs[i as int], pkg@));
            assert(toks_items(t) =~= head + fields_atoms(fvs.subrange(0, i + 1), pkg@));
        }
    }
    toks_unindent(&mut t);
    toks_push(&mut t);
    toks_lit(&mut t, "}");
    proof {
        assert(fvs.subrange(0, n as int) =~= fvs);
        assert(toks_items(t) =~= struct_unit_atoms(m.name@, fvs, pkg@));
    }
    t
}

/// Name and host type of each mapped field of a struct descriptor.
pub open spec fn mapped_field_views(desc: StructDesc) -> Seq<(Seq<char>, HostType)> {
    Seq::new(desc.fields@.len(), |i: int| (desc.fields@[i].name@, host_of(desc.fields@[i].ty)))
}

/// Emit one value-type source unit for a struct descriptor.
///
/// Succeeds exactly when every field type may stand as a field; the
/// emitted text is then the rendering of exactly the unit's token items,
/// so equal descriptors always yield the identical text. An unmappable
/// field yields `UnsupportedShape` naming the first offender. No partial
/// source text is ever returned.
pub fn struct_source(desc: &StructDesc, pkg: &str) -> (r: Result<String, GenError>)
    ensures
        (forall|i: int|
            0 <= i < desc.fields@.len() ==> valid_field_ty(
                (#[trigger] desc.fields@[i]).ty,
            )) ==> (r matches Ok(out) && out@ == rendered_file(
            struct_unit_atoms(desc.name@, mapped_field_views(*desc), pkg@),
            pkg@,
        )),
        (exists|i: int|
            0 <= i < desc.fields@.len() && !valid_field_ty(
                (#[trigger] desc.fields@[i]).ty,
            )) ==> (r matches Err(e) && exists|j: int|
            {
                &&& 0 <= j < desc.fields@.len()
                &&& !valid_field_ty((#[trigger] desc.fields@[j]).ty)
                &&& forall|k: int| 0 <= k < j ==> valid_field_ty((#[trigger] desc.fields@[k]).ty)
                &&& (e matches GenError::UnsupportedShape(n) && n@ == desc.fields@[j].name@)
            }),
{
    match struct_model(desc) {
        Ok(m) => {
            let t = render_struct(&m, pkg);
            proof {
                assert(field_views(m.fields@) =~= mapped_field_views(*desc));
            }
            match render_java_file(&t, pkg) {
                Some(out) => Ok(out),
                None => Err(GenError::EmissionFault),
            }
        },
        Err(e) => Err(e),
    }
}

/// Name, return type and parameter views of each declared method.
pub open spec fn sig_views(ms: Seq<SigModel>) -> Seq<
    (Seq<char>, HostType, Seq<(Seq<char>, HostType)>),
> {
    Seq::new(ms.len(), |i: int| (ms[i].name@, ms[i].ret, param_views(ms[i].params@)))
}

pub open spec fn param_views(ps: Seq<ParamModel>) -> Seq<(Seq<char>, HostType)> {
    Seq::new(ps.len(), |i: int| (ps[i].name@, ps[i].host))
}

/// The token items of one declared parameter.
pub open spec fn param_atoms(pv: (Seq<char>, HostType), pkg: Seq<char>) -> Seq<
    (int, Seq<char>, Seq<char>),
> {
    type_atoms(pv.1, pkg, false) + seq![lit_atom(" "@), lit_atom(pv.0)]
}

/// The token items of a parameter list, comma-separated.
pub open spec fn params_atoms(pvs: Seq<(Seq<char>, HostType)>, pkg: Seq<char>) -> Seq<
    (int, Seq<char>, Seq<char>),
>
    decreases pvs.len(),
{
    if pvs.len() == 0 {
        Seq::empty()
    } else if pvs.len() == 1 {
        param_atoms(pvs[0], pkg)
    } else {
        params_atoms(pvs.drop_last(), pkg) + seq![lit_atom(", "@)] + param_atoms(
            pvs.last(),
            pkg,
        )
    }
}

/// Append a comma-separated parameter list.
pub(crate) fn render_params(t: &mut JavaTokens, ps: &Vec<ParamModel>, pkg: &str)
    ensures
        toks_items(*final(t)) == toks_items(*old(t)) + params_atoms(param_views(ps@), pkg@),
{
    let ghost pvs = param_views(ps@);
    let n = ps.len();
    proof {
        assert(params_atoms(pvs.subrange(0, 0), pkg@) == Seq::<(int, Seq<char>, Seq<char>)>::empty());
        assert(toks_items(*t) =~= toks_items(*old(t)) + params_atoms(pvs.subrange(0, 0), pkg@));
    }
    for i in 0..n
        invariant
            n == ps@.len(),
            pvs == param_views(ps@),
            pvs.len() == n,
            toks_items(*t) == toks_items(*old(t)) + params_atoms(pvs.subrange(0, i as int), pkg@),
    {
        let ghost before = toks_items(*t);
        if i > 0 {
            toks_lit(t, ", ");
        }
        let p = &ps[i];
        render_type(t, &p.host, pkg, false);
        toks_lit(t, " ");
        toks_lit(t, p.name.as_str());
        proof {
            assert(pvs[i as int] == (ps@[i as int].name@, ps@[i as int].host));
            assert(pvs.subrange(0, i + 1).drop_last() =~= pvs.subrange(0, i as int));
            assert(pvs.subrange(0, i + 1).last() == pvs[i as int]);
            if i == 0 {
                assert(pvs.subrange(0, 1).len() == 1);
                assert(pvs.subrange(0, 1)[0] == pvs[0]);
                assert(params_atoms(pvs.subrange(0, 1), pkg@) == param_atoms(pvs[0], pkg@));
                assert(toks_items(*t) =~= before + param_atoms(pvs[0], pkg@));
                assert(toks_items(*t) =~= toks_items(*old(t)) + params_atoms(
                    pvs.subrange(0, i + 1),
                    pkg@,
                ));
            } else {
                assert(params_atoms(pvs.subrange(0, i + 1), pkg@) == params_atoms(
                    pvs.subrange(0, i as int),
                    pkg@,
                ) + seq![lit_atom(", "@)] + param_atoms(pvs[i as int], pkg@));
                assert(toks_items(*t) =~= before + seq![lit_atom(", "@)] + param_atoms(
                    pvs[i as int],
                    pkg@,
                ));
                assert(toks_items(*t) =~= toks_items(*old(t)) + params_atoms(
                    pvs.subrange(0, i + 1),
                    pkg@,
                ));
            }
        }
    }
    proof {
        assert(pvs.subrange(0, n as int) =~= pvs);
    }
}

/// The token items of one interface method declaration.
pub open spec fn cb_method_atoms(
    sv: (Seq<char>, HostType, Seq<(Seq<char>, HostType)>),
    pkg: Seq<char>,
) -> Seq<(int, Seq<char>, Seq<char>)> {
    seq![newline_atom()] + type_atoms(sv.1, pkg, false) + seq![
        lit_atom(" "@),
        lit_atom(sv.0),
        lit_atom("("@),
    ] + params_atoms(sv.2, pkg) + seq![lit_atom(");"@)]
}

/// The token items of an interface method list, in source order.
pub open spec fn cb_methods_atoms(
    svs: Seq<(Seq<char>, HostType, Seq<(Seq<char>, HostType)>)>,
    pkg: Seq<char>,
) -> Seq<(int, Seq<char>, Seq<char>)>
    decreases svs.len(),
{
    if svs.len() == 0 {
        Seq::empty()
    } else {
        cb_methods_atoms(svs.drop_last(), pkg) + cb_method_atoms(svs.last(), pkg)
    }
}

/// The token items of one callback-interface source unit: a public
/// interface extending `java.io.Serializable`, declaring the methods and
/// nothing else.
pub open spec fn cb_unit_atoms(
    name: Seq<char>,
    svs: Seq<(Seq<char>, HostType, Seq<(Seq<char>, HostType)>)>,
    pkg: Seq<char>,
) -> Seq<(int, Seq<char>, Seq<char>)> {
    seq![
        lit_atom("public interface "@),
        lit_atom(name),
        lit_atom(" extends "@),
        import_atom("java.io"@, "Serializable"@),
        lit_atom(" {"@),
        indent_atom(),
    ] + cb_methods_atoms(svs, pkg) + seq![unindent_atom(), newline_atom(), lit_atom("}"@)]
}

/// Build the token stream of one callback-interface unit.
pub(crate) fn render_callback(m: &InterfaceModel, pkg: &str) -> (t: JavaTokens)
    ensures
        toks_items(t) == cb_unit_atoms(m.name@, sig_views(m.methods@), pkg@),
{
    let mut t = toks_new();
    toks_lit(&mut t, "public interface ");
    toks_lit(&mut t, m.name.as_str());
    toks_lit(&mut t, " extends ");
    toks_import(&mut t, "java.io", "Serializable");
    toks_lit(&mut t, " {");
    toks_indent(&mut t);
    let ghost head = toks_items(t);
    let ghost svs = sig_views(m.methods@);
    proof {
        assert(cb_methods_atoms(svs.subrange(0, 0), pkg@) == Seq::<(int, Seq<char>, Seq<char>)>::empty());
        assert(head =~= head + cb_methods_atoms(svs.subrange(0, 0), pkg@));
    }
    let n = m.methods.len();
    for i in 0..n
        invariant
            n == m.methods@.len(),
            svs == sig_views(m.methods@),
            svs.len() == n,
            toks_items(t) == head + cb_methods_atoms(svs.subrange(0, i as int), pkg@),
    {
        let ghost before = toks_items(t);
        toks_push(&mut t);
        let sig = &m.methods[i];
        render_type(&mut t, &sig.ret, pkg, false);
        toks_lit(&mut t, " ");
        toks_lit(&mut t, sig.name.as_str());
        toks_lit(&mut t, "(");
        render_params(&mut t, &sig.params, pkg);
        toks_lit(&mut t, ");");
        proof {
            assert(svs[i as int] == (
                m.methods@[i as int].name@,
                m.methods@[i as int].ret,
                param_views(m.methods@[i as int].params@),
            ));
            assert(toks_items(t) =~= before + cb_method_atoms(svs[i as int], pkg@));
            assert(svs.subrange(0, i + 1).drop_last() =~= svs.subrange(0, i as int));
            assert(svs.subrange(0, i + 1).last() == svs[i as int]);
            assert(cb_methods_atoms(svs.subrange(0, i + 1), pkg@) == cb_methods_atoms(
                svs.subrange(0, i as int),
                pkg@,
            ) + cb_method_atoms(svs[i as int], pkg@));
            assert(toks_items(t) =~= head + cb_methods_atoms(svs.subrange(0, i + 1), pkg@));
        }
    }
    toks_unindent(&mut t);
    toks_push(&mut t);
    toks_lit(&mut t, "}");
    proof {
        assert(svs.subrange(0, n as int) =~= svs);
        assert(toks_items(t) =~= cb_unit_atoms(m.name@, svs, pkg@));
    }
    t
}

/// The mapped signature views of a callback trait descriptor.
pub open spec fn mapped_sig_views(desc: TraitDesc) -> Seq<
    (Seq<char>, HostType, Seq<(Seq<char>, HostType)>),
> {
    Seq::new(
        desc.methods@.len(),
        |i: int|
            (
                desc.methods@[i].name@,
                host_of(desc.methods@[i].return_ty),
                Seq::new(
                    desc.methods@[i].args@.len(),
                    |j: int|
                        (
                            desc.methods@[i].args@[j].name@,
                            host_of(desc.methods@[i].args@[j].ty),
                        ),
                ),
            ),
    )
}

/// Emit one callback-interface source unit for a trait descriptor.
///
/// Succeeds exactly when every method is mappable; the emitted text is
/// then the rendering of exactly the unit's token items, so equal
/// descriptors always yield the identical text. An unmappable method
/// yields `UnsupportedShape` naming its first fault. No partial source
/// text is ever returned.
pub fn callback_source(desc: &TraitDesc, pkg: &str) -> (r: Result<String, GenError>)
    ensures
        (forall|i: int|
            0 <= i < desc.methods@.len() ==> cb_method_valid(
                #[trigger] desc.methods@[i],
            )) ==> (r matches Ok(out) && out@ == rendered_file(
            cb_unit_atoms(desc.name@, mapped_sig_views(*desc), pkg@),
            pkg@,
        )),
        (exists|i: int|
            0 <= i < desc.methods@.len() && !cb_method_valid(
                #[trigger] desc.methods@[i],
            )) ==> (r matches Err(e) && exists|j: int|
            {
                &&& 0 <= j < desc.methods@.len()
                &&& !cb_method_valid(#[trigger] desc.methods@[j])
                &&& forall|k: int| 0 <= k < j ==> cb_method_valid(#[trigger] desc.methods@[k])
                &&& (e matches GenError::UnsupportedShape(n) && names_first_fault(
                    n@,
                    desc.methods@[j],
                ))
            }),
{
    match callback_model(desc) {
        Ok(m) => {
            let t = render_callback(&m, pkg);
            proof {
                assert forall|i: int| 0 <= i < m.methods@.len() implies sig_views(m.methods@)[i]
                    == mapped_sig_views(*desc)[i] by {
                    assert(sig_matches(m.methods@[i], desc.methods@[i]));
                    assert(param_views(m.methods@[i].params@) =~= mapped_sig_views(
                        *desc,
                    )[i].2);
                }
                assert(sig_views(m.methods@) =~= mapped_sig_views(*desc));
            }
            match render_java_file(&t, pkg) {
                Some(out) => Ok(out),
                None => Err(GenError::EmissionFault),
            }
        },
        Err(e) => Err(e),
    }
}

} // verus!
