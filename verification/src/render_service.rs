//! Rendering the facade class model into its Java token stream and source
//! text: the class initialization block loading the native libraries, the
//! registry fields and release method, and one facade method per exported
//! method (argument conversion, native call, return conversion).

use vstd::prelude::*;
use crate::descriptor::TraitDesc;
use crate::error::GenError;
use crate::jtokens::{import_atom, indent_atom, lit_atom, newline_atom, render_java_file, rendered_file, toks_import, toks_indent, toks_lit, toks_new, toks_push, toks_unindent, unindent_atom, JavaTokens, toks_items};
use crate::mapper::{host_of, HostType};
use crate::render::type_atoms;
use crate::render::render_type;
use crate::service_gen::{arg_conv_of, facade_args_match, facade_method_matches, load_libs, nonvoid_args, ret_conv_of, service_model, svc_method_ok, svc_names_first_fault, ArgConv, FacadeArg, FacadeMethod, FacadeModel, RetConv};
use crate::text::views_match;

verus! {

/// Name, host type and conversion of each facade argument, by view.
pub open spec fn fa_views(args: Seq<FacadeArg>) -> Seq<(Seq<char>, HostType, ArgConv)> {
    Seq::new(args.len(), |i: int| (args[i].name@, args[i].host, args[i].conv))
}

/// The per-method views of a facade model.
pub open spec fn fm_views(ms: Seq<FacadeMethod>) -> Seq<
    (Seq<char>, HostType, RetConv, Seq<(Seq<char>, HostType, ArgConv)>),
> {
    Seq::new(ms.len(), |i: int| (ms[i].name@, ms[i].ret, ms[i].ret_conv, fa_views(ms[i].args@)))
}

pub open spec fn lib_views(ls: Seq<String>) -> Seq<Seq<char>> {
    Seq::new(ls.len(), |i: int| ls[i]@)
}

/// The token items of one library load statement.
pub open spec fn lib_atoms(l: Seq<char>) -> Seq<(int, Seq<char>, Seq<char>)> {
    seq![
        newline_atom(),
        lit_atom("System.loadLibrary(\""@),
        lit_atom(l),
        lit_atom("\");"@),
    ]
}

pub open spec fn libs_atoms(ls: Seq<Seq<char>>) -> Seq<(int, Seq<char>, Seq<char>)>
    decreases ls.len(),
{
    if ls.len() == 0 {
        Seq::empty()
    } else {
        libs_atoms(ls.drop_last()) + lib_atoms(ls.last())
    }
}

/// The token items of the registry: the atomic identifier counter, the
/// concurrent identifier-to-instance map, both private and static, and the
/// public static release method, a no-op on an absent identifier.
pub open spec fn registry_atoms() -> Seq<(int, Seq<char>, Seq<char>)> {
    seq![
        newline_atom(),
        lit_atom("private static "@),
        import_atom("java.util.concurrent.atomic"@, "AtomicLong"@),
        lit_atom(" globalIndex = new AtomicLong(0);"@),
        newline_atom(),
        lit_atom("private static "@),
        import_atom("java.util.concurrent"@, "ConcurrentHashMap"@),
        lit_atom("<Long, Object> globalCallbacks = new ConcurrentHashMap<>();"@),
        newline_atom(),
        lit_atom("public static void free_callback(long index) {"@),
        indent_atom(),
        newline_atom(),
        lit_atom("globalCallbacks.remove(index);"@),
        unindent_atom(),
        newline_atom(),
        lit_atom("}"@),
    ]
}

/// The token items of one declared facade parameter.
pub open spec fn fparam_atoms(av: (Seq<char>, HostType, ArgConv), pkg: Seq<char>) -> Seq<
    (int, Seq<char>, Seq<char>),
> {
    type_atoms(av.1, pkg, false) + seq![lit_atom(" "@), lit_atom(av.0)]
}

pub open spec fn fparams_atoms(
    avs: Seq<(Seq<char>, HostType, ArgConv)>,
    pkg: Seq<char>,
) -> Seq<(int, Seq<char>, Seq<char>)>
    decreases avs.len(),
{
    if avs.len() == 0 {
        Seq::empty()
    } else if avs.len() == 1 {
        fparam_atoms(avs[0], pkg)
    } else {
        fparams_atoms(avs.drop_last(), pkg) + seq![lit_atom(", "@)] + fparam_atoms(
            avs.last(),
            pkg,
        )
    }
}

/// The token items converting one argument into its `r_`-local before the
/// native call: booleans to an int `1`/`0`, callbacks to a fresh registry
/// identifier, boxed lists to interchange text, everything else passed
/// through.
pub open spec fn conv_atoms_one(av: (Seq<char>, HostType, ArgConv), pkg: Seq<char>) -> Seq<
    (int, Seq<char>, Seq<char>),
> {
    match av.2 {
        ArgConv::Direct => seq![newline_atom()] + type_atoms(av.1, pkg, false) + seq![
            lit_atom(" r_"@),
            lit_atom(av.0),
            lit_atom(" = "@),
            lit_atom(av.0),
            lit_atom(";"@),
        ],
        ArgConv::BoolToInt => seq![
            newline_atom(),
            lit_atom("int r_"@),
            lit_atom(av.0),
            lit_atom(" = "@),
            lit_atom(av.0),
            lit_atom(" ? 1 : 0;"@),
        ],
        ArgConv::RegisterCallback => seq![
            newline_atom(),
            lit_atom("long "@),
            lit_atom(av.0),
            lit_atom("_callback_index = globalIndex.incrementAndGet();"@),
            newline_atom(),
            lit_atom("globalCallbacks.put("@),
            lit_atom(av.0),
            lit_atom("_callback_index, "@),
            lit_atom(av.0),
            lit_atom(");"@),
            newline_atom(),
            lit_atom("long r_"@),
            lit_atom(av.0),
            lit_atom(" = "@),
            lit_atom(av.0),
            lit_atom("_callback_index;"@),
        ],
        ArgConv::EncodeText => seq![
            newline_atom(),
            lit_atom("String r_"@),
            lit_atom(av.0),
            lit_atom(" = "@),
            import_atom("com.alibaba.fastjson"@, "JSON"@),
            lit_atom(".toJSONString("@),
            lit_atom(av.0),
            lit_atom(");"@),
        ],
    }
}

pub open spec fn convs_atoms(
    avs: Seq<(Seq<char>, HostType, ArgConv)>,
    pkg: Seq<char>,
) -> Seq<(int, Seq<char>, Seq<char>)>
    decreases avs.len(),
{
    if avs.len() == 0 {
        Seq::empty()
    } else {
        convs_atoms(avs.drop_last(), pkg) + conv_atoms_one(avs.last(), pkg)
    }
}

/// The token items of one converted local passed to the native call.
pub open spec fn callarg_atoms(name: Seq<char>) -> Seq<(int, Seq<char>, Seq<char>)> {
    seq![lit_atom("r_"@), lit_atom(name)]
}

pub open spec fn callargs_atoms(avs: Seq<(Seq<char>, HostType, ArgConv)>) -> Seq<
    (int, Seq<char>, Seq<char>),
>
    decreases avs.len(),
{
    if avs.len() == 0 {
        Seq::empty()
    } else if avs.len() == 1 {
        callarg_atoms(avs[0].0)
    } else {
        callargs_atoms(avs.drop_last()) + seq![lit_atom(", "@)] + callarg_atoms(avs.last().0)
    }
}

/// The token items of the native call: the entry point is named
/// `"native_" + methodName`, the converted locals are passed in declared
/// order, and the result is captured unless the return type is void.
pub open spec fn call_atoms(
    mname: Seq<char>,
    ret: HostType,
    avs: Seq<(Seq<char>, HostType, ArgConv)>,
    pkg: Seq<char>,
) -> Seq<(int, Seq<char>, Seq<char>)> {
    seq![newline_atom()] + (if ret is Void {
        seq![lit_atom("native_"@)]
    } else {
        type_atoms(ret, pkg, false) + seq![lit_atom(" ret = native_"@)]
    }) + seq![lit_atom(mname), lit_atom("("@)] + callargs_atoms(avs) + seq![lit_atom(");"@)]
}

/// The token items of the return conversion: nothing for void, the
/// captured result unchanged for direct returns, and for a boxed list the
/// decode of the textual result into an array of the declared element
/// type, sized to the decoded length.
pub open spec fn ret_atoms(rc: RetConv, ret: HostType, pkg: Seq<char>) -> Seq<
    (int, Seq<char>, Seq<char>),
> {
    match rc {
        RetConv::Nothing => Seq::empty(),
        RetConv::Direct => seq![newline_atom(), lit_atom("return ret;"@)],
        RetConv::DecodeText => match ret {
            HostType::BoxedArray(elem) => seq![
                newline_atom(),
                import_atom("java.util"@, "List"@),
                lit_atom("<"@),
            ] + type_atoms(*elem, pkg, true) + seq![
                lit_atom("> list = "@),
                import_atom("com.alibaba.fastjson"@, "JSON"@),
                lit_atom(".parseArray(ret, "@),
            ] + type_atoms(*elem, pkg, true) + seq![lit_atom(".class);"@), newline_atom()]
                + type_atoms(*elem, pkg, true) + seq![lit_atom("[] array = new "@)]
                + type_atoms(*elem, pkg, true) + seq![
                lit_atom("[list.size()];"@),
                newline_atom(),
                lit_atom("return list.toArray(array);"@),
            ],
            _ => seq![newline_atom(), lit_atom("return ret;"@)],
        },
    }
}

/// The token items of one facade method.
pub open spec fn fmethod_atoms(
    mv: (Seq<char>, HostType, RetConv, Seq<(Seq<char>, HostType, ArgConv)>),
    pkg: Seq<char>,
) -> Seq<(int, Seq<char>, Seq<char>)> {
    seq![newline_atom(), lit_atom("public static "@)] + type_atoms(mv.1, pkg, false) + seq![
        lit_atom(" "@),
        lit_atom(mv.0),
        lit_atom("("@),
    ] + fparams_atoms(mv.3, pkg) + seq![lit_atom(") {"@), indent_atom()] + convs_atoms(
        mv.3,
        pkg,
    ) + call_atoms(mv.0, mv.1, mv.3, pkg) + ret_atoms(mv.2, mv.1, pkg) + seq![
        unindent_atom(),
        newline_atom(),
        lit_atom("}"@),
    ]
}

pub open spec fn fmethods_atoms(
    mvs: Seq<(Seq<char>, HostType, RetConv, Seq<(Seq<char>, HostType, ArgConv)>)>,
    pkg: Seq<char>,
) -> Seq<(int, Seq<char>, Seq<char>)>
    decreases mvs.len(),
{
    if mvs.len() == 0 {
        Seq::empty()
    } else {
        fmethods_atoms(mvs.drop_last(), pkg) + fmethod_atoms(mvs.last(), pkg)
    }
}

/// The token items of the facade class source unit.
pub open spec fn facade_unit_atoms(
    name: Seq<char>,
    libs: Seq<Seq<char>>,
    mvs: Seq<(Seq<char>, HostType, RetConv, Seq<(Seq<char>, HostType, ArgConv)>)>,
    pkg: Seq<char>,
) -> Seq<(int, Seq<char>, Seq<char>)> {
    seq![
        lit_atom("public class "@),
        lit_atom(name),
        lit_atom(" implements "@),
        import_atom("java.io"@, "Serializable"@),
        lit_atom(" {"@),
        indent_atom(),
        newline_atom(),
        lit_atom("static {"@),
        indent_atom(),
    ] + libs_atoms(libs) + seq![unindent_atom(), newline_atom(), lit_atom("}"@)]
        + registry_atoms() + fmethods_atoms(mvs, pkg) + seq![
        unindent_atom(),
        newline_atom(),
        lit_atom("}"@),
    ]
}

/// Append the library load statements, in declared order.
fn render_lib_loads(t: &mut JavaTokens, libs: &Vec<String>)
    ensures
        toks_items(*final(t)) == toks_items(*old(t)) + libs_atoms(lib_views(libs@)),
{
    let ghost lvs = lib_views(libs@);
    let n = libs.len();
    proof {
        assert(libs_atoms(lvs.subrange(0, 0)) == Seq::<(int, Seq<char>, Seq<char>)>::empty());
        assert(toks_items(*t) =~= toks_items(*old(t)) + libs_atoms(lvs.subrange(0, 0)));
    }
    for i in 0..n
        invariant
            n == libs@.len(),
            lvs == lib_views(libs@),
            lvs.len() == n,
            toks_items(*t) == toks_items(*old(t)) + libs_atoms(lvs.subrange(0, i as int)),
    {
        let ghost before = toks_items(*t);
        toks_push(t);
        toks_lit(t, "System.loadLibrary(\"");
        toks_lit(t, libs[i].as_str());
        toks_lit(t, "\");");
        proof {
            assert(lvs[i as int] == libs@[i as int]@);
            assert(toks_items(*t) =~= before + lib_atoms(lvs[i as int]));
            assert(lvs.subrange(0, i + 1).drop_last() =~= lvs.subrange(0, i as int));
            assert(lvs.subrange(0, i + 1).last() == lvs[i as int]);
            assert(toks_items(*t) =~= toks_items(*old(t)) + libs_atoms(lvs.subrange(0, i + 1)));
        }
    }
    proof {
        assert(lvs.subrange(0, n as int) =~= lvs);
    }
}

/// Append the registry fields and the release method.
fn render_registry(t: &mut JavaTokens)
    ensures
        toks_items(*final(t)) == toks_items(*old(t)) + registry_atoms(),
{
    toks_push(t);
    toks_lit(t, "private static ");
    toks_import(t, "java.util.concurrent.atomic", "AtomicLong");
    toks_lit(t, " globalIndex = new AtomicLong(0);");
    toks_push(t);
    toks_lit(t, "private static ");
    toks_import(t, "java.util.concurrent", "ConcurrentHashMap");
    toks_lit(t, "<Long, Object> globalCallbacks = new ConcurrentHashMap<>();");
    toks_push(t);
    toks_lit(t, "public static void free_callback(long index) {");
    toks_indent(t);
    toks_push(t);
    toks_lit(t, "globalCallbacks.remove(index);");
    toks_unindent(t);
    toks_push(t);
    toks_lit(t, "}");
    proof {
        assert(toks_items(*t) =~= toks_items(*old(t)) + registry_atoms());
    }
}

/// Append the declared facade parameter list, comma-separated.
fn render_fparams(t: &mut JavaTokens, args: &Vec<FacadeArg>, pkg: &str)
    ensures
        toks_items(*final(t)) == toks_items(*old(t)) + fparams_atoms(fa_views(args@), pkg@),
{
    let ghost avs = fa_views(args@);
    let n = args.len();
    proof {
        assert(fparams_atoms(avs.subrange(0, 0), pkg@) == Seq::<(int, Seq<char>, Seq<char>)>::empty());
        assert(toks_items(*t) =~= toks_items(*old(t)) + fparams_atoms(avs.subrange(0, 0), pkg@));
    }
    for i in 0..n
        invariant
            n == args@.len(),
            avs == fa_views(args@),
            avs.len() == n,
            toks_items(*t) == toks_items(*old(t)) + fparams_atoms(avs.subrange(0, i as int), pkg@),
    {
        let ghost before = toks_items(*t);
        if i > 0 {
            toks_lit(t, ", ");
        }
        let a = &args[i];
        render_type(t, &a.host, pkg, false);
        toks_lit(t, " ");
        toks_lit(t, a.name.as_str());
        proof {
            assert(avs[i as int] == (args@[i as int].name@, args@[i as int].host, args@[i as int].conv));
            assert(avs.subrange(0, i + 1).drop_last() =~= avs.subrange(0, i as int));
            assert(avs.subrange(0, i + 1).last() == avs[i as int]);
            if i == 0 {
                assert(avs.subrange(0, 1)[0] == avs[0]);
                assert(fparams_atoms(avs.subrange(0, 1), pkg@) == fparam_atoms(avs[0], pkg@));
                assert(toks_items(*t) =~= before + fparam_atoms(avs[0], pkg@));
            } else {
                assert(toks_items(*t) =~= before + seq![lit_atom(", "@)] + fparam_atoms(
                    avs[i as int],
                    pkg@,
                ));
            }
            assert(toks_items(*t) =~= toks_items(*old(t)) + fparams_atoms(
                avs.subrange(0, i + 1),
                pkg@,
            ));
        }
    }
    proof {
        assert(avs.subrange(0, n as int) =~= avs);
    }
}

/// Append the conversion statements of one argument.
fn render_conv(t: &mut JavaTokens, a: &FacadeArg, pkg: &str)
    ensures
        toks_items(*final(t)) == toks_items(*old(t)) + conv_atoms_one(
            (a.name@, a.host, a.conv),
            pkg@,
        ),
{
    match a.conv {
        ArgConv::Direct => {
            toks_push(t);
            render_type(t, &a.host, pkg, false);
            toks_lit(t, " r_");
            toks_lit(t, a.name.as_str());
            toks_lit(t, " = ");
            toks_lit(t, a.name.as_str());
            toks_lit(t, ";");
        },
        ArgConv::BoolToInt => {
            toks_push(t);
            toks_lit(t, "int r_");
            toks_lit(t, a.name.as_str());
            toks_lit(t, " = ");
            toks_lit(t, a.name.as_str());
            toks_lit(t, " ? 1 : 0;");
        },
        ArgConv::RegisterCallback => {
            toks_push(t);
            toks_lit(t, "long ");
            toks_lit(t, a.name.as_str());
            toks_lit(t, "_callback_index = globalIndex.incrementAndGet();");
            toks_push(t);
            toks_lit(t, "globalCallbacks.put(");
            toks_lit(t, a.name.as_str());
            toks_lit(t, "_callback_index, ");
            toks_lit(t, a.name.as_str());
            toks_lit(t, ");");
            toks_push(t);
            toks_lit(t, "long r_");
            toks_lit(t, a.name.as_str());
            toks_lit(t, " = ");
            toks_lit(t, a.name.as_str());
            toks_lit(t, "_callback_index;");
        },
        ArgConv::EncodeText => {
            toks_push(t);
            toks_lit(t, "String r_");
            toks_lit(t, a.name.as_str());
            toks_lit(t, " = ");
            toks_import(t, "com.alibaba.fastjson", "JSON");
            toks_lit(t, ".toJSONString(");
            toks_lit(t, a.name.as_str());
            toks_lit(t, ");");
        },
    }
    proof {
        assert(toks_items(*t) =~= toks_items(*old(t)) + conv_atoms_one(
            (a.name@, a.host, a.conv),
            pkg@,
        ));
    }
}

/// Append the conversion statements of all arguments, in declared order.
fn render_convs(t: &mut JavaTokens, args: &Vec<FacadeArg>, pkg: &str)
    ensures
        toks_items(*final(t)) == toks_items(*old(t)) + convs_atoms(fa_views(args@), pkg@),
{
    let ghost avs = fa_views(args@);
    let n = args.len();
    proof {
        assert(convs_atoms(avs.subrange(0, 0), pkg@) == Seq::<(int, Seq<char>, Seq<char>)>::empty());
        assert(toks_items(*t) =~= toks_items(*old(t)) + convs_atoms(avs.subrange(0, 0), pkg@));
    }
    for i in 0..n
        invariant
            n == args@.len(),
            avs == fa_views(args@),
            avs.len() == n,
            toks_items(*t) == toks_items(*old(t)) + convs_atoms(avs.subrange(0, i as int), pkg@),
    {
        let ghost before = toks_items(*t);
        render_conv(t, &args[i], pkg);
        proof {
            assert(avs[i as int] == (args@[i as int].name@, args@[i as int].host, args@[i as int].conv));
            assert(avs.subrange(0, i + 1).drop_last() =~= avs.subrange(0, i as int));
            assert(avs.subrange(0, i + 1).last() == avs[i as int]);
            assert(toks_items(*t) =~= toks_items(*old(t)) + convs_atoms(
                avs.subrange(0, i + 1),
                pkg@,
            ));
        }
    }
    proof {
        assert(avs.subrange(0, n as int) =~= avs);
    }
}

/// Append the converted locals of the native call, comma-separated.
fn render_callargs(t: &mut JavaTokens, args: &Vec<FacadeArg>)
    ensures
        toks_items(*final(t)) == toks_items(*old(t)) + callargs_atoms(fa_views(args@)),
{
    let ghost avs = fa_views(args@);
    let n = args.len();
    proof {
        assert(callargs_atoms(avs.subrange(0, 0)) == Seq::<(int, Seq<char>, Seq<char>)>::empty());
        assert(toks_items(*t) =~= toks_items(*old(t)) + callargs_atoms(avs.subrange(0, 0)));
    }
    for i in 0..n
        invariant
            n == args@.len(),
            avs == fa_views(args@),
            avs.len() == n,
            toks_items(*t) == toks_items(*old(t)) + callargs_atoms(avs.subrange(0, i as int)),
    {
        let ghost before = toks_items(*t);
        if i > 0 {
            toks_lit(t, ", ");
        }
        toks_lit(t, "r_");
        toks_lit(t, args[i].name.as_str());
        proof {
            assert(avs[i as int] == (args@[i as int].name@, args@[i as int].host, args@[i as int].conv));
            assert(avs.subrange(0, i + 1).drop_last() =~= avs.subrange(0, i as int));
            assert(avs.subrange(0, i + 1).last() == avs[i as int]);
            if i == 0 {
                assert(avs.subrange(0, 1)[0] == avs[0]);
                assert(callargs_atoms(avs.subrange(0, 1)) == callarg_atoms(avs[0].0));
                assert(toks_items(*t) =~= before + callarg_atoms(avs[0].0));
            } else {
                assert(toks_items(*t) =~= before + seq![lit_atom(", "@)] + callarg_atoms(
                    avs[i as int].0,
                ));
            }
            assert(toks_items(*t) =~= toks_items(*old(t)) + callargs_atoms(
                avs.subrange(0, i + 1),
            ));
        }
    }
    proof {
        assert(avs.subrange(0, n as int) =~= avs);
    }
}

/// Append the return conversion statements.
fn render_ret(t: &mut JavaTokens, rc: RetConv, ret: &HostType, pkg: &str)
    ensures
        toks_items(*final(t)) == toks_items(*old(t)) + ret_atoms(rc, *ret, pkg@),
{
    match rc {
        RetConv::Nothing => {
            proof {
                assert(toks_items(*t) =~= toks_items(*old(t)) + ret_atoms(rc, *ret, pkg@));
            }
        },
        RetConv::Direct => {
            toks_push(t);
            toks_lit(t, "return ret;");
            proof {
                assert(toks_items(*t) =~= toks_items(*old(t)) + ret_atoms(rc, *ret, pkg@));
            }
        },
        RetConv::DecodeText => {
            match ret {
                HostType::BoxedArray(elem) => {
                    toks_push(t);
                    toks_import(t, "java.util", "List");
                    toks_lit(t, "<");
                    render_type(t, &**elem, pkg, true);
                    toks_lit(t, "> list = ");
                    toks_import(t, "com.alibaba.fastjson", "JSON");
                    toks_lit(t, ".parseArray(ret, ");
                    render_type(t, &**elem, pkg, true);
                    toks_lit(t, ".class);");
                    toks_push(t);
                    render_type(t, &**elem, pkg, true);
                    toks_lit(t, "[] array = new ");
                    render_type(t, &**elem, pkg, true);
                    toks_lit(t, "[list.size()];");
                    toks_push(t);
                    toks_lit(t, "return list.toArray(array);");
                    proof {
                        assert(toks_items(*t) =~= toks_items(*old(t)) + ret_atoms(
                            rc,
                            *ret,
                            pkg@,
                        ));
                    }
                },
                _ => {
                    toks_push(t);
                    toks_lit(t, "return ret;");
                    proof {
                        assert(toks_items(*t) =~= toks_items(*old(t)) + ret_atoms(
                            rc,
                            *ret,
                            pkg@,
                        ));
                    }
                },
            }
        },
    }
}

/// Append one facade method.
#[verifier::rlimit(80)]
fn render_fmethod(t: &mut JavaTokens, m: &FacadeMethod, pkg: &str)
    ensures
        toks_items(*final(t)) == toks_items(*old(t)) + fmethod_atoms(
            (m.name@, m.ret, m.ret_conv, fa_views(m.args@)),
            pkg@,
        ),
{
    toks_push(t);
    toks_lit(t, "public static ");
    render_type(t, &m.ret, pkg, false);
    toks_lit(t, " ");
    toks_lit(t, m.name.as_str());
    toks_lit(t, "(");
    render_fparams(t, &m.args, pkg);
    toks_lit(t, ") {");
    toks_indent(t);
    render_convs(t, &m.args, pkg);
    toks_push(t);
    match &m.ret {
        HostType::Void => {
            toks_lit(t, "native_");
        },
        ret => {
            render_type(t, ret, pkg, false);
            toks_lit(t, " ret = native_");
        },
    }
    toks_lit(t, m.name.as_str());
    toks_lit(t, "(");
    render_callargs(t, &m.args);
    toks_lit(t, ");");
    render_ret(t, m.ret_conv, &m.ret, pkg);
    toks_unindent(t);
    toks_push(t);
    toks_lit(t, "}");
    proof {
        assert(toks_items(*t) =~= toks_items(*old(t)) + fmethod_atoms(
            (m.name@, m.ret, m.ret_conv, fa_views(m.args@)),
            pkg@,
        ));
    }
}

/// Build the token stream of the facade class unit.
pub(crate) fn render_facade(m: &FacadeModel, pkg: &str) -> (t: JavaTokens)
    ensures
        toks_items(t) == facade_unit_atoms(m.name@, lib_views(m.libs@), fm_views(m.methods@), pkg@),
{
    let mut t = toks_new();
    toks_lit(&mut t, "public class ");
    toks_lit(&mut t, m.name.as_str());
    toks_lit(&mut t, " implements ");
    toks_import(&mut t, "java.io", "Serializable");
    toks_lit(&mut t, " {");
    toks_indent(&mut t);
    toks_push(&mut t);
    toks_lit(&mut t, "static {");
    toks_indent(&mut t);
    render_lib_loads(&mut t, &m.libs);
    toks_unindent(&mut t);
    toks_push(&mut t);
    toks_lit(&mut t, "}");
    render_registry(&mut t);
    let ghost head = toks_items(t);
    let ghost mvs = fm_views(m.methods@);
    proof {
        assert(fmethods_atoms(mvs.subrange(0, 0), pkg@) == Seq::<(int, Seq<char>, Seq<char>)>::empty());
        assert(toks_items(t) =~= head + fmethods_atoms(mvs.subrange(0, 0), pkg@));
    }
    let n = m.methods.len();
    for i in 0..n
        invariant
            n == m.methods@.len(),
            mvs == fm_views(m.methods@),
            mvs.len() == n,
            toks_items(t) == head + fmethods_atoms(mvs.subrange(0, i as int), pkg@),
    {
        let ghost before = toks_items(t);
        render_fmethod(&mut t, &m.methods[i], pkg);
        proof {
            assert(mvs[i as int] == (
                m.methods@[i as int].name@,
                m.methods@[i as int].ret,
                m.methods@[i as int].ret_conv,
                fa_views(m.methods@[i as int].args@),
            ));
            assert(mvs.subrange(0, i + 1).drop_last() =~= mvs.subrange(0, i as int));
            assert(mvs.subrange(0, i + 1).last() == mvs[i as int]);
            assert(toks_items(t) =~= head + fmethods_atoms(mvs.subrange(0, i + 1), pkg@));
        }
    }
    toks_unindent(&mut t);
    toks_push(&mut t);
    toks_lit(&mut t, "}");
    proof {
        assert(mvs.subrange(0, n as int) =~= mvs);
        assert(toks_items(t) =~= facade_unit_atoms(m.name@, lib_views(m.libs@), mvs, pkg@));
    }
    t
}

/// The facade method views mapped straight from the service descriptor:
/// the non-void arguments in declared order, each with its mapped host
/// type and conversion.
pub open spec fn mapped_facade_views(desc: TraitDesc) -> Seq<
    (Seq<char>, HostType, RetConv, Seq<(Seq<char>, HostType, ArgConv)>),
> {
    Seq::new(
        desc.methods@.len(),
        |i: int|
            (
                desc.methods@[i].name@,
                host_of(desc.methods@[i].return_ty),
                ret_conv_of(desc.methods@[i].return_ty),
                Seq::new(
                    nonvoid_args(desc.methods@[i].args@).len(),
                    |j: int|
                        (
                            nonvoid_args(desc.methods@[i].args@)[j].name@,
                            host_of(nonvoid_args(desc.methods@[i].args@)[j].ty),
                            arg_conv_of(nonvoid_args(desc.methods@[i].args@)[j].ty),
                        ),
                ),
            ),
    )
}

/// Emit the facade class source unit for the exported service trait.
///
/// Succeeds exactly when every exported method is acceptable (see
/// `service_model`); the emitted text is then the rendering of exactly
/// the facade unit's token items, with the library load list
/// primary-first, so equal inputs always yield the identical text.
/// Faults are reported as in `service_model`. No partial source text is
/// ever returned.
pub fn service_source(
    desc: &TraitDesc,
    so_name: &str,
    ext_libs: &str,
    callbacks: &Vec<TraitDesc>,
    pkg: &str,
) -> (r: Result<String, GenError>)
    ensures
        (forall|i: int|
            0 <= i < desc.methods@.len() ==> svc_method_ok(
                #[trigger] desc.methods@[i],
                callbacks@,
            )) ==> (r matches Ok(out) && out@ == rendered_file(
            facade_unit_atoms(
                desc.name@,
                load_libs(so_name@, ext_libs@),
                mapped_facade_views(*desc),
                pkg@,
            ),
            pkg@,
        )),
        (exists|i: int|
            0 <= i < desc.methods@.len() && !svc_method_ok(
                #[trigger] desc.methods@[i],
                callbacks@,
            )) ==> (r matches Err(e) && exists|j: int|
            {
                &&& 0 <= j < desc.methods@.len()
                &&& !svc_method_ok(#[trigger] desc.methods@[j], callbacks@)
                &&& forall|k: int|
                    0 <= k < j ==> svc_method_ok(#[trigger] desc.methods@[k], callbacks@)
                &&& svc_names_first_fault(e, desc.methods@[j], callbacks@)
            }),
{
    match service_model(desc, so_name, ext_libs, callbacks) {
        Ok(m) => {
            let t = render_facade(&m, pkg);
            proof {
                assert(views_match(m.libs@, load_libs(so_name@, ext_libs@)));
                assert(lib_views(m.libs@) =~= load_libs(so_name@, ext_libs@));
                assert forall|i: int| 0 <= i < m.methods@.len() implies fm_views(m.methods@)[i]
                    == mapped_facade_views(*desc)[i] by {
                    assert(facade_method_matches(m.methods@[i], desc.methods@[i]));
                    assert(facade_args_match(
                        m.methods@[i].args@,
                        desc.methods@[i].args@,
                    ));
                    assert(fa_views(m.methods@[i].args@) =~= mapped_facade_views(*desc)[i].3);
                }
                assert(fm_views(m.methods@) =~= mapped_facade_views(*desc));
            }
            match render_java_file(&t, pkg) {
                Some(out) => Ok(out),
                None => Err(GenError::EmissionFault),
            }
        },
        Err(e) => Err(e),
    }
}

} // verus!
