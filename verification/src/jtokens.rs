//! Trusted boundary to the genco token and formatting toolkit, which
//! assembles the emitted Java source text.
//!
//! A token stream is modelled as the sequence of items appended to it:
//! literal text, an import reference, a newline, or an indentation change,
//! each encoded as a tagged tuple. Every wrapper appends exactly one item;
//! what the formatter makes of a stream (layout, the package header, the
//! collected import lines) is genco's work and carries the name
//! `rendered_file`.

use vstd::prelude::*;

verus! {

/// A Java token stream. Holds genco's `Tokens<Java>`; opaque here, its
/// content is tracked through `toks_items` alone.
#[verifier::external_body]
pub struct JavaTokens {
    inner: genco::Tokens<genco::lang::java::Java>,
}

/// One appended item: `(0, text, _)` a literal, `(1, package, name)` an
/// import reference, `(2, _, _)` a newline, `(3, _, _)` one step of
/// indent, `(4, _, _)` one step of unindent.
pub open spec fn lit_atom(s: Seq<char>) -> (int, Seq<char>, Seq<char>) {
    (0int, s, Seq::<char>::empty())
}

pub open spec fn import_atom(pkg: Seq<char>, name: Seq<char>) -> (int, Seq<char>, Seq<char>) {
    (1int, pkg, name)
}

pub open spec fn newline_atom() -> (int, Seq<char>, Seq<char>) {
    (2int, Seq::<char>::empty(), Seq::<char>::empty())
}

pub open spec fn indent_atom() -> (int, Seq<char>, Seq<char>) {
    (3int, Seq::<char>::empty(), Seq::<char>::empty())
}

pub open spec fn unindent_atom() -> (int, Seq<char>, Seq<char>) {
    (4int, Seq::<char>::empty(), Seq::<char>::empty())
}

/// The items appended to a Java token stream, in order.
pub uninterp spec fn toks_items(t: JavaTokens) -> Seq<(int, Seq<char>, Seq<char>)>;

/// What genco's file formatting makes of a token stream under a package
/// configuration: the package declaration, the collected imports, and the
/// laid-out tokens. A function of the stream's items and the package.
pub uninterp spec fn rendered_file(
    items: Seq<(int, Seq<char>, Seq<char>)>,
    pkg: Seq<char>,
) -> Seq<char>;

/// Relies on genco's `Tokens::new`: a fresh stream holds no items.
#[verifier::external_body]
pub(crate) fn toks_new() -> (r: JavaTokens)
    ensures
        toks_items(r) == Seq::<(int, Seq<char>, Seq<char>)>::empty(),
{
    JavaTokens { inner: genco::Tokens::new() }
}

/// Relies on genco's `Tokens::append` for strings: appends one literal
/// item, rendered verbatim.
#[verifier::external_body]
pub(crate) fn toks_lit(t: &mut JavaTokens, s: &str)
    ensures
        toks_items(*final(t)) == toks_items(*old(t)).push(lit_atom(s@)),
{
    t.inner.append(s.to_owned());
}

/// Relies on genco's `java::import` and `Tokens::append`: appends one
/// import item; formatting renders the type's short name and collects the
/// matching import line.
#[verifier::external_body]
pub(crate) fn toks_import(
    t: &mut JavaTokens,
    pkg: &str,
    name: &str,
)
    ensures
        toks_items(*final(t)) == toks_items(*old(t)).push(import_atom(pkg@, name@)),
{
    t.inner.append(genco::lang::java::import(pkg.to_owned(), name.to_owned()));
}

/// Relies on genco's `Tokens::push`: appends one newline item.
#[verifier::external_body]
pub(crate) fn toks_push(t: &mut JavaTokens)
    ensures
        toks_items(*final(t)) == toks_items(*old(t)).push(newline_atom()),
{
    t.inner.push();
}

/// Relies on genco's `Tokens::indent`: appends one indent item.
#[verifier::external_body]
pub(crate) fn toks_indent(t: &mut JavaTokens)
    ensures
        toks_items(*final(t)) == toks_items(*old(t)).push(indent_atom()),
{
    t.inner.indent();
}

/// Relies on genco's `Tokens::unindent`: appends one unindent item.
#[verifier::external_body]
pub(crate) fn toks_unindent(t: &mut JavaTokens)
    ensures
        toks_items(*final(t)) == toks_items(*old(t)).push(unindent_atom()),
{
    t.inner.unindent();
}

/// Relies on genco's `Tokens::format_file` with a Java package
/// configuration: lays the stream out as one Java source file. Formatting
/// a stream of this type always succeeds: the formatter fails only on a
/// writer error or on quote/eval items in illegal positions, the
/// `String`-backed writer never errors, and no constructor of
/// `JavaTokens` appends a quote or eval item.
#[verifier::external_body]
pub(crate) fn render_java_file(
    t: &JavaTokens,
    pkg: &str,
) -> (r: Option<String>)
    ensures
        r is Some,
        r matches Some(out) ==> out@ == rendered_file(toks_items(*t), pkg@),
{
    let mut w = genco::fmt::FmtWriter::new(String::new());
    let fmt = genco::fmt::Config::from_lang::<genco::lang::java::Java>();
    let config = genco::lang::java::Config::default().with_package(pkg.to_owned());
    let ok = {
        let mut formatter = w.as_formatter(&fmt);
        t.inner.format_file(&mut formatter, &config).is_ok()
    };
    if ok {
        Some(w.into_inner())
    } else {
        None
    }
}

} // verus!
