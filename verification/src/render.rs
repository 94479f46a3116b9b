//! Rendering of the two emitted artifacts as source text: the partial type
//! declaration and the merge-capability implementation.
//!
//! Every renderer's contract pins the output text exactly, character for
//! character, as a function of the structured artifact it renders.

use crate::directive::PartialDirective;
use crate::directive::SpecDirective;
use crate::mergegen::MergeOp;
use crate::mergegen::MergeStrategy;
use crate::mergegen::SpecMergeOp;
use crate::shape::PartialField;
use crate::shape::SpecPartialField;
use crate::shape::spec_opt_str_view;
use vstd::prelude::*;
use vstd::string::StringExecFns;

verus! {

/// The visibility marker followed by a space, or nothing when it is empty.
pub open spec fn spec_vis_part(vis: Seq<char>) -> Seq<char> {
    if vis.len() == 0 {
        Seq::empty()
    } else {
        vis + " "@
    }
}

fn vis_part(vis: &str) -> (r: String)
    ensures
        r@ == spec_vis_part(vis@),
{
    if vis.unicode_len() == 0 {
        String::new()
    } else {
        let mut r = String::from_str(vis);
        r.append(" ");
        r
    }
}

/// The where-clause preceded by a space, or nothing when it is empty.
pub open spec fn spec_where_part(wc: Seq<char>) -> Seq<char> {
    if wc.len() == 0 {
        Seq::empty()
    } else {
        " "@ + wc
    }
}

fn where_part(wc: &str) -> (r: String)
    ensures
        r@ == spec_where_part(wc@),
{
    if wc.unicode_len() == 0 {
        String::new()
    } else {
        let mut r = String::from_str(" ");
        r.append(wc);
        r
    }
}

/// A base field's type wrapped in the optional container.
pub open spec fn spec_opt_ty(ty: Seq<char>) -> Seq<char> {
    "::core::option::Option<"@ + ty + ">"@
}

fn opt_ty(ty: &str) -> (r: String)
    ensures
        r@ == spec_opt_ty(ty@),
{
    let mut r = String::from_str("::core::option::Option<");
    r.append(ty);
    r.append(">");
    r
}

/// The field's name followed by a colon, or nothing for an unnamed field.
pub open spec fn spec_name_part(name: Option<Seq<char>>) -> Seq<char> {
    match name {
        Some(n) => n + ": "@,
        None => Seq::empty(),
    }
}

fn name_part(name: &Option<String>) -> (r: String)
    ensures
        r@ == spec_name_part(spec_opt_str_view(*name)),
{
    match name {
        Some(n) => {
            let mut r = String::from_str(n.as_str());
            r.append(": ");
            r
        },
        None => String::new(),
    }
}

/// The first `i` pass-through annotations rendered one per line, each
/// indented by `prefix`.
pub open spec fn spec_meta_lines_upto(ms: Seq<Seq<char>>, prefix: Seq<char>, i: int) -> Seq<char>
    decreases i,
{
    if i <= 0 {
        Seq::empty()
    } else {
        spec_meta_lines_upto(ms, prefix, i - 1) + prefix + "#["@ + ms[i - 1] + "]\n"@
    }
}

/// All pass-through annotations rendered one per line.
pub open spec fn spec_meta_lines(ms: Seq<Seq<char>>, prefix: Seq<char>) -> Seq<char> {
    spec_meta_lines_upto(ms, prefix, ms.len() as int)
}

fn render_meta_lines(metas: &Vec<String>, prefix: &str) -> (r: String)
    ensures
        r@ == spec_meta_lines(metas.deep_view(), prefix@),
{
    let n = metas.len();
    let mut r = String::new();
    let mut i: usize = 0;
    while i < n
        invariant
            n == metas@.len(),
            i <= n,
            r@ == spec_meta_lines_upto(metas.deep_view(), prefix@, i as int),
        decreases n - i,
    {
        r.append(prefix);
        r.append("#[");
        r.append(metas[i].as_str());
        r.append("]\n");
        proof {
            assert(metas.deep_view()[i as int] == metas@[i as int]@);
        }
        i = i + 1;
    }
    r
}

/// One field of the partial type, rendered: its pass-through annotations,
/// then the field itself with its type wrapped in the optional container.
pub open spec fn spec_field_line(f: SpecPartialField) -> Seq<char> {
    spec_meta_lines(f.metas, "    "@) + "    "@ + spec_vis_part(f.vis) + spec_name_part(f.name)
        + spec_opt_ty(f.ty) + ",\n"@
}

fn render_field_line(f: &PartialField) -> (r: String)
    ensures
        r@ == spec_field_line(f@),
{
    let mut r = render_meta_lines(&f.metas, "    ");
    r.append("    ");
    let vp = vis_part(f.vis.as_str());
    r.append(vp.as_str());
    let np = name_part(&f.name);
    r.append(np.as_str());
    let ot = opt_ty(f.ty.as_str());
    r.append(ot.as_str());
    r.append(",\n");
    r
}

/// The first `i` partial fields, rendered in order.
pub open spec fn spec_field_lines_upto(fs: Seq<SpecPartialField>, i: int) -> Seq<char>
    decreases i,
{
    if i <= 0 {
        Seq::empty()
    } else {
        spec_field_lines_upto(fs, i - 1) + spec_field_line(fs[i - 1])
    }
}

/// All partial fields, rendered in order.
pub open spec fn spec_field_lines(fs: Seq<SpecPartialField>) -> Seq<char> {
    spec_field_lines_upto(fs, fs.len() as int)
}

fn render_field_lines(fields: &Vec<PartialField>) -> (r: String)
    ensures
        r@ == spec_field_lines(fields.deep_view()),
{
    let n = fields.len();
    let mut r = String::new();
    let mut i: usize = 0;
    while i < n
        invariant
            n == fields@.len(),
            i <= n,
            r@ == spec_field_lines_upto(fields.deep_view(), i as int),
        decreases n - i,
    {
        let line = render_field_line(&fields[i]);
        r.append(line.as_str());
        proof {
            assert(fields.deep_view()[i as int] == fields@[i as int]@);
        }
        i = i + 1;
    }
    r
}

/// The partial type declaration, rendered: the directive's pass-through
/// annotations, the header (same visibility, generic parameter list and
/// where-constraints as the base type), and one line per field.
pub open spec fn spec_render_partial_decl(
    d: SpecDirective,
    vis: Seq<char>,
    generics: Seq<char>,
    wc: Seq<char>,
    fields: Seq<SpecPartialField>,
) -> Seq<char> {
    spec_meta_lines(d.metas, ""@) + spec_vis_part(vis) + "struct "@ + d.name + generics
        + spec_where_part(wc) + " {\n"@ + spec_field_lines(fields) + "}\n"@
}

/// Renders the partial type declaration, as [`spec_render_partial_decl`]
/// describes it.
pub fn render_partial_decl(
    d: &PartialDirective,
    vis: &str,
    generics: &str,
    wc: &str,
    fields: &Vec<PartialField>,
) -> (r: String)
    ensures
        r@ == spec_render_partial_decl(d@, vis@, generics@, wc@, fields.deep_view()),
{
    let mut r = render_meta_lines(&d.metas, "");
    let vp = vis_part(vis);
    r.append(vp.as_str());
    r.append("struct ");
    r.append(d.name.as_str());
    r.append(generics);
    let wp = where_part(wc);
    r.append(wp.as_str());
    r.append(" {\n");
    let lines = render_field_lines(fields);
    r.append(lines.as_str());
    r.append("}\n");
    r
}

/// The statement a present partial value triggers: an overwrite of the base
/// field, or a delegation to the field type's own in-place merge.
pub open spec fn spec_op_stmt(op: SpecMergeOp) -> Seq<char> {
    match op.strategy {
        MergeStrategy::Overwrite => "            self."@ + op.name + " = "@ + op.name + ";\n"@,
        MergeStrategy::Merge => "            ::mergeme::Merge::merge_in_place(&mut self."@
            + op.name + ", "@ + op.name + ");\n"@,
    }
}

fn render_op_stmt(op: &MergeOp) -> (r: String)
    ensures
        r@ == spec_op_stmt(op@),
{
    match op.strategy {
        MergeStrategy::Overwrite => {
            let mut r = String::from_str("            self.");
            r.append(op.name.as_str());
            r.append(" = ");
            r.append(op.name.as_str());
            r.append(";\n");
            r
        },
        MergeStrategy::Merge => {
            let mut r = String::from_str("            ::mergeme::Merge::merge_in_place(&mut self.");
            r.append(op.name.as_str());
            r.append(", ");
            r.append(op.name.as_str());
            r.append(");\n");
            r
        },
    }
}

/// One conditional field-update operation, rendered: when the partial field
/// carries a present value, bind it and run the strategy's statement; an
/// absent value leaves the base field untouched.
pub open spec fn spec_op_line(op: SpecMergeOp) -> Seq<char> {
    "        if let ::core::option::Option::Some("@ + op.name + ") = other."@ + op.name + " {\n"@
        + spec_op_stmt(op) + "        }\n"@
}

fn render_op_line(op: &MergeOp) -> (r: String)
    ensures
        r@ == spec_op_line(op@),
{
    let mut r = String::from_str("        if let ::core::option::Option::Some(");
    r.append(op.name.as_str());
    r.append(") = other.");
    r.append(op.name.as_str());
    r.append(" {\n");
    let stmt = render_op_stmt(op);
    r.append(stmt.as_str());
    r.append("        }\n");
    r
}

/// The first `i` operations, rendered in field declaration order.
pub open spec fn spec_op_lines_upto(ops: Seq<SpecMergeOp>, i: int) -> Seq<char>
    decreases i,
{
    if i <= 0 {
        Seq::empty()
    } else {
        spec_op_lines_upto(ops, i - 1) + spec_op_line(ops[i - 1])
    }
}

/// All operations, rendered in field declaration order.
pub open spec fn spec_op_lines(ops: Seq<SpecMergeOp>) -> Seq<char> {
    spec_op_lines_upto(ops, ops.len() as int)
}

fn render_op_lines(ops: &Vec<MergeOp>) -> (r: String)
    ensures
        r@ == spec_op_lines(ops.deep_view()),
{
    let n = ops.len();
    let mut r = String::new();
    let mut i: usize = 0;
    while i < n
        invariant
            n == ops@.len(),
            i <= n,
            r@ == spec_op_lines_upto(ops.deep_view(), i as int),
        decreases n - i,
    {
        let line = render_op_line(&ops[i]);
        r.append(line.as_str());
        proof {
            assert(ops.deep_view()[i as int] == ops@[i as int]@);
        }
        i = i + 1;
    }
    r
}

/// The merge-capability implementation, rendered: it implements the merge
/// capability of the base type, parameterized by the partial type, under the
/// base type's own generic signature.
pub open spec fn spec_render_merge_impl(
    ident: Seq<char>,
    generics: Seq<char>,
    ty_generics: Seq<char>,
    wc: Seq<char>,
    pname: Seq<char>,
    ops: Seq<SpecMergeOp>,
) -> Seq<char> {
    "impl"@ + generics + " ::mergeme::Merge<"@ + pname + ty_generics + "> for "@ + ident
        + ty_generics + spec_where_part(wc) + " {\n"@
        + "    fn merge_in_place(&mut self, other: "@ + pname + ty_generics + ") {\n"@
        + spec_op_lines(ops) + "    }\n"@ + "}\n"@
}

/// Renders the merge-capability implementation, as
/// [`spec_render_merge_impl`] describes it.
pub fn render_merge_impl(
    ident: &str,
    generics: &str,
    ty_generics: &str,
    wc: &str,
    pname: &str,
    ops: &Vec<MergeOp>,
) -> (r: String)
    ensures
        r@ == spec_render_merge_impl(ident@, generics@, ty_generics@, wc@, pname@, ops.deep_view()),
{
    let mut r = String::from_str("impl");
    r.append(generics);
    r.append(" ::mergeme::Merge<");
    r.append(pname);
    r.append(ty_generics);
    r.append("> for ");
    r.append(ident);
    r.append(ty_generics);
    let wp = where_part(wc);
    r.append(wp.as_str());
    r.append(" {\n");
    r.append("    fn merge_in_place(&mut self, other: ");
    r.append(pname);
    r.append(ty_generics);
    r.append(") {\n");
    let lines = render_op_lines(ops);
    r.append(lines.as_str());
    r.append("    }\n");
    r.append("}\n");
    r
}

} // verus!
