//! The partial-declaration directive: locating it on the type declaration,
//! enforcing that exactly one exists, and parsing its argument list.
//!
//! The argument list is a top-level-comma-separated token text whose first
//! piece must be a bare identifier (the partial type's name), optionally
//! followed by pass-through annotations copied verbatim onto the generated
//! partial type.

use crate::diag::DiagKind;
use crate::diag::Diagnostic;
use crate::model::AnnArgs;
use crate::model::Annotation;
use crate::model::DeriveInput;
use crate::model::Span;
use crate::scan::check_ident_range;
use crate::scan::collect_metas;
use crate::scan::extract;
use crate::scan::is_ident_range;
use crate::scan::lemma_piece_bounds_wf;
use crate::scan::piece_bounds;
use crate::scan::scan_ok;
use crate::scan::spec_meta_pieces;
use crate::scan::split_top_level;
use crate::scan::str_eq;
use crate::scan::trim_range;
use crate::scan::trimmed;
use crate::utils::DeriveInputWithoutData;
use crate::utils::spec_reduced_span;
use vstd::prelude::*;

verus! {

/// The parsed partial-declaration directive.
#[derive(Debug)]
pub struct PartialDirective {
    /// The identifier to use for the generated partial type.
    pub name: String,
    /// Where the identifier stood.
    pub name_span: Span,
    /// Pass-through annotations for the generated partial type, verbatim and
    /// in order.
    pub metas: Vec<String>,
}

/// The mathematical content of a parsed partial-declaration directive.
pub ghost struct SpecDirective {
    pub name: Seq<char>,
    pub name_span: Span,
    pub metas: Seq<Seq<char>>,
}

impl View for PartialDirective {
    type V = SpecDirective;

    open spec fn view(&self) -> SpecDirective {
        SpecDirective { name: self.name@, name_span: self.name_span, metas: self.metas.deep_view() }
    }
}

/// What parsing a partial directive's argument text yields: the partial
/// type's identifier, its span (at `base`, the text's position), and the
/// pass-through annotations; or the diagnostic for a malformed list.
pub open spec fn spec_parse_partial_args(s: Seq<char>, base: int, attr_span: Span) -> Result<
    SpecDirective,
    Diagnostic,
> {
    if !scan_ok(s) {
        Err(Diagnostic { kind: DiagKind::MalformedPartialArgs, span: attr_span })
    } else {
        let t0 = trimmed(s, piece_bounds(s)[0]);
        if t0.0 >= t0.1 {
            Err(Diagnostic { kind: DiagKind::MalformedPartialArgs, span: attr_span })
        } else if !is_ident_range(s, t0.0, t0.1) {
            Err(
                Diagnostic {
                    kind: DiagKind::MalformedPartialArgs,
                    span: Span { lo: (base + t0.0) as usize, hi: (base + t0.1) as usize },
                },
            )
        } else {
            match spec_meta_pieces(s, 1) {
                Err(_) => Err(Diagnostic { kind: DiagKind::MalformedPartialArgs, span: attr_span }),
                Ok(ms) => Ok(
                    SpecDirective {
                        name: s.subrange(t0.0, t0.1),
                        name_span: Span { lo: (base + t0.0) as usize, hi: (base + t0.1) as usize },
                        metas: ms,
                    },
                ),
            }
        }
    }
}

/// Parses a partial directive's argument text, as
/// [`spec_parse_partial_args`] describes it.
pub fn parse_partial_args(args: &str, args_lo: usize, attr_span: Span) -> (r: Result<
    PartialDirective,
    Diagnostic,
>)
    requires
        args_lo + args@.len() <= usize::MAX,
    ensures
        match spec_parse_partial_args(args@, args_lo as int, attr_span) {
            Ok(d) => r is Ok && r->Ok_0@ == d,
            Err(e) => r is Err && r->Err_0 == e,
        },
{
    let pieces = match split_top_level(args) {
        None => {
            return Err(Diagnostic { kind: DiagKind::MalformedPartialArgs, span: attr_span });
        },
        Some(ps) => ps,
    };
    proof {
        lemma_piece_bounds_wf(args@);
    }
    let (plo, phi) = pieces[0];
    let (tlo, thi) = trim_range(args, plo, phi);
    if tlo >= thi {
        return Err(Diagnostic { kind: DiagKind::MalformedPartialArgs, span: attr_span });
    }
    if !check_ident_range(args, tlo, thi) {
        return Err(
            Diagnostic {
                kind: DiagKind::MalformedPartialArgs,
                span: Span { lo: args_lo + tlo, hi: args_lo + thi },
            },
        );
    }
    let name = extract(args, tlo, thi);
    match collect_metas(args, &pieces, 1) {
        Err(_) => Err(Diagnostic { kind: DiagKind::MalformedPartialArgs, span: attr_span }),
        Ok(metas) => Ok(
            PartialDirective { name, name_span: Span { lo: args_lo + tlo, hi: args_lo + thi }, metas },
        ),
    }
}

/// The view of an optional parsed directive.
pub open spec fn spec_opt_dir_view(o: Option<PartialDirective>) -> Option<SpecDirective> {
    match o {
        Some(p) => Some(p@),
        None => None,
    }
}

/// Walks the declaration's annotations from index `i` on, carrying the
/// directive parsed so far: a second partial directive is redundant, a
/// malformed one is an error, and anything else is passed over.
pub open spec fn spec_partial_scan(
    attrs: Seq<Annotation>,
    i: int,
    found: Option<SpecDirective>,
) -> Result<Option<SpecDirective>, Diagnostic>
    decreases attrs.len() - i,
{
    if i < 0 || i >= attrs.len() {
        Ok(found)
    } else {
        let a = attrs[i];
        if a.path@ == "partial"@ {
            match a.args {
                AnnArgs::List(text) => {
                    if found is Some {
                        Err(Diagnostic { kind: DiagKind::MultiplePartial, span: a.span })
                    } else {
                        match spec_parse_partial_args(text@, a.args_lo as int, a.span) {
                            Ok(d) => spec_partial_scan(attrs, i + 1, Some(d)),
                            Err(e) => Err(e),
                        }
                    }
                },
                _ => Err(Diagnostic { kind: DiagKind::MalformedPartialArgs, span: a.span }),
            }
        } else {
            spec_partial_scan(attrs, i + 1, found)
        }
    }
}

/// What locating and parsing the partial directive on a declaration yields:
/// the directive when exactly one well-formed one exists, the diagnostic
/// otherwise. A missing directive is reported at the declaration's reduced
/// span.
pub open spec fn spec_partial_name_and_meta(input: DeriveInput) -> Result<
    SpecDirective,
    Diagnostic,
> {
    match spec_partial_scan(input.attrs@, 0, None) {
        Ok(Some(d)) => Ok(d),
        Ok(None) => Err(
            Diagnostic { kind: DiagKind::MissingPartial, span: spec_reduced_span(input) },
        ),
        Err(e) => Err(e),
    }
}

/// Locates the partial-declaration directive on the type declaration and
/// parses its arguments, as [`spec_partial_name_and_meta`] describes it.
pub fn partial_name_and_meta(input: &DeriveInput) -> (r: Result<PartialDirective, Diagnostic>)
    requires
        input.wf(),
    ensures
        match spec_partial_name_and_meta(*input) {
            Ok(d) => r is Ok && r->Ok_0@ == d,
            Err(e) => r is Err && r->Err_0 == e,
        },
{
    let n = input.attrs.len();
    let mut found: Option<PartialDirective> = None;
    let mut i: usize = 0;
    while i < n
        invariant
            input.wf(),
            n == input.attrs@.len(),
            i <= n,
            spec_partial_scan(input.attrs@, 0, None) == spec_partial_scan(
                input.attrs@,
                i as int,
                spec_opt_dir_view(found),
            ),
        decreases n - i,
    {
        let a = &input.attrs[i];
        if str_eq(a.path.as_str(), "partial") {
            match &a.args {
                AnnArgs::List(text) => {
                    if found.is_some() {
                        return Err(
                            Diagnostic { kind: DiagKind::MultiplePartial, span: a.span },
                        );
                    }
                    proof {
                        assert(input.attrs@[i as int].wf());
                    }
                    match parse_partial_args(text.as_str(), a.args_lo, a.span) {
                        Ok(d) => {
                            found = Some(d);
                        },
                        Err(e) => {
                            return Err(e);
                        },
                    }
                },
                AnnArgs::Bare => {
                    return Err(
                        Diagnostic { kind: DiagKind::MalformedPartialArgs, span: a.span },
                    );
                },
                AnnArgs::Value(_) => {
                    return Err(
                        Diagnostic { kind: DiagKind::MalformedPartialArgs, span: a.span },
                    );
                },
            }
        }
        i = i + 1;
    }
    match found {
        Some(d) => Ok(d),
        None => Err(
            Diagnostic {
                kind: DiagKind::MissingPartial,
                span: DeriveInputWithoutData(input).reduced_span(),
            },
        ),
    }
}

} // verus!
