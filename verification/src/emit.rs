//! Helpers shared by the declaration emitters: the export keyword, generic
//! parameter lists, and the per-declaration case convention.

use vstd::prelude::*;
use crate::attrs::{get_attribute_arg, spec_get_attribute_arg};
use crate::casing::{parse_serde_case, spec_parse_serde_case, CaseConvention};
use crate::model::Attr;
use crate::output::BuildState;
use crate::typescript::join_texts;

verus! {

/// The keyword that opens a module-mode declaration; ambient declaration
/// files take none.
pub open spec fn export_kw(uses_type_interface: bool) -> Seq<char> {
    if uses_type_interface {
        Seq::empty()
    } else {
        "export "@
    }
}

/// Appends the export keyword when the output is a module file.
pub fn append_export(state: &mut BuildState, uses_type_interface: bool)
    ensures
        final(state).types@ == old(state).types@ + export_kw(uses_type_interface),
        final(state).unprocessed_files == old(state).unprocessed_files,
{
    if !uses_type_interface {
        state.types.append("export ");
    }
}

/// A generic parameter list: empty, or the names in angle brackets.
pub open spec fn spec_format_generics(gens: Seq<Seq<char>>) -> Seq<char> {
    if gens.len() == 0 {
        Seq::empty()
    } else {
        "<"@ + join_texts(gens, ", "@) + ">"@
    }
}

/// Renders a generic parameter list.
pub fn format_generics(generics: &Vec<String>) -> (r: String)
    ensures
        r@ == spec_format_generics(generics.deep_view()),
{
    let n = generics.len();
    let mut out = String::new();
    if n == 0 {
        return out;
    }
    out.append("<");
    let mut i: usize = 0;
    proof {
        assert(generics.deep_view().take(0) =~= Seq::<Seq<char>>::empty());
        assert(out@ =~= "<"@ + join_texts(generics.deep_view().take(0), ", "@));
    }
    while i < n
        invariant
            0 <= i <= n,
            n == generics@.len(),
            n > 0,
            generics.deep_view().len() == n,
            out@ == "<"@ + join_texts(generics.deep_view().take(i as int), ", "@),
        decreases n - i,
    {
        if i > 0 {
            out.append(", ");
        }
        out.append(generics[i].as_str());
        proof {
            let dv = generics.deep_view();
            assert(dv[i as int] == generics@[i as int]@);
            assert(dv.take(i + 1).drop_last() =~= dv.take(i as int));
            assert(dv.take(i + 1).last() == dv[i as int]);
            if i == 0 {
                assert(out@ =~= "<"@ + join_texts(dv.take(1), ", "@));
            } else {
                assert(out@ =~= "<"@ + join_texts(dv.take(i + 1), ", "@));
            }
        }
        i = i + 1;
    }
    out.append(">");
    proof {
        assert(generics.deep_view().take(n as int) =~= generics.deep_view());
        assert(out@ =~= spec_format_generics(generics.deep_view()));
    }
    out
}

/// The case convention a declaration asks for through its rename-rule
/// attribute, when one is present and recognized.
pub open spec fn decl_case(attrs: Seq<Attr>) -> Option<CaseConvention> {
    spec_parse_serde_case(spec_get_attribute_arg(attrs, "serde"@, "rename_all"@))
}

/// Resolves the declaration's case convention from its attributes.
pub fn resolve_decl_case(attrs: &Vec<Attr>) -> (r: Option<CaseConvention>)
    ensures
        r == decl_case(attrs@),
{
    let v = get_attribute_arg("serde", "rename_all", attrs);
    parse_serde_case(&v)
}

} // verus!
