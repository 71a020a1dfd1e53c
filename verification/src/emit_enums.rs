//! The enum emitter.  One of five representations is selected, once per
//! declaration: untagged, internally tagged (with an optional content
//! field), numeric, a union of string constants, or externally tagged.

use vstd::prelude::*;
use crate::attrs::{
    get_attribute_arg, get_comments, has_attribute_arg, spec_get_attribute_arg, spec_get_comments,
};
use crate::casing::{apply_case, convert_to_case, CaseConvention};
use crate::emit::{
    append_export, decl_case, export_kw, format_generics, resolve_decl_case, spec_format_generics,
};
use crate::model::{
    BuildSettings, EnumDecl, EnumVariant, FieldList, GenericArg, PathArgs, TypeExpr,
};
use crate::numbers::{dec_int, i32_to_string, parse_i32, spec_parse_i32};
use crate::emit_structs::{
    fields_block, named_fields, process_fields, process_tuple_fields, tuple_body, unnamed_fields,
};
use crate::output::{comments_block, BuildState};
use crate::strings::{spaces, spec_unraw, str_eq, unraw};
use crate::to_typescript::ToTypescript;
use crate::typescript::{convert_type, map_type};

verus! {

// ---------------------------------------------------------------------
// Which generics a variant actually uses
// ---------------------------------------------------------------------

/// True iff the type expression mentions the identifier anywhere.
pub open spec fn ty_mentions(t: TypeExpr, id: Seq<char>) -> bool
    decreases t, 1int,
{
    match t {
        TypeExpr::Path { ident, args } => ident@ == id || path_args_mention(args, id),
        TypeExpr::Tuple { elems } => tys_mention(elems@, id),
        TypeExpr::Ref { inner } => ty_mentions(*inner, id),
        TypeExpr::Opaque => false,
    }
}

/// True iff any angle-bracketed argument mentions the identifier.
pub open spec fn path_args_mention(args: PathArgs, id: Seq<char>) -> bool
    decreases args, 0int,
{
    match args {
        PathArgs::Angle { args } => gen_args_mention(args@, id),
        _ => false,
    }
}

/// True iff any of the generic arguments mentions the identifier.
pub open spec fn gen_args_mention(gs: Seq<GenericArg>, id: Seq<char>) -> bool
    decreases gs, 1int,
{
    if gs.len() == 0 {
        false
    } else {
        gen_args_mention(gs.drop_last(), id) || (match gs.last() {
            GenericArg::Ty { ty } => ty_mentions(ty, id),
            GenericArg::NotType => false,
        })
    }
}

/// True iff any of the type expressions mentions the identifier.
pub open spec fn tys_mention(ts: Seq<TypeExpr>, id: Seq<char>) -> bool
    decreases ts, 1int,
{
    if ts.len() == 0 {
        false
    } else {
        tys_mention(ts.drop_last(), id) || ty_mentions(ts.last(), id)
    }
}

#[verifier::loop_isolation(false)]
fn exec_ty_mentions(t: &TypeExpr, id: &str) -> (r: bool)
    ensures
        r == ty_mentions(*t, id@),
    decreases *t, 1int,
{
    match t {
        TypeExpr::Path { ident, args: pargs } => {
            if str_eq(ident.as_str(), id) {
                proof {
                    assert(ty_mentions(*t, id@));
                }
                true
            } else {
                match pargs {
                    PathArgs::Angle { args } => {
                        let n = args.len();
                        let mut i: usize = 0;
                        let mut found = false;
                        proof {
                            assert(args@.take(0) =~= Seq::<GenericArg>::empty());
                        }
                        while i < n
                            invariant
                                0 <= i <= n,
                                n == args@.len(),
                                found == gen_args_mention(args@.take(i as int), id@),
                            decreases n - i,
                        {
                            let here = match &args[i] {
                                GenericArg::Ty { ty } => exec_ty_mentions(ty, id),
                                GenericArg::NotType => false,
                            };
                            found = found || here;
                            proof {
                                assert(args@.take(i + 1).drop_last() =~= args@.take(i as int));
                                assert(args@.take(i + 1).last() == args@[i as int]);
                            }
                            i = i + 1;
                        }
                        proof {
                            assert(args@.take(n as int) =~= args@);
                            assert(*pargs == (PathArgs::Angle { args: *args }));
                            assert(path_args_mention(*pargs, id@) == gen_args_mention(args@, id@));
                            assert(*t == (TypeExpr::Path { ident: *ident, args: *pargs }));
                            assert(ty_mentions(*t, id@) == gen_args_mention(args@, id@));
                        }
                        found
                    },
                    _ => {
                        proof {
                            assert(*t == (TypeExpr::Path { ident: *ident, args: *pargs }));
                            assert(!path_args_mention(*pargs, id@));
                            assert(!ty_mentions(*t, id@));
                        }
                        false
                    },
                }
            }
        },
        TypeExpr::Tuple { elems } => {
            let n = elems.len();
            let mut i: usize = 0;
            let mut found = false;
            proof {
                assert(elems@.take(0) =~= Seq::<TypeExpr>::empty());
            }
            while i < n
                invariant
                    0 <= i <= n,
                    n == elems@.len(),
                    found == tys_mention(elems@.take(i as int), id@),
                decreases n - i,
            {
                let here = exec_ty_mentions(&elems[i], id);
                found = found || here;
                proof {
                    assert(elems@.take(i + 1).drop_last() =~= elems@.take(i as int));
                    assert(elems@.take(i + 1).last() == elems@[i as int]);
                }
                i = i + 1;
            }
            proof {
                assert(elems@.take(n as int) =~= elems@);
                assert(ty_mentions(*t, id@) == tys_mention(elems@, id@));
            }
            found
        },
        TypeExpr::Ref { inner } => {
            let r = exec_ty_mentions(inner, id);
            proof {
                assert(ty_mentions(*t, id@) == ty_mentions(**inner, id@));
            }
            r
        },
        TypeExpr::Opaque => false,
    }
}

/// The field types of a variant, in order.
pub open spec fn variant_tys(v: EnumVariant) -> Seq<TypeExpr> {
    match v.fields {
        FieldList::Named { fields } => fields@.map_values(
            |f: crate::model::NamedField| f.ty,
        ),
        FieldList::Unnamed { fields } => fields@.map_values(
            |f: crate::model::TupleField| f.ty,
        ),
        FieldList::Unit => Seq::empty(),
    }
}

/// True iff some field type of the variant mentions the identifier.
pub open spec fn variant_mentions(v: EnumVariant, id: Seq<char>) -> bool {
    exists|i: int| 0 <= i < variant_tys(v).len() && ty_mentions(#[trigger] variant_tys(v)[i], id)
}

fn exec_variant_mentions(v: &EnumVariant, id: &str) -> (r: bool)
    ensures
        r == variant_mentions(*v, id@),
{
    match &v.fields {
        FieldList::Named { fields } => {
            let n = fields.len();
            let mut i: usize = 0;
            while i < n
                invariant
                    0 <= i <= n,
                    n == fields@.len(),
                    v.fields == (FieldList::Named { fields: *fields }),
                    forall|j: int| 0 <= j < i ==> !ty_mentions(#[trigger] variant_tys(*v)[j], id@),
                decreases n - i,
            {
                proof {
                    assert(variant_tys(*v)[i as int] == fields@[i as int].ty);
                }
                if exec_ty_mentions(&fields[i].ty, id) {
                    return true;
                }
                i = i + 1;
            }
            false
        },
        FieldList::Unnamed { fields } => {
            let n = fields.len();
            let mut i: usize = 0;
            while i < n
                invariant
                    0 <= i <= n,
                    n == fields@.len(),
                    v.fields == (FieldList::Unnamed { fields: *fields }),
                    forall|j: int| 0 <= j < i ==> !ty_mentions(#[trigger] variant_tys(*v)[j], id@),
                decreases n - i,
            {
                proof {
                    assert(variant_tys(*v)[i as int] == fields@[i as int].ty);
                }
                if exec_ty_mentions(&fields[i].ty, id) {
                    return true;
                }
                i = i + 1;
            }
            false
        },
        FieldList::Unit => false,
    }
}

/// The declaration's generic parameters that the variant actually uses,
/// in declaration order.
pub open spec fn variant_generics(gens: Seq<Seq<char>>, v: EnumVariant) -> Seq<Seq<char>>
    decreases gens.len(),
{
    if gens.len() == 0 {
        Seq::empty()
    } else {
        variant_generics(gens.drop_last(), v) + (if variant_mentions(v, gens.last()) {
            seq![gens.last()]
        } else {
            Seq::<Seq<char>>::empty()
        })
    }
}

fn exec_variant_generics(generics: &Vec<String>, v: &EnumVariant) -> (r: Vec<String>)
    ensures
        r.deep_view() == variant_generics(generics.deep_view(), *v),
{
    let n = generics.len();
    let mut out: Vec<String> = Vec::new();
    proof {
        assert(generics.deep_view().take(0) =~= Seq::<Seq<char>>::empty());
        assert(out.deep_view() =~~= variant_generics(generics.deep_view().take(0), *v));
    }
    let mut i: usize = 0;
    while i < n
        invariant
            0 <= i <= n,
            n == generics@.len(),
            generics.deep_view().len() == n,
            out.deep_view() == variant_generics(generics.deep_view().take(i as int), *v),
        decreases n - i,
    {
        proof {
            assert(generics.deep_view()[i as int] == generics@[i as int]@);
        }
        if exec_variant_mentions(v, generics[i].as_str()) {
            let ghost dv0 = out.deep_view();
            let ghost v0 = out@;
            let copy = generics[i].clone();
            out.push(copy);
            proof {
                assert(forall|k: int| 0 <= k < v0.len() ==> out@[k] == #[trigger] v0[k]);
                assert(out.deep_view() =~~= dv0.push(out@.last()@));
            }
        }
        proof {
            let dv = generics.deep_view();
            assert(dv.take(i + 1).drop_last() =~= dv.take(i as int));
            assert(dv.take(i + 1).last() == dv[i as int]);
            assert(out.deep_view() =~~= variant_generics(dv.take(i + 1), *v));
        }
        i = i + 1;
    }
    proof {
        assert(generics.deep_view().take(n as int) =~= generics.deep_view());
    }
    out
}

// ---------------------------------------------------------------------
// Representation selection
// ---------------------------------------------------------------------

/// The five enum representations.
pub enum EnumRepr {
    Untagged,
    Internal { tag: Seq<char>, content: Option<Seq<char>> },
    Numeric,
    UnitUnion,
    External,
}

/// True iff no variant has any field.
pub open spec fn all_variants_unit(vs: Seq<EnumVariant>) -> bool {
    forall|i: int| 0 <= i < vs.len() ==> (#[trigger] vs[i]).fields.spec_is_empty()
}

/// The representation an enum declaration selects, decided once and never
/// revisited: the untagged flag wins over a tag; a tag wins over the
/// all-unit forms; an all-unit enum is numeric only under the numeric
/// derive marker; everything else is externally tagged.
pub open spec fn select_repr(d: EnumDecl) -> EnumRepr {
    if spec_get_attribute_arg(d.attrs@, "serde"@, "untagged"@) is Some {
        EnumRepr::Untagged
    } else if spec_get_attribute_arg(d.attrs@, "serde"@, "tag"@) is Some {
        EnumRepr::Internal {
            tag: spec_get_attribute_arg(d.attrs@, "serde"@, "tag"@)->Some_0,
            content: spec_get_attribute_arg(d.attrs@, "serde"@, "content"@),
        }
    } else if all_variants_unit(d.variants@) {
        if spec_get_attribute_arg(d.attrs@, "derive"@, "Serialize_repr"@) is Some {
            EnumRepr::Numeric
        } else {
            EnumRepr::UnitUnion
        }
    } else {
        EnumRepr::External
    }
}

// ---------------------------------------------------------------------
// All-unit enums: a union of string constants
// ---------------------------------------------------------------------

/// The arms of a union of string constants, one per variant.
pub open spec fn unit_union_arms(vs: Seq<EnumVariant>, case: Option<CaseConvention>) -> Seq<char>
    decreases vs.len(),
{
    if vs.len() == 0 {
        Seq::empty()
    } else {
        unit_union_arms(vs.drop_last(), case) + " | \""@ + apply_case(
            case,
            spec_unraw(vs.last().name@),
        ) + "\""@
    }
}

/// An all-unit enum as a union of string constants; explicit discriminants
/// are ignored here.
pub open spec fn unit_union_text(d: EnumDecl, s: BuildSettings) -> Seq<char> {
    export_kw(s.uses_type_interface) + "type "@ + d.name@ + " =\n"@ + spaces(1) + unit_union_arms(
        d.variants@,
        decl_case(d.attrs@),
    ) + ";\n"@
}

fn add_enum(d: &EnumDecl, state: &mut BuildState, case: &Option<CaseConvention>, settings: &BuildSettings)
    requires
        *case == decl_case(d.attrs@),
    ensures
        final(state).types@ == old(state).types@ + unit_union_text(*d, *settings),
        final(state).unprocessed_files == old(state).unprocessed_files,
{
    append_export(state, settings.uses_type_interface);
    state.types.append("type ");
    state.types.append(d.name.as_str());
    state.types.append(" =\n");
    let one_space = crate::strings::build_indentation(1);
    state.types.append(one_space.as_str());
    let ghost base = state.types@;
    proof {
        assert(base =~= old(state).types@ + export_kw(settings.uses_type_interface) + "type "@
            + d.name@ + " =\n"@ + spaces(1));
        assert(d.variants@.take(0) =~= Seq::<EnumVariant>::empty());
    }
    let n = d.variants.len();
    let mut i: usize = 0;
    while i < n
        invariant
            0 <= i <= n,
            n == d.variants@.len(),
            *case == decl_case(d.attrs@),
            state.types@ == base + unit_union_arms(d.variants@.take(i as int), *case),
            state.unprocessed_files == old(state).unprocessed_files,
        decreases n - i,
    {
        let v = &d.variants[i];
        let unrawed = unraw(v.name.as_str());
        let cased = convert_to_case(unrawed.as_str(), case);
        state.types.append(" | \"");
        state.types.append(cased.as_str());
        state.types.append("\"");
        proof {
            assert(d.variants@.take(i + 1).drop_last() =~= d.variants@.take(i as int));
            assert(d.variants@.take(i + 1).last() == d.variants@[i as int]);
            assert(state.types@ =~= base + unit_union_arms(d.variants@.take(i + 1), *case));
        }
        i = i + 1;
    }
    state.types.append(";\n");
    proof {
        assert(d.variants@.take(n as int) =~= d.variants@);
        assert(state.types@ =~= old(state).types@ + unit_union_text(*d, *settings));
    }
}

// ---------------------------------------------------------------------
// Numeric enums
// ---------------------------------------------------------------------

/// The running counter's next value; it wraps as a 32-bit integer does.
pub open spec fn wrap_inc(n: int) -> int {
    if n == 0x7fff_ffff {
        -0x8000_0000
    } else {
        n + 1
    }
}

/// The value a variant takes: its own parsable discriminant resets the
/// counter, anything else keeps it.
pub open spec fn variant_value(v: EnumVariant, num: int) -> int {
    match v.discriminant {
        Some(tok) => match spec_parse_i32(tok@) {
            Some(value) => value,
            None => num,
        },
        None => num,
    }
}

/// The member lines of a numeric enum, threading the running counter.
pub open spec fn numeric_arms(
    vs: Seq<EnumVariant>,
    case: Option<CaseConvention>,
    num: int,
) -> Seq<char>
    decreases vs.len(),
{
    if vs.len() == 0 {
        Seq::empty()
    } else {
        "\n  "@ + apply_case(case, spec_unraw(vs.first().name@)) + " = "@ + dec_int(
            variant_value(vs.first(), num),
        ) + ","@ + numeric_arms(vs.drop_first(), case, wrap_inc(variant_value(vs.first(), num)))
    }
}

/// A numeric enum: values follow the source discriminants, counting up
/// from zero and resetting at each explicit literal.
pub open spec fn numeric_text(d: EnumDecl, s: BuildSettings) -> Seq<char> {
    (if s.uses_type_interface {
        "declare "@
    } else {
        "export "@
    }) + (if s.enable_const_enums {
        "const "@
    } else {
        Seq::<char>::empty()
    }) + "enum "@ + d.name@ + " {"@ + numeric_arms(d.variants@, decl_case(d.attrs@), 0) + "\n}\n"@
}

fn add_numeric_enum(
    d: &EnumDecl,
    state: &mut BuildState,
    case: &Option<CaseConvention>,
    settings: &BuildSettings,
)
    requires
        *case == decl_case(d.attrs@),
    ensures
        final(state).types@ == old(state).types@ + numeric_text(*d, *settings),
        final(state).unprocessed_files == old(state).unprocessed_files,
{
    if settings.uses_type_interface {
        state.types.append("declare ");
    } else {
        state.types.append("export ");
    }
    if settings.enable_const_enums {
        state.types.append("const ");
    }
    state.types.append("enum ");
    state.types.append(d.name.as_str());
    state.types.append(" {");
    let ghost base = state.types@;
    proof {
        assert(d.variants@.skip(0) =~= d.variants@);
    }
    let n = d.variants.len();
    let mut num: i32 = 0;
    let mut i: usize = 0;
    while i < n
        invariant
            0 <= i <= n,
            n == d.variants@.len(),
            *case == decl_case(d.attrs@),
            state.types@ + numeric_arms(d.variants@.skip(i as int), *case, num as int) == base
                + numeric_arms(d.variants@, *case, 0),
            state.unprocessed_files == old(state).unprocessed_files,
        decreases n - i,
    {
        let ghost rest = d.variants@.skip(i as int);
        let ghost num0 = num as int;
        let v = &d.variants[i];
        proof {
            assert(rest.first() == d.variants@[i as int]);
            assert(rest.drop_first() =~= d.variants@.skip(i + 1));
        }
        match &v.discriminant {
            Some(tok) => {
                match parse_i32(tok.as_str()) {
                    Some(value) => {
                        num = value;
                    },
                    None => {},
                }
            },
            None => {},
        }
        proof {
            assert(num as int == variant_value(rest.first(), num0));
        }
        let unrawed = unraw(v.name.as_str());
        let cased = convert_to_case(unrawed.as_str(), case);
        let rendered = i32_to_string(num);
        let ghost before = state.types@;
        state.types.append("\n  ");
        state.types.append(cased.as_str());
        state.types.append(" = ");
        state.types.append(rendered.as_str());
        state.types.append(",");
        proof {
            let arm = "\n  "@ + apply_case(*case, spec_unraw(rest.first().name@)) + " = "@
                + dec_int(num as int) + ","@;
            assert(state.types@ =~= before + arm);
            assert(numeric_arms(rest, *case, num0) == arm + numeric_arms(
                d.variants@.skip(i + 1),
                *case,
                wrap_inc(num as int),
            ));
            assert(state.types@ + numeric_arms(d.variants@.skip(i + 1), *case, wrap_inc(num as int))
                =~= before + numeric_arms(rest, *case, num0));
        }
        num = if num == i32::MAX {
            i32::MIN
        } else {
            num + 1
        };
        i = i + 1;
    }
    proof {
        assert(d.variants@.skip(n as int) =~= Seq::<EnumVariant>::empty());
        assert(state.types@ + numeric_arms(d.variants@.skip(n as int), *case, num as int)
            =~= state.types@);
    }
    state.types.append("\n}\n");
    proof {
        assert(state.types@ =~= old(state).types@ + numeric_text(*d, *settings));
    }
}

// ---------------------------------------------------------------------
// Untagged enums
// ---------------------------------------------------------------------

/// One arm of an untagged union: a positional variant renders its tuple
/// body, a named or unit variant an inline object literal.
pub open spec fn untagged_arm(v: EnumVariant, case: Option<CaseConvention>) -> Seq<char> {
    "\n"@ + comments_block(spec_get_comments(v.attrs@), 2) + (match v.fields {
        FieldList::Unnamed { fields } => "  | "@ + tuple_body(fields@),
        _ => "  | {\n"@ + fields_block(named_fields(v.fields), 6, case, true) + spaces(4) + "}"@,
    })
}

/// The arms of an untagged union, in variant order.
pub open spec fn untagged_arms(vs: Seq<EnumVariant>, case: Option<CaseConvention>) -> Seq<char>
    decreases vs.len(),
{
    if vs.len() == 0 {
        Seq::empty()
    } else {
        untagged_arms(vs.drop_last(), case) + untagged_arm(vs.last(), case)
    }
}

/// An untagged enum: a union with no discriminant anywhere.
pub open spec fn untagged_text(d: EnumDecl, s: BuildSettings) -> Seq<char> {
    export_kw(s.uses_type_interface) + "type "@ + d.name@ + spec_format_generics(
        d.generics.deep_view(),
    ) + " ="@ + untagged_arms(d.variants@, decl_case(d.attrs@)) + ";\n"@
}

#[verifier::rlimit(100)]
fn emit_untagged_arm(v: &EnumVariant, state: &mut BuildState, case: &Option<CaseConvention>)
    ensures
        final(state).types@ == old(state).types@ + untagged_arm(*v, *case),
        final(state).unprocessed_files == old(state).unprocessed_files,
{
    state.types.append("\n");
    let comments = get_comments(&v.attrs);
    state.write_comments(&comments, 2);
    let ghost mid = state.types@;
    match &v.fields {
        FieldList::Unnamed { fields } => {
            state.types.append("  | ");
            process_tuple_fields(fields, state);
            proof {
                assert(state.types@ =~= mid + "  | "@ + tuple_body(fields@));
                assert(state.types@ =~= old(state).types@ + untagged_arm(*v, *case));
            }
        },
        _ => {
            state.types.append("  | {\n");
            let empty_fields: Vec<crate::model::NamedField> = Vec::new();
            match &v.fields {
                FieldList::Named { fields } => {
                    process_fields(fields, state, 6, case, true);
                    proof {
                        assert(named_fields(v.fields) == fields@);
                    }
                },
                _ => {
                    process_fields(&empty_fields, state, 6, case, true);
                    proof {
                        assert(empty_fields@ =~= Seq::<crate::model::NamedField>::empty());
                        assert(named_fields(v.fields) =~= empty_fields@);
                    }
                },
            }
            let ind4 = crate::strings::build_indentation(4);
            state.types.append(ind4.as_str());
            state.types.append("}");
            proof {
                assert(state.types@ =~= mid + "  | {\n"@ + fields_block(
                    named_fields(v.fields),
                    6,
                    *case,
                    true,
                ) + spaces(4) + "}"@);
                assert(state.types@ =~= old(state).types@ + untagged_arm(*v, *case));
            }
        },
    }
}

fn add_untagged_enum(
    d: &EnumDecl,
    state: &mut BuildState,
    case: &Option<CaseConvention>,
    settings: &BuildSettings,
)
    requires
        *case == decl_case(d.attrs@),
    ensures
        final(state).types@ == old(state).types@ + untagged_text(*d, *settings),
        final(state).unprocessed_files == old(state).unprocessed_files,
{
    append_export(state, settings.uses_type_interface);
    state.types.append("type ");
    state.types.append(d.name.as_str());
    let generics = format_generics(&d.generics);
    state.types.append(generics.as_str());
    state.types.append(" =");
    let ghost base = state.types@;
    proof {
        assert(d.variants@.take(0) =~= Seq::<EnumVariant>::empty());
    }
    let n = d.variants.len();
    let mut i: usize = 0;
    while i < n
        invariant
            0 <= i <= n,
            n == d.variants@.len(),
            state.types@ == base + untagged_arms(d.variants@.take(i as int), *case),
            state.unprocessed_files == old(state).unprocessed_files,
        decreases n - i,
    {
        emit_untagged_arm(&d.variants[i], state, case);
        proof {
            assert(d.variants@.take(i + 1).drop_last() =~= d.variants@.take(i as int));
            assert(d.variants@.take(i + 1).last() == d.variants@[i as int]);
            assert(state.types@ =~= base + untagged_arms(d.variants@.take(i + 1), *case));
        }
        i = i + 1;
    }
    state.types.append(";\n");
    proof {
        assert(d.variants@.take(n as int) =~= d.variants@);
        assert(state.types@ =~= old(state).types@ + untagged_text(*d, *settings));
    }
}

// ---------------------------------------------------------------------
// Externally tagged enums (the default)
// ---------------------------------------------------------------------

/// One arm of an externally tagged union: the case-converted variant name
/// is the single key, its value the variant's fields.
pub open spec fn external_arm(v: EnumVariant, case: Option<CaseConvention>) -> Seq<char> {
    "\n"@ + comments_block(spec_get_comments(v.attrs@), 2) + (match v.fields {
        FieldList::Unnamed { fields } => "  | { \""@ + apply_case(case, spec_unraw(v.name@))
            + "\": "@ + tuple_body(fields@) + " }"@,
        _ => "  | {\n"@ + spaces(6) + "\""@ + apply_case(case, spec_unraw(v.name@)) + "\": {"@
            + "\n"@ + fields_block(named_fields(v.fields), 8, case, true) + spaces(6) + "}"@
            + "\n"@ + spaces(4) + "}"@,
    })
}

/// The arms of an externally tagged union, in variant order.
pub open spec fn external_arms(vs: Seq<EnumVariant>, case: Option<CaseConvention>) -> Seq<char>
    decreases vs.len(),
{
    if vs.len() == 0 {
        Seq::empty()
    } else {
        external_arms(vs.drop_last(), case) + external_arm(vs.last(), case)
    }
}

/// An externally tagged enum: each variant ascribes its value to a key
/// named after the variant.
pub open spec fn external_text(d: EnumDecl, s: BuildSettings) -> Seq<char> {
    export_kw(s.uses_type_interface) + "type "@ + d.name@ + spec_format_generics(
        d.generics.deep_view(),
    ) + " ="@ + external_arms(d.variants@, decl_case(d.attrs@)) + ";\n"@
}

#[verifier::rlimit(100)]
fn emit_external_arm(v: &EnumVariant, state: &mut BuildState, case: &Option<CaseConvention>)
    ensures
        final(state).types@ == old(state).types@ + external_arm(*v, *case),
        final(state).unprocessed_files == old(state).unprocessed_files,
{
    state.types.append("\n");
    let comments = get_comments(&v.attrs);
    state.write_comments(&comments, 2);
    let ghost mid = state.types@;
    let unrawed = unraw(v.name.as_str());
    let cased = convert_to_case(unrawed.as_str(), case);
    match &v.fields {
        FieldList::Unnamed { fields } => {
            state.types.append("  | { \"");
            state.types.append(cased.as_str());
            state.types.append("\": ");
            process_tuple_fields(fields, state);
            state.types.append(" }");
            proof {
                assert(state.types@ =~= mid + "  | { \""@ + apply_case(
                    *case,
                    spec_unraw(v.name@),
                ) + "\": "@ + tuple_body(fields@) + " }"@);
                assert(state.types@ =~= old(state).types@ + external_arm(*v, *case));
            }
        },
        _ => {
            let ind6 = crate::strings::build_indentation(6);
            state.types.append("  | {\n");
            state.types.append(ind6.as_str());
            state.types.append("\"");
            state.types.append(cased.as_str());
            state.types.append("\": {");
            state.types.append("\n");
            let ghost mid2 = state.types@;
            proof {
                assert(mid2 =~= mid + "  | {\n"@ + spaces(6) + "\""@ + apply_case(
                    *case,
                    spec_unraw(v.name@),
                ) + "\": {"@ + "\n"@);
            }
            let empty_fields: Vec<crate::model::NamedField> = Vec::new();
            match &v.fields {
                FieldList::Named { fields } => {
                    process_fields(fields, state, 8, case, true);
                    proof {
                        assert(named_fields(v.fields) == fields@);
                    }
                },
                _ => {
                    process_fields(&empty_fields, state, 8, case, true);
                    proof {
                        assert(empty_fields@ =~= Seq::<crate::model::NamedField>::empty());
                        assert(named_fields(v.fields) =~= empty_fields@);
                    }
                },
            }
            let ind4 = crate::strings::build_indentation(4);
            state.types.append(ind6.as_str());
            state.types.append("}");
            state.types.append("\n");
            state.types.append(ind4.as_str());
            state.types.append("}");
            proof {
                assert(state.types@ =~= mid2 + fields_block(named_fields(v.fields), 8, *case, true)
                    + spaces(6) + "}"@ + "\n"@ + spaces(4) + "}"@);
                assert(state.types@ =~= old(state).types@ + external_arm(*v, *case));
            }
        },
    }
}

fn add_externally_tagged_enum(
    d: &EnumDecl,
    state: &mut BuildState,
    case: &Option<CaseConvention>,
    settings: &BuildSettings,
)
    requires
        *case == decl_case(d.attrs@),
    ensures
        final(state).types@ == old(state).types@ + external_text(*d, *settings),
        final(state).unprocessed_files == old(state).unprocessed_files,
{
    append_export(state, settings.uses_type_interface);
    state.types.append("type ");
    state.types.append(d.name.as_str());
    let generics = format_generics(&d.generics);
    state.types.append(generics.as_str());
    state.types.append(" =");
    let ghost base = state.types@;
    proof {
        assert(d.variants@.take(0) =~= Seq::<EnumVariant>::empty());
    }
    let n = d.variants.len();
    let mut i: usize = 0;
    while i < n
        invariant
            0 <= i <= n,
            n == d.variants@.len(),
            state.types@ == base + external_arms(d.variants@.take(i as int), *case),
            state.unprocessed_files == old(state).unprocessed_files,
        decreases n - i,
    {
        emit_external_arm(&d.variants[i], state, case);
        proof {
            assert(d.variants@.take(i + 1).drop_last() =~= d.variants@.take(i as int));
            assert(d.variants@.take(i + 1).last() == d.variants@[i as int]);
            assert(state.types@ =~= base + external_arms(d.variants@.take(i + 1), *case));
        }
        i = i + 1;
    }
    state.types.append(";\n");
    proof {
        assert(d.variants@.take(n as int) =~= d.variants@);
        assert(state.types@ =~= old(state).types@ + external_text(*d, *settings));
    }
}

// ---------------------------------------------------------------------
// Internally tagged enums
// ---------------------------------------------------------------------

/// The view of an optional owned string.
pub open spec fn opt_str_view(o: Option<String>) -> Option<Seq<char>> {
    match o {
        Some(s) => Some(s@),
        None => None,
    }
}

/// True iff the variant cannot be rendered under internal tagging: a
/// positional variant of several fields needs a content name.
pub open spec fn internal_skip(v: EnumVariant, content: Option<Seq<char>>) -> bool {
    v.fields is Unnamed && unnamed_fields(v.fields).len() > 1 && content is None
}

/// One arm of the union of per-variant aliases.
pub open spec fn internal_union_arm(
    dname: Seq<char>,
    gens: Seq<Seq<char>>,
    v: EnumVariant,
    content: Option<Seq<char>>,
) -> Seq<char> {
    if internal_skip(v, content) {
        Seq::empty()
    } else {
        "\n"@ + "  | "@ + dname + "__"@ + spec_unraw(v.name@) + spec_format_generics(
            variant_generics(gens, v),
        )
    }
}

/// The union arms, in variant order.
pub open spec fn internal_union_arms(
    dname: Seq<char>,
    gens: Seq<Seq<char>>,
    vs: Seq<EnumVariant>,
    content: Option<Seq<char>>,
) -> Seq<char>
    decreases vs.len(),
{
    if vs.len() == 0 {
        Seq::empty()
    } else {
        internal_union_arms(dname, gens, vs.drop_last(), content) + internal_union_arm(
            dname,
            gens,
            vs.last(),
            content,
        )
    }
}

/// The opening of one variant's alias: its comments and the alias name,
/// threaded with only the generics the variant uses.
pub open spec fn internal_alias_head(dname: Seq<char>, gens: Seq<Seq<char>>, v: EnumVariant) -> Seq<char> {
    "\n"@ + comments_block(spec_get_comments(v.attrs@), 0) + "type "@ + dname + "__"@
        + spec_unraw(v.name@) + spec_format_generics(variant_generics(gens, v)) + " = "@
}

/// One variant's alias under internal tagging.  A positional variant with
/// a content name nests its payload under that name; a single-field
/// positional variant without one flattens into an intersection with its
/// inner type; a positional variant of several fields without one is
/// dropped; an empty positional list is rendered like a unit variant.
pub open spec fn internal_alias(
    dname: Seq<char>,
    gens: Seq<Seq<char>>,
    v: EnumVariant,
    tag: Seq<char>,
    content: Option<Seq<char>>,
    case: Option<CaseConvention>,
) -> Seq<char> {
    match v.fields {
        FieldList::Unnamed { fields } => if content is Some {
            internal_alias_head(dname, gens, v) + "{\n"@ + spaces(2) + "\""@ + tag + "\": \""@
                + apply_case(case, spec_unraw(v.name@)) + "\";\n"@ + spaces(2) + "\""@
                + content->Some_0 + "\": "@ + tuple_body(fields@) + ";\n};"@
        } else if fields@.len() == 1 {
            internal_alias_head(dname, gens, v) + "{\n"@ + spaces(2) + tag + ": \""@ + apply_case(
                case,
                spec_unraw(v.name@),
            ) + "\"}"@ + " & "@ + map_type(fields@[0].ty).text
        } else if fields@.len() == 0 {
            internal_alias_head(dname, gens, v) + "{\n"@ + spaces(2) + tag + ": \""@ + apply_case(
                case,
                spec_unraw(v.name@),
            ) + "\";\n"@ + "};"@
        } else {
            Seq::empty()
        },
        _ => internal_alias_head(dname, gens, v) + "{\n"@ + spaces(2) + tag + ": \""@ + apply_case(
            case,
            spec_unraw(v.name@),
        ) + "\";\n"@ + fields_block(named_fields(v.fields), 2, case, false) + "};"@,
    }
}

/// The per-variant aliases, in variant order.
pub open spec fn internal_aliases(
    dname: Seq<char>,
    gens: Seq<Seq<char>>,
    vs: Seq<EnumVariant>,
    tag: Seq<char>,
    content: Option<Seq<char>>,
    case: Option<CaseConvention>,
) -> Seq<char>
    decreases vs.len(),
{
    if vs.len() == 0 {
        Seq::empty()
    } else {
        internal_aliases(dname, gens, vs.drop_last(), tag, content, case) + internal_alias(
            dname,
            gens,
            vs.last(),
            tag,
            content,
            case,
        )
    }
}

/// An internally tagged enum: a union of named aliases, one alias per
/// variant, each embedding the tag.
pub open spec fn internal_text(
    d: EnumDecl,
    s: BuildSettings,
    tag: Seq<char>,
    content: Option<Seq<char>>,
) -> Seq<char> {
    export_kw(s.uses_type_interface) + "type "@ + d.name@ + spec_format_generics(
        d.generics.deep_view(),
    ) + " ="@ + internal_union_arms(d.name@, d.generics.deep_view(), d.variants@, content) + ";\n"@
        + internal_aliases(
        d.name@,
        d.generics.deep_view(),
        d.variants@,
        tag,
        content,
        decl_case(d.attrs@),
    ) + "\n"@
}

/// Appends the opening of one variant's alias under internal tagging.
fn emit_alias_head(d: &EnumDecl, v: &EnumVariant, state: &mut BuildState)
    ensures
        final(state).types@ == old(state).types@ + internal_alias_head(
            d.name@,
            d.generics.deep_view(),
            *v,
        ),
        final(state).unprocessed_files == old(state).unprocessed_files,
{
    state.types.append("\n");
    let comments = get_comments(&v.attrs);
    state.write_comments(&comments, 0);
    state.types.append("type ");
    state.types.append(d.name.as_str());
    state.types.append("__");
    let unrawed = unraw(v.name.as_str());
    state.types.append(unrawed.as_str());
    let vgens_vec = exec_variant_generics(&d.generics, v);
    let vgens = format_generics(&vgens_vec);
    state.types.append(vgens.as_str());
    state.types.append(" = ");
    proof {
        assert(state.types@ =~= old(state).types@ + internal_alias_head(
            d.name@,
            d.generics.deep_view(),
            *v,
        ));
    }
}

#[verifier::rlimit(100)]
#[verifier::spinoff_prover]
fn emit_internal_alias(
    d: &EnumDecl,
    v: &EnumVariant,
    state: &mut BuildState,
    case: &Option<CaseConvention>,
    tag: &String,
    content: &Option<String>,
)
    ensures
        final(state).types@ == old(state).types@ + internal_alias(
            d.name@,
            d.generics.deep_view(),
            *v,
            tag@,
            opt_str_view(*content),
            *case,
        ),
        final(state).unprocessed_files == old(state).unprocessed_files,
{
    let ghost gens = d.generics.deep_view();
    let ghost content_spec = opt_str_view(*content);
    let ghost before = state.types@;
    let ind2 = crate::strings::build_indentation(2);
    let unrawed = unraw(v.name.as_str());
    let cased = convert_to_case(unrawed.as_str(), case);
    match &v.fields {
        FieldList::Unnamed { fields } => {
            match content {
                Some(content_name) => {
                    emit_alias_head(d, v, state);
                    let ghost after_head = state.types@;
                    state.types.append("{\n");
                    state.types.append(ind2.as_str());
                    state.types.append("\"");
                    state.types.append(tag.as_str());
                    state.types.append("\": \"");
                    state.types.append(cased.as_str());
                    state.types.append("\";\n");
                    state.types.append(ind2.as_str());
                    state.types.append("\"");
                    state.types.append(content_name.as_str());
                    state.types.append("\": ");
                    let ghost before_tuple = state.types@;
                    proof {
                        assert(before_tuple =~= after_head + "{\n"@ + spaces(2) + "\""@ + tag@
                            + "\": \""@ + apply_case(*case, spec_unraw(v.name@)) + "\";\n"@
                            + spaces(2) + "\""@ + content_name@ + "\": "@);
                    }
                    process_tuple_fields(fields, state);
                    state.types.append(";\n};");
                    proof {
                        assert(state.types@ =~= before_tuple + tuple_body(fields@) + ";\n};"@);
                        assert(state.types@ =~= before + internal_alias(
                            d.name@,
                            gens,
                            *v,
                            tag@,
                            content_spec,
                            *case,
                        ));
                    }
                },
                None => {
                    if fields.len() == 1 {
                        emit_alias_head(d, v, state);
                        let ghost after_head = state.types@;
                        state.types.append("{\n");
                        state.types.append(ind2.as_str());
                        state.types.append(tag.as_str());
                        state.types.append(": \"");
                        state.types.append(cased.as_str());
                        state.types.append("\"}");
                        state.types.append(" & ");
                        let newtype = convert_type(&fields[0].ty);
                        state.types.append(newtype.ts_type.as_str());
                        proof {
                            assert(state.types@ =~= after_head + "{\n"@ + spaces(2) + tag@
                                + ": \""@ + apply_case(*case, spec_unraw(v.name@)) + "\"}"@
                                + " & "@ + map_type(fields@[0].ty).text);
                            assert(state.types@ =~= before + internal_alias(
                                d.name@,
                                gens,
                                *v,
                                tag@,
                                content_spec,
                                *case,
                            ));
                        }
                    } else if fields.len() == 0 {
                        emit_alias_head(d, v, state);
                        let ghost after_head = state.types@;
                        state.types.append("{\n");
                        state.types.append(ind2.as_str());
                        state.types.append(tag.as_str());
                        state.types.append(": \"");
                        state.types.append(cased.as_str());
                        state.types.append("\";\n");
                        state.types.append("};");
                        proof {
                            assert(state.types@ =~= after_head + "{\n"@ + spaces(2) + tag@
                                + ": \""@ + apply_case(*case, spec_unraw(v.name@)) + "\";\n"@
                                + "};"@);
                            assert(state.types@ =~= before + internal_alias(
                                d.name@,
                                gens,
                                *v,
                                tag@,
                                content_spec,
                                *case,
                            ));
                        }
                    } else {
                        proof {
                            assert(internal_alias(d.name@, gens, *v, tag@, content_spec, *case)
                                =~= Seq::<char>::empty());
                            assert(state.types@ =~= before + internal_alias(
                                d.name@,
                                gens,
                                *v,
                                tag@,
                                content_spec,
                                *case,
                            ));
                        }
                    }
                },
            }
        },
        _ => {
            emit_alias_head(d, v, state);
            let ghost after_head = state.types@;
            state.types.append("{\n");
            state.types.append(ind2.as_str());
            state.types.append(tag.as_str());
            state.types.append(": \"");
            state.types.append(cased.as_str());
            state.types.append("\";\n");
            let ghost before_fields = state.types@;
            proof {
                assert(before_fields =~= after_head + "{\n"@ + spaces(2) + tag@ + ": \""@
                    + apply_case(*case, spec_unraw(v.name@)) + "\";\n"@);
            }
            let empty_fields: Vec<crate::model::NamedField> = Vec::new();
            match &v.fields {
                FieldList::Named { fields } => {
                    process_fields(fields, state, 2, case, false);
                    proof {
                        assert(named_fields(v.fields) == fields@);
                    }
                },
                _ => {
                    process_fields(&empty_fields, state, 2, case, false);
                    proof {
                        assert(empty_fields@ =~= Seq::<crate::model::NamedField>::empty());
                        assert(named_fields(v.fields) =~= empty_fields@);
                    }
                },
            }
            state.types.append("};");
            proof {
                assert(state.types@ =~= before_fields + fields_block(
                    named_fields(v.fields),
                    2,
                    *case,
                    false,
                ) + "};"@);
                assert(state.types@ =~= before + internal_alias(
                    d.name@,
                    gens,
                    *v,
                    tag@,
                    content_spec,
                    *case,
                ));
            }
        },
    }
}


#[verifier::rlimit(60)]
fn add_internally_tagged_enum(
    d: &EnumDecl,
    state: &mut BuildState,
    case: &Option<CaseConvention>,
    settings: &BuildSettings,
    tag: &String,
    content: &Option<String>,
)
    requires
        *case == decl_case(d.attrs@),
    ensures
        final(state).types@ == old(state).types@ + internal_text(
            *d,
            *settings,
            tag@,
            opt_str_view(*content),
        ),
        final(state).unprocessed_files == old(state).unprocessed_files,
{
    let ghost content_spec = opt_str_view(*content);
    let ghost gens = d.generics.deep_view();
    append_export(state, settings.uses_type_interface);
    state.types.append("type ");
    state.types.append(d.name.as_str());
    let generics = format_generics(&d.generics);
    state.types.append(generics.as_str());
    state.types.append(" =");
    let ghost base = state.types@;
    proof {
        assert(d.variants@.take(0) =~= Seq::<EnumVariant>::empty());
    }
    let n = d.variants.len();
    let mut i: usize = 0;
    while i < n
        invariant
            0 <= i <= n,
            n == d.variants@.len(),
            gens == d.generics.deep_view(),
            content_spec == opt_str_view(*content),
            state.types@ == base + internal_union_arms(
                d.name@,
                gens,
                d.variants@.take(i as int),
                content_spec,
            ),
            state.unprocessed_files == old(state).unprocessed_files,
        decreases n - i,
    {
        let v = &d.variants[i];
        let skip_variant = match &v.fields {
            FieldList::Unnamed { fields } => fields.len() > 1 && content.is_none(),
            _ => false,
        };
        proof {
            assert(skip_variant == internal_skip(*v, content_spec));
        }
        if !skip_variant {
            let vgens_vec = exec_variant_generics(&d.generics, v);
            let vgens = format_generics(&vgens_vec);
            let unrawed = unraw(v.name.as_str());
            state.types.append("\n");
            state.types.append("  | ");
            state.types.append(d.name.as_str());
            state.types.append("__");
            state.types.append(unrawed.as_str());
            state.types.append(vgens.as_str());
        }
        proof {
            assert(d.variants@.take(i + 1).drop_last() =~= d.variants@.take(i as int));
            assert(d.variants@.take(i + 1).last() == d.variants@[i as int]);
            assert(state.types@ =~= base + internal_union_arms(
                d.name@,
                gens,
                d.variants@.take(i + 1),
                content_spec,
            ));
        }
        i = i + 1;
    }
    state.types.append(";\n");
    let ghost base2 = state.types@;
    proof {
        assert(d.variants@.take(n as int) =~= d.variants@);
        assert(base2 =~= base + internal_union_arms(d.name@, gens, d.variants@, content_spec)
            + ";\n"@);
        assert(d.variants@.take(0) =~= Seq::<EnumVariant>::empty());
    }
    let mut j: usize = 0;
    while j < n
        invariant
            0 <= j <= n,
            n == d.variants@.len(),
            gens == d.generics.deep_view(),
            content_spec == opt_str_view(*content),
            *case == decl_case(d.attrs@),
            state.types@ == base2 + internal_aliases(
                d.name@,
                gens,
                d.variants@.take(j as int),
                tag@,
                content_spec,
                *case,
            ),
            state.unprocessed_files == old(state).unprocessed_files,
        decreases n - j,
    {
        emit_internal_alias(d, &d.variants[j], state, case, tag, content);
        proof {
            assert(d.variants@.take(j + 1).drop_last() =~= d.variants@.take(j as int));
            assert(d.variants@.take(j + 1).last() == d.variants@[j as int]);
            assert(state.types@ =~= base2 + internal_aliases(
                d.name@,
                gens,
                d.variants@.take(j + 1),
                tag@,
                content_spec,
                *case,
            ));
        }
        j = j + 1;
    }
    state.types.append("\n");
    proof {
        assert(d.variants@.take(n as int) =~= d.variants@);
        assert(state.types@ =~= old(state).types@ + internal_text(
            *d,
            *settings,
            tag@,
            content_spec,
        ));
    }
}

// ---------------------------------------------------------------------
// Dispatch
// ---------------------------------------------------------------------

/// The body of an enum's translation, by its selected representation.
pub open spec fn enum_body(d: EnumDecl, s: BuildSettings) -> Seq<char> {
    match select_repr(d) {
        EnumRepr::Untagged => untagged_text(d, s),
        EnumRepr::Internal { tag, content } => internal_text(d, s, tag, content),
        EnumRepr::Numeric => numeric_text(d, s),
        EnumRepr::UnitUnion => unit_union_text(d, s),
        EnumRepr::External => external_text(d, s),
    }
}

/// The full fragment of an enum declaration: a blank line, its comments,
/// and the body of its selected representation.
pub open spec fn enum_text(d: EnumDecl, s: BuildSettings) -> Seq<char> {
    "\n"@ + comments_block(spec_get_comments(d.attrs@), 0) + enum_body(d, s)
}

fn all_unit(variants: &Vec<EnumVariant>) -> (r: bool)
    ensures
        r == all_variants_unit(variants@),
{
    let n = variants.len();
    let mut i: usize = 0;
    while i < n
        invariant
            0 <= i <= n,
            n == variants@.len(),
            forall|j: int| 0 <= j < i ==> (#[trigger] variants@[j]).fields.spec_is_empty(),
        decreases n - i,
    {
        if !variants[i].fields.is_empty() {
            return false;
        }
        i = i + 1;
    }
    true
}

impl ToTypescript for EnumDecl {
    open spec fn ts_fragment(self, settings: BuildSettings) -> Seq<char> {
        enum_text(self, settings)
    }

    #[verifier::rlimit(60)]
    fn convert_to_ts(self, state: &mut BuildState, settings: &BuildSettings) {
        let ghost this = self;
        state.types.append("\n");
        let comments = get_comments(&self.attrs);
        let casing = resolve_decl_case(&self.attrs);
        state.write_comments(&comments, 0);
        let ghost after_comments = state.types@;

        let untagged = get_attribute_arg("serde", "untagged", &self.attrs);
        if untagged.is_some() {
            add_untagged_enum(&self, state, &casing, settings);
            proof {
                assert(select_repr(this) is Untagged);
                assert(state.types@ =~= old(state).types@ + enum_text(this, *settings));
            }
        } else {
            let tag = get_attribute_arg("serde", "tag", &self.attrs);
            match tag {
                Some(tag_name) => {
                    let content = get_attribute_arg("serde", "content", &self.attrs);
                    add_internally_tagged_enum(
                        &self,
                        state,
                        &casing,
                        settings,
                        &tag_name,
                        &content,
                    );
                    proof {
                        assert(select_repr(this) == (EnumRepr::Internal {
                            tag: tag_name@,
                            content: opt_str_view(content),
                        }));
                        assert(state.types@ =~= old(state).types@ + enum_text(this, *settings));
                    }
                },
                None => {
                    let is_single = all_unit(&self.variants);
                    if is_single {
                        if has_attribute_arg("derive", "Serialize_repr", &self.attrs) {
                            add_numeric_enum(&self, state, &casing, settings);
                            proof {
                                assert(select_repr(this) is Numeric);
                                assert(state.types@ =~= old(state).types@ + enum_text(
                                    this,
                                    *settings,
                                ));
                            }
                        } else {
                            add_enum(&self, state, &casing, settings);
                            proof {
                                assert(select_repr(this) is UnitUnion);
                                assert(state.types@ =~= old(state).types@ + enum_text(
                                    this,
                                    *settings,
                                ));
                            }
                        }
                    } else {
                        add_externally_tagged_enum(&self, state, &casing, settings);
                        proof {
                            assert(select_repr(this) is External);
                            assert(state.types@ =~= old(state).types@ + enum_text(this, *settings));
                        }
                    }
                },
            }
        }
    }
}

} // verus!
