//! The struct emitter: named-field structs become interfaces (or
//! intersection types when fields are flattened out), tuple structs become
//! fixed-length tuple type aliases.

use vstd::prelude::*;
use crate::attrs::{get_comments, has_attribute_arg, spec_get_attribute_arg, spec_get_comments};
use crate::casing::{apply_case, convert_to_case, CaseConvention};
use crate::emit::{append_export, decl_case, export_kw, format_generics, resolve_decl_case, spec_format_generics};
use crate::model::{BuildSettings, FieldList, NamedField, StructDecl, TupleField};
use crate::output::{comments_block, BuildState};
use crate::strings::{build_indentation, spaces, spec_unraw, unraw};
use crate::to_typescript::ToTypescript;
use crate::typescript::{convert_type, join_texts, map_type};

verus! {

/// True iff the field is flattened into its parent.
pub open spec fn spec_has_flatten(attrs: Seq<crate::model::Attr>) -> bool {
    spec_get_attribute_arg(attrs, "serde"@, "flatten"@) is Some
}

/// The line one named field contributes: its comments, its (possibly
/// case-converted) name with an optionality marker, and its mapped type.
/// A flattened field contributes nothing here.
pub open spec fn field_line(f: NamedField, indent: int, case: Option<CaseConvention>) -> Seq<char> {
    if spec_has_flatten(f.attrs@) {
        Seq::empty()
    } else {
        comments_block(spec_get_comments(f.attrs@), 2) + spaces(indent) + apply_case(
            case,
            spec_unraw(f.name@),
        ) + (if map_type(f.ty).optional {
            "?"@
        } else {
            Seq::<char>::empty()
        }) + ": "@ + map_type(f.ty).text + ";\n"@
    }
}

/// The lines of a named field list, in order.
pub open spec fn fields_lines(
    fs: Seq<NamedField>,
    indent: int,
    case: Option<CaseConvention>,
) -> Seq<char>
    decreases fs.len(),
{
    if fs.len() == 0 {
        Seq::empty()
    } else {
        fields_lines(fs.drop_last(), indent, case) + field_line(fs.last(), indent, case)
    }
}

/// The body of a field list: its lines, or the closed-empty-object marker
/// when the list is empty and the representation asks for one.
pub open spec fn fields_block(
    fs: Seq<NamedField>,
    indent: int,
    case: Option<CaseConvention>,
    use_empty: bool,
) -> Seq<char> {
    if fs.len() == 0 && use_empty {
        spaces(indent) + "[key: PropertyKey]: never;\n"@
    } else {
        fields_lines(fs, indent, case)
    }
}

/// Appends the body of a named field list.  Flattened fields are skipped;
/// an empty list renders the closed-empty-object marker when
/// `use_empty_object_type` is set.
pub fn process_fields(
    fields: &Vec<NamedField>,
    state: &mut BuildState,
    indentation_amount: i8,
    case: &Option<CaseConvention>,
    use_empty_object_type: bool,
)
    ensures
        final(state).types@ == old(state).types@ + fields_block(
            fields@,
            indentation_amount as int,
            *case,
            use_empty_object_type,
        ),
        final(state).unprocessed_files == old(state).unprocessed_files,
{
    let space = build_indentation(indentation_amount);
    let n = fields.len();
    if n == 0 && use_empty_object_type {
        state.types.append(space.as_str());
        state.types.append("[key: PropertyKey]: never;\n");
        proof {
            assert(state.types@ =~= old(state).types@ + fields_block(
                fields@,
                indentation_amount as int,
                *case,
                use_empty_object_type,
            ));
        }
        return;
    }
    let ghost base = state.types@;
    let mut i: usize = 0;
    proof {
        assert(fields@.take(0) =~= Seq::<NamedField>::empty());
        assert(state.types@ =~= base + fields_lines(
            fields@.take(0),
            indentation_amount as int,
            *case,
        ));
    }
    while i < n
        invariant
            0 <= i <= n,
            n == fields@.len(),
            space@ == spaces(indentation_amount as int),
            state.types@ == base + fields_lines(
                fields@.take(i as int),
                indentation_amount as int,
                *case,
            ),
            state.unprocessed_files == old(state).unprocessed_files,
        decreases n - i,
    {
        let f = &fields[i];
        let is_flattened = has_attribute_arg("serde", "flatten", &f.attrs);
        if !is_flattened {
            let comments = get_comments(&f.attrs);
            state.write_comments(&comments, 2);
            let unrawed = unraw(f.name.as_str());
            let field_name = convert_to_case(unrawed.as_str(), case);
            let field_type = convert_type(&f.ty);
            state.types.append(space.as_str());
            state.types.append(field_name.as_str());
            if field_type.is_optional {
                state.types.append("?");
            }
            state.types.append(": ");
            state.types.append(field_type.ts_type.as_str());
            state.types.append(";\n");
        }
        proof {
            assert(fields@.take(i + 1).drop_last() =~= fields@.take(i as int));
            assert(fields@.take(i + 1).last() == fields@[i as int]);
            assert(state.types@ =~= base + fields_lines(
                fields@.take(i + 1),
                indentation_amount as int,
                *case,
            ));
        }
        i = i + 1;
    }
    proof {
        assert(fields@.take(n as int) =~= fields@);
    }
}

/// The mapped texts of a tuple field list, in order.
pub open spec fn tuple_field_texts(fs: Seq<TupleField>) -> Seq<Seq<char>>
    decreases fs.len(),
{
    if fs.len() == 0 {
        Seq::empty()
    } else {
        tuple_field_texts(fs.drop_last()).push(map_type(fs.last().ty).text)
    }
}

/// The body of a tuple field list: a single field renders as a bare type,
/// several render as a bracketed fixed-length tuple, none render nothing.
pub open spec fn tuple_body(fs: Seq<TupleField>) -> Seq<char> {
    if fs.len() == 1 {
        tuple_field_texts(fs)[0]
    } else if fs.len() > 0 {
        "[ "@ + join_texts(tuple_field_texts(fs), ", "@) + " ]"@
    } else {
        Seq::empty()
    }
}

fn tuple_texts(fields: &Vec<TupleField>) -> (r: Vec<String>)
    ensures
        r.deep_view() == tuple_field_texts(fields@),
        r@.len() == fields@.len(),
{
    let n = fields.len();
    let mut out: Vec<String> = Vec::new();
    proof {
        assert(fields@.take(0) =~= Seq::<TupleField>::empty());
        assert(out.deep_view() =~~= tuple_field_texts(fields@.take(0)));
    }
    let mut i: usize = 0;
    while i < n
        invariant
            0 <= i <= n,
            n == fields@.len(),
            out@.len() == i,
            out.deep_view() == tuple_field_texts(fields@.take(i as int)),
        decreases n - i,
    {
        let t = convert_type(&fields[i].ty);
        let ghost dv0 = out.deep_view();
        let ghost v0 = out@;
        out.push(t.ts_type);
        proof {
            assert(forall|k: int| 0 <= k < v0.len() ==> out@[k] == #[trigger] v0[k]);
            assert(out.deep_view() =~~= dv0.push(out@.last()@));
            assert(fields@.take(i + 1).drop_last() =~= fields@.take(i as int));
            assert(fields@.take(i + 1).last() == fields@[i as int]);
            assert(out.deep_view() =~~= tuple_field_texts(fields@.take(i + 1)));
        }
        i = i + 1;
    }
    proof {
        assert(fields@.take(n as int) =~= fields@);
    }
    out
}

/// Appends the body of a tuple field list.
pub fn process_tuple_fields(fields: &Vec<TupleField>, state: &mut BuildState)
    ensures
        final(state).types@ == old(state).types@ + tuple_body(fields@),
        final(state).unprocessed_files == old(state).unprocessed_files,
{
    let parts = tuple_texts(fields);
    if parts.len() == 1 {
        state.types.append(parts[0].as_str());
        proof {
            assert(parts.deep_view()[0] == parts@[0]@);
            assert(state.types@ =~= old(state).types@ + tuple_body(fields@));
        }
    } else if parts.len() > 0 {
        let joined = crate::typescript::join_strings(parts, ", ");
        state.types.append("[ ");
        state.types.append(joined.as_str());
        state.types.append(" ]");
        proof {
            assert(state.types@ =~= old(state).types@ + tuple_body(fields@));
        }
    }
}

/// The flattened fields' mapped texts, in order; these form the
/// intersection prefix.
pub open spec fn named_intersection_texts(fs: Seq<NamedField>) -> Seq<Seq<char>>
    decreases fs.len(),
{
    if fs.len() == 0 {
        Seq::empty()
    } else {
        named_intersection_texts(fs.drop_last()) + (if spec_has_flatten(fs.last().attrs@) {
            seq![map_type(fs.last().ty).text]
        } else {
            Seq::<Seq<char>>::empty()
        })
    }
}

/// As `named_intersection_texts`, over tuple fields.
pub open spec fn tuple_intersection_texts(fs: Seq<TupleField>) -> Seq<Seq<char>>
    decreases fs.len(),
{
    if fs.len() == 0 {
        Seq::empty()
    } else {
        tuple_intersection_texts(fs.drop_last()) + (if spec_has_flatten(fs.last().attrs@) {
            seq![map_type(fs.last().ty).text]
        } else {
            Seq::<Seq<char>>::empty()
        })
    }
}

/// The intersection contributions of a field list.
pub open spec fn intersection_parts(fl: FieldList) -> Seq<Seq<char>> {
    match fl {
        FieldList::Named { fields } => named_intersection_texts(fields@),
        FieldList::Unnamed { fields } => tuple_intersection_texts(fields@),
        FieldList::Unit => Seq::empty(),
    }
}

/// The intersection prefix: the flattened fields' types joined with `&`,
/// or `None` when no field is flattened.
pub open spec fn spec_intersections(fl: FieldList) -> Option<Seq<char>> {
    if intersection_parts(fl).len() == 0 {
        None
    } else {
        Some(join_texts(intersection_parts(fl), " & "@))
    }
}

fn named_inter_texts(fields: &Vec<NamedField>) -> (r: Vec<String>)
    ensures
        r.deep_view() == named_intersection_texts(fields@),
{
    let n = fields.len();
    let mut out: Vec<String> = Vec::new();
    proof {
        assert(fields@.take(0) =~= Seq::<NamedField>::empty());
        assert(out.deep_view() =~~= named_intersection_texts(fields@.take(0)));
    }
    let mut i: usize = 0;
    while i < n
        invariant
            0 <= i <= n,
            n == fields@.len(),
            out.deep_view() == named_intersection_texts(fields@.take(i as int)),
        decreases n - i,
    {
        let f = &fields[i];
        if has_attribute_arg("serde", "flatten", &f.attrs) {
            let t = convert_type(&f.ty);
            let ghost dv0 = out.deep_view();
            let ghost v0 = out@;
            out.push(t.ts_type);
            proof {
                assert(forall|k: int| 0 <= k < v0.len() ==> out@[k] == #[trigger] v0[k]);
                assert(out.deep_view() =~~= dv0.push(out@.last()@));
            }
        }
        proof {
            assert(fields@.take(i + 1).drop_last() =~= fields@.take(i as int));
            assert(fields@.take(i + 1).last() == fields@[i as int]);
            assert(out.deep_view() =~~= named_intersection_texts(fields@.take(i + 1)));
        }
        i = i + 1;
    }
    proof {
        assert(fields@.take(n as int) =~= fields@);
    }
    out
}

fn tuple_inter_texts(fields: &Vec<TupleField>) -> (r: Vec<String>)
    ensures
        r.deep_view() == tuple_intersection_texts(fields@),
{
    let n = fields.len();
    let mut out: Vec<String> = Vec::new();
    proof {
        assert(fields@.take(0) =~= Seq::<TupleField>::empty());
        assert(out.deep_view() =~~= tuple_intersection_texts(fields@.take(0)));
    }
    let mut i: usize = 0;
    while i < n
        invariant
            0 <= i <= n,
            n == fields@.len(),
            out.deep_view() == tuple_intersection_texts(fields@.take(i as int)),
        decreases n - i,
    {
        let f = &fields[i];
        if has_attribute_arg("serde", "flatten", &f.attrs) {
            let t = convert_type(&f.ty);
            let ghost dv0 = out.deep_view();
            let ghost v0 = out@;
            out.push(t.ts_type);
            proof {
                assert(forall|k: int| 0 <= k < v0.len() ==> out@[k] == #[trigger] v0[k]);
                assert(out.deep_view() =~~= dv0.push(out@.last()@));
            }
        }
        proof {
            assert(fields@.take(i + 1).drop_last() =~= fields@.take(i as int));
            assert(fields@.take(i + 1).last() == fields@[i as int]);
            assert(out.deep_view() =~~= tuple_intersection_texts(fields@.take(i + 1)));
        }
        i = i + 1;
    }
    proof {
        assert(fields@.take(n as int) =~= fields@);
    }
    out
}

/// Computes the intersection prefix of a field list, when any field is
/// flattened.
pub fn get_intersections(fields: &FieldList) -> (r: Option<String>)
    ensures
        match r {
            Some(s) => spec_intersections(*fields) == Some(s@),
            None => spec_intersections(*fields) is None,
        },
{
    let parts: Vec<String> = match fields {
        FieldList::Named { fields } => named_inter_texts(fields),
        FieldList::Unnamed { fields } => tuple_inter_texts(fields),
        FieldList::Unit => Vec::new(),
    };
    proof {
        assert(parts.deep_view() =~~= intersection_parts(*fields));
    }
    if parts.len() == 0 {
        None
    } else {
        Some(crate::typescript::join_strings(parts, " & "))
    }
}

/// The named fields of a field list; a unit or tuple list has none.
pub open spec fn named_fields(fl: FieldList) -> Seq<NamedField> {
    match fl {
        FieldList::Named { fields } => fields@,
        _ => Seq::empty(),
    }
}

/// The tuple fields of a field list.
pub open spec fn unnamed_fields(fl: FieldList) -> Seq<TupleField> {
    match fl {
        FieldList::Unnamed { fields } => fields@,
        _ => Seq::empty(),
    }
}

/// The declaration part of a struct's translation (after its comments).
/// A named-field struct with flattened fields becomes an intersection
/// type alias; without them, an interface; a tuple struct becomes a tuple
/// type alias; a tuple struct with flattened fields cannot be rendered
/// and contributes nothing.
pub open spec fn struct_decl_body(d: StructDecl, s: BuildSettings) -> Seq<char> {
    if spec_intersections(d.fields) is Some && !(d.fields is Unnamed) {
        export_kw(s.uses_type_interface) + "type "@ + d.name@ + spec_format_generics(
            d.generics.deep_view(),
        ) + " = "@ + spec_intersections(d.fields)->Some_0 + " & "@ + "{\n"@ + fields_block(
            named_fields(d.fields),
            2,
            decl_case(d.attrs@),
            true,
        ) + "}"@ + "\n"@
    } else if spec_intersections(d.fields) is None && !(d.fields is Unnamed) {
        export_kw(s.uses_type_interface) + "interface "@ + d.name@ + spec_format_generics(
            d.generics.deep_view(),
        ) + " "@ + "{\n"@ + fields_block(named_fields(d.fields), 2, decl_case(d.attrs@), true)
            + "}"@ + "\n"@
    } else if spec_intersections(d.fields) is None && d.fields is Unnamed {
        export_kw(s.uses_type_interface) + "type "@ + d.name@ + spec_format_generics(
            d.generics.deep_view(),
        ) + " = "@ + tuple_body(unnamed_fields(d.fields)) + "\n"@
    } else {
        Seq::empty()
    }
}

/// The full fragment of a struct declaration: a blank line, its comments,
/// and its declaration body.
pub open spec fn struct_text(d: StructDecl, s: BuildSettings) -> Seq<char> {
    "\n"@ + comments_block(spec_get_comments(d.attrs@), 0) + struct_decl_body(d, s)
}

impl ToTypescript for StructDecl {
    open spec fn ts_fragment(self, settings: BuildSettings) -> Seq<char> {
        struct_text(self, settings)
    }

    #[verifier::rlimit(100)]
    fn convert_to_ts(self, state: &mut BuildState, settings: &BuildSettings) {
        let ghost this = self;
        let casing = resolve_decl_case(&self.attrs);
        state.types.append("\n");
        let comments = get_comments(&self.attrs);
        state.write_comments(&comments, 0);
        let ghost after_comments = state.types@;

        let intersections = get_intersections(&self.fields);
        let generics = format_generics(&self.generics);
        let is_tuple = match &self.fields {
            FieldList::Unnamed { .. } => true,
            _ => false,
        };
        proof {
            assert(is_tuple == (this.fields is Unnamed));
        }

        match (intersections, is_tuple) {
            (Some(inter), false) => {
                append_export(state, settings.uses_type_interface);
                state.types.append("type ");
                state.types.append(self.name.as_str());
                state.types.append(generics.as_str());
                state.types.append(" = ");
                state.types.append(inter.as_str());
                state.types.append(" & ");
                state.types.append("{\n");
                let ghost head = export_kw(settings.uses_type_interface) + "type "@ + this.name@
                    + spec_format_generics(this.generics.deep_view()) + " = "@ + inter@ + " & "@
                    + "{\n"@;
                let ghost before_fields = state.types@;
                proof {
                    assert(before_fields =~= after_comments + head);
                }
                let empty_fields: Vec<NamedField> = Vec::new();
                match &self.fields {
                    FieldList::Named { fields } => {
                        process_fields(fields, state, 2, &casing, true);
                        proof {
                            assert(named_fields(this.fields) == fields@);
                        }
                    },
                    _ => {
                        process_fields(&empty_fields, state, 2, &casing, true);
                        proof {
                            assert(empty_fields@ =~= Seq::<NamedField>::empty());
                            assert(named_fields(this.fields) =~= empty_fields@);
                        }
                    },
                }
                let ghost fb = fields_block(named_fields(this.fields), 2, decl_case(this.attrs@), true);
                state.types.append("}");
                state.types.append("\n");
                proof {
                    assert(state.types@ == before_fields + fb + "}"@ + "\n"@);
                    assert(struct_decl_body(this, *settings) == head + fb + "}"@ + "\n"@);
                    assert(state.types@ =~= after_comments + struct_decl_body(this, *settings));
                    assert(after_comments == old(state).types@ + "\n"@ + comments_block(
                        spec_get_comments(this.attrs@),
                        0,
                    ));
                    assert(state.types@ =~= old(state).types@ + struct_text(this, *settings));
                }
            },
            (None, false) => {
                append_export(state, settings.uses_type_interface);
                state.types.append("interface ");
                state.types.append(self.name.as_str());
                state.types.append(generics.as_str());
                state.types.append(" ");
                state.types.append("{\n");
                let ghost head = export_kw(settings.uses_type_interface) + "interface "@
                    + this.name@ + spec_format_generics(this.generics.deep_view()) + " "@
                    + "{\n"@;
                let ghost before_fields = state.types@;
                proof {
                    assert(before_fields =~= after_comments + head);
                }
                let empty_fields: Vec<NamedField> = Vec::new();
                match &self.fields {
                    FieldList::Named { fields } => {
                        process_fields(fields, state, 2, &casing, true);
                        proof {
                            assert(named_fields(this.fields) == fields@);
                        }
                    },
                    _ => {
                        process_fields(&empty_fields, state, 2, &casing, true);
                        proof {
                            assert(empty_fields@ =~= Seq::<NamedField>::empty());
                            assert(named_fields(this.fields) =~= empty_fields@);
                        }
                    },
                }
                let ghost fb = fields_block(named_fields(this.fields), 2, decl_case(this.attrs@), true);
                state.types.append("}");
                state.types.append("\n");
                proof {
                    assert(state.types@ == before_fields + fb + "}"@ + "\n"@);
                    assert(struct_decl_body(this, *settings) == head + fb + "}"@ + "\n"@);
                    assert(state.types@ =~= after_comments + struct_decl_body(this, *settings));
                    assert(after_comments == old(state).types@ + "\n"@ + comments_block(
                        spec_get_comments(this.attrs@),
                        0,
                    ));
                    assert(state.types@ =~= old(state).types@ + struct_text(this, *settings));
                }
            },
            (None, true) => {
                append_export(state, settings.uses_type_interface);
                state.types.append("type ");
                state.types.append(self.name.as_str());
                state.types.append(generics.as_str());
                state.types.append(" = ");
                let ghost head = export_kw(settings.uses_type_interface) + "type "@ + this.name@
                    + spec_format_generics(this.generics.deep_view()) + " = "@;
                let ghost before_fields = state.types@;
                proof {
                    assert(before_fields =~= after_comments + head);
                }
                match &self.fields {
                    FieldList::Unnamed { fields } => {
                        process_tuple_fields(fields, state);
                        proof {
                            assert(unnamed_fields(this.fields) == fields@);
                        }
                    },
                    _ => {},
                }
                let ghost tb = tuple_body(unnamed_fields(this.fields));
                state.types.append("\n");
                proof {
                    assert(state.types@ == before_fields + tb + "\n"@);
                    assert(struct_decl_body(this, *settings) == head + tb + "\n"@);
                    assert(state.types@ =~= after_comments + struct_decl_body(this, *settings));
                    assert(after_comments == old(state).types@ + "\n"@ + comments_block(
                        spec_get_comments(this.attrs@),
                        0,
                    ));
                    assert(state.types@ =~= old(state).types@ + struct_text(this, *settings));
                }
            },
            (Some(_), true) => {
                // Flattening is undefined for positional fields: the
                // declaration is skipped, after its comments.
                proof {
                    assert(struct_decl_body(this, *settings) =~= Seq::<char>::empty());
                    assert(state.types@ =~= old(state).types@ + struct_text(this, *settings));
                }
            },
        }
    }
}

} // verus!
