//! The type mapper: turns one source type expression into the text of a
//! target type, together with an is-optional flag.  It never fails;
//! unrecognized constructs degrade to the `unknown` placeholder.

use vstd::prelude::*;
use crate::model::{GenericArg, PathArgs, TypeExpr};
use crate::strings::{contains_cow, spec_contains_cow, str_eq};

verus! {

/// A mapped target type.
pub struct TsType {
    pub ts_type: String,
    pub is_optional: bool,
}

impl From<String> for TsType {
    /// A bare text becomes a non-optional mapped type.
    fn from(ts_type: String) -> (r: TsType) {
        TsType { ts_type, is_optional: false }
    }
}

impl vstd::std_specs::convert::FromSpecImpl<String> for TsType {
    open spec fn obeys_from_spec() -> bool {
        true
    }

    open spec fn from_spec(t: String) -> TsType {
        TsType { ts_type: t, is_optional: false }
    }
}

/// The mathematical value of a mapped type.
pub struct MappedTy {
    pub text: Seq<char>,
    pub optional: bool,
}

/// The model of a `TsType` value.
pub open spec fn ts_view(t: TsType) -> MappedTy {
    MappedTy { text: t.ts_type@, optional: t.is_optional }
}

/// The unknown placeholder type.
pub open spec fn unknown_ty() -> MappedTy {
    MappedTy { text: "unknown"@, optional: false }
}

/// The fixed primitive table: integer and floating-point names map to the
/// target's number type, and so on.  Lookup is case-sensitive and exact.
pub open spec fn prim_lookup(id: Seq<char>) -> Option<Seq<char>> {
    if id == "i8"@ || id == "u8"@ || id == "i16"@ || id == "u16"@ || id == "i32"@ || id == "u32"@
        || id == "i64"@ || id == "u64"@ || id == "i128"@ || id == "u128"@ || id == "isize"@
        || id == "usize"@ || id == "f32"@ || id == "f64"@ {
        Some("number"@)
    } else if id == "bool"@ {
        Some("boolean"@)
    } else if id == "char"@ || id == "str"@ || id == "String"@ {
        Some("string"@)
    } else if id == "NaiveDateTime"@ || id == "DateTime"@ {
        Some("Date"@)
    } else if id == "Uuid"@ {
        Some("string"@)
    } else {
        None
    }
}

/// A mapped type in element position: an optional element is widened with
/// the undefined marker instead of propagating its optionality.
pub open spec fn opt_flat(m: MappedTy) -> Seq<char> {
    if m.optional {
        m.text + " | undefined"@
    } else {
        m.text
    }
}

/// The parts joined by the separator.
pub open spec fn join_texts(parts: Seq<Seq<char>>, sep: Seq<char>) -> Seq<char>
    decreases parts.len(),
{
    if parts.len() == 0 {
        Seq::empty()
    } else if parts.len() == 1 {
        parts[0]
    } else {
        join_texts(parts.drop_last(), sep) + sep + parts.last()
    }
}

/// The mapped text of one generic argument; non-type arguments map to the
/// unknown placeholder.
pub open spec fn map_generic(g: GenericArg) -> MappedTy
    decreases g, 0int,
{
    match g {
        GenericArg::Ty { ty } => map_type(ty),
        GenericArg::NotType => unknown_ty(),
    }
}

/// Each generic argument mapped and optional-flattened, in order.
pub open spec fn gen_args_flat(args: Seq<GenericArg>) -> Seq<Seq<char>>
    decreases args, 0int,
{
    if args.len() == 0 {
        Seq::empty()
    } else {
        gen_args_flat(args.drop_last()).push(opt_flat(map_generic(args.last())))
    }
}

/// Each tuple element mapped and optional-flattened, in order.
pub open spec fn tuple_flat(elems: Seq<TypeExpr>) -> Seq<Seq<char>>
    decreases elems, 0int,
{
    if elems.len() == 0 {
        Seq::empty()
    } else {
        tuple_flat(elems.drop_last()).push(opt_flat(map_type(elems.last())))
    }
}

/// The text of a copy-on-write wrapper: its second generic argument when
/// present, the target string type otherwise.
pub open spec fn cow_body(args: PathArgs) -> Seq<char>
    decreases args, 0int,
{
    match args {
        PathArgs::Angle { args } => if args@.len() >= 2 {
            map_generic(args@[1]).text
        } else {
            "string"@
        },
        _ => "string"@,
    }
}

/// The text of the optional wrapper: its first generic argument, or the
/// unknown placeholder when no angle-bracketed argument is present.
pub open spec fn option_body(args: PathArgs) -> Seq<char>
    decreases args, 0int,
{
    match args {
        PathArgs::Angle { args } => if args@.len() >= 1 {
            map_generic(args@[0]).text
        } else {
            "unknown"@
        },
        _ => "unknown"@,
    }
}

/// The text of the growable-array wrapper: an array of its flattened
/// element type.
pub open spec fn vec_body(args: PathArgs) -> Seq<char>
    decreases args, 0int,
{
    match args {
        PathArgs::Angle { args } => if args@.len() >= 1 {
            "Array<"@ + opt_flat(map_generic(args@[0])) + ">"@
        } else {
            "unknown"@
        },
        _ => "unknown"@,
    }
}

/// The text of the key-value map wrapper: a record over all its flattened
/// generic arguments.
pub open spec fn record_body(args: PathArgs) -> Seq<char>
    decreases args, 0int,
{
    match args {
        PathArgs::Angle { args } => "Record<"@ + join_texts(gen_args_flat(args@), ", "@) + ">"@,
        _ => "unknown"@,
    }
}

/// The container rules: a name holding `Cow` is the copy-on-write wrapper;
/// `Option`, `Vec` and `HashMap` are the optional, array and map wrappers.
/// Other names yield `None` here.
pub open spec fn spec_with_args(ident: Seq<char>, args: PathArgs) -> Option<MappedTy>
    decreases args, 1int,
{
    if spec_contains_cow(ident) {
        Some(MappedTy { text: cow_body(args), optional: false })
    } else if ident == "Option"@ {
        Some(MappedTy { text: option_body(args), optional: true })
    } else if ident == "Vec"@ {
        Some(MappedTy { text: vec_body(args), optional: false })
    } else if ident == "HashMap"@ {
        Some(MappedTy { text: record_body(args), optional: false })
    } else {
        None
    }
}

/// A nominal type reference passed through unchanged, its generic
/// arguments mapped recursively; parenthesized argument lists are not
/// supported and yield `None`.
pub open spec fn spec_custom(ident: Seq<char>, args: PathArgs) -> Option<MappedTy>
    decreases args, 0int,
{
    match args {
        PathArgs::NoArgs => Some(MappedTy { text: ident, optional: false }),
        PathArgs::Angle { args } => Some(
            MappedTy {
                text: ident + "<"@ + join_texts(gen_args_flat(args@), ", "@) + ">"@,
                optional: false,
            },
        ),
        PathArgs::Paren => None,
    }
}

/// The mapped form of a source type expression.  References are
/// transparent; the primitive table is consulted first, then the container
/// rules, then the nominal pass-through; everything else is the unknown
/// placeholder.  Only the optional wrapper at the outermost level makes a
/// type optional.
pub open spec fn map_type(t: TypeExpr) -> MappedTy
    decreases t, 2int,
{
    match t {
        TypeExpr::Ref { inner } => map_type(*inner),
        TypeExpr::Path { ident, args } => if prim_lookup(ident@) is Some {
            MappedTy { text: prim_lookup(ident@)->Some_0, optional: false }
        } else if spec_with_args(ident@, args) is Some {
            spec_with_args(ident@, args)->Some_0
        } else if spec_custom(ident@, args) is Some {
            spec_custom(ident@, args)->Some_0
        } else {
            unknown_ty()
        },
        TypeExpr::Tuple { elems } => MappedTy {
            text: "["@ + join_texts(tuple_flat(elems@), ", "@) + "]"@,
            optional: false,
        },
        TypeExpr::Opaque => unknown_ty(),
    }
}

fn unknown_ts() -> (r: TsType)
    ensures
        ts_view(r) == unknown_ty(),
{
    TsType { ts_type: "unknown".to_owned(), is_optional: false }
}

/// Looks an identifier up in the fixed primitive table; `Err` when the
/// name is not in the table.
pub fn try_match_ident_str(ident: &str) -> (r: Result<String, ()>)
    ensures
        match r {
            Ok(v) => prim_lookup(ident@) == Some(v@),
            Err(_) => prim_lookup(ident@) is None,
        },
{
    if str_eq(ident, "i8") || str_eq(ident, "u8") || str_eq(ident, "i16") || str_eq(ident, "u16")
        || str_eq(ident, "i32") || str_eq(ident, "u32") || str_eq(ident, "i64")
        || str_eq(ident, "u64") || str_eq(ident, "i128") || str_eq(ident, "u128")
        || str_eq(ident, "isize") || str_eq(ident, "usize") || str_eq(ident, "f32")
        || str_eq(ident, "f64") {
        Ok("number".to_owned())
    } else if str_eq(ident, "bool") {
        Ok("boolean".to_owned())
    } else if str_eq(ident, "char") || str_eq(ident, "str") || str_eq(ident, "String") {
        Ok("string".to_owned())
    } else if str_eq(ident, "NaiveDateTime") || str_eq(ident, "DateTime") {
        Ok("Date".to_owned())
    } else if str_eq(ident, "Uuid") {
        Ok("string".to_owned())
    } else {
        Err(())
    }
}

/// An optional element's text is widened with the undefined marker.
fn flatten_optional(t: TsType) -> (r: String)
    ensures
        r@ == opt_flat(ts_view(t)),
{
    if t.is_optional {
        let mut s = t.ts_type;
        s.append(" | undefined");
        s
    } else {
        t.ts_type
    }
}

pub(crate) fn join_strings(parts: Vec<String>, sep: &str) -> (r: String)
    ensures
        r@ == join_texts(parts.deep_view(), sep@),
{
    let n = parts.len();
    let mut out = String::new();
    let mut i: usize = 0;
    proof {
        assert(parts.deep_view().take(0) =~= Seq::<Seq<char>>::empty());
    }
    while i < n
        invariant
            0 <= i <= n,
            n == parts@.len(),
            parts.deep_view().len() == n,
            out@ == join_texts(parts.deep_view().take(i as int), sep@),
        decreases n - i,
    {
        if i > 0 {
            out.append(sep);
        }
        out.append(parts[i].as_str());
        proof {
            let dv = parts.deep_view();
            assert(dv[i as int] == parts@[i as int]@);
            assert(dv.take(i + 1).drop_last() =~= dv.take(i as int));
            assert(dv.take(i + 1).last() == dv[i as int]);
            if i == 0 {
                assert(out@ =~= join_texts(dv.take(1), sep@));
            } else {
                assert(out@ =~= join_texts(dv.take(i + 1), sep@));
            }
        }
        i = i + 1;
    }
    proof {
        assert(parts.deep_view().take(n as int) =~= parts.deep_view());
    }
    out
}

fn convert_generic(g: &GenericArg) -> (r: TsType)
    ensures
        ts_view(r) == map_generic(*g),
    decreases *g, 0int,
{
    match g {
        GenericArg::Ty { ty } => convert_type(ty),
        GenericArg::NotType => unknown_ts(),
    }
}

fn flat_generic_texts(args: &Vec<GenericArg>) -> (r: Vec<String>)
    ensures
        r.deep_view() == gen_args_flat(args@),
    decreases args@, 0int,
{
    let n = args.len();
    let mut out: Vec<String> = Vec::new();
    proof {
        assert(args@.take(0) =~= Seq::<GenericArg>::empty());
        assert(out.deep_view() =~~= gen_args_flat(args@.take(0)));
    }
    let mut i: usize = 0;
    while i < n
        invariant
            0 <= i <= n,
            n == args@.len(),
            out.deep_view() == gen_args_flat(args@.take(i as int)),
        decreases n - i,
    {
        let t = convert_generic(&args[i]);
        let flat = flatten_optional(t);
        let ghost dv0 = out.deep_view();
        let ghost v0 = out@;
        out.push(flat);
        proof {
            assert(out@ == v0.push(flat));
            assert(forall|k: int| 0 <= k < v0.len() ==> out@[k] == #[trigger] v0[k]);
            assert(out.deep_view() =~~= dv0.push(flat@));
            assert(args@.take(i + 1).drop_last() =~= args@.take(i as int));
            assert(args@.take(i + 1).last() == args@[i as int]);
            assert(out.deep_view() =~~= gen_args_flat(args@.take(i + 1)));
        }
        i = i + 1;
    }
    proof {
        assert(args@.take(n as int) =~= args@);
    }
    out
}

/// The container rules, as an executable step; `Err` when the identifier
/// is none of the recognized wrappers.
fn try_match_with_args(ident: &str, args: &PathArgs) -> (r: Result<TsType, ()>)
    ensures
        match r {
            Ok(v) => spec_with_args(ident@, *args) == Some(ts_view(v)),
            Err(_) => spec_with_args(ident@, *args) is None,
        },
    decreases *args, 1int,
{
    if contains_cow(ident) {
        let text = match args {
            PathArgs::Angle { args } => {
                if args.len() >= 2 {
                    let t = convert_generic(&args[1]);
                    t.ts_type
                } else {
                    "string".to_owned()
                }
            },
            _ => "string".to_owned(),
        };
        Ok(TsType { ts_type: text, is_optional: false })
    } else if str_eq(ident, "Option") {
        let text = match args {
            PathArgs::Angle { args } => {
                if args.len() >= 1 {
                    let t = convert_generic(&args[0]);
                    t.ts_type
                } else {
                    "unknown".to_owned()
                }
            },
            _ => "unknown".to_owned(),
        };
        Ok(TsType { ts_type: text, is_optional: true })
    } else if str_eq(ident, "Vec") {
        let text = match args {
            PathArgs::Angle { args } => {
                if args.len() >= 1 {
                    let t = convert_generic(&args[0]);
                    let mut s = String::new();
                    s.append("Array<");
                    let flat = flatten_optional(t);
                    s.append(flat.as_str());
                    s.append(">");
                    proof {
                        assert(s@ =~= "Array<"@ + opt_flat(map_generic(args@[0])) + ">"@);
                    }
                    s
                } else {
                    "unknown".to_owned()
                }
            },
            _ => "unknown".to_owned(),
        };
        Ok(TsType { ts_type: text, is_optional: false })
    } else if str_eq(ident, "HashMap") {
        let text = match args {
            PathArgs::Angle { args } => {
                let parts = flat_generic_texts(args);
                let joined = join_strings(parts, ", ");
                let mut s = String::new();
                s.append("Record<");
                s.append(joined.as_str());
                s.append(">");
                proof {
                    assert(s@ =~= "Record<"@ + join_texts(gen_args_flat(args@), ", "@) + ">"@);
                }
                s
            },
            _ => "unknown".to_owned(),
        };
        Ok(TsType { ts_type: text, is_optional: false })
    } else {
        Err(())
    }
}

/// Passes a nominal type reference through, its generic arguments mapped
/// and rendered as an angle-bracket list; `Err` for parenthesized
/// argument lists.
pub fn extract_custom_type(ident: &str, args: &PathArgs) -> (r: Result<TsType, ()>)
    ensures
        match r {
            Ok(v) => spec_custom(ident@, *args) == Some(ts_view(v)),
            Err(_) => spec_custom(ident@, *args) is None,
        },
    decreases *args, 0int,
{
    match args {
        PathArgs::NoArgs => Ok(TsType { ts_type: ident.to_owned(), is_optional: false }),
        PathArgs::Angle { args } => {
            let parts = flat_generic_texts(args);
            let joined = join_strings(parts, ", ");
            let mut s = ident.to_owned();
            s.append("<");
            s.append(joined.as_str());
            s.append(">");
            proof {
                assert(s@ =~= ident@ + "<"@ + join_texts(gen_args_flat(args@), ", "@) + ">"@);
            }
            Ok(TsType { ts_type: s, is_optional: false })
        },
        PathArgs::Paren => Err(()),
    }
}

fn flat_tuple_texts(elems: &Vec<TypeExpr>) -> (r: Vec<String>)
    ensures
        r.deep_view() == tuple_flat(elems@),
    decreases elems@, 0int,
{
    let n = elems.len();
    let mut out: Vec<String> = Vec::new();
    proof {
        assert(elems@.take(0) =~= Seq::<TypeExpr>::empty());
        assert(out.deep_view() =~~= tuple_flat(elems@.take(0)));
    }
    let mut i: usize = 0;
    while i < n
        invariant
            0 <= i <= n,
            n == elems@.len(),
            out.deep_view() == tuple_flat(elems@.take(i as int)),
        decreases n - i,
    {
        let t = convert_type(&elems[i]);
        let flat = flatten_optional(t);
        let ghost dv0 = out.deep_view();
        let ghost v0 = out@;
        out.push(flat);
        proof {
            assert(out@ == v0.push(flat));
            assert(forall|k: int| 0 <= k < v0.len() ==> out@[k] == #[trigger] v0[k]);
            assert(out.deep_view() =~~= dv0.push(flat@));
            assert(elems@.take(i + 1).drop_last() =~= elems@.take(i as int));
            assert(elems@.take(i + 1).last() == elems@[i as int]);
            assert(out.deep_view() =~~= tuple_flat(elems@.take(i + 1)));
        }
        i = i + 1;
    }
    proof {
        assert(elems@.take(n as int) =~= elems@);
    }
    out
}

/// Maps one source type expression to its target form.
pub fn convert_type(t: &TypeExpr) -> (r: TsType)
    ensures
        ts_view(r) == map_type(*t),
    decreases *t, 2int,
{
    match t {
        TypeExpr::Ref { inner } => convert_type(inner),
        TypeExpr::Path { ident, args } => {
            match try_match_ident_str(ident.as_str()) {
                Ok(s) => TsType { ts_type: s, is_optional: false },
                Err(_) => {
                    match try_match_with_args(ident.as_str(), args) {
                        Ok(v) => v,
                        Err(_) => {
                            match extract_custom_type(ident.as_str(), args) {
                                Ok(v) => v,
                                Err(_) => unknown_ts(),
                            }
                        },
                    }
                },
            }
        },
        TypeExpr::Tuple { elems } => {
            let parts = flat_tuple_texts(elems);
            let joined = join_strings(parts, ", ");
            let mut s = String::new();
            s.append("[");
            s.append(joined.as_str());
            s.append("]");
            proof {
                assert(s@ =~= "["@ + join_texts(tuple_flat(elems@), ", "@) + "]"@);
            }
            TsType { ts_type: s, is_optional: false }
        },
        TypeExpr::Opaque => unknown_ts(),
    }
}

} // verus!
