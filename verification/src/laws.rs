//! Laws of the translation, stated and proved once for all inputs.

use vstd::prelude::*;
use crate::attrs::spec_get_attribute_arg;
use crate::emit_enums::{select_repr, EnumRepr};
use crate::items::generated_output;
use crate::model::{BuildSettings, EnumDecl, GenericArg, PathArgs, SourceItem, TypeExpr};
use crate::typescript::{map_generic, map_type, opt_flat, option_body, prim_lookup, spec_with_args, vec_body, MappedTy};

verus! {

/// Law: the output is a function of the declarations and the settings
/// alone, so regenerating from unchanged input under the same settings
/// reproduces the previous output byte for byte.
pub proof fn lemma_generation_deterministic(
    items: Seq<SourceItem>,
    settings: BuildSettings,
    first: Seq<char>,
    second: Seq<char>,
)
    requires
        first == generated_output(items, settings),
        second == generated_output(items, settings),
    ensures
        first == second,
{
}

/// Law: every identifier of the fixed primitive table maps to its table
/// entry, and the mapped type is never optional.
pub proof fn lemma_primitive_table_roundtrip(ident: String)
    requires
        prim_lookup(ident@) is Some,
    ensures
        map_type((TypeExpr::Path { ident, args: PathArgs::NoArgs })).text == prim_lookup(
            ident@,
        )->Some_0,
        !map_type((TypeExpr::Path { ident, args: PathArgs::NoArgs })).optional,
{
}

proof fn lemma_neq_len(a: Seq<char>, b: Seq<char>)
    requires
        a.len() != b.len(),
    ensures
        a != b,
{
}

proof fn lemma_neq_char_at(a: Seq<char>, b: Seq<char>, i: int)
    requires
        0 <= i < a.len(),
        0 <= i < b.len(),
        a[i] != b[i],
    ensures
        a != b,
{
}

proof fn lemma_vec_ident_is_container(id: Seq<char>)
    requires
        id == "Vec"@,
    ensures
        prim_lookup(id) is None,
        !crate::strings::spec_contains_cow(id),
        id != "Option"@,
{
    reveal_strlit("Vec");
    reveal_strlit("i8");
    reveal_strlit("u8");
    reveal_strlit("i16");
    reveal_strlit("u16");
    reveal_strlit("i32");
    reveal_strlit("u32");
    reveal_strlit("i64");
    reveal_strlit("u64");
    reveal_strlit("i128");
    reveal_strlit("u128");
    reveal_strlit("isize");
    reveal_strlit("usize");
    reveal_strlit("f32");
    reveal_strlit("f64");
    reveal_strlit("bool");
    reveal_strlit("char");
    reveal_strlit("str");
    reveal_strlit("String");
    reveal_strlit("NaiveDateTime");
    reveal_strlit("DateTime");
    reveal_strlit("Uuid");
    reveal_strlit("Option");
    reveal_strlit("Cow");
    lemma_neq_len(id, "i8"@);
    lemma_neq_len(id, "u8"@);
    lemma_neq_char_at(id, "i16"@, 0);
    lemma_neq_char_at(id, "u16"@, 0);
    lemma_neq_char_at(id, "i32"@, 0);
    lemma_neq_char_at(id, "u32"@, 0);
    lemma_neq_char_at(id, "i64"@, 0);
    lemma_neq_char_at(id, "u64"@, 0);
    lemma_neq_len(id, "i128"@);
    lemma_neq_len(id, "u128"@);
    lemma_neq_len(id, "isize"@);
    lemma_neq_len(id, "usize"@);
    lemma_neq_char_at(id, "f32"@, 0);
    lemma_neq_char_at(id, "f64"@, 0);
    lemma_neq_len(id, "bool"@);
    lemma_neq_len(id, "char"@);
    lemma_neq_char_at(id, "str"@, 0);
    lemma_neq_len(id, "String"@);
    lemma_neq_len(id, "NaiveDateTime"@);
    lemma_neq_len(id, "DateTime"@);
    lemma_neq_len(id, "Uuid"@);
    lemma_neq_len(id, "Option"@);
    assert forall|i: int| 0 <= i && i + 3 <= id.len() implies #[trigger] id.subrange(i, i + 3)
        != "Cow"@ by {
        assert(id.subrange(i, i + 3)[0] == id[i]);
        assert(i == 0);
        lemma_neq_char_at(id.subrange(i, i + 3), "Cow"@, 0);
    }
}

proof fn lemma_option_ident_is_optional(id: Seq<char>)
    requires
        id == "Option"@,
    ensures
        prim_lookup(id) is None,
        !crate::strings::spec_contains_cow(id),
{
    reveal_strlit("Option");
    reveal_strlit("i8");
    reveal_strlit("u8");
    reveal_strlit("i16");
    reveal_strlit("u16");
    reveal_strlit("i32");
    reveal_strlit("u32");
    reveal_strlit("i64");
    reveal_strlit("u64");
    reveal_strlit("i128");
    reveal_strlit("u128");
    reveal_strlit("isize");
    reveal_strlit("usize");
    reveal_strlit("f32");
    reveal_strlit("f64");
    reveal_strlit("bool");
    reveal_strlit("char");
    reveal_strlit("str");
    reveal_strlit("String");
    reveal_strlit("NaiveDateTime");
    reveal_strlit("DateTime");
    reveal_strlit("Uuid");
    reveal_strlit("Cow");
    lemma_neq_len(id, "i8"@);
    lemma_neq_len(id, "u8"@);
    lemma_neq_len(id, "i16"@);
    lemma_neq_len(id, "u16"@);
    lemma_neq_len(id, "i32"@);
    lemma_neq_len(id, "u32"@);
    lemma_neq_len(id, "i64"@);
    lemma_neq_len(id, "u64"@);
    lemma_neq_len(id, "i128"@);
    lemma_neq_len(id, "u128"@);
    lemma_neq_len(id, "isize"@);
    lemma_neq_len(id, "usize"@);
    lemma_neq_len(id, "f32"@);
    lemma_neq_len(id, "f64"@);
    lemma_neq_len(id, "bool"@);
    lemma_neq_len(id, "char"@);
    lemma_neq_len(id, "str"@);
    lemma_neq_char_at(id, "String"@, 0);
    lemma_neq_len(id, "NaiveDateTime"@);
    lemma_neq_len(id, "DateTime"@);
    lemma_neq_len(id, "Uuid"@);
    assert forall|i: int| 0 <= i && i + 3 <= id.len() implies #[trigger] id.subrange(i, i + 3)
        != "Cow"@ by {
        assert(id.subrange(i, i + 3)[0] == id[i]);
        assert(0 <= i <= 3);
        assert(id[0] == 'O' && id[1] == 'p' && id[2] == 't' && id[3] == 'i');
        lemma_neq_char_at(id.subrange(i, i + 3), "Cow"@, 0);
    }
}

/// Law: mapping an array whose element is wrapped in the optional wrapper
/// flattens the optionality into the element position, as the element
/// type widened with the undefined marker; the array type itself is not
/// optional.
pub proof fn lemma_optional_flattening(arr: TypeExpr, opt: TypeExpr, elem: TypeExpr)
    requires
        arr matches (TypeExpr::Path { ident: vid, args: PathArgs::Angle { args: vargs } })
            && vid@ == "Vec"@ && vargs@ == seq![(GenericArg::Ty { ty: opt })],
        opt matches (TypeExpr::Path { ident: oid, args: PathArgs::Angle { args: oargs } })
            && oid@ == "Option"@ && oargs@.len() >= 1 && oargs@[0] == (GenericArg::Ty { ty: elem }),
    ensures
        map_type(arr).text == "Array<"@ + map_type(elem).text + " | undefined"@ + ">"@,
        !map_type(arr).optional,
{
    let vid = arr->Path_ident;
    let oid = opt->Path_ident;
    lemma_vec_ident_is_container(vid@);
    lemma_option_ident_is_optional(oid@);
    assert(prim_lookup(oid@) is None);
    assert(!crate::strings::spec_contains_cow(oid@));
    assert(spec_with_args(oid@, opt->Path_args) == Some(
        MappedTy { text: option_body(opt->Path_args), optional: true },
    ));
    assert(map_type(opt) == (MappedTy { text: option_body(opt->Path_args), optional: true }));
    assert(option_body(opt->Path_args) == map_generic((GenericArg::Ty { ty: elem })).text);
    assert(map_type(opt).optional);
    assert(map_type(opt).text == map_type(elem).text);
    assert(spec_with_args(vid@, arr->Path_args) == Some(
        MappedTy { text: vec_body(arr->Path_args), optional: false },
    ));
    assert(map_type(arr) == (MappedTy { text: vec_body(arr->Path_args), optional: false }));
    assert(vec_body(arr->Path_args) == "Array<"@ + opt_flat(map_generic((GenericArg::Ty {
        ty: opt,
    }))) + ">"@);
}

/// Law: representation precedence.  The untagged flag wins over everything
/// else; and a tag, absent the untagged flag, always selects internal
/// tagging, never the all-unit union, whatever shapes the variants have.
pub proof fn lemma_representation_precedence(d: EnumDecl)
    ensures
        spec_get_attribute_arg(d.attrs@, "serde"@, "untagged"@) is Some ==> select_repr(d)
            is Untagged,
        spec_get_attribute_arg(d.attrs@, "serde"@, "untagged"@) is None && spec_get_attribute_arg(
            d.attrs@,
            "serde"@,
            "tag"@,
        ) is Some ==> select_repr(d) is Internal,
{
}

} // verus!
