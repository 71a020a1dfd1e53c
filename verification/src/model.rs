//! The declaration model: what the translation engine reads of a source
//! declaration.  An external parser hands the application structured
//! declarations; the application converts them into these plain values.

use vstd::prelude::*;

verus! {

/// One `name = value` entry of an attribute's argument list; the value is
/// the raw token text of the right-hand side, quotes included.
pub struct NameValue {
    pub name: String,
    pub value: String,
}

/// The parsed parenthesized argument list of an attribute.
pub enum AttrArgs {
    /// Parsed as `name = value` pairs, as in `rename_all = "camelCase"`.
    NameValues { pairs: Vec<NameValue> },
    /// Parsed as bare comma-separated expressions, as in a derive list;
    /// each entry holds the leading identifier when the expression is a
    /// plain path, and `None` otherwise.
    Exprs { idents: Vec<Option<String>> },
    /// The argument list could not be parsed in either shape.
    Unparsed,
}

/// The payload of one attribute.
pub enum AttrPayload {
    /// A bare marker, as in the translation marker attribute itself.
    Plain,
    /// A `name = value` attribute; doc comments take this shape.  Each
    /// entry is the raw text of one literal token of the value.
    NameValue { literals: Vec<String> },
    /// A parenthesized list, as in a configuration attribute.
    List { args: AttrArgs },
}

/// One attribute of a declaration, field or variant.
pub struct Attr {
    /// The path of the attribute, one identifier per segment.
    pub segments: Vec<String>,
    pub payload: AttrPayload,
}

/// One generic argument of a path type.
pub enum GenericArg {
    /// A type argument.
    Ty { ty: TypeExpr },
    /// A lifetime, const or other non-type argument.
    NotType,
}

/// The arguments of the final segment of a path type.
pub enum PathArgs {
    /// No argument list at all.
    NoArgs,
    /// An angle-bracketed argument list.
    Angle { args: Vec<GenericArg> },
    /// A parenthesized (function-like) argument list.
    Paren,
}

/// A source type expression, as far as the mapper reads it.
pub enum TypeExpr {
    /// A path type, reduced to its final segment's identifier and
    /// arguments.
    Path { ident: String, args: PathArgs },
    /// A tuple type.
    Tuple { elems: Vec<TypeExpr> },
    /// A reference, always unwrapped to the referenced type.
    Ref { inner: Box<TypeExpr> },
    /// Anything else (slices, function pointers, ...); mapped to the
    /// unknown placeholder.
    Opaque,
}

/// A named (struct-style) field.
pub struct NamedField {
    pub name: String,
    pub ty: TypeExpr,
    pub attrs: Vec<Attr>,
}

/// A positional (tuple-style) field.
pub struct TupleField {
    pub ty: TypeExpr,
    pub attrs: Vec<Attr>,
}

/// The field list of a struct or variant.
pub enum FieldList {
    Named { fields: Vec<NamedField> },
    Unnamed { fields: Vec<TupleField> },
    Unit,
}

impl FieldList {
    /// True iff the list holds no field at all.
    pub open spec fn spec_is_empty(&self) -> bool {
        match self {
            FieldList::Named { fields } => fields.len() == 0,
            FieldList::Unnamed { fields } => fields.len() == 0,
            FieldList::Unit => true,
        }
    }

    /// Answers whether the list holds no field at all.
    #[verifier::when_used_as_spec(spec_is_empty)]
    pub fn is_empty(&self) -> (r: bool)
        ensures
            r == self.spec_is_empty(),
    {
        match self {
            FieldList::Named { fields } => fields.len() == 0,
            FieldList::Unnamed { fields } => fields.len() == 0,
            FieldList::Unit => true,
        }
    }
}

/// One variant of an enum declaration.
pub struct EnumVariant {
    pub name: String,
    pub fields: FieldList,
    /// The raw token text of an explicit discriminant, when present.
    pub discriminant: Option<String>,
    pub attrs: Vec<Attr>,
}

/// A struct declaration.
pub struct StructDecl {
    pub name: String,
    pub generics: Vec<String>,
    pub attrs: Vec<Attr>,
    pub fields: FieldList,
}

/// An enum declaration.
pub struct EnumDecl {
    pub name: String,
    pub generics: Vec<String>,
    pub attrs: Vec<Attr>,
    pub variants: Vec<EnumVariant>,
}

/// A type alias declaration.
pub struct TypeAliasDecl {
    pub name: String,
    pub attrs: Vec<Attr>,
    pub ty: TypeExpr,
}

/// The right-hand side of a constant declaration.
pub enum ConstExpr {
    /// A literal token, kept as its raw text.
    Literal { text: String },
    /// A macro invocation: the path segments of the macro's name, and the
    /// raw text of its argument tokens.
    MacroCall { segments: Vec<String>, tokens: String },
    /// Any other expression; such constants are skipped.
    Other,
}

/// A constant declaration.
pub struct ConstDecl {
    pub name: String,
    pub attrs: Vec<Attr>,
    pub expr: ConstExpr,
}

/// One top-level item of a source file.
pub enum SourceItem {
    Struct { decl: StructDecl },
    Enum { decl: EnumDecl },
    TypeAlias { decl: TypeAliasDecl },
    Const { decl: ConstDecl },
    /// Items of any other kind are passed over.
    Other,
}

/// How the output is written.
#[derive(Clone, Copy)]
pub struct BuildSettings {
    /// True when the output is an ambient declaration file (no `export`
    /// keywords, constants skipped); false for a module file.
    pub uses_type_interface: bool,
    /// Emit numeric enums as `const enum` declarations.
    pub enable_const_enums: bool,
}

} // verus!
