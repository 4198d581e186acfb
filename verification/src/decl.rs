//! The input side of the processor: plain-value representations of the
//! parsed top-level declarations handed in by the host-language front end.
//! Only the structure that the validators actually read is kept.

use vstd::prelude::*;

verus! {

/// How one parsed variant of a tagged union carries its payload.
#[derive(Debug, Clone, PartialEq, Eq)]
pub enum VariantFields {
    /// No payload at all (unit form).
    Unit,
    /// An ordered list of unnamed payload types, each given by its source
    /// text.
    Positional(Vec<String>),
    /// Named payload fields. The validator rejects this form outright, so
    /// nothing of its contents is carried over.
    Named,
}

/// One parsed variant of a tagged-union declaration.
#[derive(Debug, Clone, PartialEq, Eq)]
pub struct VariantDecl {
    pub name: String,
    pub fields: VariantFields,
}

/// The visibility a declaration was parsed with. It is copied verbatim
/// into the built signature and never inspected.
#[derive(Debug, Clone, Copy, PartialEq, Eq)]
pub enum Visibility {
    Public,
    Restricted,
    Inherited,
}

/// One generic parameter of a parsed function declaration, reduced to its
/// kind; only whether it is a lifetime matters to the validator.
#[derive(Debug, Clone, Copy, PartialEq, Eq)]
pub enum GenericParam {
    Lifetime,
    Type,
    Const,
}

/// One parsed statement of a function body, reduced to its kind.
#[derive(Debug, Clone, Copy, PartialEq, Eq)]
pub enum StmtDecl {
    /// A local variable binding.
    LocalBinding,
    /// A type or function declared inside the body.
    NestedItem,
    /// A value-producing expression statement.
    Expression,
    /// An expression statement closed by a trailing effect marker.
    TrailingExpression,
}

/// One parsed function declaration: the modifiers and generic parameters
/// that the five signature constraints examine, the pieces copied into the
/// built signature, and the body statements.
#[derive(Debug, Clone, PartialEq, Eq)]
pub struct FnDecl {
    pub vis: Visibility,
    pub name: String,
    pub is_unsafe: bool,
    pub is_const: bool,
    pub is_async: bool,
    pub has_custom_abi: bool,
    pub is_variadic: bool,
    pub generics: Vec<GenericParam>,
    /// The declared return type's source text, if the declaration has one.
    pub ret: Option<String>,
    pub body: Vec<StmtDecl>,
}

/// One top-level declaration, as classified by its syntactic kind.
#[derive(Debug, Clone, PartialEq, Eq)]
pub enum Decl {
    /// A tagged-union declaration, given by its variants in order.
    TaggedUnion(Vec<VariantDecl>),
    /// A function declaration.
    Function(FnDecl),
    /// Any other kind of declaration; silently skipped.
    Other,
}

} // verus!
