//! The annotated method block, as plain values: what the analyzer reads of it.
use vstd::prelude::*;

use crate::tokens::Tok;

verus! {

/// One outer attribute: the identifier its path consists of (none when the
/// path has several segments), the tokens after the path, and its full text.
#[derive(Debug)]
pub struct SourceAttr {
    pub name: Option<String>,
    pub args: Vec<Tok>,
    pub text: String,
}

/// How an argument binds its value.
#[derive(Debug)]
pub enum ArgPattern {
    /// A plain identifier, maybe with `ref`.
    Ident { name: String, by_ref: bool },
    /// A destructuring pattern or anything else.
    Other,
}

/// The declared type of an argument: its text and, for a reference type, the
/// text of the type referred to.
#[derive(Debug)]
pub struct SourceType {
    pub text: String,
    pub referent: Option<String>,
}

/// One input of a method signature.
#[derive(Debug)]
pub enum SourceInput {
    /// `self`, `&self`, `&mut self` or with an explicit lifetime `&'a self`.
    Receiver { reference: bool, mutable: bool, lifetime: bool },
    /// An ordinary argument.
    Typed { attrs: Vec<SourceAttr>, pattern: ArgPattern, ty: SourceType },
}

/// A method signature.
#[derive(Debug)]
pub struct SourceSig {
    pub is_const: bool,
    pub is_async: bool,
    pub is_unsafe: bool,
    pub has_abi: bool,
    pub has_generics: bool,
    pub is_variadic: bool,
    pub name: String,
    pub inputs: Vec<SourceInput>,
    /// The return type, when one is written.
    pub output: Option<String>,
}

/// A method of the block.
#[derive(Debug)]
pub struct SourceMethod {
    pub is_default: bool,
    pub attrs: Vec<SourceAttr>,
    pub sig: SourceSig,
}

/// One segment of a type path: its identifier and the text of its generic
/// arguments (empty when it has none).
#[derive(Debug)]
pub struct PathSegment {
    pub ident: String,
    pub args: String,
}

/// The type that the block implements methods for.
#[derive(Debug)]
pub enum SelfType {
    Path { qself: bool, segments: Vec<PathSegment> },
    Other,
}

/// An `impl` block: its modifiers, its type, its generic parameters (the text
/// between `impl` and the type, empty when there are none), the predicates of
/// its `where` clause, and its methods in order.
#[derive(Debug)]
pub struct SourceImpl {
    pub is_default: bool,
    pub is_unsafe: bool,
    pub is_trait_impl: bool,
    pub self_ty: SelfType,
    pub generic_params: String,
    pub where_predicates: Vec<String>,
    pub methods: Vec<SourceMethod>,
}

} // verus!
