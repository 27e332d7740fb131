use vstd::prelude::*;
use crate::name::Name;

verus! {

/// Identifies an expression within one body: its position in the body's
/// expression list. Ids are dense and stable for one validation pass, and
/// the body's order is evaluation order, so the last id is the tail.
pub type ExprId = usize;

/// Identifies a source file: an index into the database's file table.
pub type FileId = usize;

/// Identifies a record definition: an index into the database's record table.
pub type RecordId = usize;

/// An opaque handle for a declared function: an index into the database's
/// function table.
#[derive(Clone, Copy, PartialEq, Eq, Structural)]
pub struct Function {
    pub id: usize,
}

/// One written field of a record literal: the field's name and the id of the
/// expression supplying its value.
pub struct StructLitField {
    pub name: Name,
    pub expr: ExprId,
}

/// A body expression. This pass inspects record literals only; every other
/// expression is opaque to it and is carried as `Other`.
pub enum Expr {
    /// A record literal `P { a: e, .. }`: its written type path, its written
    /// fields in written order, and the spread expression of a `..base`
    /// clause, if one is written.
    StructLit { path: Option<Path>, fields: Vec<StructLitField>, spread: Option<ExprId> },
    /// Any other expression.
    Other,
}

/// A syntactic path, reduced to what this pass reads: its segments.
pub struct Path {
    pub segments: Vec<PathSegment>,
}

/// One path segment: a name, with its generic arguments where some are
/// written.
pub struct PathSegment {
    pub name: Name,
    pub args_and_bindings: Option<GenericArgs>,
}

/// Generic arguments written on a path segment, in written order.
pub struct GenericArgs {
    pub args: Vec<TypeRef>,
}

/// The declared, syntactic reference to a type, as written in a signature.
/// Only path references are read by this pass.
pub enum TypeRef {
    Path(Path),
    Other,
}

/// A semantic type as inference computed it. This pass asks one question of
/// it: is it a record type, and of which definition?
pub enum Ty {
    /// A record type of the given definition.
    Record(RecordId),
    /// Anything else, a type this pass does not resolve among them.
    Other,
}

/// A record definition: its declared field names, in declaration order.
pub struct RecordDef {
    pub fields: Vec<Name>,
}

/// The completed result of type inference for one function: the inferred
/// type of each body expression, indexed by `ExprId`. Computed outside this
/// pass and never changed by it.
pub struct InferenceResult {
    pub types: Vec<Ty>,
}

/// A pointer to a concrete syntax node, as a byte range in its file's text.
#[derive(Clone, Copy, PartialEq, Eq, Structural)]
pub struct SyntaxPtr {
    pub start: u32,
    pub end: u32,
}

/// Everything the database holds of one declared function: its body IR, its
/// declared return type, its source file, and the body-to-syntax source map,
/// which may lack an entry for a synthetic expression.
pub struct FnData {
    pub body: Vec<Expr>,
    pub ret_type: TypeRef,
    pub file: FileId,
    pub source_map: Vec<Option<SyntaxPtr>>,
}

/// The validator's read-only world: source texts, function data and record
/// definitions, consulted by lookup only and never changed by validation.
pub struct Database {
    pub files: Vec<String>,
    pub functions: Vec<FnData>,
    pub records: Vec<RecordDef>,
}

impl Database {
    /// The declared field names of a record definition, in declaration order.
    pub fn record_fields(&self, def: RecordId) -> (r: &Vec<Name>)
        requires
            def < self.records@.len(),
        ensures
            r@ == self.records@[def as int].fields@,
    {
        &self.records[def].fields
    }
}

impl InferenceResult {
    /// The inferred type of the given expression. Asking for an id outside
    /// the body the result was computed for is the caller's error, so the id
    /// must be in range.
    pub fn type_of(&self, id: ExprId) -> (r: &Ty)
        requires
            id < self.types@.len(),
        ensures
            *r == self.types@[id as int],
    {
        &self.types[id]
    }
}

} // verus!
