use vstd::prelude::*;
use std::sync::Arc;
use crate::diagnostics::{DiagView, DiagnosticSink, MissingFields};
use crate::ir::{Database, Expr, ExprId, FnData, Function, InferenceResult, Path, RecordId,
    StructLitField, Ty, TypeRef};
use crate::name::Name;
use crate::name_set::{name_set_contents, NameSet};
use crate::syntax::{field_list_in, resolve_field_list};

verus! {

/// The set of field names a literal writes, as byte strings; duplicates
/// collapse into one entry.
pub open spec fn written_views(fields: Seq<StructLitField>) -> Set<Seq<u8>>
    decreases fields.len(),
{
    if fields.len() == 0 {
        Set::empty()
    } else {
        written_views(fields.drop_last()).insert(fields.last().name@)
    }
}

/// The declared names that a written set omits, in declaration order.
pub open spec fn missed_views(declared: Seq<Name>, written: Set<Seq<u8>>) -> Seq<Seq<u8>>
    decreases declared.len(),
{
    if declared.len() == 0 {
        Seq::empty()
    } else {
        let rest = missed_views(declared.drop_last(), written);
        if written.contains(declared.last()@) {
            rest
        } else {
            rest.push(declared.last()@)
        }
    }
}

/// Where the source map and the file's syntax recover a field-list node for
/// an expression: the map's pointer for it, resolved in the file's text.
pub open spec fn recovered_field_list(db: Database, fd: FnData, id: int) -> Option<(int, int)> {
    match fd.source_map@[id] {
        Some(ptr) => field_list_in(db.files@[fd.file as int]@, ptr.start as int, ptr.end as int),
        None => None,
    }
}

/// The diagnostic, if any, that the field check emits for one record
/// literal: nothing under a spread, nothing when the literal's type is not a
/// record, nothing when no declared field is omitted, and nothing when the
/// field-list node cannot be recovered; otherwise the omitted names, in
/// declaration order, at the recovered node.
pub open spec fn struct_lit_diag(
    db: Database,
    func: Function,
    infer: InferenceResult,
    id: int,
    fields: Seq<StructLitField>,
    spread: Option<ExprId>,
) -> Option<DiagView> {
    match spread {
        Some(_) => None,
        None => match infer.types@[id] {
            Ty::Record(def) => {
                let missed = missed_views(db.records@[def as int].fields@, written_views(fields));
                if missed.len() == 0 {
                    None
                } else {
                    let fd = db.functions@[func.id as int];
                    match recovered_field_list(db, fd, id) {
                        Some(r) => Some(
                            DiagView {
                                file: fd.file as int,
                                list_start: r.0,
                                list_end: r.1,
                                missed_fields: missed,
                            },
                        ),
                        None => None,
                    }
                }
            },
            Ty::Other => None,
        },
    }
}

/// The diagnostic, if any, for the expression at one body position: record
/// literals are checked, every other expression is skipped.
pub open spec fn expr_diag(db: Database, func: Function, infer: InferenceResult, id: int) -> Option<
    DiagView,
> {
    match db.functions@[func.id as int].body@[id] {
        Expr::StructLit { path, fields, spread } => struct_lit_diag(
            db,
            func,
            infer,
            id,
            fields@,
            spread,
        ),
        Expr::Other => None,
    }
}

/// A sequence of zero or one elements out of an optional value.
pub open spec fn opt_seq<A>(o: Option<A>) -> Seq<A> {
    match o {
        Some(a) => seq![a],
        None => Seq::empty(),
    }
}

/// The diagnostics of the first `n` body expressions, in body order.
pub open spec fn diags_upto(db: Database, func: Function, infer: InferenceResult, n: int) -> Seq<
    DiagView,
>
    decreases n,
{
    if n <= 0 {
        Seq::empty()
    } else {
        diags_upto(db, func, infer, n - 1) + opt_seq(expr_diag(db, func, infer, n - 1))
    }
}

/// Everything one validation of the function's body emits, in emission
/// order: the diagnostics of its record literals, in body order.
pub open spec fn validate_diags(db: Database, func: Function, infer: InferenceResult) -> Seq<
    DiagView,
> {
    diags_upto(db, func, infer, db.functions@[func.id as int].body@.len() as int)
}

/// Every pointer a function's source map records is an ordered range within
/// its file's text: what the recovery of a syntax node needs of a pointer
/// handed to it.
pub open spec fn source_map_wf(fd: FnData, db: Database) -> bool {
    forall|i: int|
        0 <= i < fd.source_map@.len() ==> match #[trigger] fd.source_map@[i] {
            Some(p) => p.start <= p.end && p.end as int <= db.files@[fd.file as int]@.len(),
            None => true,
        }
}

/// Every record type the inference result mentions resolves in the database.
pub open spec fn infer_wf(infer: InferenceResult, db: Database) -> bool {
    forall|i: int|
        0 <= i < infer.types@.len() ==> match #[trigger] infer.types@[i] {
            Ty::Record(def) => def < db.records@.len(),
            Ty::Other => true,
        }
}

/// What one validation run is owed by its callers: the function resolves in
/// the database, inference covers exactly its body, the source map runs
/// beside the body with well-formed pointers, the function's file resolves,
/// and inferred record types resolve.
pub open spec fn valid_inputs(db: Database, func: Function, infer: InferenceResult) -> bool {
    &&& func.id < db.functions@.len()
    &&& db.functions@[func.id as int].body@.len() == infer.types@.len()
    &&& db.functions@[func.id as int].source_map@.len() == infer.types@.len()
    &&& db.functions@[func.id as int].file < db.files@.len()
    &&& source_map_wf(db.functions@[func.id as int], db)
    &&& infer_wf(infer, db)
}

/// The reserved name of the fallible-outcome wrapper type: `Outcome`.
pub open spec fn outcome_name() -> Seq<u8> {
    seq![79u8, 117u8, 116u8, 99u8, 111u8, 109u8, 101u8]
}

/// The success-type argument of a declared return type, where that type is a
/// path whose last segment names the fallible-outcome wrapper and carries at
/// least one generic argument; otherwise nothing.
pub open spec fn success_type_of(ret: TypeRef) -> Option<TypeRef> {
    match ret {
        TypeRef::Path(path) => {
            if path.segments@.len() == 0 {
                None
            } else {
                let last = path.segments@.last();
                if last.name@ == outcome_name() {
                    match last.args_and_bindings {
                        Some(ga) => if ga.args@.len() >= 1 {
                            Some(ga.args@[0])
                        } else {
                            None
                        },
                        None => None,
                    }
                } else {
                    None
                }
            }
        },
        TypeRef::Other => None,
    }
}

/// The written set holds exactly the names the literal writes, wherever and
/// however often they are written.
pub proof fn lemma_written_views_contains(fields: Seq<StructLitField>, v: Seq<u8>)
    ensures
        written_views(fields).contains(v) <==> (exists|k: int|
            0 <= k < fields.len() && fields[k].name@ == v),
    decreases fields.len(),
{
    if fields.len() > 0 {
        lemma_written_views_contains(fields.drop_last(), v);
        if written_views(fields).contains(v) && fields.last().name@ != v {
            let k = choose|k: int|
                0 <= k < fields.drop_last().len() && fields.drop_last()[k].name@ == v;
            assert(fields[k].name@ == v);
        }
        if exists|k: int| 0 <= k < fields.len() && fields[k].name@ == v {
            let k = choose|k: int| 0 <= k < fields.len() && fields[k].name@ == v;
            if k < fields.len() - 1 {
                assert(fields.drop_last()[k].name@ == v);
            }
        }
    }
}

/// Law: a record that declares no fields is never missing any: the missed
/// list of an empty declaration is empty, whatever the literal writes.
pub proof fn lemma_no_declared_fields_none_missed(written: Set<Seq<u8>>)
    ensures
        missed_views(Seq::<Name>::empty(), written) == Seq::<Seq<u8>>::empty(),
{
}

/// Law: a record literal written with a spread is never flagged, whatever
/// fields it writes and whatever its type declares.
pub proof fn lemma_spread_never_flagged(
    db: Database,
    func: Function,
    infer: InferenceResult,
    id: int,
    fields: Seq<StructLitField>,
    spread: Option<ExprId>,
)
    requires
        spread is Some,
    ensures
        struct_lit_diag(db, func, infer, id, fields, spread) is None,
{
}

/// Law: an expression whose inferred type does not resolve to a record
/// definition is never flagged, however it is written.
pub proof fn lemma_unresolved_type_never_flagged(
    db: Database,
    func: Function,
    infer: InferenceResult,
    id: int,
    fields: Seq<StructLitField>,
    spread: Option<ExprId>,
)
    requires
        infer.types@[id] is Other,
    ensures
        struct_lit_diag(db, func, infer, id, fields, spread) is None,
{
}

/// Law: a literal that writes every declared field is never flagged: in any
/// written order and with any duplicates, nothing is missed.
pub proof fn lemma_all_written_none_missed(declared: Seq<Name>, written: Set<Seq<u8>>)
    requires
        forall|i: int| 0 <= i < declared.len() ==> written.contains(#[trigger] declared[i]@),
    ensures
        missed_views(declared, written).len() == 0,
    decreases declared.len(),
{
    if declared.len() > 0 {
        assert forall|i: int| 0 <= i < declared.drop_last().len() implies written.contains(
            #[trigger] declared.drop_last()[i]@,
        ) by {
            assert(declared.drop_last()[i] == declared[i]);
        }
        lemma_all_written_none_missed(declared.drop_last(), written);
        assert(written.contains(declared.last()@));
    }
}

/// Law: a record literal of a record type that declares no fields is never
/// flagged.
pub proof fn lemma_no_declared_fields_never_flagged(
    db: Database,
    func: Function,
    infer: InferenceResult,
    id: int,
    fields: Seq<StructLitField>,
    spread: Option<ExprId>,
)
    requires
        (infer.types@[id] matches Ty::Record(def) ==> db.records@[def as int].fields@.len() == 0),
    ensures
        struct_lit_diag(db, func, infer, id, fields, spread) is None,
{
}

/// Law: a record literal that writes every field its record type declares
/// is never flagged, in any written order and with any duplicates.
pub proof fn lemma_all_written_never_flagged(
    db: Database,
    func: Function,
    infer: InferenceResult,
    id: int,
    fields: Seq<StructLitField>,
    spread: Option<ExprId>,
)
    requires
        (infer.types@[id] matches Ty::Record(def) ==> forall|i: int|
            0 <= i < db.records@[def as int].fields@.len() ==> written_views(fields).contains(
                #[trigger] db.records@[def as int].fields@[i]@,
            )),
    ensures
        struct_lit_diag(db, func, infer, id, fields, spread) is None,
{
    if spread is None {
        match infer.types@[id] {
            Ty::Record(def) => {
                lemma_all_written_none_missed(
                    db.records@[def as int].fields@,
                    written_views(fields),
                );
            },
            Ty::Other => {},
        }
    }
}

/// Law: a literal omitting declared fields is flagged with exactly the
/// omitted ones, in the record's declaration order, not the written order:
/// the missed list is the declared list, kept in order, filtered to the
/// names the written set omits.
pub proof fn lemma_missed_views_exact(declared: Seq<Name>, written: Set<Seq<u8>>)
    ensures
        missed_views(declared, written) == declared.map_values(|n: Name| n@).filter(
            |v: Seq<u8>| !written.contains(v),
        ),
    decreases declared.len(),
{
    reveal(Seq::filter);
    let m = declared.map_values(|n: Name| n@);
    if declared.len() == 0 {
        assert(m =~= Seq::<Seq<u8>>::empty());
    } else {
        lemma_missed_views_exact(declared.drop_last(), written);
        assert(m.drop_last() =~= declared.drop_last().map_values(|n: Name| n@));
        assert(m.last() == declared.last()@);
    }
}

/// Law: a declared name is missed exactly when the literal does not write
/// it: membership in the missed list is membership in the declaration less
/// the written set.
pub proof fn lemma_missed_views_complete(declared: Seq<Name>, written: Set<Seq<u8>>, v: Seq<u8>)
    ensures
        missed_views(declared, written).contains(v) <==> ((exists|i: int|
            0 <= i < declared.len() && declared[i]@ == v) && !written.contains(v)),
    decreases declared.len(),
{
    broadcast use vstd::seq_lib::lemma_seq_contains_after_push;

    if declared.len() > 0 {
        lemma_missed_views_complete(declared.drop_last(), written, v);
        if exists|i: int| 0 <= i < declared.drop_last().len() && declared.drop_last()[i]@ == v {
            let i = choose|i: int|
                0 <= i < declared.drop_last().len() && declared.drop_last()[i]@ == v;
            assert(declared[i]@ == v);
        }
        if exists|i: int| 0 <= i < declared.len() && declared[i]@ == v {
            let i = choose|i: int| 0 <= i < declared.len() && declared[i]@ == v;
            if i < declared.len() - 1 {
                assert(declared.drop_last()[i]@ == v);
            }
        }
    }
}

/// Law: diagnostic emission is idempotent per validation run: with the same
/// function, database and inference result, a re-run appends the very same
/// diagnostic sequence, so sinks that agree before the runs agree after
/// them.
pub proof fn lemma_validate_idempotent(
    db: Database,
    func: Function,
    infer: InferenceResult,
    before1: Seq<DiagView>,
    after1: Seq<DiagView>,
    before2: Seq<DiagView>,
    after2: Seq<DiagView>,
)
    requires
        after1 == before1 + validate_diags(db, func, infer),
        after2 == before2 + validate_diags(db, func, infer),
        before1 == before2,
    ensures
        after1 == after2,
{
}

/// Whether a name is `Outcome`, the reserved name of the fallible-outcome
/// wrapper type.
pub fn is_outcome_name(n: &Name) -> (r: bool)
    ensures
        r == (n@ == outcome_name()),
{
    let b = n.as_bytes();
    if b.len() != 7 {
        return false;
    }
    let r = b[0] == 79 && b[1] == 117 && b[2] == 116 && b[3] == 99 && b[4] == 111 && b[5] == 109
        && b[6] == 101;
    proof {
        if r {
            assert(n@ =~= outcome_name());
        }
    }
    r
}

/// Walks one function's body and reports what the checks find into its sink.
pub struct ExprValidator {
    pub func: Function,
    pub infer: Arc<InferenceResult>,
    pub sink: DiagnosticSink,
}

impl ExprValidator {
    /// A validator for one function, holding the completed inference result
    /// for that function and the sink that receives the diagnostics.
    pub fn new(func: Function, infer: Arc<InferenceResult>, sink: DiagnosticSink) -> (v:
        ExprValidator)
        ensures
            v.func == func,
            v.infer == infer,
            v.sink == sink,
    {
        ExprValidator { func, infer, sink }
    }

    /// Checks one record literal: where it omits declared fields and its
    /// field-list node can be recovered, pushes one missing-fields
    /// diagnostic; in every other case the sink is left as it is.
    pub fn validate_struct_literal(
        &mut self,
        id: ExprId,
        _path: &Option<Path>,
        fields: &Vec<StructLitField>,
        spread: Option<ExprId>,
        db: &Database,
    )
        requires
            valid_inputs(*db, old(self).func, *old(self).infer),
            id < old(self).infer.types@.len(),
        ensures
            final(self).func == old(self).func,
            final(self).infer == old(self).infer,
            final(self).sink@ == old(self).sink@ + opt_seq(
                struct_lit_diag(*db, old(self).func, *old(self).infer, id as int, fields@, spread),
            ),
    {
        if spread.is_some() {
            proof {
                assert(self.sink@ =~= self.sink@ + opt_seq(struct_lit_diag(*db, self.func, *self.infer, id as int, fields@, spread)));
            }
            return ;
        }
        let def: RecordId = match self.infer.type_of(id) {
            Ty::Record(d) => *d,
            Ty::Other => {
                proof {
                    assert(self.sink@ =~= self.sink@ + opt_seq(struct_lit_diag(*db, self.func, *self.infer, id as int, fields@, spread)));
                }
                return ;
            },
        };
        proof {
            assert(def < db.records@.len());
        }
        let mut written = NameSet::new();
        let mut i: usize = 0;
        while i < fields.len()
            invariant
                i <= fields@.len(),
                name_set_contents(written) == written_views(fields@.take(i as int)),
            decreases fields@.len() - i,
        {
            written.insert(&fields[i].name);
            proof {
                let post = fields@.take(i + 1);
                assert(post.drop_last() =~= fields@.take(i as int));
                assert(post.last() == fields@[i as int]);
            }
            i = i + 1;
        }
        proof {
            assert(fields@.take(fields@.len() as int) =~= fields@);
        }
        let declared = db.record_fields(def);
        let mut missed: Vec<Name> = Vec::new();
        let mut j: usize = 0;
        while j < declared.len()
            invariant
                j <= declared@.len(),
                declared@ == db.records@[def as int].fields@,
                name_set_contents(written) == written_views(fields@),
                missed@.map_values(|n: Name| n@) == missed_views(
                    declared@.take(j as int),
                    written_views(fields@),
                ),
            decreases declared@.len() - j,
        {
            if !written.contains(&declared[j]) {
                missed.push(declared[j].duplicate());
            }
            proof {
                let post = declared@.take(j + 1);
                assert(post.drop_last() =~= declared@.take(j as int));
                assert(post.last() == declared@[j as int]);
                assert(missed@.map_values(|n: Name| n@) =~= missed_views(
                    post,
                    written_views(fields@),
                ));
            }
            j = j + 1;
        }
        proof {
            assert(declared@.take(declared@.len() as int) =~= declared@);
        }
        let ghost missed_spec = missed_views(declared@, written_views(fields@));
        proof {
            assert(missed@.map_values(|n: Name| n@) == missed_spec);
            assert(missed@.len() == missed_spec.len());
        }
        if missed.len() == 0 {
            proof {
                assert(self.sink@ =~= self.sink@ + opt_seq(struct_lit_diag(*db, self.func, *self.infer, id as int, fields@, spread)));
            }
            return ;
        }
        let fidx = self.func.id;
        let fd = &db.functions[fidx];
        let ptr = match fd.source_map[id] {
            Some(p) => p,
            None => {
                proof {
                    assert(self.sink@ =~= self.sink@ + opt_seq(struct_lit_diag(*db, self.func, *self.infer, id as int, fields@, spread)));
                }
                return ;
            },
        };
        let text = &db.files[fd.file];
        proof {
            assert(fd.source_map@[id as int] == Some(ptr));
            assert(ptr.start <= ptr.end && ptr.end as int <= db.files@[fd.file as int]@.len());
        }
        match resolve_field_list(text.as_str(), ptr) {
            Some(flp) => {
                let file = fd.file;
                let d = MissingFields { file, field_list: flp, missed_fields: missed };
                proof {
                    assert(d@ =~= struct_lit_diag(*db, self.func, *self.infer, id as int, fields@, spread).unwrap());
                }
                self.sink.push(d);
                proof {
                    assert(self.sink@ =~= old(self).sink@ + opt_seq(struct_lit_diag(*db, self.func, *self.infer, id as int, fields@, spread)));
                }
            },
            None => {
                proof {
                    assert(self.sink@ =~= self.sink@ + opt_seq(struct_lit_diag(*db, self.func, *self.infer, id as int, fields@, spread)));
                }
            },
        }
    }

    /// Inspects the tail expression's place against the function's declared
    /// return type: where that type names the fallible-outcome wrapper with
    /// generic arguments, yields its success-type argument. Whether the tail
    /// expression's inferred type agrees with that argument is a structural
    /// judgment this pass does not make, so no diagnostic is emitted here.
    pub fn validate_results_in_tail_expr<'a>(
        &self,
        _id: ExprId,
        _expr: &Expr,
        db: &'a Database,
    ) -> (r: Option<&'a TypeRef>)
        requires
            self.func.id < db.functions@.len(),
        ensures
            (match r {
                Some(t) => success_type_of(db.functions@[self.func.id as int].ret_type) == Some(*t),
                None => success_type_of(db.functions@[self.func.id as int].ret_type) is None,
            }),
    {
        let fd = &db.functions[self.func.id];
        match &fd.ret_type {
            TypeRef::Path(path) => {
                if path.segments.len() == 0 {
                    return None;
                }
                let last = &path.segments[path.segments.len() - 1];
                if !is_outcome_name(&last.name) {
                    return None;
                }
                match &last.args_and_bindings {
                    Some(ga) => {
                        if ga.args.len() < 1 {
                            None
                        } else {
                            Some(&ga.args[0])
                        }
                    },
                    None => None,
                }
            },
            TypeRef::Other => None,
        }
    }

    /// Validates the function's body: walks the expressions in body order,
    /// checks each record literal, and, where the body is non-empty, inspects
    /// the tail expression last. Appends to the sink exactly the diagnostics
    /// of the body's record literals, in body order.
    pub fn validate_body(&mut self, db: &Database)
        requires
            valid_inputs(*db, old(self).func, *old(self).infer),
        ensures
            final(self).func == old(self).func,
            final(self).infer == old(self).infer,
            final(self).sink@ == old(self).sink@ + validate_diags(
                *db,
                old(self).func,
                *old(self).infer,
            ),
    {
        let fidx = self.func.id;
        let n = db.functions[fidx].body.len();
        proof {
            assert(self.sink@ =~= self.sink@ + diags_upto(*db, self.func, *self.infer, 0));
        }
        let mut i: usize = 0;
        while i < n
            invariant
                i <= n,
                fidx == self.func.id,
                n == db.functions@[fidx as int].body@.len(),
                self.func == old(self).func,
                self.infer == old(self).infer,
                valid_inputs(*db, self.func, *self.infer),
                self.sink@ == old(self).sink@ + diags_upto(*db, self.func, *self.infer, i as int),
            decreases n - i,
        {
            match &db.functions[fidx].body[i] {
                Expr::StructLit { path, fields, spread } => {
                    let sp: Option<ExprId> = *spread;
                    self.validate_struct_literal(i, path, fields, sp, db);
                    proof {
                        assert(expr_diag(*db, self.func, *self.infer, i as int)
                            == struct_lit_diag(*db, self.func, *self.infer, i as int, fields@, sp));
                    }
                },
                Expr::Other => {
                    proof {
                        assert(expr_diag(*db, self.func, *self.infer, i as int) is None);
                    }
                },
            }
            proof {
                assert(self.sink@ =~= old(self).sink@ + diags_upto(
                    *db,
                    self.func,
                    *self.infer,
                    i + 1,
                ));
            }
            i = i + 1;
        }
        if n > 0 {
            let _r = self.validate_results_in_tail_expr(n - 1, &db.functions[fidx].body[n - 1], db);
        }
    }
}

} // verus!
