use vstd::prelude::*;
use crate::ir::{FileId, SyntaxPtr};
use crate::name::Name;

verus! {

/// The mathematical content of a missing-fields diagnostic: the file, the
/// byte range of the literal's field-list node, and the bytes of the omitted
/// names, in declaration order.
#[verifier::ext_equal]
pub ghost struct DiagView {
    pub file: int,
    pub list_start: int,
    pub list_end: int,
    pub missed_fields: Seq<Seq<u8>>,
}

/// A record literal omitted declared fields. Points at the literal's
/// field-list syntax node and lists the omitted names in the record's
/// declaration order. Immutable once made.
pub struct MissingFields {
    pub file: FileId,
    pub field_list: SyntaxPtr,
    pub missed_fields: Vec<Name>,
}

impl View for MissingFields {
    type V = DiagView;

    open spec fn view(&self) -> DiagView {
        DiagView {
            file: self.file as int,
            list_start: self.field_list.start as int,
            list_end: self.field_list.end as int,
            missed_fields: self.missed_fields@.map_values(|n: Name| n@),
        }
    }
}

/// Collects diagnostics in emission order. Aggregation and rendering live
/// outside this pass: the sink only receives.
pub struct DiagnosticSink {
    pub diags: Vec<MissingFields>,
}

impl View for DiagnosticSink {
    type V = Seq<DiagView>;

    open spec fn view(&self) -> Seq<DiagView> {
        self.diags@.map_values(|d: MissingFields| d@)
    }
}

impl DiagnosticSink {
    /// An empty sink.
    pub fn new() -> (s: DiagnosticSink)
        ensures
            s@ == Seq::<DiagView>::empty(),
    {
        let s = DiagnosticSink { diags: Vec::new() };
        proof {
            assert(s@ =~= Seq::<DiagView>::empty());
        }
        s
    }

    /// How many diagnostics the sink holds.
    pub fn len(&self) -> (n: usize)
        ensures
            n == self@.len(),
    {
        self.diags.len()
    }

    /// Appends one diagnostic; everything already in the sink stays as it is.
    pub fn push(&mut self, d: MissingFields)
        ensures
            final(self)@ == old(self)@.push(d@),
    {
        self.diags.push(d);
        proof {
            assert(self@ =~= old(self)@.push(d@));
        }
    }
}

} // verus!
