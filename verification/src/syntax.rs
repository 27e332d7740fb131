use vstd::prelude::*;
use crate::ir::SyntaxPtr;
use ra_syntax::ast::AstNode;

verus! {

/// What parsing a file's text finds at one node range: the range of the
/// named field list of the record literal whose node spans exactly the given
/// range, where that node is such a literal and carries a field list.
pub uninterp spec fn field_list_in(text: Seq<char>, start: int, end: int) -> Option<(int, int)>;

/// Recovers the field-list syntax node of the record literal behind a source
/// pointer, as a byte range in the file's text, where the pointed-at node is
/// such a literal; otherwise nothing, and the caller drops its diagnostic.
///
/// Relies on `ra_syntax::File::parse`, `ra_syntax::algo::find_covering_node`,
/// `ra_syntax::ast::StructLit::cast` and the literal's `NamedFieldList`
/// child: parsing is a function of the text alone, so what is recovered at a
/// given range is too. `TextRange::from_to` aborts on a range whose start
/// lies past its end, and `find_covering_node` aborts on a range past the
/// parsed text, so the pointer must be an ordered range within the text;
/// the text's character count bounds its byte count from below.
#[verifier::external_body]
pub(crate) fn resolve_field_list(text: &str, ptr: SyntaxPtr) -> (r: Option<SyntaxPtr>)
    requires
        ptr.start <= ptr.end,
        ptr.end as int <= text@.len(),
    ensures
        (match r {
            Some(p) => field_list_in(text@, ptr.start as int, ptr.end as int) == Some(
                (p.start as int, p.end as int),
            ),
            None => field_list_in(text@, ptr.start as int, ptr.end as int) is None,
        }),
{
    let file = ra_syntax::File::parse(text);
    let range = ra_syntax::TextRange::from_to(
        ra_syntax::TextUnit::from(ptr.start),
        ra_syntax::TextUnit::from(ptr.end),
    );
    let node = ra_syntax::algo::find_covering_node(file.syntax(), range);
    if node.range() != range {
        return None;
    }
    let lit = ra_syntax::ast::StructLit::cast(node)?;
    let list = lit.syntax().children().find_map(ra_syntax::ast::NamedFieldList::cast)?;
    let lr = list.syntax().range();
    Some(SyntaxPtr { start: lr.start().into(), end: lr.end().into() })
}

} // verus!
