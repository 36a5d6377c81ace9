//! The text of a rendered document, assembled from its pages' texts.
use vstd::prelude::*;
use crate::text::{join_spaced, lemma_join_push};

verus! {

/// Why the text of a rendered document could not be had.
#[derive(Debug, Clone, Copy, PartialEq, Eq)]
pub enum ExtractError {
    /// The document library could be bound neither at its configured path nor system-wide.
    LibraryUnavailable,
    /// The rendered bytes could not be loaded as a document.
    DocumentUnreadable,
    /// A page failed to give its text.
    PageTextFailed,
}

/// Whether every page gave its text.
pub open spec fn all_pages_read(ps: Seq<Option<String>>) -> bool {
    forall|i: int| 0 <= i < ps.len() ==> (#[trigger] ps[i]) is Some
}

/// The texts of the pages, in page order.
pub open spec fn page_views(ps: Seq<Option<String>>) -> Seq<Seq<char>> {
    ps.map_values(|p: Option<String>| match p {
        Some(s) => s@,
        None => seq![],
    })
}

/// Joins the texts of the pages with single spaces, in page order. A page
/// that failed to give its text fails the whole document.
pub fn document_text(pages: &Vec<Option<String>>) -> (r: Result<String, ExtractError>)
    ensures
        r is Err <==> !all_pages_read(pages@),
        r matches Err(e) ==> e == ExtractError::PageTextFailed,
        r matches Ok(t) ==> t@ == join_spaced(page_views(pages@)),
{
    let mut out = String::new();
    let mut i: usize = 0;
    while i < pages.len()
        invariant
            0 <= i <= pages@.len(),
            forall|j: int| 0 <= j < i ==> (#[trigger] pages@[j]) is Some,
            out@ == join_spaced(page_views(pages@).take(i as int)),
        decreases pages@.len() - i,
    {
        match &pages[i] {
            Some(p) => {
                proof {
                    let vs = page_views(pages@);
                    assert(vs.take(i + 1) =~= vs.take(i as int).push(p@));
                    lemma_join_push(vs.take(i as int), p@);
                }
                if i > 0 {
                    proof {
                        reveal_strlit(" ");
                    }
                    out.append(" ");
                }
                out.append(p.as_str());
            },
            None => {
                return Err(ExtractError::PageTextFailed);
            },
        }
        i = i + 1;
    }
    proof {
        assert(page_views(pages@).take(i as int) =~= page_views(pages@));
    }
    Ok(out)
}

/// The pages' texts come out in page order: for two pages, the text of the
/// first, a space, then the text of the second.
pub proof fn lemma_two_pages_in_order(p1: Seq<char>, p2: Seq<char>)
    ensures
        join_spaced(seq![p1, p2]) == p1 + seq![' '] + p2,
{
    let ps = seq![p1, p2];
    assert(ps.drop_last() =~= seq![p1]);
    assert(join_spaced(seq![p1]) == p1);
    assert(ps.last() == p2);
}

} // verus!
