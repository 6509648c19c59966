use crate::models::Cat;
use vstd::prelude::*;

verus! {

/// Most records that one page lists.
pub const ROW_LIMIT: usize = 64;

/// The site name that every page shows.
pub const SITE_NAME: &'static str = "Catdex";

pub open spec fn site_name() -> Seq<char> {
    seq!['C', 'a', 't', 'd', 'e', 'x']
}

/// The records that a page lists when the store returned `rows`: the first
/// `ROW_LIMIT` of them, in the order the store gave.
pub open spec fn listed(rows: Seq<Cat>) -> Seq<Cat> {
    if rows.len() <= ROW_LIMIT {
        rows
    } else {
        rows.take(ROW_LIMIT as int)
    }
}

/// What the index template is rendered from.
pub struct PageView {
    pub project_name: String,
    pub cats: Vec<Cat>,
}

impl PageView {
    /// This view is the page for the store's answer `rows`.
    pub open spec fn is_page_of(&self, rows: Seq<Cat>) -> bool {
        &&& self.project_name@ == site_name()
        &&& self.cats@ == listed(rows)
    }
}

/// Builds the page for the rows that the listing query returned, keeping
/// at most `ROW_LIMIT` of them.
pub fn build_page(rows: Vec<Cat>) -> (page: PageView)
    ensures
        page.is_page_of(rows@),
{
    let mut cats = rows;
    cats.truncate(ROW_LIMIT);
    let project_name = SITE_NAME.to_string();
    proof {
        broadcast use vstd::string::to_string_from_display_ensures_for_str;
        reveal_strlit("Catdex");
        assert(project_name@ =~= site_name());
        assert(cats@ =~= listed(rows@));
    }
    PageView { project_name, cats }
}

/// A page lists as many records as the store returned, up to `ROW_LIMIT`,
/// each one the record that the store returned at that position.
pub proof fn lemma_page_lists_store_rows(rows: Seq<Cat>, page: PageView)
    requires
        page.is_page_of(rows),
    ensures
        page.cats@.len() == if rows.len() <= ROW_LIMIT { rows.len() } else { ROW_LIMIT as nat },
        forall|i: int| 0 <= i < page.cats@.len() ==> page.cats@[i] == rows[i],
{
}

} // verus!
