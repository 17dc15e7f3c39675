//! The render function: a pure mapping from the application state to a
//! description of the desired page — a container wrapping a list whose
//! entries all carry one fixed placeholder label. An external engine
//! reconciles this description against the live page.

use vstd::prelude::*;
use crate::Item;
use crate::state::Model;

verus! {

/// One list entry of the rendered page, with its text label.
#[derive(Debug, Clone, PartialEq, Eq)]
pub struct ListEntry {
    pub label: String,
}

impl View for ListEntry {
    type V = Seq<char>;

    open spec fn view(&self) -> Seq<char> {
        self.label@
    }
}

/// The list container of the rendered page.
#[derive(Debug, Clone, PartialEq, Eq)]
pub struct ListNode {
    pub entries: Vec<ListEntry>,
}

impl View for ListNode {
    type V = Seq<Seq<char>>;

    open spec fn view(&self) -> Seq<Seq<char>> {
        self.entries@.map_values(|e: ListEntry| e@)
    }
}

/// The whole rendered page: a top-level container holding the list. Its
/// abstract content is the sequence of entry labels.
#[derive(Debug, Clone, PartialEq, Eq)]
pub struct PageNode {
    pub list: ListNode,
}

impl View for PageNode {
    type V = Seq<Seq<char>>;

    open spec fn view(&self) -> Seq<Seq<char>> {
        self.list@
    }
}

/// The fixed label that every rendered entry carries, whatever the item
/// holds.
pub open spec fn spec_placeholder() -> Seq<char> {
    "yondayo"@
}

/// The fixed label that every rendered entry carries.
pub fn placeholder() -> (s: &'static str)
    ensures
        s@ == spec_placeholder(),
{
    "yondayo"
}

/// What rendering a state describes: no entries while no fetch has
/// completed, and one placeholder entry per stored item afterwards.
pub open spec fn spec_render(m: Option<Seq<Item>>) -> Seq<Seq<char>> {
    match m {
        None => Seq::empty(),
        Some(items) => items.map_values(|it: Item| spec_placeholder()),
    }
}

/// Render the state as a page description. An absent item list yields an
/// empty list container; a present one yields one entry per item, each
/// carrying the fixed placeholder label and nothing of the item itself.
pub fn view(model: &Model) -> (page: PageNode)
    ensures
        page@ == spec_render(model@),
        model@ is None ==> page.list.entries@.len() == 0,
        model@ matches Some(items) ==> page.list.entries@.len() == items.len() && (forall|i: int|
            0 <= i < items.len() ==> page.list.entries@[i]@ == spec_placeholder()),
{
    let mut entries: Vec<ListEntry> = Vec::new();
    match &model.items {
        None => {},
        Some(items) => {
            let mut i: usize = 0;
            while i < items.len()
                invariant
                    i <= items@.len(),
                    entries@.len() == i,
                    forall|j: int| 0 <= j < i ==> entries@[j]@ == spec_placeholder(),
                decreases items@.len() - i,
            {
                entries.push(ListEntry { label: String::from_str(placeholder()) });
                i += 1;
            }
        },
    }
    let page = PageNode { list: ListNode { entries } };
    proof {
        assert(page@ =~= spec_render(model@));
    }
    page
}

/// Law: rendering is deterministic, so repeated renderings of one and the
/// same state describe structurally identical pages.
pub proof fn lemma_render_deterministic(m: Option<Seq<Item>>, a: Seq<Seq<char>>, b: Seq<Seq<char>>)
    requires
        a == spec_render(m),
        b == spec_render(m),
    ensures
        a == b,
{
}

} // verus!
