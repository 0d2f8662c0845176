//! The hover chain: the ordered record of currently-expanded submenu
//! levels beyond the root panel.
//!
//! The chain is a sequence of entries, one per open level, indexed from
//! zero: the entry at index zero is the first submenu below the root.
//! Because every transition only truncates the chain at its tail or
//! appends at its tail, the open levels always form a contiguous prefix:
//! a level can only be open if every shallower level is open.

use crate::item::clone_items;
use crate::item::items_model;
use crate::item::ContextMenuItems;
use crate::item::MenuItemModel;
use vstd::prelude::*;

verus! {

/// One currently-expanded submenu level: the key of the item whose
/// submenu is open, the submenu's items, the coordinates the submenu
/// panel is anchored at, and the handle under which the rendering layer
/// resolves the panel's live element.
pub struct HoverChainEntry<H> {
    pub key: String,
    pub items: ContextMenuItems<H>,
    pub x: i32,
    pub y: i32,
    pub panel: u64,
}

/// The hover chain itself, ordered by level.
pub type HoverItems<H> = Vec<HoverChainEntry<H>>;

/// The mathematical model of a hover-chain entry.
pub struct HoverEntryModel<H> {
    pub key: Seq<char>,
    pub items: Seq<MenuItemModel<H>>,
    pub x: i32,
    pub y: i32,
    pub panel: u64,
}

impl<H> View for HoverChainEntry<H> {
    type V = HoverEntryModel<H>;

    open spec fn view(&self) -> HoverEntryModel<H> {
        HoverEntryModel {
            key: self.key@,
            items: items_model(self.items@),
            x: self.x,
            y: self.y,
            panel: self.panel,
        }
    }
}

impl<H: Copy> Clone for HoverChainEntry<H> {
    /// A deep copy: the clone's model equals the source entry's.
    fn clone(&self) -> (res: Self)
        ensures
            res@ == self@,
    {
        HoverChainEntry {
            key: self.key.clone(),
            items: clone_items(&self.items),
            x: self.x,
            y: self.y,
            panel: self.panel,
        }
    }
}

/// A deep copy of a hover chain, preserving its model.
pub fn clone_entries<H: Copy>(entries: &HoverItems<H>) -> (res: HoverItems<H>)
    ensures
        chain_model(res@) == chain_model(entries@),
{
    let n: usize = entries.len();
    let mut res: HoverItems<H> = Vec::new();
    let mut i: usize = 0;
    while i < n
        invariant
            n == entries@.len(),
            i <= n,
            res@.len() == i,
            forall|j: int| 0 <= j < i ==> #[trigger] res@[j]@ == entries@[j]@,
        decreases n - i,
    {
        let e = entries[i].clone();
        res.push(e);
        i = i + 1;
    }
    proof {
        assert(chain_model(res@) =~= chain_model(entries@));
    }
    res
}

/// The models of a hover chain's entries, ordered by level.
pub open spec fn chain_model<H>(s: Seq<HoverChainEntry<H>>) -> Seq<HoverEntryModel<H>> {
    Seq::new(s.len(), |i: int| if 0 <= i < s.len() {
        s[i]@
    } else {
        vstd::pervasive::arbitrary()
    })
}

/// Whether hovering `item` at `level` leaves the chain as it stands: the
/// item has a submenu and that submenu is already the deepest open level.
/// Treating this case as a no-op avoids re-rendering (and re-positioning)
/// an already-open branch on repeated hovers of the same item.
pub open spec fn hover_noop<H>(
    chain: Seq<HoverEntryModel<H>>,
    item: MenuItemModel<H>,
    level: int,
) -> bool {
    &&& item.children is Some
    &&& chain.len() == level + 1
    &&& chain.last().key == item.key
}

/// The chain entry that hovering `item` appends: the item's key and child
/// items, the anchor coordinates of the submenu panel, and the panel
/// handle allocated for it.
pub open spec fn hover_entry<H>(
    item: MenuItemModel<H>,
    x: i32,
    y: i32,
    panel: u64,
) -> HoverEntryModel<H> {
    HoverEntryModel { key: item.key, items: item.children->0, x, y, panel }
}

/// The hover transition. Hovering `item` at `level` with the pointer at
/// `(x, y)`:
/// - leaves the chain unchanged when the item's submenu is already the
///   deepest open level;
/// - otherwise truncates the chain to `level` entries when it is deeper
///   than `level`, closing the levels below a newly-hovered sibling;
/// - then appends one entry for the item's submenu when the item has one,
///   and appends nothing when it is a leaf.
pub open spec fn hover_spec<H>(
    chain: Seq<HoverEntryModel<H>>,
    item: MenuItemModel<H>,
    x: i32,
    y: i32,
    panel: u64,
    level: int,
) -> Seq<HoverEntryModel<H>> {
    if hover_noop(chain, item, level) {
        chain
    } else {
        let t = if chain.len() > level {
            chain.take(level)
        } else {
            chain
        };
        if item.children is Some {
            t.push(hover_entry(item, x, y, panel))
        } else {
            t
        }
    }
}

/// The hover chain never acquires a gap: every entry of the chain after a
/// hover transition, except possibly the newly appended last one, stands
/// unchanged at the level it already occupied. Open levels therefore
/// always form a contiguous prefix starting at level zero.
pub proof fn lemma_hover_chain_contiguous<H>(
    chain: Seq<HoverEntryModel<H>>,
    item: MenuItemModel<H>,
    x: i32,
    y: i32,
    panel: u64,
    level: int,
)
    requires
        0 <= level,
    ensures
        forall|i: int|
            0 <= i < hover_spec(chain, item, x, y, panel, level).len() ==> (#[trigger] hover_spec(
                chain,
                item,
                x,
                y,
                panel,
                level,
            )[i] == chain[i] || i == hover_spec(chain, item, x, y, panel, level).len() - 1),
{
}

/// Hovering the item whose submenu is already the deepest open level is
/// idempotent: the chain is unchanged, and in particular no entry (and no
/// panel handle) is allocated for it anew.
pub proof fn lemma_hover_idempotent<H>(
    chain: Seq<HoverEntryModel<H>>,
    item: MenuItemModel<H>,
    x: i32,
    y: i32,
    panel: u64,
    level: int,
)
    requires
        item.children is Some,
        chain.len() == level + 1,
        chain.last().key == item.key,
    ensures
        hover_spec(chain, item, x, y, panel, level) == chain,
{
}

/// Hovering a sibling at a level the chain is currently deeper than
/// truncates the chain to exactly that level before anything is appended:
/// the shallower levels survive unchanged, and what was open below the
/// hovered level is closed.
pub proof fn lemma_hover_truncates<H>(
    chain: Seq<HoverEntryModel<H>>,
    item: MenuItemModel<H>,
    x: i32,
    y: i32,
    panel: u64,
    level: int,
)
    requires
        0 <= level < chain.len(),
        !hover_noop(chain, item, level),
    ensures
        forall|i: int|
            0 <= i < level ==> #[trigger] hover_spec(chain, item, x, y, panel, level)[i]
                == chain[i],
        item.children is Some ==> hover_spec(chain, item, x, y, panel, level) == chain.take(
            level,
        ).push(hover_entry(item, x, y, panel)),
        item.children is None ==> hover_spec(chain, item, x, y, panel, level) == chain.take(level),
{
}

/// Panel-handle freshness: the handles recorded in the chain are
/// strictly increasing by level, and all lie below the next handle to be
/// allocated. No two open panels ever share a handle.
pub open spec fn panels_fresh<H>(chain: Seq<HoverEntryModel<H>>, next: int) -> bool {
    &&& forall|i: int, j: int|
        0 <= i < j < chain.len() ==> #[trigger] chain[i].panel < #[trigger] chain[j].panel
    &&& forall|i: int| 0 <= i < chain.len() ==> #[trigger] chain[i].panel < next
}

/// The hover transition preserves panel-handle freshness: truncation
/// only removes entries, an appended entry takes the next handle, and
/// the handle counter never moves backwards. Handles of open panels
/// therefore stay pairwise distinct, and a dismissed panel's handle is
/// never reallocated to a later one.
pub proof fn lemma_hover_preserves_fresh_panels<H>(
    chain: Seq<HoverEntryModel<H>>,
    item: MenuItemModel<H>,
    x: i32,
    y: i32,
    panel: u64,
    level: int,
)
    requires
        panels_fresh(chain, panel as int),
        0 <= level,
    ensures
        panels_fresh(
            hover_spec(chain, item, x, y, panel, level),
            if !hover_noop(chain, item, level) && item.children is Some {
                panel + 1
            } else {
                panel as int
            },
        ),
{
}

/// Hovering a leaf item (one without a submenu) at a level the chain
/// reaches truncates the chain to that level and appends nothing: the
/// chain's length afterwards is exactly the hovered level.
pub proof fn lemma_hover_leaf<H>(
    chain: Seq<HoverEntryModel<H>>,
    item: MenuItemModel<H>,
    x: i32,
    y: i32,
    panel: u64,
    level: int,
)
    requires
        item.children is None,
        0 <= level <= chain.len(),
    ensures
        hover_spec(chain, item, x, y, panel, level) == chain.take(level),
        hover_spec(chain, item, x, y, panel, level).len() == level,
{
    if chain.len() == level {
        assert(chain.take(level) =~= chain);
    }
}

} // verus!
