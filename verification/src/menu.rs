//! A context-menu instance: the open/hover state machine across levels,
//! click resolution, and coordination with the process-wide registry.
//!
//! An instance owns its data object, the root item list recomputed from
//! the data each time the menu opens, the hover chain, the current
//! trigger coordinates, and its visibility. All transitions execute
//! synchronously: one event's handling completes before the next is
//! processed.

use crate::chain::chain_model;
use crate::chain::clone_entries;
use crate::chain::hover_entry;
use crate::chain::hover_noop;
use crate::chain::hover_spec;
use crate::chain::HoverChainEntry;
use crate::chain::HoverEntryModel;
use crate::chain::HoverItems;
use crate::item::clone_items;
use crate::item::items_model;
use crate::item::ContextMenuData;
use crate::item::ContextMenuHandler;
use crate::item::ContextMenuItemInner;
use crate::item::ContextMenuItems;
use crate::item::MenuItemModel;
use crate::position::clamp_to_viewport;
use crate::position::clampable;
use crate::position::clamp_x_spec;
use crate::position::clamp_y_spec;
use crate::position::min_ancestor_left;
use crate::position::GeometryProvider;
use crate::position::PanelRect;
use crate::registry::ContextMenuState;
use vstd::pervasive::VecAdditionalExecFns;
use vstd::prelude::*;

verus! {

/// The handle under which the engine's own root panel is measured. Panel
/// handles allocated for submenu levels are always greater.
pub const ROOT_PANEL: u64 = 0;

/// Where a menu instance's visibility flag lives: in the instance itself,
/// or in the slot of a shared registry the instance was registered with
/// (so that opening any registered instance can hide every other one).
#[derive(Clone, Copy)]
pub enum MenuVisibility {
    Local { visible: bool },
    Registered { slot: usize },
}

/// A context-menu instance over a data object of type `T` whose items
/// carry handlers of type `H`.
pub struct ContextMenu<T, H> {
    /// The data object the menu operates over. Handlers are invoked with
    /// exclusive access to it.
    pub data: T,
    /// The root item list, recomputed from `data` each time the menu
    /// opens.
    pub root_items: ContextMenuItems<H>,
    /// The hover chain: one entry per currently-expanded submenu level.
    pub hovered_items: HoverItems<H>,
    /// The trigger coordinates the menu was last opened at.
    pub x: i32,
    /// See `x`.
    pub y: i32,
    /// The instance's visibility flag, or its slot in a shared registry.
    pub vis: MenuVisibility,
    /// The next panel handle to allocate; handles of open panels are
    /// always below it.
    pub next_panel: u64,
}

/// The first item carrying `key`, looked up from index `i` onward.
pub open spec fn find_item_from<H>(
    items: Seq<MenuItemModel<H>>,
    key: Seq<char>,
    i: int,
) -> Option<MenuItemModel<H>>
    decreases items.len() - i,
{
    if i < 0 || i >= items.len() {
        Option::None
    } else if items[i].key == key {
        Option::Some(items[i])
    } else {
        find_item_from(items, key, i + 1)
    }
}

/// The first item carrying `key` in one menu level's item list.
pub open spec fn find_item<H>(items: Seq<MenuItemModel<H>>, key: Seq<char>) -> Option<
    MenuItemModel<H>,
> {
    find_item_from(items, key, 0)
}

/// The first item carrying `key` among the hover chain's open levels,
/// searched from the entry at index `i` onward.
pub open spec fn find_in_chain_from<H>(
    chain: Seq<HoverEntryModel<H>>,
    key: Seq<char>,
    i: int,
) -> Option<MenuItemModel<H>>
    decreases chain.len() - i,
{
    if i < 0 || i >= chain.len() {
        Option::None
    } else {
        match find_item(chain[i].items, key) {
            Option::Some(it) => Option::Some(it),
            Option::None => find_in_chain_from(chain, key, i + 1),
        }
    }
}

/// The item a click on `key` resolves to: the first item carrying the
/// key among the rendered panels, the root level first, then the open
/// submenu levels in order.
pub open spec fn click_target<H>(
    root: Seq<MenuItemModel<H>>,
    chain: Seq<HoverEntryModel<H>>,
    key: Seq<char>,
) -> Option<MenuItemModel<H>> {
    match find_item(root, key) {
        Option::Some(it) => Option::Some(it),
        Option::None => find_in_chain_from(chain, key, 0),
    }
}

impl<T, H> ContextMenu<T, H> where T: ContextMenuData<H>, H: ContextMenuHandler<T> + Copy {
    /// The item a click on `key` against this instance resolves to.
    pub open spec fn spec_click_target(self, key: Seq<char>) -> Option<MenuItemModel<H>> {
        click_target(items_model(self.root_items@), chain_model(self.hovered_items@), key)
    }

    /// The item models of the panel rendered at `level`: the root items
    /// for level zero, an open submenu's items below that, and nothing
    /// when no panel is open at `level`.
    pub open spec fn spec_panel_items(self, level: int) -> Option<Seq<MenuItemModel<H>>> {
        if level == 0 {
            Option::Some(items_model(self.root_items@))
        } else if 1 <= level && level - 1 < self.hovered_items@.len() {
            Option::Some(chain_model(self.hovered_items@)[level - 1].items)
        } else {
            Option::None
        }
    }

    /// The item a hover event addressed by `key` at `level` resolves to:
    /// the first item carrying the key in the panel rendered at that
    /// level.
    pub open spec fn spec_hover_target(self, key: Seq<char>, level: int) -> Option<
        MenuItemModel<H>,
    > {
        match self.spec_panel_items(level) {
            Option::Some(items) => find_item(items, key),
            Option::None => Option::None,
        }
    }

    /// The anchor the panel at `level` prefers: the trigger coordinates
    /// for the root panel, the coordinates recorded in the hover chain
    /// for a submenu panel.
    pub open spec fn spec_anchor(self, level: int) -> (i32, i32) {
        if level == 0 {
            (self.x, self.y)
        } else {
            (self.hovered_items@[level - 1]@.x, self.hovered_items@[level - 1]@.y)
        }
    }

    /// The handle under which the panel at `level` is measured: the
    /// engine's root panel handle at level zero, and the handle recorded
    /// in the hover chain below that.
    pub open spec fn spec_panel_handle(self, level: int) -> u64 {
        if level == 0 {
            ROOT_PANEL
        } else {
            self.hovered_items@[level - 1].panel
        }
    }

    /// One observation of the geometry provider, as
    /// [`Self::position_panel`] makes it, and what the result owes under
    /// it: `rect` is a measurement of the level's panel, `vp` of the
    /// viewport, `root_rect` of the root panel and `rects` of each open
    /// chain panel; `ml` is the leftmost of the measured left edges. The
    /// result is `None` exactly when the level's measurement admits no
    /// in-range clamp at this anchor, and otherwise the clamp of the
    /// anchor under these measurements.
    pub open spec fn position_observation<G: GeometryProvider>(
        self,
        geom: &G,
        level: int,
        result: Option<(i32, i32)>,
        rect: PanelRect,
        vp: (i32, i32),
        root_rect: PanelRect,
        rects: Seq<PanelRect>,
        ml: i32,
    ) -> bool {
        &&& call_ensures(G::measure, (geom, self.spec_panel_handle(level)), rect)
        &&& call_ensures(G::viewport_size, (geom,), vp)
        &&& call_ensures(G::measure, (geom, ROOT_PANEL), root_rect)
        &&& rects.len() == self.hovered_items@.len()
        &&& forall|i: int|
            0 <= i < rects.len() ==> call_ensures(
                G::measure,
                (geom, self.hovered_items@[i].panel),
                #[trigger] rects[i],
            )
        &&& ml <= root_rect.left
        &&& forall|i: int| 0 <= i < rects.len() ==> ml <= #[trigger] rects[i].left
        &&& (ml == root_rect.left || exists|i: int| 0 <= i < rects.len() && ml == rects[i].left)
        &&& (result is None <==> !clampable(
            self.spec_anchor(level).0,
            self.spec_anchor(level).1,
            rect,
            ml,
        ))
        &&& (result matches Option::Some(pos) ==> pos.0 == clamp_x_spec(
            self.spec_anchor(level).0 as int,
            rect.width as int,
            vp.0 as int,
            ml as int,
        ) && pos.1 == clamp_y_spec(
            self.spec_anchor(level).1 as int,
            rect.height as int,
            vp.1 as int,
        ))
    }

    /// A new, hidden menu instance over `data`, not registered with any
    /// shared registry: its visibility is its own.
    pub fn new(data: T) -> (r: Self)
        ensures
            r.data == data,
            call_ensures(T::get_menu_items, (&data,), r.root_items),
            r.hovered_items@.len() == 0,
            r.x == 0 && r.y == 0,
            r.vis == (MenuVisibility::Local { visible: false }),
            r.next_panel == ROOT_PANEL + 1,
    {
        let root_items = data.get_menu_items();
        ContextMenu {
            data,
            root_items,
            hovered_items: Vec::new(),
            x: 0,
            y: 0,
            vis: MenuVisibility::Local { visible: false },
            next_panel: ROOT_PANEL + 1,
        }
    }

    /// A new, hidden menu instance over `data`, registered with the
    /// shared registry `state`: its visibility lives in the registry slot
    /// this returns it under, and opening any registered instance hides
    /// it.
    pub fn new_registered(data: T, state: &mut ContextMenuState) -> (r: Self)
        ensures
            final(state).shows@ == old(state).shows@.push(false),
            r.data == data,
            call_ensures(T::get_menu_items, (&data,), r.root_items),
            r.hovered_items@.len() == 0,
            r.x == 0 && r.y == 0,
            r.vis == (MenuVisibility::Registered { slot: old(state).shows@.len() as usize }),
            r.next_panel == ROOT_PANEL + 1,
    {
        let slot: usize = state.add_menu();
        let root_items = data.get_menu_items();
        ContextMenu {
            data,
            root_items,
            hovered_items: Vec::new(),
            x: 0,
            y: 0,
            vis: MenuVisibility::Registered { slot },
            next_panel: ROOT_PANEL + 1,
        }
    }

    /// Recomputes the root item list from the data object. The hover
    /// chain, coordinates and visibility stand unchanged.
    pub fn render_root_view(&mut self)
        ensures
            call_ensures(T::get_menu_items, (&old(self).data,), final(self).root_items),
            final(self).data == old(self).data,
            final(self).hovered_items == old(self).hovered_items,
            final(self).x == old(self).x,
            final(self).y == old(self).y,
            final(self).vis == old(self).vis,
            final(self).next_panel == old(self).next_panel,
    {
        let root_items = self.data.get_menu_items();
        self.root_items = root_items;
    }

    /// Opens the menu at the trigger coordinates `(x, y)`: whatever the
    /// prior state, the root item list is recomputed from the data, the
    /// hover chain is reset to empty, and the instance becomes visible.
    ///
    /// For an instance registered with a shared registry, use
    /// [`Self::show_registered`].
    pub fn show(&mut self, x: i32, y: i32)
        requires
            old(self).vis is Local,
        ensures
            call_ensures(T::get_menu_items, (&old(self).data,), final(self).root_items),
            final(self).hovered_items@.len() == 0,
            final(self).x == x,
            final(self).y == y,
            final(self).vis == (MenuVisibility::Local { visible: true }),
            final(self).data == old(self).data,
            final(self).next_panel == old(self).next_panel,
    {
        let root_items = self.data.get_menu_items();
        self.root_items = root_items;
        self.hovered_items = Vec::new();
        self.x = x;
        self.y = y;
        self.vis = MenuVisibility::Local { visible: true };
    }

    /// Opens a registered menu at the trigger coordinates `(x, y)`:
    /// every other instance registered with `state` is hidden first, then
    /// the root item list is recomputed, the hover chain is reset to
    /// empty, and this instance alone becomes visible.
    pub fn show_registered(&mut self, state: &mut ContextMenuState, x: i32, y: i32)
        requires
            old(self).vis matches MenuVisibility::Registered { slot } && slot < old(
                state,
            ).shows@.len(),
        ensures
            final(state).shows@.len() == old(state).shows@.len(),
            forall|j: int|
                0 <= j < final(state).shows@.len() ==> final(state).shows@[j] == (j == old(
                    self,
                ).vis->slot),
            call_ensures(T::get_menu_items, (&old(self).data,), final(self).root_items),
            final(self).hovered_items@.len() == 0,
            final(self).x == x,
            final(self).y == y,
            final(self).vis == old(self).vis,
            final(self).data == old(self).data,
            final(self).next_panel == old(self).next_panel,
    {
        let slot: usize = match self.vis {
            MenuVisibility::Registered { slot } => slot,
            MenuVisibility::Local { .. } => {
                proof {
                    assert(false);
                }
                0
            },
        };
        state.hide_all();
        state.shows.set(slot, true);
        let root_items = self.data.get_menu_items();
        self.root_items = root_items;
        self.hovered_items = Vec::new();
        self.x = x;
        self.y = y;
    }

    /// Dismisses the menu on a click outside it: the instance becomes
    /// hidden and the hover chain empties. The root item list is not
    /// altered (it is recomputed fresh on the next open anyway).
    ///
    /// For an instance registered with a shared registry, use
    /// [`Self::outside_click_registered`].
    pub fn outside_click(&mut self)
        requires
            old(self).vis is Local,
        ensures
            final(self).vis == (MenuVisibility::Local { visible: false }),
            final(self).hovered_items@.len() == 0,
            final(self).root_items == old(self).root_items,
            final(self).data == old(self).data,
            final(self).x == old(self).x,
            final(self).y == old(self).y,
            final(self).next_panel == old(self).next_panel,
    {
        self.vis = MenuVisibility::Local { visible: false };
        self.hovered_items = Vec::new();
    }

    /// Dismisses a registered menu on a click outside it: its registry
    /// slot becomes false and the hover chain empties. Other instances'
    /// flags and the root item list are not altered.
    pub fn outside_click_registered(&mut self, state: &mut ContextMenuState)
        requires
            old(self).vis matches MenuVisibility::Registered { slot } && slot < old(
                state,
            ).shows@.len(),
        ensures
            final(state).shows@ == old(state).shows@.update(old(self).vis->slot as int, false),
            final(self).hovered_items@.len() == 0,
            final(self).vis == old(self).vis,
            final(self).root_items == old(self).root_items,
            final(self).data == old(self).data,
            final(self).x == old(self).x,
            final(self).y == old(self).y,
            final(self).next_panel == old(self).next_panel,
    {
        let slot: usize = match self.vis {
            MenuVisibility::Registered { slot } => slot,
            MenuVisibility::Local { .. } => {
                proof {
                    assert(false);
                }
                0
            },
        };
        state.shows.set(slot, false);
        self.hovered_items = Vec::new();
    }

    /// Whether this unregistered instance is visible.
    pub fn is_visible(&self) -> (r: bool)
        requires
            self.vis is Local,
        ensures
            r == self.vis->visible,
    {
        match self.vis {
            MenuVisibility::Local { visible } => visible,
            MenuVisibility::Registered { .. } => {
                proof {
                    assert(false);
                }
                false
            },
        }
    }

    /// Whether this registered instance is visible under `state`.
    pub fn is_visible_in(&self, state: &ContextMenuState) -> (r: bool)
        requires
            self.vis matches MenuVisibility::Registered { slot } && slot < state.shows@.len(),
        ensures
            r == state.shows@[self.vis->slot as int],
    {
        let slot: usize = match self.vis {
            MenuVisibility::Registered { slot } => slot,
            MenuVisibility::Local { .. } => {
                proof {
                    assert(false);
                }
                0
            },
        };
        state.is_shown(slot)
    }

    /// The root item list, as last computed from the data.
    pub fn get_root_items(&self) -> (r: &ContextMenuItems<H>)
        ensures
            *r == self.root_items,
    {
        &self.root_items
    }

    /// The stored hover chain: one entry per currently-expanded submenu
    /// level. For what the rendering layer should draw — which is
    /// nothing while the instance is hidden — see
    /// [`Self::observed_hover_chain`] and
    /// [`Self::observed_hover_chain_in`].
    pub fn get_hover_chain(&self) -> (r: &HoverItems<H>)
        ensures
            *r == self.hovered_items,
    {
        &self.hovered_items
    }

    /// The hover chain as the rendering layer observes it: the stored
    /// chain while the instance is visible, and empty while it is
    /// hidden. Dismissing an instance — by an outside click or by a
    /// sibling instance's open, which hides every other registered
    /// instance — therefore also clears the chain it presents.
    pub open spec fn spec_observed_chain(self, visible: bool) -> Seq<HoverEntryModel<H>> {
        if visible {
            chain_model(self.hovered_items@)
        } else {
            Seq::empty()
        }
    }

    /// The hover chain this unregistered instance presents to the
    /// rendering layer: empty while the instance is hidden.
    pub fn observed_hover_chain(&self) -> (r: HoverItems<H>)
        requires
            self.vis is Local,
        ensures
            chain_model(r@) == self.spec_observed_chain(self.vis->visible),
    {
        if self.is_visible() {
            clone_entries(&self.hovered_items)
        } else {
            proof {
                assert(chain_model(Seq::<HoverChainEntry<H>>::empty()) =~= Seq::<
                    HoverEntryModel<H>,
                >::empty());
            }
            Vec::new()
        }
    }

    /// The hover chain this registered instance presents to the
    /// rendering layer: empty while its registry slot is false — in
    /// particular after a sibling instance's open hid it.
    pub fn observed_hover_chain_in(&self, state: &ContextMenuState) -> (r: HoverItems<H>)
        requires
            self.vis matches MenuVisibility::Registered { slot } && slot < state.shows@.len(),
        ensures
            chain_model(r@) == self.spec_observed_chain(state.shows@[self.vis->slot as int]),
    {
        if self.is_visible_in(state) {
            clone_entries(&self.hovered_items)
        } else {
            proof {
                assert(chain_model(Seq::<HoverChainEntry<H>>::empty()) =~= Seq::<
                    HoverEntryModel<H>,
                >::empty());
            }
            Vec::new()
        }
    }

    /// A sibling's open clears what every other registered instance
    /// shows: opening the instance registered at `opener_slot` leaves
    /// every registry flag false but that one, and an instance whose
    /// flag is false presents an empty hover chain.
    pub proof fn lemma_sibling_open_clears_observed_chain(
        self,
        shows: Seq<bool>,
        opener_slot: int,
        slot: int,
    )
        requires
            forall|j: int| 0 <= j < shows.len() ==> #[trigger] shows[j] == (j == opener_slot),
            self.vis == (MenuVisibility::Registered { slot: slot as usize }),
            0 <= slot < shows.len(),
            slot != opener_slot,
        ensures
            self.spec_observed_chain(shows[slot]) == Seq::<HoverEntryModel<H>>::empty(),
    {
    }

    /// The hover transition: hovering `item` at `level`, with the
    /// submenu anchor `(x, y)` the item would open at.
    ///
    /// Per [`hover_spec`]: hovering the already-open deepest branch is a
    /// no-op; otherwise the chain is truncated to `level` when deeper,
    /// and one entry, under a freshly allocated panel handle, is
    /// appended when the item has a submenu.
    pub fn hover(&mut self, item: &ContextMenuItemInner<H>, x: i32, y: i32, level: usize)
        requires
            old(self).next_panel < u64::MAX,
        ensures
            chain_model(final(self).hovered_items@) == hover_spec(
                chain_model(old(self).hovered_items@),
                item@,
                x,
                y,
                old(self).next_panel,
                level as int,
            ),
            final(self).next_panel == if !hover_noop(
                chain_model(old(self).hovered_items@),
                item@,
                level as int,
            ) && item@.children is Some {
                old(self).next_panel + 1
            } else {
                old(self).next_panel as int
            },
            final(self).data == old(self).data,
            final(self).root_items == old(self).root_items,
            final(self).x == old(self).x,
            final(self).y == old(self).y,
            final(self).vis == old(self).vis,
    {
        let ghost old_chain = chain_model(self.hovered_items@);
        let has_children = item.children.is_some();
        let current: usize = self.hovered_items.len();

        if has_children && current >= 1 && current - 1 == level {
            let same = self.hovered_items[current - 1].key == item.key;
            if same {
                proof {
                    assert(old_chain.last() == self.hovered_items@[current - 1]@);
                    assert(hover_noop(old_chain, item@, level as int));
                }
                return ;
            }
        }
        proof {
            assert(!hover_noop(old_chain, item@, level as int));
        }

        if current > level {
            self.hovered_items.truncate(level);
            proof {
                assert(chain_model(self.hovered_items@) =~= old_chain.take(level as int));
            }
        }

        match &item.children {
            Option::None => {},
            Option::Some(v) => {
                let entry = HoverChainEntry {
                    key: item.key.clone(),
                    items: clone_items(v),
                    x,
                    y,
                    panel: self.next_panel,
                };
                proof {
                    assert(entry@ == hover_entry(item@, x, y, self.next_panel));
                }
                let ghost before = chain_model(self.hovered_items@);
                self.hovered_items.push(entry);
                self.next_panel = self.next_panel + 1;
                proof {
                    assert(chain_model(self.hovered_items@) =~= before.push(entry@));
                }
            },
        }
    }

    /// The clamped position of the panel at `level`, computed from the
    /// geometry the rendering layer reports: the panel's preferred anchor
    /// (see [`Self::spec_anchor`]), its measured size, the viewport size,
    /// and the leftmost left edge among the measured open panels. The
    /// engine assumes nothing about the reported values; the contract
    /// ties the result to one observation of the provider (see
    /// [`Self::position_observation`]): under the measurements actually
    /// taken, the result is the viewport clamp of the anchor, and `None`
    /// comes back exactly when the level's measurement is degenerate (a
    /// negative size) or would overflow the coordinate range.
    pub fn position_panel<G: GeometryProvider>(&self, geom: &G, level: usize) -> (r: Option<
        (i32, i32),
    >)
        requires
            level <= self.hovered_items@.len(),
        ensures
            exists|rect: PanelRect, vp: (i32, i32), root_rect: PanelRect, rects: Seq<PanelRect>, ml: i32|
                self.position_observation(geom, level as int, r, rect, vp, root_rect, rects, ml),
    {
        let (ax, ay): (i32, i32) = if level == 0 {
            (self.x, self.y)
        } else {
            let e = &self.hovered_items[level - 1];
            (e.x, e.y)
        };
        let panel = if level == 0 {
            ROOT_PANEL
        } else {
            self.hovered_items[level - 1].panel
        };
        let rect = geom.measure(panel);
        let vp: (i32, i32) = geom.viewport_size();
        let root_rect = geom.measure(ROOT_PANEL);
        let ghost mut rects_g: Seq<PanelRect> = Seq::empty();
        let mut lefts: Vec<i32> = Vec::new();
        let n: usize = self.hovered_items.len();
        let mut i: usize = 0;
        while i < n
            invariant
                i <= n,
                n == self.hovered_items@.len(),
                lefts@.len() == i,
                rects_g.len() == i,
                forall|j: int|
                    0 <= j < i ==> call_ensures(
                        G::measure,
                        (geom, self.hovered_items@[j].panel),
                        #[trigger] rects_g[j],
                    ),
                forall|j: int| 0 <= j < i ==> #[trigger] rects_g[j].left == lefts@[j],
            decreases n - i,
        {
            let entry_rect = geom.measure(self.hovered_items[i].panel);
            proof {
                rects_g = rects_g.push(entry_rect);
            }
            lefts.push(entry_rect.left);
            i = i + 1;
        }
        let ml = min_ancestor_left(root_rect.left, &lefts);
        proof {
            assert(panel == self.spec_panel_handle(level as int));
            assert(ax == self.spec_anchor(level as int).0);
            assert(ay == self.spec_anchor(level as int).1);
            assert forall|j: int| 0 <= j < rects_g.len() implies ml <= #[trigger] rects_g[j].left by {
                assert(ml <= lefts@[j]);
            };
            if ml != root_rect.left {
                let j = choose|j: int| 0 <= j < lefts@.len() && ml == lefts@[j];
                assert(rects_g[j].left == ml);
            }
        }
        if rect.width >= 0 && rect.height >= 0 && ax <= i32::MAX - rect.width && ay <= i32::MAX
            - rect.height && ay >= i32::MIN + rect.height && ml >= i32::MIN + rect.width {
            let pos = clamp_to_viewport(ax, ay, rect.width, rect.height, vp.0, vp.1, ml);
            proof {
                assert(clampable(ax, ay, rect, ml));
                assert(self.position_observation(
                    geom,
                    level as int,
                    Option::Some(pos),
                    rect,
                    vp,
                    root_rect,
                    rects_g,
                    ml,
                ));
            }
            Option::Some(pos)
        } else {
            proof {
                assert(!clampable(ax, ay, rect, ml));
                assert(self.position_observation(
                    geom,
                    level as int,
                    Option::None,
                    rect,
                    vp,
                    root_rect,
                    rects_g,
                    ml,
                ));
            }
            Option::None
        }
    }

    /// The hover transition addressed by item key, as the event layer
    /// delivers it: the key is looked up in the panel rendered at
    /// `level`, and the hover transition of [`Self::hover`] is applied
    /// to the found item. A key no item of that panel carries leaves the
    /// state unchanged.
    pub fn hover_key(&mut self, key: &String, x: i32, y: i32, level: usize) -> (found: bool)
        requires
            old(self).next_panel < u64::MAX,
        ensures
            found == (old(self).spec_hover_target(key@, level as int) is Some),
            found ==> chain_model(final(self).hovered_items@) == hover_spec(
                chain_model(old(self).hovered_items@),
                old(self).spec_hover_target(key@, level as int)->0,
                x,
                y,
                old(self).next_panel,
                level as int,
            ),
            found ==> final(self).next_panel == if !hover_noop(
                chain_model(old(self).hovered_items@),
                old(self).spec_hover_target(key@, level as int)->0,
                level as int,
            ) && old(self).spec_hover_target(key@, level as int)->0.children is Some {
                old(self).next_panel + 1
            } else {
                old(self).next_panel as int
            },
            !found ==> *final(self) == *old(self),
            final(self).data == old(self).data,
            final(self).root_items == old(self).root_items,
            final(self).x == old(self).x,
            final(self).y == old(self).y,
            final(self).vis == old(self).vis,
    {
        let it: Option<ContextMenuItemInner<H>> = if level == 0 {
            find_item_clone(&self.root_items, key)
        } else if level - 1 < self.hovered_items.len() {
            proof {
                assert(chain_model(self.hovered_items@)[level - 1].items == items_model(
                    self.hovered_items@[level - 1].items@,
                ));
            }
            find_item_clone(&self.hovered_items[level - 1].items, key)
        } else {
            Option::None
        };
        match it {
            Option::Some(item) => {
                self.hover(&item, x, y, level);
                true
            },
            Option::None => false,
        }
    }

    /// Click resolution for the item carrying `key` among the rendered
    /// panels: when that item carries a handler, the handler is invoked
    /// exactly once, with exclusive access to the data object for the
    /// duration of the call; when the item carries none, or no rendered
    /// item carries the key, nothing happens. Chain, coordinates and
    /// visibility are never altered by a click itself.
    pub fn click(&mut self, key: &String) -> (invoked: bool)
        ensures
            invoked == (old(self).spec_click_target(key@) matches Option::Some(it)
                && it.handler is Some),
            invoked ==> exists|dr: &mut T|
                mut_ref_current(dr) == old(self).data && mut_ref_future(dr) == final(self).data
                    && call_ensures(
                    H::invoke,
                    (&old(self).spec_click_target(key@)->0.handler->0, dr),
                    (),
                ),
            !invoked ==> *final(self) == *old(self),
            final(self).root_items == old(self).root_items,
            final(self).hovered_items == old(self).hovered_items,
            final(self).x == old(self).x,
            final(self).y == old(self).y,
            final(self).vis == old(self).vis,
            final(self).next_panel == old(self).next_panel,
    {
        let mut found: Option<Option<H>> = find_handler_in_items(&self.root_items, key);
        let n: usize = self.hovered_items.len();
        let mut i: usize = 0;
        while found.is_none() && i < n
            invariant
                i <= n,
                n == self.hovered_items@.len(),
                found is None ==> find_item(items_model(self.root_items@), key@) is None
                    && find_in_chain_from(chain_model(self.hovered_items@), key@, 0)
                    == find_in_chain_from(chain_model(self.hovered_items@), key@, i as int),
                found matches Option::Some(hopt) ==> self.spec_click_target(key@) matches
                    Option::Some(it) && hopt == it.handler,
            decreases n - i,
        {
            proof {
                assert(chain_model(self.hovered_items@)[i as int].items == items_model(
                    self.hovered_items@[i as int].items@,
                ));
            }
            found = find_handler_in_items(&self.hovered_items[i].items, key);
            i = i + 1;
        }
        proof {
            if found is None {
                assert(find_in_chain_from(chain_model(self.hovered_items@), key@, i as int)
                    is None);
            }
        }
        match found {
            Option::Some(hopt) => {
                match hopt {
                    Option::Some(h) => {
                        h.invoke(&mut self.data);
                        true
                    },
                    Option::None => false,
                }
            },
            Option::None => false,
        }
    }
}

/// A deep copy of the first item carrying `key` in one level's item
/// list: `None` when no item carries the key.
fn find_item_clone<H: Copy>(items: &ContextMenuItems<H>, key: &String) -> (r: Option<
    ContextMenuItemInner<H>,
>)
    ensures
        r is Some <==> find_item(items_model(items@), key@) is Some,
        r matches Option::Some(it) ==> find_item(items_model(items@), key@) == Option::Some(it@),
{
    let n: usize = items.len();
    let mut i: usize = 0;
    while i < n
        invariant
            i <= n,
            n == items@.len(),
            find_item(items_model(items@), key@) == find_item_from(
                items_model(items@),
                key@,
                i as int,
            ),
        decreases n - i,
    {
        if items[i].key == *key {
            return Option::Some(items[i].clone());
        }
        i = i + 1;
    }
    Option::None
}

/// The handler of the first item carrying `key` in one level's item
/// list: `None` when no item carries the key, and otherwise the found
/// item's (possibly absent) handler.
fn find_handler_in_items<H: Copy>(items: &ContextMenuItems<H>, key: &String) -> (r: Option<
    Option<H>,
>)
    ensures
        r is Some <==> find_item(items_model(items@), key@) is Some,
        r matches Option::Some(hopt) ==> find_item(items_model(items@), key@) matches
            Option::Some(it) && hopt == it.handler,
{
    let n: usize = items.len();
    let mut i: usize = 0;
    while i < n
        invariant
            i <= n,
            n == items@.len(),
            find_item(items_model(items@), key@) == find_item_from(
                items_model(items@),
                key@,
                i as int,
            ),
        decreases n - i,
    {
        if items[i].key == *key {
            return Option::Some(items[i].handler);
        }
        i = i + 1;
    }
    Option::None
}

} // verus!
