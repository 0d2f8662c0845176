use context_menu::position::clamp_to_viewport;
use context_menu::position::min_ancestor_left;
use context_menu::position::submenu_anchor;
use context_menu::ContextMenu;
use context_menu::ContextMenuData;
use context_menu::ContextMenuHandler;
use context_menu::ContextMenuItemInner;
use context_menu::ContextMenuItems;
use context_menu::GeometryProvider;
use context_menu::PanelRect;

#[derive(Clone, Copy)]
enum Act {
    Noop,
}

impl ContextMenuHandler<Data> for Act {
    fn invoke(&self, _data: &mut Data) {}
}

struct Data;

impl ContextMenuData<Act> for Data {
    fn get_menu_items(&self) -> ContextMenuItems<Act> {
        vec![ContextMenuItemInner::new(
            "A".to_string(),
            Some(vec![ContextMenuItemInner::new("A1".to_string(), None)]),
        )]
    }
}

struct FixedGeometry {
    panel_left: i32,
}

impl GeometryProvider for FixedGeometry {
    fn measure(&self, _panel: u64) -> PanelRect {
        PanelRect { left: self.panel_left, top: 10, width: 50, height: 20 }
    }

    fn viewport_size(&self) -> (i32, i32) {
        (800, 600)
    }
}

#[test]
fn panel_fitting_the_viewport_keeps_its_anchor() {
    assert_eq!(clamp_to_viewport(100, 200, 50, 20, 800, 600, 100), (100, 200));
}

#[test]
fn panel_overflowing_right_realigns_to_leftmost_edge() {
    // Viewport 800x600; a panel at trigger (790, 10) measuring 50x20
    // exceeds the viewport width, so its right edge re-anchors to the
    // trigger x minus the panel width: left becomes 740.
    assert_eq!(clamp_to_viewport(790, 10, 50, 20, 800, 600, 790), (740, 10));
}

#[test]
fn panel_overflowing_bottom_opens_upward() {
    assert_eq!(clamp_to_viewport(100, 590, 50, 20, 800, 600, 100), (100, 570));
}

#[test]
fn overflowing_panel_stacks_left_of_open_ancestors() {
    // With open panels whose leftmost edge is 300, an overflowing panel
    // re-anchors left of that edge.
    assert_eq!(clamp_to_viewport(780, 5, 60, 20, 800, 600, 300), (240, 5));
}

#[test]
fn min_ancestor_left_takes_the_leftmost_edge() {
    assert_eq!(min_ancestor_left(100, &vec![50, 120]), 50);
    assert_eq!(min_ancestor_left(40, &vec![50, 120]), 40);
    assert_eq!(min_ancestor_left(40, &vec![]), 40);
}

#[test]
fn submenu_anchor_sits_at_parent_right_edge() {
    // The submenu opens at the parent panel's right edge, level with the
    // hovered item's top minus the one-pixel border correction.
    assert_eq!(submenu_anchor(10, 100, 35), (110, 34));
}

#[test]
fn position_panel_clamps_the_root_panel() {
    let mut menu = ContextMenu::new(Data);
    menu.show(790, 10);
    let geom = FixedGeometry { panel_left: 790 };
    // Anchor (790, 10), measured 50x20 in a 800x600 viewport: overflows
    // to the right, re-anchors to the leftmost open edge 790 minus the
    // panel width.
    assert_eq!(menu.position_panel(&geom, 0), Some((740, 10)));
}

struct BrokenGeometry;

impl GeometryProvider for BrokenGeometry {
    fn measure(&self, _panel: u64) -> PanelRect {
        PanelRect { left: 0, top: 0, width: -5, height: 20 }
    }

    fn viewport_size(&self) -> (i32, i32) {
        (800, 600)
    }
}

#[test]
fn position_panel_rejects_degenerate_measurements() {
    let mut menu = ContextMenu::new(Data);
    menu.show(100, 100);
    // A negative measured width admits no clamped position.
    assert_eq!(menu.position_panel(&BrokenGeometry, 0), None);
}

#[test]
fn position_panel_clamps_submenu_levels() {
    let mut menu = ContextMenu::new(Data);
    menu.show(100, 100);
    let a = menu.get_root_items()[0].clone();
    menu.hover(&a, 780, 99, 0);
    let geom = FixedGeometry { panel_left: 300 };
    // The submenu anchored at x = 780 overflows 800, so it re-anchors to
    // the leftmost measured edge 300 minus its width 50.
    assert_eq!(menu.position_panel(&geom, 1), Some((250, 99)));
}
