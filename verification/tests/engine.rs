use context_menu::ContextMenu;
use context_menu::ContextMenuData;
use context_menu::ContextMenuHandler;
use context_menu::ContextMenuItemInner;
use context_menu::ContextMenuItems;

#[derive(Clone, Copy, PartialEq, Debug)]
enum Act {
    Noop,
}

impl ContextMenuHandler<Data> for Act {
    fn invoke(&self, _data: &mut Data) {}
}

struct Data;

impl ContextMenuData<Act> for Data {
    fn get_menu_items(&self) -> ContextMenuItems<Act> {
        vec![
            ContextMenuItemInner::new(
                "A".to_string(),
                Some(vec![ContextMenuItemInner::new("A1".to_string(), None)]),
            ),
            ContextMenuItemInner::new("B".to_string(), None),
        ]
    }
}

#[test]
fn fresh_keys_have_uuid_shape() {
    let a = ContextMenuItemInner::<Act>::new("x".to_string(), None);
    let b = ContextMenuItemInner::<Act>::new("x".to_string(), None);
    assert_eq!(a.key.len(), 36);
    assert_eq!(b.key.len(), 36);
    assert_ne!(a.key, b.key);
}

#[test]
fn empty_label_is_accepted() {
    let a = ContextMenuItemInner::<Act>::new(String::new(), None);
    assert_eq!(a.name, "");
    assert!(a.handler.is_none());
    assert!(a.children.is_none());
}

#[test]
fn hover_opens_submenu_and_truncates_on_sibling() {
    // Root items [A(children=[A1]), B]; open resets the chain; hovering A
    // opens its submenu; hovering the childless sibling B closes it again;
    // hovering A once more opens it anew under a fresh panel handle.
    let mut menu = ContextMenu::new(Data);
    menu.show(10, 10);
    assert!(menu.get_hover_chain().is_empty());

    let a = menu.get_root_items()[0].clone();
    let b = menu.get_root_items()[1].clone();

    menu.hover(&a, 50, 9, 0);
    {
        let chain = menu.get_hover_chain();
        assert_eq!(chain.len(), 1);
        assert_eq!(chain[0].key, a.key);
        assert_eq!(chain[0].items.len(), 1);
        assert_eq!(chain[0].items[0].name, "A1");
        assert_eq!(chain[0].x, 50);
        assert_eq!(chain[0].y, 9);
    }
    let first_panel = menu.get_hover_chain()[0].panel;

    menu.hover(&b, 10, 10, 0);
    assert!(menu.get_hover_chain().is_empty());

    menu.hover(&a, 50, 9, 0);
    let chain = menu.get_hover_chain();
    assert_eq!(chain.len(), 1);
    assert_eq!(chain[0].key, a.key);
    assert_ne!(chain[0].panel, first_panel);
}

#[test]
fn hover_same_open_branch_is_idempotent() {
    let mut menu = ContextMenu::new(Data);
    menu.show(0, 0);
    let a = menu.get_root_items()[0].clone();

    menu.hover(&a, 50, 9, 0);
    let panel = menu.get_hover_chain()[0].panel;

    // Same key at the same level while its submenu is the deepest open
    // level: nothing changes, even with other coordinates, and no new
    // panel handle is allocated.
    menu.hover(&a, 77, 88, 0);
    let chain = menu.get_hover_chain();
    assert_eq!(chain.len(), 1);
    assert_eq!(chain[0].x, 50);
    assert_eq!(chain[0].y, 9);
    assert_eq!(chain[0].panel, panel);
    assert_eq!(menu.next_panel, panel + 1);
}

#[test]
fn hover_leaf_truncates_and_appends_nothing() {
    let mut menu = ContextMenu::new(Data);
    menu.show(0, 0);
    let a = menu.get_root_items()[0].clone();
    menu.hover(&a, 50, 9, 0);
    let a1 = menu.get_hover_chain()[0].items[0].clone();

    // Hovering the leaf A1 at level 1 keeps the chain at length 1.
    menu.hover(&a1, 60, 20, 1);
    assert_eq!(menu.get_hover_chain().len(), 1);

    // Hovering the leaf B at level 0 truncates to length 0.
    let b = menu.get_root_items()[1].clone();
    menu.hover(&b, 5, 5, 0);
    assert_eq!(menu.get_hover_chain().len(), 0);
}

#[test]
fn hover_by_key_resolves_panel_items() {
    let mut menu = ContextMenu::new(Data);
    menu.show(0, 0);
    let a_key = menu.get_root_items()[0].key.clone();

    assert!(menu.hover_key(&a_key, 40, 8, 0));
    assert_eq!(menu.get_hover_chain().len(), 1);
    assert_eq!(menu.get_hover_chain()[0].key, a_key);

    let a1_key = menu.get_hover_chain()[0].items[0].key.clone();
    assert!(menu.hover_key(&a1_key, 90, 8, 1));
    // A1 is a leaf: the chain stays at length 1.
    assert_eq!(menu.get_hover_chain().len(), 1);

    // A key no rendered item carries changes nothing.
    assert!(!menu.hover_key(&"no-such-key".to_string(), 1, 1, 0));
    assert_eq!(menu.get_hover_chain().len(), 1);
}

struct Nested;

impl ContextMenuData<Act> for Nested {
    fn get_menu_items(&self) -> ContextMenuItems<Act> {
        vec![ContextMenuItemInner::new(
            "A".to_string(),
            Some(vec![
                ContextMenuItemInner::new(
                    "A1".to_string(),
                    Some(vec![ContextMenuItemInner::new("A11".to_string(), None)]),
                ),
                ContextMenuItemInner::new("A2".to_string(), None),
            ]),
        )]
    }
}

impl ContextMenuHandler<Nested> for Act {
    fn invoke(&self, _data: &mut Nested) {}
}

#[test]
fn nested_hover_keeps_a_contiguous_prefix() {
    let mut menu = ContextMenu::new(Nested);
    menu.show(0, 0);

    let a = menu.get_root_items()[0].clone();
    menu.hover(&a, 10, 10, 0);
    assert_eq!(menu.get_hover_chain().len(), 1);

    let a1 = menu.get_hover_chain()[0].items[0].clone();
    menu.hover(&a1, 20, 20, 1);
    assert_eq!(menu.get_hover_chain().len(), 2);
    // Freshly allocated handles: pairwise distinct, increasing by level.
    assert!(menu.get_hover_chain()[0].panel < menu.get_hover_chain()[1].panel);

    // A leaf at level 2: truncated to length 2, nothing appended.
    let a11 = menu.get_hover_chain()[1].items[0].clone();
    menu.hover(&a11, 30, 30, 2);
    assert_eq!(menu.get_hover_chain().len(), 2);

    // A leaf sibling at level 1 closes everything below level 1.
    let a2 = menu.get_hover_chain()[0].items[1].clone();
    menu.hover(&a2, 5, 5, 1);
    assert_eq!(menu.get_hover_chain().len(), 1);
    assert_eq!(menu.get_hover_chain()[0].key, a.key);

    // The still-open branch hovered again at level 0: a no-op.
    let panel = menu.get_hover_chain()[0].panel;
    menu.hover(&a, 99, 99, 0);
    assert_eq!(menu.get_hover_chain().len(), 1);
    assert_eq!(menu.get_hover_chain()[0].panel, panel);
}

#[test]
fn deep_clone_preserves_the_tree() {
    let a = ContextMenuItemInner::<Act>::new_with_handler(
        "A".to_string(),
        Act::Noop,
        Some(vec![ContextMenuItemInner::new(
            "A1".to_string(),
            Some(vec![ContextMenuItemInner::new("A11".to_string(), None)]),
        )]),
    );
    let c = a.clone();
    assert_eq!(c.key, a.key);
    assert_eq!(c.name, "A");
    assert!(matches!(c.handler, Some(Act::Noop)));
    let kids = c.children.as_ref().unwrap();
    assert_eq!(kids.len(), 1);
    assert_eq!(kids[0].name, "A1");
    assert_eq!(kids[0].children.as_ref().unwrap()[0].name, "A11");
}
