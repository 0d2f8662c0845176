//! The recursive menu-item model.
//!
//! A menu is described by an ordered list of items; an item optionally
//! carries an ordered list of child items, and the presence of that list
//! (not its emptiness) is what signals "has a submenu". Items are built
//! fresh by the data owner and treated as value-like once built.

use vstd::prelude::*;

verus! {

/// The mathematical model of a menu item: its key and label as character
/// sequences, the optional click handler, and the optional child list,
/// modelled recursively.
pub struct MenuItemModel<H> {
    pub key: Seq<char>,
    pub name: Seq<char>,
    pub handler: Option<H>,
    pub children: Option<Seq<MenuItemModel<H>>>,
}

/// A handler that a click on a menu item invokes against the data object
/// the menu operates over. The engine guarantees the handler exclusive
/// access to the data for the duration of the call; what the handler does
/// with it is the embedding application's concern.
pub trait ContextMenuHandler<T> {
    /// Invoked on click, with exclusive access to the menu's data object.
    fn invoke(&self, data: &mut T);
}

/// One node of a menu tree.
///
/// `H` is the application's handler type (see [`ContextMenuHandler`]).
/// The key is a fresh, unique identifier generated at construction; it is
/// the hover-chain lookup key and carries no further meaning.
pub struct ContextMenuItemInner<H> {
    pub key: String,
    pub name: String,
    pub handler: Option<H>,
    pub children: Option<ContextMenuItems<H>>,
}

/// An ordered list of menu items: the items of one menu level.
pub type ContextMenuItems<H> = Vec<ContextMenuItemInner<H>>;

/// A data object that can describe its own context menu.
///
/// `H` is the handler type the described items carry. The menu engine
/// recomputes the description through this trait each time a menu opens.
pub trait ContextMenuData<H> {
    /// The root items of the context menu for this data object.
    fn get_menu_items(&self) -> ContextMenuItems<H>;
}

impl<H> ContextMenuItemInner<H> {
    /// The model of this item, with every level of the tree abstracted to
    /// sequences.
    pub open spec fn model(self) -> MenuItemModel<H>
        decreases self,
    {
        MenuItemModel {
            key: self.key@,
            name: self.name@,
            handler: self.handler,
            children: match self.children {
                Option::None => Option::None,
                Option::Some(v) => Option::Some(items_model(v@)),
            },
        }
    }
}

impl<H> View for ContextMenuItemInner<H> {
    type V = MenuItemModel<H>;

    open spec fn view(&self) -> MenuItemModel<H> {
        self.model()
    }
}

/// The models of an ordered list of items.
pub open spec fn items_model<H>(s: Seq<ContextMenuItemInner<H>>) -> Seq<MenuItemModel<H>>
    decreases s,
{
    Seq::new(
        s.len(),
        |i: int|
            if 0 <= i < s.len() {
                s[i].model()
            } else {
                vstd::pervasive::arbitrary()
            },
    )
}

/// Relies on `uuid::Uuid::new_v4` for a fresh random identifier and on its
/// `Display` implementation, which renders every identifier in the
/// 36-character hyphenated form.
#[verifier::external_body]
fn generate_key() -> (r: String)
    ensures
        r@.len() == 36,
{
    uuid::Uuid::new_v4().to_string()
}

impl<H: Copy> Clone for ContextMenuItemInner<H> {
    /// A deep copy: the clone's model equals the source item's.
    fn clone(&self) -> (res: Self)
        ensures
            res@ == self@,
        decreases *self,
    {
        let children = match &self.children {
            Option::None => Option::None,
            Option::Some(v) => Option::Some(clone_items(v)),
        };
        let res = ContextMenuItemInner {
            key: self.key.clone(),
            name: self.name.clone(),
            handler: self.handler,
            children,
        };
        proof {
            assert(res@.children == self@.children);
        }
        res
    }
}

/// A deep copy of an ordered list of items, preserving its model.
pub fn clone_items<H: Copy>(items: &ContextMenuItems<H>) -> (res: ContextMenuItems<H>)
    ensures
        items_model(res@) == items_model(items@),
    decreases *items,
{
    let n: usize = items.len();
    let mut res: ContextMenuItems<H> = Vec::new();
    let mut i: usize = 0;
    while i < n
        invariant
            n == items@.len(),
            i <= n,
            res@.len() == i,
            forall|j: int| 0 <= j < i ==> #[trigger] res@[j]@ == items@[j]@,
        decreases n - i,
    {
        proof {
            assert(decreases_to!(*items => items@[i as int]));
        }
        let it = items[i].clone();
        res.push(it);
        i = i + 1;
    }
    proof {
        assert forall|j: int| 0 <= j < n implies items_model(res@)[j] == items_model(
            items@,
        )[j] by {
            assert(res@[j]@ == items@[j]@);
        };
        assert(items_model(res@) =~= items_model(items@));
    }
    res
}

impl<H> ContextMenuItemInner<H> {
    /// An item with a handler: clicking it invokes `handler` on the menu's
    /// data object. A fresh unique key is generated; any label, the empty
    /// one included, is accepted.
    pub fn new_with_handler(name: String, handler: H, children: Option<ContextMenuItems<H>>) -> (r:
        Self)
        ensures
            r.name == name,
            r.handler == Option::Some(handler),
            r.children == children,
            r.key@.len() == 36,
    {
        ContextMenuItemInner { key: generate_key(), name, handler: Option::Some(handler), children }
    }

    /// An item without a handler. A fresh unique key is generated; any
    /// label, the empty one included, is accepted.
    pub fn new(name: String, children: Option<ContextMenuItems<H>>) -> (r: Self)
        ensures
            r.name == name,
            r.handler is None,
            r.children == children,
            r.key@.len() == 36,
    {
        ContextMenuItemInner { key: generate_key(), name, handler: Option::None, children }
    }
}

} // verus!
