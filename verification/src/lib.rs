//! A menu-state engine for nested, hover-activated context menus.
//!
//! The crate models a recursively structured menu description (items,
//! optionally with submenus), the open/hover state machine across menu
//! levels, the viewport-clamping positioning algorithm, and the
//! single-visible-menu coordination policy. Rendering and native event
//! capture are external collaborators: the engine exposes plain state and
//! consumes discrete events.

pub mod chain;
pub mod item;
pub mod menu;
pub mod position;
pub mod registry;

pub use chain::HoverChainEntry;
pub use chain::HoverEntryModel;
pub use chain::HoverItems;
pub use item::ContextMenuData;
pub use item::ContextMenuHandler;
pub use item::ContextMenuItemInner;
pub use item::ContextMenuItems;
pub use item::MenuItemModel;
pub use menu::ContextMenu;
pub use menu::MenuVisibility;
pub use position::GeometryProvider;
pub use position::PanelRect;
pub use registry::provide_context_menu_state;
pub use registry::ContextMenuState;
