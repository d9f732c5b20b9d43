//! The item state that the caller keeps.
use super::category::StatusNotifierItemCategory;
use super::icon_pixmap::IconPixmap;
use super::status::StatusNotifierItemStatus;
use vstd::prelude::*;
use vstd::string::StringSliceAdditionalSpecFns;

verus! {

/// Caller-provided SNI item state used by `StatusNotifierItemHandler`
pub trait StatusNotifierItemData {
    /// The id that `id` returns.
    spec fn spec_id(&self) -> Seq<u8>;

    /// The title that `title` returns.
    spec fn spec_title(&self) -> Seq<u8>;

    /// The status that `status` returns.
    spec fn spec_status(&self) -> StatusNotifierItemStatus;

    /// The category that `category` returns.
    spec fn spec_category(&self) -> StatusNotifierItemCategory;

    /// The icon name that `icon_name` returns.
    spec fn spec_icon_name(&self) -> Seq<u8>;

    /// The pixmap that `icon_pixmap` returns.
    spec fn spec_icon_pixmap(&self) -> Option<IconPixmap<'_>>;

    /// The menu path that `menu` returns.
    spec fn spec_menu(&self) -> Seq<u8>;

    /// The flag that `item_is_menu` returns.
    spec fn spec_item_is_menu(&self) -> bool;

    /// Stable item id
    fn id(&self) -> (r: &str)
        ensures
            r.spec_bytes() == self.spec_id(),
    ;

    /// User-visible title
    fn title(&self) -> (r: &str)
        ensures
            r.spec_bytes() == self.spec_title(),
    ;

    /// Current status
    fn status(&self) -> (r: StatusNotifierItemStatus)
        ensures
            r == self.spec_status(),
    ;

    /// Item category
    fn category(&self) -> (r: StatusNotifierItemCategory)
        ensures
            r == self.spec_category(),
    ;

    /// Icon name for theme-based hosts
    fn icon_name(&self) -> (r: &str)
        ensures
            r.spec_bytes() == self.spec_icon_name(),
    ;

    /// Optional pixmap frame for hosts that prefer raw image data
    fn icon_pixmap(&self) -> (r: Option<IconPixmap<'_>>)
        ensures
            r == self.spec_icon_pixmap(),
    ;

    /// Dbusmenu object path
    fn menu(&self) -> (r: &str)
        ensures
            r.spec_bytes() == self.spec_menu(),
    ;

    /// Whether item activation should open its menu
    fn item_is_menu(&self) -> (r: bool)
        ensures
            r == self.spec_item_is_menu(),
    ;
}

/// Item state held as plain values
#[derive(Clone, Copy)]
pub struct ItemState<'a> {
    /// Stable item id
    pub id: &'a str,
    /// User-visible title
    pub title: &'a str,
    /// Current status
    pub status: StatusNotifierItemStatus,
    /// Item category
    pub category: StatusNotifierItemCategory,
    /// Icon name for theme-based hosts
    pub icon_name: &'a str,
    /// Optional pixmap frame
    pub icon_pixmap: Option<IconPixmap<'a>>,
    /// Dbusmenu object path
    pub menu: &'a str,
    /// Whether item activation should open its menu
    pub item_is_menu: bool,
}

impl<'a> StatusNotifierItemData for ItemState<'a> {
    open spec fn spec_id(&self) -> Seq<u8> {
        self.id.spec_bytes()
    }

    open spec fn spec_title(&self) -> Seq<u8> {
        self.title.spec_bytes()
    }

    open spec fn spec_status(&self) -> StatusNotifierItemStatus {
        self.status
    }

    open spec fn spec_category(&self) -> StatusNotifierItemCategory {
        self.category
    }

    open spec fn spec_icon_name(&self) -> Seq<u8> {
        self.icon_name.spec_bytes()
    }

    open spec fn spec_icon_pixmap(&self) -> Option<IconPixmap<'_>> {
        self.icon_pixmap
    }

    open spec fn spec_menu(&self) -> Seq<u8> {
        self.menu.spec_bytes()
    }

    open spec fn spec_item_is_menu(&self) -> bool {
        self.item_is_menu
    }

    fn id(&self) -> (r: &str) {
        self.id
    }

    fn title(&self) -> (r: &str) {
        self.title
    }

    fn status(&self) -> (r: StatusNotifierItemStatus) {
        self.status
    }

    fn category(&self) -> (r: StatusNotifierItemCategory) {
        self.category
    }

    fn icon_name(&self) -> (r: &str) {
        self.icon_name
    }

    fn icon_pixmap(&self) -> (r: Option<IconPixmap<'_>>) {
        self.icon_pixmap
    }

    fn menu(&self) -> (r: &str) {
        self.menu
    }

    fn item_is_menu(&self) -> (r: bool) {
        self.item_is_menu
    }
}

} // verus!
