//! The entries of the side bar.
use vstd::prelude::*;

verus! {

/// An entry of the side bar.
#[derive(Debug, Clone, Copy, PartialEq, Eq, Structural)]
pub enum SidebarItem {
    Search,
    Bookmarks,
    History,
    Settings,
    Stocks,
    Weather,
}

impl SidebarItem {
    pub open spec fn spec_icon(self) -> Seq<char> {
        match self {
            SidebarItem::Search => "\u{1F50D}"@,
            SidebarItem::Bookmarks => "\u{2B50}"@,
            SidebarItem::History => "\u{1F550}"@,
            SidebarItem::Settings => "\u{2699}"@,
            SidebarItem::Stocks => "\u{1F4C8}"@,
            SidebarItem::Weather => "\u{1F324}"@,
        }
    }

    pub open spec fn spec_label(self) -> Seq<char> {
        match self {
            SidebarItem::Search => "Search"@,
            SidebarItem::Bookmarks => "Bookmarks"@,
            SidebarItem::History => "History"@,
            SidebarItem::Settings => "Settings"@,
            SidebarItem::Stocks => "Stocks"@,
            SidebarItem::Weather => "Weather"@,
        }
    }

    /// The entry's icon.
    pub fn icon(&self) -> (r: &'static str)
        ensures
            r@ == self.spec_icon(),
    {
        match self {
            SidebarItem::Search => "\u{1F50D}",
            SidebarItem::Bookmarks => "\u{2B50}",
            SidebarItem::History => "\u{1F550}",
            SidebarItem::Settings => "\u{2699}",
            SidebarItem::Stocks => "\u{1F4C8}",
            SidebarItem::Weather => "\u{1F324}",
        }
    }

    /// The entry's label.
    pub fn label(&self) -> (r: &'static str)
        ensures
            r@ == self.spec_label(),
    {
        match self {
            SidebarItem::Search => "Search",
            SidebarItem::Bookmarks => "Bookmarks",
            SidebarItem::History => "History",
            SidebarItem::Settings => "Settings",
            SidebarItem::Stocks => "Stocks",
            SidebarItem::Weather => "Weather",
        }
    }

    /// Every entry, top to bottom.
    pub fn all() -> (r: Vec<SidebarItem>)
        ensures
            r@ == seq![
                SidebarItem::Search,
                SidebarItem::Bookmarks,
                SidebarItem::History,
                SidebarItem::Settings,
                SidebarItem::Stocks,
                SidebarItem::Weather,
            ],
    {
        vec![
            SidebarItem::Search,
            SidebarItem::Bookmarks,
            SidebarItem::History,
            SidebarItem::Settings,
            SidebarItem::Stocks,
            SidebarItem::Weather,
        ]
    }
}

} // verus!
