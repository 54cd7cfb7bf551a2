//! What a user has chosen to see: which subscriptions, and whether read
//! items are listed.

use vstd::prelude::*;

verus! {

/// The name of the cookie that holds a user's preferences.
pub const USER_PREFERENCE: &'static str = "user_preferences";

/// Which items a listing holds.
#[derive(Debug, Clone)]
pub enum FilterItems {
    All,
    Id(i64),
    Title(String),
}

impl FilterItems {
    /// The subscription id to filter by, if any.
    pub open spec fn id_filter(self) -> Option<i64> {
        match self {
            FilterItems::Id(id) => Some(id),
            _ => None,
        }
    }

    /// The category title to filter by, if any.
    pub open spec fn title_filter(self) -> Option<Seq<char>> {
        match self {
            FilterItems::Title(title) => Some(title@),
            _ => None,
        }
    }

    /// The two query parameters of a listing: at most one of them is set.
    pub fn as_items(&self) -> (r: (Option<i64>, Option<String>))
        ensures
            r.0 == self.id_filter(),
            r.1 is Some <==> self.title_filter() is Some,
            r.1 matches Some(t) ==> self.title_filter() == Some(t@),
    {
        let id = match self {
            FilterItems::Id(id) => Some(*id),
            _ => None,
        };
        let title = match self {
            FilterItems::Title(title) => Some(title.clone()),
            _ => None,
        };
        (id, title)
    }
}

/// Whether read items are listed too.
#[derive(Debug, Clone, Copy)]
pub enum ShowUnreads {
    ShowEverything,
    ShowUnreads,
}

impl ShowUnreads {
    /// The value of the `unread` query parameter: unset lists everything.
    pub fn query_value(&self) -> (r: Option<bool>)
        ensures
            r == (match *self {
                ShowUnreads::ShowEverything => None::<bool>,
                ShowUnreads::ShowUnreads => Some(true),
            }),
    {
        match self {
            ShowUnreads::ShowEverything => None,
            ShowUnreads::ShowUnreads => Some(true),
        }
    }
}

/// What a user has chosen to see.
#[derive(Debug, Clone)]
pub struct UserPreferences {
    pub filter_items: FilterItems,
    pub sidebar_collapsed: bool,
    pub show_unreads: ShowUnreads,
}

impl Default for UserPreferences {
    /// The preferences of a user who has chosen nothing: every
    /// subscription, the sidebar open, unread items only.
    fn default() -> (r: Self)
        ensures
            r.filter_items is All,
            !r.sidebar_collapsed,
            r.show_unreads is ShowUnreads,
    {
        Self {
            filter_items: FilterItems::All,
            sidebar_collapsed: false,
            show_unreads: ShowUnreads::ShowUnreads,
        }
    }
}

impl UserPreferences {
    /// The preferences with another choice of items.
    pub fn with_filter(self, filter_items: FilterItems) -> (r: Self)
        ensures
            r == (UserPreferences { filter_items, ..self }),
    {
        UserPreferences { filter_items, ..self }
    }

    /// The preferences with the sidebar collapsed or open.
    pub fn with_sidebar(self, sidebar_collapsed: bool) -> (r: Self)
        ensures
            r == (UserPreferences { sidebar_collapsed, ..self }),
    {
        UserPreferences { sidebar_collapsed, ..self }
    }

    /// The preferences with read items listed or not.
    pub fn with_unreads(self, show_unreads: ShowUnreads) -> (r: Self)
        ensures
            r == (UserPreferences { show_unreads, ..self }),
    {
        UserPreferences { show_unreads, ..self }
    }
}

} // verus!
