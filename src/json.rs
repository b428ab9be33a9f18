//! The records carried inside envelopes, in both directions.
use vstd::prelude::*;

verus! {

/// A filter on the peer's tabs; each field that is set narrows the match.
#[derive(Clone, Debug, PartialEq)]
pub struct TabQuery {
    pub active: Option<bool>,
    pub attention: Option<bool>,
    pub audible: Option<bool>,
    pub current_window: Option<bool>,
    pub index: Option<u16>,
    pub muted: Option<bool>,
    pub pinned: Option<bool>,
    pub title: Option<String>,
    pub url: Option<String>,
    pub window_id: Option<String>,
    pub window_type: Option<String>,
}

impl Default for TabQuery {
    /// The query with no field set: it matches every tab.
    fn default() -> (r: TabQuery)
        ensures
            r.active is None && r.attention is None && r.audible is None
                && r.current_window is None && r.index is None && r.muted is None
                && r.pinned is None && r.title is None && r.url is None
                && r.window_id is None && r.window_type is None,
    {
        TabQuery {
            active: None,
            attention: None,
            audible: None,
            current_window: None,
            index: None,
            muted: None,
            pinned: None,
            title: None,
            url: None,
            window_id: None,
            window_type: None,
        }
    }
}

/// A command as the peer receives it: identity, command tag, and the optional
/// fields that the command carries.
#[derive(Clone, Debug, PartialEq)]
pub struct ExtensionRequest {
    pub uuid: String,
    pub command: String,
    pub theme_id: Option<String>,
    pub query: Option<TabQuery>,
    pub index: Option<u16>,
}

/// One theme the peer knows.
#[derive(Clone, Debug, PartialEq)]
pub struct Theme {
    pub name: String,
    pub id: String,
}

/// One of the peer's tabs.
#[derive(Clone, Debug, PartialEq)]
pub struct Tab {
    pub active: bool,
    pub id: u16,
    pub index: u16,
    pub pinned: bool,
    pub title: String,
    pub url: String,
    pub window_id: u16,
}

/// A reply from the peer: the identity of the command it answers and whichever
/// result fields that command produces.
#[derive(Clone, Debug, PartialEq)]
pub struct ExtensionResponse {
    pub uuid: String,
    pub themes: Option<Vec<Theme>>,
    pub success: Option<bool>,
    pub tabs: Option<Vec<Tab>>,
}

} // verus!
