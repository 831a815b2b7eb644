//! The timeline snapshot: recent posts and the users who wrote them.
use crate::content::{
    decode_plurks, decode_users, plurks_of, plurks_view, users_of, users_view, PlurkData,
    PlurkDataView, PlurkUser, UsersView,
};
use crate::error::PlurkError;
use crate::json::{json_node_of, member, member_of, parse_json, JsonNode, JsonView};
use vstd::prelude::*;
use vstd::string::*;

verus! {

/// The answer of the timeline endpoint: the posts, and their authors keyed by
/// decimal id. Either may be absent.
#[derive(Debug, Clone)]
pub struct Timeline {
    pub plurks: Option<Vec<PlurkData>>,
    pub plurk_users: Option<Vec<(String, PlurkUser)>>,
}

pub struct TimelineView {
    pub plurks: Option<Seq<PlurkDataView>>,
    pub plurk_users: Option<UsersView>,
}

impl View for Timeline {
    type V = TimelineView;

    open spec fn view(&self) -> TimelineView {
        TimelineView {
            plurks: match self.plurks {
                Some(p) => Some(plurks_view(p@)),
                None => None,
            },
            plurk_users: match self.plurk_users {
                Some(u) => Some(users_view(u@)),
                None => None,
            },
        }
    }
}

/// The member text `t`, where present, as a list of posts: `Ok(None)` where it
/// is absent or null, `Err(())` where it is anything but a list of posts.
pub open spec fn optional_plurks(t: Option<Seq<char>>) -> Result<Option<Seq<PlurkDataView>>, ()> {
    match t {
        None => Ok(None),
        Some(t) => match json_node_of(t) {
            Some(JsonView::Null) => Ok(None),
            Some(JsonView::Array(items)) => match plurks_of(items) {
                Some(p) => Ok(Some(p)),
                None => Err(()),
            },
            _ => Err(()),
        },
    }
}

/// The member text `t`, where present, as users keyed by id.
pub open spec fn optional_users(t: Option<Seq<char>>) -> Result<Option<UsersView>, ()> {
    match t {
        None => Ok(None),
        Some(t) => match json_node_of(t) {
            Some(JsonView::Null) => Ok(None),
            Some(JsonView::Object(m)) => match users_of(m) {
                Some(u) => Ok(Some(u)),
                None => Err(()),
            },
            _ => Err(()),
        },
    }
}

/// The timeline that the JSON text `body` holds.
pub open spec fn timeline_of(body: Seq<char>) -> Option<TimelineView> {
    match json_node_of(body) {
        Some(JsonView::Object(f)) => match (
            optional_plurks(member_of(f, "plurks"@)),
            optional_users(member_of(f, "plurk_users"@)),
        ) {
            (Ok(plurks), Ok(plurk_users)) => Some(TimelineView { plurks, plurk_users }),
            _ => None,
        },
        _ => None,
    }
}

impl Timeline {
    /// Decodes the answer of the timeline endpoint; fails with `ParseError`.
    pub fn from_json(body: &str) -> (r: Result<Timeline, PlurkError>)
        ensures
            match timeline_of(body@) {
                Some(v) => r matches Ok(t) && t@ == v,
                None => r matches Err(PlurkError::ParseError(_)),
            },
    {
        let fields = match parse_json(body) {
            Some(JsonNode::Object(f)) => f,
            _ => return Err(PlurkError::ParseError(String::from_str("timeline is no JSON object"))),
        };
        let plurks = match member(&fields, "plurks") {
            None => None,
            Some(t) => match parse_json(t.as_str()) {
                Some(JsonNode::Null) => None,
                Some(JsonNode::Array(items)) => match decode_plurks(&items) {
                    Some(p) => Some(p),
                    None => return Err(PlurkError::ParseError(String::from_str("malformed plurk"))),
                },
                _ => return Err(PlurkError::ParseError(String::from_str("plurks is no list"))),
            },
        };
        let plurk_users = match member(&fields, "plurk_users") {
            None => None,
            Some(t) => match parse_json(t.as_str()) {
                Some(JsonNode::Null) => None,
                Some(JsonNode::Object(m)) => match decode_users(&m) {
                    Some(u) => Some(u),
                    None => return Err(PlurkError::ParseError(String::from_str("malformed user"))),
                },
                _ => return Err(PlurkError::ParseError(String::from_str("plurk_users is no object"))),
            },
        };
        Ok(Timeline { plurks, plurk_users })
    }
}

} // verus!
