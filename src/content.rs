//! The events that a poll delivers, and how they are decoded from the payload
//! of a frame. Decoding is all or nothing: one malformed event, or one with an
//! unknown `type`, rejects the whole batch.
use crate::error::PlurkError;
use crate::json::{
    int_member, member, members_view, object_member, parse_json, read_object, read_str, read_u32,
    read_u64, read_i64, str_member, json_node_of, member_of, JsonNode, JsonView, Members,
};
use crate::time::{read_time, time_member, Timestamp};
use crate::utils::{base36_encode, base36_of, decimal_of, u64_text};
use vstd::prelude::*;
use vstd::string::*;

verus! {

/// A post, as the events carry it.
#[derive(Debug, Clone)]
pub struct PlurkData {
    pub plurk_id: u64,
    pub owner_id: u64,
    pub user_id: u64,
    pub posted: Timestamp,
    pub content: String,
    pub content_raw: String,
    pub qualifier: String,
}

pub struct PlurkDataView {
    pub plurk_id: u64,
    pub owner_id: u64,
    pub user_id: u64,
    pub posted: Timestamp,
    pub content: Seq<char>,
    pub content_raw: Seq<char>,
    pub qualifier: Seq<char>,
}

impl View for PlurkData {
    type V = PlurkDataView;

    open spec fn view(&self) -> PlurkDataView {
        PlurkDataView {
            plurk_id: self.plurk_id,
            owner_id: self.owner_id,
            user_id: self.user_id,
            posted: self.posted,
            content: self.content@,
            content_raw: self.content_raw@,
            qualifier: self.qualifier@,
        }
    }
}

/// A response to a post.
#[derive(Debug, Clone)]
pub struct CometResponse {
    pub id: u64,
    pub plurk_id: u64,
    pub user_id: u64,
    pub posted: Timestamp,
    pub content: String,
    pub content_raw: String,
    pub qualifier: String,
}

pub struct CometResponseView {
    pub id: u64,
    pub plurk_id: u64,
    pub user_id: u64,
    pub posted: Timestamp,
    pub content: Seq<char>,
    pub content_raw: Seq<char>,
    pub qualifier: Seq<char>,
}

impl View for CometResponse {
    type V = CometResponseView;

    open spec fn view(&self) -> CometResponseView {
        CometResponseView {
            id: self.id,
            plurk_id: self.plurk_id,
            user_id: self.user_id,
            posted: self.posted,
            content: self.content@,
            content_raw: self.content_raw@,
            qualifier: self.qualifier@,
        }
    }
}

/// What an event tells of a user.
#[derive(Debug, Clone)]
pub struct PlurkUser {
    pub id: u64,
    pub nick_name: String,
    pub display_name: String,
}

pub struct PlurkUserView {
    pub id: u64,
    pub nick_name: Seq<char>,
    pub display_name: Seq<char>,
}

impl View for PlurkUser {
    type V = PlurkUserView;

    open spec fn view(&self) -> PlurkUserView {
        PlurkUserView { id: self.id, nick_name: self.nick_name@, display_name: self.display_name@ }
    }
}

/// The unread counts of a notification event.
#[derive(Debug, Clone, Copy, PartialEq, Eq, Structural)]
pub struct CometNotiCount {
    pub noti: u32,
    pub req: u32,
}

/// One event of a poll.
#[derive(Debug, Clone)]
pub enum CometContentUnit {
    /// A new response to a post; `user` maps each responder's decimal id to them.
    Response {
        plurk_id: u64,
        plurk_data: PlurkData,
        response: CometResponse,
        response_count: u64,
        user: Vec<(String, PlurkUser)>,
    },
    /// A new post.
    Plurk(PlurkData),
    /// New unread counts.
    Notification { counts: CometNotiCount },
}

pub type UsersView = Seq<(Seq<char>, PlurkUserView)>;

pub enum CometContentUnitView {
    Response {
        plurk_id: u64,
        plurk_data: PlurkDataView,
        response: CometResponseView,
        response_count: u64,
        user: UsersView,
    },
    Plurk(PlurkDataView),
    Notification { counts: CometNotiCount },
}

pub open spec fn users_view(users: Seq<(String, PlurkUser)>) -> UsersView {
    users.map_values(|e: (String, PlurkUser)| (e.0@, e.1@))
}

impl View for CometContentUnit {
    type V = CometContentUnitView;

    open spec fn view(&self) -> CometContentUnitView {
        match self {
            CometContentUnit::Response { plurk_id, plurk_data, response, response_count, user } => {
                CometContentUnitView::Response {
                    plurk_id: *plurk_id,
                    plurk_data: plurk_data@,
                    response: response@,
                    response_count: *response_count,
                    user: users_view(user@),
                }
            },
            CometContentUnit::Plurk(p) => CometContentUnitView::Plurk(p@),
            CometContentUnit::Notification { counts } => CometContentUnitView::Notification {
                counts: *counts,
            },
        }
    }
}

/// The decoded payload of one poll: the cursor to poll from next, and the
/// events, in the order the server sent them.
#[derive(Debug, Clone)]
pub struct CometContent {
    pub new_offset: i64,
    pub data: Option<Vec<CometContentUnit>>,
}

pub struct CometContentView {
    pub new_offset: i64,
    pub data: Option<Seq<CometContentUnitView>>,
}

pub open spec fn units_view(units: Seq<CometContentUnit>) -> Seq<CometContentUnitView> {
    units.map_values(|u: CometContentUnit| u@)
}

impl View for CometContent {
    type V = CometContentView;

    open spec fn view(&self) -> CometContentView {
        CometContentView {
            new_offset: self.new_offset,
            data: match self.data {
                Some(units) => Some(units_view(units@)),
                None => None,
            },
        }
    }
}

pub open spec fn u64_member(fields: Members, key: Seq<char>) -> Option<int> {
    int_member(fields, key, 0, u64::MAX as int)
}

/// The post that the members of an object describe.
pub open spec fn plurk_data_of(f: Members) -> Option<PlurkDataView> {
    if u64_member(f, "plurk_id"@) is Some && u64_member(f, "owner_id"@) is Some && u64_member(
        f,
        "user_id"@,
    ) is Some && time_member(f, "posted"@) is Some && str_member(f, "content"@) is Some
        && str_member(f, "content_raw"@) is Some && str_member(f, "qualifier"@) is Some {
        Some(
            PlurkDataView {
                plurk_id: u64_member(f, "plurk_id"@)->0 as u64,
                owner_id: u64_member(f, "owner_id"@)->0 as u64,
                user_id: u64_member(f, "user_id"@)->0 as u64,
                posted: time_member(f, "posted"@)->0,
                content: str_member(f, "content"@)->0,
                content_raw: str_member(f, "content_raw"@)->0,
                qualifier: str_member(f, "qualifier"@)->0,
            },
        )
    } else {
        None
    }
}

/// The response that the members of an object describe.
pub open spec fn response_of(f: Members) -> Option<CometResponseView> {
    if u64_member(f, "id"@) is Some && u64_member(f, "plurk_id"@) is Some && u64_member(
        f,
        "user_id"@,
    ) is Some && time_member(f, "posted"@) is Some && str_member(f, "content"@) is Some
        && str_member(f, "content_raw"@) is Some && str_member(f, "qualifier"@) is Some {
        Some(
            CometResponseView {
                id: u64_member(f, "id"@)->0 as u64,
                plurk_id: u64_member(f, "plurk_id"@)->0 as u64,
                user_id: u64_member(f, "user_id"@)->0 as u64,
                posted: time_member(f, "posted"@)->0,
                content: str_member(f, "content"@)->0,
                content_raw: str_member(f, "content_raw"@)->0,
                qualifier: str_member(f, "qualifier"@)->0,
            },
        )
    } else {
        None
    }
}

/// The user that the members of an object describe.
pub open spec fn user_of(f: Members) -> Option<PlurkUserView> {
    if u64_member(f, "id"@) is Some && str_member(f, "nick_name"@) is Some && str_member(
        f,
        "display_name"@,
    ) is Some {
        Some(
            PlurkUserView {
                id: u64_member(f, "id"@)->0 as u64,
                nick_name: str_member(f, "nick_name"@)->0,
                display_name: str_member(f, "display_name"@)->0,
            },
        )
    } else {
        None
    }
}

/// The user that the JSON text `t` describes.
pub open spec fn user_of_text(t: Seq<char>) -> Option<PlurkUserView> {
    match json_node_of(t) {
        Some(JsonView::Object(f)) => user_of(f),
        _ => None,
    }
}

/// The responders of a response event, keyed as the object keys them; `None`
/// where any of them is malformed.
pub open spec fn users_of(m: Members) -> Option<UsersView> {
    if forall|i: int| 0 <= i < m.len() ==> (#[trigger] user_of_text(m[i].1)) is Some {
        Some(Seq::new(m.len(), |i: int| (m[i].0, user_of_text(m[i].1)->0)))
    } else {
        None
    }
}

/// The unread counts that the members of an object describe.
pub open spec fn counts_of(f: Members) -> Option<CometNotiCount> {
    match (int_member(f, "noti"@, 0, u32::MAX as int), int_member(f, "req"@, 0, u32::MAX as int)) {
        (Some(noti), Some(req)) => Some(CometNotiCount { noti: noti as u32, req: req as u32 }),
        _ => None,
    }
}

/// A `new_response` event.
pub open spec fn response_unit_of(f: Members) -> Option<CometContentUnitView> {
    match (
        u64_member(f, "plurk_id"@),
        object_member(f, "plurk"@),
        object_member(f, "response"@),
        u64_member(f, "response_count"@),
        object_member(f, "user"@),
    ) {
        (Some(plurk_id), Some(pf), Some(rf), Some(response_count), Some(uf)) => {
            match (plurk_data_of(pf), response_of(rf), users_of(uf)) {
                (Some(plurk_data), Some(response), Some(user)) => Some(
                    CometContentUnitView::Response {
                        plurk_id: plurk_id as u64,
                        plurk_data,
                        response,
                        response_count: response_count as u64,
                        user,
                    },
                ),
                _ => None,
            }
        },
        _ => None,
    }
}

/// The event that the members of an object describe, by its `type` tag.
pub open spec fn unit_of(f: Members) -> Option<CometContentUnitView> {
    match str_member(f, "type"@) {
        Some(tag) => if tag == "new_response"@ {
            response_unit_of(f)
        } else if tag == "new_plurk"@ {
            match plurk_data_of(f) {
                Some(p) => Some(CometContentUnitView::Plurk(p)),
                None => None,
            }
        } else if tag == "update_notification"@ {
            match object_member(f, "counts"@) {
                Some(cf) => match counts_of(cf) {
                    Some(counts) => Some(CometContentUnitView::Notification { counts }),
                    None => None,
                },
                None => None,
            }
        } else {
            None
        },
        None => None,
    }
}

/// The event that the JSON text `t` describes.
pub open spec fn unit_of_text(t: Seq<char>) -> Option<CometContentUnitView> {
    match json_node_of(t) {
        Some(JsonView::Object(f)) => unit_of(f),
        _ => None,
    }
}

/// The events of a batch, in order; `None` where any one of them is malformed.
pub open spec fn units_of(items: Seq<Seq<char>>) -> Option<Seq<CometContentUnitView>> {
    if forall|i: int| 0 <= i < items.len() ==> (#[trigger] unit_of_text(items[i])) is Some {
        Some(Seq::new(items.len(), |i: int| unit_of_text(items[i])->0))
    } else {
        None
    }
}

/// The payload `{ "new_offset": ..., "data": [...] | null }` that the JSON text
/// `p` holds; `data` may also be left out.
pub open spec fn content_of(p: Seq<char>) -> Option<CometContentView> {
    match json_node_of(p) {
        Some(JsonView::Object(f)) => match int_member(f, "new_offset"@, i64::MIN as int, i64::MAX as int) {
            Some(new_offset) => match member_of(f, "data"@) {
                None => Some(CometContentView { new_offset: new_offset as i64, data: None }),
                Some(t) => match json_node_of(t) {
                    Some(JsonView::Null) => Some(
                        CometContentView { new_offset: new_offset as i64, data: None },
                    ),
                    Some(JsonView::Array(items)) => match units_of(items) {
                        Some(units) => Some(
                            CometContentView { new_offset: new_offset as i64, data: Some(units) },
                        ),
                        None => None,
                    },
                    _ => None,
                },
            },
            None => None,
        },
        _ => None,
    }
}

impl PlurkData {
    /// Decodes a post from the members of a JSON object.
    pub fn decode(fields: &Vec<(String, String)>) -> (r: Option<PlurkData>)
        ensures
            match plurk_data_of(members_view(fields@)) {
                Some(v) => r matches Some(p) && p@ == v,
                None => r is None,
            },
    {
        let plurk_id = match read_u64(fields, "plurk_id") {
            Some(x) => x,
            None => return None,
        };
        let owner_id = match read_u64(fields, "owner_id") {
            Some(x) => x,
            None => return None,
        };
        let user_id = match read_u64(fields, "user_id") {
            Some(x) => x,
            None => return None,
        };
        let posted = match read_time(fields, "posted") {
            Some(x) => x,
            None => return None,
        };
        let content = match read_str(fields, "content") {
            Some(x) => x,
            None => return None,
        };
        let content_raw = match read_str(fields, "content_raw") {
            Some(x) => x,
            None => return None,
        };
        let qualifier = match read_str(fields, "qualifier") {
            Some(x) => x,
            None => return None,
        };
        Some(PlurkData { plurk_id, owner_id, user_id, posted, content, content_raw, qualifier })
    }
}

impl CometResponse {
    /// Decodes a response from the members of a JSON object.
    pub fn decode(fields: &Vec<(String, String)>) -> (r: Option<CometResponse>)
        ensures
            match response_of(members_view(fields@)) {
                Some(v) => r matches Some(p) && p@ == v,
                None => r is None,
            },
    {
        let id = match read_u64(fields, "id") {
            Some(x) => x,
            None => return None,
        };
        let plurk_id = match read_u64(fields, "plurk_id") {
            Some(x) => x,
            None => return None,
        };
        let user_id = match read_u64(fields, "user_id") {
            Some(x) => x,
            None => return None,
        };
        let posted = match read_time(fields, "posted") {
            Some(x) => x,
            None => return None,
        };
        let content = match read_str(fields, "content") {
            Some(x) => x,
            None => return None,
        };
        let content_raw = match read_str(fields, "content_raw") {
            Some(x) => x,
            None => return None,
        };
        let qualifier = match read_str(fields, "qualifier") {
            Some(x) => x,
            None => return None,
        };
        Some(CometResponse { id, plurk_id, user_id, posted, content, content_raw, qualifier })
    }
}

impl PlurkUser {
    /// Decodes a user from the members of a JSON object.
    pub fn decode(fields: &Vec<(String, String)>) -> (r: Option<PlurkUser>)
        ensures
            match user_of(members_view(fields@)) {
                Some(v) => r matches Some(u) && u@ == v,
                None => r is None,
            },
    {
        let id = match read_u64(fields, "id") {
            Some(x) => x,
            None => return None,
        };
        let nick_name = match read_str(fields, "nick_name") {
            Some(x) => x,
            None => return None,
        };
        let display_name = match read_str(fields, "display_name") {
            Some(x) => x,
            None => return None,
        };
        Some(PlurkUser { id, nick_name, display_name })
    }

    /// Decodes a user from JSON text.
    pub fn from_json(text: &str) -> (r: Option<PlurkUser>)
        ensures
            match user_of_text(text@) {
                Some(v) => r matches Some(u) && u@ == v,
                None => r is None,
            },
    {
        match parse_json(text) {
            Some(JsonNode::Object(f)) => PlurkUser::decode(&f),
            _ => None,
        }
    }
}

/// The user of a profile answer: the object under its `user_info` member.
pub open spec fn profile_user_of(body: Seq<char>) -> Option<PlurkUserView> {
    match json_node_of(body) {
        Some(JsonView::Object(f)) => match object_member(f, "user_info"@) {
            Some(uf) => user_of(uf),
            None => None,
        },
        _ => None,
    }
}

impl PlurkUser {
    /// Decodes the user of a public-profile answer; fails with `ParseError`.
    pub fn from_profile(body: &str) -> (r: Result<PlurkUser, PlurkError>)
        ensures
            match profile_user_of(body@) {
                Some(v) => r matches Ok(u) && u@ == v,
                None => r matches Err(PlurkError::ParseError(_)),
            },
    {
        let decoded = match parse_json(body) {
            Some(JsonNode::Object(f)) => match read_object(&f, "user_info") {
                Some(uf) => PlurkUser::decode(&uf),
                None => None,
            },
            _ => None,
        };
        match decoded {
            Some(u) => Ok(u),
            None => Err(PlurkError::ParseError(String::from_str("malformed profile"))),
        }
    }

    /// `PlurkUser <nick name>(<id>) aka. <display name>`.
    pub fn describe(&self) -> (r: String)
        ensures
            r@ == "PlurkUser "@ + self.nick_name@ + "("@ + decimal_of(self.id as int) + ") aka. "@
                + self.display_name@,
    {
        String::from_str("PlurkUser ").concat(self.nick_name.as_str()).concat("(").concat(
            u64_text(self.id).as_str(),
        ).concat(") aka. ").concat(self.display_name.as_str())
    }
}

impl PlurkData {
    /// The post's permalink, author id, qualifier and raw text, on three lines.
    pub fn describe(&self) -> (r: String)
        ensures
            r@ == "Plurk ==> "@ + PERMALINK_BASE@ + base36_of(self.plurk_id as nat) + "\n"@
                + decimal_of(self.user_id as int) + " "@ + self.qualifier@ + "\n"@
                + self.content_raw@ + "\n"@,
    {
        String::from_str("Plurk ==> ").concat(permalink(self.plurk_id).as_str()).concat("\n").concat(
            u64_text(self.user_id).as_str(),
        ).concat(" ").concat(self.qualifier.as_str()).concat("\n").concat(
            self.content_raw.as_str(),
        ).concat("\n")
    }
}

impl CometNotiCount {
    /// Decodes unread counts from the members of a JSON object.
    pub fn decode(fields: &Vec<(String, String)>) -> (r: Option<CometNotiCount>)
        ensures
            r == counts_of(members_view(fields@)),
    {
        let noti = match read_u32(fields, "noti") {
            Some(x) => x,
            None => return None,
        };
        let req = match read_u32(fields, "req") {
            Some(x) => x,
            None => return None,
        };
        Some(CometNotiCount { noti, req })
    }
}

/// Decodes the responders of a response event from the members of its `user`
/// object.
pub fn decode_users(m: &Vec<(String, String)>) -> (r: Option<Vec<(String, PlurkUser)>>)
    ensures
        match users_of(members_view(m@)) {
            Some(v) => r matches Some(u) && users_view(u@) == v,
            None => r is None,
        },
{
    let ghost mv = members_view(m@);
    let mut out: Vec<(String, PlurkUser)> = Vec::new();
    let mut i: usize = 0;
    while i < m.len()
        invariant
            i <= m.len(),
            mv == members_view(m@),
            out@.len() == i,
            forall|j: int| 0 <= j < i ==> (#[trigger] user_of_text(mv[j].1)) is Some,
            forall|j: int|
                0 <= j < i ==> #[trigger] users_view(out@)[j] == (mv[j].0, user_of_text(mv[j].1)->0),
        decreases m.len() - i,
    {
        let key = m[i].0.clone();
        match PlurkUser::from_json(m[i].1.as_str()) {
            Some(u) => {
                let ghost before = out@;
                let ghost entry = (key, u);
                assert(mv[i as int] == (m@[i as int].0@, m@[i as int].1@));
                out.push((key, u));
                proof {
                    assert forall|j: int| 0 <= j < i + 1 implies #[trigger] users_view(out@)[j] == (
                        mv[j].0,
                        user_of_text(mv[j].1)->0,
                    ) by {
                        assert(users_view(out@)[j] == (out@[j].0@, out@[j].1@));
                        if j < i {
                            assert(out@[j] == before[j]);
                            assert(users_view(before)[j] == (before[j].0@, before[j].1@));
                        } else {
                            assert(out@[j] == entry);
                        }
                    }
                }
            },
            None => {
                assert(user_of_text(mv[i as int].1) is None);
                return None;
            },
        }
        i = i + 1;
    }
    assert(users_view(out@) =~= Seq::new(mv.len(), |j: int| (mv[j].0, user_of_text(mv[j].1)->0)));
    Some(out)
}

impl CometContentUnit {
    /// Decodes a `new_response` event from its members.
    fn decode_response(f: &Vec<(String, String)>) -> (r: Option<CometContentUnit>)
        ensures
            match response_unit_of(members_view(f@)) {
                Some(v) => r matches Some(u) && u@ == v,
                None => r is None,
            },
    {
        let plurk_id = match read_u64(f, "plurk_id") {
            Some(x) => x,
            None => return None,
        };
        let pf = match read_object(f, "plurk") {
            Some(x) => x,
            None => return None,
        };
        let rf = match read_object(f, "response") {
            Some(x) => x,
            None => return None,
        };
        let response_count = match read_u64(f, "response_count") {
            Some(x) => x,
            None => return None,
        };
        let uf = match read_object(f, "user") {
            Some(x) => x,
            None => return None,
        };
        let plurk_data = match PlurkData::decode(&pf) {
            Some(x) => x,
            None => return None,
        };
        let response = match CometResponse::decode(&rf) {
            Some(x) => x,
            None => return None,
        };
        let user = match decode_users(&uf) {
            Some(x) => x,
            None => return None,
        };
        Some(CometContentUnit::Response { plurk_id, plurk_data, response, response_count, user })
    }

    /// Decodes an event from the members of a JSON object, by its `type` tag:
    /// `new_response`, `new_plurk` or `update_notification`. Any other tag is
    /// rejected.
    pub fn decode(f: &Vec<(String, String)>) -> (r: Option<CometContentUnit>)
        ensures
            match unit_of(members_view(f@)) {
                Some(v) => r matches Some(u) && u@ == v,
                None => r is None,
            },
    {
        let tag = match read_str(f, "type") {
            Some(t) => t,
            None => return None,
        };
        if tag == String::from_str("new_response") {
            CometContentUnit::decode_response(f)
        } else if tag == String::from_str("new_plurk") {
            match PlurkData::decode(f) {
                Some(p) => Some(CometContentUnit::Plurk(p)),
                None => None,
            }
        } else if tag == String::from_str("update_notification") {
            match read_object(f, "counts") {
                Some(cf) => match CometNotiCount::decode(&cf) {
                    Some(counts) => Some(CometContentUnit::Notification { counts }),
                    None => None,
                },
                None => None,
            }
        } else {
            None
        }
    }

    /// Decodes an event from JSON text.
    pub fn from_json(text: &str) -> (r: Option<CometContentUnit>)
        ensures
            match unit_of_text(text@) {
                Some(v) => r matches Some(u) && u@ == v,
                None => r is None,
            },
    {
        match parse_json(text) {
            Some(JsonNode::Object(f)) => CometContentUnit::decode(&f),
            _ => None,
        }
    }
}

/// Decodes a batch of events, given the JSON text of each; `None` where any one
/// of them is malformed.
pub fn decode_units(items: &Vec<String>) -> (r: Option<Vec<CometContentUnit>>)
    ensures
        match units_of(items@.map_values(|t: String| t@)) {
            Some(v) => r matches Some(u) && units_view(u@) == v,
            None => r is None,
        },
{
    let ghost iv = items@.map_values(|t: String| t@);
    let mut out: Vec<CometContentUnit> = Vec::new();
    let mut i: usize = 0;
    while i < items.len()
        invariant
            i <= items.len(),
            iv == items@.map_values(|t: String| t@),
            out@.len() == i,
            forall|j: int| 0 <= j < i ==> (#[trigger] unit_of_text(iv[j])) is Some,
            forall|j: int| 0 <= j < i ==> #[trigger] units_view(out@)[j] == unit_of_text(iv[j])->0,
        decreases items.len() - i,
    {
        match CometContentUnit::from_json(items[i].as_str()) {
            Some(u) => {
                let ghost before = out@;
                let ghost unit = u;
                assert(iv[i as int] == items@[i as int]@);
                out.push(u);
                proof {
                    assert forall|j: int| 0 <= j < i + 1 implies #[trigger] units_view(out@)[j]
                        == unit_of_text(iv[j])->0 by {
                        assert(units_view(out@)[j] == out@[j]@);
                        if j < i {
                            assert(out@[j] == before[j]);
                            assert(units_view(before)[j] == before[j]@);
                        } else {
                            assert(out@[j] == unit);
                        }
                    }
                }
            },
            None => {
                assert(unit_of_text(iv[i as int]) is None);
                return None;
            },
        }
        i = i + 1;
    }
    assert(units_view(out@) =~= Seq::new(iv.len(), |j: int| unit_of_text(iv[j])->0));
    Some(out)
}

impl CometContent {
    /// Decodes the payload of a frame. Fails with `InvalidCometPayload`, holding
    /// the payload, where it is not such a payload or any of its events is
    /// malformed or of an unknown type.
    pub fn decode(payload: &str) -> (r: Result<CometContent, PlurkError>)
        ensures
            match content_of(payload@) {
                Some(v) => r matches Ok(c) && c@ == v,
                None => r matches Err(PlurkError::InvalidCometPayload(s)) && s@ == payload@,
            },
    {
        let fields = match parse_json(payload) {
            Some(JsonNode::Object(f)) => f,
            _ => return Err(PlurkError::InvalidCometPayload(String::from_str(payload))),
        };
        let new_offset = match read_i64(&fields, "new_offset") {
            Some(x) => x,
            None => return Err(PlurkError::InvalidCometPayload(String::from_str(payload))),
        };
        let data = match member(&fields, "data") {
            None => None,
            Some(t) => match parse_json(t.as_str()) {
                Some(JsonNode::Null) => None,
                Some(JsonNode::Array(items)) => match decode_units(&items) {
                    Some(units) => Some(units),
                    None => return Err(PlurkError::InvalidCometPayload(String::from_str(payload))),
                },
                _ => return Err(PlurkError::InvalidCometPayload(String::from_str(payload))),
            },
        };
        Ok(CometContent { new_offset, data })
    }
}

/// The first responder keyed `key`.
pub open spec fn user_entry(users: UsersView, key: Seq<char>) -> Option<PlurkUserView>
    decreases users.len(),
{
    if users.len() == 0 {
        None
    } else if users[0].0 == key {
        Some(users[0].1)
    } else {
        user_entry(users.drop_first(), key)
    }
}

/// Where a post can be read.
pub const PERMALINK_BASE: &'static str = "https://www.plurk.com/p/";

/// The permalink of the post `plurk_id`: its id in base 36 after `PERMALINK_BASE`.
pub fn permalink(plurk_id: u64) -> (r: String)
    ensures
        r@ == PERMALINK_BASE@ + base36_of(plurk_id as nat),
{
    String::from_str(PERMALINK_BASE).concat(base36_encode(plurk_id).as_str())
}

/// The user keyed by the decimal id `id` among `users`.
pub fn find_user(users: &Vec<(String, PlurkUser)>, id: u64) -> (r: Option<&PlurkUser>)
    ensures
        match user_entry(users_view(users@), decimal_of(id as int)) {
            Some(u) => r matches Some(x) && x@ == u,
            None => r is None,
        },
{
    let key = u64_text(id);
    let ghost all = users_view(users@);
    assert(all.subrange(0, all.len() as int) =~= all);
    let mut i: usize = 0;
    while i < users.len()
        invariant
            i <= users.len(),
            all == users_view(users@),
            key@ == decimal_of(id as int),
            user_entry(all, key@) == user_entry(all.subrange(i as int, all.len() as int), key@),
        decreases users.len() - i,
    {
        let ghost rest = all.subrange(i as int, all.len() as int);
        assert(rest[0] == (users@[i as int].0@, users@[i as int].1@));
        if users[i].0 == key {
            assert(user_entry(rest, key@) == Some(users@[i as int].1@));
            return Some(&users[i].1);
        }
        assert(rest.drop_first() =~= all.subrange(i + 1, all.len() as int));
        i = i + 1;
    }
    None
}

impl CometContentUnit {
    /// The author of the response of a response event, looked up among its
    /// responders by decimal id; `None` for other events or where the server
    /// left the author out.
    pub fn responder(&self) -> (r: Option<&PlurkUser>)
        ensures
            match self@ {
                CometContentUnitView::Response { response, user, .. } => match user_entry(
                    user,
                    decimal_of(response.user_id as int),
                ) {
                    Some(u) => r matches Some(x) && x@ == u,
                    None => r is None,
                },
                _ => r is None,
            },
    {
        match self {
            CometContentUnit::Response { response, user, .. } => find_user(user, response.user_id),
            _ => None,
        }
    }
}

/// The post that the JSON text `t` describes.
pub open spec fn plurk_of_text(t: Seq<char>) -> Option<PlurkDataView> {
    match json_node_of(t) {
        Some(JsonView::Object(f)) => plurk_data_of(f),
        _ => None,
    }
}

/// The posts of a list, in order; `None` where any one of them is malformed.
pub open spec fn plurks_of(items: Seq<Seq<char>>) -> Option<Seq<PlurkDataView>> {
    if forall|i: int| 0 <= i < items.len() ==> (#[trigger] plurk_of_text(items[i])) is Some {
        Some(Seq::new(items.len(), |i: int| plurk_of_text(items[i])->0))
    } else {
        None
    }
}

pub open spec fn plurks_view(plurks: Seq<PlurkData>) -> Seq<PlurkDataView> {
    plurks.map_values(|p: PlurkData| p@)
}

/// Decodes a list of posts, given the JSON text of each; `None` where any one
/// of them is malformed.
pub fn decode_plurks(items: &Vec<String>) -> (r: Option<Vec<PlurkData>>)
    ensures
        match plurks_of(items@.map_values(|t: String| t@)) {
            Some(v) => r matches Some(p) && plurks_view(p@) == v,
            None => r is None,
        },
{
    let ghost iv = items@.map_values(|t: String| t@);
    let mut out: Vec<PlurkData> = Vec::new();
    let mut i: usize = 0;
    while i < items.len()
        invariant
            i <= items.len(),
            iv == items@.map_values(|t: String| t@),
            out@.len() == i,
            forall|j: int| 0 <= j < i ==> (#[trigger] plurk_of_text(iv[j])) is Some,
            forall|j: int| 0 <= j < i ==> #[trigger] plurks_view(out@)[j] == plurk_of_text(iv[j])->0,
        decreases items.len() - i,
    {
        let decoded = match parse_json(items[i].as_str()) {
            Some(JsonNode::Object(f)) => PlurkData::decode(&f),
            _ => None,
        };
        assert(iv[i as int] == items@[i as int]@);
        match decoded {
            Some(p) => {
                let ghost before = out@;
                let ghost post = p;
                out.push(p);
                proof {
                    assert forall|j: int| 0 <= j < i + 1 implies #[trigger] plurks_view(out@)[j]
                        == plurk_of_text(iv[j])->0 by {
                        assert(plurks_view(out@)[j] == out@[j]@);
                        if j < i {
                            assert(out@[j] == before[j]);
                            assert(plurks_view(before)[j] == before[j]@);
                        } else {
                            assert(out@[j] == post);
                        }
                    }
                }
            },
            None => {
                assert(plurk_of_text(iv[i as int]) is None);
                return None;
            },
        }
        i = i + 1;
    }
    assert(plurks_view(out@) =~= Seq::new(iv.len(), |j: int| plurk_of_text(iv[j])->0));
    Some(out)
}

} // verus!
