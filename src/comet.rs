//! The realtime channel: negotiating it, building its poll and knock requests,
//! and adopting what each poll answers.
use crate::content::{content_of, CometContent, CometContentUnit, CometContentView, units_view};
use crate::error::{PlurkError, PlurkErrorView};
use crate::frame::{frame_payload, strip_frame};
use crate::json::{member, member_of, members_view, parse_json, read_str, str_member, json_node_of, JsonNode, JsonView, Members};
use crate::urls::{join_url, query_pairs, query_pairs_of, url_join_of, url_query, url_query_of, url_with_params, url_with_params_of};
use crate::utils::{decimal_in, decimal_of, i64_text, parse_i64};
use vstd::prelude::*;
use vstd::string::*;

verus! {

/// The endpoint that keeps a channel alive.
pub const COMET_KNOCK: &'static str = "https://www.plurk.com/_comet/generic";

/// The path, relative to the negotiated server, that is polled.
pub const COMET_PATH: &'static str = "comet";

/// How long, in seconds, one poll may be held open by the server.
pub const POLL_TIMEOUT_SECS: u64 = 120;

/// The body of the "get user channel" answer.
#[derive(Debug, Clone)]
pub struct UserChannel {
    pub comet_server: String,
    pub channel_name: String,
}

pub struct UserChannelView {
    pub comet_server: Seq<char>,
    pub channel_name: Seq<char>,
}

impl View for UserChannel {
    type V = UserChannelView;

    open spec fn view(&self) -> UserChannelView {
        UserChannelView { comet_server: self.comet_server@, channel_name: self.channel_name@ }
    }
}

/// The "get user channel" answer that the JSON text `body` holds.
pub open spec fn user_channel_of(body: Seq<char>) -> Option<UserChannelView> {
    match json_node_of(body) {
        Some(JsonView::Object(f)) => match (
            str_member(f, "comet_server"@),
            str_member(f, "channel_name"@),
        ) {
            (Some(comet_server), Some(channel_name)) => Some(
                UserChannelView { comet_server, channel_name },
            ),
            _ => None,
        },
        _ => None,
    }
}

impl UserChannel {
    /// Decodes the "get user channel" answer; fails with `ParseError`.
    pub fn from_json(body: &str) -> (r: Result<UserChannel, PlurkError>)
        ensures
            match user_channel_of(body@) {
                Some(v) => r matches Ok(u) && u@ == v,
                None => r matches Err(PlurkError::ParseError(_)),
            },
    {
        let fields = match parse_json(body) {
            Some(JsonNode::Object(f)) => f,
            _ => return Err(PlurkError::ParseError(String::from_str("user channel is no JSON object"))),
        };
        let comet_server = match read_str(&fields, "comet_server") {
            Some(s) => s,
            None => return Err(PlurkError::ParseError(String::from_str("missing comet_server"))),
        };
        let channel_name = match read_str(&fields, "channel_name") {
            Some(s) => s,
            None => return Err(PlurkError::ParseError(String::from_str("missing channel_name"))),
        };
        Ok(UserChannel { comet_server, channel_name })
    }
}

/// A negotiated channel: where to poll, under which name, and from which
/// cursor. Only a poll's answer moves the cursor.
#[derive(Debug, Clone)]
pub struct PlurkComet {
    base_url: String,
    channel: String,
    offset: i64,
}

pub struct CometView {
    pub base_url: Seq<char>,
    pub channel: Seq<char>,
    pub offset: i64,
}

impl View for PlurkComet {
    type V = CometView;

    closed spec fn view(&self) -> CometView {
        CometView { base_url: self.base_url@, channel: self.channel@, offset: self.offset }
    }
}

/// The channel name and cursor that the pairs of the server URL's query hold.
pub open spec fn channel_fields_of(pairs: Members) -> Option<(Seq<char>, i64)> {
    match (member_of(pairs, "channel"@), member_of(pairs, "offset"@)) {
        (Some(channel), Some(offset)) => match decimal_in(offset, i64::MIN as int, i64::MAX as int) {
            Some(v) => Some((channel, v as i64)),
            None => None,
        },
        _ => None,
    }
}

/// The parameters of a poll of `c`.
pub open spec fn poll_params(c: CometView) -> Members {
    seq![("channel"@, c.channel), ("offset"@, decimal_of(c.offset as int))]
}

/// The parameters of a knock on `c`.
pub open spec fn knock_params(c: CometView) -> Members {
    seq![("channel"@, c.channel)]
}

/// What the long-poll response `body` decodes to, or the error it gives.
pub open spec fn poll_answer_of(body: Seq<char>) -> Result<CometContentView, PlurkErrorView> {
    match frame_payload(body) {
        None => Err(PlurkErrorView::InvalidCometData(body)),
        Some(p) => match content_of(p) {
            Some(v) => Ok(v),
            None => Err(PlurkErrorView::InvalidCometPayload(p)),
        },
    }
}

impl PlurkComet {
    /// Builds a channel from the pairs of the server URL's query and the URL to
    /// poll. Fails with `ParseError` where `channel` or `offset` is missing or
    /// `offset` is no 64-bit integer.
    pub fn from_query(pairs: &Vec<(String, String)>, base_url: String) -> (r: Result<PlurkComet, PlurkError>)
        ensures
            match channel_fields_of(members_view(pairs@)) {
                Some((channel, offset)) => r matches Ok(c) && c@ == (CometView { base_url: base_url@, channel, offset }),
                None => r matches Err(PlurkError::ParseError(_)),
            },
    {
        let channel = match member(pairs, "channel") {
            Some(c) => c.clone(),
            None => return Err(PlurkError::ParseError(String::from_str("missing field `channel`"))),
        };
        let offset = match member(pairs, "offset") {
            Some(o) => match parse_i64(o.as_str()) {
                Some(v) => v,
                None => return Err(PlurkError::ParseError(String::from_str("invalid field `offset`"))),
            },
            None => return Err(PlurkError::ParseError(String::from_str("missing field `offset`"))),
        };
        Ok(PlurkComet { base_url, channel, offset })
    }

    /// Builds a channel from the server URL of the negotiation answer: its
    /// query holds `channel` and `offset`, URL-encoded, and the URL to poll is
    /// `comet` resolved against it.
    ///
    /// Fails with `InvalidUrl` where the URL has no query, and with
    /// `ParseError` where it is no absolute URL or its query lacks a field.
    pub fn new(comet_url: &str) -> (r: Result<PlurkComet, PlurkError>)
        ensures
            match url_query_of(comet_url@) {
                None => r matches Err(PlurkError::ParseError(_)),
                Some(None) => r matches Err(PlurkError::InvalidUrl(s)) && s@ == comet_url@,
                Some(Some(q)) => match query_pairs_of(q) {
                    None => r matches Err(PlurkError::ParseError(_)),
                    Some(pairs) => match channel_fields_of(pairs) {
                        None => r matches Err(PlurkError::ParseError(_)),
                        Some((channel, offset)) => match url_join_of(comet_url@, COMET_PATH@) {
                            None => r matches Err(PlurkError::ParseError(_)),
                            Some(base_url) => r matches Ok(c) && c@ == (CometView { base_url, channel, offset }),
                        },
                    },
                },
            },
    {
        let query = match url_query(comet_url) {
            Ok(Some(q)) => q,
            Ok(None) => return Err(PlurkError::InvalidUrl(String::from_str(comet_url))),
            Err(e) => return Err(PlurkError::ParseError(e)),
        };
        let pairs = match query_pairs(query.as_str()) {
            Ok(p) => p,
            Err(e) => return Err(PlurkError::ParseError(e)),
        };
        let base_url = match join_url(comet_url, COMET_PATH) {
            Ok(u) => u,
            Err(e) => return Err(PlurkError::ParseError(e)),
        };
        PlurkComet::from_query(&pairs, base_url)
    }

    /// Builds a channel from the body of the "get user channel" answer, by
    /// `new` on its `comet_server`.
    pub fn from_channel_body(body: &str) -> (r: Result<PlurkComet, PlurkError>)
        ensures
            match user_channel_of(body@) {
                None => r matches Err(PlurkError::ParseError(_)),
                Some(uc) => match PlurkComet::new_spec(uc.comet_server) {
                    Some(v) => r matches Ok(c) && c@ == v,
                    None => r is Err,
                },
            },
    {
        let channel = UserChannel::from_json(body)?;
        PlurkComet::new(channel.comet_server.as_str())
    }

    /// The channel that `new` builds from `comet_url`, where it succeeds.
    pub open spec fn new_spec(comet_url: Seq<char>) -> Option<CometView> {
        match url_query_of(comet_url) {
            Some(Some(q)) => match query_pairs_of(q) {
                Some(pairs) => match channel_fields_of(pairs) {
                    Some((channel, offset)) => match url_join_of(comet_url, COMET_PATH@) {
                        Some(base_url) => Some(CometView { base_url, channel, offset }),
                        None => None,
                    },
                    None => None,
                },
                None => None,
            },
            _ => None,
        }
    }

    /// Decodes a long-poll response: takes the payload out of its frame, then
    /// decodes the payload. Fails with `InvalidCometData` where the response is
    /// not framed, and with `InvalidCometPayload` where the payload is
    /// malformed.
    pub fn query(comet_callback: &str) -> (r: Result<CometContent, PlurkError>)
        ensures
            match poll_answer_of(comet_callback@) {
                Ok(v) => r matches Ok(c) && c@ == v,
                Err(e) => r matches Err(re) && re@ == e,
            },
    {
        let payload = strip_frame(comet_callback)?;
        CometContent::decode(payload.as_str())
    }

    /// The URL of the next poll: the polling URL with `channel` and `offset`
    /// (in decimal) as query parameters. Fails with `UrlError`.
    pub fn poll_url(&self) -> (r: Result<String, PlurkError>)
        ensures
            match url_with_params_of(self@.base_url, poll_params(self@)) {
                Some(u) => r matches Ok(s) && s@ == u,
                None => r matches Err(PlurkError::UrlError),
            },
    {
        let mut params: Vec<(String, String)> = Vec::new();
        params.push((String::from_str("channel"), self.channel.clone()));
        params.push((String::from_str("offset"), i64_text(self.offset)));
        assert(members_view(params@) =~= poll_params(self@));
        match url_with_params(self.base_url.as_str(), &params) {
            Ok(u) => Ok(u),
            Err(_) => Err(PlurkError::UrlError),
        }
    }

    /// The URL of a knock on this channel: `COMET_KNOCK` with `channel` as its
    /// one query parameter. Fails with `UrlError`.
    pub fn knock_url(&self) -> (r: Result<String, PlurkError>)
        ensures
            match url_with_params_of(COMET_KNOCK@, knock_params(self@)) {
                Some(u) => r matches Ok(s) && s@ == u,
                None => r matches Err(PlurkError::UrlError),
            },
    {
        let mut params: Vec<(String, String)> = Vec::new();
        params.push((String::from_str("channel"), self.channel.clone()));
        assert(members_view(params@) =~= knock_params(self@));
        match url_with_params(COMET_KNOCK, &params) {
            Ok(u) => Ok(u),
            Err(_) => Err(PlurkError::UrlError),
        }
    }

    /// Adopts the answer of one poll: on success the cursor becomes the
    /// server's `new_offset`, verbatim, and the events are returned in the
    /// order sent; on failure the channel is left as it was.
    pub fn poll_once_mut(&mut self, body: &str) -> (r: Result<Option<Vec<CometContentUnit>>, PlurkError>)
        ensures
            match poll_answer_of(body@) {
                Ok(v) => {
                    &&& final(self)@ == (CometView { offset: v.new_offset, ..old(self)@ })
                    &&& r matches Ok(data) && match data {
                        Some(units) => v.data == Some(units_view(units@)),
                        None => v.data is None,
                    }
                },
                Err(e) => {
                    &&& *final(self) == *old(self)
                    &&& r matches Err(re) && re@ == e
                },
            },
    {
        let res = PlurkComet::query(body)?;
        self.offset = res.new_offset;
        Ok(res.data)
    }

    /// The polling URL.
    pub fn base_url(&self) -> (r: &String)
        ensures
            r@ == self@.base_url,
    {
        &self.base_url
    }

    /// The channel's name.
    pub fn channel(&self) -> (r: &String)
        ensures
            r@ == self@.channel,
    {
        &self.channel
    }

    /// The cursor to poll from next.
    pub fn offset(&self) -> (r: i64)
        ensures
            r == self@.offset,
    {
        self.offset
    }

    /// A multi-line description of the channel.
    pub fn describe(&self) -> (r: String)
        ensures
            r@ == "<Comet>:\n\tBase Url: "@ + self@.base_url + "\n\tChannel: "@ + self@.channel
                + "\n\tOffset: "@ + decimal_of(self@.offset as int),
    {
        String::from_str("<Comet>:\n\tBase Url: ").concat(self.base_url.as_str()).concat(
            "\n\tChannel: ",
        ).concat(self.channel.as_str()).concat("\n\tOffset: ").concat(
            i64_text(self.offset).as_str(),
        )
    }
}

} // verus!
