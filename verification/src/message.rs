//! Notifications through the WxPusher message service.
use vstd::prelude::*;
use crate::json::Json;
use crate::request::{Body, Method, Request, headers_view, header};

verus! {

/// A sender of WxPusher messages: its app token, the service endpoint and
/// the user ids that receive the messages.
pub struct WxPusher {
    app_token: String,
    base_url: String,
    user_ids: String,
}

/// The endpoint that accepts messages.
pub open spec fn wx_endpoint() -> Seq<char> {
    "https://wxpusher.zjiecode.com/api/send/message"@
}

/// The user ids that a new sender addresses.
pub open spec fn default_user_ids() -> Seq<char> {
    "UID_jhavxjntRoEkhw6xGVqSEZGNFDbD"@
}

/// `j` is the message document with these members, in this order:
/// `appToken`, `content`, `summary`, `contentType` 2 (HTML),
/// `verifyPayType` 0 and `uids`, an array holding the one string `uids`.
pub open spec fn is_message(j: Json, token: Seq<char>, content: Seq<char>, summary: Seq<char>, uids: Seq<char>) -> bool {
    match j {
        Json::Object(entries) => {
            &&& entries@.map_values(|e: (String, Json)| e.0@) == seq![
                "appToken"@, "content"@, "summary"@, "contentType"@, "verifyPayType"@, "uids"@,
            ]
            &&& entries@[0].1.text_value() == Some(token)
            &&& entries@[1].1.text_value() == Some(content)
            &&& entries@[2].1.text_value() == Some(summary)
            &&& entries@[3].1 == Json::PosInt(2)
            &&& entries@[4].1 == Json::PosInt(0)
            &&& entries@[5].1.items() matches Some(us) && us.len() == 1 && us[0].text_value() == Some(uids)
        },
        _ => false,
    }
}

/// `r` posts the message document to `url` as JSON.
pub open spec fn is_message_request(
    r: Request,
    url: Seq<char>,
    token: Seq<char>,
    content: Seq<char>,
    summary: Seq<char>,
    uids: Seq<char>,
) -> bool {
    &&& r.method == Method::Post
    &&& r.url@ == url
    &&& headers_view(r.headers@) == seq![("Content-Type"@, "application/json"@)]
    &&& r.body matches Body::Json(j) && is_message(j, token, content, summary, uids)
}

fn text(s: &str) -> (j: Json)
    ensures
        j.text_value() == Some(s@),
{
    Json::Str(String::from_str(s))
}

impl WxPusher {
    /// A sender posts to the service's endpoint for the one fixed user id.
    #[verifier::type_invariant]
    spec fn addressed(self) -> bool {
        &&& self.base_url@ == wx_endpoint()
        &&& self.user_ids@ == default_user_ids()
    }

    pub closed spec fn token(&self) -> Seq<char> {
        self.app_token@
    }

    /// A sender with app token `token`.
    pub fn new(token: String) -> (r: Self)
        ensures
            r.token() == token@,
    {
        let users = String::from_str("UID_jhavxjntRoEkhw6xGVqSEZGNFDbD");
        WxPusher {
            app_token: token,
            base_url: String::from_str("https://wxpusher.zjiecode.com/api/send/message"),
            user_ids: users,
        }
    }

    fn message(&self, content: &str, summary: &str) -> (r: Request)
        ensures
            is_message_request(r, wx_endpoint(), self.token(), content@, summary@, default_user_ids()),
    {
        proof { use_type_invariant(self); }
        let uids = vec![Json::Str(self.user_ids.clone())];
        let entries = vec![
            (String::from_str("appToken"), Json::Str(self.app_token.clone())),
            (String::from_str("content"), text(content)),
            (String::from_str("summary"), text(summary)),
            (String::from_str("contentType"), Json::PosInt(2)),
            (String::from_str("verifyPayType"), Json::PosInt(0)),
            (String::from_str("uids"), Json::Array(uids)),
        ];
        assert(entries@.map_values(|e: (String, Json)| e.0@) =~= seq![
            "appToken"@, "content"@, "summary"@, "contentType"@, "verifyPayType"@, "uids"@,
        ]);
        let headers = vec![header("Content-Type", "application/json")];
        assert(headers_view(headers@) =~= seq![("Content-Type"@, "application/json"@)]);
        Request {
            method: Method::Post,
            url: self.base_url.clone(),
            headers,
            body: Body::Json(Json::Object(entries)),
        }
    }

    /// The test message: an HTML heading with summary "消息摘要2".
    pub fn test_push(&self) -> (r: Request)
        ensures
            is_message_request(r, wx_endpoint(), self.token(), "<h1>H1标题</h1>"@, "消息摘要2"@, default_user_ids()),
    {
        self.message("<h1>H1标题</h1>", "消息摘要2")
    }

    /// A message with content `msg` and summary "消息摘要2".
    pub fn push_msg(&self, msg: String) -> (r: Request)
        ensures
            is_message_request(r, wx_endpoint(), self.token(), msg@, "消息摘要2"@, default_user_ids()),
    {
        self.message(msg.as_str(), "消息摘要2")
    }

    /// A message with content `msg` and summary `summary`.
    pub fn push_summary(&self, summary: String, msg: String) -> (r: Request)
        ensures
            is_message_request(r, wx_endpoint(), self.token(), msg@, summary@, default_user_ids()),
    {
        self.message(msg.as_str(), summary.as_str())
    }
}

} // verus!
