//! Replying to a buzz event through an integration's callback.

use crate::json::{JVal, JsonValue, lemma_jview_obj, put_field, spec_fields};
use crate::webhook::{Client, WebhookRequest};
use vstd::prelude::*;

verus! {

impl Client {
    /// The POST that answers an event: the reply text wrapped under a
    /// `content` object, authorised by the bot token header the event's
    /// subscription supplies.
    pub fn post_integration_message(&self, url: &str, token: &str, message: &str) -> (r:
        WebhookRequest)
        ensures
            r@.url == url@,
            r@.headers == seq![("x-buzz-bot-token"@, token@)],
            r@.body == JVal::Obj(
                seq![("content"@, JVal::Obj(seq![("text"@, JVal::Str(message@))]))],
            ),
    {
        let mut inner: Vec<(String, JsonValue)> = Vec::new();
        put_field(&mut inner, "text", JsonValue::Str(message.to_owned()));
        let content = JsonValue::Obj(inner);
        let mut outer: Vec<(String, JsonValue)> = Vec::new();
        proof {
            broadcast use lemma_jview_obj;

            assert(spec_fields(content->Obj_0@) =~= seq![("text"@, JVal::Str(message@))]);
        }
        put_field(&mut outer, "content", content);
        let body = JsonValue::Obj(outer);
        let mut headers: Vec<(String, String)> = Vec::new();
        headers.push(("x-buzz-bot-token".to_owned(), token.to_owned()));
        let r = WebhookRequest { url: url.to_owned(), headers, body };
        proof {
            broadcast use lemma_jview_obj;

            assert(spec_fields(body->Obj_0@) =~= seq![
                ("content"@, JVal::Obj(seq![("text"@, JVal::Str(message@))])),
            ]);
            assert(crate::json::views_of_pairs(r.headers@) =~= seq![
                ("x-buzz-bot-token"@, token@),
            ]);
        }
        r
    }
}

} // verus!
