//! Posting a message into a buzz channel through a webhook URL.

use crate::json::{
    JVal, JsonValue, field_opt_string, field_str_default, j_opt_string, lemma_jview_obj, ostr, put_field, spec_field_opt_str, spec_field_str_default,
    spec_fields, spec_j_opt_str, spec_lookup,
};
use crate::webhook::{Client, WebhookRequest};
use vstd::prelude::*;

verus! {

/// A message posted into a channel: an optional title and markdown text.
/// The text decodes to the empty string when absent, as a non-optional
/// field with a container default.
#[derive(Debug, PartialEq, Eq)]
pub struct Message {
    pub title: Option<String>,
    pub text: String,
}

#[verifier::ext_equal]
pub struct MessageV {
    pub title: Option<Seq<char>>,
    pub text: Seq<char>,
}

impl View for Message {
    type V = MessageV;

    open spec fn view(&self) -> MessageV {
        MessageV { title: ostr(self.title), text: self.text@ }
    }
}

pub open spec fn spec_message_json(v: MessageV) -> JVal {
    JVal::Obj(seq![("title"@, spec_j_opt_str(v.title)), ("text"@, JVal::Str(v.text))])
}

pub open spec fn spec_message_from(j: JVal) -> Option<MessageV> {
    match j {
        JVal::Obj(fields) => {
            let title = spec_field_opt_str(fields, "title"@);
            let text = spec_field_str_default(fields, "text"@);
            if title is Err || text is Err {
                None
            } else {
                Some(MessageV { title: title->Ok_0, text: text->Ok_0 })
            }
        },
        _ => None,
    }
}

impl Message {
    /// The message as a JSON document.
    pub fn to_json(&self) -> (r: JsonValue)
        ensures
            r@ == spec_message_json(self@),
    {
        let mut f: Vec<(String, JsonValue)> = Vec::new();
        put_field(&mut f, "title", j_opt_string(&self.title));
        put_field(&mut f, "text", JsonValue::Str(self.text.clone()));
        let r = JsonValue::Obj(f);
        proof {
            broadcast use lemma_jview_obj;

            assert(spec_fields(r->Obj_0@) =~= spec_message_json(self@)->Obj_0);
        }
        r
    }

    /// The message a well-formed body decodes to.
    pub fn from_json(v: &JsonValue) -> (r: Option<Message>)
        ensures
            match r {
                Some(m) => spec_message_from(v@) == Some(m@),
                None => spec_message_from(v@) is None,
            },
    {
        proof {
            broadcast use lemma_jview_obj;

        }
        match v {
            JsonValue::Obj(fields) => {
                let title = match field_opt_string(fields, "title") {
                    Ok(x) => x,
                    Err(_) => {
                        return None;
                    },
                };
                let text = match field_str_default(fields, "text") {
                    Ok(x) => x,
                    Err(_) => {
                        return None;
                    },
                };
                Some(Message { title, text })
            },
            _ => None,
        }
    }
}

/// Decoding an encoded message gives back the same message.
pub proof fn lemma_message_roundtrip(m: MessageV)
    ensures
        spec_message_from(spec_message_json(m)) == Some(m),
{
    reveal_strlit("title");
    reveal_strlit("text");
    reveal_with_fuel(spec_lookup, 4);
    assert("title"@.len() == 5);
    assert("text"@.len() == 4);
    assert(spec_message_from(spec_message_json(m)) matches Some(h) && h =~= m);
}

impl Client {
    /// The plain POST that puts a message into the channel behind a webhook
    /// URL obtained in the product.
    pub fn post_buzz_message(&self, url: &str, message: Message) -> (r: WebhookRequest)
        ensures
            r@.url == url@,
            r@.headers == Seq::<(Seq<char>, Seq<char>)>::empty(),
            r@.body == spec_message_json(message@),
    {
        let r = WebhookRequest {
            url: url.to_owned(),
            headers: Vec::new(),
            body: message.to_json(),
        };
        proof {
            assert(crate::json::views_of_pairs(r.headers@) =~= Seq::<
                (Seq<char>, Seq<char>),
            >::empty());
        }
        r
    }
}

} // verus!
