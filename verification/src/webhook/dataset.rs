//! Sending raw JSON records into a webhook dataset.

use crate::json::{JsonValue, jview};
use crate::webhook::{Client, WebhookRequest};
use vstd::prelude::*;

verus! {

impl Client {
    /// The plain POST that sends one JSON record into the dataset behind a
    /// webhook URL obtained in the product.
    pub fn post_dataset_json(&self, url: &str, obj: JsonValue) -> (r: WebhookRequest)
        ensures
            r@.url == url@,
            r@.headers == Seq::<(Seq<char>, Seq<char>)>::empty(),
            r@.body == jview(obj),
    {
        let r = WebhookRequest { url: url.to_owned(), headers: Vec::new(), body: obj };
        proof {
            assert(crate::json::views_of_pairs(r.headers@) =~= Seq::<
                (Seq<char>, Seq<char>),
            >::empty());
        }
        r
    }
}

} // verus!
