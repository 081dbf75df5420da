//! Webhooks: posting messages and records through webhook URLs obtained in
//! the product, outside the authenticated API.

pub mod buzz;
pub mod dataset;
pub mod integration;

use crate::json::{JVal, JsonValue, jview, views_of_pairs};
use vstd::prelude::*;

verus! {

/// A plain POST against a webhook URL: no token exchange is involved.
#[derive(Debug, PartialEq, Eq)]
pub struct WebhookRequest {
    pub url: String,
    pub headers: Vec<(String, String)>,
    pub body: JsonValue,
}

#[verifier::ext_equal]
pub struct WebhookRequestV {
    pub url: Seq<char>,
    pub headers: Seq<(Seq<char>, Seq<char>)>,
    pub body: JVal,
}

impl View for WebhookRequest {
    type V = WebhookRequestV;

    open spec fn view(&self) -> WebhookRequestV {
        WebhookRequestV {
            url: self.url@,
            headers: views_of_pairs(self.headers@),
            body: jview(self.body),
        }
    }
}

/// The webhook client. Webhook URLs carry their own authorisation, so it
/// holds no credentials.
#[derive(Debug, PartialEq, Eq)]
pub struct Client {}

impl Client {
    /// A webhook client.
    pub fn new() -> (r: Self) {
        Self {  }
    }
}

impl core::default::Default for Client {
    fn default() -> (r: Self)
        ensures
            r == (Client {  }),
    {
        Client {  }
    }
}

} // verus!
