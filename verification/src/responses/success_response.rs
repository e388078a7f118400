use vstd::prelude::*;
use crate::responses::status::Status;
use crate::text::opt_string_text;

verus! {

/// A successful API answer: an optional message, optional JSON data (as
/// text) and a status.
#[derive(Debug)]
pub struct APIResponse {
    pub message: Option<String>,
    pub data: Option<String>,
    pub status: Status,
}

/// What an `APIResponse` sends as its JSON body.
#[derive(Debug, PartialEq, Eq)]
pub enum ResponseBody {
    /// The data, as it is.
    Data(String),
    /// An object whose `message` field holds the text.
    Message(String),
}

impl APIResponse {
    /// Change the message of the response.
    pub fn message(self, message: &str) -> (r: APIResponse)
        ensures
            opt_string_text(r.message) == Some(message@),
            opt_string_text(r.data) == opt_string_text(self.data),
            r.status == self.status,
    {
        APIResponse { message: Some(message.to_owned()), data: self.data, status: self.status }
    }

    /// Change the data of the response.
    pub fn data(self, data: String) -> (r: APIResponse)
        ensures
            opt_string_text(r.data) == Some(data@),
            opt_string_text(r.message) == opt_string_text(self.message),
            r.status == self.status,
    {
        APIResponse { message: self.message, data: Some(data), status: self.status }
    }

    /// The body sent: the data when there is any, else the message; a
    /// response with neither is never sent.
    pub fn body(self) -> (b: ResponseBody)
        requires
            self.data is Some || self.message is Some,
        ensures
            match self.data {
                Some(d) => b == ResponseBody::Data(d),
                None => b == ResponseBody::Message(self.message.unwrap()),
            },
    {
        match (self.data, self.message) {
            (Some(data), _) => ResponseBody::Data(data),
            (None, Some(message)) => ResponseBody::Message(message),
            (None, None) => ResponseBody::Data(String::new()),
        }
    }
}

} // verus!
