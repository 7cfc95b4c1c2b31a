//! The two envelopes of the tunnel protocol and their mathematical views.

use vstd::prelude::*;

verus! {

/// What an optional string holds, as an optional sequence of characters.
pub open spec fn text_of(o: Option<String>) -> Option<Seq<char>> {
    match o {
        Some(s) => Some(s@),
        None => None,
    }
}

/// The view of an outbound envelope.
pub struct ClientEnvelope {
    pub kind: Seq<char>,
    pub id: Option<Seq<char>>,
    pub code: Option<Seq<char>>,
    pub status: Option<u16>,
    pub content: Option<Seq<char>>,
}

/// The view of an inbound envelope.
pub struct ServerEnvelope {
    pub kind: Seq<char>,
    pub method: Seq<char>,
    pub url: Seq<char>,
    pub id: Option<Seq<char>>,
}

/// An outbound message: the pairing announcement or the reply to a command.
#[derive(Debug, PartialEq, Clone)]
pub struct HOSClientReq {
    pub _type: String,
    pub id: Option<String>,
    pub code: Option<String>,
    pub status: Option<u16>,
    pub content: Option<String>,
}

/// An inbound message: a command of the relay.
#[derive(Debug, PartialEq, Clone)]
pub struct HOSServerReq {
    pub _type: String,
    pub method: String,
    pub url: String,
    pub id: Option<String>,
}

impl View for HOSClientReq {
    type V = ClientEnvelope;

    open spec fn view(&self) -> ClientEnvelope {
        ClientEnvelope {
            kind: self._type@,
            id: text_of(self.id),
            code: text_of(self.code),
            status: self.status,
            content: text_of(self.content),
        }
    }
}

impl View for HOSServerReq {
    type V = ServerEnvelope;

    open spec fn view(&self) -> ServerEnvelope {
        ServerEnvelope {
            kind: self._type@,
            method: self.method@,
            url: self.url@,
            id: text_of(self.id),
        }
    }
}

impl ClientEnvelope {
    /// A pairing envelope carries its kind and at most the pairing token.
    pub open spec fn is_pairing(self) -> bool {
        &&& self.kind == "pairing"@
        &&& self.id is None
        &&& self.status is None
        &&& self.content is None
    }

    /// A response envelope carries its kind, a status and the encoded body.
    pub open spec fn is_response(self) -> bool {
        &&& self.kind == "response"@
        &&& self.status is Some
        &&& self.content is Some
    }
}

impl ServerEnvelope {
    /// The only command that is acted upon: a request with the method GET.
    pub open spec fn is_get_request(self) -> bool {
        self.kind == "request"@ && self.method == "GET"@
    }
}

/// A copy of an optional string.
pub fn copy_text(o: &Option<String>) -> (r: Option<String>)
    ensures
        text_of(r) == text_of(*o),
{
    match o {
        Some(s) => Some(s.clone()),
        None => None,
    }
}

impl HOSClientReq {
    /// The envelope that announces this client to the relay.
    pub fn pairing(code: Option<String>) -> (r: Self)
        ensures
            r@.is_pairing(),
            r@.code == text_of(code),
    {
        HOSClientReq {
            _type: String::from_str("pairing"),
            id: None,
            code,
            status: None,
            content: None,
        }
    }

    /// The envelope that answers the command with the correlation id `id`.
    pub fn response(id: Option<String>, code: Option<String>, status: u16, content: String) -> (r:
        Self)
        ensures
            r@.is_response(),
            r@.id == text_of(id),
            r@.code == text_of(code),
            r@.status == Some(status),
            r@.content == Some(content@),
    {
        HOSClientReq {
            _type: String::from_str("response"),
            id,
            code,
            status: Some(status),
            content: Some(content),
        }
    }
}

impl HOSServerReq {
    /// Whether this command is one that is acted upon.
    pub fn is_get_request(&self) -> (r: bool)
        ensures
            r == self@.is_get_request(),
    {
        let kind = String::from_str("request");
        let method = String::from_str("GET");
        self._type == kind && self.method == method
    }
}

} // verus!
