//! HTTP request methods and their tokens.

use vstd::prelude::*;
use crate::text::str_eq;

verus! {

/// The request methods a route can be bound to.
#[derive(Clone, Copy, Debug, PartialEq, Eq, Structural)]
pub enum Method {
    Get,
    Post,
    Put,
    Delete,
    Head,
    Options,
    Patch,
    Trace,
    Connect,
}

impl Method {
    /// The token that stands for this method on the request line.
    pub open spec fn token(self) -> Seq<char> {
        match self {
            Method::Get => "GET"@,
            Method::Post => "POST"@,
            Method::Put => "PUT"@,
            Method::Delete => "DELETE"@,
            Method::Head => "HEAD"@,
            Method::Options => "OPTIONS"@,
            Method::Patch => "PATCH"@,
            Method::Trace => "TRACE"@,
            Method::Connect => "CONNECT"@,
        }
    }

    /// The method a token stands for, if any. Tokens are case-sensitive.
    pub open spec fn parse(token: Seq<char>) -> Option<Method> {
        if token == "GET"@ {
            Some(Method::Get)
        } else if token == "POST"@ {
            Some(Method::Post)
        } else if token == "PUT"@ {
            Some(Method::Put)
        } else if token == "DELETE"@ {
            Some(Method::Delete)
        } else if token == "HEAD"@ {
            Some(Method::Head)
        } else if token == "OPTIONS"@ {
            Some(Method::Options)
        } else if token == "PATCH"@ {
            Some(Method::Patch)
        } else if token == "TRACE"@ {
            Some(Method::Trace)
        } else if token == "CONNECT"@ {
            Some(Method::Connect)
        } else {
            None
        }
    }

    /// Returns the token of this method.
    pub fn as_str(self) -> (token: &'static str)
        ensures
            token@ == self.token(),
    {
        match self {
            Method::Get => "GET",
            Method::Post => "POST",
            Method::Put => "PUT",
            Method::Delete => "DELETE",
            Method::Head => "HEAD",
            Method::Options => "OPTIONS",
            Method::Patch => "PATCH",
            Method::Trace => "TRACE",
            Method::Connect => "CONNECT",
        }
    }

    /// Reads a method from its token; `None` for any other text.
    pub fn from_token(token: &str) -> (method: Option<Method>)
        ensures
            method == Method::parse(token@),
    {
        if str_eq(token, "GET") {
            Some(Method::Get)
        } else if str_eq(token, "POST") {
            Some(Method::Post)
        } else if str_eq(token, "PUT") {
            Some(Method::Put)
        } else if str_eq(token, "DELETE") {
            Some(Method::Delete)
        } else if str_eq(token, "HEAD") {
            Some(Method::Head)
        } else if str_eq(token, "OPTIONS") {
            Some(Method::Options)
        } else if str_eq(token, "PATCH") {
            Some(Method::Patch)
        } else if str_eq(token, "TRACE") {
            Some(Method::Trace)
        } else if str_eq(token, "CONNECT") {
            Some(Method::Connect)
        } else {
            None
        }
    }

    /// How long each token is, and what the tokens of equal length start with.
    pub proof fn lemma_token_shapes()
        ensures
            "GET"@.len() == 3 && "GET"@[0] == 'G',
            "PUT"@.len() == 3 && "PUT"@[0] == 'P',
            "POST"@.len() == 4 && "POST"@[0] == 'P',
            "HEAD"@.len() == 4 && "HEAD"@[0] == 'H',
            "PATCH"@.len() == 5 && "PATCH"@[0] == 'P',
            "TRACE"@.len() == 5 && "TRACE"@[0] == 'T',
            "DELETE"@.len() == 6,
            "OPTIONS"@.len() == 7 && "OPTIONS"@[0] == 'O',
            "CONNECT"@.len() == 7 && "CONNECT"@[0] == 'C',
    {
        reveal_strlit("GET");
        reveal_strlit("PUT");
        reveal_strlit("POST");
        reveal_strlit("HEAD");
        reveal_strlit("PATCH");
        reveal_strlit("TRACE");
        reveal_strlit("DELETE");
        reveal_strlit("OPTIONS");
        reveal_strlit("CONNECT");
    }

    /// Every method is read back from its own token.
    pub proof fn lemma_token_round_trip(self)
        ensures
            Method::parse(self.token()) == Some(self),
    {
        Method::lemma_token_shapes();
    }
}

} // verus!
