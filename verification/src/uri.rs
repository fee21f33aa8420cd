//! Request targets.

use crate::errors::{Error, ErrorKind};
use http::uri::InvalidUri;
use vstd::prelude::*;

verus! {

/// `str::parse::<http::Uri>` hands back an error of this type.
#[verifier::external_type_specification]
#[verifier::external_body]
pub struct ExInvalidUri(InvalidUri);

/// The path component that the `http` crate finds in the request target
/// `text`, or `None` where it takes `text` for no URI.
pub uninterp spec fn http_uri_path(text: Seq<char>) -> Option<Seq<char>>;

/// `str::parse::<http::Uri>` and then `Uri::path`: the path component of the
/// URI that the text spells, or the crate's error where it spells none.
#[verifier::external_body]
fn parse_uri_path(text: &str) -> (out: Result<String, InvalidUri>)
    ensures
        match out {
            Ok(path) => http_uri_path(text@) == Some(path@),
            Err(_) => http_uri_path(text@) is None,
        },
{
    match text.parse::<http::Uri>() {
        Ok(uri) => Ok(uri.path().to_owned()),
        Err(error) => Err(error),
    }
}

/// The target of a request: the text it was given as, and the path component
/// found in it.
#[derive(Debug, PartialEq, Eq)]
pub struct Uri {
    text: String,
    path: String,
}

impl Uri {
    #[verifier::type_invariant]
    spec fn path_of_text(self) -> bool {
        http_uri_path(self.text@) == Some(self.path@)
    }

    /// The text of the URI.
    pub closed spec fn text_view(self) -> Seq<char> {
        self.text@
    }

    /// The path component of the URI.
    pub closed spec fn path_view(self) -> Seq<char> {
        self.path@
    }

    /// The URI that a text spells. The `http` crate decides whether the text
    /// is a URI, and what its path is.
    pub fn parse(text: &str) -> (out: Result<Uri, Error>)
        ensures
            match out {
                Ok(uri) => uri.text_view() == text@ && http_uri_path(text@) == Some(
                    uri.path_view(),
                ),
                Err(error) => http_uri_path(text@) is None && error.kind == ErrorKind::InvalidUri,
            },
    {
        match parse_uri_path(text) {
            Ok(path) => Ok(Uri { text: text.to_owned(), path }),
            Err(_) => Err(Error::new(ErrorKind::InvalidUri)),
        }
    }

    /// The path component of the URI.
    pub fn path(&self) -> (out: &str)
        ensures
            out@ == self.path_view(),
            http_uri_path(self.text_view()) == Some(out@),
    {
        proof {
            use_type_invariant(self);
        }
        self.path.as_str()
    }

    /// The text of the URI.
    pub fn as_str(&self) -> (out: &str)
        ensures
            out@ == self.text_view(),
    {
        self.text.as_str()
    }
}

impl Clone for Uri {
    fn clone(&self) -> (out: Self)
        ensures
            out == *self,
    {
        proof {
            use_type_invariant(self);
        }
        Uri { text: self.text.clone(), path: self.path.clone() }
    }
}

} // verus!
