//! Request methods and protocol versions.

use crate::errors::{Error, ErrorKind};
use vstd::prelude::*;
use vstd::string::StringSliceAdditionalSpecFns;
use vstd::utf8::encode_utf8;

verus! {

/// The method of a request.
#[derive(Debug, PartialEq, Eq)]
pub enum Method {
    Get,
    Head,
    Post,
    Put,
    Delete,
    Connect,
    Options,
    Trace,
    Patch,
    /// A method that HTTP does not define, by its name.
    Extension(String),
}

/// The version of HTTP that a message was sent in.
#[derive(Clone, Copy, Debug, PartialEq, Eq, Structural)]
pub enum Version {
    Http09,
    Http10,
    Http11,
    H2,
}

/// The name of a method, as it stands in a request line.
pub open spec fn method_name(method: Method) -> Seq<char> {
    match method {
        Method::Get => "GET"@,
        Method::Head => "HEAD"@,
        Method::Post => "POST"@,
        Method::Put => "PUT"@,
        Method::Delete => "DELETE"@,
        Method::Connect => "CONNECT"@,
        Method::Options => "OPTIONS"@,
        Method::Trace => "TRACE"@,
        Method::Patch => "PATCH"@,
        Method::Extension(name) => name@,
    }
}

/// Whether a name is that of one of the nine methods that HTTP defines.
pub open spec fn is_standard_method_name(name: Seq<char>) -> bool {
    ||| name == "GET"@
    ||| name == "HEAD"@
    ||| name == "POST"@
    ||| name == "PUT"@
    ||| name == "DELETE"@
    ||| name == "CONNECT"@
    ||| name == "OPTIONS"@
    ||| name == "TRACE"@
    ||| name == "PATCH"@
}

/// Whether `method` is the method that goes by `name`: the one that HTTP
/// defines under that name, if there is one, and else the extension method of
/// that name.
pub open spec fn is_method_named(method: Method, name: Seq<char>) -> bool {
    method_name(method) == name && (method is Extension ==> !is_standard_method_name(name))
}

/// Whether a character may stand in the name of a method: a letter, a
/// digit, or one of ``!*+-.^_`|~``.
pub open spec fn is_method_char(c: char) -> bool {
    ||| c == '!'
    ||| c == '*'
    ||| c == '+'
    ||| c == '-'
    ||| c == '.'
    ||| '0' <= c <= '9'
    ||| 'A' <= c <= 'Z'
    ||| '^' <= c <= 'z'
    ||| c == '|'
    ||| c == '~'
}

/// Whether a text is the name of a method: it is not empty, and every
/// character may stand in such a name.
pub open spec fn is_method_token(text: Seq<char>) -> bool {
    0 < text.len() && forall|i: int| 0 <= i < text.len() ==> is_method_char(#[trigger] text[i])
}

/// Tells whether a byte is the code of a character that may stand in the
/// name of a method.
fn is_method_byte(byte: u8) -> (out: bool)
    ensures
        out == is_method_char(byte as char),
{
    byte == 33 || byte == 42 || byte == 43 || byte == 45 || byte == 46 || (48 <= byte && byte
        <= 57) || (65 <= byte && byte <= 90) || (94 <= byte && byte <= 122) || byte == 124 || byte
        == 126
}

/// Tells whether a text is the name of a method.
pub fn check_method_token(text: &str) -> (out: bool)
    ensures
        out == is_method_token(text@),
{
    if !text.is_ascii() {
        proof {
            let at = choose|i: int|
                0 <= i < text@.len() && !('\0' <= #[trigger] text@[i] <= '\u{7f}');
            assert(!is_method_char(text@[at]));
        }
        return false;
    }
    proof {
        vstd::utf8::is_ascii_chars_encode_utf8(text@);
    }
    let bytes = text.as_bytes();
    if bytes.len() == 0 {
        return false;
    }
    let mut i: usize = 0;
    while i < bytes.len()
        invariant
            i <= bytes.len(),
            bytes@ == encode_utf8(text@),
            bytes@.len() == text@.len(),
            vstd::utf8::is_ascii_chars(text@),
            forall|j: int| 0 <= j < text@.len() ==> text@[j] as u8 == bytes@[j],
            forall|j: int| 0 <= j < i ==> is_method_char(#[trigger] text@[j]),
        decreases bytes.len() - i,
    {
        if !is_method_byte(bytes[i]) {
            assert(bytes@[i as int] as char == text@[i as int]);
            assert(!is_method_char(text@[i as int]));
            return false;
        }
        assert(bytes@[i as int] as char == text@[i as int]);
        i = i + 1;
    }
    true
}

impl Clone for Method {
    fn clone(&self) -> (out: Self)
        ensures
            out == *self,
    {
        match self {
            Method::Get => Method::Get,
            Method::Head => Method::Head,
            Method::Post => Method::Post,
            Method::Put => Method::Put,
            Method::Delete => Method::Delete,
            Method::Connect => Method::Connect,
            Method::Options => Method::Options,
            Method::Trace => Method::Trace,
            Method::Patch => Method::Patch,
            Method::Extension(name) => Method::Extension(name.clone()),
        }
    }
}

impl Method {
    /// The method that goes by a name which is known to be valid.
    pub fn from_name(name: String) -> (out: Method)
        ensures
            is_method_named(out, name@),
    {
        if name == "GET".to_owned() {
            Method::Get
        } else if name == "HEAD".to_owned() {
            Method::Head
        } else if name == "POST".to_owned() {
            Method::Post
        } else if name == "PUT".to_owned() {
            Method::Put
        } else if name == "DELETE".to_owned() {
            Method::Delete
        } else if name == "CONNECT".to_owned() {
            Method::Connect
        } else if name == "OPTIONS".to_owned() {
            Method::Options
        } else if name == "TRACE".to_owned() {
            Method::Trace
        } else if name == "PATCH".to_owned() {
            Method::Patch
        } else {
            Method::Extension(name)
        }
    }

    /// The method that a text spells: the method of that name, where the
    /// text is the name of a method, and an error of kind `InvalidMethod`
    /// where it is not.
    pub fn parse(text: &str) -> (out: Result<Method, Error>)
        ensures
            match out {
                Ok(method) => is_method_token(text@) && is_method_named(method, text@),
                Err(error) => !is_method_token(text@) && error.kind == ErrorKind::InvalidMethod,
            },
    {
        if check_method_token(text) {
            Ok(Method::from_name(text.to_owned()))
        } else {
            Err(Error::new(ErrorKind::InvalidMethod))
        }
    }

    /// The name of the method, as it stands in a request line.
    pub fn name(&self) -> (out: String)
        ensures
            out@ == method_name(*self),
    {
        match self {
            Method::Get => "GET".to_owned(),
            Method::Head => "HEAD".to_owned(),
            Method::Post => "POST".to_owned(),
            Method::Put => "PUT".to_owned(),
            Method::Delete => "DELETE".to_owned(),
            Method::Connect => "CONNECT".to_owned(),
            Method::Options => "OPTIONS".to_owned(),
            Method::Trace => "TRACE".to_owned(),
            Method::Patch => "PATCH".to_owned(),
            Method::Extension(name) => name.clone(),
        }
    }
}

} // verus!
