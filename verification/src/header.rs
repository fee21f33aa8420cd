//! The headers of a message: pairs of a name and a value, in the order in
//! which they were added.

use crate::errors::{Error, ErrorKind};
use crate::body::string_from_utf8;
use vstd::prelude::*;
use vstd::slice::slice_to_vec;
use vstd::string::StringSliceAdditionalSpecFns;
use vstd::utf8::encode_utf8;

verus! {

/// The length that a header name stays below.
pub open spec fn max_header_name_len() -> nat {
    65536
}

/// Whether a character may stand in a header name: a letter, a digit, or one
/// of ``!"#$%&'*+-.^_`|~``.
pub open spec fn is_header_name_char(c: char) -> bool {
    ||| '!' <= c <= '\''
    ||| c == '*'
    ||| c == '+'
    ||| c == '-'
    ||| c == '.'
    ||| '0' <= c <= '9'
    ||| 'A' <= c <= 'Z'
    ||| '^' <= c <= 'z'
    ||| c == '|'
    ||| c == '~'
}

/// A character of a header name in lower case.
pub open spec fn lower_case(c: char) -> char {
    if 'A' <= c <= 'Z' {
        ((c as u8 + 32) as u8) as char
    } else {
        c
    }
}

/// Whether a text is a header name: it is not empty, it has fewer than
/// 65536 characters, and every character may stand in a header name.
pub open spec fn is_header_name(text: Seq<char>) -> bool {
    &&& 0 < text.len() < max_header_name_len()
    &&& forall|i: int| 0 <= i < text.len() ==> is_header_name_char(#[trigger] text[i])
}

/// A header name has as many bytes as characters: a text of which every
/// character may stand in a header name is ASCII.
pub proof fn lemma_header_name_bytes(text: Seq<char>)
    requires
        forall|i: int| 0 <= i < text.len() ==> is_header_name_char(#[trigger] text[i]),
    ensures
        encode_utf8(text).len() == text.len(),
{
    assert(vstd::utf8::is_ascii_chars(text)) by {
        assert forall|i: int| 0 <= i < text.len() implies '\0' <= #[trigger] text[i]
            <= '\u{7f}' by {
            assert(is_header_name_char(text[i]));
        }
    }
    vstd::utf8::is_ascii_chars_encode_utf8(text);
}

/// The normal form of the header name `text`, which is `text` in lower case
/// (names differ by case only where their normal forms are equal), or `None`
/// where `text` is no header name.
pub open spec fn normal_header_name(text: Seq<char>) -> Option<Seq<char>> {
    if is_header_name(text) {
        Some(Seq::new(text.len(), |i: int| lower_case(text[i])))
    } else {
        None
    }
}

/// Tells whether a byte is the code of a character that may stand in a
/// header name.
fn is_name_byte(byte: u8) -> (out: bool)
    ensures
        out == is_header_name_char(byte as char),
{
    (33 <= byte && byte <= 39) || byte == 42 || byte == 43 || byte == 45 || byte == 46 || (48
        <= byte && byte <= 57) || (65 <= byte && byte <= 90) || (94 <= byte && byte <= 122) || byte
        == 124 || byte == 126
}

/// The code of a character of a header name in lower case.
fn lower_byte(byte: u8) -> (out: u8)
    requires
        byte < 128,
    ensures
        out < 128,
        out as char == lower_case(byte as char),
{
    if 65 <= byte && byte <= 90 {
        byte + 32
    } else {
        byte
    }
}

/// The normal form of a header name, or `None` where the text is none.
fn normal_name(text: &str) -> (out: Option<String>)
    ensures
        match out {
            Some(name) => normal_header_name(text@) == Some(name@),
            None => normal_header_name(text@) is None,
        },
{
    if !text.is_ascii() {
        proof {
            let at = choose|i: int|
                0 <= i < text@.len() && !('\0' <= #[trigger] text@[i] <= '\u{7f}');
            assert(!is_header_name_char(text@[at]));
        }
        return None;
    }
    proof {
        vstd::utf8::is_ascii_chars_encode_utf8(text@);
    }
    let bytes = text.as_bytes();
    if bytes.len() == 0 || bytes.len() >= 65536 {
        return None;
    }
    let mut lowered: Vec<u8> = Vec::new();
    let mut i: usize = 0;
    while i < bytes.len()
        invariant
            i <= bytes.len(),
            bytes@.len() == text@.len(),
            vstd::utf8::is_ascii_chars(text@),
            forall|j: int| 0 <= j < text@.len() ==> text@[j] as u8 == bytes@[j],
            lowered@.len() == i,
            forall|j: int| 0 <= j < i ==> is_header_name_char(#[trigger] text@[j]),
            forall|j: int|
                0 <= j < i ==> (#[trigger] lowered@[j]) < 128 && lowered@[j] as char == lower_case(
                    text@[j],
                ),
        decreases bytes.len() - i,
    {
        let byte = bytes[i];
        assert(byte as char == text@[i as int]);
        if !is_name_byte(byte) {
            assert(!is_header_name_char(text@[i as int]));
            return None;
        }
        lowered.push(lower_byte(byte));
        i = i + 1;
    }
    let ghost normal = normal_header_name(text@)->0;
    proof {
        assert(is_header_name(text@));
        lemma_normal_form_is_header_name(text@);
        lemma_header_name_bytes(normal);
        assert(vstd::utf8::is_ascii_chars(normal)) by {
            assert forall|j: int| 0 <= j < normal.len() implies '\0' <= #[trigger] normal[j]
                <= '\u{7f}' by {
                assert(is_header_name_char(normal[j]));
            }
        }
        vstd::utf8::is_ascii_chars_encode_utf8(normal);
        assert(lowered@ =~= encode_utf8(normal)) by {
            assert forall|j: int| 0 <= j < normal.len() implies lowered@[j] == encode_utf8(
                normal,
            )[j] by {
                assert(normal[j] == lower_case(text@[j]));
                assert(lowered@[j] as char == normal[j]);
            }
        }
        vstd::utf8::encode_utf8_valid_utf8(normal);
        vstd::utf8::encode_utf8_decode_utf8(normal);
    }
    match string_from_utf8(lowered) {
        Ok(name) => {
            proof {
                vstd::utf8::encode_utf8_decode_utf8(name@);
            }
            Some(name)
        },
        Err(_) => None,
    }
}

/// Whether a byte may stand in a header value: any byte from the space on
/// but the delete character, or a tab.
pub open spec fn is_header_byte(byte: u8) -> bool {
    32 <= byte && byte != 127 || byte == 9
}

/// Whether bytes are a header value: every one of them may stand in one.
pub open spec fn is_header_value(bytes: Seq<u8>) -> bool {
    forall|i: int| 0 <= i < bytes.len() ==> is_header_byte(#[trigger] bytes[i])
}

/// Tells whether bytes are a header value.
pub fn check_header_value(bytes: &[u8]) -> (out: bool)
    ensures
        out == is_header_value(bytes@),
{
    let mut i: usize = 0;
    while i < bytes.len()
        invariant
            i <= bytes.len(),
            forall|j: int| 0 <= j < i ==> is_header_byte(#[trigger] bytes@[j]),
        decreases bytes.len() - i,
    {
        let byte = bytes[i];
        if !((32 <= byte && byte != 127) || byte == 9) {
            return false;
        }
        i = i + 1;
    }
    true
}

/// Whether a byte is visible ASCII, a space or a tab.
pub open spec fn is_visible_ascii(byte: u8) -> bool {
    32 <= byte < 127 || byte == 9
}

/// Whether bytes are visible text: every one of them is visible ASCII, a
/// space or a tab. Visible text is a header value.
pub open spec fn is_visible_text(bytes: Seq<u8>) -> bool {
    forall|i: int| 0 <= i < bytes.len() ==> is_visible_ascii(#[trigger] bytes[i])
}

/// Tells whether bytes are visible text.
pub fn check_visible_text(bytes: &[u8]) -> (out: bool)
    ensures
        out == is_visible_text(bytes@),
{
    let mut i: usize = 0;
    while i < bytes.len()
        invariant
            i <= bytes.len(),
            forall|j: int| 0 <= j < i ==> is_visible_ascii(#[trigger] bytes@[j]),
        decreases bytes.len() - i,
    {
        let byte = bytes[i];
        if !((32 <= byte && byte < 127) || byte == 9) {
            return false;
        }
        i = i + 1;
    }
    true
}

/// One header: its name in normal form, and its value.
struct Header {
    name: String,
    value: Vec<u8>,
}

/// The headers of a message, in the order in which they were added. A name
/// may occur more than once. Every name is a header name, and every value is
/// a header value.
pub struct HeaderMap {
    entries: Vec<Header>,
}

/// What adding a header to `before` gives: nothing where the name is none,
/// nothing where the value is none, and else the headers of `before` followed
/// by the new one, its name in normal form.
pub open spec fn appended(
    before: Seq<(Seq<char>, Seq<u8>)>,
    name: Seq<char>,
    value: Seq<u8>,
) -> Result<Seq<(Seq<char>, Seq<u8>)>, ErrorKind> {
    match normal_header_name(name) {
        None => Err(ErrorKind::InvalidHeaderName),
        Some(normal) => if is_header_value(value) {
            Ok(before.push((normal, value)))
        } else {
            Err(ErrorKind::InvalidHeaderValue)
        },
    }
}

/// What adding a header with a value that is text does to `before`: what
/// adding the header does, where the value is visible text, and nothing
/// where the name is none or the value is not visible text.
pub open spec fn appended_text(
    before: Seq<(Seq<char>, Seq<u8>)>,
    name: Seq<char>,
    value: Seq<u8>,
) -> Result<Seq<(Seq<char>, Seq<u8>)>, ErrorKind> {
    match appended(before, name, value) {
        Ok(headers) => if is_visible_text(value) {
            Ok(headers)
        } else {
            Err(ErrorKind::InvalidHeaderValue)
        },
        Err(kind) => Err(kind),
    }
}

/// The normal form of a header name is a header name.
pub proof fn lemma_normal_form_is_header_name(text: Seq<char>)
    requires
        is_header_name(text),
    ensures
        normal_header_name(text) matches Some(normal) && is_header_name(normal),
{
    let normal = normal_header_name(text)->0;
    assert forall|i: int| 0 <= i < normal.len() implies is_header_name_char(
        #[trigger] normal[i],
    ) by {
        assert(is_header_name_char(text[i]));
        assert(normal[i] == lower_case(text[i]));
    }
}

/// Whether the header at a position is the first of a name in normal form.
pub open spec fn is_first_named(
    headers: Seq<(Seq<char>, Seq<u8>)>,
    normal: Seq<char>,
    at: int,
) -> bool {
    &&& 0 <= at < headers.len()
    &&& headers[at].0 == normal
    &&& forall|before: int| 0 <= before < at ==> (#[trigger] headers[before]).0 != normal
}

impl View for HeaderMap {
    type V = Seq<(Seq<char>, Seq<u8>)>;

    closed spec fn view(&self) -> Seq<(Seq<char>, Seq<u8>)> {
        Seq::new(self.entries@.len(), |i: int| (self.entries@[i].name@, self.entries@[i].value@))
    }
}

impl HeaderMap {
    #[verifier::type_invariant]
    spec fn entries_are_valid(self) -> bool {
        forall|i: int|
            0 <= i < self.entries@.len() ==> is_header_name((#[trigger] self.entries@[i]).name@)
                && is_header_value(self.entries@[i].value@)
    }

    /// No headers.
    pub fn new() -> (out: HeaderMap)
        ensures
            out@ == Seq::<(Seq<char>, Seq<u8>)>::empty(),
    {
        let out = HeaderMap { entries: Vec::new() };
        assert(out@ =~= Seq::empty());
        out
    }

    /// The number of headers.
    pub fn len(&self) -> (out: usize)
        ensures
            out == self@.len(),
    {
        self.entries.len()
    }

    /// The name of the header at a position, in normal form.
    pub fn name_at(&self, index: usize) -> (out: &str)
        requires
            index < self@.len(),
        ensures
            out@ == self@[index as int].0,
            is_header_name(out@),
    {
        proof {
            use_type_invariant(self);
        }
        self.entries[index].name.as_str()
    }

    /// The value of the header at a position.
    pub fn value_at(&self, index: usize) -> (out: &[u8])
        requires
            index < self@.len(),
        ensures
            out@ == self@[index as int].1,
            is_header_value(out@),
    {
        proof {
            use_type_invariant(self);
        }
        self.entries[index].value.as_slice()
    }

    /// The value of the first header of a name, whatever the case in which
    /// the name is written: names are compared in their normal form. `None`
    /// where no header has the name, or the name is none.
    pub fn get(&self, name: &str) -> (out: Option<&[u8]>)
        ensures
            match normal_header_name(name@) {
                None => out is None,
                Some(normal) => match out {
                    Some(value) => exists|at: int|
                        is_first_named(self@, normal, at) && value@ == (#[trigger] self@[at]).1,
                    None => forall|at: int|
                        0 <= at < self@.len() ==> (#[trigger] self@[at]).0 != normal,
                },
            },
    {
        match normal_name(name) {
            None => None,
            Some(normal) => {
                let mut i: usize = 0;
                while i < self.entries.len()
                    invariant
                        i <= self.entries@.len(),
                        normal_header_name(name@) == Some(normal@),
                        forall|before: int|
                            0 <= before < i ==> (#[trigger] self@[before]).0 != normal@,
                    decreases self.entries@.len() - i,
                {
                    if self.entries[i].name == normal {
                        let value = self.entries[i].value.as_slice();
                        assert(is_first_named(self@, normal@, i as int) && value@ == self@[i as int].1);
                        return Some(value);
                    }
                    i = i + 1;
                }
                None
            },
        }
    }

    /// Adds a header behind those that are there, its name in normal form.
    /// The name must be a header name and the value a header value. Where
    /// either is refused, nothing is added.
    pub fn append(self, name: &str, value: &[u8]) -> (out: Result<HeaderMap, Error>)
        ensures
            match out {
                Ok(headers) => appended(self@, name@, value@) == Ok::<
                    Seq<(Seq<char>, Seq<u8>)>,
                    ErrorKind,
                >(headers@),
                Err(error) => appended(self@, name@, value@) == Err::<
                    Seq<(Seq<char>, Seq<u8>)>,
                    ErrorKind,
                >(error.kind),
            },
    {
        proof {
            use_type_invariant(&self);
        }
        match normal_name(name) {
            None => Err(Error::new(ErrorKind::InvalidHeaderName)),
            Some(normal) => {
                if check_header_value(value) {
                    proof {
                        lemma_normal_form_is_header_name(name@);
                    }
                    let mut entries = self.entries;
                    entries.push(Header { name: normal, value: slice_to_vec(value) });
                    let out = HeaderMap { entries };
                    assert(out@ =~= self@.push((normal@, value@)));
                    Ok(out)
                } else {
                    Err(Error::new(ErrorKind::InvalidHeaderValue))
                }
            },
        }
    }

    /// Adds a header whose value is text behind those that are there. The
    /// name must be a header name and the value visible text. Where either
    /// is refused, nothing is added.
    pub fn append_text(self, name: &str, value: &str) -> (out: Result<HeaderMap, Error>)
        ensures
            match out {
                Ok(headers) => appended_text(self@, name@, value.spec_bytes()) == Ok::<
                    Seq<(Seq<char>, Seq<u8>)>,
                    ErrorKind,
                >(headers@),
                Err(error) => appended_text(self@, name@, value.spec_bytes()) == Err::<
                    Seq<(Seq<char>, Seq<u8>)>,
                    ErrorKind,
                >(error.kind),
            },
    {
        match self.append(name, value.as_bytes()) {
            Err(error) => Err(error),
            Ok(headers) => {
                if check_visible_text(value.as_bytes()) {
                    Ok(headers)
                } else {
                    Err(Error::new(ErrorKind::InvalidHeaderValue))
                }
            },
        }
    }
}

} // verus!
