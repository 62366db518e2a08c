//! What may stand in emitted text. A name must be plain, which is decided
//! here character by character, and an identifier, which is a question put
//! to `syn`; a type text must hold no comment and be a type, again by `syn`;
//! a string is spelled as a literal by `proc_macro2`. The answers of the two
//! crates are believed, not proved; everything built on them is. A name or a
//! type text that has passed carries that fact in its type.

use vstd::prelude::*;
use crate::error::{error_view, EmitError, EmitErrorView};

verus! {

/// What `syn` reads when `text` is parsed as one identifier: the spelling of
/// the identifier it found, or `None` where the text is not a single
/// identifier or is a reserved word.
pub uninterp spec fn parsed_identifier(text: Seq<char>) -> Option<Seq<char>>;

/// Whether `syn` reads the whole of `text` as one Rust type.
pub uninterp spec fn type_text_accepted(text: Seq<char>) -> bool;

/// The spelling `proc_macro2` gives to the string literal that denotes
/// `text`: the quotation marks and the escaped contents.
pub uninterp spec fn string_literal_text(text: Seq<char>) -> Seq<char>;

/// Whether `c` is a decimal digit.
pub open spec fn digit(c: char) -> bool {
    '0' <= c && c <= '9'
}

/// Whether `c` may stand in a plain name: a letter, a digit or the
/// underscore among the ASCII characters, and any character beyond them.
pub open spec fn plain_char(c: char) -> bool {
    ||| ('a' <= c && c <= 'z')
    ||| ('A' <= c && c <= 'Z')
    ||| digit(c)
    ||| c == '_'
    ||| c > '\u{7f}'
}

/// A name is plain when it is not empty, does not begin with a digit and
/// holds no ASCII character but letters, digits and the underscore: no
/// blank, bracket, comma, semicolon, quotation mark or other punctuation.
pub open spec fn plain_name(name: Seq<char>) -> bool {
    &&& name.len() > 0
    &&& !digit(name[0])
    &&& forall|i: int| 0 <= i < name.len() ==> plain_char(#[trigger] name[i])
}

/// Whether parsing `name` yields an identifier with exactly that spelling.
/// Blanks or comments around an identifier parse too, but do not spell it.
pub open spec fn spelled_as_identifier(name: Seq<char>) -> bool {
    parsed_identifier(name) == Some(name)
}

/// A name can stand in emitted text, data definition and source alike, when
/// it is plain and an identifier.
pub open spec fn identifier_ok(name: Seq<char>) -> bool {
    plain_name(name) && spelled_as_identifier(name)
}

/// A text can stand as a type in emitted source text when it holds no
/// slash, so that no comment hides what follows it, and is a type.
pub open spec fn type_text_ok(text: Seq<char>) -> bool {
    !text.contains('/') && type_text_accepted(text)
}

/// The empty name and every name with a blank, a bracket, a comma, a
/// semicolon, a quotation mark, a slash or a line break is refused.
pub proof fn lemma_identifier_is_plain(name: Seq<char>)
    requires
        identifier_ok(name),
    ensures
        name.len() > 0,
        forall|i: int|
            0 <= i < name.len() ==> {
                let c = #[trigger] name[i];
                &&& c != ' '
                &&& c != '('
                &&& c != ')'
                &&& c != ','
                &&& c != ';'
                &&& c != '"'
                &&& c != '\''
                &&& c != '/'
                &&& c != '\n'
                &&& c != '\t'
            },
{
    assert forall|i: int| 0 <= i < name.len() implies {
        let c = #[trigger] name[i];
        &&& c != ' '
        &&& c != '('
        &&& c != ')'
        &&& c != ','
        &&& c != ';'
        &&& c != '"'
        &&& c != '\''
        &&& c != '/'
        &&& c != '\n'
        &&& c != '\t'
    } by {
        assert(plain_char(name[i]));
    }
}

/// The objection to `name` as an identifier, if there is one.
pub open spec fn identifier_rejection(name: Seq<char>) -> Option<EmitErrorView> {
    if identifier_ok(name) {
        None
    } else {
        Some(EmitErrorView::InvalidIdentifier(name))
    }
}

/// The objection to `text` as a type, if there is one.
pub open spec fn type_rejection(text: Seq<char>) -> Option<EmitErrorView> {
    if type_text_ok(text) {
        None
    } else {
        Some(EmitErrorView::InvalidType(text))
    }
}

/// Calls `syn::parse_str::<syn::Ident>` and, where it succeeds, the
/// identifier's `to_string`. Trusted: the result is the one named
/// `parsed_identifier`, that is, it depends on the text alone.
#[verifier::external_body]
fn parse_identifier(text: &str) -> (out: Option<String>)
    ensures
        out is Some <==> parsed_identifier(text@) is Some,
        out matches Some(spelling) ==> parsed_identifier(text@) == Some(spelling@),
{
    match syn::parse_str::<syn::Ident>(text) {
        Ok(ident) => Some(ident.to_string()),
        Err(_) => None,
    }
}

/// Calls `syn::parse_str::<syn::Type>` and reports whether it succeeded.
/// Trusted: the answer is the one named `type_text_accepted`.
#[verifier::external_body]
fn parses_as_type(text: &str) -> (ok: bool)
    ensures
        ok == type_text_accepted(text@),
{
    syn::parse_str::<syn::Type>(text).is_ok()
}

/// Calls `proc_macro2::Literal::string` and the literal's `to_string`.
/// Trusted: the result is the one named `string_literal_text`.
#[verifier::external_body]
pub(crate) fn string_literal(text: &str) -> (out: String)
    ensures
        out@ == string_literal_text(text@),
{
    proc_macro2::Literal::string(text).to_string()
}

fn is_digit(c: char) -> (ok: bool)
    ensures
        ok == digit(c),
{
    '0' <= c && c <= '9'
}

fn is_plain_char(c: char) -> (ok: bool)
    ensures
        ok == plain_char(c),
{
    ('a' <= c && c <= 'z') || ('A' <= c && c <= 'Z') || is_digit(c) || c == '_' || c > '\u{7f}'
}

/// Whether `name` is plain.
pub fn is_plain_name(name: &str) -> (ok: bool)
    ensures
        ok == plain_name(name@),
{
    let len = name.unicode_len();
    if len == 0 {
        return false;
    }
    if is_digit(name.get_char(0)) {
        return false;
    }
    let mut i: usize = 0;
    while i < len
        invariant
            i <= len,
            len == name@.len(),
            forall|k: int| 0 <= k < i ==> plain_char(#[trigger] name@[k]),
        decreases len - i,
    {
        if !is_plain_char(name.get_char(i)) {
            return false;
        }
        i = i + 1;
    }
    true
}

/// Whether `text` holds a slash.
pub fn holds_slash(text: &str) -> (found: bool)
    ensures
        found == text@.contains('/'),
{
    let len = text.unicode_len();
    let mut i: usize = 0;
    while i < len
        invariant
            i <= len,
            len == text@.len(),
            forall|k: int| 0 <= k < i ==> text@[k] != '/',
        decreases len - i,
    {
        if text.get_char(i) == '/' {
            return true;
        }
        i = i + 1;
    }
    false
}

/// Whether `name` can stand as an identifier in emitted text.
pub fn is_identifier(name: &str) -> (ok: bool)
    ensures
        ok == identifier_ok(name@),
{
    if !is_plain_name(name) {
        return false;
    }
    match parse_identifier(name) {
        Some(spelling) => {
            let given = String::from_str(name);
            spelling == given
        },
        None => false,
    }
}

/// Whether `text` can stand as a type in emitted source text.
pub fn is_type_text(text: &str) -> (ok: bool)
    ensures
        ok == type_text_ok(text@),
{
    !holds_slash(text) && parses_as_type(text)
}

/// A name that has been found to be an identifier.
#[derive(Debug)]
pub struct Identifier {
    text: String,
}

impl View for Identifier {
    type V = Seq<char>;

    closed spec fn view(&self) -> Seq<char> {
        self.text@
    }
}

impl Identifier {
    #[verifier::type_invariant]
    spec fn is_checked(&self) -> bool {
        identifier_ok(self.text@)
    }

    /// Takes `name` as an identifier, or says that it is none.
    pub fn parse(name: &str) -> (out: Result<Identifier, EmitError>)
        ensures
            match out {
                Ok(identifier) => identifier_ok(name@) && identifier@ == name@,
                Err(e) => !identifier_ok(name@) && e@ == EmitErrorView::InvalidIdentifier(name@),
            },
    {
        if is_identifier(name) {
            Ok(Identifier { text: String::from_str(name) })
        } else {
            Err(EmitError::InvalidIdentifier(String::from_str(name)))
        }
    }

    /// The identifier as text.
    pub fn as_str(&self) -> (text: &str)
        ensures
            text@ == self@,
            identifier_ok(self@),
    {
        proof {
            use_type_invariant(self);
        }
        self.text.as_str()
    }
}

/// A text that has been found to be a type.
#[derive(Debug)]
pub struct TypeText {
    text: String,
}

impl View for TypeText {
    type V = Seq<char>;

    closed spec fn view(&self) -> Seq<char> {
        self.text@
    }
}

impl TypeText {
    #[verifier::type_invariant]
    spec fn is_checked(&self) -> bool {
        type_text_ok(self.text@)
    }

    /// Takes `text` as a type, or says that it is none.
    pub fn parse(text: &str) -> (out: Result<TypeText, EmitError>)
        ensures
            match out {
                Ok(typ) => type_text_ok(text@) && typ@ == text@,
                Err(e) => !type_text_ok(text@) && e@ == EmitErrorView::InvalidType(text@),
            },
    {
        if is_type_text(text) {
            Ok(TypeText { text: String::from_str(text) })
        } else {
            Err(EmitError::InvalidType(String::from_str(text)))
        }
    }

    /// The type as text.
    pub fn as_str(&self) -> (text: &str)
        ensures
            text@ == self@,
            type_text_ok(self@),
    {
        proof {
            use_type_invariant(self);
        }
        self.text.as_str()
    }
}

/// Checks that `name` can stand as an identifier in emitted source text.
pub fn check_identifier(name: &str) -> (out: Option<EmitError>)
    ensures
        error_view(out) == identifier_rejection(name@),
{
    if is_identifier(name) {
        None
    } else {
        Some(EmitError::InvalidIdentifier(String::from_str(name)))
    }
}

} // verus!
