//! The directive parser: validates the attribute on a field and extracts the
//! name of the per-element setter that it asks for.

use vstd::prelude::*;
use crate::schema::{AccessorDirective, Attribute, ConfigErrorKind, same_text, text_of};

verus! {

/// Whether a character opens a delimited group.
pub open spec fn is_opening(c: char) -> bool {
    c == '(' || c == '[' || c == '{'
}

/// Whether no delimited group opens in a text. Such a text holds no nested
/// tokens, however long it is.
pub open spec fn opens_no_group(text: Seq<char>) -> bool {
    forall|i: int| 0 <= i < text.len() ==> !is_opening(#[trigger] text[i])
}

/// Parses a text as an identifier with `syn::parse_str::<syn::Ident>` and
/// hands back the text of the identifier that `syn` read, or `None` where
/// `syn` rejects the text. Nothing is claimed of the answer: which lexer
/// reads the text depends on whether the call is made inside a procedural
/// macro. A text in which a group opens is left out, because `syn` descends
/// once for each level of nesting.
#[verifier::external_body]
fn parse_identifier(text: &str) -> (name: Option<String>)
    requires
        opens_no_group(text@),
{
    match syn::parse_str::<syn::Ident>(text) {
        Ok(ident) => Some(ident.to_string()),
        Err(_) => None,
    }
}

/// What stands between the quotes of a string literal's text; `None` where
/// the text does not begin and end with a double quote.
pub open spec fn quoted_text(text: Seq<char>) -> Option<Seq<char>> {
    if text.len() >= 2 && text[0] == '"' && text[text.len() - 1] == '"' {
        Some(text.subrange(1, text.len() - 1))
    } else {
        None
    }
}

/// Whether a token sequence has the canonical shape `each = "..."`: the
/// keyword, the assignment marker, a string literal, and nothing after it.
pub open spec fn canonical(tokens: Seq<String>) -> bool {
    &&& tokens.len() == 3
    &&& tokens[0]@ == "each"@
    &&& tokens[1]@ == "="@
    &&& quoted_text(tokens[2]@) is Some
}

/// The name that an attribute asks for, before it is checked to be an
/// identifier. An attribute of another name is refused first; then any
/// departure from the canonical shape.
pub open spec fn requested(attr: Attribute) -> Result<Seq<char>, ConfigErrorKind> {
    if attr.name@ != "builder"@ {
        Err(ConfigErrorKind::UnsupportedAttribute)
    } else {
        match attr.arguments {
            Some(tokens) => if canonical(tokens@) {
                Ok(quoted_text(tokens@[2]@)->0)
            } else {
                Err(ConfigErrorKind::MalformedDirective)
            },
            None => Err(ConfigErrorKind::MalformedDirective),
        }
    }
}

/// The directive that a requested name makes, given what the identifier
/// parser read in it.
pub open spec fn accepted(candidate: Seq<char>, parsed: Option<Seq<char>>) -> Result<
    Seq<char>,
    ConfigErrorKind,
> {
    if parsed == Some(candidate) {
        Ok(candidate)
    } else {
        Err(ConfigErrorKind::MalformedDirective)
    }
}

/// The outcome of a parse, with the directive by its singular name.
pub open spec fn outcome_view(directive: Result<AccessorDirective, ConfigErrorKind>) -> Result<
    Seq<char>,
    ConfigErrorKind,
> {
    match directive {
        Ok(d) => Ok(d.singular_name@),
        Err(e) => Err(e),
    }
}

/// Whether an outcome is one that the parse of an attribute may have. An
/// attribute that is refused for its name or its shape has that one
/// outcome. A requested name is accepted as it stands or refused as
/// malformed, as the identifier parser decides; a name in which a group
/// opens is always refused.
pub open spec fn admitted(attr: Attribute, outcome: Result<Seq<char>, ConfigErrorKind>) -> bool {
    match requested(attr) {
        Err(e) => outcome == Err::<Seq<char>, ConfigErrorKind>(e),
        Ok(name) => {
            ||| outcome == Err::<Seq<char>, ConfigErrorKind>(ConfigErrorKind::MalformedDirective)
            ||| (opens_no_group(name) && outcome == Ok::<Seq<char>, ConfigErrorKind>(name))
        },
    }
}

/// Takes the quotes off the text of a string literal.
pub fn unquote(text: &str) -> (inner: Option<&str>)
    ensures
        match inner {
            Some(t) => quoted_text(text@) == Some(t@),
            None => quoted_text(text@) is None,
        },
{
    let n = text.unicode_len();
    if n >= 2 && text.get_char(0) == '"' && text.get_char(n - 1) == '"' {
        Some(text.substring_char(1, n - 1))
    } else {
        None
    }
}

/// Checks the attribute's name and the shape of its arguments, and extracts
/// the requested name from between the quotes.
pub fn requested_name(attr: &Attribute) -> (name: Result<String, ConfigErrorKind>)
    ensures
        match name {
            Ok(n) => requested(*attr) == Ok::<Seq<char>, ConfigErrorKind>(n@),
            Err(e) => requested(*attr) == Err::<Seq<char>, ConfigErrorKind>(e),
        },
{
    if !same_text(attr.name.as_str(), "builder") {
        return Err(ConfigErrorKind::UnsupportedAttribute);
    }
    match &attr.arguments {
        None => Err(ConfigErrorKind::MalformedDirective),
        Some(tokens) => {
            if tokens.len() != 3 {
                return Err(ConfigErrorKind::MalformedDirective);
            }
            if !same_text(tokens[0].as_str(), "each") {
                return Err(ConfigErrorKind::MalformedDirective);
            }
            if !same_text(tokens[1].as_str(), "=") {
                return Err(ConfigErrorKind::MalformedDirective);
            }
            match unquote(tokens[2].as_str()) {
                Some(inner) => Ok(inner.to_owned()),
                None => Err(ConfigErrorKind::MalformedDirective),
            }
        },
    }
}

/// Decides on a requested name from what the identifier parser read in it:
/// the name is accepted where the parser read exactly the name.
pub fn accept_name(candidate: String, parsed: Option<String>) -> (directive: Result<
    AccessorDirective,
    ConfigErrorKind,
>)
    ensures
        match directive {
            Ok(d) => accepted(candidate@, text_of(parsed)) == Ok::<Seq<char>, ConfigErrorKind>(
                d.singular_name@,
            ),
            Err(e) => accepted(candidate@, text_of(parsed)) == Err::<Seq<char>, ConfigErrorKind>(e),
        },
{
    match parsed {
        Some(read) => {
            if read == candidate {
                Ok(AccessorDirective { singular_name: candidate })
            } else {
                Err(ConfigErrorKind::MalformedDirective)
            }
        },
        None => Err(ConfigErrorKind::MalformedDirective),
    }
}

/// Whether no delimited group opens in a text.
pub fn has_no_group(text: &str) -> (none: bool)
    ensures
        none == opens_no_group(text@),
{
    let n = text.unicode_len();
    let mut i: usize = 0;
    while i < n
        invariant
            i <= n,
            n == text@.len(),
            forall|k: int| 0 <= k < i ==> !is_opening(#[trigger] text@[k]),
        decreases n - i,
    {
        let c = text.get_char(i);
        if c == '(' || c == '[' || c == '{' {
            return false;
        }
        i = i + 1;
    }
    true
}

/// Validates the attribute on a field and extracts its directive. The name
/// and the shape are checked here; whether the requested name is an
/// identifier is left to the identifier parser, so of a name that passes
/// the checks only this is known: it is accepted as it stands or refused
/// as malformed.
pub fn parse_directive(attr: &Attribute) -> (directive: Result<AccessorDirective, ConfigErrorKind>)
    ensures
        admitted(*attr, outcome_view(directive)),
        requested(*attr) matches Err(e) ==> directive == Err::<
            AccessorDirective,
            ConfigErrorKind,
        >(e),
        directive matches Ok(d) ==> requested(*attr) == Ok::<Seq<char>, ConfigErrorKind>(
            d.singular_name@,
        ),
        directive matches Err(e) ==> requested(*attr) is Ok ==> e
            == ConfigErrorKind::MalformedDirective,
{
    match requested_name(attr) {
        Err(e) => Err(e),
        Ok(candidate) => {
            if !has_no_group(candidate.as_str()) {
                return Err(ConfigErrorKind::MalformedDirective);
            }
            let parsed = parse_identifier(candidate.as_str());
            accept_name(candidate, parsed)
        },
    }
}

} // verus!
