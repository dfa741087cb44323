//! The schema model: type descriptors, raw attributes, fields and records.

use vstd::prelude::*;

verus! {

/// One argument between the angle brackets of a path segment.
#[derive(Debug, PartialEq, Eq)]
pub enum GenericArg {
    /// A type argument.
    Type(TypeDesc),
    /// Anything that is not a type: a lifetime, a constant, a binding.
    Other,
}

/// What follows the identifier of a path segment.
#[derive(Debug, PartialEq, Eq)]
pub enum Arguments {
    /// Nothing: `String`.
    Absent,
    /// Angle brackets with their arguments in order: `Vec<u8>`.
    Angle(Vec<GenericArg>),
    /// Round brackets: `Fn(u8) -> u8`.
    Parenthesized,
}

/// One segment of a type path.
#[derive(Debug, PartialEq, Eq)]
pub struct Segment {
    pub ident: String,
    pub arguments: Arguments,
}

/// The structure of a declared type, as far as the analysis reads it.
#[derive(Debug, PartialEq, Eq)]
pub enum TypeShape {
    /// A path, segment by segment: `std::vec::Vec<u8>`.
    Path(Vec<Segment>),
    /// Any other type: a reference, a tuple, an array.
    Other,
}

/// A declared type: its source text and its structure.
#[derive(Debug, PartialEq, Eq)]
pub struct TypeDesc {
    pub text: String,
    pub shape: TypeShape,
}

impl TypeDesc {
    /// Whether the type is a path of one segment with this identifier and
    /// these arguments.
    pub open spec fn is_single(self, ident: Seq<char>, arguments: Arguments) -> bool {
        &&& self.shape matches TypeShape::Path(segments)
        &&& segments@.len() == 1
        &&& segments@[0].ident@ == ident
        &&& segments@[0].arguments == arguments
    }

    /// Whether the type is `name<argument>`: a path of one segment with one
    /// type argument.
    pub open spec fn is_generic(self, name: Seq<char>, argument: TypeDesc) -> bool {
        &&& self.shape matches TypeShape::Path(segments)
        &&& segments@.len() == 1
        &&& segments@[0].ident@ == name
        &&& segments@[0].arguments matches Arguments::Angle(list)
        &&& list@ == seq![GenericArg::Type(argument)]
    }

    /// The type that a single identifier names: `String`.
    pub fn plain(name: &str) -> (ty: TypeDesc)
        ensures
            ty.text@ == name@,
            ty.is_single(name@, Arguments::Absent),
    {
        let mut segments: Vec<Segment> = Vec::new();
        segments.push(Segment { ident: name.to_owned(), arguments: Arguments::Absent });
        TypeDesc { text: name.to_owned(), shape: TypeShape::Path(segments) }
    }

    /// The generic type `name<argument>`: `Vec<String>`.
    pub fn generic(name: &str, argument: TypeDesc) -> (ty: TypeDesc)
        ensures
            ty.text@ == name@ + "<"@ + argument.text@ + ">"@,
            ty.is_generic(name@, argument),
    {
        let mut text = name.to_owned();
        text.append("<");
        text.append(argument.text.as_str());
        text.append(">");
        let mut list: Vec<GenericArg> = Vec::new();
        list.push(GenericArg::Type(argument));
        let mut segments: Vec<Segment> = Vec::new();
        segments.push(Segment { ident: name.to_owned(), arguments: Arguments::Angle(list) });
        TypeDesc { text, shape: TypeShape::Path(segments) }
    }

    /// A type that is no path, known by its text only: `&str`.
    pub fn opaque(text: &str) -> (ty: TypeDesc)
        ensures
            ty.text@ == text@,
            ty.shape == TypeShape::Other,
    {
        TypeDesc { text: text.to_owned(), shape: TypeShape::Other }
    }
}

/// An attribute on a field, as the front end hands it over.
#[derive(Clone, Debug, PartialEq, Eq)]
pub struct Attribute {
    /// The attribute's name: `builder` in `#[builder(each = "arg")]`.
    pub name: String,
    /// The text of each token between the delimiters that follow the name,
    /// in order; `None` where no delimited group follows it.
    pub arguments: Option<Vec<String>>,
}

/// A request for a setter that takes one element of a sequence at a time.
#[derive(Clone, Debug, PartialEq, Eq)]
pub struct AccessorDirective {
    /// The name of that setter.
    pub singular_name: String,
}

/// A wrapper that a declared type puts around its element type.
#[derive(Clone, Copy, Debug, PartialEq, Eq, Structural)]
pub enum Wrapper {
    /// No wrapper: the field is mandatory. This is the outermost wrapper of
    /// the empty chain; the analysis puts it into no chain.
    Bare,
    /// The field may be absent.
    Optional,
    /// The field holds a sequence of elements.
    Repeated,
}

/// Why the builder of a record cannot be derived.
#[derive(Clone, Copy, Debug, PartialEq, Eq, Structural)]
pub enum ConfigErrorKind {
    /// The field carries an attribute other than `builder`.
    UnsupportedAttribute,
    /// The attribute is not of the form `builder(each = "name")`: another
    /// keyword, another marker, or a name that is no quoted identifier.
    MalformedDirective,
    /// The directive sits on a field that is not a sequence.
    MisplacedDirective,
    /// The declared type is not a path, so it cannot be classified.
    UnsupportedType,
    /// The declared type names a wrapper but has no trailing type argument.
    MalformedWrapper,
}

impl ConfigErrorKind {
    /// The text that describes the error to the author of the record.
    pub open spec fn message_text(self) -> Seq<char> {
        match self {
            ConfigErrorKind::UnsupportedAttribute => "only the `builder` attribute is supported"@,
            ConfigErrorKind::MalformedDirective => "expected `builder(each = \"...\")`"@,
            ConfigErrorKind::MisplacedDirective => "only `Vec` fields may carry `each`"@,
            ConfigErrorKind::UnsupportedType => "the field type must be a path"@,
            ConfigErrorKind::MalformedWrapper => "the wrapper type has no type argument"@,
        }
    }

    /// The text that describes the error to the author of the record.
    pub fn message(&self) -> (text: String)
        ensures
            text@ == self.message_text(),
    {
        let text = match self {
            ConfigErrorKind::UnsupportedAttribute => "only the `builder` attribute is supported",
            ConfigErrorKind::MalformedDirective => "expected `builder(each = \"...\")`",
            ConfigErrorKind::MisplacedDirective => "only `Vec` fields may carry `each`",
            ConfigErrorKind::UnsupportedType => "the field type must be a path",
            ConfigErrorKind::MalformedWrapper => "the wrapper type has no type argument",
        };
        text.to_owned()
    }
}

/// A configuration error, with the position of the field that caused it.
#[derive(Clone, Copy, Debug, PartialEq, Eq, Structural)]
pub struct ConfigError {
    pub field: usize,
    pub kind: ConfigErrorKind,
}

/// A field as the front end declares it.
#[derive(Debug, PartialEq, Eq)]
pub struct FieldDecl {
    pub name: String,
    pub declared_type: TypeDesc,
    /// The attributes on the field, in source order.
    pub attributes: Vec<Attribute>,
}

impl FieldDecl {
    /// The attribute that may hold the field's directive: the first one.
    /// A field has at most one directive, and no attribute after the first
    /// is read.
    pub open spec fn leading_attribute(self) -> Option<Attribute> {
        if self.attributes@.len() > 0 {
            Some(self.attributes@[0])
        } else {
            None
        }
    }
}

/// A record as the front end declares it: its fields in declaration order.
#[derive(Debug, PartialEq, Eq)]
pub struct RecordDecl {
    pub name: String,
    pub fields: Vec<FieldDecl>,
}

impl ConfigError {
    /// The text of the error with the field that it is about: the field's
    /// name between backquotes, a colon, and the message of the kind. Where
    /// the record has no field at the error's position, the message alone.
    pub open spec fn description(self, fields: Seq<FieldDecl>) -> Seq<char> {
        if self.field < fields.len() {
            "field `"@ + fields[self.field as int].name@ + "`: "@ + self.kind.message_text()
        } else {
            self.kind.message_text()
        }
    }

    /// Describes the error to the author of the record.
    pub fn describe(&self, record: &RecordDecl) -> (text: String)
        ensures
            text@ == self.description(record.fields@),
    {
        let message = self.kind.message();
        if self.field < record.fields.len() {
            let mut text = "field `".to_owned();
            text.append(record.fields[self.field].name.as_str());
            text.append("`: ");
            text.append(message.as_str());
            text
        } else {
            message
        }
    }
}

/// A field with what the analysis found of it.
#[derive(Clone, Debug, PartialEq, Eq)]
pub struct Field<'a> {
    pub name: &'a str,
    pub declared_type: &'a TypeDesc,
    /// The wrappers around the element, from the outside in.
    pub wrapper_chain: Vec<Wrapper>,
    /// The declared type without its optional wrapper.
    pub value_type: &'a TypeDesc,
    /// The type under all the wrappers.
    pub element_type: &'a TypeDesc,
    pub directive: Option<AccessorDirective>,
}

/// A record with its analysed fields, in declaration order.
#[derive(Clone, Debug, PartialEq, Eq)]
pub struct Record<'a> {
    pub name: &'a str,
    pub fields: Vec<Field<'a>>,
}

/// The mathematical content of a [`Field`].
pub ghost struct FieldModel {
    pub name: Seq<char>,
    pub declared_type: TypeDesc,
    pub chain: Seq<Wrapper>,
    pub value_type: TypeDesc,
    pub element_type: TypeDesc,
    /// The singular name of the directive, if the field has one.
    pub directive: Option<Seq<char>>,
}

impl<'a> View for Field<'a> {
    type V = FieldModel;

    open spec fn view(&self) -> FieldModel {
        FieldModel {
            name: self.name@,
            declared_type: *self.declared_type,
            chain: self.wrapper_chain@,
            value_type: *self.value_type,
            element_type: *self.element_type,
            directive: match self.directive {
                Some(d) => Some(d.singular_name@),
                None => None,
            },
        }
    }
}

/// The outermost wrapper of a chain; `Bare` for the empty chain.
pub open spec fn outer(chain: Seq<Wrapper>) -> Wrapper {
    if chain.len() == 0 {
        Wrapper::Bare
    } else {
        chain[0]
    }
}

/// Whether a field with this chain, when present, holds a sequence: the
/// chain is `[Repeated, ..]` or `[Optional, Repeated, ..]`.
pub open spec fn holds_sequence(chain: Seq<Wrapper>) -> bool {
    ||| outer(chain) == Wrapper::Repeated
    ||| (outer(chain) == Wrapper::Optional && chain.len() > 1 && chain[1] == Wrapper::Repeated)
}

/// The outermost wrapper of a chain.
pub fn outer_wrapper(chain: &Vec<Wrapper>) -> (w: Wrapper)
    ensures
        w == outer(chain@),
{
    if chain.len() == 0 {
        Wrapper::Bare
    } else {
        chain[0]
    }
}

/// Whether a field with this chain, when present, holds a sequence.
pub fn is_sequence(chain: &Vec<Wrapper>) -> (b: bool)
    ensures
        b == holds_sequence(chain@),
{
    match outer_wrapper(chain) {
        Wrapper::Repeated => true,
        Wrapper::Optional => chain.len() > 1 && chain[1] == Wrapper::Repeated,
        Wrapper::Bare => false,
    }
}

/// The text held by an optional string.
pub open spec fn text_of(s: Option<String>) -> Option<Seq<char>> {
    match s {
        Some(s) => Some(s@),
        None => None,
    }
}

/// Whether two strings hold the same text.
pub fn same_text(a: &str, b: &str) -> (same: bool)
    ensures
        same == (a@ == b@),
{
    a.to_owned() == b.to_owned()
}

} // verus!
