//! The type wrapper analyzer: classifies a declared type into a chain of
//! wrappers and the element type under them.

use vstd::prelude::*;
use crate::schema::{
    same_text, Arguments, ConfigErrorKind, GenericArg, Segment, TypeDesc, TypeShape, Wrapper,
};

verus! {

/// The identifier that a type is recognised by: that of the first segment of
/// its path. A type that is no path has none.
pub open spec fn head_of(ty: TypeDesc) -> Option<Seq<char>> {
    match ty.shape {
        TypeShape::Path(segments) => if segments@.len() > 0 {
            Some(segments@[0].ident@)
        } else {
            None
        },
        TypeShape::Other => None,
    }
}

/// The identifier of the last segment of a type's path. A type that is no
/// path has none.
pub open spec fn last_of(ty: TypeDesc) -> Option<Seq<char>> {
    match ty.shape {
        TypeShape::Path(segments) => if segments@.len() > 0 {
            Some(segments@[segments@.len() - 1].ident@)
        } else {
            None
        },
        TypeShape::Other => None,
    }
}

/// The last argument between the angle brackets of a segment, if it is a type.
pub open spec fn last_type_argument(segment: Segment) -> Option<TypeDesc> {
    match segment.arguments {
        Arguments::Angle(list) => if list@.len() > 0 {
            match list@[list@.len() - 1] {
                GenericArg::Type(inner) => Some(inner),
                GenericArg::Other => None,
            }
        } else {
            None
        },
        _ => None,
    }
}

/// The type that a wrapper wraps: the last type argument of the last segment
/// of its path.
pub open spec fn trailing_type(ty: TypeDesc) -> Option<TypeDesc> {
    match ty.shape {
        TypeShape::Path(segments) => if segments@.len() > 0 {
            last_type_argument(segments@[segments@.len() - 1])
        } else {
            None
        },
        TypeShape::Other => None,
    }
}

/// One layer taken off a type that is known by the identifier `known`:
/// `Ok(Some(inner))` where that identifier is `name` and the type wraps
/// `inner`, `Ok(None)` where it is another identifier. A type without
/// identifier cannot be read, and a wrapper must have a type to wrap.
pub open spec fn layer(known: Option<Seq<char>>, ty: TypeDesc, name: Seq<char>) -> Result<
    Option<TypeDesc>,
    ConfigErrorKind,
> {
    match known {
        None => Err(ConfigErrorKind::UnsupportedType),
        Some(ident) => if ident == name {
            match trailing_type(ty) {
                Some(inner) => Ok(Some(inner)),
                None => Err(ConfigErrorKind::MalformedWrapper),
            }
        } else {
            Ok(None)
        },
    }
}

/// One layer taken off a type that is known by the first segment of its
/// path.
pub open spec fn peeled(ty: TypeDesc, name: Seq<char>) -> Result<
    Option<TypeDesc>,
    ConfigErrorKind,
> {
    layer(head_of(ty), ty, name)
}

/// One layer taken off a type that is known by the last segment of its
/// path, the one that carries the arguments.
pub open spec fn peeled_last(ty: TypeDesc, name: Seq<char>) -> Result<
    Option<TypeDesc>,
    ConfigErrorKind,
> {
    layer(last_of(ty), ty, name)
}

/// The first segment's identifier of a path type.
pub fn head_ident(ty: &TypeDesc) -> (head: Option<&String>)
    ensures
        match head {
            Some(h) => head_of(*ty) == Some(h@),
            None => head_of(*ty) is None,
        },
{
    match &ty.shape {
        TypeShape::Path(segments) => {
            if segments.len() > 0 {
                Some(&segments[0].ident)
            } else {
                None
            }
        },
        TypeShape::Other => None,
    }
}

/// The type that a wrapper type wraps, if it has one.
pub fn trailing_argument(ty: &TypeDesc) -> (inner: Option<&TypeDesc>)
    ensures
        match inner {
            Some(t) => trailing_type(*ty) == Some(*t),
            None => trailing_type(*ty) is None,
        },
{
    match &ty.shape {
        TypeShape::Path(segments) => {
            if segments.len() > 0 {
                match &segments[segments.len() - 1].arguments {
                    Arguments::Angle(list) => {
                        if list.len() > 0 {
                            match &list[list.len() - 1] {
                                GenericArg::Type(inner) => Some(inner),
                                GenericArg::Other => None,
                            }
                        } else {
                            None
                        }
                    },
                    _ => None,
                }
            } else {
                None
            }
        },
        TypeShape::Other => None,
    }
}

/// The last segment's identifier of a path type.
pub fn last_ident(ty: &TypeDesc) -> (last: Option<&String>)
    ensures
        match last {
            Some(h) => ty.shape matches TypeShape::Path(s) && s@.len() > 0 && h@ == s@[s@.len()
                - 1].ident@,
            None => !(ty.shape matches TypeShape::Path(s) && s@.len() > 0),
        },
        match last {
            Some(h) => last_of(*ty) == Some(h@),
            None => last_of(*ty) is None,
        },
{
    match &ty.shape {
        TypeShape::Path(segments) => {
            if segments.len() > 0 {
                Some(&segments[segments.len() - 1].ident)
            } else {
                None
            }
        },
        TypeShape::Other => None,
    }
}

/// Takes the wrapper `name` off a type that is known by the identifier
/// `known`, one layer.
pub fn take_layer<'a>(known: Option<&String>, ty: &'a TypeDesc, name: &str) -> (found: Result<
    Option<&'a TypeDesc>,
    ConfigErrorKind,
>)
    ensures
        match found {
            Ok(Some(inner)) => layer(text_of_ref(known), *ty, name@) == Ok::<
                Option<TypeDesc>,
                ConfigErrorKind,
            >(Some(*inner)),
            Ok(None) => layer(text_of_ref(known), *ty, name@) == Ok::<
                Option<TypeDesc>,
                ConfigErrorKind,
            >(None),
            Err(e) => layer(text_of_ref(known), *ty, name@) == Err::<
                Option<TypeDesc>,
                ConfigErrorKind,
            >(e),
        },
{
    match known {
        None => Err(ConfigErrorKind::UnsupportedType),
        Some(ident) => {
            if same_text(ident.as_str(), name) {
                match trailing_argument(ty) {
                    Some(inner) => Ok(Some(inner)),
                    None => Err(ConfigErrorKind::MalformedWrapper),
                }
            } else {
                Ok(None)
            }
        },
    }
}

/// The text of an identifier that may be there.
pub open spec fn text_of_ref(ident: Option<&String>) -> Option<Seq<char>> {
    match ident {
        Some(s) => Some(s@),
        None => None,
    }
}

/// Takes the wrapper `name` off a type, one layer. The type is known by
/// the first segment of its path.
pub fn peel<'a>(ty: &'a TypeDesc, name: &str) -> (found: Result<
    Option<&'a TypeDesc>,
    ConfigErrorKind,
>)
    ensures
        match found {
            Ok(Some(inner)) => peeled(*ty, name@) == Ok::<Option<TypeDesc>, ConfigErrorKind>(
                Some(*inner),
            ),
            Ok(None) => peeled(*ty, name@) == Ok::<Option<TypeDesc>, ConfigErrorKind>(None),
            Err(e) => peeled(*ty, name@) == Err::<Option<TypeDesc>, ConfigErrorKind>(e),
        },
{
    take_layer(head_ident(ty), ty, name)
}

/// Takes the wrapper `name` off a type, one layer. The type is known by
/// the last segment of its path.
pub fn peel_last<'a>(ty: &'a TypeDesc, name: &str) -> (found: Result<
    Option<&'a TypeDesc>,
    ConfigErrorKind,
>)
    ensures
        match found {
            Ok(Some(inner)) => peeled_last(*ty, name@) == Ok::<Option<TypeDesc>, ConfigErrorKind>(
                Some(*inner),
            ),
            Ok(None) => peeled_last(*ty, name@) == Ok::<Option<TypeDesc>, ConfigErrorKind>(None),
            Err(e) => peeled_last(*ty, name@) == Err::<Option<TypeDesc>, ConfigErrorKind>(e),
        },
{
    take_layer(last_ident(ty), ty, name)
}

/// What the analysis finds in a declared type.
#[derive(Clone, Debug, PartialEq, Eq)]
pub struct Analysis<'a> {
    /// The wrappers around the element, from the outside in.
    pub chain: Vec<Wrapper>,
    /// The declared type without its optional wrapper: what a field that is
    /// present holds.
    pub value: &'a TypeDesc,
    /// The type under all the wrappers.
    pub element: &'a TypeDesc,
}

/// The mathematical content of an [`Analysis`].
pub ghost struct Classified {
    pub chain: Seq<Wrapper>,
    pub value: TypeDesc,
    pub element: TypeDesc,
}

impl<'a> View for Analysis<'a> {
    type V = Classified;

    open spec fn view(&self) -> Classified {
        Classified { chain: self.chain@, value: *self.value, element: *self.element }
    }
}

/// The wrapper that a recognised layer stands for, as a chain of its own.
pub open spec fn layer_chain(inner: Option<TypeDesc>, wrapper: Wrapper) -> Seq<Wrapper> {
    if inner is Some {
        seq![wrapper]
    } else {
        Seq::empty()
    }
}

/// The type under a layer: the inner type where the layer was recognised,
/// the type itself where it was not.
pub open spec fn under(ty: TypeDesc, inner: Option<TypeDesc>) -> TypeDesc {
    match inner {
        Some(t) => t,
        None => ty,
    }
}

/// The classification of a declared type: an outer `Option` is taken off
/// first, then a `Vec` off what is left.
pub open spec fn classified(ty: TypeDesc) -> Result<Classified, ConfigErrorKind> {
    match peeled(ty, "Option"@) {
        Err(e) => Err(e),
        Ok(optional) => {
            let value = under(ty, optional);
            match peeled(value, "Vec"@) {
                Err(e) => Err(e),
                Ok(repeated) => Ok(
                    Classified {
                        chain: layer_chain(optional, Wrapper::Optional) + layer_chain(
                            repeated,
                            Wrapper::Repeated,
                        ),
                        value,
                        element: under(value, repeated),
                    },
                ),
            }
        },
    }
}

/// Classifies a declared type into its wrapper chain and element type.
pub fn analyze<'a>(ty: &'a TypeDesc) -> (found: Result<Analysis<'a>, ConfigErrorKind>)
    ensures
        match found {
            Ok(a) => classified(*ty) == Ok::<Classified, ConfigErrorKind>(a@),
            Err(e) => classified(*ty) == Err::<Classified, ConfigErrorKind>(e),
        },
{
    let mut chain: Vec<Wrapper> = Vec::new();
    let value = match peel(ty, "Option") {
        Err(e) => {
            return Err(e);
        },
        Ok(Some(inner)) => {
            chain.push(Wrapper::Optional);
            inner
        },
        Ok(None) => ty,
    };
    let element = match peel(value, "Vec") {
        Err(e) => {
            return Err(e);
        },
        Ok(Some(inner)) => {
            chain.push(Wrapper::Repeated);
            inner
        },
        Ok(None) => value,
    };
    let found = Analysis { chain, value, element };
    assert(found@.chain =~= classified(*ty)->Ok_0.chain);
    Ok(found)
}

/// The classification of a declared type for a builder in which every
/// field holds one value: only an outer `Option` is taken off, and the type
/// is known by the last segment of its path. What is left is value and
/// element at once, a sequence like any other type.
pub open spec fn classified_scalar(ty: TypeDesc) -> Result<Classified, ConfigErrorKind> {
    match peeled_last(ty, "Option"@) {
        Err(e) => Err(e),
        Ok(optional) => Ok(
            Classified {
                chain: layer_chain(optional, Wrapper::Optional),
                value: under(ty, optional),
                element: under(ty, optional),
            },
        ),
    }
}

/// Classifies a declared type for a builder in which every field holds one
/// value.
pub fn analyze_scalar<'a>(ty: &'a TypeDesc) -> (found: Result<Analysis<'a>, ConfigErrorKind>)
    ensures
        match found {
            Ok(a) => classified_scalar(*ty) == Ok::<Classified, ConfigErrorKind>(a@),
            Err(e) => classified_scalar(*ty) == Err::<Classified, ConfigErrorKind>(e),
        },
{
    let mut chain: Vec<Wrapper> = Vec::new();
    let value = match peel_last(ty, "Option") {
        Err(e) => {
            return Err(e);
        },
        Ok(Some(inner)) => {
            chain.push(Wrapper::Optional);
            inner
        },
        Ok(None) => ty,
    };
    let found = Analysis { chain, value, element: value };
    assert(found@.chain =~= classified_scalar(*ty)->Ok_0.chain);
    Ok(found)
}

} // verus!
