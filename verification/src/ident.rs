//! Type references as the generators see them, and the extraction of a bare
//! identifier from one.

use crate::error::{GenError, GenErrorView};
use vstd::prelude::*;
use vstd::string::*;
use vstd::utf8::encode_utf8;

verus! {

/// One segment of a path: its identifier, and whether it stands alone.
#[derive(Debug, PartialEq, Eq)]
pub struct PathSegment {
    /// The identifier as written.
    pub ident: String,
    /// True when no angle-bracketed or parenthesized arguments follow the
    /// identifier.
    pub bare: bool,
}

/// The mathematical content of a [`PathSegment`].
pub struct PathSegmentView {
    pub ident: Seq<char>,
    pub bare: bool,
}

impl View for PathSegment {
    type V = PathSegmentView;

    open spec fn view(&self) -> PathSegmentView {
        PathSegmentView { ident: self.ident@, bare: self.bare }
    }
}

/// The syntactic shape of a type, as far as identifier extraction reads it.
#[derive(Debug, PartialEq, Eq)]
pub enum TypeShape {
    /// A path such as `Foo`, `a::B`, `::a::B` or `Vec<T>`.
    Path { leading_colon: bool, segments: Vec<PathSegment> },
    /// Anything else: a reference, a pointer, a tuple, an array, a slice, a
    /// function type, a parenthesized type and so on.
    Other,
}

/// The mathematical content of a [`TypeShape`].
pub enum TypeShapeView {
    Path { leading_colon: bool, segments: Seq<PathSegmentView> },
    Other,
}

impl View for TypeShape {
    type V = TypeShapeView;

    open spec fn view(&self) -> TypeShapeView {
        match self {
            TypeShape::Path { leading_colon, segments } => TypeShapeView::Path {
                leading_colon: *leading_colon,
                segments: Seq::new(segments@.len(), |i: int| segments@[i]@),
            },
            TypeShape::Other => TypeShapeView::Other,
        }
    }
}

impl TypeShapeView {
    /// The identifier of a simple named type: a path without a leading
    /// `::`, of exactly one segment, which carries no arguments. `None` for
    /// every other shape.
    pub open spec fn simple_ident(self) -> Option<Seq<char>> {
        match self {
            TypeShapeView::Path { leading_colon, segments } => {
                if !leading_colon && segments.len() == 1 && segments[0].bare {
                    Some(segments[0].ident)
                } else {
                    None
                }
            },
            TypeShapeView::Other => None,
        }
    }
}

/// A syntactic reference to a type: the text of the reference and the shape
/// that the text has.
#[derive(Debug, PartialEq, Eq)]
pub struct TypeRef {
    /// The reference as it was written.
    pub source: String,
    /// Its shape.
    pub shape: TypeShape,
}

/// Returns the bare identifier of a simple named type, exactly as written.
///
/// Any other shape is a malformed type reference; the error reproduces the
/// offending syntax.
pub fn fetch_ident(ty: &TypeRef) -> (ident: Result<String, GenError>)
    ensures
        match ty.shape@.simple_ident() {
            Some(name) => ident is Ok && ident->Ok_0@ == name,
            None => ident is Err && ident->Err_0@ == (GenErrorView::MalformedTypeReference {
                syntax: ty.source@,
            }),
        },
{
    match &ty.shape {
        TypeShape::Path { leading_colon, segments } => {
            if !*leading_colon && segments.len() == 1 && segments[0].bare {
                return Ok(segments[0].ident.clone());
            }
        },
        TypeShape::Other => {},
    }
    Err(GenError::MalformedTypeReference { syntax: ty.source.clone() })
}

/// Whether a byte can stand in a name: an ASCII digit, an ASCII letter or
/// an underscore.
pub open spec fn is_name_byte(byte: u8) -> bool {
    ||| 0x30 <= byte <= 0x39
    ||| 0x41 <= byte <= 0x5a
    ||| 0x61 <= byte <= 0x7a
    ||| byte == 0x5f
}

/// The number of bytes that cannot stand in a name.
pub open spec fn breaks(bytes: Seq<u8>) -> nat
    decreases bytes.len(),
{
    if bytes.len() == 0 {
        0
    } else if is_name_byte(bytes.last()) {
        breaks(bytes.drop_last())
    } else {
        breaks(bytes.drop_last()) + 1
    }
}

/// A longer text has no fewer breaks.
proof fn lemma_breaks_grow(bytes: Seq<u8>, n: int)
    requires
        0 <= n <= bytes.len(),
    ensures
        breaks(bytes.take(n)) <= breaks(bytes),
    decreases bytes.len(),
{
    if n < bytes.len() {
        assert(bytes.drop_last().take(n) =~= bytes.take(n));
        lemma_breaks_grow(bytes.drop_last(), n);
    } else {
        assert(bytes.take(n) =~= bytes);
    }
}

/// The most breaks that a source text may hold and still be read as a
/// type. The parser descends at most once for each token of the text, and
/// no two tokens come without a break between them or in one of them: the
/// bound keeps the descent shallow. A name in ASCII holds no break, and is
/// read whatever its length.
pub const MAX_BREAKS: usize = 32;

/// Whether the text, in UTF-8, holds no more than [`MAX_BREAKS`] breaks.
pub open spec fn is_readable(source: Seq<char>) -> bool {
    breaks(encode_utf8(source)) <= MAX_BREAKS
}

/// Counts the breaks of a text, as far as the bound.
fn check_readable(source: &str) -> (yes: bool)
    ensures
        yes == is_readable(source@),
{
    let bytes = source.as_bytes();
    let mut count: usize = 0;
    let mut i: usize = 0;
    assert(bytes@.take(0) =~= Seq::empty());
    while i < bytes.len()
        invariant
            i <= bytes.len(),
            bytes@ == encode_utf8(source@),
            count == breaks(bytes@.take(i as int)),
            count <= MAX_BREAKS,
        decreases bytes.len() - i,
    {
        let byte = bytes[i];
        assert(bytes@.take(i + 1).drop_last() =~= bytes@.take(i as int));
        assert(bytes@.take(i + 1).last() == byte);
        let in_name = (0x30 <= byte && byte <= 0x39) || (0x41 <= byte && byte <= 0x5a) || (0x61 <= byte
            && byte <= 0x7a) || byte == 0x5f;
        if !in_name {
            if count == MAX_BREAKS {
                proof {
                    lemma_breaks_grow(bytes@, i + 1);
                }
                return false;
            }
            count += 1;
        }
        i += 1;
    }
    assert(bytes@.take(i as int) =~= bytes@);
    true
}

/// The shape that the parser finds in a piece of source text, or `None`
/// where the text is not a type at all.
pub uninterp spec fn parsed_shape(source: Seq<char>) -> Option<TypeShapeView>;

/// Parses `source` as a type with `syn::parse_str` and reports its shape.
///
/// Trusted: the result is whatever the parser makes of the text, named
/// [`parsed_shape`]. A `Type::Path` is reported with the path's leading
/// colon and, for each segment in order, its identifier and whether
/// `PathArguments::is_none` holds of its arguments; every other variant is
/// `Other`; a parse error is `None`.
#[verifier::external_body]
fn parse_shape(source: &str) -> (shape: Option<TypeShape>)
    requires
        is_readable(source@),
    ensures
        match shape {
            Some(s) => parsed_shape(source@) == Some(s@),
            None => parsed_shape(source@) is None,
        },
{
    match syn::parse_str::<syn::Type>(source) {
        Ok(syn::Type::Path(p)) => Some(TypeShape::Path {
            leading_colon: p.path.leading_colon.is_some(),
            segments: p.path.segments.iter().map(|s| PathSegment {
                ident: s.ident.to_string(),
                bare: s.arguments.is_none(),
            }).collect(),
        }),
        Ok(_) => Some(TypeShape::Other),
        Err(_) => None,
    }
}

/// The shape of a piece of source text: what the parser finds in it, where
/// it is readable and is a type; else `None`.
pub open spec fn source_shape(source: Seq<char>) -> Option<TypeShapeView> {
    if is_readable(source) {
        parsed_shape(source)
    } else {
        None
    }
}

/// Reads a type reference from source text.
///
/// Text that is not a type at all, or that holds more than [`MAX_BREAKS`]
/// breaks, is a malformed type reference.
pub fn parse_type_ref(source: &str) -> (ty: Result<TypeRef, GenError>)
    ensures
        match source_shape(source@) {
            Some(shape) => ty is Ok && ty->Ok_0.source@ == source@ && ty->Ok_0.shape@ == shape,
            None => ty is Err && ty->Err_0@ == (GenErrorView::MalformedTypeReference {
                syntax: source@,
            }),
        },
{
    if check_readable(source) {
        match parse_shape(source) {
            Some(shape) => {
                return Ok(TypeRef { source: source.to_owned(), shape });
            },
            None => {},
        }
    }
    Err(GenError::MalformedTypeReference { syntax: source.to_owned() })
}

} // verus!
