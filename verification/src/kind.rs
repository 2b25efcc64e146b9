//! Classification: which transformation a declared type calls for.
use vstd::prelude::*;
use crate::syntax::{
    bare_ident, ident_type, last_ident, mutable_reference, name_is, shared_reference, slice_of,
    type_model, PathModel, TypeExpr, TypeModel, TypePath, TypeReference,
};

verus! {

/// The way one host parameter is carried across the guest boundary.
#[derive(Clone, Copy, Debug, PartialEq, Eq, Structural)]
pub enum TransformationKind {
    /// A primitive machine type, passed through as it is.
    Direct,
    /// A custom type passed by value, decoded from one handle.
    OpaqueHandle,
    /// A custom type passed by reference, decoded from one handle.
    BorrowedHandle,
    /// `&str`: a pointer and a length that address UTF-8 text.
    Utf8String,
    /// `&mut [u8]`: a pointer and a length that address writable bytes.
    MutableByteSpan,
    /// `&[IoSlice]`: a pointer and a count that address read-only buffer
    /// descriptors.
    ReadonlyVectoredSpan,
    /// `&mut [IoSliceMut]`: a pointer and a count that address writable buffer
    /// descriptors.
    MutableVectoredSpan,
    /// A shape for which there is no transformation.
    Unsupported,
}

/// Whether `name` is one of the four primitive machine types of the guest.
pub open spec fn is_primitive_name(name: Seq<char>) -> bool {
    name == "i32"@ || name == "i64"@ || name == "f32"@ || name == "f64"@
}

/// The kind of a type that is a path.
pub open spec fn path_kind(path: PathModel) -> TransformationKind {
    match bare_ident(path) {
        Some(name) => if is_primitive_name(name) {
            TransformationKind::Direct
        } else {
            TransformationKind::OpaqueHandle
        },
        None => TransformationKind::Unsupported,
    }
}

/// The kind of `&mut elem`.
pub open spec fn mutable_reference_kind(elem: TypeModel) -> TransformationKind {
    match elem {
        TypeModel::Slice(item) => match *item {
            TypeModel::Path(path) => match last_ident(path) {
                Some(name) => if name == "IoSliceMut"@ {
                    TransformationKind::MutableVectoredSpan
                } else if name == "u8"@ {
                    TransformationKind::MutableByteSpan
                } else {
                    TransformationKind::Unsupported
                },
                None => TransformationKind::Unsupported,
            },
            _ => TransformationKind::Unsupported,
        },
        _ => TransformationKind::Unsupported,
    }
}

/// The kind of `&elem`.
pub open spec fn shared_reference_kind(elem: TypeModel) -> TransformationKind {
    match elem {
        TypeModel::Path(path) => match bare_ident(path) {
            Some(name) => if name == "str"@ {
                TransformationKind::Utf8String
            } else {
                TransformationKind::BorrowedHandle
            },
            None => TransformationKind::Unsupported,
        },
        TypeModel::Slice(item) => match *item {
            TypeModel::Path(path) => match last_ident(path) {
                Some(name) => if name == "IoSlice"@ {
                    TransformationKind::ReadonlyVectoredSpan
                } else {
                    TransformationKind::Unsupported
                },
                None => TransformationKind::Unsupported,
            },
            _ => TransformationKind::Unsupported,
        },
        _ => TransformationKind::Unsupported,
    }
}

/// The kind of a reference type.
pub open spec fn reference_kind(mutable: bool, elem: TypeModel) -> TransformationKind {
    if mutable {
        mutable_reference_kind(elem)
    } else {
        shared_reference_kind(elem)
    }
}

/// The kind of any type: decided by its shape alone.
pub open spec fn kind_of(ty: TypeModel) -> TransformationKind {
    match ty {
        TypeModel::Path(path) => path_kind(path),
        TypeModel::Reference { mutable, elem } => reference_kind(mutable, *elem),
        _ => TransformationKind::Unsupported,
    }
}

/// Classifies a type that is a path: `i32`, `CustomType`, `a::b::C`.
pub fn transform_path(path: &TypePath) -> (kind: TransformationKind)
    ensures
        kind == path_kind(path@),
{
    match path.get_ident() {
        Some(name) => {
            if name_is(name, "i32") || name_is(name, "i64") || name_is(name, "f32") || name_is(
                name,
                "f64",
            ) {
                TransformationKind::Direct
            } else {
                TransformationKind::OpaqueHandle
            }
        },
        None => TransformationKind::Unsupported,
    }
}

/// Classifies a reference type: `&str`, `&mut [u8]`, `&CustomType`.
pub fn transform_reference(reference: &TypeReference) -> (kind: TransformationKind)
    ensures
        kind == reference_kind(reference.mutable, (*reference.elem)@),
{
    proof {
        reveal_with_fuel(type_model, 3);
    }
    if reference.mutable {
        return match &*reference.elem {
            TypeExpr::Slice(item) => match &**item {
                TypeExpr::Path(path) => match path.last_ident() {
                    Some(name) => {
                        if name_is(name, "IoSliceMut") {
                            TransformationKind::MutableVectoredSpan
                        } else if name_is(name, "u8") {
                            TransformationKind::MutableByteSpan
                        } else {
                            TransformationKind::Unsupported
                        }
                    },
                    None => TransformationKind::Unsupported,
                },
                _ => TransformationKind::Unsupported,
            },
            _ => TransformationKind::Unsupported,
        };
    }
    match &*reference.elem {
        TypeExpr::Path(path) => match path.get_ident() {
            Some(name) => {
                if name_is(name, "str") {
                    TransformationKind::Utf8String
                } else {
                    TransformationKind::BorrowedHandle
                }
            },
            None => TransformationKind::Unsupported,
        },
        TypeExpr::Slice(item) => match &**item {
            TypeExpr::Path(path) => match path.last_ident() {
                Some(name) => {
                    if name_is(name, "IoSlice") {
                        TransformationKind::ReadonlyVectoredSpan
                    } else {
                        TransformationKind::Unsupported
                    }
                },
                None => TransformationKind::Unsupported,
            },
            _ => TransformationKind::Unsupported,
        },
        _ => TransformationKind::Unsupported,
    }
}

/// Classifies a declared type. Total, and a function of the type's shape
/// alone: no alias is resolved and no name is looked up.
pub fn classify(ty: &TypeExpr) -> (kind: TransformationKind)
    ensures
        kind == kind_of(ty@),
{
    match ty {
        TypeExpr::Path(path) => transform_path(path),
        TypeExpr::Reference(reference) => transform_reference(reference),
        _ => TransformationKind::Unsupported,
    }
}

/// Each of the four primitive machine types is passed through directly.
pub proof fn primitives_are_direct(name: Seq<char>)
    requires
        is_primitive_name(name),
    ensures
        kind_of(ident_type(name)) == TransformationKind::Direct,
{
}

/// A single identifier that is no primitive names a custom type passed by
/// value; a shared reference to a single identifier other than `str` is a
/// custom type passed by reference.
pub proof fn custom_types_are_handles(name: Seq<char>)
    ensures
        !is_primitive_name(name) ==> kind_of(ident_type(name)) == TransformationKind::OpaqueHandle,
        name != "str"@ ==> kind_of(shared_reference(ident_type(name)))
            == TransformationKind::BorrowedHandle,
{
}

/// `&str` is text, `&mut [u8]` a writable byte span, and a slice of buffers
/// a vectored span: read-only behind `&` where the element's path ends in
/// `IoSlice`, writable behind `&mut` where it ends in `IoSliceMut`.
pub proof fn spans_are_recognised(path: PathModel)
    ensures
        kind_of(shared_reference(ident_type("str"@))) == TransformationKind::Utf8String,
        kind_of(mutable_reference(slice_of(ident_type("u8"@))))
            == TransformationKind::MutableByteSpan,
        last_ident(path) == Some("u8"@) ==> kind_of(
            mutable_reference(slice_of(TypeModel::Path(path))),
        ) == TransformationKind::MutableByteSpan,
        last_ident(path) == Some("IoSlice"@) ==> kind_of(
            shared_reference(slice_of(TypeModel::Path(path))),
        ) == TransformationKind::ReadonlyVectoredSpan,
        last_ident(path) == Some("IoSliceMut"@) ==> kind_of(
            mutable_reference(slice_of(TypeModel::Path(path))),
        ) == TransformationKind::MutableVectoredSpan,
{
    reveal_strlit("u8");
    reveal_strlit("IoSliceMut");
    assert("u8"@.len() != "IoSliceMut"@.len());
    assert(ident_type("u8"@)->Path_0.segments.last().ident == "u8"@);
}

/// Two type expressions of the same shape are of the same kind: the kind
/// depends on nothing else.
pub proof fn classification_is_a_function(first: TypeExpr, second: TypeExpr)
    requires
        first@ == second@,
    ensures
        kind_of(first@) == kind_of(second@),
{
}

/// An array, a tuple and a reference to a reference are never supported,
/// whatever they are made of.
pub proof fn odd_shapes_are_unsupported(mutable: bool, inner_mutable: bool, inner: TypeModel)
    ensures
        kind_of(TypeModel::Array) == TransformationKind::Unsupported,
        kind_of(TypeModel::Tuple) == TransformationKind::Unsupported,
        kind_of(
            TypeModel::Reference {
                mutable,
                elem: Box::new(TypeModel::Reference { mutable: inner_mutable, elem: Box::new(inner) }),
            },
        ) == TransformationKind::Unsupported,
{
}

} // verus!
