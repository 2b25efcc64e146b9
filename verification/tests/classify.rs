use guest_abi::kind::{classify, transform_path, transform_reference, TransformationKind};
use guest_abi::syntax::{name_is, PathSegment, TypeExpr, TypePath, TypeReference};

fn segment(name: &str, has_arguments: bool) -> PathSegment {
    PathSegment { ident: name.to_string(), has_arguments }
}

fn path_of(leading_colon: bool, segments: Vec<PathSegment>) -> TypePath {
    TypePath { leading_colon, segments }
}

fn shared(elem: TypeExpr) -> TypeExpr {
    TypeExpr::reference(false, elem)
}

fn exclusive(elem: TypeExpr) -> TypeExpr {
    TypeExpr::reference(true, elem)
}

#[test]
fn primitives_are_direct() {
    for name in ["i32", "i64", "f32", "f64"] {
        assert_eq!(classify(&TypeExpr::ident(name)), TransformationKind::Direct);
    }
}

#[test]
fn other_integer_types_are_not_primitive() {
    for name in ["u8", "u32", "usize", "i16", "bool", "str", "I32"] {
        assert_eq!(classify(&TypeExpr::ident(name)), TransformationKind::OpaqueHandle);
    }
}

#[test]
fn custom_type_by_value_is_an_opaque_handle() {
    assert_eq!(classify(&TypeExpr::ident("Channel")), TransformationKind::OpaqueHandle);
}

#[test]
fn custom_type_by_reference_is_a_borrowed_handle() {
    assert_eq!(classify(&shared(TypeExpr::ident("Channel"))), TransformationKind::BorrowedHandle);
}

#[test]
fn shared_reference_to_a_primitive_is_a_borrowed_handle() {
    assert_eq!(classify(&shared(TypeExpr::ident("i32"))), TransformationKind::BorrowedHandle);
}

#[test]
fn str_reference_is_text() {
    assert_eq!(classify(&shared(TypeExpr::ident("str"))), TransformationKind::Utf8String);
}

#[test]
fn mutable_byte_slice_is_a_byte_span() {
    let ty = exclusive(TypeExpr::slice(TypeExpr::ident("u8")));
    assert_eq!(classify(&ty), TransformationKind::MutableByteSpan);
}

#[test]
fn byte_slice_is_found_by_its_last_segment() {
    let ty = exclusive(TypeExpr::slice(TypeExpr::path(&["core", "primitive", "u8"])));
    assert_eq!(classify(&ty), TransformationKind::MutableByteSpan);
}

#[test]
fn slice_of_io_slices_is_a_readonly_vectored_span() {
    let bare = shared(TypeExpr::slice(TypeExpr::ident("IoSlice")));
    assert_eq!(classify(&bare), TransformationKind::ReadonlyVectoredSpan);
    let qualified = shared(TypeExpr::slice(TypeExpr::path(&["std", "io", "IoSlice"])));
    assert_eq!(classify(&qualified), TransformationKind::ReadonlyVectoredSpan);
}

#[test]
fn slice_of_io_slices_with_a_lifetime_argument() {
    let elem = TypeExpr::Path(path_of(
        false,
        vec![segment("std", false), segment("io", false), segment("IoSlice", true)],
    ));
    assert_eq!(
        classify(&shared(TypeExpr::slice(elem))),
        TransformationKind::ReadonlyVectoredSpan
    );
}

#[test]
fn mutable_slice_of_io_slices_is_a_mutable_vectored_span() {
    let bare = exclusive(TypeExpr::slice(TypeExpr::ident("IoSliceMut")));
    assert_eq!(classify(&bare), TransformationKind::MutableVectoredSpan);
    let elem = TypeExpr::Path(path_of(
        true,
        vec![segment("std", false), segment("io", false), segment("IoSliceMut", true)],
    ));
    assert_eq!(
        classify(&exclusive(TypeExpr::slice(elem))),
        TransformationKind::MutableVectoredSpan
    );
}

#[test]
fn mutability_must_match_the_element() {
    let readonly_behind_mut = exclusive(TypeExpr::slice(TypeExpr::ident("IoSlice")));
    assert_eq!(classify(&readonly_behind_mut), TransformationKind::Unsupported);
    let mutable_behind_shared = shared(TypeExpr::slice(TypeExpr::ident("IoSliceMut")));
    assert_eq!(classify(&mutable_behind_shared), TransformationKind::Unsupported);
    let shared_bytes = shared(TypeExpr::slice(TypeExpr::ident("u8")));
    assert_eq!(classify(&shared_bytes), TransformationKind::Unsupported);
}

#[test]
fn mutable_reference_to_anything_but_a_slice_is_unsupported() {
    assert_eq!(classify(&exclusive(TypeExpr::ident("str"))), TransformationKind::Unsupported);
    assert_eq!(classify(&exclusive(TypeExpr::ident("Channel"))), TransformationKind::Unsupported);
    assert_eq!(classify(&exclusive(TypeExpr::Tuple)), TransformationKind::Unsupported);
}

#[test]
fn arrays_tuples_and_other_shapes_are_unsupported() {
    assert_eq!(classify(&TypeExpr::Array), TransformationKind::Unsupported);
    assert_eq!(classify(&TypeExpr::Tuple), TransformationKind::Unsupported);
    assert_eq!(classify(&TypeExpr::Other), TransformationKind::Unsupported);
    assert_eq!(classify(&TypeExpr::slice(TypeExpr::ident("u8"))), TransformationKind::Unsupported);
}

#[test]
fn double_reference_is_unsupported() {
    for outer in [false, true] {
        for inner in [false, true] {
            let ty = TypeExpr::reference(outer, TypeExpr::reference(inner, TypeExpr::ident("str")));
            assert_eq!(classify(&ty), TransformationKind::Unsupported);
        }
    }
}

#[test]
fn slice_of_a_slice_is_unsupported() {
    let nested = TypeExpr::slice(TypeExpr::slice(TypeExpr::ident("u8")));
    assert_eq!(classify(&exclusive(nested)), TransformationKind::Unsupported);
    let shared_nested = TypeExpr::slice(TypeExpr::slice(TypeExpr::ident("IoSlice")));
    assert_eq!(classify(&shared(shared_nested)), TransformationKind::Unsupported);
}

#[test]
fn longer_paths_are_unsupported_by_value() {
    assert_eq!(classify(&TypeExpr::path(&["std", "i32"])), TransformationKind::Unsupported);
    assert_eq!(
        classify(&shared(TypeExpr::path(&["module", "Channel"]))),
        TransformationKind::Unsupported
    );
}

#[test]
fn path_with_leading_colon_or_arguments_is_no_identifier() {
    let rooted = path_of(true, vec![segment("i32", false)]);
    assert_eq!(transform_path(&rooted), TransformationKind::Unsupported);
    let generic = path_of(false, vec![segment("Vec", true)]);
    assert_eq!(transform_path(&generic), TransformationKind::Unsupported);
    let empty = path_of(false, vec![]);
    assert_eq!(transform_path(&empty), TransformationKind::Unsupported);
}

#[test]
fn slice_of_an_empty_path_is_unsupported() {
    let shared_empty = TypeReference {
        mutable: false,
        elem: Box::new(TypeExpr::slice(TypeExpr::Path(path_of(false, vec![])))),
    };
    assert_eq!(transform_reference(&shared_empty), TransformationKind::Unsupported);
    let exclusive_empty = TypeReference {
        mutable: true,
        elem: Box::new(TypeExpr::slice(TypeExpr::Path(path_of(false, vec![])))),
    };
    assert_eq!(transform_reference(&exclusive_empty), TransformationKind::Unsupported);
}

#[test]
fn transform_path_tells_primitives_from_custom_types() {
    let primitive = path_of(false, vec![segment("f64", false)]);
    assert_eq!(transform_path(&primitive), TransformationKind::Direct);
    let custom = path_of(false, vec![segment("Process", false)]);
    assert_eq!(transform_path(&custom), TransformationKind::OpaqueHandle);
}

#[test]
fn transform_reference_reads_the_referent() {
    let text = TypeReference { mutable: false, elem: Box::new(TypeExpr::ident("str")) };
    assert_eq!(transform_reference(&text), TransformationKind::Utf8String);
    let bytes = TypeReference {
        mutable: true,
        elem: Box::new(TypeExpr::slice(TypeExpr::ident("u8"))),
    };
    assert_eq!(transform_reference(&bytes), TransformationKind::MutableByteSpan);
}

#[test]
fn classifying_twice_gives_the_same_kind() {
    let types = vec![
        TypeExpr::ident("i32"),
        TypeExpr::ident("Channel"),
        shared(TypeExpr::ident("str")),
        exclusive(TypeExpr::slice(TypeExpr::ident("u8"))),
        TypeExpr::Array,
    ];
    for ty in &types {
        assert_eq!(classify(ty), classify(ty));
        assert_eq!(classify(ty), classify(&ty.clone()));
    }
}

#[test]
fn get_ident_and_last_ident() {
    let bare = path_of(false, vec![segment("Channel", false)]);
    assert_eq!(bare.get_ident(), Some(&"Channel".to_string()));
    assert_eq!(bare.last_ident(), Some(&"Channel".to_string()));
    let long = path_of(false, vec![segment("a", false), segment("B", true)]);
    assert_eq!(long.get_ident(), None);
    assert_eq!(long.last_ident(), Some(&"B".to_string()));
    assert_eq!(path_of(false, vec![]).last_ident(), None);
}

#[test]
fn name_is_compares_whole_names() {
    assert!(name_is(&"i32".to_string(), "i32"));
    assert!(!name_is(&"i32".to_string(), "i3"));
    assert!(!name_is(&"i3".to_string(), "i32"));
    assert!(!name_is(&"".to_string(), "i32"));
}

#[test]
fn builders_make_the_expected_shapes() {
    assert_eq!(
        TypeExpr::ident("i32"),
        TypeExpr::Path(path_of(false, vec![segment("i32", false)]))
    );
    assert_eq!(
        TypeExpr::path(&["std", "io", "IoSlice"]),
        TypeExpr::Path(path_of(
            false,
            vec![segment("std", false), segment("io", false), segment("IoSlice", false)]
        ))
    );
    assert_eq!(
        TypeExpr::reference(true, TypeExpr::Tuple),
        TypeExpr::Reference(TypeReference { mutable: true, elem: Box::new(TypeExpr::Tuple) })
    );
    assert_eq!(TypeExpr::slice(TypeExpr::Array), TypeExpr::Slice(Box::new(TypeExpr::Array)));
}

#[test]
fn clone_copies_the_whole_shape() {
    let ty = exclusive(TypeExpr::slice(TypeExpr::path(&["std", "io", "IoSliceMut"])));
    assert_eq!(ty.clone(), ty);
}
