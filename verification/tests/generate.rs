use guest_abi::generate::{
    generate, transform, DecodeStep, GuestParam, HostArgument, ParameterAdapter, ShapeError,
    SpanWords,
};
use guest_abi::kind::TransformationKind;
use guest_abi::signature::{transform_signature, SignatureError};
use guest_abi::syntax::{ParamPattern, ParameterDeclaration, TypeExpr};

fn word(name: &str) -> GuestParam {
    GuestParam { name: name.to_string(), ty: TypeExpr::ident("i32") }
}

fn words(name: &str) -> SpanWords {
    SpanWords {
        binding: name.to_string(),
        ptr: format!("{}_ptr", name),
        len: format!("{}_len", name),
    }
}

fn str_type() -> TypeExpr {
    TypeExpr::reference(false, TypeExpr::ident("str"))
}

fn bytes_type() -> TypeExpr {
    TypeExpr::reference(true, TypeExpr::slice(TypeExpr::ident("u8")))
}

#[test]
fn primitive_parameter_is_forwarded_unchanged() {
    for primitive in ["i32", "i64", "f32", "f64"] {
        let made = transform(&ParameterDeclaration::new("x", TypeExpr::ident(primitive)));
        assert_eq!(
            made,
            Ok(ParameterAdapter {
                guest: vec![GuestParam { name: "x".to_string(), ty: TypeExpr::ident(primitive) }],
                prolog: DecodeStep::Passthrough,
                argument: HostArgument::Binding("x".to_string()),
            })
        );
    }
}

#[test]
fn custom_type_is_decoded_from_one_handle() {
    let made = transform(&ParameterDeclaration::new("channel", TypeExpr::ident("Channel")));
    assert_eq!(
        made,
        Ok(ParameterAdapter {
            guest: vec![word("channel")],
            prolog: DecodeStep::OwnedHandle {
                binding: "channel".to_string(),
                target: TypeExpr::ident("Channel"),
            },
            argument: HostArgument::Binding("channel".to_string()),
        })
    );
}

#[test]
fn borrowed_custom_type_is_decoded_without_its_reference() {
    let ty = TypeExpr::reference(false, TypeExpr::ident("Channel"));
    let made = transform(&ParameterDeclaration::new("channel", ty));
    assert_eq!(
        made,
        Ok(ParameterAdapter {
            guest: vec![word("channel")],
            prolog: DecodeStep::BorrowedHandle {
                binding: "channel".to_string(),
                target: TypeExpr::ident("Channel"),
            },
            argument: HostArgument::Binding("channel".to_string()),
        })
    );
}

#[test]
fn text_becomes_pointer_and_length() {
    let made = transform(&ParameterDeclaration::new("path", str_type()));
    assert_eq!(
        made,
        Ok(ParameterAdapter {
            guest: vec![word("path_ptr"), word("path_len")],
            prolog: DecodeStep::Utf8String(words("path")),
            argument: HostArgument::Binding("path".to_string()),
        })
    );
}

#[test]
fn byte_span_becomes_pointer_and_length() {
    let made = transform(&ParameterDeclaration::new("buf", bytes_type()));
    assert_eq!(
        made,
        Ok(ParameterAdapter {
            guest: vec![word("buf_ptr"), word("buf_len")],
            prolog: DecodeStep::MutableByteSpan(words("buf")),
            argument: HostArgument::Binding("buf".to_string()),
        })
    );
}

#[test]
fn readonly_vectored_span_is_passed_as_a_slice() {
    let ty = TypeExpr::reference(false, TypeExpr::slice(TypeExpr::path(&["std", "io", "IoSlice"])));
    let made = transform(&ParameterDeclaration::new("iovs", ty));
    assert_eq!(
        made,
        Ok(ParameterAdapter {
            guest: vec![word("iovs_ptr"), word("iovs_len")],
            prolog: DecodeStep::ReadonlyVectoredSpan(words("iovs")),
            argument: HostArgument::SliceView("iovs".to_string()),
        })
    );
}

#[test]
fn mutable_vectored_span_is_passed_as_a_mutable_slice() {
    let ty = TypeExpr::reference(true, TypeExpr::slice(TypeExpr::ident("IoSliceMut")));
    let made = transform(&ParameterDeclaration::new("iovs", ty));
    assert_eq!(
        made,
        Ok(ParameterAdapter {
            guest: vec![word("iovs_ptr"), word("iovs_len")],
            prolog: DecodeStep::MutableVectoredSpan(words("iovs")),
            argument: HostArgument::MutableSliceView("iovs".to_string()),
        })
    );
}

#[test]
fn fragment_lengths_by_kind() {
    let name = "p".to_string();
    let reference = TypeExpr::reference(false, TypeExpr::ident("T"));
    let cases = [
        (TransformationKind::Direct, 1),
        (TransformationKind::OpaqueHandle, 1),
        (TransformationKind::BorrowedHandle, 1),
        (TransformationKind::Utf8String, 2),
        (TransformationKind::MutableByteSpan, 2),
        (TransformationKind::ReadonlyVectoredSpan, 2),
        (TransformationKind::MutableVectoredSpan, 2),
    ];
    for (kind, expected) in cases {
        let made = generate(&name, &reference, kind).unwrap();
        assert_eq!(made.guest.len(), expected);
    }
}

#[test]
fn unsupported_kind_fails_generation() {
    let name = "p".to_string();
    assert_eq!(
        generate(&name, &TypeExpr::ident("i32"), TransformationKind::Unsupported),
        Err(ShapeError::UnsupportedType)
    );
}

#[test]
fn borrowed_handle_needs_a_reference() {
    let name = "p".to_string();
    assert_eq!(
        generate(&name, &TypeExpr::ident("Channel"), TransformationKind::BorrowedHandle),
        Err(ShapeError::MissingReference)
    );
    assert_eq!(
        generate(&name, &TypeExpr::Tuple, TransformationKind::BorrowedHandle),
        Err(ShapeError::MissingReference)
    );
}

#[test]
fn direct_keeps_whatever_type_was_declared() {
    let name = "p".to_string();
    let made = generate(&name, &TypeExpr::ident("Channel"), TransformationKind::Direct).unwrap();
    assert_eq!(made.guest, vec![GuestParam { name: "p".to_string(), ty: TypeExpr::ident("Channel") }]);
    assert_eq!(made.prolog, DecodeStep::Passthrough);
}

#[test]
fn array_tuple_and_double_reference_are_rejected() {
    let double = TypeExpr::reference(false, TypeExpr::reference(false, TypeExpr::ident("str")));
    for ty in [TypeExpr::Array, TypeExpr::Tuple, TypeExpr::Other, double] {
        assert_eq!(
            transform(&ParameterDeclaration::new("p", ty)),
            Err(ShapeError::UnsupportedType)
        );
    }
}

#[test]
fn qualified_bindings_are_rejected() {
    let by_ref = ParameterDeclaration {
        pattern: ParamPattern::Ident { by_ref: true, mutable: false, name: "x".to_string() },
        ty: TypeExpr::ident("i32"),
    };
    assert_eq!(transform(&by_ref), Err(ShapeError::Binding));
    let mutable = ParameterDeclaration {
        pattern: ParamPattern::Ident { by_ref: false, mutable: true, name: "x".to_string() },
        ty: TypeExpr::ident("i32"),
    };
    assert_eq!(transform(&mutable), Err(ShapeError::Binding));
}

#[test]
fn patterns_are_rejected_before_the_type_is_looked_at() {
    let pattern = ParameterDeclaration { pattern: ParamPattern::Other, ty: TypeExpr::ident("i32") };
    assert_eq!(transform(&pattern), Err(ShapeError::Binding));
    let both = ParameterDeclaration { pattern: ParamPattern::Other, ty: TypeExpr::Tuple };
    assert_eq!(transform(&both), Err(ShapeError::Binding));
}

#[test]
fn error_messages() {
    assert_eq!(ShapeError::Binding.message(), "parameter must be bound by a plain identifier");
    assert_eq!(ShapeError::UnsupportedType.message(), "unsupported parameter type");
    assert_eq!(ShapeError::MissingReference.message(), "parameter type must be a reference");
}

#[test]
fn signature_with_integer_text_and_bytes() {
    let params = vec![
        ParameterDeclaration::new("a", TypeExpr::ident("i32")),
        ParameterDeclaration::new("b", str_type()),
        ParameterDeclaration::new("c", bytes_type()),
    ];
    let made = transform_signature(&params).unwrap();
    assert_eq!(
        made.guest,
        vec![word("a"), word("b_ptr"), word("b_len"), word("c_ptr"), word("c_len")]
    );
    assert_eq!(
        made.prolog,
        vec![
            DecodeStep::Passthrough,
            DecodeStep::Utf8String(words("b")),
            DecodeStep::MutableByteSpan(words("c")),
        ]
    );
    assert_eq!(
        made.arguments,
        vec![
            HostArgument::Binding("a".to_string()),
            HostArgument::Binding("b".to_string()),
            HostArgument::Binding("c".to_string()),
        ]
    );
}

#[test]
fn empty_signature_gives_an_empty_trampoline() {
    let made = transform_signature(&Vec::new()).unwrap();
    assert!(made.guest.is_empty());
    assert!(made.prolog.is_empty());
    assert!(made.arguments.is_empty());
}

#[test]
fn signature_reports_the_first_offending_parameter() {
    let params = vec![
        ParameterDeclaration::new("a", TypeExpr::ident("i64")),
        ParameterDeclaration::new("b", TypeExpr::Array),
        ParameterDeclaration { pattern: ParamPattern::Other, ty: TypeExpr::ident("i32") },
    ];
    assert_eq!(
        transform_signature(&params),
        Err(SignatureError { index: 1, error: ShapeError::UnsupportedType })
    );
}

#[test]
fn signature_reports_a_bad_binding_by_position() {
    let params = vec![
        ParameterDeclaration { pattern: ParamPattern::Other, ty: TypeExpr::ident("i32") },
        ParameterDeclaration::new("b", TypeExpr::Tuple),
    ];
    assert_eq!(
        transform_signature(&params),
        Err(SignatureError { index: 0, error: ShapeError::Binding })
    );
}

#[test]
fn signature_keeps_one_step_and_one_argument_per_parameter() {
    let params = vec![
        ParameterDeclaration::new(
            "bufs",
            TypeExpr::reference(true, TypeExpr::slice(TypeExpr::ident("IoSliceMut"))),
        ),
        ParameterDeclaration::new("who", TypeExpr::reference(false, TypeExpr::ident("Process"))),
        ParameterDeclaration::new("x", TypeExpr::ident("f64")),
    ];
    let made = transform_signature(&params).unwrap();
    assert_eq!(
        made.guest,
        vec![
            word("bufs_ptr"),
            word("bufs_len"),
            word("who"),
            GuestParam { name: "x".to_string(), ty: TypeExpr::ident("f64") },
        ]
    );
    assert_eq!(made.prolog.len(), 3);
    assert_eq!(
        made.arguments,
        vec![
            HostArgument::MutableSliceView("bufs".to_string()),
            HostArgument::Binding("who".to_string()),
            HostArgument::Binding("x".to_string()),
        ]
    );
}
