//! Generation: the guest parameters, the decoding step and the host
//! argument that stand for one host parameter.
use vstd::prelude::*;
use vstd::string::StringExecFns;
use crate::kind::{classify, is_primitive_name, kind_of, TransformationKind};
use crate::syntax::{
    ident_type, plain_parameter, shared_reference, ParamPattern, ParameterDeclaration,
    ParameterModel, PatternModel, TypeExpr, TypeModel,
};

verus! {

/// One parameter of the guest-callable signature.
#[derive(Debug, PartialEq, Eq)]
pub struct GuestParam {
    pub name: String,
    pub ty: TypeExpr,
}

/// What a [`GuestParam`] stands for in contracts.
pub struct GuestParamModel {
    pub name: Seq<char>,
    pub ty: TypeModel,
}

impl View for GuestParam {
    type V = GuestParamModel;

    open spec fn view(&self) -> GuestParamModel {
        GuestParamModel { name: self.name@, ty: self.ty@ }
    }
}

/// The names that a step which reads guest memory works with.
#[derive(Debug, PartialEq, Eq)]
pub struct SpanWords {
    /// The name that the decoded value is bound to.
    pub binding: String,
    /// The guest parameter that holds the pointer word.
    pub ptr: String,
    /// The guest parameter that holds the length word.
    pub len: String,
}

/// What a [`SpanWords`] stands for in contracts.
pub struct SpanWordsModel {
    pub binding: Seq<char>,
    pub ptr: Seq<char>,
    pub len: Seq<char>,
}

impl View for SpanWords {
    type V = SpanWordsModel;

    open spec fn view(&self) -> SpanWordsModel {
        SpanWordsModel { binding: self.binding@, ptr: self.ptr@, len: self.len@ }
    }
}

/// What runs for one parameter before the host function is called. A step
/// that fails ends the call with a trap.
#[derive(Debug, PartialEq, Eq)]
pub enum DecodeStep {
    /// Nothing to decode: the guest value is the host value.
    Passthrough,
    /// Decode an owned value of type `target` from the handle in `binding`,
    /// and bind it to the same name.
    OwnedHandle { binding: String, target: TypeExpr },
    /// Decode a borrowed value of type `target` from the handle in
    /// `binding`, and bind it to the same name.
    BorrowedHandle { binding: String, target: TypeExpr },
    /// Check the byte range against guest memory and validate it as UTF-8:
    /// [`decode_str`](crate::decode::decode_str).
    Utf8String(SpanWords),
    /// Check the byte range against guest memory and take an exclusive view
    /// of it: [`decode_bytes_mut`](crate::decode::decode_bytes_mut).
    MutableByteSpan(SpanWords),
    /// Check the descriptor table and each buffer it addresses with
    /// [`decode_vectored`](crate::decode::decode_vectored), and collect a
    /// read-only view of each.
    ReadonlyVectoredSpan(SpanWords),
    /// Check the descriptor table and each buffer it addresses with
    /// [`decode_vectored`](crate::decode::decode_vectored), and collect an
    /// exclusive view of each.
    MutableVectoredSpan(SpanWords),
}

/// What a [`DecodeStep`] stands for in contracts.
pub enum StepModel {
    Passthrough,
    OwnedHandle { binding: Seq<char>, target: TypeModel },
    BorrowedHandle { binding: Seq<char>, target: TypeModel },
    Utf8String(SpanWordsModel),
    MutableByteSpan(SpanWordsModel),
    ReadonlyVectoredSpan(SpanWordsModel),
    MutableVectoredSpan(SpanWordsModel),
}

impl View for DecodeStep {
    type V = StepModel;

    open spec fn view(&self) -> StepModel {
        match self {
            DecodeStep::Passthrough => StepModel::Passthrough,
            DecodeStep::OwnedHandle { binding, target } => StepModel::OwnedHandle {
                binding: binding@,
                target: target@,
            },
            DecodeStep::BorrowedHandle { binding, target } => StepModel::BorrowedHandle {
                binding: binding@,
                target: target@,
            },
            DecodeStep::Utf8String(words) => StepModel::Utf8String(words@),
            DecodeStep::MutableByteSpan(words) => StepModel::MutableByteSpan(words@),
            DecodeStep::ReadonlyVectoredSpan(words) => StepModel::ReadonlyVectoredSpan(words@),
            DecodeStep::MutableVectoredSpan(words) => StepModel::MutableVectoredSpan(words@),
        }
    }
}

/// What is passed to the host function in the parameter's place.
#[derive(Debug, PartialEq, Eq)]
pub enum HostArgument {
    /// The value bound to the name.
    Binding(String),
    /// The collection bound to the name, viewed as one read-only sequence.
    SliceView(String),
    /// The collection bound to the name, viewed as one writable sequence.
    MutableSliceView(String),
}

/// What a [`HostArgument`] stands for in contracts.
pub enum ArgumentModel {
    Binding(Seq<char>),
    SliceView(Seq<char>),
    MutableSliceView(Seq<char>),
}

impl View for HostArgument {
    type V = ArgumentModel;

    open spec fn view(&self) -> ArgumentModel {
        match self {
            HostArgument::Binding(name) => ArgumentModel::Binding(name@),
            HostArgument::SliceView(name) => ArgumentModel::SliceView(name@),
            HostArgument::MutableSliceView(name) => ArgumentModel::MutableSliceView(name@),
        }
    }
}

/// All that is generated for one host parameter.
#[derive(Debug, PartialEq, Eq)]
pub struct ParameterAdapter {
    /// The guest parameters that replace it, in order.
    pub guest: Vec<GuestParam>,
    /// The step that rebuilds it from them.
    pub prolog: DecodeStep,
    /// What the host function receives.
    pub argument: HostArgument,
}

/// What a [`ParameterAdapter`] stands for in contracts.
pub struct AdapterModel {
    pub guest: Seq<GuestParamModel>,
    pub prolog: StepModel,
    pub argument: ArgumentModel,
}

impl View for ParameterAdapter {
    type V = AdapterModel;

    open spec fn view(&self) -> AdapterModel {
        AdapterModel {
            guest: self.guest@.map_values(|p: GuestParam| p@),
            prolog: self.prolog@,
            argument: self.argument@,
        }
    }
}

/// Why nothing can be generated for a parameter.
#[derive(Clone, Copy, Debug, PartialEq, Eq, Structural)]
pub enum ShapeError {
    /// The parameter is not bound by a plain identifier: it is a pattern, or
    /// the identifier carries `ref` or `mut`.
    Binding,
    /// The declared type has a shape for which there is no transformation.
    UnsupportedType,
    /// The kind asks for a reference type and the declared type is none.
    MissingReference,
}

impl ShapeError {
    /// What a report of this error says.
    pub open spec fn spec_message(self) -> Seq<char> {
        match self {
            ShapeError::Binding => "parameter must be bound by a plain identifier"@,
            ShapeError::UnsupportedType => "unsupported parameter type"@,
            ShapeError::MissingReference => "parameter type must be a reference"@,
        }
    }

    /// A short sentence that says what is wrong with the parameter.
    pub fn message(&self) -> (text: &'static str)
        ensures
            text@ == self.spec_message(),
    {
        match self {
            ShapeError::Binding => "parameter must be bound by a plain identifier",
            ShapeError::UnsupportedType => "unsupported parameter type",
            ShapeError::MissingReference => "parameter type must be a reference",
        }
    }
}

/// A guest parameter that is one 32-bit integer word.
pub open spec fn word(name: Seq<char>) -> GuestParamModel {
    GuestParamModel { name, ty: ident_type("i32"@) }
}

/// The name of the guest parameter that carries the pointer of `name`.
pub open spec fn pointer_name(name: Seq<char>) -> Seq<char> {
    name + "_ptr"@
}

/// The name of the guest parameter that carries the length of `name`.
pub open spec fn length_name(name: Seq<char>) -> Seq<char> {
    name + "_len"@
}

/// The pointer word and the length word that stand for `name`.
pub open spec fn word_pair(name: Seq<char>) -> Seq<GuestParamModel> {
    seq![word(pointer_name(name)), word(length_name(name))]
}

/// The names that a memory-reading step for `name` works with.
pub open spec fn span_words(name: Seq<char>) -> SpanWordsModel {
    SpanWordsModel { binding: name, ptr: pointer_name(name), len: length_name(name) }
}

/// What is generated for the parameter `name: ty` when it is carried as
/// `kind`.
pub open spec fn generated(name: Seq<char>, ty: TypeModel, kind: TransformationKind) -> Result<
    AdapterModel,
    ShapeError,
> {
    match kind {
        TransformationKind::Direct => Ok(
            AdapterModel {
                guest: seq![GuestParamModel { name, ty }],
                prolog: StepModel::Passthrough,
                argument: ArgumentModel::Binding(name),
            },
        ),
        TransformationKind::OpaqueHandle => Ok(
            AdapterModel {
                guest: seq![word(name)],
                prolog: StepModel::OwnedHandle { binding: name, target: ty },
                argument: ArgumentModel::Binding(name),
            },
        ),
        TransformationKind::BorrowedHandle => match ty {
            TypeModel::Reference { mutable, elem } => Ok(
                AdapterModel {
                    guest: seq![word(name)],
                    prolog: StepModel::BorrowedHandle { binding: name, target: *elem },
                    argument: ArgumentModel::Binding(name),
                },
            ),
            _ => Err(ShapeError::MissingReference),
        },
        TransformationKind::Utf8String => Ok(
            AdapterModel {
                guest: word_pair(name),
                prolog: StepModel::Utf8String(span_words(name)),
                argument: ArgumentModel::Binding(name),
            },
        ),
        TransformationKind::MutableByteSpan => Ok(
            AdapterModel {
                guest: word_pair(name),
                prolog: StepModel::MutableByteSpan(span_words(name)),
                argument: ArgumentModel::Binding(name),
            },
        ),
        TransformationKind::ReadonlyVectoredSpan => Ok(
            AdapterModel {
                guest: word_pair(name),
                prolog: StepModel::ReadonlyVectoredSpan(span_words(name)),
                argument: ArgumentModel::SliceView(name),
            },
        ),
        TransformationKind::MutableVectoredSpan => Ok(
            AdapterModel {
                guest: word_pair(name),
                prolog: StepModel::MutableVectoredSpan(span_words(name)),
                argument: ArgumentModel::MutableSliceView(name),
            },
        ),
        TransformationKind::Unsupported => Err(ShapeError::UnsupportedType),
    }
}

/// What is generated for a whole parameter declaration: the binding is
/// checked first, then the type decides.
pub open spec fn transformed(param: ParameterModel) -> Result<AdapterModel, ShapeError> {
    match param.pattern {
        PatternModel::Ident { by_ref, mutable, name } => if by_ref || mutable {
            Err(ShapeError::Binding)
        } else {
            generated(name, param.ty, kind_of(param.ty))
        },
        PatternModel::Other => Err(ShapeError::Binding),
    }
}

/// The guest parameter `name: i32`.
fn word_param(name: String) -> (param: GuestParam)
    ensures
        param@ == word(name@),
{
    GuestParam { name, ty: TypeExpr::ident("i32") }
}

/// The single guest word that carries a handle.
fn handle_word(name: &String) -> (guest: Vec<GuestParam>)
    ensures
        guest@.map_values(|p: GuestParam| p@) == seq![word(name@)],
{
    let mut guest: Vec<GuestParam> = Vec::new();
    guest.push(word_param(name.clone()));
    assert(guest@.map_values(|p: GuestParam| p@) =~= seq![word(name@)]);
    guest
}

/// The names of a memory-reading step for `name`.
fn words_for(name: &String) -> (words: SpanWords)
    ensures
        words@ == span_words(name@),
{
    SpanWords {
        binding: name.clone(),
        ptr: name.clone().concat("_ptr"),
        len: name.clone().concat("_len"),
    }
}

/// The pointer and length words that carry a span.
fn span_pair(name: &String) -> (guest: Vec<GuestParam>)
    ensures
        guest@.map_values(|p: GuestParam| p@) == word_pair(name@),
{
    let mut guest: Vec<GuestParam> = Vec::new();
    guest.push(word_param(name.clone().concat("_ptr")));
    guest.push(word_param(name.clone().concat("_len")));
    assert(guest@.map_values(|p: GuestParam| p@) =~= word_pair(name@));
    guest
}

/// Generates, for the parameter `name: ty` carried as `kind`, the guest
/// parameters that replace it, the step that decodes it and the argument
/// that the host function receives.
///
/// Fails for the kind `Unsupported`, and for `BorrowedHandle` on a type that
/// is no reference; for nothing else.
pub fn generate(name: &String, ty: &TypeExpr, kind: TransformationKind) -> (adapter: Result<
    ParameterAdapter,
    ShapeError,
>)
    ensures
        match adapter {
            Ok(made) => generated(name@, ty@, kind) == Ok::<AdapterModel, ShapeError>(made@),
            Err(error) => generated(name@, ty@, kind) == Err::<AdapterModel, ShapeError>(error),
        },
{
    match kind {
        TransformationKind::Direct => {
            let mut guest: Vec<GuestParam> = Vec::new();
            guest.push(GuestParam { name: name.clone(), ty: ty.clone() });
            let made = ParameterAdapter {
                guest,
                prolog: DecodeStep::Passthrough,
                argument: HostArgument::Binding(name.clone()),
            };
            assert(made@.guest =~= seq![GuestParamModel { name: name@, ty: ty@ }]);
            Ok(made)
        },
        TransformationKind::OpaqueHandle => Ok(
            ParameterAdapter {
                guest: handle_word(name),
                prolog: DecodeStep::OwnedHandle { binding: name.clone(), target: ty.clone() },
                argument: HostArgument::Binding(name.clone()),
            },
        ),
        TransformationKind::BorrowedHandle => match ty {
            TypeExpr::Reference(reference) => Ok(
                ParameterAdapter {
                    guest: handle_word(name),
                    prolog: DecodeStep::BorrowedHandle {
                        binding: name.clone(),
                        target: (*reference.elem).clone(),
                    },
                    argument: HostArgument::Binding(name.clone()),
                },
            ),
            _ => Err(ShapeError::MissingReference),
        },
        TransformationKind::Utf8String => Ok(
            ParameterAdapter {
                guest: span_pair(name),
                prolog: DecodeStep::Utf8String(words_for(name)),
                argument: HostArgument::Binding(name.clone()),
            },
        ),
        TransformationKind::MutableByteSpan => Ok(
            ParameterAdapter {
                guest: span_pair(name),
                prolog: DecodeStep::MutableByteSpan(words_for(name)),
                argument: HostArgument::Binding(name.clone()),
            },
        ),
        TransformationKind::ReadonlyVectoredSpan => Ok(
            ParameterAdapter {
                guest: span_pair(name),
                prolog: DecodeStep::ReadonlyVectoredSpan(words_for(name)),
                argument: HostArgument::SliceView(name.clone()),
            },
        ),
        TransformationKind::MutableVectoredSpan => Ok(
            ParameterAdapter {
                guest: span_pair(name),
                prolog: DecodeStep::MutableVectoredSpan(words_for(name)),
                argument: HostArgument::MutableSliceView(name.clone()),
            },
        ),
        TransformationKind::Unsupported => Err(ShapeError::UnsupportedType),
    }
}

/// Takes one parameter of a host function and generates what makes it
/// callable from the guest: its guest parameters, its decoding step and the
/// argument for the host function.
///
/// Primitive machine types are forwarded. `&str` and `&mut [u8]` become a
/// pointer and a length; so do `&[IoSlice]` and `&mut [IoSliceMut]`, whose
/// pointer addresses a table of descriptors. A custom type, by value or by
/// reference, becomes one handle. Every other declaration is an error.
pub fn transform(param: &ParameterDeclaration) -> (adapter: Result<ParameterAdapter, ShapeError>)
    ensures
        match adapter {
            Ok(made) => transformed(param@) == Ok::<AdapterModel, ShapeError>(made@),
            Err(error) => transformed(param@) == Err::<AdapterModel, ShapeError>(error),
        },
{
    match &param.pattern {
        ParamPattern::Ident { by_ref, mutable, name } => {
            if *by_ref || *mutable {
                Err(ShapeError::Binding)
            } else {
                generate(name, &param.ty, classify(&param.ty))
            }
        },
        ParamPattern::Other => Err(ShapeError::Binding),
    }
}

/// A primitive parameter crosses the boundary unchanged: its one guest
/// parameter is the declaration itself, nothing is decoded, and the host
/// function receives the guest value.
pub proof fn primitive_is_forwarded(name: Seq<char>, primitive: Seq<char>)
    requires
        is_primitive_name(primitive),
    ensures
        transformed(plain_parameter(name, ident_type(primitive))) == Ok::<AdapterModel, ShapeError>(
            AdapterModel {
                guest: seq![GuestParamModel { name, ty: ident_type(primitive) }],
                prolog: StepModel::Passthrough,
                argument: ArgumentModel::Binding(name),
            },
        ),
{
}

/// A custom type, by value or behind a shared reference, is carried by one
/// 32-bit integer under the parameter's own name.
pub proof fn handle_is_one_word(name: Seq<char>, custom: Seq<char>)
    ensures
        !is_primitive_name(custom) ==> {
            let made = transformed(plain_parameter(name, ident_type(custom)));
            &&& made is Ok
            &&& made->Ok_0.guest == seq![word(name)]
            &&& made->Ok_0.prolog == StepModel::OwnedHandle {
                binding: name,
                target: ident_type(custom),
            }
        },
        custom != "str"@ ==> {
            let made = transformed(plain_parameter(name, shared_reference(ident_type(custom))));
            &&& made is Ok
            &&& made->Ok_0.guest == seq![word(name)]
            &&& made->Ok_0.prolog == StepModel::BorrowedHandle {
                binding: name,
                target: ident_type(custom),
            }
        },
{
}

/// Each of the four span kinds is carried by two 32-bit integers: first the
/// pointer word, then the length word.
pub proof fn span_is_a_word_pair(name: Seq<char>, ty: TypeModel)
    requires
        kind_of(ty) == TransformationKind::Utf8String || kind_of(ty)
            == TransformationKind::MutableByteSpan || kind_of(ty)
            == TransformationKind::ReadonlyVectoredSpan || kind_of(ty)
            == TransformationKind::MutableVectoredSpan,
    ensures
        transformed(plain_parameter(name, ty)) is Ok,
        transformed(plain_parameter(name, ty))->Ok_0.guest == seq![
            word(name + "_ptr"@),
            word(name + "_len"@),
        ],
{
}

/// How many guest parameters stand for one host parameter of `kind`.
pub open spec fn fragment_length(kind: TransformationKind) -> nat {
    match kind {
        TransformationKind::Direct
        | TransformationKind::OpaqueHandle
        | TransformationKind::BorrowedHandle => 1,
        _ => 2,
    }
}

/// Whatever is generated has one guest parameter for a direct parameter or a
/// handle and two for a span, never none; and but for a direct parameter
/// each of them is a 32-bit integer.
pub proof fn fragment_length_by_kind(name: Seq<char>, ty: TypeModel, kind: TransformationKind)
    requires
        generated(name, ty, kind) is Ok,
    ensures
        generated(name, ty, kind)->Ok_0.guest.len() == fragment_length(kind),
        kind != TransformationKind::Direct ==> forall|i: int|
            0 <= i < fragment_length(kind) ==> (#[trigger] generated(
                name,
                ty,
                kind,
            )->Ok_0.guest[i]).ty == ident_type("i32"@),
{
}

/// Where the kind comes from the type itself, every guest parameter is of a
/// primitive machine type.
pub proof fn fragment_is_primitive(name: Seq<char>, ty: TypeModel)
    requires
        kind_of(ty) != TransformationKind::Unsupported,
    ensures
        generated(name, ty, kind_of(ty)) is Ok,
        forall|i: int|
            0 <= i < fragment_length(kind_of(ty)) ==> kind_of(
                (#[trigger] generated(name, ty, kind_of(ty))->Ok_0.guest[i]).ty,
            ) == TransformationKind::Direct,
{
}

/// Nothing is ever generated for an unsupported shape, such as an array, a
/// tuple or a reference to a reference: the type is reported instead.
pub proof fn unsupported_is_rejected(name: Seq<char>, ty: TypeModel)
    requires
        kind_of(ty) == TransformationKind::Unsupported,
    ensures
        generated(name, ty, kind_of(ty)) == Err::<AdapterModel, ShapeError>(
            ShapeError::UnsupportedType,
        ),
        transformed(plain_parameter(name, ty)) == Err::<AdapterModel, ShapeError>(
            ShapeError::UnsupportedType,
        ),
{
}

/// Where the kind comes from the type itself, generation fails for the
/// unsupported kind and for nothing else: a type classified as a borrowed
/// handle is always a reference.
pub proof fn classified_kinds_generate(name: Seq<char>, ty: TypeModel)
    ensures
        generated(name, ty, kind_of(ty)) is Err <==> kind_of(ty)
            == TransformationKind::Unsupported,
{
}

} // verus!
