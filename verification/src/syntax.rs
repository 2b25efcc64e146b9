//! The syntactic shape of a host function's parameter: how it is bound and
//! what its declared type looks like, before any name is resolved.
use vstd::prelude::*;
use vstd::string::StringExecFns;

verus! {

/// One segment of a path, such as `io` in `std::io::IoSlice`.
#[derive(Debug, PartialEq, Eq)]
pub struct PathSegment {
    pub ident: String,
    /// Whether angle-bracketed or parenthesized arguments follow the name.
    pub has_arguments: bool,
}

/// What a [`PathSegment`] stands for in contracts.
pub struct SegmentModel {
    pub ident: Seq<char>,
    pub has_arguments: bool,
}

impl View for PathSegment {
    type V = SegmentModel;

    open spec fn view(&self) -> SegmentModel {
        SegmentModel { ident: self.ident@, has_arguments: self.has_arguments }
    }
}

/// A path that names a type, such as `i32` or `::std::io::IoSliceMut<'_>`.
#[derive(Debug, PartialEq, Eq)]
pub struct TypePath {
    /// Whether the path starts with `::`.
    pub leading_colon: bool,
    pub segments: Vec<PathSegment>,
}

/// What a [`TypePath`] stands for in contracts.
pub struct PathModel {
    pub leading_colon: bool,
    pub segments: Seq<SegmentModel>,
}

impl View for TypePath {
    type V = PathModel;

    open spec fn view(&self) -> PathModel {
        PathModel {
            leading_colon: self.leading_colon,
            segments: self.segments@.map_values(|s: PathSegment| s@),
        }
    }
}

/// A reference type: `&T` or `&mut T`.
#[derive(Debug, PartialEq, Eq)]
pub struct TypeReference {
    pub mutable: bool,
    pub elem: Box<TypeExpr>,
}

/// A declared type, reduced to the shapes that decide how a parameter crosses
/// the guest boundary.
#[derive(Debug, PartialEq, Eq)]
pub enum TypeExpr {
    /// A path, `i32` or `std::io::IoSlice<'_>`.
    Path(TypePath),
    /// A reference, `&T` or `&mut T`.
    Reference(TypeReference),
    /// A slice, `[T]`.
    Slice(Box<TypeExpr>),
    /// An array, `[T; N]`.
    Array,
    /// A tuple, `(A, B)`.
    Tuple,
    /// Any other type expression: a pointer, a function pointer, a trait
    /// object and so on.
    Other,
}

/// What a [`TypeExpr`] stands for in contracts.
pub enum TypeModel {
    Path(PathModel),
    Reference { mutable: bool, elem: Box<TypeModel> },
    Slice(Box<TypeModel>),
    Array,
    Tuple,
    Other,
}

/// The model of a type expression, shape by shape.
pub open spec fn type_model(ty: TypeExpr) -> TypeModel
    decreases ty,
{
    match ty {
        TypeExpr::Path(path) => TypeModel::Path(path@),
        TypeExpr::Reference(reference) => TypeModel::Reference {
            mutable: reference.mutable,
            elem: Box::new(type_model(*reference.elem)),
        },
        TypeExpr::Slice(elem) => TypeModel::Slice(Box::new(type_model(*elem))),
        TypeExpr::Array => TypeModel::Array,
        TypeExpr::Tuple => TypeModel::Tuple,
        TypeExpr::Other => TypeModel::Other,
    }
}

impl View for TypeExpr {
    type V = TypeModel;

    open spec fn view(&self) -> TypeModel {
        type_model(*self)
    }
}

/// How a parameter binds its value.
#[derive(Debug, PartialEq, Eq)]
pub enum ParamPattern {
    /// An identifier, possibly qualified: `x`, `mut x`, `ref x`.
    Ident { by_ref: bool, mutable: bool, name: String },
    /// Anything that is not a single identifier, such as `(a, b)` or `_`.
    Other,
}

/// What a [`ParamPattern`] stands for in contracts.
pub enum PatternModel {
    Ident { by_ref: bool, mutable: bool, name: Seq<char> },
    Other,
}

impl View for ParamPattern {
    type V = PatternModel;

    open spec fn view(&self) -> PatternModel {
        match self {
            ParamPattern::Ident { by_ref, mutable, name } => PatternModel::Ident {
                by_ref: *by_ref,
                mutable: *mutable,
                name: name@,
            },
            ParamPattern::Other => PatternModel::Other,
        }
    }
}

/// One parameter of a host function: `pattern: ty`.
#[derive(Debug, PartialEq, Eq)]
pub struct ParameterDeclaration {
    pub pattern: ParamPattern,
    pub ty: TypeExpr,
}

/// What a [`ParameterDeclaration`] stands for in contracts.
pub struct ParameterModel {
    pub pattern: PatternModel,
    pub ty: TypeModel,
}

impl View for ParameterDeclaration {
    type V = ParameterModel;

    open spec fn view(&self) -> ParameterModel {
        ParameterModel { pattern: self.pattern@, ty: self.ty@ }
    }
}

/// The identifier that a path consists of, if it is nothing but one: no
/// leading `::`, a single segment, no arguments on it.
pub open spec fn bare_ident(path: PathModel) -> Option<Seq<char>> {
    if !path.leading_colon && path.segments.len() == 1 && !path.segments[0].has_arguments {
        Some(path.segments[0].ident)
    } else {
        None
    }
}

/// The name of a path's last segment, if the path has any segment.
pub open spec fn last_ident(path: PathModel) -> Option<Seq<char>> {
    if path.segments.len() > 0 {
        Some(path.segments.last().ident)
    } else {
        None
    }
}

/// Whether `name` spells exactly `word`.
pub fn name_is(name: &String, word: &str) -> (same: bool)
    ensures
        same == (name@ == word@),
{
    let spelled = String::from_str(word);
    *name == spelled
}

impl TypePath {
    /// The identifier that this path consists of, if it is nothing but one.
    pub fn get_ident(&self) -> (ident: Option<&String>)
        ensures
            ident.is_some() == bare_ident(self@).is_some(),
            ident matches Some(name) ==> Some(name@) == bare_ident(self@),
    {
        if !self.leading_colon && self.segments.len() == 1 && !self.segments[0].has_arguments {
            Some(&self.segments[0].ident)
        } else {
            None
        }
    }

    /// The name of the last segment, if there is any segment.
    pub fn last_ident(&self) -> (ident: Option<&String>)
        ensures
            ident.is_some() == last_ident(self@).is_some(),
            ident matches Some(name) ==> Some(name@) == last_ident(self@),
    {
        let count: usize = self.segments.len();
        if count > 0 {
            Some(&self.segments[count - 1].ident)
        } else {
            None
        }
    }
}

/// The type that is the single identifier `name`.
pub open spec fn ident_type(name: Seq<char>) -> TypeModel {
    TypeModel::Path(
        PathModel {
            leading_colon: false,
            segments: seq![SegmentModel { ident: name, has_arguments: false }],
        },
    )
}

/// The type `&elem`.
pub open spec fn shared_reference(elem: TypeModel) -> TypeModel {
    TypeModel::Reference { mutable: false, elem: Box::new(elem) }
}

/// The type `&mut elem`.
pub open spec fn mutable_reference(elem: TypeModel) -> TypeModel {
    TypeModel::Reference { mutable: true, elem: Box::new(elem) }
}

/// The type `[elem]`.
pub open spec fn slice_of(elem: TypeModel) -> TypeModel {
    TypeModel::Slice(Box::new(elem))
}

/// A parameter bound by the plain identifier `name`.
pub open spec fn plain_parameter(name: Seq<char>, ty: TypeModel) -> ParameterModel {
    ParameterModel { pattern: PatternModel::Ident { by_ref: false, mutable: false, name }, ty }
}

impl Clone for PathSegment {
    fn clone(&self) -> (copy: Self)
        ensures
            copy@ == self@,
    {
        PathSegment { ident: self.ident.clone(), has_arguments: self.has_arguments }
    }
}

impl Clone for TypePath {
    fn clone(&self) -> (copy: Self)
        ensures
            copy@ == self@,
    {
        let mut segments: Vec<PathSegment> = Vec::new();
        let mut index: usize = 0;
        while index < self.segments.len()
            invariant
                index <= self.segments.len(),
                segments.len() == index,
                forall|i: int| 0 <= i < index ==> segments[i]@ == self.segments[i]@,
            decreases self.segments.len() - index,
        {
            segments.push(self.segments[index].clone());
            index += 1;
        }
        let copy = TypePath { leading_colon: self.leading_colon, segments };
        assert(copy@.segments =~= self@.segments);
        copy
    }
}

impl Clone for TypeExpr {
    fn clone(&self) -> (copy: Self)
        ensures
            copy@ == self@,
        decreases self,
    {
        match self {
            TypeExpr::Path(path) => TypeExpr::Path(path.clone()),
            TypeExpr::Reference(reference) => TypeExpr::Reference(
                TypeReference {
                    mutable: reference.mutable,
                    elem: Box::new((*reference.elem).clone()),
                },
            ),
            TypeExpr::Slice(elem) => TypeExpr::Slice(Box::new((**elem).clone())),
            TypeExpr::Array => TypeExpr::Array,
            TypeExpr::Tuple => TypeExpr::Tuple,
            TypeExpr::Other => TypeExpr::Other,
        }
    }
}

impl TypeExpr {
    /// The type that is the single identifier `name`, such as `i32`.
    pub fn ident(name: &str) -> (ty: TypeExpr)
        ensures
            ty@ == ident_type(name@),
    {
        let mut segments: Vec<PathSegment> = Vec::new();
        segments.push(PathSegment { ident: String::from_str(name), has_arguments: false });
        let path = TypePath { leading_colon: false, segments };
        assert(path@.segments =~= seq![SegmentModel { ident: name@, has_arguments: false }]);
        TypeExpr::Path(path)
    }

    /// The type whose path has the segments `names`, none with arguments and
    /// with no leading `::`, such as `std::io::IoSlice`.
    pub fn path(names: &[&str]) -> (ty: TypeExpr)
        ensures
            ty@ == TypeModel::Path(
                PathModel {
                    leading_colon: false,
                    segments: Seq::new(
                        names@.len(),
                        |i: int| SegmentModel { ident: names@[i]@, has_arguments: false },
                    ),
                },
            ),
    {
        let mut segments: Vec<PathSegment> = Vec::new();
        let mut index: usize = 0;
        while index < names.len()
            invariant
                index <= names.len(),
                segments.len() == index,
                forall|i: int|
                    0 <= i < index ==> segments[i]@ == (SegmentModel {
                        ident: names@[i]@,
                        has_arguments: false,
                    }),
            decreases names.len() - index,
        {
            segments.push(
                PathSegment { ident: String::from_str(names[index]), has_arguments: false },
            );
            index += 1;
        }
        let path = TypePath { leading_colon: false, segments };
        assert(path@.segments =~= Seq::new(
            names@.len(),
            |i: int| SegmentModel { ident: names@[i]@, has_arguments: false },
        ));
        TypeExpr::Path(path)
    }

    /// The type `&elem`, or `&mut elem` if `mutable`.
    pub fn reference(mutable: bool, elem: TypeExpr) -> (ty: TypeExpr)
        ensures
            ty@ == (TypeModel::Reference { mutable, elem: Box::new(elem@) }),
    {
        TypeExpr::Reference(TypeReference { mutable, elem: Box::new(elem) })
    }

    /// The type `[elem]`.
    pub fn slice(elem: TypeExpr) -> (ty: TypeExpr)
        ensures
            ty@ == slice_of(elem@),
    {
        TypeExpr::Slice(Box::new(elem))
    }
}

impl ParameterDeclaration {
    /// The parameter `name: ty`, bound by a plain identifier.
    pub fn new(name: &str, ty: TypeExpr) -> (param: ParameterDeclaration)
        ensures
            param@ == plain_parameter(name@, ty@),
    {
        ParameterDeclaration {
            pattern: ParamPattern::Ident {
                by_ref: false,
                mutable: false,
                name: String::from_str(name),
            },
            ty,
        }
    }
}

} // verus!
