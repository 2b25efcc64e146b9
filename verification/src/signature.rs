//! The whole trampoline: what is generated for a host function's parameter
//! list, parameter by parameter and in their order.
use vstd::prelude::*;
use crate::generate::{
    transform, transformed, AdapterModel, ArgumentModel, DecodeStep, GuestParam, GuestParamModel,
    HostArgument, ShapeError, StepModel,
};
use crate::syntax::{ParameterDeclaration, ParameterModel};

verus! {

/// The three parts of a trampoline.
#[derive(Debug, PartialEq, Eq)]
pub struct Trampoline {
    /// The guest-callable parameter list.
    pub guest: Vec<GuestParam>,
    /// One decoding step for each host parameter, to be run in this order
    /// before the host function is called.
    pub prolog: Vec<DecodeStep>,
    /// One argument for each host parameter.
    pub arguments: Vec<HostArgument>,
}

/// What a [`Trampoline`] stands for in contracts.
pub struct TrampolineModel {
    pub guest: Seq<GuestParamModel>,
    pub prolog: Seq<StepModel>,
    pub arguments: Seq<ArgumentModel>,
}

impl View for Trampoline {
    type V = TrampolineModel;

    open spec fn view(&self) -> TrampolineModel {
        TrampolineModel {
            guest: self.guest@.map_values(|p: GuestParam| p@),
            prolog: self.prolog@.map_values(|s: DecodeStep| s@),
            arguments: self.arguments@.map_values(|a: HostArgument| a@),
        }
    }
}

/// A failed generation, with the parameter that caused it.
#[derive(Clone, Copy, Debug, PartialEq, Eq, Structural)]
pub struct SignatureError {
    /// The position of the offending parameter in the parameter list.
    pub index: usize,
    /// What is wrong with it.
    pub error: ShapeError,
}

/// The models of a parameter list.
pub open spec fn parameter_models(params: Seq<ParameterDeclaration>) -> Seq<ParameterModel> {
    params.map_values(|p: ParameterDeclaration| p@)
}

/// What the first `count` parameters contribute, joined in their order. It
/// is meant for lists in which each of them can be transformed.
pub open spec fn assembled(params: Seq<ParameterModel>, count: nat) -> TrampolineModel
    decreases count,
{
    if count == 0 {
        TrampolineModel { guest: seq![], prolog: seq![], arguments: seq![] }
    } else {
        let before = assembled(params, (count - 1) as nat);
        let made = transformed(params[count - 1])->Ok_0;
        TrampolineModel {
            guest: before.guest + made.guest,
            prolog: before.prolog.push(made.prolog),
            arguments: before.arguments.push(made.argument),
        }
    }
}

/// Whether each of the first `count` parameters can be transformed.
pub open spec fn all_transform(params: Seq<ParameterModel>, count: int) -> bool {
    forall|i: int| 0 <= i < count ==> (#[trigger] transformed(params[i])) is Ok
}

/// Whether `error` names the first parameter that cannot be transformed.
pub open spec fn is_first_failure(params: Seq<ParameterModel>, error: SignatureError) -> bool {
    &&& error.index < params.len()
    &&& transformed(params[error.index as int]) == Err::<AdapterModel, ShapeError>(error.error)
    &&& all_transform(params, error.index as int)
}

/// Generates the trampoline of a host function from its parameters, taken
/// left to right. Nothing is generated unless every parameter can be
/// transformed: the first one that cannot is reported, by its position.
pub fn transform_signature(params: &Vec<ParameterDeclaration>) -> (trampoline: Result<
    Trampoline,
    SignatureError,
>)
    ensures
        match trampoline {
            Ok(made) => {
                &&& all_transform(parameter_models(params@), params@.len() as int)
                &&& made@ == assembled(parameter_models(params@), params@.len())
            },
            Err(error) => is_first_failure(parameter_models(params@), error),
        },
{
    let mut made = Trampoline { guest: Vec::new(), prolog: Vec::new(), arguments: Vec::new() };
    let mut index: usize = 0;
    assert(made@.guest =~= Seq::<GuestParamModel>::empty());
    assert(made@.prolog =~= Seq::<StepModel>::empty());
    assert(made@.arguments =~= Seq::<ArgumentModel>::empty());
    while index < params.len()
        invariant
            index <= params.len(),
            all_transform(parameter_models(params@), index as int),
            made@ == assembled(parameter_models(params@), index as nat),
        decreases params.len() - index,
    {
        match transform(&params[index]) {
            Ok(adapter) => {
                let ghost before = made@;
                let ghost part = adapter@;
                let mut adapter = adapter;
                made.guest.append(&mut adapter.guest);
                made.prolog.push(adapter.prolog);
                made.arguments.push(adapter.argument);
                assert(parameter_models(params@)[index as int] == params[index as int]@);
                assert(made@.guest =~= before.guest + part.guest);
                assert(made@.prolog =~= before.prolog.push(part.prolog));
                assert(made@.arguments =~= before.arguments.push(part.argument));
            },
            Err(error) => {
                assert(parameter_models(params@)[index as int] == params[index as int]@);
                return Err(SignatureError { index, error });
            },
        }
        index += 1;
    }
    Ok(made)
}

} // verus!
