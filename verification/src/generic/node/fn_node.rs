use vstd::prelude::*;

use std::marker::PhantomData;

use super::node_trait::Node;

verus! {

/// A node made from an async function of the input and the pipeline storage.
///
/// The node's run awaits the function on its input and the storage.
#[derive(Debug)]
pub struct FnNode<Input, Output, Error, FnType> {
    _input_type: PhantomData<Input>,
    _output_type: PhantomData<Output>,
    _error_type: PhantomData<Error>,
    f: FnType,
}

impl<Input, Output, Error, FnType> FnNode<Input, Output, Error, FnType> {
    /// The wrapped function.
    pub closed spec fn function_view(&self) -> FnType {
        self.f
    }

    /// The node made from `f`.
    pub closed spec fn made_from(f: FnType) -> Self {
        FnNode { _input_type: PhantomData, _output_type: PhantomData, _error_type: PhantomData, f }
    }

    /// Creates a node from the async function `f`.
    pub fn new(f: FnType) -> (r: Self)
        ensures
            r == Self::made_from(f),
            r.function_view() == f,
    {
        FnNode { _input_type: PhantomData, _output_type: PhantomData, _error_type: PhantomData, f }
    }

    /// The wrapped function.
    pub fn function(&self) -> (r: &FnType)
        ensures
            *r == self.function_view(),
    {
        &self.f
    }
}

impl<Input, Output, Error, FnType: Clone> Clone for FnNode<Input, Output, Error, FnType> {
    /// The clone holds a clone of the function.
    fn clone(&self) -> (r: Self)
        ensures
            vstd::pervasive::cloned::<FnType>(self.function_view(), r.function_view()),
    {
        FnNode {
            _input_type: PhantomData,
            _output_type: PhantomData,
            _error_type: PhantomData,
            f: self.f.clone(),
        }
    }
}

impl<Input, Output, Error, FnType> Node for FnNode<Input, Output, Error, FnType> {
    type Input = Input;
    type Output = Output;
    type Error = Error;
}

impl<Input, Output, Error, FnType> From<FnType> for FnNode<Input, Output, Error, FnType> {
    /// The node made from the function, as `new` makes it.
    fn from(value: FnType) -> (r: Self)
        ensures
            r.function_view() == value,
    {
        Self::new(value)
    }
}

impl<Input, Output, Error, FnType> vstd::std_specs::convert::FromSpecImpl<FnType> for FnNode<Input, Output, Error, FnType> {
    open spec fn obeys_from_spec() -> bool {
        true
    }

    open spec fn from_spec(value: FnType) -> Self {
        Self::made_from(value)
    }
}

} // verus!
