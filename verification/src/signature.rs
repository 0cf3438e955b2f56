//! What is read from a session's signature: the names of its inputs and outputs, and
//! the dimensions of its first input.
//!
//! The fields of these types are private to this module and only the readers below
//! fill them: a value of each was read from a session, never written by hand.
use vstd::prelude::*;
use ort::session::Session;

verus! {

/// The names of a session's inputs, in order.
pub struct InputNames {
    names: Vec<String>,
}

impl InputNames {
    /// The names.
    pub closed spec fn names_view(&self) -> Seq<String> {
        self.names@
    }

    /// The names.
    pub fn names(&self) -> (r: &Vec<String>)
        ensures
            r@ == self.names_view(),
    {
        &self.names
    }
}

/// The names of a session's outputs, in order.
pub struct OutputNames {
    names: Vec<String>,
}

impl OutputNames {
    /// The names.
    pub closed spec fn names_view(&self) -> Seq<String> {
        self.names@
    }

    /// The names.
    pub fn names(&self) -> (r: &Vec<String>)
        ensures
            r@ == self.names_view(),
    {
        &self.names
    }
}

/// The dimensions of a session's first input, where that input is a tensor.
pub struct InputShape {
    dims: Option<Vec<i64>>,
}

impl InputShape {
    /// The dimensions, or none where the first input is not a tensor.
    pub closed spec fn dims_view(&self) -> Option<Vec<i64>> {
        self.dims
    }

    /// The dimensions, or none where the first input is not a tensor.
    pub fn dims(&self) -> (r: &Option<Vec<i64>>)
        ensures
            *r == self.dims_view(),
    {
        &self.dims
    }
}

/// Reads the names of the session's inputs (`Session::inputs`, `Outlet::name`). A
/// session is opaque here, so nothing is claimed of them.
#[verifier::external_body]
pub(crate) fn session_input_names(session: &Session) -> (r: InputNames) {
    InputNames { names: session.inputs().iter().map(ort::value::Outlet::name).map(str::to_owned).collect() }
}

/// Reads the names of the session's outputs (`Session::outputs`, `Outlet::name`). A
/// session is opaque here, so nothing is claimed of them.
#[verifier::external_body]
pub(crate) fn session_output_names(session: &Session) -> (r: OutputNames) {
    OutputNames { names: session.outputs().iter().map(ort::value::Outlet::name).map(str::to_owned).collect() }
}

/// Reads the dimensions of the session's first input (`Session::inputs`,
/// `Outlet::dtype`, `ValueType::tensor_shape`); none where the session has no input or
/// its first input is not a tensor. A session is opaque here, so nothing more is
/// claimed.
#[verifier::external_body]
pub(crate) fn session_input_shape(session: &Session) -> (r: InputShape) {
    InputShape { dims: session.inputs().first().map(ort::value::Outlet::dtype).and_then(ort::value::ValueType::tensor_shape).map(|shape| shape.to_vec()) }
}

} // verus!
