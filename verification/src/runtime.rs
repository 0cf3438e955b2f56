//! ONNX Runtime sessions: creating them for a device and reading their signatures.
use vstd::prelude::*;
use ort::environment::Environment;
use ort::session::builder::SessionBuilder;
use ort::session::Session;
use crate::device::AccelerationDevice;
use crate::error::PaddleOcrError;
use crate::signature::{
    session_input_names, session_input_shape, session_output_names, InputNames, InputShape, OutputNames,
};
use crate::builder::{
    builder_with_cann, builder_with_coreml, builder_with_cuda, builder_with_directml, builder_with_nnapi,
    builder_with_openvino, commit_from_memory, with_fallback, CommittedSession, ConfiguredBuilder,
};

verus! {

/// The ONNX Runtime environment that sessions are created in (one per process).
#[verifier::external_type_specification]
#[verifier::external_body]
pub struct ExEnvironment(ort::environment::Environment);

/// The options from which ONNX Runtime creates a session.
#[verifier::external_type_specification]
#[verifier::external_body]
pub struct ExSessionBuilder(ort::session::builder::SessionBuilder);

/// A loaded ONNX model, ready for inference.
#[verifier::external_type_specification]
#[verifier::external_body]
pub struct ExSession(ort::session::Session);

/// An ONNX Runtime execution provider that accelerates inference on a device.
#[derive(Debug, Clone, Copy, PartialEq, Eq, Structural)]
pub enum ExecutionProvider {
    DirectML,
    Cuda,
    OpenVINO,
    Nnapi,
    CoreML,
    Cann,
}

/// The execution provider of a device; the CPU needs none.
pub open spec fn provider_of(device: AccelerationDevice) -> Option<ExecutionProvider> {
    match device {
        AccelerationDevice::Cpu => None,
        AccelerationDevice::DirectML => Some(ExecutionProvider::DirectML),
        AccelerationDevice::Cuda => Some(ExecutionProvider::Cuda),
        AccelerationDevice::OpenVINO => Some(ExecutionProvider::OpenVINO),
        AccelerationDevice::Nnapi => Some(ExecutionProvider::Nnapi),
        AccelerationDevice::Coreml => Some(ExecutionProvider::CoreML),
        AccelerationDevice::Cann => Some(ExecutionProvider::Cann),
    }
}

/// A session with what it was made from (the model's bytes and the requested
/// execution provider) and its signature as read from it: the names of its inputs and
/// outputs, and the dimensions of its first input where that is a tensor.
pub struct LoadedSession {
    committed: CommittedSession,
    input_names: InputNames,
    output_names: OutputNames,
    first_input_shape: InputShape,
}

impl LoadedSession {
    /// The session itself.
    pub closed spec fn session_view(&self) -> Session {
        self.committed.session_view()
    }

    /// The bytes of the model that the session was made from.
    pub closed spec fn source(&self) -> Seq<u8> {
        self.committed.source()
    }

    /// The execution provider requested for the session, if any.
    pub closed spec fn requested_provider(&self) -> Option<ExecutionProvider> {
        self.committed.requested_provider()
    }

    /// The names of the session's inputs.
    pub closed spec fn input_names(&self) -> Seq<Seq<char>> {
        self.input_names.names_view().map_values(|n: String| n@)
    }

    /// The names of the session's outputs.
    pub closed spec fn output_names(&self) -> Seq<Seq<char>> {
        self.output_names.names_view().map_values(|n: String| n@)
    }

    /// The dimensions of the session's first input, where it is a tensor.
    pub closed spec fn declared_input_shape(&self) -> Option<Vec<i64>> {
        self.first_input_shape.dims_view()
    }

    /// The dimensions of the session's first input, where it is a tensor.
    pub fn first_input_shape(&self) -> (r: &Option<Vec<i64>>)
        ensures
            *r == self.declared_input_shape(),
    {
        self.first_input_shape.dims()
    }

    /// The session itself, for inference.
    pub fn into_session(self) -> (r: Session)
        ensures
            r == self.session_view(),
    {
        self.committed.into_session()
    }
}

/// Calls `Session::builder` in the given environment. Nothing is claimed of the
/// outcome: it depends on the ONNX Runtime library that is loaded.
#[verifier::external_body]
fn session_builder(environment: &Environment) -> (r: Result<SessionBuilder, ort::Error>) {
    Session::builder(environment)
}

/// The execution provider of a device; the CPU needs none.
pub fn provider_for(device: AccelerationDevice) -> (r: Option<ExecutionProvider>)
    ensures
        r == provider_of(device),
{
    match device {
        AccelerationDevice::Cpu => None,
        AccelerationDevice::DirectML => Some(ExecutionProvider::DirectML),
        AccelerationDevice::Cuda => Some(ExecutionProvider::Cuda),
        AccelerationDevice::OpenVINO => Some(ExecutionProvider::OpenVINO),
        AccelerationDevice::Nnapi => Some(ExecutionProvider::Nnapi),
        AccelerationDevice::Coreml => Some(ExecutionProvider::CoreML),
        AccelerationDevice::Cann => Some(ExecutionProvider::Cann),
    }
}

/// Configures execution providers on a session builder.
///
/// The CPU needs none, and its builder is handed back unchanged. For another device
/// its own execution provider is requested; ONNX Runtime registers it where the
/// machine has it (compiled into ONNX Runtime, runtime libraries present, platform
/// supported) and otherwise runs the session on the CPU. Configuration never fails.
pub fn configure_session_builder(builder: SessionBuilder, device: AccelerationDevice) -> (r: Result<ConfiguredBuilder, PaddleOcrError>)
    ensures
        r is Ok,
        r matches Ok(c) ==> c.requested_provider() == provider_of(device),
        provider_of(device) is None ==> (r matches Ok(c) && c.builder_view() == builder),
{
    match provider_for(device) {
        None => Ok(ConfiguredBuilder::unconfigured(builder)),
        Some(provider) => {
            let attempt = match provider {
                ExecutionProvider::DirectML => builder_with_directml(&builder),
                ExecutionProvider::Cuda => builder_with_cuda(&builder),
                ExecutionProvider::OpenVINO => builder_with_openvino(&builder),
                ExecutionProvider::Nnapi => builder_with_nnapi(&builder),
                ExecutionProvider::CoreML => builder_with_coreml(&builder),
                ExecutionProvider::Cann => builder_with_cann(&builder),
            };
            Ok(with_fallback(attempt, builder))
        },
    }
}

/// Creates a session for `device` in `environment` from a model held in memory, and
/// reads its signature. The session is made from exactly `model`, with the device's
/// execution provider requested. Every error is a `Model` error, which ONNX Runtime
/// reported.
pub fn create_session(environment: &Environment, model: &[u8], device: AccelerationDevice) -> (r: Result<LoadedSession, PaddleOcrError>)
    ensures
        r matches Ok(s) ==> s.source() == model@ && s.requested_provider() == provider_of(device),
        r matches Err(e) ==> e is Model,
{
    let builder = match session_builder(environment) {
        Ok(b) => b,
        Err(e) => {
            return Err(PaddleOcrError::Model(e));
        },
    };
    let configured = match configure_session_builder(builder, device) {
        Ok(c) => c,
        Err(e) => {
            return Err(e);
        },
    };
    let committed = match commit_from_memory(configured, model) {
        Ok(c) => c,
        Err(e) => {
            return Err(PaddleOcrError::Model(e));
        },
    };
    let input_names = session_input_names(committed.session());
    let output_names = session_output_names(committed.session());
    let first_input_shape = session_input_shape(committed.session());
    Ok(LoadedSession { committed, input_names, output_names, first_input_shape })
}

/// The name of a session's first input. A session without inputs is refused with a
/// `General` error that says so.
pub fn first_input_name(session: &LoadedSession) -> (r: Result<String, PaddleOcrError>)
    ensures
        r is Ok <==> session.input_names().len() > 0,
        r matches Ok(name) ==> name@ == session.input_names()[0],
        r matches Err(e) ==> e is General,
        r matches Err(PaddleOcrError::General(m)) ==> m@ == "the model has no inputs"@,
{
    let names = session.input_names.names();
    if names.len() > 0 {
        Ok(names[0].clone())
    } else {
        Err(PaddleOcrError::General("the model has no inputs".to_owned()))
    }
}

/// The name of a session's first output. A session without outputs is refused with a
/// `General` error that says so.
pub fn first_output_name(session: &LoadedSession) -> (r: Result<String, PaddleOcrError>)
    ensures
        r is Ok <==> session.output_names().len() > 0,
        r matches Ok(name) ==> name@ == session.output_names()[0],
        r matches Err(e) ==> e is General,
        r matches Err(PaddleOcrError::General(m)) ==> m@ == "the model has no outputs"@,
{
    let names = session.output_names.names();
    if names.len() > 0 {
        Ok(names[0].clone())
    } else {
        Err(PaddleOcrError::General("the model has no outputs".to_owned()))
    }
}

} // verus!
