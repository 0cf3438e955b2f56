//! Session builders, each with the execution provider requested on it, and the sessions
//! committed from them.
use vstd::prelude::*;
use ort::session::builder::SessionBuilder;
use ort::session::Session;
use crate::runtime::ExecutionProvider;

verus! {

/// A session builder, with the execution provider that was requested on it (none
/// where inference runs on the CPU). ONNX Runtime registers a requested provider where
/// the machine has it, and otherwise runs the session on the CPU.
///
/// Its fields are private to this module: a provider is recorded only by the call that
/// requests it on the builder, so the record and the builder cannot part.
pub struct ConfiguredBuilder {
    builder: SessionBuilder,
    provider: Ghost<Option<ExecutionProvider>>,
}

impl ConfiguredBuilder {
    /// The builder itself.
    pub closed spec fn builder_view(&self) -> SessionBuilder {
        self.builder
    }

    /// The execution provider requested on the builder, if any.
    pub closed spec fn requested_provider(&self) -> Option<ExecutionProvider> {
        self.provider@
    }

    /// A builder on which no execution provider is requested: inference on the CPU.
    pub fn unconfigured(builder: SessionBuilder) -> (r: ConfiguredBuilder)
        ensures
            r.builder_view() == builder,
            r.requested_provider() is None,
    {
        ConfiguredBuilder { builder, provider: Ghost(None) }
    }
}

/// A session committed from a builder: the session, the bytes of the model that it was
/// made from and the execution provider that was requested on the builder.
///
/// Its fields are private to this module and only `commit_from_memory` fills them: the
/// record of what a session was made from cannot part from the session.
pub struct CommittedSession {
    session: Session,
    model: Ghost<Seq<u8>>,
    provider: Ghost<Option<ExecutionProvider>>,
}

impl CommittedSession {
    /// The session itself.
    pub closed spec fn session_view(&self) -> Session {
        self.session
    }

    /// The bytes of the model that the session was made from.
    pub closed spec fn source(&self) -> Seq<u8> {
        self.model@
    }

    /// The execution provider requested on the builder of the session, if any.
    pub closed spec fn requested_provider(&self) -> Option<ExecutionProvider> {
        self.provider@
    }

    /// The session, to read its signature.
    pub fn session(&self) -> (r: &Session)
        ensures
            *r == self.session_view(),
    {
        &self.session
    }

    /// The session itself, for inference.
    pub fn into_session(self) -> (r: Session)
        ensures
            r == self.session_view(),
    {
        self.session
    }
}

/// Calls `SessionBuilder::with_execution_providers` on a copy of the builder with the
/// DirectML execution provider. Claimed: the builder comes back, with DirectML requested. The
/// provider is built to fail silently (ort's default), so ONNX Runtime registers it
/// where the machine has it and otherwise logs the failure and runs on the CPU; the
/// call itself then still succeeds.
#[verifier::external_body]
pub(crate) fn builder_with_directml(builder: &SessionBuilder) -> (r: Option<ConfiguredBuilder>)
    ensures
        r is Some,
        r matches Some(c) ==> c.requested_provider() == Some(ExecutionProvider::DirectML),
{
    match builder.clone().with_execution_providers([ort::ep::DirectML::default().build()]) {
        Ok(b) => Some(ConfiguredBuilder { builder: b, provider: Ghost(Some(ExecutionProvider::DirectML)) }),
        Err(_) => None,
    }
}

/// Calls `SessionBuilder::with_execution_providers` on a copy of the builder with the
/// CUDA execution provider. Claimed: the builder comes back, with CUDA requested. The
/// provider is built to fail silently (ort's default), so ONNX Runtime registers it
/// where the machine has it and otherwise logs the failure and runs on the CPU; the
/// call itself then still succeeds.
#[verifier::external_body]
pub(crate) fn builder_with_cuda(builder: &SessionBuilder) -> (r: Option<ConfiguredBuilder>)
    ensures
        r is Some,
        r matches Some(c) ==> c.requested_provider() == Some(ExecutionProvider::Cuda),
{
    match builder.clone().with_execution_providers([ort::ep::CUDA::default().build()]) {
        Ok(b) => Some(ConfiguredBuilder { builder: b, provider: Ghost(Some(ExecutionProvider::Cuda)) }),
        Err(_) => None,
    }
}

/// Calls `SessionBuilder::with_execution_providers` on a copy of the builder with the
/// OpenVINO execution provider. Claimed: the builder comes back, with OpenVINO requested. The
/// provider is built to fail silently (ort's default), so ONNX Runtime registers it
/// where the machine has it and otherwise logs the failure and runs on the CPU; the
/// call itself then still succeeds.
#[verifier::external_body]
pub(crate) fn builder_with_openvino(builder: &SessionBuilder) -> (r: Option<ConfiguredBuilder>)
    ensures
        r is Some,
        r matches Some(c) ==> c.requested_provider() == Some(ExecutionProvider::OpenVINO),
{
    match builder.clone().with_execution_providers([ort::ep::OpenVINO::default().build()]) {
        Ok(b) => Some(ConfiguredBuilder { builder: b, provider: Ghost(Some(ExecutionProvider::OpenVINO)) }),
        Err(_) => None,
    }
}

/// Calls `SessionBuilder::with_execution_providers` on a copy of the builder with the
/// NNAPI execution provider. Claimed: the builder comes back, with NNAPI requested. The
/// provider is built to fail silently (ort's default), so ONNX Runtime registers it
/// where the machine has it and otherwise logs the failure and runs on the CPU; the
/// call itself then still succeeds.
#[verifier::external_body]
pub(crate) fn builder_with_nnapi(builder: &SessionBuilder) -> (r: Option<ConfiguredBuilder>)
    ensures
        r is Some,
        r matches Some(c) ==> c.requested_provider() == Some(ExecutionProvider::Nnapi),
{
    match builder.clone().with_execution_providers([ort::ep::NNAPI::default().build()]) {
        Ok(b) => Some(ConfiguredBuilder { builder: b, provider: Ghost(Some(ExecutionProvider::Nnapi)) }),
        Err(_) => None,
    }
}

/// Calls `SessionBuilder::with_execution_providers` on a copy of the builder with the
/// CoreML execution provider. Claimed: the builder comes back, with CoreML requested. The
/// provider is built to fail silently (ort's default), so ONNX Runtime registers it
/// where the machine has it and otherwise logs the failure and runs on the CPU; the
/// call itself then still succeeds.
#[verifier::external_body]
pub(crate) fn builder_with_coreml(builder: &SessionBuilder) -> (r: Option<ConfiguredBuilder>)
    ensures
        r is Some,
        r matches Some(c) ==> c.requested_provider() == Some(ExecutionProvider::CoreML),
{
    match builder.clone().with_execution_providers([ort::ep::CoreML::default().build()]) {
        Ok(b) => Some(ConfiguredBuilder { builder: b, provider: Ghost(Some(ExecutionProvider::CoreML)) }),
        Err(_) => None,
    }
}

/// Calls `SessionBuilder::with_execution_providers` on a copy of the builder with the
/// CANN execution provider. Claimed: the builder comes back, with CANN requested. The
/// provider is built to fail silently (ort's default), so ONNX Runtime registers it
/// where the machine has it and otherwise logs the failure and runs on the CPU; the
/// call itself then still succeeds.
#[verifier::external_body]
pub(crate) fn builder_with_cann(builder: &SessionBuilder) -> (r: Option<ConfiguredBuilder>)
    ensures
        r is Some,
        r matches Some(c) ==> c.requested_provider() == Some(ExecutionProvider::Cann),
{
    match builder.clone().with_execution_providers([ort::ep::CANN::default().build()]) {
        Ok(b) => Some(ConfiguredBuilder { builder: b, provider: Ghost(Some(ExecutionProvider::Cann)) }),
        Err(_) => None,
    }
}

/// The builder that configuration ends with: the one that the execution provider was
/// requested on where that call handed one back, else the unchanged builder with no
/// provider (CPU inference).
pub fn with_fallback(configured: Option<ConfiguredBuilder>, original: SessionBuilder) -> (r: ConfiguredBuilder)
    ensures
        configured is Some ==> r == configured->0,
        configured is None ==> r.builder_view() == original && r.requested_provider() is None,
{
    match configured {
        Some(c) => c,
        None => ConfiguredBuilder::unconfigured(original),
    }
}

/// Calls `SessionBuilder::commit_from_memory` on the configured builder with the
/// model's bytes. Claimed: a session that comes back was made from exactly these bytes,
/// by this builder, so with the execution provider that was requested on it. Whether the
/// bytes form a model that the loaded ONNX Runtime accepts is decided by that library.
#[verifier::external_body]
pub(crate) fn commit_from_memory(configured: ConfiguredBuilder, model: &[u8]) -> (r: Result<CommittedSession, ort::Error>)
    ensures
        r matches Ok(c) ==> c.source() == model@ && c.requested_provider() == configured.requested_provider(),
{
    let ConfiguredBuilder { mut builder, provider } = configured;
    match builder.commit_from_memory(model) {
        Ok(session) => Ok(CommittedSession { session, model: Ghost(model@), provider }),
        Err(e) => Err(e),
    }
}

} // verus!
