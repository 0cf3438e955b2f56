//! The OCR engine: its detection and recognition sessions, the geometry of the
//! recognition input, the dictionary and the pool of recognition sessions.
use vstd::prelude::*;
use vstd::utf8::{valid_utf8, decode_utf8};
use std::collections::VecDeque;
use ort::environment::Environment;
use ort::session::Session;
use crate::device::AccelerationDevice;
use crate::error::PaddleOcrError;
use crate::runtime::{create_session, first_input_name, first_output_name, provider_of, LoadedSession};
use crate::text::{load_keys, string_views, text_lines};
use crate::sync::{new_condvar, new_pool_lock, new_session_lock, pool_lock, session_lock};

verus! {

/// The input dimensions assumed for a recognition model that does not declare them:
/// batch 1, 3 channels, height 48, width 320.
pub open spec fn default_recognition_shape() -> Seq<i64> {
    seq![1i64, 3i64, 48i64, 320i64]
}

/// The height of the recognition input: the third dimension (48 where there is none),
/// at least 1, as a `u32`.
pub open spec fn recognition_height_of(shape: Seq<i64>) -> u32 {
    let dim: i64 = if shape.len() > 2 { shape[2] } else { 48 };
    (if dim >= 1 { dim } else { 1 }) as u32
}

/// The width of the recognition input: the fourth dimension as a `u32` where it is
/// positive, else none (the width then follows each text region).
pub open spec fn recognition_width_of(shape: Seq<i64>) -> Option<u32> {
    if shape.len() > 3 && shape[3] > 0 {
        Some(shape[3] as u32)
    } else {
        None
    }
}

/// The number of recognition sessions for a machine with `cores` cores: half of
/// them, and at least one.
pub open spec fn pool_size_for(cores: nat) -> nat {
    if cores / 2 >= 1 {
        cores / 2
    } else {
        1
    }
}

/// A machine with `cores` cores gets half as many recognition sessions, rounded down,
/// and never fewer than one: for two cores or more the pool is the largest number whose
/// double does not exceed the core count; below two cores it is one session.
pub proof fn lemma_pool_is_half_the_cores(cores: nat)
    ensures
        pool_size_for(cores) >= 1,
        cores >= 2 ==> 2 * pool_size_for(cores) <= cores < 2 * pool_size_for(cores) + 2,
        cores < 2 ==> pool_size_for(cores) == 1,
{
}

/// The declared dimensions of the recognition input, or the default ones where the
/// model declares none.
pub fn recognition_shape(declared: Option<Vec<i64>>) -> (r: Vec<i64>)
    ensures
        r@ == (match declared {
            Some(shape) => shape@,
            None => default_recognition_shape(),
        }),
{
    match declared {
        Some(shape) => shape,
        None => {
            let r: Vec<i64> = vec![1i64, 3i64, 48i64, 320i64];
            assert(r@ =~= default_recognition_shape());
            r
        },
    }
}

/// The height of the recognition input for the given input dimensions.
pub fn recognition_height(shape: &[i64]) -> (r: u32)
    ensures
        r == recognition_height_of(shape@),
{
    let dim: i64 = if shape.len() > 2 { shape[2] } else { 48 };
    let dim: i64 = if dim >= 1 { dim } else { 1 };
    dim as u32
}

/// The fixed width of the recognition input for the given input dimensions, if any.
pub fn recognition_width(shape: &[i64]) -> (r: Option<u32>)
    ensures
        r == recognition_width_of(shape@),
{
    if shape.len() > 3 && shape[3] > 0 {
        Some(shape[3] as u32)
    } else {
        None
    }
}

/// The number of recognition sessions to keep for a machine with `cores` cores.
pub fn recognition_pool_size(cores: usize) -> (r: usize)
    ensures
        r == pool_size_for(cores as nat),
        r >= 1,
{
    let half: usize = cores / 2;
    if half >= 1 {
        half
    } else {
        1
    }
}

/// The dimensions that a recognition model declares for its input, or the default
/// ones where it declares none.
pub open spec fn declared_shape(declared: Option<Vec<i64>>) -> Seq<i64> {
    match declared {
        Some(shape) => shape@,
        None => default_recognition_shape(),
    }
}

/// The height and the fixed width (if any) of the recognition input, for the input
/// dimensions that the recognition model declares (the default ones where it declares
/// none).
pub fn recognition_geometry(declared: &Option<Vec<i64>>) -> (r: (u32, Option<u32>))
    ensures
        r.0 == recognition_height_of(declared_shape(*declared)),
        r.1 == recognition_width_of(declared_shape(*declared)),
{
    match declared {
        Some(shape) => (recognition_height(shape.as_slice()), recognition_width(shape.as_slice())),
        None => {
            let shape = recognition_shape(None);
            (recognition_height(shape.as_slice()), recognition_width(shape.as_slice()))
        },
    }
}

/// Whether a session was made from `model` with the execution provider of `device`
/// requested.
pub open spec fn made_for(s: LoadedSession, model: Seq<u8>, device: AccelerationDevice) -> bool {
    &&& s.source() == model
    &&& s.requested_provider() == provider_of(device)
}

/// What is wrong with the signatures of a detection and a recognition session, if
/// anything, checked in this order: the detection model has no inputs, it has no
/// outputs, the recognition model has no inputs, it has no outputs.
pub open spec fn signature_problem(det: LoadedSession, rec: LoadedSession) -> Option<Seq<char>> {
    if det.input_names().len() == 0 {
        Some("the model has no inputs"@)
    } else if det.output_names().len() == 0 {
        Some("the model has no outputs"@)
    } else if rec.input_names().len() == 0 {
        Some("the model has no inputs"@)
    } else if rec.output_names().len() == 0 {
        Some("the model has no outputs"@)
    } else {
        None
    }
}

/// Whether an error is one that creating a session or reading its signature gives: a
/// `Model` error, or a `General` error for a model without inputs or outputs.
pub open spec fn is_session_error(e: PaddleOcrError) -> bool {
    ||| e is Model
    ||| e matches PaddleOcrError::General(m) && (m@ == "the model has no inputs"@ || m@
        == "the model has no outputs"@)
}

/// A recognition's first step on the pool of recognition sessions: it takes the
/// session at the front, or finds the pool empty (`None`) and must wait until a session
/// is given back.
pub fn take_recognition_session(pool: &mut VecDeque<LoadedSession>) -> (r: Option<LoadedSession>)
    ensures
        old(pool)@.len() > 0 ==> r == Some(old(pool)@[0]) && final(pool)@ == old(pool)@.drop_first(),
        old(pool)@.len() == 0 ==> r is None && final(pool)@ == old(pool)@,
{
    let r = pool.pop_front();
    proof {
        if old(pool)@.len() > 0 {
            assert(old(pool)@.subrange(1, old(pool)@.len() as int) =~= old(pool)@.drop_first());
        }
    }
    r
}

/// A recognition's last step on the pool: it gives its session back at the end.
pub fn return_recognition_session(pool: &mut VecDeque<LoadedSession>, session: LoadedSession)
    ensures
        final(pool)@ == old(pool)@.push(session),
{
    pool.push_back(session);
}

/// Taking a session from the pool and giving it back keeps the pool's sessions: only
/// their order turns.
pub proof fn lemma_take_and_return_keeps_sessions(pool: Seq<LoadedSession>)
    requires
        pool.len() > 0,
    ensures
        pool.drop_first().push(pool[0]).to_multiset() == pool.to_multiset(),
        pool.drop_first().push(pool[0]).len() == pool.len(),
{
    broadcast use vstd::seq_lib::group_to_multiset_ensures;
    assert(pool =~= seq![pool[0]] + pool.drop_first());
    vstd::seq_lib::lemma_multiset_commutative(seq![pool[0]], pool.drop_first());
    assert(pool.drop_first().push(pool[0]) =~= pool.drop_first() + seq![pool[0]]);
}

/// Builds the pool of recognition sessions: `first`, followed by sessions created in
/// `environment` from `rec_model` for `device` until the pool holds `size` sessions (at
/// least one).
pub fn build_recognition_pool(
    first: LoadedSession,
    environment: &Environment,
    rec_model: &[u8],
    device: AccelerationDevice,
    size: usize,
) -> (r: Result<VecDeque<LoadedSession>, PaddleOcrError>)
    ensures
        r matches Ok(pool) ==> {
            &&& pool@.len() == (if size >= 1 { size as int } else { 1 })
            &&& pool@[0] == first
            &&& forall|i: int| 1 <= i < pool@.len() ==> made_for(#[trigger] pool@[i], rec_model@, device)
        },
        r matches Err(e) ==> e is Model,
{
    let mut sessions: VecDeque<LoadedSession> = VecDeque::with_capacity(size);
    sessions.push_back(first);
    let mut count: usize = 1;
    while count < size
        invariant
            1 <= count,
            count <= size || count == 1,
            sessions@.len() == count,
            sessions@[0] == first,
            forall|i: int| 1 <= i < sessions@.len() ==> made_for(#[trigger] sessions@[i], rec_model@, device),
        decreases size - count,
    {
        let session = match create_session(environment, rec_model, device) {
            Ok(s) => s,
            Err(e) => {
                return Err(e);
            },
        };
        sessions.push_back(session);
        count = count + 1;
    }
    Ok(sessions)
}

/// The OCR engine: a detection session, a pool of recognition sessions that
/// recognitions share, the names of the models' inputs and outputs, the geometry of
/// the recognition input, the dictionary and the acceleration device.
pub struct OcrEngine {
    det_session: parking_lot::Mutex<Session>,
    rec_sessions: parking_lot::Mutex<VecDeque<LoadedSession>>,
    rec_sessions_cvar: parking_lot::Condvar,
    det_input: String,
    det_output: String,
    rec_input: String,
    rec_output: String,
    rec_height: u32,
    rec_width: Option<u32>,
    keys: Vec<String>,
    device: AccelerationDevice,
    det_loaded: Ghost<LoadedSession>,
    rec_loaded: Ghost<LoadedSession>,
    rec_pool: Ghost<VecDeque<LoadedSession>>,
}

impl OcrEngine {
    /// The engine's acceleration device.
    pub closed spec fn device_view(&self) -> AccelerationDevice {
        self.device
    }

    /// The engine's dictionary, one entry per character class.
    pub closed spec fn keys_view(&self) -> Seq<Seq<char>> {
        string_views(self.keys@)
    }

    /// The height of the recognition input.
    pub closed spec fn rec_height_view(&self) -> u32 {
        self.rec_height
    }

    /// The fixed width of the recognition input, if any.
    pub closed spec fn rec_width_view(&self) -> Option<u32> {
        self.rec_width
    }

    /// The detection session as it was created, with its source and signature.
    pub closed spec fn detection_session(&self) -> LoadedSession {
        self.det_loaded@
    }

    /// The first recognition session as it was created, with its source and signature.
    pub closed spec fn recognition_session(&self) -> LoadedSession {
        self.rec_loaded@
    }

    /// The pool of recognition sessions that the engine was created with.
    pub closed spec fn pool_value(&self) -> VecDeque<LoadedSession> {
        self.rec_pool@
    }

    /// The sessions of the pool that the engine was created with, front first.
    pub open spec fn recognition_pool(&self) -> Seq<LoadedSession> {
        self.pool_value()@
    }

    /// The lock of the detection session, and the lock of the recognition pool.
    pub closed spec fn locks(&self) -> (parking_lot::Mutex<Session>, parking_lot::Mutex<VecDeque<LoadedSession>>) {
        (self.det_session, self.rec_sessions)
    }

    /// The names of the detection model's input and output, and of the recognition
    /// model's input and output, that inference uses.
    pub closed spec fn io_names(&self) -> (Seq<char>, Seq<char>, Seq<char>, Seq<char>) {
        (self.det_input@, self.det_output@, self.rec_input@, self.rec_output@)
    }

    /// What an engine assembled from a detection session `det`, a first recognition
    /// session `rec`, a dictionary, a device and a core count is.
    pub open spec fn assembled_from(
        &self,
        det: LoadedSession,
        rec: LoadedSession,
        keys_data: Seq<u8>,
        rec_model: Seq<u8>,
        device: AccelerationDevice,
        available_cores: nat,
    ) -> bool {
        &&& self.device_view() == device
        &&& valid_utf8(keys_data)
        &&& self.keys_view() == text_lines(decode_utf8(keys_data))
        &&& self.detection_session() == det
        &&& self.recognition_session() == rec
        &&& signature_problem(det, rec) is None
        &&& self.io_names() == (det.input_names()[0], det.output_names()[0], rec.input_names()[0], rec.output_names()[0])
        &&& self.rec_height_view() == recognition_height_of(declared_shape(rec.declared_input_shape()))
        &&& self.rec_width_view() == recognition_width_of(declared_shape(rec.declared_input_shape()))
        &&& self.recognition_pool().len() == pool_size_for(available_cores)
        &&& self.recognition_pool()[0] == rec
        &&& forall|i: int|
            1 <= i < self.recognition_pool().len() ==> made_for(
                #[trigger] self.recognition_pool()[i],
                rec_model,
                device,
            )
        &&& self.locks().0 == session_lock(det.session_view())
        &&& self.locks().1 == pool_lock(self.pool_value())
    }

    /// What an engine created from these models, dictionary, device and core count is:
    /// assembled from a detection session made from `det_model` and a recognition
    /// session made from `rec_model`.
    pub open spec fn created_from(
        &self,
        det_model: Seq<u8>,
        rec_model: Seq<u8>,
        keys_data: Seq<u8>,
        device: AccelerationDevice,
        available_cores: nat,
    ) -> bool {
        &&& self.assembled_from(
            self.detection_session(),
            self.recognition_session(),
            keys_data,
            rec_model,
            device,
            available_cores,
        )
        &&& made_for(self.detection_session(), det_model, device)
        &&& made_for(self.recognition_session(), rec_model, device)
    }

    /// An engine created for a machine with `cores` cores holds half as many recognition
    /// sessions, rounded down, and at least one: 8 for 16 cores, 16 for 32.
    pub proof fn lemma_pool_of_created_engine(
        &self,
        det_model: Seq<u8>,
        rec_model: Seq<u8>,
        keys_data: Seq<u8>,
        device: AccelerationDevice,
        cores: nat,
    )
        requires
            self.created_from(det_model, rec_model, keys_data, device, cores),
        ensures
            self.recognition_pool().len() >= 1,
            cores >= 2 ==> 2 * self.recognition_pool().len() <= cores < 2 * self.recognition_pool().len() + 2,
            cores < 2 ==> self.recognition_pool().len() == 1,
    {
        lemma_pool_is_half_the_cores(cores);
    }

    /// Assembles an engine from its detection session `det` and its first recognition
    /// session `rec`: checks that both models have inputs and outputs (a `General` error
    /// names what is missing), reads the dictionary (a `Utf8` error where it is not valid
    /// UTF-8), then fills the pool with recognition sessions made from `rec_model`.
    pub fn assemble(
        det: LoadedSession,
        rec: LoadedSession,
        keys_data: &[u8],
        rec_model: &[u8],
        device: AccelerationDevice,
        environment: &Environment,
        available_cores: usize,
    ) -> (r: Result<Self, PaddleOcrError>)
        ensures
            signature_problem(det, rec) matches Some(m) ==> (r matches Err(PaddleOcrError::General(msg))
                && msg@ == m),
            signature_problem(det, rec) is None && !valid_utf8(keys_data@) ==> r matches Err(
                PaddleOcrError::Utf8(_),
            ),
            signature_problem(det, rec) is None && valid_utf8(keys_data@) ==> (r is Ok || r matches Err(
                PaddleOcrError::Model(_),
            )),
            r matches Ok(engine) ==> engine.assembled_from(
                det,
                rec,
                keys_data@,
                rec_model@,
                device,
                available_cores as nat,
            ),
    {
        let det_input = match first_input_name(&det) {
            Ok(n) => n,
            Err(e) => {
                return Err(e);
            },
        };
        let det_output = match first_output_name(&det) {
            Ok(n) => n,
            Err(e) => {
                return Err(e);
            },
        };
        let rec_input = match first_input_name(&rec) {
            Ok(n) => n,
            Err(e) => {
                return Err(e);
            },
        };
        let rec_output = match first_output_name(&rec) {
            Ok(n) => n,
            Err(e) => {
                return Err(e);
            },
        };
        let (rec_height, rec_width) = recognition_geometry(rec.first_input_shape());
        let keys = match load_keys(keys_data) {
            Ok(k) => k,
            Err(e) => {
                return Err(e);
            },
        };
        let pool_size = recognition_pool_size(available_cores);
        let ghost det_loaded = det;
        let ghost rec_loaded = rec;
        let sessions = match build_recognition_pool(rec, environment, rec_model, device, pool_size) {
            Ok(p) => p,
            Err(e) => {
                return Err(e);
            },
        };
        let ghost rec_pool = sessions;
        let engine = OcrEngine {
            det_session: new_session_lock(det.into_session()),
            rec_sessions: new_pool_lock(sessions),
            rec_sessions_cvar: new_condvar(),
            det_input,
            det_output,
            rec_input,
            rec_output,
            rec_height,
            rec_width,
            keys,
            device,
            det_loaded: Ghost(det_loaded),
            rec_loaded: Ghost(rec_loaded),
            rec_pool: Ghost(rec_pool),
        };
        Ok(engine)
    }

    /// Creates an engine on the default device (the CPU); see `new_with_device`.
    pub fn new(
        det_model: &[u8],
        rec_model: &[u8],
        keys_data: &[u8],
        environment: &Environment,
        available_cores: usize,
    ) -> (r: Result<Self, PaddleOcrError>)
        ensures
            r matches Ok(engine) ==> engine.created_from(
                det_model@,
                rec_model@,
                keys_data@,
                AccelerationDevice::Cpu,
                available_cores as nat,
            ),
            !valid_utf8(keys_data@) ==> r is Err,
            r matches Err(e) ==> (is_session_error(e) || e is Utf8),
            r matches Err(e) && e is Utf8 ==> !valid_utf8(keys_data@),
    {
        Self::new_with_device(det_model, rec_model, keys_data, AccelerationDevice::default(), environment, available_cores)
    }

    /// Creates an engine from a detection model, a recognition model and a dictionary,
    /// all held in memory, for `device`, in the ONNX Runtime `environment`;
    /// `available_cores` is the number of cores of the machine, half of which (at least
    /// one) get a recognition session each.
    ///
    /// The detection session is made from `det_model` and the recognition sessions from
    /// `rec_model`, each with the device's execution provider requested; where ONNX
    /// Runtime refuses a model, that is a `Model` error, before the dictionary is read.
    /// What follows, for the two sessions, is `assemble`.
    pub fn new_with_device(
        det_model: &[u8],
        rec_model: &[u8],
        keys_data: &[u8],
        device: AccelerationDevice,
        environment: &Environment,
        available_cores: usize,
    ) -> (r: Result<Self, PaddleOcrError>)
        ensures
            r matches Ok(engine) ==> engine.created_from(
                det_model@,
                rec_model@,
                keys_data@,
                device,
                available_cores as nat,
            ),
            !valid_utf8(keys_data@) ==> r is Err,
            r matches Err(e) ==> (is_session_error(e) || e is Utf8),
            r matches Err(e) && e is Utf8 ==> !valid_utf8(keys_data@),
    {
        let det = match create_session(environment, det_model, device) {
            Ok(s) => s,
            Err(e) => {
                return Err(e);
            },
        };
        let rec = match create_session(environment, rec_model, device) {
            Ok(s) => s,
            Err(e) => {
                return Err(e);
            },
        };
        Self::assemble(det, rec, keys_data, rec_model, device, environment, available_cores)
    }

    /// Returns the acceleration device used by this engine.
    pub fn device(&self) -> (r: AccelerationDevice)
        ensures
            r == self.device_view(),
    {
        self.device
    }
}

} // verus!
