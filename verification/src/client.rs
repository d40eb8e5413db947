//! The client wrapper: a handle that exists only after a successful
//! initialization, and the decision logic for the three object operations.
//!
//! The native storage library performs the actual work; its calls are made
//! outside this crate. Each operation here takes, besides the request, what
//! the native call reported (a status code, or the buffer a read produced),
//! and decides the typed result the caller sees. No failure is masked: a
//! nonzero status is surfaced verbatim.

use vstd::prelude::*;

verus! {

/// Identifier of a stored object: a 128-bit value split into two 64-bit
/// halves. Globally unique per stored object.
#[derive(Clone, Copy, PartialEq, Eq, Structural, Debug)]
pub struct ObjectId {
    /// High 64 bits of the identifier.
    pub hi: u64,
    /// Low 64 bits of the identifier.
    pub low: u64,
}

/// Error returned when instance initialization reports a nonzero status.
/// Construction of a client handle fails with this; it never succeeds
/// silently.
#[derive(Clone, Copy, PartialEq, Eq, Structural, Debug)]
pub struct InitializationError {
    /// The nonzero status the native initialization call reported.
    pub status: i32,
}

/// Opaque failure of an object operation. The wrapped library documents no
/// finer classification of its status codes, so they are propagated verbatim.
#[derive(Clone, Copy, PartialEq, Eq, Structural, Debug)]
pub enum OperationError {
    /// The native call reported this nonzero status code.
    Status(i32),
    /// A read produced no buffer descriptor at all.
    NoResult,
    /// A read produced a buffer of a length other than the requested one.
    LengthMismatch {
        /// The number of bytes the caller asked for.
        requested: u64,
        /// The number of bytes the native call actually produced.
        returned: u64,
    },
}

/// Owned buffer returned by a successful read. The caller owns it and is
/// responsible for releasing it: dropping it, or taking the bytes out with
/// [`ReadBuf::into_bytes`].
pub struct ReadBuf {
    bytes: Vec<u8>,
}

impl View for ReadBuf {
    type V = Seq<u8>;

    closed spec fn view(&self) -> Seq<u8> {
        self.bytes@
    }
}

impl ReadBuf {
    /// Number of bytes held.
    pub fn len(&self) -> (n: usize)
        ensures
            n == self@.len(),
    {
        self.bytes.len()
    }

    /// Borrow the bytes without giving up ownership.
    pub fn as_bytes(&self) -> (r: &Vec<u8>)
        ensures
            r@ == self@,
    {
        &self.bytes
    }

    /// Take the bytes out, releasing the buffer.
    pub fn into_bytes(self) -> (r: Vec<u8>)
        ensures
            r@ == self@,
    {
        self.bytes
    }
}

/// The result that an operation reporting `status` must surface: success
/// exactly on status zero, otherwise the code verbatim, never masked.
pub open spec fn status_result(status: i32) -> Result<(), OperationError> {
    if status == 0 {
        Ok(())
    } else {
        Err(OperationError::Status(status))
    }
}

/// Whether the buffer a read produced answers a request for `len` bytes:
/// a buffer came back, and it holds exactly the requested number of bytes.
pub open spec fn read_accepts(len: u64, outcome: Option<Vec<u8>>) -> bool {
    outcome matches Some(v) && v@.len() == len as int
}

/// Handle to an initialized client instance. A value of this type can only be
/// obtained from [`MotrClient::new`] on a zero initialization status, so
/// holding one is proof that initialization succeeded; an uninitialized
/// client is unrepresentable.
///
/// The handle imposes no exclusion of its own: sharing one handle across
/// threads is unsupported unless the wrapped library states otherwise.
pub struct MotrClient {
    init_status: i32,
}

impl MotrClient {
    /// The handle witnesses a successful initialization.
    pub closed spec fn well_formed(&self) -> bool {
        self.init_status == 0
    }

    /// Decides the outcome of instance initialization from the status the
    /// native call reported: a ready handle exactly on status zero, and
    /// [`InitializationError`] carrying the code verbatim otherwise.
    pub fn new(init_status: i32) -> (r: Result<MotrClient, InitializationError>)
        ensures
            r is Ok <==> init_status == 0,
            r matches Ok(c) ==> c.well_formed(),
            r matches Err(e) ==> e == (InitializationError { status: init_status }),
    {
        if init_status == 0 {
            Ok(MotrClient { init_status })
        } else {
            Err(InitializationError { status: init_status })
        }
    }

    /// Decides the outcome of creating the object `id` from the status the
    /// native call reported. Repeating a creation does not silently succeed:
    /// whatever status the store reports the second time is surfaced
    /// unchanged.
    pub fn create_object(&self, id: ObjectId, status: i32) -> (r: Result<(), OperationError>)
        requires
            self.well_formed(),
        ensures
            r == status_result(status),
    {
        if status == 0 {
            Ok(())
        } else {
            Err(OperationError::Status(status))
        }
    }

    /// Decides the outcome of reading `len` bytes of object `id` starting at
    /// `start`, from the buffer the native call produced (`None` when it
    /// produced no descriptor). Success returns an owned [`ReadBuf`] holding
    /// exactly the produced bytes, and only when their number is exactly the
    /// requested one; in particular a request for zero bytes can only succeed
    /// with an empty buffer.
    pub fn read_object(
        &self,
        id: ObjectId,
        start: u64,
        len: u64,
        outcome: Option<Vec<u8>>,
    ) -> (r: Result<ReadBuf, OperationError>)
        requires
            self.well_formed(),
        ensures
            r is Ok <==> read_accepts(len, outcome),
            r matches Ok(b) ==> (outcome matches Some(v) && b@ == v@ && b@.len() == len as int),
            outcome is None ==> r == Err::<ReadBuf, OperationError>(OperationError::NoResult),
            outcome matches Some(v) ==> (v@.len() != len as int ==> r == Err::<
                ReadBuf,
                OperationError,
            >(
                (OperationError::LengthMismatch { requested: len, returned: v@.len() as u64 }),
            )),
    {
        match outcome {
            None => Err(OperationError::NoResult),
            Some(bytes) => {
                let n: usize = bytes.len();
                if n as u64 == len {
                    Ok(ReadBuf { bytes })
                } else {
                    Err(OperationError::LengthMismatch { requested: len, returned: n as u64 })
                }
            },
        }
    }

    /// Decides the outcome of writing the bytes of `buffer` into object `id`
    /// at offset `start`, from the status the native call reported. The
    /// buffer is taken by shared borrow: the caller retains ownership, and
    /// the write cannot change it. Success returns the number of bytes that
    /// were handed to the store, which is the whole buffer.
    pub fn write_object(
        &self,
        id: ObjectId,
        start: u64,
        buffer: &Vec<u8>,
        status: i32,
    ) -> (r: Result<usize, OperationError>)
        requires
            self.well_formed(),
        ensures
            r is Ok <==> status == 0,
            r matches Ok(n) ==> n == buffer@.len(),
            r matches Err(e) ==> e == OperationError::Status(status),
    {
        if status == 0 {
            Ok(buffer.len())
        } else {
            Err(OperationError::Status(status))
        }
    }
}

/// Round-trip law, wrapper side: when a write is acknowledged with status
/// zero and a read of the same range hands back exactly the bytes that were
/// written, the wrapper surfaces the write as full success and returns those
/// bytes to the caller unchanged — this layer adds no distortion in either
/// direction. Whether the store does hand back what was written is the native
/// library's contract, not this layer's, so that step is a hypothesis here.
pub proof fn lemma_write_read_round_trip(
    data: Vec<u8>,
    len: u64,
    wr: Result<usize, OperationError>,
    rr: Result<ReadBuf, OperationError>,
)
    requires
        wr is Ok,
        wr matches Ok(n) ==> n == data@.len(),
        len as int == data@.len(),
        rr is Ok <==> read_accepts(len, Some(data)),
        rr matches Ok(b) ==> b@ == data@,
    ensures
        wr matches Ok(n) && n == data@.len(),
        rr matches Ok(b) && b@ == data@,
{
}

} // verus!
