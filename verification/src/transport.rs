//! The descriptor-transport model: one message bundles a serialized context
//! with a bounded, ordered set of open-descriptor handles, and can only be
//! formed whole — payload and descriptors together — mirroring the
//! all-or-nothing delivery of the underlying channel. Descriptors are
//! modeled as their numeric handles; duplicating them into another process
//! is the surrounding process's work.
use vstd::prelude::*;

verus! {

/// The most descriptor handles one message may carry.
pub const MAX_DESCRIPTORS: usize = 8;

/// The category of an underlying I/O failure, as the surrounding process
/// reports it.
#[derive(Debug, Clone, Copy, PartialEq, Eq, Structural)]
pub enum IoErrorKind {
    PermissionDenied,
    ConnectionRefused,
    BrokenPipe,
    NotFound,
    Other,
}

/// Why a transport operation failed.
#[derive(Debug, Clone, Copy, PartialEq, Eq, Structural)]
pub enum TransportError {
    /// The message named more descriptors than [`MAX_DESCRIPTORS`]; nothing
    /// was sent.
    TooManyDescriptors,
    /// An underlying socket failure, by category.
    Io(IoErrorKind),
}

/// One atomic transport message: payload bytes paired with the descriptor
/// handles that accompany them. The pair is inseparable — a message is built
/// whole and taken apart whole, never observed with bytes but without its
/// descriptors.
pub struct Message {
    payload: Vec<u8>,
    descriptors: Vec<i32>,
}

impl Message {
    /// The payload bytes carried.
    pub closed spec fn payload_of(&self) -> Seq<u8> {
        self.payload@
    }

    /// The descriptor handles carried, in order.
    pub closed spec fn descriptors_of(&self) -> Seq<i32> {
        self.descriptors@
    }

    /// Every message respects the descriptor bound.
    pub closed spec fn wf(&self) -> bool {
        self.descriptors@.len() <= MAX_DESCRIPTORS
    }

    /// Pairs a payload with its descriptors. Succeeds exactly when the
    /// descriptor count is within the bound; one more than the maximum is
    /// refused whole — neither bytes nor descriptors form a message.
    pub fn new(payload: Vec<u8>, descriptors: Vec<i32>) -> (r: Result<Message, TransportError>)
        ensures
            r is Ok <==> descriptors@.len() <= MAX_DESCRIPTORS,
            r matches Ok(m) ==> m.wf() && m.payload_of() == payload@ && m.descriptors_of()
                == descriptors@,
            r matches Err(e) ==> e == TransportError::TooManyDescriptors,
    {
        if descriptors.len() > MAX_DESCRIPTORS {
            Err(TransportError::TooManyDescriptors)
        } else {
            Ok(Message { payload, descriptors })
        }
    }

    /// The payload, borrowed.
    pub fn payload(&self) -> (r: &Vec<u8>)
        ensures
            r@ == self.payload_of(),
    {
        &self.payload
    }

    /// The descriptors, borrowed.
    pub fn descriptors(&self) -> (r: &Vec<i32>)
        ensures
            r@ == self.descriptors_of(),
    {
        &self.descriptors
    }

    /// Takes the message apart — only as the whole pair it was built from.
    pub fn into_parts(self) -> (r: (Vec<u8>, Vec<i32>))
        ensures
            r.0@ == self.payload_of(),
            r.1@ == self.descriptors_of(),
    {
        (self.payload, self.descriptors)
    }
}

} // verus!
