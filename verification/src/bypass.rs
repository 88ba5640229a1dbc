//! The reasons for which a hook steps aside and lets the native operation run.

use std::path::PathBuf;
use vstd::prelude::*;

verus! {

/// A file descriptor as the operating system numbers it.
pub type RawFd = i32;

/// No byte of `bytes` is the NUL byte.
pub open spec fn nul_free(bytes: Seq<u8>) -> bool {
    forall|i: int| 0 <= i < bytes.len() ==> bytes[i] != 0
}

/// The bytes of a C string, without the terminating NUL.
///
/// A C string ends at its first NUL byte, so none may occur among the bytes
/// themselves: every value of this type is free of them.
#[derive(Debug, PartialEq, Eq, PartialOrd, Ord, Hash)]
pub struct CBytes {
    bytes: Vec<u8>,
}

impl View for CBytes {
    type V = Seq<u8>;

    closed spec fn view(&self) -> Seq<u8> {
        self.bytes@
    }
}

impl CBytes {
    #[verifier::type_invariant]
    spec fn well_formed(self) -> bool {
        nul_free(self.bytes@)
    }

    /// Takes `bytes` as a C string, unless a NUL byte occurs among them.
    pub fn new(bytes: Vec<u8>) -> (made: Option<CBytes>)
        ensures
            made is Some <==> nul_free(bytes@),
            made matches Some(c) ==> c@ == bytes@,
    {
        let mut at: usize = 0;
        while at < bytes.len()
            invariant
                at <= bytes.len(),
                forall|i: int| 0 <= i < at ==> bytes@[i] != 0,
            decreases bytes.len() - at,
        {
            if bytes[at] == 0 {
                return None;
            }
            at += 1;
        }
        Some(CBytes { bytes })
    }

    /// The bytes of the string, without the terminating NUL.
    pub fn as_bytes(&self) -> (bytes: &[u8])
        ensures
            bytes@ == self@,
            nul_free(bytes@),
    {
        proof {
            use_type_invariant(self);
        }
        self.bytes.as_slice()
    }

    /// Gives the bytes back, without the terminating NUL.
    pub fn into_bytes(self) -> (bytes: Vec<u8>)
        ensures
            bytes@ == self@,
            nul_free(bytes@),
    {
        proof {
            use_type_invariant(&self);
        }
        self.bytes
    }
}

impl Clone for CBytes {
    fn clone(&self) -> (copy: CBytes)
        ensures
            copy@ == self@,
    {
        proof {
            use_type_invariant(self);
        }
        CBytes { bytes: self.bytes.clone() }
    }
}

/// Soft failures: conditions under which a hook declines to handle a call.
///
/// A bypass is never an error. It is a decision taken once, for the call at
/// hand: the caller runs the native operation with the same arguments, on
/// the same thread, and the host process cannot tell that a hook was there.
/// The reasons are not ordered by importance; the first one met while a call
/// is handled ends the handling.
#[derive(Debug, Clone, PartialEq, Eq, PartialOrd, Ord, Hash)]
pub enum Bypass {
    /// The socket port is one that is to be left alone.
    Port(u16),
    /// The socket type is none of the kinds that are handled.
    Type(i32),
    /// The socket domain is invalid, or one that is not handled.
    Domain(i32),
    /// A unix socket whose address is not set up to be connected remotely.
    UnixSocket(Option<String>),
    /// The descriptor is in neither the table of open files nor that of sockets.
    LocalFdNotFound(RawFd),
    /// The directory stream is not in the table of open directories.
    LocalDirStreamNotFound(usize),
    /// A socket address could not be converted.
    AddressConversion,
    /// The socket behind the descriptor is in the wrong state for the operation.
    InvalidState(RawFd),
    /// A C string did not hold valid UTF-8.
    CStrConversion,
    /// The file is to be ignored.
    IgnoredFile(CBytes),
    /// The operation handles absolute paths only, and this one is relative.
    RelativePath(CBytes),
    /// File operations are read-only, and this one needs more than that.
    ReadOnly(PathBuf),
    /// A write was asked for with no buffer to write from.
    EmptyBuffer,
    /// A value that had to be present was absent.
    EmptyOption,
    /// A name lookup was asked for with no node to look up.
    NullNode,
    /// The socket connects to localhost, which is to be left alone.
    IgnoreLocalhost(u16),
    /// A port is bound while there is no target: it is bound locally.
    BindWhenTargetless,
    /// Outgoing traffic to this target is switched off.
    DisabledOutgoing,
    /// Incoming traffic is switched off.
    DisabledIncoming,
    /// The host name is to be resolved locally.
    LocalHostname,
    /// The DNS query is to be made locally.
    LocalDns,
    /// The operation is not available, which is no hard error.
    NotImplemented,
    /// Opening the file was forced to happen locally.
    OpenLocal,
}

impl Bypass {
    /// The reason for a relative path where an absolute one is needed.
    ///
    /// The path is kept as a C string, so it may hold no NUL byte.
    pub fn relative_path(path: Vec<u8>) -> (reason: Bypass)
        requires
            nul_free(path@),
        ensures
            reason matches Bypass::RelativePath(kept) && kept@ == path@,
    {
        Bypass::RelativePath(CBytes { bytes: path })
    }

    /// The reason for a file that is to be ignored.
    ///
    /// The path is kept as a C string, so it may hold no NUL byte.
    pub fn ignored_file(path: Vec<u8>) -> (reason: Bypass)
        requires
            nul_free(path@),
        ensures
            reason matches Bypass::IgnoredFile(kept) && kept@ == path@,
    {
        Bypass::IgnoredFile(CBytes { bytes: path })
    }
}

} // verus!
