//! The library's error type.
use vstd::prelude::*;

verus! {

/// The main error type. Each protocol layer has its own error kinds, carried
/// inside it.
#[derive(Debug, Clone, Copy, PartialEq, Eq, Structural)]
pub enum Error {
    NotFound,
    NotSupported,
    MalformedFrame,
    Timeout,
    Disconnected,
    IsoTPError(crate::isotp::Error),
    UDSError(crate::uds::Error),
    PandaError(crate::panda::Error),
}

impl From<crate::isotp::Error> for Error {
    fn from(e: crate::isotp::Error) -> (r: Error) {
        Error::IsoTPError(e)
    }
}

impl vstd::std_specs::convert::FromSpecImpl<crate::isotp::Error> for Error {
    open spec fn obeys_from_spec() -> bool {
        true
    }

    open spec fn from_spec(e: crate::isotp::Error) -> Error {
        Error::IsoTPError(e)
    }
}

impl From<crate::uds::Error> for Error {
    fn from(e: crate::uds::Error) -> (r: Error) {
        Error::UDSError(e)
    }
}

impl vstd::std_specs::convert::FromSpecImpl<crate::uds::Error> for Error {
    open spec fn obeys_from_spec() -> bool {
        true
    }

    open spec fn from_spec(e: crate::uds::Error) -> Error {
        Error::UDSError(e)
    }
}

impl From<crate::panda::Error> for Error {
    fn from(e: crate::panda::Error) -> (r: Error) {
        Error::PandaError(e)
    }
}

impl vstd::std_specs::convert::FromSpecImpl<crate::panda::Error> for Error {
    open spec fn obeys_from_spec() -> bool {
        true
    }

    open spec fn from_spec(e: crate::panda::Error) -> Error {
        Error::PandaError(e)
    }
}

} // verus!
