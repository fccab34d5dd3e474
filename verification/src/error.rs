//! Errors of loading a registry from files.
use vstd::prelude::*;

verus! {

/// `std::io::Error`, carried through the library as an opaque value.
#[verifier::external_type_specification]
#[verifier::external_body]
pub struct ExIoError(std::io::Error);

/// Why loading a registry from files failed.
#[derive(Debug)]
pub enum RegistryDeserializeError<D> {
    /// Reading the file system failed.
    Io(std::io::Error),
    /// A file's contents could not be read as the expected data.
    Deserialize(D),
}

impl<D> From<std::io::Error> for RegistryDeserializeError<D> {
    fn from(value: std::io::Error) -> (r: Self)
        ensures
            r == RegistryDeserializeError::<D>::Io(value),
    {
        RegistryDeserializeError::Io(value)
    }
}

impl<D> vstd::std_specs::convert::FromSpecImpl<std::io::Error> for RegistryDeserializeError<D> {
    open spec fn obeys_from_spec() -> bool {
        true
    }

    open spec fn from_spec(value: std::io::Error) -> Self {
        RegistryDeserializeError::Io(value)
    }
}

} // verus!
