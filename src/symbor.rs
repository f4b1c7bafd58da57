//! The borrow-style API: symbol values that the caller holds as long as the
//! library lives, and a container that bundles a library with any value
//! loaded from it.
use vstd::prelude::*;

use crate::err::Error;
use crate::raw::Handle;
use crate::wrapper::LoadFailure;

verus! {

/// A pointer read from a library that may be null.
#[derive(Clone, Copy, Debug, PartialEq, Eq, Structural)]
pub struct PtrOrNull {
    pointer: usize,
}

impl View for PtrOrNull {
    type V = usize;

    closed spec fn view(&self) -> usize {
        self.pointer
    }
}

impl PtrOrNull {
    /// Wraps a pointer value, null or not.
    pub fn new(pointer: usize) -> (r: PtrOrNull)
        ensures
            r@ == pointer,
    {
        PtrOrNull { pointer }
    }

    /// The pointer value.
    pub fn pointer(&self) -> (r: usize)
        ensures
            r == self@,
    {
        self.pointer
    }

    /// Whether the pointer is null.
    pub fn is_null(&self) -> (r: bool)
        ensures
            r == (self@ == 0),
    {
        self.pointer == 0
    }

    /// Reads a symbol whose value may be null from the loader's answer for
    /// its name: a found symbol is kept, null or not; a failed lookup is
    /// passed on.
    pub fn from_raw_result(raw: Result<usize, Error>) -> (r: Result<PtrOrNull, Error>)
        ensures
            r matches Ok(p) ==> raw == Ok::<usize, Error>(p@),
            r matches Err(e) ==> raw == Err::<usize, Error>(e),
            r is Ok <==> raw is Ok,
    {
        match raw {
            Ok(a) => Ok(PtrOrNull { pointer: a }),
            Err(e) => Err(e),
        }
    }
}

/// Makes a symbol optional: what loaded is present, and any failure at all
/// leaves it absent.
pub fn optional<T>(loaded: Result<T, Error>) -> (r: Option<T>)
    ensures
        r is Some <==> loaded is Ok,
        r matches Some(v) ==> loaded == Ok::<T, Error>(v),
{
    match loaded {
        Ok(v) => Some(v),
        Err(_) => None,
    }
}

/// A library bundled with a value loaded from it, so that the two are
/// released together.
#[derive(Debug, PartialEq, Eq)]
pub struct Container<T> {
    handle: Handle,
    api: T,
}

impl<T> Container<T> {
    /// The handle of the library that the container holds.
    pub closed spec fn spec_handle(&self) -> Handle {
        self.handle
    }

    /// The value loaded from the library.
    pub closed spec fn spec_api(&self) -> T {
        self.api
    }

    /// Bundles an opened library with the outcome of loading a value from
    /// it. Where the loading failed, no container is made, and the failure
    /// hands the library back to be unloaded.
    pub fn assemble(handle: Handle, loaded: Result<T, Error>) -> (r: Result<Container<T>, LoadFailure>)
        ensures
            r is Ok <==> loaded is Ok,
            r matches Ok(c) ==> c.spec_handle() == handle && loaded == Ok::<T, Error>(c.spec_api()),
            r matches Err(f) ==> f.release == handle && loaded == Err::<T, Error>(f.error),
    {
        match loaded {
            Ok(api) => Ok(Container { handle, api }),
            Err(error) => Err(LoadFailure { error, release: handle }),
        }
    }

    /// The loaded value.
    pub fn api(&self) -> (r: &T)
        ensures
            *r == self.spec_api(),
    {
        &self.api
    }

    /// The loaded value, for changing; the library stays as it is.
    pub fn api_mut(&mut self) -> (r: &mut T)
        ensures
            *r == old(self).spec_api(),
            final(self).spec_api() == *final(r),
            final(self).spec_handle() == old(self).spec_handle(),
    {
        &mut self.api
    }

    /// The raw handle of the library; the container keeps owning it.
    pub fn into_raw(&self) -> (r: Handle)
        ensures
            r == self.spec_handle(),
    {
        self.handle
    }
}

} // verus!
