//! Containers that keep a library and the API loaded from it together, so
//! that the API's values are released with the library and never outlive
//! it.
use vstd::prelude::*;

use crate::api::{load_outcome, ApiDescriptor, LoadedApi, Resolved};
use crate::err::Error;
use crate::raw::Handle;

verus! {

/// A failed assembly: the error, and the handle of the library, which must
/// now be unloaded.
#[derive(Debug, PartialEq, Eq)]
pub struct LoadFailure {
    /// Why the API could not be loaded.
    pub error: Error,
    /// The library to unload.
    pub release: Handle,
}

/// A library together with its API, every field of which loaded.
#[derive(Debug, PartialEq, Eq)]
pub struct Container {
    handle: Handle,
    api: LoadedApi,
}

impl Container {
    /// The handle of the library that the container holds.
    pub closed spec fn spec_handle(&self) -> Handle {
        self.handle
    }

    /// The values of the API's fields.
    pub closed spec fn spec_api(&self) -> Seq<Resolved> {
        self.api@
    }

    /// Assembles a container from an opened library and what the loader
    /// answered for each of the API's symbols. Where any field fails, no
    /// container is made, and the failure hands the library back to be
    /// unloaded.
    pub fn assemble(handle: Handle, api: &ApiDescriptor, lookups: &Vec<Result<usize, Error>>) -> (r:
        Result<Container, LoadFailure>)
        requires
            lookups@.len() == api@.len(),
        ensures
            r is Ok <==> load_outcome(api@, lookups@) is Ok,
            r matches Ok(c) ==> c.spec_handle() == handle && load_outcome(api@, lookups@) == Ok::<
                Seq<Resolved>,
                Error,
            >(c.spec_api()),
            r matches Err(f) ==> f.release == handle && load_outcome(api@, lookups@) == Err::<
                Seq<Resolved>,
                Error,
            >(f.error),
    {
        match api.load(lookups) {
            Ok(loaded) => Ok(Container { handle, api: loaded }),
            Err(error) => Err(LoadFailure { error, release: handle }),
        }
    }

    /// The loaded API.
    pub fn api(&self) -> (r: &LoadedApi)
        ensures
            r@ == self.spec_api(),
    {
        &self.api
    }

    /// The raw handle of the library; the container keeps owning it.
    pub fn into_raw(&self) -> (r: Handle)
        ensures
            r == self.spec_handle(),
    {
        self.handle
    }
}

/// A library together with an API that it must have and a second one that
/// it may lack.
#[derive(Debug, PartialEq, Eq)]
pub struct OptionalContainer {
    handle: Handle,
    api: LoadedApi,
    optional: Option<LoadedApi>,
}

impl OptionalContainer {
    /// The handle of the library that the container holds.
    pub closed spec fn spec_handle(&self) -> Handle {
        self.handle
    }

    /// The values of the mandatory API's fields.
    pub closed spec fn spec_api(&self) -> Seq<Resolved> {
        self.api@
    }

    /// The optional API, where it loaded.
    pub closed spec fn spec_optional(&self) -> Option<LoadedApi> {
        self.optional
    }

    /// Assembles a container from an opened library and what the loader
    /// answered for the symbols of both APIs. It succeeds exactly when the
    /// mandatory API loads, whatever became of the optional one; the
    /// optional API is present exactly when all its fields load.
    pub fn assemble(
        handle: Handle,
        api: &ApiDescriptor,
        lookups: &Vec<Result<usize, Error>>,
        optional: &ApiDescriptor,
        optional_lookups: &Vec<Result<usize, Error>>,
    ) -> (r: Result<OptionalContainer, LoadFailure>)
        requires
            lookups@.len() == api@.len(),
            optional_lookups@.len() == optional@.len(),
        ensures
            r is Ok <==> load_outcome(api@, lookups@) is Ok,
            r matches Ok(c) ==> {
                &&& c.spec_handle() == handle
                &&& load_outcome(api@, lookups@) == Ok::<Seq<Resolved>, Error>(c.spec_api())
                &&& c.spec_optional() is Some <==> load_outcome(optional@, optional_lookups@) is Ok
                &&& c.spec_optional() matches Some(o) ==> load_outcome(optional@, optional_lookups@)
                    == Ok::<Seq<Resolved>, Error>(o@)
            },
            r matches Err(f) ==> f.release == handle && load_outcome(api@, lookups@) == Err::<
                Seq<Resolved>,
                Error,
            >(f.error),
    {
        match api.load(lookups) {
            Ok(loaded) => {
                let extra = optional.load_optional(optional_lookups);
                Ok(OptionalContainer { handle, api: loaded, optional: extra })
            },
            Err(error) => Err(LoadFailure { error, release: handle }),
        }
    }

    /// The mandatory API.
    pub fn api(&self) -> (r: &LoadedApi)
        ensures
            r@ == self.spec_api(),
    {
        &self.api
    }

    /// The optional API, where it loaded.
    pub fn optional(&self) -> (r: &Option<LoadedApi>)
        ensures
            *r == self.spec_optional(),
    {
        &self.optional
    }

    /// The optional API, for changing; the library and the mandatory API
    /// stay as they are.
    pub fn optional_mut(&mut self) -> (r: &mut Option<LoadedApi>)
        ensures
            *r == old(self).spec_optional(),
            final(self).spec_optional() == *final(r),
            final(self).spec_handle() == old(self).spec_handle(),
            final(self).spec_api() == old(self).spec_api(),
    {
        &mut self.optional
    }

    /// The raw handle of the library; the container keeps owning it.
    pub fn into_raw(&self) -> (r: Handle)
        ensures
            r == self.spec_handle(),
    {
        self.handle
    }
}

} // verus!
