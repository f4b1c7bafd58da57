use vstd::prelude::*;

verus! {

/// Everything that can go wrong while opening a library, resolving a symbol
/// or looking up an address.
#[derive(Debug, PartialEq, Eq)]
pub enum Error {
    /// The loader refused to open the library; the loader's message.
    OpenError(String),
    /// The library exports no symbol of that name; the loader's message.
    SymbolNotFound(String),
    /// The symbol exists, but its value is the null address.
    NullSymbol,
    /// The requested type does not have the size of a pointer.
    SizeMismatch,
    /// The address belongs to no loaded module; the loader's message.
    AddressLookupError(String),
    /// The symbol name holds a zero byte and cannot be handed to the loader.
    EncodingError,
}

impl Clone for Error {
    fn clone(&self) -> (r: Self)
        ensures
            r == *self,
    {
        match self {
            Error::OpenError(m) => Error::OpenError(m.clone()),
            Error::SymbolNotFound(m) => Error::SymbolNotFound(m.clone()),
            Error::NullSymbol => Error::NullSymbol,
            Error::SizeMismatch => Error::SizeMismatch,
            Error::AddressLookupError(m) => Error::AddressLookupError(m.clone()),
            Error::EncodingError => Error::EncodingError,
        }
    }
}

} // verus!
