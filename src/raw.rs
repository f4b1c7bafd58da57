//! The primitives between the operating system's loader and the safe layers:
//! encoding a name for the loader, reading the loader's answers to opening a
//! library and to looking up a symbol, the pointer-size rule, the three-way
//! outcome of resolving a symbol, and the record of a reverse address lookup.
use vstd::prelude::*;
use vstd::layout::size_of;

use crate::err::Error;

verus! {

/// An opaque token for one opened library, as the loader handed it out.
pub type Handle = usize;

/// Whether a byte string holds a zero byte anywhere.
pub open spec fn has_zero_byte(s: Seq<u8>) -> bool {
    exists|i: int| 0 <= i < s.len() && s[i] == 0
}

/// The size that a type must have for a symbol to be read as it.
pub open spec fn pointer_size() -> nat {
    size_of::<usize>()
}

/// What resolving a symbol yields, given what the loader answered for its
/// name: a found, non-null address is the value; a found address of zero is
/// `NullSymbol`; a failed lookup is passed on as it is.
pub open spec fn spec_classify(raw: Result<usize, Error>) -> Result<usize, Error> {
    match raw {
        Ok(a) => if a == 0 {
            Err(Error::NullSymbol)
        } else {
            Ok(a)
        },
        Err(e) => Err(e),
    }
}

/// Turns a symbol name or a library path into the zero-terminated form that
/// the loader takes: the bytes followed by one zero byte. Bytes that already
/// hold a zero cannot be written so and are refused with `EncodingError`.
pub fn c_string(name: &[u8]) -> (r: Result<Vec<u8>, Error>)
    ensures
        r is Err <==> has_zero_byte(name@),
        r matches Err(e) ==> e == Error::EncodingError,
        r matches Ok(c) ==> c@ == name@.push(0),
{
    let mut out: Vec<u8> = Vec::new();
    let mut i: usize = 0;
    while i < name.len()
        invariant
            i <= name@.len(),
            out@ == name@.subrange(0, i as int),
            forall|j: int| 0 <= j < i ==> name@[j] != 0,
        decreases name@.len() - i,
    {
        let b = name[i];
        if b == 0 {
            return Err(Error::EncodingError);
        }
        out.push(b);
        i = i + 1;
        assert(out@ =~= name@.subrange(0, i as int));
    }
    assert(out@ =~= name@);
    out.push(0);
    Ok(out)
}

/// Checks, before any lookup is made, that a symbol is requested as a type
/// of the size of a pointer: `SizeMismatch` if not.
pub fn check_pointer_size(type_size: usize) -> (r: Result<(), Error>)
    ensures
        r is Ok <==> type_size == pointer_size(),
        r matches Err(e) ==> e == Error::SizeMismatch,
{
    if type_size == core::mem::size_of::<usize>() {
        Ok(())
    } else {
        Err(Error::SizeMismatch)
    }
}

/// Resolves a symbol from the loader's answer for its name, keeping the
/// three outcomes apart: found and non-null, found but null, not found.
pub fn classify_symbol(raw: Result<usize, Error>) -> (r: Result<usize, Error>)
    ensures
        r == spec_classify(raw),
{
    match raw {
        Ok(a) => if a == 0 {
            Err(Error::NullSymbol)
        } else {
            Ok(a)
        },
        Err(e) => Err(e),
    }
}

/// What the loader's answer for a symbol means: a null address together with
/// a message from the loader is a name that the library does not export; a
/// null address without one is a symbol whose value is null, found like any
/// other.
pub open spec fn spec_symbol_lookup(addr: usize, loader_error: Option<String>) -> Result<
    usize,
    Error,
> {
    match loader_error {
        Some(m) => if addr == 0 {
            Err(Error::SymbolNotFound(m))
        } else {
            Ok(addr)
        },
        None => Ok(addr),
    }
}

/// Reads the loader's answer for a symbol: the address it returned, and the
/// message it left, if any. A missing symbol is `SymbolNotFound`; a null
/// value is found, with address zero, and judged by the layers above.
pub fn symbol_lookup(addr: usize, loader_error: Option<String>) -> (r: Result<usize, Error>)
    ensures
        r == spec_symbol_lookup(addr, loader_error),
{
    match loader_error {
        Some(m) => if addr == 0 {
            Err(Error::SymbolNotFound(m))
        } else {
            Ok(addr)
        },
        None => Ok(addr),
    }
}

/// Reads the loader's answer to opening a library: the handle it returned
/// and the message it left, if any. A null handle is `OpenError` with the
/// loader's message, or an empty one where it left none.
pub fn open_result(handle: usize, loader_error: Option<String>) -> (r: Result<Handle, Error>)
    ensures
        r is Ok <==> handle != 0,
        r matches Ok(h) ==> h == handle,
        r matches Err(e) ==> e matches Error::OpenError(m) && match loader_error {
            Some(l) => m == l,
            None => m@ == Seq::<char>::empty(),
        },
{
    if handle != 0 {
        Ok(handle)
    } else {
        match loader_error {
            Some(m) => Err(Error::OpenError(m)),
            None => Err(Error::OpenError(String::new())),
        }
    }
}

/// A name that the library does not export, as the loader reports it, is
/// resolved as `SymbolNotFound` with the loader's message, and never as a
/// value.
pub proof fn lemma_absent_symbol_not_found(message: String)
    ensures
        spec_classify(spec_symbol_lookup(0, Some(message))) == Err::<usize, Error>(
            Error::SymbolNotFound(message),
        ),
{
}

/// A symbol that the library exports with the null value is resolved as
/// `NullSymbol`, which is never mistaken for `SymbolNotFound`.
pub proof fn lemma_null_symbol_distinct()
    ensures
        spec_classify(spec_symbol_lookup(0, None)) == Err::<usize, Error>(Error::NullSymbol),
        !(spec_classify(spec_symbol_lookup(0, None)) matches Err(Error::SymbolNotFound(_))),
{
}

/// The exported symbol that an address falls into.
#[derive(Debug, PartialEq, Eq)]
pub struct OverlappingSymbol {
    /// The symbol's name.
    pub name: String,
    /// The symbol's address.
    pub addr: usize,
}

/// What a reverse lookup found out about an address.
#[derive(Debug, PartialEq, Eq)]
pub struct AddressInfo {
    /// Path of the module that holds the address.
    pub dll_path: String,
    /// Base address of that module.
    pub dll_base_addr: usize,
    /// The exported symbol that the address falls into, where the loader
    /// could name one.
    pub overlapping_symbol: Option<OverlappingSymbol>,
}

impl AddressInfo {
    /// Assembles the record from the loader's answer: the module's path and
    /// base, and the nearest symbol's name and address. The symbol is kept
    /// only where the loader gave both a name and a non-null address.
    pub fn from_loader(
        dll_path: String,
        dll_base_addr: usize,
        symbol_name: Option<String>,
        symbol_addr: usize,
    ) -> (r: AddressInfo)
        ensures
            r.dll_path == dll_path,
            r.dll_base_addr == dll_base_addr,
            r.overlapping_symbol is Some <==> (symbol_name is Some && symbol_addr != 0),
            r.overlapping_symbol matches Some(s) ==> symbol_name == Some(s.name) && s.addr
                == symbol_addr,
    {
        let overlapping_symbol = match symbol_name {
            Some(name) => if symbol_addr == 0 {
                None
            } else {
                Some(OverlappingSymbol { name, addr: symbol_addr })
            },
            None => None,
        };
        AddressInfo { dll_path, dll_base_addr, overlapping_symbol }
    }
}

} // verus!
