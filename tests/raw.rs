use dlopen2::raw::{
    c_string, check_pointer_size, classify_symbol, open_result, symbol_lookup, AddressInfo,
    OverlappingSymbol,
};
use dlopen2::Error;

#[test]
fn symbol_name_gets_terminator() {
    let c = c_string(b"c_fun_add_two").unwrap();
    assert_eq!(c, b"c_fun_add_two\0".to_vec());
}

#[test]
fn empty_symbol_name_is_just_terminator() {
    assert_eq!(c_string(b"").unwrap(), vec![0u8]);
}

#[test]
fn symbol_name_with_zero_byte_is_refused() {
    assert_eq!(c_string(b"rust\0i32"), Err(Error::EncodingError));
    assert_eq!(c_string(b"\0"), Err(Error::EncodingError));
}

#[test]
fn pointer_sized_request_is_accepted() {
    assert_eq!(check_pointer_size(std::mem::size_of::<usize>()), Ok(()));
    assert_eq!(check_pointer_size(std::mem::size_of::<fn(i32) -> i32>()), Ok(()));
    assert_eq!(check_pointer_size(std::mem::size_of::<&i32>()), Ok(()));
}

#[test]
fn other_sizes_are_size_mismatch() {
    assert_eq!(check_pointer_size(0), Err(Error::SizeMismatch));
    assert_eq!(check_pointer_size(2 * std::mem::size_of::<usize>()), Err(Error::SizeMismatch));
    assert_eq!(check_pointer_size(std::mem::size_of::<u8>()), Err(Error::SizeMismatch));
}

#[test]
fn found_symbol_resolves_to_its_address() {
    assert_eq!(classify_symbol(Ok(0x7f00_1234)), Ok(0x7f00_1234));
    assert_eq!(classify_symbol(Ok(1)), Ok(1));
}

#[test]
fn missing_symbol_is_symbol_not_found() {
    let raw = Err(Error::SymbolNotFound("undefined symbol: no_such_fn".to_string()));
    assert_eq!(
        classify_symbol(raw),
        Err(Error::SymbolNotFound("undefined symbol: no_such_fn".to_string()))
    );
}

#[test]
fn null_symbol_is_distinct_from_missing() {
    let r = classify_symbol(Ok(0));
    assert_eq!(r, Err(Error::NullSymbol));
    assert!(!matches!(r, Err(Error::SymbolNotFound(_))));
}

#[test]
fn other_lookup_errors_pass_through() {
    assert_eq!(classify_symbol(Err(Error::EncodingError)), Err(Error::EncodingError));
    assert_eq!(
        classify_symbol(Err(Error::OpenError("no such file".to_string()))),
        Err(Error::OpenError("no such file".to_string()))
    );
}

#[test]
fn address_info_names_module_and_symbol() {
    let info = AddressInfo::from_loader(
        "/tmp/libexample.so".to_string(),
        0x7f00_0000,
        Some("c_fun_add_two".to_string()),
        0x7f00_1200,
    );
    assert_eq!(info.dll_path, "/tmp/libexample.so");
    assert_eq!(info.dll_base_addr, 0x7f00_0000);
    let os = info.overlapping_symbol.unwrap();
    assert_eq!(os.name, "c_fun_add_two");
    assert_eq!(os.addr, 0x7f00_1200);
}

#[test]
fn address_info_without_symbol_name() {
    let info = AddressInfo::from_loader("/usr/lib/libm.so.6".to_string(), 0x1000, None, 0x1200);
    assert_eq!(info.dll_path, "/usr/lib/libm.so.6");
    assert_eq!(info.overlapping_symbol, None);
}

#[test]
fn address_info_with_null_symbol_address() {
    let info =
        AddressInfo::from_loader("/usr/lib/libm.so.6".to_string(), 0x1000, Some("sin".to_string()), 0);
    assert_eq!(info.overlapping_symbol, None);
}

#[test]
fn address_info_from_same_answer_is_identical() {
    let first = AddressInfo::from_loader(
        "/tmp/libexample.so".to_string(),
        0x5000,
        Some("rust_fun_add_one".to_string()),
        0x5100,
    );
    let second = AddressInfo::from_loader(
        "/tmp/libexample.so".to_string(),
        0x5000,
        Some("rust_fun_add_one".to_string()),
        0x5100,
    );
    assert_eq!(first.dll_path, second.dll_path);
    assert_eq!(first.dll_base_addr, second.dll_base_addr);
    assert_eq!(
        second.overlapping_symbol,
        Some(OverlappingSymbol { name: "rust_fun_add_one".to_string(), addr: 0x5100 })
    );
}

#[test]
fn error_clone_is_equal() {
    let e = Error::AddressLookupError("not in any module".to_string());
    assert_eq!(e.clone(), e);
    assert_eq!(Error::NullSymbol.clone(), Error::NullSymbol);
}

#[test]
fn loader_error_with_null_address_is_not_found() {
    let r = symbol_lookup(0, Some("undefined symbol: nope".to_string()));
    assert_eq!(r, Err(Error::SymbolNotFound("undefined symbol: nope".to_string())));
    assert_eq!(
        classify_symbol(r),
        Err(Error::SymbolNotFound("undefined symbol: nope".to_string()))
    );
}

#[test]
fn null_address_without_error_is_found_null() {
    let r = symbol_lookup(0, None);
    assert_eq!(r, Ok(0));
    assert_eq!(classify_symbol(r), Err(Error::NullSymbol));
}

#[test]
fn found_address_ignores_stale_message() {
    assert_eq!(symbol_lookup(0x7000, None), Ok(0x7000));
    assert_eq!(symbol_lookup(0x7000, Some("old message".to_string())), Ok(0x7000));
}

#[test]
fn open_result_keeps_handle() {
    assert_eq!(open_result(0x5555_0000, None), Ok(0x5555_0000));
    assert_eq!(open_result(0x5555_0000, Some("ignored".to_string())), Ok(0x5555_0000));
}

#[test]
fn open_result_null_handle_is_open_error() {
    assert_eq!(
        open_result(0, Some("libnothere.so: cannot open shared object file".to_string())),
        Err(Error::OpenError("libnothere.so: cannot open shared object file".to_string()))
    );
    assert_eq!(open_result(0, None), Err(Error::OpenError(String::new())));
}
