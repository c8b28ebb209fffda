//! Platform resolver, loader, diagnostic-trace, and JSON-merge checks.

use teradatarustapi::platform::{ArchKind, OsKind};
use teradatarustapi::{
    abbreviate_stack_trace, arch_kind_of, build_metadata_json, escape_json, fips_enabled_from,
    library_file_name, os_kind_of, required_symbols, resolve_suffix, LoadError, SymbolRegistry,
    SymbolScan,
};

fn suffix(os: OsKind, arch: ArchKind, bits: u32, fips: bool) -> String {
    resolve_suffix(os, arch, bits, fips)
}

#[test]
fn suffix_windows_32_bit() {
    assert_eq!(suffix(OsKind::Windows, ArchKind::Other, 32, false), "x86.dll");
}

#[test]
fn suffix_windows_64_bit() {
    assert_eq!(suffix(OsKind::Windows, ArchKind::Other, 64, false), "dll");
}

#[test]
fn suffix_macos() {
    assert_eq!(suffix(OsKind::MacOs, ArchKind::Arm, 64, false), "dylib");
}

#[test]
fn suffix_aix() {
    assert_eq!(suffix(OsKind::Aix, ArchKind::Power, 64, false), "aix.so");
}

#[test]
fn suffix_arm_fips() {
    assert_eq!(suffix(OsKind::OtherUnix, ArchKind::Arm, 64, true), "arm.fips.so");
}

#[test]
fn suffix_arm() {
    assert_eq!(suffix(OsKind::OtherUnix, ArchKind::Arm, 64, false), "arm.so");
}

#[test]
fn suffix_power() {
    assert_eq!(suffix(OsKind::OtherUnix, ArchKind::Power, 64, false), "power.so");
}

#[test]
fn suffix_unix_32_bit() {
    assert_eq!(suffix(OsKind::OtherUnix, ArchKind::Other, 32, false), "x86.so");
}

#[test]
fn suffix_fips_only() {
    assert_eq!(suffix(OsKind::OtherUnix, ArchKind::Other, 64, true), "fips.so");
}

#[test]
fn suffix_default() {
    assert_eq!(suffix(OsKind::OtherUnix, ArchKind::Other, 64, false), "so");
}

#[test]
fn suffix_is_deterministic() {
    for _ in 0..3 {
        assert_eq!(
            suffix(OsKind::OtherUnix, ArchKind::Arm, 64, true),
            suffix(OsKind::OtherUnix, ArchKind::Arm, 64, true)
        );
    }
}

#[test]
fn file_name_uses_suffix() {
    assert_eq!(
        library_file_name(OsKind::OtherUnix, ArchKind::Other, 64, false),
        "teradatasql.so"
    );
    assert_eq!(
        library_file_name(OsKind::Windows, ArchKind::Other, 64, false),
        "teradatasql.dll"
    );
}

#[test]
fn os_classification() {
    assert!(matches!(os_kind_of("windows"), OsKind::Windows));
    assert!(matches!(os_kind_of("macos"), OsKind::MacOs));
    assert!(matches!(os_kind_of("aix"), OsKind::Aix));
    assert!(matches!(os_kind_of("linux"), OsKind::OtherUnix));
    assert!(matches!(os_kind_of("freebsd"), OsKind::OtherUnix));
}

#[test]
fn arch_classification() {
    assert!(matches!(arch_kind_of("arm"), ArchKind::Arm));
    assert!(matches!(arch_kind_of("armv7"), ArchKind::Arm));
    assert!(matches!(arch_kind_of("aarch64"), ArchKind::Arm));
    assert!(matches!(arch_kind_of("ppc64le"), ArchKind::Power));
    assert!(matches!(arch_kind_of("x86_64"), ArchKind::Other));
}

#[test]
fn fips_indicator() {
    assert!(fips_enabled_from("1"));
    assert!(fips_enabled_from("1\n"));
    assert!(fips_enabled_from(" 1 "));
    assert!(!fips_enabled_from("0"));
    assert!(!fips_enabled_from(""));
    assert!(!fips_enabled_from("10"));
}

fn full_scan() -> SymbolScan {
    SymbolScan {
        open_error: None,
        found: vec![true; required_symbols().len()],
    }
}

#[test]
fn required_symbols_are_the_fixed_set() {
    let names = required_symbols();
    assert_eq!(
        names,
        vec![
            "goCombineJSON",
            "goParseParams",
            "goCreateConnection",
            "goCloseConnection",
            "goCancelRequest",
            "rustgoCreateRows",
            "rustgoResultMetaData",
            "rustgoFetchRow",
            "goNextResult",
            "goCloseRows",
            "goFreePointer",
        ]
    );
}

#[test]
fn load_succeeds_on_full_scan() {
    let mut reg = SymbolRegistry::new();
    assert!(!reg.is_loaded());
    assert!(reg.load_driver(&full_scan()).is_ok());
    assert!(reg.is_loaded());
}

#[test]
fn second_load_is_rejected() {
    let mut reg = SymbolRegistry::new();
    assert!(reg.load_driver(&full_scan()).is_ok());
    match reg.load_driver(&full_scan()) {
        Err(LoadError::AlreadyLoaded) => {}
        other => panic!("expected AlreadyLoaded, got {:?}", other.is_ok()),
    }
    assert!(reg.is_loaded());
}

#[test]
fn missing_symbol_fails_whole_load() {
    let mut reg = SymbolRegistry::new();
    let mut scan = full_scan();
    scan.found[6] = false;
    match reg.load_driver(&scan) {
        Err(LoadError::LinkError(name)) => assert_eq!(name, "rustgoResultMetaData"),
        _ => panic!("expected LinkError"),
    }
    assert!(!reg.is_loaded());
    // the failed attempt published nothing; a corrected scan may load
    assert!(reg.load_driver(&full_scan()).is_ok());
}

#[test]
fn first_missing_symbol_is_named() {
    let mut reg = SymbolRegistry::new();
    let mut scan = full_scan();
    scan.found[1] = false;
    scan.found[9] = false;
    match reg.load_driver(&scan) {
        Err(LoadError::LinkError(name)) => assert_eq!(name, "goParseParams"),
        _ => panic!("expected LinkError"),
    }
}

#[test]
fn open_failure_is_reported() {
    let mut reg = SymbolRegistry::new();
    let scan = SymbolScan {
        open_error: Some("no such file".to_string()),
        found: vec![false; required_symbols().len()],
    };
    match reg.load_driver(&scan) {
        Err(LoadError::OpenFailed(m)) => assert_eq!(m, "no such file"),
        _ => panic!("expected OpenFailed"),
    }
    assert!(!reg.is_loaded());
}

#[test]
fn stack_trace_abbreviation() {
    let trace = "   0: std::backtrace_rs::backtrace::trace\n   1: myapp::work\n             at /home/u/myapp/src/main.rs:10:5\n   2: myapp::main\n   3: core::ops::function::FnOnce::call_once\n   4: std::rt::lang_start_internal\n   5: should::never::appear\n";
    assert_eq!(
        abbreviate_stack_trace(trace),
        "myapp::main /home/u/myapp/src/main.rs:10:5 myapp::work"
    );
}

#[test]
fn stack_trace_backslashes_become_slashes() {
    let trace = "   1: myapp::work\n             at C:\\work\\myapp\\src\\main.rs:10\n";
    assert_eq!(
        abbreviate_stack_trace(trace),
        "C:/work/myapp/src/main.rs:10 myapp::work"
    );
}

#[test]
fn stack_trace_drops_std_library_locations() {
    let trace = "   1: something::else\n   at /rustc/abc/library/std/src/rt.rs:100\n   at /rustc/abc/library/core/src/ops.rs:5\n";
    assert_eq!(abbreviate_stack_trace(trace), "something::else");
}

#[test]
fn stack_trace_of_empty_input_is_empty() {
    assert_eq!(abbreviate_stack_trace(""), "");
}

#[test]
fn json_escaping() {
    assert_eq!(escape_json("plain"), "plain");
    assert_eq!(escape_json("a\"b"), "a\\\"b");
    assert_eq!(escape_json("a\\b"), "a\\\\b");
    assert_eq!(escape_json("a\nb\tc\r"), "a\\nb\\tc\\r");
    assert_eq!(escape_json("\u{8}\u{c}"), "\\b\\f");
    assert_eq!(escape_json("\u{1}\u{1f}"), "\\u0001\\u001f");
}

#[test]
fn metadata_object_shape() {
    assert_eq!(
        build_metadata_json(""),
        "{\"client_kind\":\"U\",\"client_stack\":\"\"}"
    );
    assert_eq!(
        build_metadata_json("   1: myapp::main\n"),
        "{\"client_kind\":\"U\",\"client_stack\":\"myapp::main\"}"
    );
}
