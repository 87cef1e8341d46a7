use static_stash::content_type::{ContentType, RegistryError};
use static_stash::decimal::u64_to_decimal;

#[test]
fn mime_strings_follow_the_closed_table() {
    assert_eq!(ContentType::Script.mime(), "text/javascript");
    assert_eq!(ContentType::Stylesheet.mime(), "text/css");
    assert_eq!(ContentType::WasmModule.mime(), "application/wasm");
    assert_eq!(ContentType::Binary.mime(), "application/octet-stream");
}

#[test]
fn classify_accepts_each_semantic_type_name() {
    assert_eq!(ContentType::classify("script"), Ok(ContentType::Script));
    assert_eq!(ContentType::classify("stylesheet"), Ok(ContentType::Stylesheet));
    assert_eq!(ContentType::classify("wasm-module"), Ok(ContentType::WasmModule));
    assert_eq!(ContentType::classify("binary"), Ok(ContentType::Binary));
}

#[test]
fn classify_rejects_unknown_semantic_type_names() {
    assert_eq!(
        ContentType::classify("font"),
        Err(RegistryError::UnsupportedContentType)
    );
    assert_eq!(
        ContentType::classify(""),
        Err(RegistryError::UnsupportedContentType)
    );
    assert_eq!(
        ContentType::classify("Script"),
        Err(RegistryError::UnsupportedContentType)
    );
}

#[test]
fn decimal_rendering_matches_std_formatting() {
    assert_eq!(u64_to_decimal(0).as_str(), "0");
    assert_eq!(u64_to_decimal(7).as_str(), "7");
    assert_eq!(u64_to_decimal(10).as_str(), "10");
    assert_eq!(u64_to_decimal(13915677119532516144).as_str(), "13915677119532516144");
    assert_eq!(u64_to_decimal(u64::MAX).as_str(), "18446744073709551615");
    assert_eq!(u64_to_decimal(12345).as_str(), format!("{}", 12345u64));
}
