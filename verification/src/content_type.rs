//! The closed content-type classification: each declared asset carries a
//! semantic type drawn from a fixed set, which determines the MIME string
//! served. The classification comes from the declaration, never from
//! inspecting the file's bytes.

use vstd::prelude::*;

verus! {

/// The closed set of semantic asset types.
#[derive(Clone, Copy, Debug, PartialEq, Eq, Structural)]
pub enum ContentType {
    /// Served as `text/javascript`.
    Script,
    /// Served as `text/css`.
    Stylesheet,
    /// Served as `application/wasm`.
    WasmModule,
    /// Served as `application/octet-stream`.
    Binary,
}

/// Failures of declaration processing and registry construction.
#[derive(Clone, Copy, Debug, PartialEq, Eq, Structural)]
pub enum RegistryError {
    /// Two declared assets share one request path.
    DuplicatePath,
    /// A declared semantic type is not in the closed classification table.
    UnsupportedContentType,
}

impl ContentType {
    /// The MIME string served for this semantic type.
    pub open spec fn spec_mime(self) -> Seq<char> {
        match self {
            ContentType::Script => "text/javascript"@,
            ContentType::Stylesheet => "text/css"@,
            ContentType::WasmModule => "application/wasm"@,
            ContentType::Binary => "application/octet-stream"@,
        }
    }

    /// Returns the MIME string served for this semantic type.
    pub fn mime(&self) -> (r: &'static str)
        ensures
            r@ == self.spec_mime(),
    {
        match self {
            ContentType::Script => "text/javascript",
            ContentType::Stylesheet => "text/css",
            ContentType::WasmModule => "application/wasm",
            ContentType::Binary => "application/octet-stream",
        }
    }

    /// What classifying a semantic-type name yields: the matching variant for
    /// each name in the closed table, and an error for every other name.
    pub open spec fn spec_classify(name: Seq<char>) -> Result<ContentType, RegistryError> {
        if name == "script"@ {
            Ok(ContentType::Script)
        } else if name == "stylesheet"@ {
            Ok(ContentType::Stylesheet)
        } else if name == "wasm-module"@ {
            Ok(ContentType::WasmModule)
        } else if name == "binary"@ {
            Ok(ContentType::Binary)
        } else {
            Err(RegistryError::UnsupportedContentType)
        }
    }

    /// Classifies a declared semantic-type name. Succeeds exactly on the
    /// names of the closed table; any other name is a declaration error that
    /// must keep a registry from being built.
    pub fn classify(name: &str) -> (r: Result<ContentType, RegistryError>)
        ensures
            r == Self::spec_classify(name@),
    {
        let n: String = name.to_owned();
        if n.eq(&"script".to_owned()) {
            Ok(ContentType::Script)
        } else if n.eq(&"stylesheet".to_owned()) {
            Ok(ContentType::Stylesheet)
        } else if n.eq(&"wasm-module".to_owned()) {
            Ok(ContentType::WasmModule)
        } else if n.eq(&"binary".to_owned()) {
            Ok(ContentType::Binary)
        } else {
            Err(RegistryError::UnsupportedContentType)
        }
    }
}

/// The MIME strings of distinct semantic types are distinct; in particular a
/// script and a stylesheet are served under different content types even when
/// their bytes coincide.
pub proof fn lemma_mime_distinct(a: ContentType, b: ContentType)
    requires
        a != b,
    ensures
        a.spec_mime() != b.spec_mime(),
{
    reveal_strlit("text/javascript");
    reveal_strlit("text/css");
    reveal_strlit("application/wasm");
    reveal_strlit("application/octet-stream");
    assert("text/javascript"@.len() == 15);
    assert("text/css"@.len() == 8);
    assert("application/wasm"@.len() == 16);
    assert("application/octet-stream"@.len() == 24);
}

} // verus!
