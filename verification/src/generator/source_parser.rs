//! The extensions that a contract can be generated with.

use vstd::prelude::*;
use crate::generator::tree::{same_str, SourceFile, SourceFileView};

verus! {

/// The capability that an extension adds to a contract.
#[derive(Debug, Clone, Copy, PartialEq, Eq, Hash, Structural)]
pub enum ExtensionKind {
    Metadata,
    Mintable,
    Burnable,
    Wrapper,
    FlashMint,
    Pausable,
    Capped,
    Batch,
    Enumerable,
    Ownable,
    AccessControl,
}

/// An extension as it enters a merge: its kind and its parsed source.
#[derive(Debug, PartialEq, Eq)]
pub struct ExtensionContext {
    pub kind: ExtensionKind,
    pub ast: SourceFile,
}

/// The view of an `ExtensionContext`: its texts as sequences of characters.
pub ghost struct ExtensionContextView {
    pub kind: ExtensionKind,
    pub ast: SourceFileView,
}

impl View for ExtensionContext {
    type V = ExtensionContextView;

    open spec fn view(&self) -> ExtensionContextView {
        ExtensionContextView { kind: self.kind, ast: self.ast@ }
    }
}

impl DeepView for ExtensionContext {
    type V = ExtensionContextView;

    open spec fn deep_view(&self) -> ExtensionContextView {
        self@
    }
}

impl Clone for ExtensionContext {
    fn clone(&self) -> (copy: Self)
        ensures
            copy@ == self@,
    {
        ExtensionContext { kind: self.kind, ast: self.ast.clone() }
    }
}

/// The extension kind that a name stands for, if it is the name of one.
pub open spec fn extension_named(name: Seq<char>) -> Option<ExtensionKind> {
    if name == "metadata"@ {
        Some(ExtensionKind::Metadata)
    } else if name == "mintable"@ {
        Some(ExtensionKind::Mintable)
    } else if name == "burnable"@ {
        Some(ExtensionKind::Burnable)
    } else if name == "wrapper"@ {
        Some(ExtensionKind::Wrapper)
    } else if name == "flash_mint"@ {
        Some(ExtensionKind::FlashMint)
    } else if name == "pausable"@ {
        Some(ExtensionKind::Pausable)
    } else if name == "capped"@ {
        Some(ExtensionKind::Capped)
    } else if name == "batch"@ {
        Some(ExtensionKind::Batch)
    } else if name == "enumerable"@ {
        Some(ExtensionKind::Enumerable)
    } else if name == "security/ownable"@ {
        Some(ExtensionKind::Ownable)
    } else if name == "security/access_control"@ {
        Some(ExtensionKind::AccessControl)
    } else {
        None
    }
}

impl ExtensionKind {
    /// Reads an extension kind from its name. An unknown name is refused
    /// with a message that names it.
    pub fn from_str(s: &str) -> (kind: Result<ExtensionKind, String>)
        ensures
            match kind {
                Ok(found) => extension_named(s@) == Some(found),
                Err(message) => extension_named(s@) is None && message@ == "Unknown extension: "@
                    + s@,
            },
    {
        if same_str(s, "metadata") {
            Ok(ExtensionKind::Metadata)
        } else if same_str(s, "mintable") {
            Ok(ExtensionKind::Mintable)
        } else if same_str(s, "burnable") {
            Ok(ExtensionKind::Burnable)
        } else if same_str(s, "wrapper") {
            Ok(ExtensionKind::Wrapper)
        } else if same_str(s, "flash_mint") {
            Ok(ExtensionKind::FlashMint)
        } else if same_str(s, "pausable") {
            Ok(ExtensionKind::Pausable)
        } else if same_str(s, "capped") {
            Ok(ExtensionKind::Capped)
        } else if same_str(s, "batch") {
            Ok(ExtensionKind::Batch)
        } else if same_str(s, "enumerable") {
            Ok(ExtensionKind::Enumerable)
        } else if same_str(s, "security/ownable") {
            Ok(ExtensionKind::Ownable)
        } else if same_str(s, "security/access_control") {
            Ok(ExtensionKind::AccessControl)
        } else {
            Err(String::from_str("Unknown extension: ").concat(s))
        }
    }
}

/// The ending of the file name of a base contract.
pub const BASE_CONTRACT_FILE_TYPE: &'static str = ".rs";

/// The ending of the file name of an extension.
pub const CONTRACT_EXTENSION_FILE_TYPE: &'static str = ".trs";

/// Where the base contract of a standard lies below `source`.
pub open spec fn base_contract_location(source: Seq<char>, standard: Seq<char>) -> Seq<char> {
    source + "/"@ + standard + "/lib"@ + ".rs"@
}

/// Where an extension of a standard lies below `source`.
pub open spec fn extension_location(
    extension: Seq<char>,
    source: Seq<char>,
    standard: Seq<char>,
) -> Seq<char> {
    source + "/"@ + standard + "/extensions/"@ + extension + ".trs"@
}

/// Where a static file of a standard lies below `source`.
pub open spec fn static_file_location(source: Seq<char>, standard: Seq<char>, file: Seq<char>) -> Seq<
    char,
> {
    source + "/"@ + standard + "/"@ + file
}

/// The path of the base contract of a standard.
pub fn base_contract_path(source: &str, standard: &str) -> (path: String)
    ensures
        path@ == base_contract_location(source@, standard@),
{
    String::from_str(source).concat("/").concat(standard).concat("/lib").concat(
        BASE_CONTRACT_FILE_TYPE,
    )
}

/// The path of an extension of a standard.
pub fn extension_path(extension: &str, source: &str, standard: &str) -> (path: String)
    ensures
        path@ == extension_location(extension@, source@, standard@),
{
    String::from_str(source).concat("/").concat(standard).concat("/extensions/").concat(
        extension,
    ).concat(CONTRACT_EXTENSION_FILE_TYPE)
}

/// The path of a static file of a standard.
pub fn static_file_path(source: &str, standard: &str, file: &str) -> (path: String)
    ensures
        path@ == static_file_location(source@, standard@, file@),
{
    String::from_str(source).concat("/").concat(standard).concat("/").concat(file)
}

} // verus!
