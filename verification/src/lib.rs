//! Structural merging of smart-contract source trees: a base contract and a
//! list of extension fragments are folded into one merged tree.

use vstd::prelude::*;
use crate::generator::tree::same_str;

pub mod code_loader;
pub mod generator;
pub mod prettifier;

verus! {

/// One of the files that make up a generated contract.
#[derive(Debug, Clone, Copy, PartialEq, Eq, Hash, Structural)]
pub enum OutputFile {
    Main,
    Data,
    Traits,
    Errors,
    Cargo,
}

/// The file that a file name stands for, if it is the name of one.
pub open spec fn output_file_named(name: Seq<char>) -> Option<OutputFile> {
    if name == "lib.rs"@ {
        Some(OutputFile::Main)
    } else if name == "data.rs"@ {
        Some(OutputFile::Data)
    } else if name == "traits.rs"@ {
        Some(OutputFile::Traits)
    } else if name == "errors.rs"@ {
        Some(OutputFile::Errors)
    } else if name == "Cargo.toml"@ {
        Some(OutputFile::Cargo)
    } else {
        None
    }
}

/// The name of an output file.
pub open spec fn output_file_name(file: OutputFile) -> Seq<char> {
    match file {
        OutputFile::Main => "lib.rs"@,
        OutputFile::Data => "data.rs"@,
        OutputFile::Traits => "traits.rs"@,
        OutputFile::Errors => "errors.rs"@,
        OutputFile::Cargo => "Cargo.toml"@,
    }
}

impl OutputFile {
    /// Reads an output file from its file name.
    pub fn from_str(s: &str) -> (file: Result<OutputFile, ()>)
        ensures
            match file {
                Ok(f) => output_file_named(s@) == Some(f),
                Err(_) => output_file_named(s@) is None,
            },
    {
        if same_str(s, "lib.rs") {
            Ok(OutputFile::Main)
        } else if same_str(s, "data.rs") {
            Ok(OutputFile::Data)
        } else if same_str(s, "traits.rs") {
            Ok(OutputFile::Traits)
        } else if same_str(s, "errors.rs") {
            Ok(OutputFile::Errors)
        } else if same_str(s, "Cargo.toml") {
            Ok(OutputFile::Cargo)
        } else {
            Err(())
        }
    }

    /// The file name of this output file.
    pub fn to_string(&self) -> (name: String)
        ensures
            name@ == output_file_name(*self),
    {
        match self {
            OutputFile::Main => String::from_str("lib.rs"),
            OutputFile::Data => String::from_str("data.rs"),
            OutputFile::Traits => String::from_str("traits.rs"),
            OutputFile::Errors => String::from_str("errors.rs"),
            OutputFile::Cargo => String::from_str("Cargo.toml"),
        }
    }
}

/// All output files, in the order in which they are generated.
pub open spec fn all_files() -> Seq<OutputFile> {
    seq![
        OutputFile::Main,
        OutputFile::Data,
        OutputFile::Traits,
        OutputFile::Errors,
        OutputFile::Cargo,
    ]
}

/// All output files, in the order in which they are generated.
pub fn get_all_files() -> (files: Vec<OutputFile>)
    ensures
        files@ == all_files(),
{
    let mut files: Vec<OutputFile> = Vec::new();
    files.push(OutputFile::Main);
    files.push(OutputFile::Data);
    files.push(OutputFile::Traits);
    files.push(OutputFile::Errors);
    files.push(OutputFile::Cargo);
    assert(files@ =~= all_files());
    files
}

/// The files that are generated for a contract: the main file and the
/// manifest for a contract in one file, else the files that were asked for.
pub open spec fn requested_files(use_external_crate: bool, files: Seq<OutputFile>) -> Seq<
    OutputFile,
> {
    if use_external_crate {
        seq![OutputFile::Main, OutputFile::Cargo]
    } else {
        files
    }
}

/// The files that are generated for a contract.
pub fn files_to_process(use_external_crate: bool, files: &Vec<OutputFile>) -> (chosen: Vec<
    OutputFile,
>)
    ensures
        chosen@ == requested_files(use_external_crate, files@),
{
    let mut chosen: Vec<OutputFile> = Vec::new();
    if use_external_crate {
        chosen.push(OutputFile::Main);
        chosen.push(OutputFile::Cargo);
        assert(chosen@ =~= seq![OutputFile::Main, OutputFile::Cargo]);
    } else {
        let mut i: usize = 0;
        while i < files.len()
            invariant
                0 <= i <= files.len(),
                chosen@ == files@.take(i as int),
            decreases files.len() - i,
        {
            chosen.push(files[i]);
            assert(chosen@ =~= files@.take(i as int + 1));
            i += 1;
        }
        assert(files@.take(i as int) =~= files@);
    }
    chosen
}

/// The files to generate where the list that was asked for may be empty:
/// an empty list stands for all files.
pub fn files_or_all(files: Vec<OutputFile>) -> (chosen: Vec<OutputFile>)
    ensures
        chosen@ == if files@.len() == 0 {
            all_files()
        } else {
            files@
        },
{
    if files.len() == 0 {
        get_all_files()
    } else {
        files
    }
}

/// The token standard that a contract implements.
#[derive(Debug, Clone, Copy, PartialEq, Eq, Hash, Structural)]
pub enum Standard {
    PSP22,
    PSP34,
}

/// A published package that holds a standard's shared code.
#[derive(Debug, PartialEq, Eq)]
pub struct ExternalCrate {
    pub name: &'static str,
    pub version: &'static str,
}

/// The standard that a name stands for, if it is the name of one.
pub open spec fn standard_named(name: Seq<char>) -> Option<Standard> {
    if name == "PSP22"@ {
        Some(Standard::PSP22)
    } else if name == "PSP34"@ {
        Some(Standard::PSP34)
    } else {
        None
    }
}

/// The name of a standard.
pub open spec fn standard_name(standard: Standard) -> Seq<char> {
    match standard {
        Standard::PSP22 => "PSP22"@,
        Standard::PSP34 => "PSP34"@,
    }
}

/// The name of the package that holds a standard's shared code.
pub open spec fn external_crate_name(standard: Standard) -> Seq<char> {
    match standard {
        Standard::PSP22 => "psp22-full"@,
        Standard::PSP34 => "psp34-full"@,
    }
}

/// The version of the package that holds a standard's shared code.
pub open spec fn external_crate_version(standard: Standard) -> Seq<char> {
    match standard {
        Standard::PSP22 => "0.3.0"@,
        Standard::PSP34 => "0.2.1"@,
    }
}

impl Standard {
    /// The package that holds this standard's shared code.
    pub fn get_external_crate_name(&self) -> (external: Option<ExternalCrate>)
        ensures
            match external {
                Some(package) => package.name@ == external_crate_name(*self) && package.version@
                    == external_crate_version(*self),
                None => false,
            },
    {
        match self {
            Standard::PSP22 => Some(ExternalCrate { name: "psp22-full", version: "0.3.0" }),
            Standard::PSP34 => Some(ExternalCrate { name: "psp34-full", version: "0.2.1" }),
        }
    }

    /// Reads a standard from its name.
    pub fn from_str(s: &str) -> (standard: Result<Standard, ()>)
        ensures
            match standard {
                Ok(found) => standard_named(s@) == Some(found),
                Err(_) => standard_named(s@) is None,
            },
    {
        if same_str(s, "PSP22") {
            Ok(Standard::PSP22)
        } else if same_str(s, "PSP34") {
            Ok(Standard::PSP34)
        } else {
            Err(())
        }
    }

    /// The name of this standard.
    pub fn to_string(&self) -> (name: String)
        ensures
            name@ == standard_name(*self),
    {
        match self {
            Standard::PSP22 => String::from_str("PSP22"),
            Standard::PSP34 => String::from_str("PSP34"),
        }
    }
}

/// What a token says of itself: the values that a metadata extension's
/// fields are initialized with.
#[derive(Debug, PartialEq, Eq)]
pub struct Metadata {
    pub name: Option<String>,
    pub symbol: Option<String>,
    pub uri: Option<String>,
    pub decimals: Option<u8>,
}

/// The view of a `Metadata`: its texts as sequences of characters.
pub ghost struct MetadataView {
    pub name: Option<Seq<char>>,
    pub symbol: Option<Seq<char>>,
    pub uri: Option<Seq<char>>,
    pub decimals: Option<u8>,
}

impl View for Metadata {
    type V = MetadataView;

    open spec fn view(&self) -> MetadataView {
        MetadataView {
            name: self.name.deep_view(),
            symbol: self.symbol.deep_view(),
            uri: self.uri.deep_view(),
            decimals: self.decimals,
        }
    }
}

impl DeepView for Metadata {
    type V = MetadataView;

    open spec fn deep_view(&self) -> MetadataView {
        self@
    }
}

/// Copies an optional string.
pub fn clone_text(text: &Option<String>) -> (copy: Option<String>)
    ensures
        copy.deep_view() == text.deep_view(),
{
    match text {
        Some(t) => Some(t.clone()),
        None => None,
    }
}

impl Clone for Metadata {
    fn clone(&self) -> (copy: Self)
        ensures
            copy@ == self@,
    {
        Metadata {
            name: clone_text(&self.name),
            symbol: clone_text(&self.symbol),
            uri: clone_text(&self.uri),
            decimals: self.decimals,
        }
    }
}

impl Metadata {
    pub fn new(
        name: Option<String>,
        symbol: Option<String>,
        uri: Option<String>,
        decimals: Option<u8>,
    ) -> (metadata: Self)
        ensures
            metadata@ == (MetadataView {
                name: name.deep_view(),
                symbol: symbol.deep_view(),
                uri: uri.deep_view(),
                decimals,
            }),
    {
        Self { name, symbol, uri, decimals }
    }

    pub fn name(&self) -> (name: Option<String>)
        ensures
            name.deep_view() == self@.name,
    {
        clone_text(&self.name)
    }

    pub fn uri(&self) -> (uri: Option<String>)
        ensures
            uri.deep_view() == self@.uri,
    {
        clone_text(&self.uri)
    }

    pub fn symbol(&self) -> (symbol: Option<String>)
        ensures
            symbol.deep_view() == self@.symbol,
    {
        clone_text(&self.symbol)
    }
}

/// A generated file: its name and its content.
#[derive(Debug, PartialEq, Eq)]
pub struct MergedFile {
    pub name: String,
    pub content: String,
}

impl MergedFile {
    pub fn new(name: String, content: String) -> (file: Self)
        ensures
            file.name@ == name@,
            file.content@ == content@,
    {
        Self { name, content }
    }
}

} // verus!
