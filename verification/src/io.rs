//! Readers and writers: what to ask of the engine to move a module between
//! a file and memory, and what its answer means.
//!
//! A reader or writer is configured by its setters and used up by the one
//! operation it performs. The operation yields the request that the engine
//! carries out on a module; the request's `outcome` turns the engine's answer
//! into the caller's result.
//!
//! The library never looks inside a module: `M` is whatever handle the caller
//! has for one.

use crate::error::Error;
use vstd::prelude::*;

verus! {

/// How the engine takes the contents of the file it reads.
#[derive(Debug, PartialEq, Eq, Clone, Copy)]
pub enum ReadFormat {
    /// WebAssembly text.
    Text,
    /// WebAssembly binary.
    Binary,
    /// Whichever of the two the file proves to hold.
    Detect,
}

/// The form in which the engine writes a module.
#[derive(Debug, PartialEq, Eq, Clone, Copy)]
pub enum WriteFormat {
    /// WebAssembly text.
    Text,
    /// WebAssembly binary.
    Binary,
}

/// The source map that a file name stands for: the empty name stands for
/// none.
pub open spec fn source_map_of(name: Seq<char>) -> Option<Seq<char>> {
    if name.len() == 0 {
        None
    } else {
        Some(name)
    }
}

/// What an optional string stands for.
pub open spec fn text_of(text: Option<String>) -> Option<Seq<char>> {
    match text {
        Some(s) => Some(s@),
        None => None,
    }
}

/// What a reader stands for: the flags set so far.
pub struct ReaderView {
    pub debug_info: Option<bool>,
    pub dwarf: Option<bool>,
}

/// What a read request stands for.
pub struct ReadRequestView {
    pub format: ReadFormat,
    pub filename: Seq<char>,
    pub source_map_filename: Option<Seq<char>>,
    pub debug_info: Option<bool>,
    pub dwarf: Option<bool>,
}

impl ReaderView {
    /// The request of a reader with these flags to read `filename` as
    /// `format`, with the source map that `source_map_filename` stands for.
    pub open spec fn request(
        self,
        format: ReadFormat,
        filename: Seq<char>,
        source_map_filename: Seq<char>,
    ) -> ReadRequestView {
        ReadRequestView {
            format,
            filename,
            source_map_filename: source_map_of(source_map_filename),
            debug_info: self.debug_info,
            dwarf: self.dwarf,
        }
    }
}

/// A module reader that has not read yet. A flag that was never set is left
/// at the engine's default.
pub struct ModuleReader {
    debug_info: Option<bool>,
    dwarf: Option<bool>,
}

impl View for ModuleReader {
    type V = ReaderView;

    closed spec fn view(&self) -> ReaderView {
        ReaderView { debug_info: self.debug_info, dwarf: self.dwarf }
    }
}

/// The request to fill a module from a file. The request owns the module
/// while the read is under way. `source_map_filename` is `None` where no
/// source map is read.
#[derive(Debug, PartialEq, Eq)]
pub struct ReadRequest<M> {
    pub module: M,
    pub format: ReadFormat,
    pub filename: String,
    pub source_map_filename: Option<String>,
    pub debug_info: Option<bool>,
    pub dwarf: Option<bool>,
}

impl<M> View for ReadRequest<M> {
    type V = ReadRequestView;

    open spec fn view(&self) -> ReadRequestView {
        ReadRequestView {
            format: self.format,
            filename: self.filename@,
            source_map_filename: text_of(self.source_map_filename),
            debug_info: self.debug_info,
            dwarf: self.dwarf,
        }
    }
}

/// The owned form of a source map's file name, `None` for the empty name.
fn source_map(name: &str) -> (r: Option<String>)
    ensures
        text_of(r) == source_map_of(name@),
{
    if name.is_empty() {
        None
    } else {
        Some(name.to_owned())
    }
}

impl ModuleReader {
    /// A reader with no flag set.
    pub fn new() -> (r: ModuleReader)
        ensures
            r@ == (ReaderView { debug_info: None, dwarf: None }),
    {
        ModuleReader { debug_info: None, dwarf: None }
    }

    /// Whether the read keeps debug information.
    pub fn set_debug_info(&mut self, debug: bool)
        ensures
            final(self)@ == (ReaderView { debug_info: Some(debug), ..old(self)@ }),
    {
        self.debug_info = Some(debug);
    }

    /// Whether the read keeps DWARF sections.
    pub fn set_dwarf(&mut self, dwarf: bool)
        ensures
            final(self)@ == (ReaderView { dwarf: Some(dwarf), ..old(self)@ }),
    {
        self.dwarf = Some(dwarf);
    }

    /// Uses the reader up and yields the request to read `filename` as text
    /// into `module`. Text has no source map.
    pub fn read_text<M>(self, filename: &str, module: M) -> (request: ReadRequest<M>)
        ensures
            request@ == self@.request(ReadFormat::Text, filename@, Seq::empty()),
            request@.source_map_filename is None,
            request.module == module,
    {
        ReadRequest {
            module,
            format: ReadFormat::Text,
            filename: filename.to_owned(),
            source_map_filename: None,
            debug_info: self.debug_info,
            dwarf: self.dwarf,
        }
    }

    /// Uses the reader up and yields the request to read `filename` as
    /// binary into `module`. An empty `source_map_filename` asks for no source
    /// map.
    pub fn read_binary<M>(self, filename: &str, module: M, source_map_filename: &str) -> (request:
        ReadRequest<M>)
        ensures
            request@ == self@.request(ReadFormat::Binary, filename@, source_map_filename@),
            source_map_filename@.len() == 0 ==> request@.source_map_filename is None,
            request.module == module,
    {
        ReadRequest {
            module,
            format: ReadFormat::Binary,
            filename: filename.to_owned(),
            source_map_filename: source_map(source_map_filename),
            debug_info: self.debug_info,
            dwarf: self.dwarf,
        }
    }

    /// Uses the reader up and yields the request to read `filename`, in
    /// whichever format it holds, into `module`. An empty
    /// `source_map_filename` asks for no source map.
    pub fn read<M>(self, filename: &str, module: M, source_map_filename: &str) -> (request:
        ReadRequest<M>)
        ensures
            request@ == self@.request(ReadFormat::Detect, filename@, source_map_filename@),
            source_map_filename@.len() == 0 ==> request@.source_map_filename is None,
            request.module == module,
    {
        ReadRequest {
            module,
            format: ReadFormat::Detect,
            filename: filename.to_owned(),
            source_map_filename: source_map(source_map_filename),
            debug_info: self.debug_info,
            dwarf: self.dwarf,
        }
    }
}

impl<M> ReadRequest<M> {
    /// The result of the read, given the engine's answer. After a success
    /// the module is handed back. After a failure the result is a parse
    /// error with the engine's message unchanged, and the module, which
    /// holds nothing to rely on, is not handed back.
    pub fn outcome(self, answer: Result<(), String>) -> (r: Result<M, Error>)
        ensures
            r == match answer {
                Ok(_) => Ok::<M, Error>(self.module),
                Err(message) => Err(Error::Parse(message)),
            },
    {
        match answer {
            Ok(_) => Ok(self.module),
            Err(message) => Err(Error::Parse(message)),
        }
    }
}

/// What a writer stands for: the settings made so far.
pub struct WriterView {
    pub debug_info: Option<bool>,
    pub source_map_filename: Option<Seq<char>>,
    pub source_map_url: Option<Seq<char>>,
}

/// What a write request stands for.
pub struct WriteRequestView {
    pub format: WriteFormat,
    pub filename: Seq<char>,
    pub debug_info: Option<bool>,
    pub source_map_filename: Option<Seq<char>>,
    pub source_map_url: Option<Seq<char>>,
}

impl WriterView {
    /// The request of a writer with these settings to write to `filename` as
    /// `format`.
    pub open spec fn request(self, format: WriteFormat, filename: Seq<char>) -> WriteRequestView {
        WriteRequestView {
            format,
            filename,
            debug_info: self.debug_info,
            source_map_filename: self.source_map_filename,
            source_map_url: self.source_map_url,
        }
    }
}

/// A module writer that has not written yet. A setting that was never made
/// is left at the engine's default.
pub struct ModuleWriter {
    debug_info: Option<bool>,
    source_map_filename: Option<String>,
    source_map_url: Option<String>,
}

impl View for ModuleWriter {
    type V = WriterView;

    closed spec fn view(&self) -> WriterView {
        WriterView {
            debug_info: self.debug_info,
            source_map_filename: text_of(self.source_map_filename),
            source_map_url: text_of(self.source_map_url),
        }
    }
}

/// The request to write a module to a file. The request holds the exclusive
/// borrow of the module while the write is under way.
#[derive(Debug, PartialEq, Eq)]
pub struct WriteRequest<'wasm, M> {
    pub module: &'wasm mut M,
    pub format: WriteFormat,
    pub filename: String,
    pub debug_info: Option<bool>,
    pub source_map_filename: Option<String>,
    pub source_map_url: Option<String>,
}

impl<'wasm, M> View for WriteRequest<'wasm, M> {
    type V = WriteRequestView;

    open spec fn view(&self) -> WriteRequestView {
        WriteRequestView {
            format: self.format,
            filename: self.filename@,
            debug_info: self.debug_info,
            source_map_filename: text_of(self.source_map_filename),
            source_map_url: text_of(self.source_map_url),
        }
    }
}

impl ModuleWriter {
    /// A writer with no setting made.
    pub fn new() -> (r: ModuleWriter)
        ensures
            r@ == (WriterView { debug_info: None, source_map_filename: None, source_map_url: None }),
    {
        ModuleWriter { debug_info: None, source_map_filename: None, source_map_url: None }
    }

    /// Whether the output keeps debug information.
    pub fn set_debug_info(&mut self, debug: bool)
        ensures
            final(self)@ == (WriterView { debug_info: Some(debug), ..old(self)@ }),
    {
        self.debug_info = Some(debug);
    }

    /// The file to which the source map of the output is written.
    pub fn set_source_map_filename(&mut self, source_map_filename: &str)
        ensures
            final(self)@ == (WriterView {
                source_map_filename: Some(source_map_filename@),
                ..old(self)@
            }),
    {
        self.source_map_filename = Some(source_map_filename.to_owned());
    }

    /// The URL under which the output names its source map.
    pub fn set_source_map_url(&mut self, source_map_url: &str)
        ensures
            final(self)@ == (WriterView { source_map_url: Some(source_map_url@), ..old(self)@ }),
    {
        self.source_map_url = Some(source_map_url.to_owned());
    }

    /// Uses the writer up and yields the request to write `module` to
    /// `filename` as text.
    pub fn write_text<'wasm, M>(self, module: &'wasm mut M, filename: &str) -> (request:
        WriteRequest<'wasm, M>)
        ensures
            request@ == self@.request(WriteFormat::Text, filename@),
            *request.module == *old(module),
            *final(request.module) == *final(module),
    {
        WriteRequest {
            module,
            format: WriteFormat::Text,
            filename: filename.to_owned(),
            debug_info: self.debug_info,
            source_map_filename: self.source_map_filename,
            source_map_url: self.source_map_url,
        }
    }

    /// Uses the writer up and yields the request to write `module` to
    /// `filename` as binary.
    pub fn write_binary<'wasm, M>(self, module: &'wasm mut M, filename: &str) -> (request:
        WriteRequest<'wasm, M>)
        ensures
            request@ == self@.request(WriteFormat::Binary, filename@),
            *request.module == *old(module),
            *final(request.module) == *final(module),
    {
        WriteRequest {
            module,
            format: WriteFormat::Binary,
            filename: filename.to_owned(),
            debug_info: self.debug_info,
            source_map_filename: self.source_map_filename,
            source_map_url: self.source_map_url,
        }
    }
}

impl<'wasm, M> WriteRequest<'wasm, M> {
    /// The result of the write, given the engine's answer: success as it is,
    /// a failure as a write error with the engine's message unchanged.
    /// Nothing is tried again. The borrow of the module ends here, with the
    /// module as it stood.
    pub fn outcome(self, answer: Result<(), String>) -> (r: Result<(), Error>)
        ensures
            r == match answer {
                Ok(_) => Ok::<(), Error>(()),
                Err(message) => Err(Error::Write(message)),
            },
            *final(self.module) == *old(self.module),
    {
        match answer {
            Ok(_) => Ok(()),
            Err(message) => Err(Error::Write(message)),
        }
    }
}

} // verus!
