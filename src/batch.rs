//! The batch: what each record of an export turns into, stopping at the
//! first record that fails.
use vstd::prelude::*;
use vstd::string::*;
use crate::entry::{Entry, Export};
use crate::descriptor::{build_totp, spec_build, ValidationError, ValidationErrorModel};
use crate::uri::{encode, uri_of};
use crate::qr::{render, qr_png, QrError};
use crate::text::{sanitize, sanitized};

verus! {

/// The output file name of a record: `{label}-{username}.png`, both parts
/// sanitised. Distinct records may share a name.
pub open spec fn file_name_of(e: Entry) -> Seq<char> {
    sanitized(e.label_name@) + "-"@ + sanitized(e.username@) + ".png"@
}

/// The output file name of a record.
pub fn file_name(entry: &Entry) -> (r: String)
    ensures
        r@ == file_name_of(*entry),
{
    let mut s = sanitize(entry.label_name.as_str());
    s.append("-");
    let user = sanitize(entry.username.as_str());
    s.append(user.as_str());
    s.append(".png");
    s
}

/// One image to write: its file name, the URI it encodes, and the PNG bytes.
pub struct OutputFile {
    pub file_name: String,
    pub uri: String,
    pub png: Vec<u8>,
}

pub struct OutputModel {
    pub file_name: Seq<char>,
    pub uri: Seq<char>,
    pub png: Seq<u8>,
}

impl View for OutputFile {
    type V = OutputModel;

    open spec fn view(&self) -> OutputModel {
        OutputModel { file_name: self.file_name@, uri: self.uri@, png: self.png@ }
    }
}

/// Why a record produced no image.
#[derive(Debug)]
pub enum EntryError {
    Validation(ValidationError),
    QrEncoding(QrError),
}

pub enum EntryErrorModel {
    Validation(ValidationErrorModel),
    QrEncoding,
}

impl View for EntryError {
    type V = EntryErrorModel;

    open spec fn view(&self) -> EntryErrorModel {
        match self {
            EntryError::Validation(v) => EntryErrorModel::Validation(v@),
            EntryError::QrEncoding(_) => EntryErrorModel::QrEncoding,
        }
    }
}

/// What a record turns into.
pub open spec fn entry_outcome(e: Entry) -> Result<OutputModel, EntryErrorModel> {
    match spec_build(e) {
        Err(v) => Err(EntryErrorModel::Validation(v)),
        Ok(d) => match qr_png(uri_of(d)) {
            None => Err(EntryErrorModel::QrEncoding),
            Some(p) => Ok(OutputModel { file_name: file_name_of(e), uri: uri_of(d), png: p }),
        },
    }
}

pub open spec fn output_view(r: Result<OutputFile, EntryError>) -> Result<OutputModel, EntryErrorModel> {
    match r {
        Ok(o) => Ok(o@),
        Err(e) => Err(e@),
    }
}

/// Validates a record, encodes its URI and renders its image.
pub fn process_entry(entry: &Entry) -> (r: Result<OutputFile, EntryError>)
    ensures
        output_view(r) == entry_outcome(*entry),
{
    let d = match build_totp(entry) {
        Ok(d) => d,
        Err(v) => {
            return Err(EntryError::Validation(v));
        },
    };
    let uri = encode(&d);
    let png = match render(uri.as_str()) {
        Ok(p) => p,
        Err(q) => {
            return Err(EntryError::QrEncoding(q));
        },
    };
    let file_name = file_name(entry);
    Ok(OutputFile { file_name, uri, png })
}

/// The first record that failed, by its position, and why.
#[derive(Debug)]
pub struct BatchError {
    pub index: usize,
    pub error: EntryError,
}

/// Processes the records in order. On success there is one output per
/// record, in the records' order; otherwise the error is that of the first
/// record that failed, all those before it having succeeded.
pub fn process_export(export: &Export) -> (r: Result<Vec<OutputFile>, BatchError>)
    ensures
        match r {
            Ok(files) => files@.len() == export.entries@.len() && forall|i: int|
                0 <= i < files@.len() ==> entry_outcome(#[trigger] export.entries@[i])
                    == Ok::<OutputModel, EntryErrorModel>(files@[i]@),
            Err(b) => b.index < export.entries@.len() && entry_outcome(
                export.entries@[b.index as int],
            ) == Err::<OutputModel, EntryErrorModel>(b.error@) && forall|i: int|
                0 <= i < b.index ==> (#[trigger] entry_outcome(export.entries@[i])) is Ok,
        },
{
    let n = export.entries.len();
    let mut files: Vec<OutputFile> = Vec::new();
    let mut i: usize = 0;
    while i < n
        invariant
            n == export.entries@.len(),
            i <= n,
            files@.len() == i,
            forall|j: int|
                0 <= j < i ==> entry_outcome(#[trigger] export.entries@[j]) == Ok::<
                    OutputModel,
                    EntryErrorModel,
                >(files@[j]@),
        decreases n - i,
    {
        match process_entry(&export.entries[i]) {
            Ok(o) => {
                files.push(o);
            },
            Err(error) => {
                return Err(BatchError { index: i, error });
            },
        }
        i = i + 1;
    }
    Ok(files)
}

} // verus!
