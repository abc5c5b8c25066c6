//! What is written back when a live file is captured.
//!
//! The bytes of the live file go through the filter table of the script, if
//! there is a script, and always end in exactly one line feed more than
//! nothing: one is added where the last byte is no line feed.

use crate::config::{
    compile_for_add, filter_outcome_of_text, CompileError, CompileFault,
};
use crate::engine::{filter_ini, filtered_lines, line_views};
use crate::table::filter_model;
use vstd::prelude::*;
use vstd::slice::slice_to_vec;
use vstd::string::StringExecFns;
use vstd::string::StringSliceAdditionalSpecFns;
use vstd::utf8::{decode_utf8, encode_utf8, valid_utf8};

verus! {

/// The byte of a line feed.
pub const LINE_FEED: u8 = 10;

/// The lines with a line feed between each two of them.
pub open spec fn joined_lines(lines: Seq<Seq<char>>) -> Seq<char>
    decreases lines.len(),
{
    if lines.len() == 0 {
        Seq::empty()
    } else if lines.len() == 1 {
        lines[0]
    } else {
        joined_lines(lines.drop_last()) + seq!['\n'] + lines.last()
    }
}

/// `bytes`, with a line feed added unless they end in one.
pub open spec fn with_final_newline(bytes: Seq<u8>) -> Seq<u8> {
    if bytes.len() > 0 && bytes.last() == LINE_FEED {
        bytes
    } else {
        bytes.push(LINE_FEED)
    }
}

/// What is written ends in a line feed, and a second pass adds no second one.
pub proof fn lemma_final_newline(bytes: Seq<u8>)
    ensures
        with_final_newline(bytes).len() > 0,
        with_final_newline(bytes).last() == LINE_FEED,
        with_final_newline(with_final_newline(bytes)) == with_final_newline(bytes),
        with_final_newline(bytes) == bytes || with_final_newline(bytes) == bytes.push(LINE_FEED),
{
}

/// Why a file could not be filtered.
#[derive(Debug, Clone, PartialEq, Eq)]
pub enum CaptureError {
    /// The script does not compile.
    Compile(CompileError),
    /// The file is not UTF-8.
    NotUtf8,
}

/// A [`CaptureError`] as a mathematical value.
pub enum CaptureFault {
    Compile(CompileFault),
    NotUtf8,
}

impl View for CaptureError {
    type V = CaptureFault;

    open spec fn view(&self) -> CaptureFault {
        match self {
            CaptureError::Compile(e) => CaptureFault::Compile(e@),
            CaptureError::NotUtf8 => CaptureFault::NotUtf8,
        }
    }
}

/// What filtering the file `contents` under the script `config_data` gives:
/// the script must compile for capturing and the file must be UTF-8; then the
/// result is the lines that the engine's filter leaves, with line feeds
/// between them, as UTF-8.
pub open spec fn filtered(config_data: Seq<char>, contents: Seq<u8>) -> Result<
    Seq<u8>,
    CaptureFault,
> {
    match filter_outcome_of_text(config_data) {
        Err(fault) => Err(CaptureFault::Compile(fault)),
        Ok((_, table)) => if valid_utf8(contents) {
            Ok(
                encode_utf8(
                    joined_lines(filtered_lines(decode_utf8(contents), filter_model(table))),
                ),
            )
        } else {
            Err(CaptureFault::NotUtf8)
        },
    }
}

/// What is written back for the file `contents`: filtered where there is a
/// script, and always with a line feed at the end.
pub open spec fn prepared(script: Option<Seq<char>>, contents: Seq<u8>) -> Result<
    Seq<u8>,
    CaptureFault,
> {
    match script {
        None => Ok(with_final_newline(contents)),
        Some(config_data) => match filtered(config_data, contents) {
            Ok(bytes) => Ok(with_final_newline(bytes)),
            Err(fault) => Err(fault),
        },
    }
}

/// Joins lines with a line feed between each two of them.
pub fn join_lines(lines: &Vec<String>) -> (text: String)
    ensures
        text@ == joined_lines(line_views(lines@)),
{
    let mut text = String::new();
    let mut i: usize = 0;
    while i < lines.len()
        invariant
            i <= lines@.len(),
            text@ == joined_lines(line_views(lines@).take(i as int)),
        decreases lines@.len() - i,
    {
        proof {
            let before = line_views(lines@).take(i as int);
            let after = line_views(lines@).take(i + 1);
            assert(after.drop_last() =~= before);
            assert(after.last() == lines@[i as int]@);
            if i == 0 {
                assert(Seq::<char>::empty() + lines@[0]@ =~= lines@[0]@);
            }
        }
        if i > 0 {
            text.append("\n");
            proof {
                reveal_strlit("\n");
                assert("\n"@ =~= seq!['\n']);
            }
        }
        text.append(lines[i].as_str());
        i = i + 1;
    }
    assert(line_views(lines@).take(lines@.len() as int) =~= line_views(lines@));
    text
}

/// Adds a line feed to `bytes` unless they end in one.
pub fn ensure_final_newline(bytes: Vec<u8>) -> (out: Vec<u8>)
    ensures
        out@ == with_final_newline(bytes@),
{
    let mut out = bytes;
    let n: usize = out.len();
    if n == 0 || out[n - 1] != LINE_FEED {
        out.push(LINE_FEED);
    }
    out
}

/// Filters the file `contents` as the script `config_data` says: what
/// `add:hide` selects keeps its key and loses its value to the placeholder,
/// what `add:remove` or `ignore` selects is left out.
pub fn internal_filter(config_data: &str, contents: &[u8]) -> (r: Result<Vec<u8>, CaptureError>)
    ensures
        match r {
            Ok(bytes) => filtered(config_data@, contents@) == Ok::<_, CaptureFault>(bytes@),
            Err(e) => filtered(config_data@, contents@) matches Err(fault) && fault == e@,
        },
{
    let config = match compile_for_add(config_data) {
        Ok(config) => config,
        Err(e) => {
            return Err(CaptureError::Compile(e));
        },
    };
    let lines = match filter_ini(contents, &config.actions) {
        Ok(lines) => lines,
        Err(_) => {
            return Err(CaptureError::NotUtf8);
        },
    };
    let text = join_lines(&lines);
    Ok(slice_to_vec(text.as_str().as_bytes()))
}

/// What is written back for the file `contents`, under the script `script`
/// where there is one.
pub fn prepare_data(script: Option<&str>, contents: Vec<u8>) -> (r: Result<Vec<u8>, CaptureError>)
    ensures
        match r {
            Ok(bytes) => prepared(
                match script {
                    Some(s) => Some(s@),
                    None => None,
                },
                contents@,
            ) == Ok::<_, CaptureFault>(bytes@),
            Err(e) => prepared(
                match script {
                    Some(s) => Some(s@),
                    None => None,
                },
                contents@,
            ) matches Err(fault) && fault == e@,
        },
{
    match script {
        None => Ok(ensure_final_newline(contents)),
        Some(config_data) => match internal_filter(config_data, contents.as_slice()) {
            Ok(bytes) => Ok(ensure_final_newline(bytes)),
            Err(e) => Err(e),
        },
    }
}

} // verus!
