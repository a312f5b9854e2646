//! The four command handlers, as far as they compute.
//!
//! Reading and writing files happens outside the library: the caller performs
//! the I/O and hands its outcome to `read_file_result` / `write_file_result`,
//! which turn it into what crosses the boundary. Failures become values, never
//! faults.
use vstd::prelude::*;

verus! {

/// Text placed before the detail of a failed read.
pub const READ_ERROR_PREFIX: &'static str = "ファイル読み込みエラー: ";

/// Text placed before the detail of a failed write.
pub const WRITE_ERROR_PREFIX: &'static str = "ファイル書き込みエラー: ";

/// The version of this build, as declared in its package manifest.
pub const VERSION: &'static str = "0.1.0";

/// The greeting text for `name`.
pub open spec fn greeting(name: Seq<char>) -> Seq<char> {
    "Hello, "@ + name + "! You've been greeted from Rust!"@
}

/// The diagnostic of a failed read whose underlying error reads `detail`.
pub open spec fn read_failure_message(detail: Seq<char>) -> Seq<char> {
    READ_ERROR_PREFIX@ + detail
}

/// The diagnostic of a failed write whose underlying error reads `detail`.
pub open spec fn write_failure_message(detail: Seq<char>) -> Seq<char> {
    WRITE_ERROR_PREFIX@ + detail
}

/// Builds the greeting for `name`.
pub fn greet(name: &str) -> (r: String)
    ensures
        r@ == greeting(name@),
{
    let mut r = String::from_str("Hello, ");
    r.append(name);
    r.append("! You've been greeted from Rust!");
    r
}

/// A snapshot of the host: operating system, CPU architecture and the
/// version of the build.
pub struct SystemInfo {
    pub platform: String,
    pub architecture: String,
    pub version: String,
}

impl SystemInfo {
    /// Platform and architecture are never empty.
    pub open spec fn wf(&self) -> bool {
        &&& self.platform@.len() > 0
        &&& self.architecture@.len() > 0
    }
}

/// Builds a fresh snapshot from the host's operating-system identifier and
/// its CPU-architecture identifier, with the build's version.
pub fn get_system_info(platform: &str, architecture: &str) -> (r: SystemInfo)
    requires
        platform@.len() > 0,
        architecture@.len() > 0,
    ensures
        r.platform@ == platform@,
        r.architecture@ == architecture@,
        r.version@ == VERSION@,
        r.wf(),
{
    SystemInfo {
        platform: platform.to_owned(),
        architecture: architecture.to_owned(),
        version: VERSION.to_owned(),
    }
}

proof fn lemma_prefixes_nonempty()
    ensures
        READ_ERROR_PREFIX@.len() > 0,
        WRITE_ERROR_PREFIX@.len() > 0,
{
    reveal_strlit("ファイル読み込みエラー: ");
    reveal_strlit("ファイル書き込みエラー: ");
}

/// Turns the outcome of reading a file into the command's result: the
/// contents unchanged on success; otherwise a non-empty diagnostic that ends
/// with the underlying error's text.
pub fn read_file_result(outcome: Result<String, String>) -> (r: Result<String, String>)
    ensures
        outcome is Ok <==> r is Ok,
        outcome is Ok ==> r->Ok_0@ == outcome->Ok_0@,
        outcome is Err ==> r->Err_0@ == read_failure_message(outcome->Err_0@),
        r is Err ==> r->Err_0@.len() > 0,
{
    proof {
        lemma_prefixes_nonempty();
    }
    match outcome {
        Ok(contents) => Ok(contents),
        Err(detail) => {
            let mut message = String::from_str(READ_ERROR_PREFIX);
            message.append(detail.as_str());
            Err(message)
        },
    }
}

/// Turns the outcome of writing a file into the command's result: unit on
/// success; otherwise a non-empty diagnostic that ends with the underlying
/// error's text.
pub fn write_file_result(outcome: Result<(), String>) -> (r: Result<(), String>)
    ensures
        outcome is Ok <==> r is Ok,
        outcome is Err ==> r->Err_0@ == write_failure_message(outcome->Err_0@),
        r is Err ==> r->Err_0@.len() > 0,
{
    proof {
        lemma_prefixes_nonempty();
    }
    match outcome {
        Ok(()) => Ok(()),
        Err(detail) => {
            let mut message = String::from_str(WRITE_ERROR_PREFIX);
            message.append(detail.as_str());
            Err(message)
        },
    }
}

} // verus!
