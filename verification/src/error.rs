//! What can go wrong while a sandbox is set up and run.
use vstd::prelude::*;
use vstd::string::*;

use serde_json::Error as JsonError;

use crate::duration::Duration;
use crate::text::{decimal, decimal_has_no_leading_zero, is_number, number_value, to_decimal};

verus! {

/// `std::io::Error`: carried through, never looked into.
#[verifier::external_type_specification]
#[verifier::external_body]
pub struct ExIoError(std::io::Error);

/// `tokio::time::error::Elapsed`: carried through, never looked into.
#[verifier::external_type_specification]
#[verifier::external_body]
pub struct ExElapsed(tokio::time::error::Elapsed);

/// `serde_json::Error`: carried through, never looked into.
#[verifier::external_type_specification]
#[verifier::external_body]
pub struct ExJsonError(JsonError);

/// `std::string::FromUtf8Error`: carried through, never looked into.
#[verifier::external_type_specification]
#[verifier::external_body]
pub struct ExFromUtf8Error(std::string::FromUtf8Error);

/// The ways in which setting up or running a sandbox fails.
#[derive(Debug)]
pub enum Error {
    UnableToCreateTempDir { source: std::io::Error },
    UnableToCreateOutputDir { source: std::io::Error },
    UnableToSetOutputPermissions { source: std::io::Error },
    UnableToCreateSourceFile { source: std::io::Error },
    UnableToSetSourcePermissions { source: std::io::Error },
    UnableToStartCompiler { source: std::io::Error },
    MissingCompilerId,
    UnableToWaitForCompiler { source: std::io::Error },
    UnableToGetOutputFromCompiler { source: std::io::Error },
    UnableToRemoveCompiler { source: std::io::Error },
    CompilerExecutionTimedOut { source: tokio::time::error::Elapsed, timeout: Duration },
    UnableToReadOutput { source: std::io::Error },
    UnableToParseCrateInformation { source: JsonError },
    OutputNotUtf8 { source: std::string::FromUtf8Error },
    OutputMissing,
    VersionReleaseMissing,
    VersionHashMissing,
    VersionDateMissing,
    ContainerPathExtensionMissing,
}

/// What this crate's functions return that may fail.
pub type Result<T, E = Error> = core::result::Result<T, E>;

/// What came of something that the caller did: a value, or the error that kept it from being done.
pub type Outcome<T> = core::result::Result<T, std::io::Error>;

/// What the error `e` says, if `source` is what its source says.
pub open spec fn message(e: Error, source: Seq<char>) -> Seq<char> {
    match e {
        Error::UnableToCreateTempDir { .. } => "Unable to create temporary directory: "@ + source,
        Error::UnableToCreateOutputDir { .. } => "Unable to create output directory: "@ + source,
        Error::UnableToSetOutputPermissions { .. } => {
            "Unable to set permissions for output directory: "@ + source
        },
        Error::UnableToCreateSourceFile { .. } => "Unable to create source file: "@ + source,
        Error::UnableToSetSourcePermissions { .. } => {
            "Unable to set pemissions for source file: "@ + source
        },
        Error::UnableToStartCompiler { .. } => "Unable to start the compiler: "@ + source,
        Error::MissingCompilerId => "Unable to find the compiler ID"@,
        Error::UnableToWaitForCompiler { .. } => "Unable to wait for the compiler: "@ + source,
        Error::UnableToGetOutputFromCompiler { .. } => {
            "Unable to get output from the compiler: "@ + source
        },
        Error::UnableToRemoveCompiler { .. } => "Unable to remove the compiler: "@ + source,
        Error::CompilerExecutionTimedOut { timeout, .. } => {
            "Compiler execution took longer than "@ + decimal(timeout@ / 1_000_000) + " ms"@
        },
        Error::UnableToReadOutput { .. } => "Unable to read output file: "@ + source,
        Error::UnableToParseCrateInformation { .. } => {
            "Unable to read crate information: "@ + source
        },
        Error::OutputNotUtf8 { .. } => "Output was not valid UTF-8: "@ + source,
        Error::OutputMissing => "Output was missing"@,
        Error::VersionReleaseMissing => "Release was missing from the version output"@,
        Error::VersionHashMissing => "Commit hash was missing from the version output"@,
        Error::VersionDateMissing => "Commit date was missing from the version output"@,
        Error::ContainerPathExtensionMissing => "Container path has no extension"@,
    }
}

/// Is `text` what `value` displays as?
pub open spec fn shows<T: core::fmt::Display>(value: &T, text: Seq<char>) -> bool {
    exists|s: String| #[trigger] to_string_from_display_ensures(value, s) && s@ == text
}

/// Is `text` what the source of `e` displays as, as far as its message speaks of a source?
pub open spec fn source_shows(e: Error, text: Seq<char>) -> bool {
    match e {
        Error::UnableToCreateTempDir { source } => shows(&source, text),
        Error::UnableToCreateOutputDir { source } => shows(&source, text),
        Error::UnableToSetOutputPermissions { source } => shows(&source, text),
        Error::UnableToCreateSourceFile { source } => shows(&source, text),
        Error::UnableToSetSourcePermissions { source } => shows(&source, text),
        Error::UnableToStartCompiler { source } => shows(&source, text),
        Error::UnableToWaitForCompiler { source } => shows(&source, text),
        Error::UnableToGetOutputFromCompiler { source } => shows(&source, text),
        Error::UnableToRemoveCompiler { source } => shows(&source, text),
        Error::UnableToReadOutput { source } => shows(&source, text),
        Error::UnableToParseCrateInformation { source } => shows(&source, text),
        Error::OutputNotUtf8 { source } => shows(&source, text),
        _ => text == Seq::<char>::empty(),
    }
}

/// The message of an error with a source says what failed, and then all that the source says.
pub proof fn message_holds_its_source(e: Error, source: Seq<char>)
    ensures
        e is UnableToCreateTempDir ==> message(e, source)
            == "Unable to create temporary directory: "@ + source,
        e is UnableToCreateOutputDir ==> message(e, source)
            == "Unable to create output directory: "@ + source,
        e is UnableToSetOutputPermissions ==> message(e, source)
            == "Unable to set permissions for output directory: "@ + source,
        e is UnableToCreateSourceFile ==> message(e, source)
            == "Unable to create source file: "@ + source,
        e is UnableToSetSourcePermissions ==> message(e, source)
            == "Unable to set pemissions for source file: "@ + source,
        e is UnableToStartCompiler ==> message(e, source)
            == "Unable to start the compiler: "@ + source,
        e is UnableToWaitForCompiler ==> message(e, source)
            == "Unable to wait for the compiler: "@ + source,
        e is UnableToGetOutputFromCompiler ==> message(e, source)
            == "Unable to get output from the compiler: "@ + source,
        e is UnableToRemoveCompiler ==> message(e, source)
            == "Unable to remove the compiler: "@ + source,
        e is UnableToReadOutput ==> message(e, source) == "Unable to read output file: "@ + source,
        e is UnableToParseCrateInformation ==> message(e, source)
            == "Unable to read crate information: "@ + source,
        e is OutputNotUtf8 ==> message(e, source) == "Output was not valid UTF-8: "@ + source,
{
}

/// The message of an error without a source does not depend on any.
pub proof fn message_without_a_source(e: Error, source: Seq<char>)
    ensures
        e is MissingCompilerId ==> message(e, source) == "Unable to find the compiler ID"@,
        e is OutputMissing ==> message(e, source) == "Output was missing"@,
        e is VersionReleaseMissing ==> message(e, source)
            == "Release was missing from the version output"@,
        e is VersionHashMissing ==> message(e, source)
            == "Commit hash was missing from the version output"@,
        e is VersionDateMissing ==> message(e, source)
            == "Commit date was missing from the version output"@,
        e is ContainerPathExtensionMissing ==> message(e, source)
            == "Container path has no extension"@,
{
}

/// The message of a run that took too long tells its limit in whole milliseconds.
pub proof fn message_tells_the_limit(e: Error, source: Seq<char>, digits: Seq<char>)
    requires
        e is CompilerExecutionTimedOut,
        message(e, source) == "Compiler execution took longer than "@ + digits + " ms"@,
    ensures
        is_number(digits),
        number_value(digits) == e->timeout@ / 1_000_000,
        digits[0] == '0' ==> e->timeout@ < 1_000_000,
{
    let n = e->timeout@ / 1_000_000;
    decimal_has_no_leading_zero(n);
    reveal_strlit("Compiler execution took longer than ");
    reveal_strlit(" ms");
    let head = "Compiler execution took longer than "@;
    let whole = message(e, source);
    assert(whole == head + decimal(n) + " ms"@);
    assert(whole.subrange(head.len() as int, whole.len() - 3) =~= decimal(n));
    assert((head + digits + " ms"@).subrange(head.len() as int, whole.len() - 3) =~= digits);
}

/// A run that took too long says so, with its limit between these words.
pub proof fn message_of_a_timeout(e: Error, source: Seq<char>)
    requires
        e is CompilerExecutionTimedOut,
    ensures
        exists|digits: Seq<char>|
            message(e, source) == #[trigger] ("Compiler execution took longer than "@ + digits)
                + " ms"@,
{
    let digits = decimal(e->timeout@ / 1_000_000);
    assert(message(e, source) == ("Compiler execution took longer than "@ + digits) + " ms"@);
}

/// What an error takes its source to say is all that the source displays as.
pub proof fn source_is_told_whole(e: Error, text: Seq<char>)
    requires
        source_shows(e, text),
    ensures
        e matches Error::UnableToCreateTempDir { source } ==> exists|s: String|
            #[trigger] to_string_from_display_ensures(&source, s) && s@ == text,
        e matches Error::UnableToCreateOutputDir { source } ==> exists|s: String|
            #[trigger] to_string_from_display_ensures(&source, s) && s@ == text,
        e matches Error::UnableToSetOutputPermissions { source } ==> exists|s: String|
            #[trigger] to_string_from_display_ensures(&source, s) && s@ == text,
        e matches Error::UnableToCreateSourceFile { source } ==> exists|s: String|
            #[trigger] to_string_from_display_ensures(&source, s) && s@ == text,
        e matches Error::UnableToSetSourcePermissions { source } ==> exists|s: String|
            #[trigger] to_string_from_display_ensures(&source, s) && s@ == text,
        e matches Error::UnableToStartCompiler { source } ==> exists|s: String|
            #[trigger] to_string_from_display_ensures(&source, s) && s@ == text,
        e matches Error::UnableToWaitForCompiler { source } ==> exists|s: String|
            #[trigger] to_string_from_display_ensures(&source, s) && s@ == text,
        e matches Error::UnableToGetOutputFromCompiler { source } ==> exists|s: String|
            #[trigger] to_string_from_display_ensures(&source, s) && s@ == text,
        e matches Error::UnableToRemoveCompiler { source } ==> exists|s: String|
            #[trigger] to_string_from_display_ensures(&source, s) && s@ == text,
        e matches Error::UnableToReadOutput { source } ==> exists|s: String|
            #[trigger] to_string_from_display_ensures(&source, s) && s@ == text,
        e matches Error::UnableToParseCrateInformation { source } ==> exists|s: String|
            #[trigger] to_string_from_display_ensures(&source, s) && s@ == text,
        e matches Error::OutputNotUtf8 { source } ==> exists|s: String|
            #[trigger] to_string_from_display_ensures(&source, s) && s@ == text,
{
}

fn with_source(what: &str, source: &str) -> (s: String)
    ensures
        s@ == what@ + source@,
{
    let mut s = what.to_string();
    s.append(source);
    s
}

impl Error {
    /// What this error says, where `source` is what its source says.
    pub fn message_with(&self, source: &str) -> (s: String)
        ensures
            s@ == message(*self, source@),
    {
        match self {
            Error::UnableToCreateTempDir { .. } => {
                with_source("Unable to create temporary directory: ", source)
            },
            Error::UnableToCreateOutputDir { .. } => {
                with_source("Unable to create output directory: ", source)
            },
            Error::UnableToSetOutputPermissions { .. } => {
                with_source("Unable to set permissions for output directory: ", source)
            },
            Error::UnableToCreateSourceFile { .. } => {
                with_source("Unable to create source file: ", source)
            },
            Error::UnableToSetSourcePermissions { .. } => {
                with_source("Unable to set pemissions for source file: ", source)
            },
            Error::UnableToStartCompiler { .. } => {
                with_source("Unable to start the compiler: ", source)
            },
            Error::MissingCompilerId => "Unable to find the compiler ID".to_string(),
            Error::UnableToWaitForCompiler { .. } => {
                with_source("Unable to wait for the compiler: ", source)
            },
            Error::UnableToGetOutputFromCompiler { .. } => {
                with_source("Unable to get output from the compiler: ", source)
            },
            Error::UnableToRemoveCompiler { .. } => {
                with_source("Unable to remove the compiler: ", source)
            },
            Error::CompilerExecutionTimedOut { timeout, .. } => {
                let mut s = "Compiler execution took longer than ".to_string();
                s.append(to_decimal(timeout.as_millis()).as_str());
                s.append(" ms");
                s
            },
            Error::UnableToReadOutput { .. } => with_source("Unable to read output file: ", source),
            Error::UnableToParseCrateInformation { .. } => {
                with_source("Unable to read crate information: ", source)
            },
            Error::OutputNotUtf8 { .. } => with_source("Output was not valid UTF-8: ", source),
            Error::OutputMissing => "Output was missing".to_string(),
            Error::VersionReleaseMissing => {
                "Release was missing from the version output".to_string()
            },
            Error::VersionHashMissing => {
                "Commit hash was missing from the version output".to_string()
            },
            Error::VersionDateMissing => {
                "Commit date was missing from the version output".to_string()
            },
            Error::ContainerPathExtensionMissing => "Container path has no extension".to_string(),
        }
    }

    /// What this error says.
    pub fn to_string(&self) -> (s: String)
        ensures
            exists|text: Seq<char>|
                #[trigger] source_shows(*self, text) && s@ == message(*self, text),
    {
        let source = match self {
            Error::UnableToCreateTempDir { source } => source.to_string(),
            Error::UnableToCreateOutputDir { source } => source.to_string(),
            Error::UnableToSetOutputPermissions { source } => source.to_string(),
            Error::UnableToCreateSourceFile { source } => source.to_string(),
            Error::UnableToSetSourcePermissions { source } => source.to_string(),
            Error::UnableToStartCompiler { source } => source.to_string(),
            Error::UnableToWaitForCompiler { source } => source.to_string(),
            Error::UnableToGetOutputFromCompiler { source } => source.to_string(),
            Error::UnableToRemoveCompiler { source } => source.to_string(),
            Error::UnableToReadOutput { source } => source.to_string(),
            Error::UnableToParseCrateInformation { source } => source.to_string(),
            Error::OutputNotUtf8 { source } => source.to_string(),
            _ => String::new(),
        };
        assert(source_shows(*self, source@));
        self.message_with(source.as_str())
    }
}

} // verus!
