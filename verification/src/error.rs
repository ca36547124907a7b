//! The error taxonomy of the library.
//!
//! Every failure is surfaced to the top of the pipeline immediately: there is
//! no local recovery and no retry. Each variant carries plain values only, so
//! callers can match on the exact failure; the payload is the offending input
//! or the message of the underlying operation.
use vstd::prelude::*;

verus! {

/// One error kind per way a run can fail: acquisition, configuration,
/// substitution, task execution and filesystem materialization.
#[derive(Debug, Clone, PartialEq, Eq)]
pub enum BleurError {
    /// The temporary working directory cannot be created or copied from.
    TemporaryCantCreate(String),
    /// The remote source text is not a well-formed URL.
    CantParseUrl(String),
    /// The configuration file exists but cannot be deserialized.
    CantParseShit(String),
    /// No tool is available to initialize a template.
    NoToolForInit,
    /// A pipeline stage was requested before its predecessor completed.
    InsufficientArgumentsToDecide,
    /// An external command failed while executing.
    CommandExecutionFail,
    /// Cloning the repository from the remote failed.
    CantCloneRepository(String),
    /// Downloading from the given URL over HTTP failed.
    CantDownloadViaHttp(String),
    /// The HTTP response carries no content length.
    CantGetContentLength,
    /// The file to write the download into cannot be created.
    CantCreateFile(String),
    /// Writing the downloaded bytes to the file failed.
    CantWriteToFile,
    /// Unpacking the downloaded archive failed.
    CantUnArchiveZip(String),
    /// The downloaded archive cannot be deleted after extraction.
    CantDeleteOldArchive,
    /// No recognized template configuration exists at the working-copy root.
    NoTemplateConfiguration,
    /// The version-control metadata directory cannot be deleted after cloning.
    CantDeleteGitDirectorty,
    /// The interactive prompt failed or was cancelled.
    CantParseUserPrompt(String),
    /// The requested template is not part of the collection.
    NoSuchTemplateInCollection,
    /// The configuration is schema-valid but internally inconsistent.
    TemplateIsInvalid,
    /// A path named by the configuration is not valid path text.
    InvalidFilePath(String),
    /// A referenced variable name has no resolved value in the store.
    NoSuchVariable(String),
    /// Renaming a file to its resolved destination failed.
    CantMoveFile(String),
    /// The provider shorthand names a provider no clone URL is known for.
    UnknownGitProvider(String),
    /// The repository owner segment of the shorthand is absent or empty.
    InvalidRepositoryOwner(String),
    /// The repository name segment of the shorthand is absent or empty.
    InvalidRepositoryName(String),
    /// The version-control library reported an error.
    GitError(String),
    /// A failure nothing more specific is known about.
    Unknown,
}

} // verus!
