//! The transcript source adapter's configuration.
use vstd::prelude::*;

use std::path::PathBuf;

verus! {

/// `std::path::PathBuf`, an owned file-system path.
#[verifier::external_type_specification]
#[verifier::external_body]
pub struct ExPathBuf(PathBuf);

/// `PathBuf::clone`: an equal path.
#[verifier::external_body]
pub(crate) fn clone_path(p: &PathBuf) -> (r: PathBuf)
    ensures
        r == *p,
{
    p.clone()
}

/// Source adapter reading the transcript at one path.
#[derive(Debug)]
pub struct ClaudeCodeAdapter {
    transcript_path: PathBuf,
}

impl Clone for ClaudeCodeAdapter {
    fn clone(&self) -> (r: Self)
        ensures
            r.path() == self.path(),
    {
        ClaudeCodeAdapter { transcript_path: clone_path(&self.transcript_path) }
    }
}

impl ClaudeCodeAdapter {
    /// The path the adapter reads.
    pub closed spec fn path(&self) -> PathBuf {
        self.transcript_path
    }

    /// An adapter bound to `transcript_path`.
    pub fn new(transcript_path: PathBuf) -> (a: Self)
        ensures
            a.path() == transcript_path,
    {
        ClaudeCodeAdapter { transcript_path }
    }

    /// The path the adapter is bound to.
    pub fn transcript_path(&self) -> (p: &PathBuf)
        ensures
            *p == self.path(),
    {
        &self.transcript_path
    }
}

} // verus!
