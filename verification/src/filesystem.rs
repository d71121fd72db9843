//! Symbolic links, and the filesystems that create them.

use vstd::prelude::*;
use vstd::string::StringExecFns;

verus! {

/// One symbolic link to create: at `destination_path`, pointing to
/// `source_name`.
#[derive(Clone, Debug, PartialEq, Eq)]
pub struct SymlinkRequest {
    pub source_name: String,
    pub destination_path: String,
}

/// What a [`SymlinkRequest`] says, as plain text.
pub ghost struct SymlinkRequestView {
    pub source_name: Seq<char>,
    pub destination_path: Seq<char>,
}

impl View for SymlinkRequest {
    type V = SymlinkRequestView;

    open spec fn view(&self) -> SymlinkRequestView {
        SymlinkRequestView {
            source_name: self.source_name@,
            destination_path: self.destination_path@,
        }
    }
}

impl DeepView for SymlinkRequest {
    type V = SymlinkRequestView;

    open spec fn deep_view(&self) -> SymlinkRequestView {
        self@
    }
}

/// The links asked of a filesystem, oldest first.
pub type LinkLog = Seq<SymlinkRequestView>;

/// Creates symbolic links.
///
/// A filesystem does not return where the link could not be created. What it
/// was asked for is kept in `links`, which is ghost: an implementation in
/// unverified code gives it a body that is never run, such as
/// `unreachable!()`.
pub trait Filesystem {
    /// The links asked of this filesystem so far, oldest first.
    spec fn links(&self) -> LinkLog;

    /// Creates a symbolic link at `link` that points to `original`.
    fn symlink(&mut self, original: &str, link: &str)
        ensures
            final(self).links() == old(self).links().push(
                (SymlinkRequestView { source_name: original@, destination_path: link@ }),
            ),
    ;
}

/// A filesystem for dry runs: it links nothing and keeps what it was asked
/// for.
pub struct RecordingFilesystem {
    pub calls: Vec<SymlinkRequest>,
}

impl RecordingFilesystem {
    /// A filesystem that was asked for nothing yet.
    pub fn new() -> (filesystem: RecordingFilesystem)
        ensures
            filesystem.links() == Seq::<SymlinkRequestView>::empty(),
    {
        RecordingFilesystem { calls: Vec::new() }
    }
}

impl Filesystem for RecordingFilesystem {
    open spec fn links(&self) -> LinkLog {
        self.calls.deep_view()
    }

    fn symlink(&mut self, original: &str, link: &str) {
        let request = SymlinkRequest {
            source_name: String::from_str(original),
            destination_path: String::from_str(link),
        };
        self.calls.push(request);
    }
}

} // verus!
