//! What one running server serves.

use vstd::prelude::*;

verus! {

/// The configuration of one server session. It is fixed when the server
/// starts and lives as long as the process does.
#[derive(Clone, Debug, PartialEq, Eq)]
pub struct ServerSession {
    /// The id of the serving process.
    pub process_id: u32,
    /// The TCP port the server listens on.
    pub listen_port: u16,
    /// Where the compiled binary module lies.
    pub primary_artifact_path: String,
    /// Where the companion script lies, when the build produced one.
    pub glue_script_path: Option<String>,
    /// Whether browsers may poll for rebuilds.
    pub watch_mode_enabled: bool,
    /// The directory that other build outputs are served from.
    pub output_directory: String,
}

/// A `ServerSession` as mathematical values.
pub struct SessionView {
    pub process_id: u32,
    pub listen_port: u16,
    pub primary_artifact_path: Seq<char>,
    pub glue_script_path: Option<Seq<char>>,
    pub watch_mode_enabled: bool,
    pub output_directory: Seq<char>,
}

impl View for ServerSession {
    type V = SessionView;

    open spec fn view(&self) -> SessionView {
        SessionView {
            process_id: self.process_id,
            listen_port: self.listen_port,
            primary_artifact_path: self.primary_artifact_path@,
            glue_script_path: match self.glue_script_path {
                Some(path) => Some(path@),
                None => None,
            },
            watch_mode_enabled: self.watch_mode_enabled,
            output_directory: self.output_directory@,
        }
    }
}

} // verus!
