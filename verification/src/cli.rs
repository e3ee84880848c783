//! Command-line options of the application.
use vstd::prelude::*;

verus! {

/// The options the application accepts on its command line.
#[derive(Clone, Copy, Debug)]
pub struct CliArgs {
    /// Start with the main window hidden.
    pub start_hidden: bool,
    /// Disable the system tray icon.
    pub no_tray: bool,
    /// Open the running instance (the recording toggle is disabled in
    /// file-only mode).
    pub toggle_transcription: bool,
    /// Open the running instance (the recording toggle is disabled in
    /// file-only mode).
    pub toggle_post_process: bool,
    /// Cancel the current operation (sent to the running instance).
    pub cancel: bool,
    /// Enable debug mode with verbose logging.
    pub debug: bool,
}

impl Default for CliArgs {
    fn default() -> (r: Self)
        ensures
            !r.start_hidden && !r.no_tray && !r.toggle_transcription && !r.toggle_post_process
                && !r.cancel && !r.debug,
    {
        CliArgs {
            start_hidden: false,
            no_tray: false,
            toggle_transcription: false,
            toggle_post_process: false,
            cancel: false,
            debug: false,
        }
    }
}

} // verus!
