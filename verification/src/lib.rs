//! Build-and-flash pipeline for embedded firmware images.
//!
//! The library interprets the structured event stream of a build process to
//! select exactly one output artifact while collecting diagnostics, and it
//! assembles the scripted command sequence handed to the external flashing
//! tool, classifying each subprocess outcome.

mod args;
mod decode;
mod errors;
mod events;
mod script;
mod stream;

pub use args::build_tool_args;
pub use decode::decoded_event;
pub use decode::parse_event;
pub use errors::decimal_text;
pub use errors::error_message_text;
pub use errors::signed_decimal_text;
pub use args::build_tool_args_model;
pub use args::forwarded_args;
pub use args::subcommand_token;
pub use script::flash_tool_args;
pub use script::flash_tool_args_model;
pub use script::lemma_command_embeds_path;
pub use script::program_device_command;
pub use script::program_device_command_text;
pub use script::program_device_proc;
pub use script::program_device_proc_text;

pub use errors::PipelineError;
pub use errors::ProcessOutcome;
pub use events::BuildEvent;
pub use events::EventModel;
pub use events::capture_path;
pub use events::diag_text;
pub use events::diagnostic_of;
pub use events::is_capture;
pub use events::is_message;
pub use events::message_text;
pub use stream::ArtifactSelection;
pub use stream::SelectionModel;
pub use stream::captures;
pub use stream::diagnostics;
pub use stream::finalize_model;
pub use stream::lemma_diagnostics_from_messages;
pub use stream::lemma_diagnostics_independent;
pub use stream::lemma_selection_step_fold;
pub use stream::message_events;
pub use stream::message_texts;
pub use stream::result_model;
pub use stream::run_build;
pub use stream::selection_of;
pub use stream::selection_step;
