//! Anonymous file drop: the verified core of an upload service.
//!
//! Clients put a file under a chosen name; the body is streamed to a private
//! staging file under a byte ceiling and then published by one rename.
//! This crate holds the rules: which names are accepted, how the upload
//! session reacts to each event, and how the reply is worded.
mod base_url;
mod decimal;
mod laws;
mod name;
mod quote;
mod reply;
mod upload;

pub use base_url::{
    base_url_from_trimmed, base_url_of, has_prefix, normalize_base_url, strip_trailing_slashes,
    trim_of,
};
pub use decimal::{decimal, digit_char, push_decimal};
pub use laws::{
    chunk_events, clean_upload, lemma_ceiling_kept, lemma_no_write_after_end,
    lemma_over_ceiling_discards, lemma_publish_only_after_flush, lemma_staging_differs,
    lemma_within_ceiling_publishes_all, run, total, writes,
};
pub use name::{is_valid_name, name_char, no_parent_step, no_separator, valid_name};
pub use quote::{all_shell_safe, escape_quotes, sh_quote, shell_safe, shell_word};
pub use reply::{
    created_body, created_body_of, fetch_command, fetch_command_of, location_of, location_path,
    staging_name, staging_of,
};
pub use upload::{Action, Event, Phase, UploadConfig, UploadError, UploadSession};
