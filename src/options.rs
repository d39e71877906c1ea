//! Options for opening a database.
use vstd::prelude::*;

verus! {

/// Options for opening a database, as the host passes them.
#[derive(Clone, Copy, Debug, PartialEq, Eq, Structural)]
pub struct JsOpenOptions {
    /// Enable automatic text embedding for semantic search.
    pub auto_embed: Option<bool>,
    /// Open in read-only mode.
    pub read_only: Option<bool>,
}

/// The settings a database is opened with.
#[derive(Clone, Copy, Debug, PartialEq, Eq, Structural)]
pub struct OpenSettings {
    pub auto_embed: bool,
    pub read_only: bool,
}

impl JsOpenOptions {
    /// The settings these options ask for: each is off unless set to `true`.
    pub fn settings(options: Option<JsOpenOptions>) -> (r: OpenSettings)
        ensures
            r.auto_embed == (options matches Some(o) && o.auto_embed == Some(true)),
            r.read_only == (options matches Some(o) && o.read_only == Some(true)),
    {
        match options {
            Some(o) => OpenSettings {
                auto_embed: match o.auto_embed {
                    Some(b) => b,
                    None => false,
                },
                read_only: match o.read_only {
                    Some(b) => b,
                    None => false,
                },
            },
            None => OpenSettings { auto_embed: false, read_only: false },
        }
    }
}

} // verus!
