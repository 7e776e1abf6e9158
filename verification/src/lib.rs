//! Stories for tests: a test tells what it does in Given, When and Then
//! steps while it runs, and the telling is kept, with timings, tags and
//! attachments, as one test case of a run that is written out as JSON.
//!
//! `Story` is the narrative of one test case, `Collector` gathers the
//! finished test cases of a run, and the records in `types` say what is
//! written. Every function comes with a contract over the models of these
//! types. The contracts are proved, but for the few that say what std,
//! `serde_json` and `opentelemetry` do; those are marked where they stand.

pub mod calculator;
pub mod ci;
pub mod clock;
pub mod collector;
pub mod doc_entry;
pub mod json;
pub mod json_writer;
pub mod keyword;
pub mod millis;
pub mod story;
pub mod story_proofs;
pub mod text;
pub mod trace;
pub mod types;
pub mod wire;

pub use ci::{detect_ci, CiEnv};
pub use collector::{Collector, OrderSeq, SCHEMA_VERSION};
pub use doc_entry::DocEntry;
pub use json::{Json, RenderError};
pub use json_writer::{output_path, render_raw_run, DEFAULT_OUTPUT};
pub use millis::Millis;
pub use story::{StepDoc, Story};
pub use types::{
    RawAttachment, RawCIInfo, RawError, RawRun, RawStepEvent, RawTestCase, StoryMeta, StoryStep,
};
