use vstd::prelude::*;
use crate::json::{pretty_text, value_of, RenderError};
use crate::types::{run_json, RawRun};

verus! {

/// Where a run is written unless the environment names another place.
pub const DEFAULT_OUTPUT: &'static str = ".executable-stories/raw-run.json";

/// The place to write a run to: the one that was configured, else the
/// default.
pub fn output_path(configured: Option<String>) -> (path: String)
    ensures
        path@ == match configured {
            Some(p) => p@,
            None => DEFAULT_OUTPUT@,
        },
{
    match configured {
        Some(p) => p,
        None => DEFAULT_OUTPUT.to_string(),
    }
}

/// Writes a run as indented JSON text, laid out as `run_json` says. This
/// always succeeds.
pub fn render_raw_run(run: &RawRun) -> (r: Result<String, RenderError>)
    ensures
        r matches Ok(s) && s@ == pretty_text(value_of(run_json(run@))),
{
    run.to_json().to_pretty_string()
}

} // verus!
