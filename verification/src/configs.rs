//! Configuration values the prompt is built from: the root configuration with
//! its fixed module order, and the per-segment configuration shape.

use vstd::prelude::*;

use vstd::string::StringExecFns;

use crate::style::Style;

verus! {

/// Configuration of one segment: its value and an optional style override.
#[derive(Clone)]
pub struct SegmentConfig {
    pub value: String,
    pub style: Option<Style>,
}

impl Default for SegmentConfig {
    /// An empty value with no style override.
    fn default() -> (r: SegmentConfig)
        ensures
            r.value@ == Seq::<char>::empty(),
            r.style is None,
    {
        SegmentConfig { value: String::new(), style: None }
    }
}

/// The root configuration: whether a newline precedes the prompt, the fixed
/// module order, and the scan-timeout budget in milliseconds.
pub struct StarshipRootConfig {
    pub add_newline: bool,
    pub prompt_order: Vec<String>,
    pub scan_timeout: u64,
}

/// The default module order.
pub open spec fn default_prompt_order() -> Seq<Seq<char>> {
    seq![
        "directory"@,
        "git_branch"@,
        "git_state"@,
        "git_status"@,
        "git_track"@,
        "golang"@,
        "python"@,
        "rust"@,
        "elixir"@,
        "aws"@,
        "cmd_duration"@,
        "line_break"@,
        "jobs"@,
        "time"@,
        "character"@,
    ]
}

impl StarshipRootConfig {
    pub fn new() -> (r: StarshipRootConfig)
        ensures
            r.add_newline == true,
            r.prompt_order.deep_view() == default_prompt_order(),
            r.scan_timeout == 30u64,
    {
        let mut prompt_order: Vec<String> = Vec::new();
        prompt_order.push("directory".to_owned());
        prompt_order.push("git_branch".to_owned());
        prompt_order.push("git_state".to_owned());
        prompt_order.push("git_status".to_owned());
        prompt_order.push("git_track".to_owned());
        prompt_order.push("golang".to_owned());
        prompt_order.push("python".to_owned());
        prompt_order.push("rust".to_owned());
        prompt_order.push("elixir".to_owned());
        prompt_order.push("aws".to_owned());
        prompt_order.push("cmd_duration".to_owned());
        prompt_order.push("line_break".to_owned());
        prompt_order.push("jobs".to_owned());
        prompt_order.push("time".to_owned());
        prompt_order.push("character".to_owned());
        proof {
            assert(prompt_order.deep_view() =~~= default_prompt_order());
        }
        StarshipRootConfig { add_newline: true, prompt_order, scan_timeout: 30 }
    }
}

} // verus!
