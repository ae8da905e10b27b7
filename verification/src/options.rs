//! What a deployment is asked to do.

use crate::platform::BuildProfile;
use vstd::prelude::*;
use vstd::string::*;

verus! {

/// The form in which the summary of a run is written.
#[derive(Clone, Copy, Debug, PartialEq, Eq, Structural)]
pub enum SummaryFormat {
    /// Lines of text, shown while the run proceeds.
    Text,
    /// One line of JSON.
    Json,
    /// Indented JSON.
    JsonPretty,
}

impl Default for SummaryFormat {
    fn default() -> (format: SummaryFormat)
        ensures
            format == SummaryFormat::Text,
    {
        SummaryFormat::Text
    }
}

/// The layout of a project.
#[derive(Clone, Copy, Debug, PartialEq, Eq, Structural)]
pub enum ProjectType {
    /// The package lies in the project directory.
    Standard,
    /// The package lies in the `src-tauri` directory of a Tauri application,
    /// whose configuration may name a further executable.
    Tauri,
}

/// The options of a deployment.
#[derive(Clone, Debug, PartialEq, Eq)]
pub struct RunOptions {
    /// The destination that was asked for, if one was.
    pub target_override: Option<String>,
    /// Whether progress output is suppressed.
    pub quiet: bool,
    /// The form of the summary.
    pub summary: SummaryFormat,
    /// The profile whose artifacts are deployed.
    pub profile: BuildProfile,
    /// The layout to assume, where it is not to be detected.
    pub project_type: Option<ProjectType>,
}

/// The mathematical content of [`RunOptions`].
pub struct OptionsModel {
    pub target_override: Option<Seq<char>>,
    pub quiet: bool,
    pub summary: SummaryFormat,
    pub profile: BuildProfile,
    pub project_type: Option<ProjectType>,
}

impl View for RunOptions {
    type V = OptionsModel;

    open spec fn view(&self) -> OptionsModel {
        OptionsModel {
            target_override: match self.target_override {
                Some(path) => Some(path@),
                None => None,
            },
            quiet: self.quiet,
            summary: self.summary,
            profile: self.profile,
            project_type: self.project_type,
        }
    }
}

/// The options of a run that was asked for nothing in particular: the
/// default destination, progress output, a summary in text, the release
/// profile, and a layout that is detected.
pub open spec fn default_options() -> OptionsModel {
    OptionsModel {
        target_override: None,
        quiet: false,
        summary: SummaryFormat::Text,
        profile: BuildProfile::Release,
        project_type: None,
    }
}

impl Default for RunOptions {
    fn default() -> (options: RunOptions)
        ensures
            options@ == default_options(),
    {
        RunOptions {
            target_override: None,
            quiet: false,
            summary: SummaryFormat::Text,
            profile: BuildProfile::Release,
            project_type: None,
        }
    }
}

impl RunOptions {
    /// Whether progress is shown as text while the run proceeds.
    pub fn emits_text(&self) -> (shown: bool)
        ensures
            shown == (self.summary == SummaryFormat::Text && !self.quiet),
    {
        match self.summary {
            SummaryFormat::Text => !self.quiet,
            _ => false,
        }
    }

    /// Whether the summary is written as JSON.
    pub fn produces_json(&self) -> (json: bool)
        ensures
            json == (self.summary == SummaryFormat::Json || self.summary
                == SummaryFormat::JsonPretty),
    {
        match self.summary {
            SummaryFormat::Text => false,
            _ => true,
        }
    }
}

} // verus!
