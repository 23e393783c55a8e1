//! The `update` command: whether the latest release is newer than the running
//! version, and what to report. Fetching releases and replacing the binary is
//! the caller's part.
use vstd::prelude::*;

use crate::output::{error, info, lines_view, plain, push_line, step, success, Line};
use crate::text::{cat, cat3, str_eq};

verus! {

/// The arguments of `update`: none.
#[derive(Debug, Clone, Copy)]
pub struct UpdateArgs;

/// The `update` command.
#[derive(Debug, Clone, Copy)]
pub struct UpdateCommand;

/// What to do about the latest release.
#[derive(Debug, Clone)]
pub enum UpdatePlan {
    /// The running version is the latest: report it and stop.
    UpToDate(Vec<Line>),
    /// A different release is out: report it, then install it.
    Install(Vec<Line>),
}

/// How an installation ended.
#[derive(Debug, Clone)]
pub enum UpdateStatus {
    /// The installer found nothing newer; the version it has.
    AlreadyCurrent(String),
    /// The installer put this version in place.
    Updated(String),
    /// The installer failed; the cause, as text.
    Failed(String),
}

impl UpdateCommand {
    /// Compares the running version with the latest release's.
    pub fn plan(&self, current: &str, latest: &str) -> (r: UpdatePlan)
        ensures
            match r {
                UpdatePlan::UpToDate(l) => current@ == latest@ && lines_view(l@) == seq![
                    crate::output::success_view("Already up to date (v"@ + current@ + ")"@),
                ],
                UpdatePlan::Install(l) => current@ != latest@ && lines_view(l@) == seq![
                    crate::output::info_view("Found newer version: "@ + current@ + " -> "@ + latest@),
                    crate::output::step_view("Downloading and installing update..."@),
                ],
            },
    {
        let mut lines: Vec<Line> = Vec::new();
        if str_eq(current, latest) {
            push_line(&mut lines, success(cat3("Already up to date (v", current, ")").as_str()));
            assert(lines_view(lines@) =~= seq![
                crate::output::success_view("Already up to date (v"@ + current@ + ")"@),
            ]);
            UpdatePlan::UpToDate(lines)
        } else {
            push_line(
                &mut lines,
                info(cat3(&cat("Found newer version: ", current), " -> ", latest).as_str()),
            );
            push_line(&mut lines, step("Downloading and installing update..."));
            assert(lines_view(lines@) =~= seq![
                crate::output::info_view("Found newer version: "@ + current@ + " -> "@ + latest@),
                crate::output::step_view("Downloading and installing update..."@),
            ]);
            UpdatePlan::Install(lines)
        }
    }

    /// What to report once the installer has run; a failure comes with where to
    /// download the release by hand.
    pub fn report(&self, status: &UpdateStatus) -> (r: Vec<Line>)
        ensures
            lines_view(r@) == match status {
                UpdateStatus::AlreadyCurrent(v) => seq![
                    crate::output::success_view("Already up to date (v"@ + v@ + ")"@),
                ],
                UpdateStatus::Updated(v) => seq![
                    crate::output::success_view("Successfully updated to v"@ + v@),
                    crate::output::info_view(
                        "Restart your terminal or run 'cza --version' to verify the update"@,
                    ),
                ],
                UpdateStatus::Failed(e) => seq![
                    crate::output::error_view("Update failed: "@ + e@),
                    crate::output::info_view("You can manually download the latest version from:"@),
                    crate::output::out_line(
                        None,
                        seq![
                            ("https://github.com/sripwoud/cza/releases/latest"@, crate::output::plain_style()),
                        ],
                    ),
                ],
            },
    {
        let mut r: Vec<Line> = Vec::new();
        match status {
            UpdateStatus::AlreadyCurrent(v) => {
                push_line(&mut r, success(cat3("Already up to date (v", v.as_str(), ")").as_str()));
            },
            UpdateStatus::Updated(v) => {
                push_line(&mut r, success(cat("Successfully updated to v", v.as_str()).as_str()));
                push_line(
                    &mut r,
                    info("Restart your terminal or run 'cza --version' to verify the update"),
                );
            },
            UpdateStatus::Failed(e) => {
                push_line(&mut r, error(cat("Update failed: ", e.as_str()).as_str()));
                push_line(&mut r, info("You can manually download the latest version from:"));
                push_line(&mut r, plain("https://github.com/sripwoud/cza/releases/latest"));
            },
        }
        proof {
            match status {
                UpdateStatus::AlreadyCurrent(v) => {
                    assert(lines_view(r@) =~= seq![
                        crate::output::success_view("Already up to date (v"@ + v@ + ")"@),
                    ]);
                },
                UpdateStatus::Updated(v) => {
                    assert(lines_view(r@) =~= seq![
                        crate::output::success_view("Successfully updated to v"@ + v@),
                        crate::output::info_view(
                            "Restart your terminal or run 'cza --version' to verify the update"@,
                        ),
                    ]);
                },
                UpdateStatus::Failed(e) => {
                    assert(lines_view(r@) =~= seq![
                        crate::output::error_view("Update failed: "@ + e@),
                        crate::output::info_view("You can manually download the latest version from:"@),
                        crate::output::out_line(
                            None,
                            seq![
                                ("https://github.com/sripwoud/cza/releases/latest"@, crate::output::plain_style()),
                            ],
                        ),
                    ]);
                },
            }
        }
        r
    }
}

} // verus!
