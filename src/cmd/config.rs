//! The `config` command: what each subcommand does to the settings document
//! and what it reports. Loading and saving the document is the caller's part.
use vstd::prelude::*;

use crate::config::{default_view, get_view, list_view, pair_views, set_view, accepts, Config, ConfigError, ConfigView};
use crate::output::{header, info, lines_view, plain, push_line, success, warning, Line, LineView};
use crate::text::{cat, cat3};

verus! {

/// A `config` subcommand.
#[derive(Debug, Clone)]
pub enum ConfigSubcommand {
    /// Store a value.
    SetValue { key: String, value: String },
    /// Show a value.
    Get { key: String },
    /// Show every value.
    List,
    /// Put every value back to its default.
    Reset,
    /// Show where the settings are kept.
    Path,
}

/// The arguments of `config`; no subcommand lists the values.
#[derive(Debug, Clone)]
pub struct ConfigArgs {
    pub command: Option<ConfigSubcommand>,
}

/// The `config` command.
#[derive(Debug, Clone, Copy)]
pub struct ConfigCommand;

/// What the caller does after a subcommand ran.
#[derive(Debug, Clone, Copy, PartialEq, Eq, Structural)]
pub enum ConfigEffect {
    /// Nothing more.
    Nothing,
    /// Save the changed document, then print.
    Save,
    /// Print where the settings are kept.
    ShowPath,
}

/// A listed value: indented `key = value`.
pub open spec fn entry_line(p: (Seq<char>, Seq<char>)) -> LineView {
    crate::output::out_line(None, seq![("  "@ + p.0 + " = "@ + p.1, crate::output::plain_style())])
}

/// The lines of the listing.
pub open spec fn listing_view(c: ConfigView) -> Seq<LineView> {
    crate::output::header_view("Configuration Values"@) + list_view(c).map_values(|p: (Seq<char>, Seq<char>)| entry_line(p))
}

/// What `get` reports.
pub open spec fn get_report(c: ConfigView, key: Seq<char>) -> LineView {
    match get_view(c, key) {
        Some(v) => crate::output::info_view(key + " = "@ + v),
        None => crate::output::warning_view("Configuration key '"@ + key + "' not found"@),
    }
}

impl ConfigCommand {
    /// The listing of every value under a heading.
    pub fn listing(&self, config: &Config) -> (r: Vec<Line>)
        ensures
            lines_view(r@) == listing_view(config@),
    {
        let entries = config.list();
        let mut r = header("Configuration Values");
        let ghost all = list_view(config@);
        assert(lines_view(r@).take(3) =~= lines_view(r@));
        let mut i: usize = 0;
        while i < entries.len()
            invariant
                pair_views(entries@) == all,
                all == list_view(config@),
                i <= entries@.len(),
                r@.len() == 3 + i,
                lines_view(r@).take(3) == crate::output::header_view("Configuration Values"@),
                forall|j: int| 0 <= j < i ==> #[trigger] lines_view(r@)[3 + j] == entry_line(all[j]),
            decreases entries@.len() - i,
        {
            let l = plain(
                cat3(
                    &cat("  ", entries[i].0.as_str()),
                    " = ",
                    entries[i].1.as_str(),
                ).as_str(),
            );
            assert(all[i as int] == (entries@[i as int].0@, entries@[i as int].1@));
            let ghost before = lines_view(r@);
            push_line(&mut r, l);
            assert(lines_view(r@).take(3) =~= before.take(3));
            i = i + 1;
        }
        proof {
            let want = listing_view(config@);
            assert(all.len() == entries@.len());
            assert forall|j: int| 0 <= j < all.len() implies want[3 + j] == entry_line(all[j]) by {
                assert(want[3 + j] == all.map_values(|p: (Seq<char>, Seq<char>)| entry_line(p))[j]);
            }
            assert forall|j: int| 0 <= j < 3 implies lines_view(r@)[j] == want[j] by {
                assert(lines_view(r@)[j] == lines_view(r@).take(3)[j]);
            }
            assert(lines_view(r@) =~= want);
        }
        r
    }

    /// Runs a subcommand on a loaded document: `set` and `reset` change it and
    /// ask for a save, `get` and `list` report, `path` asks the caller to show
    /// where the settings are kept. A `set` that fails leaves the document as
    /// it was and reports why.
    pub fn apply(&self, command: &Option<ConfigSubcommand>, config: &mut Config) -> (r: Result<
        (ConfigEffect, Vec<Line>),
        ConfigError,
    >)
        ensures
            match command {
                Some(ConfigSubcommand::SetValue { key, value }) => {
                    &&& (r is Ok <==> accepts(key@, value@))
                    &&& r is Ok ==> final(config)@ == set_view(old(config)@, key@, value@) && r->Ok_0.0
                        == ConfigEffect::Save && lines_view(r->Ok_0.1@) == seq![
                        crate::output::success_view("Set "@ + key@ + " = "@ + value@),
                    ]
                    &&& r is Err ==> final(config)@ == old(config)@
                },
                Some(ConfigSubcommand::Get { key }) => r is Ok && final(config)@ == old(config)@
                    && r->Ok_0.0 == ConfigEffect::Nothing && lines_view(r->Ok_0.1@) == seq![
                    get_report(old(config)@, key@),
                ],
                Some(ConfigSubcommand::Reset) => r is Ok && final(config)@ == default_view()
                    && r->Ok_0.0 == ConfigEffect::Save && lines_view(r->Ok_0.1@) == seq![
                    crate::output::success_view("Configuration reset to defaults"@),
                ],
                Some(ConfigSubcommand::Path) => r is Ok && final(config)@ == old(config)@
                    && r->Ok_0.0 == ConfigEffect::ShowPath && r->Ok_0.1@.len() == 0,
                _ => r is Ok && final(config)@ == old(config)@ && r->Ok_0.0 == ConfigEffect::Nothing
                    && lines_view(r->Ok_0.1@) == listing_view(old(config)@),
            },
    {
        match command {
            Some(ConfigSubcommand::SetValue { key, value }) => {
                match config.set(key.as_str(), value.as_str()) {
                    Ok(()) => {
                        let mut lines: Vec<Line> = Vec::new();
                        push_line(
                            &mut lines,
                            success(
                                cat3(&cat("Set ", key.as_str()), " = ", value.as_str()).as_str(),
                            ),
                        );
                        Ok((ConfigEffect::Save, lines))
                    },
                    Err(e) => Err(e),
                }
            },
            Some(ConfigSubcommand::Get { key }) => {
                let mut lines: Vec<Line> = Vec::new();
                match config.get(key.as_str()) {
                    Some(v) => push_line(
                        &mut lines,
                        info(cat3(key.as_str(), " = ", v.as_str()).as_str()),
                    ),
                    None => push_line(
                        &mut lines,
                        warning(cat3("Configuration key '", key.as_str(), "' not found").as_str()),
                    ),
                }
                Ok((ConfigEffect::Nothing, lines))
            },
            Some(ConfigSubcommand::Reset) => {
                config.reset();
                let mut lines: Vec<Line> = Vec::new();
                push_line(&mut lines, success("Configuration reset to defaults"));
                Ok((ConfigEffect::Save, lines))
            },
            Some(ConfigSubcommand::Path) => Ok((ConfigEffect::ShowPath, Vec::new())),
            _ => Ok((ConfigEffect::Nothing, self.listing(config))),
        }
    }

    /// The line that shows where the settings are kept.
    pub fn path_line(&self, path: &str) -> (r: Line)
        ensures
            r@ == crate::output::info_view("Configuration file: "@ + path@),
    {
        info(cat("Configuration file: ", path).as_str())
    }
}

} // verus!
