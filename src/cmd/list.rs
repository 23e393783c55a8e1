//! The `list` command: the lines that show the available templates, in
//! ascending order of key. The JSON form is written by the caller.
use vstd::prelude::*;

use crate::output::{
    append_lines, command_example, header, info, lines_view, push_line, template_detailed,
    template_item, warning, Line, LineView,
};
use crate::template::{keys_ascending, TemplateInfo, TemplateRegistry};
use crate::text::{cat, cat3, contains, is_infix, join_spec, views};

verus! {

/// The arguments of `list`.
#[derive(Debug, Clone)]
pub struct ListArgs {
    /// Show every field of each template.
    pub detailed: bool,
    /// Write the templates as JSON.
    pub json: bool,
}

/// The `list` command.
#[derive(Debug, Clone, Copy)]
pub struct ListCommand;

/// Where to browse a template: for a GitHub repository, the subfolder's tree on
/// the main branch; otherwise the repository itself.
pub open spec fn template_url_view(t: TemplateInfo) -> Seq<char> {
    if is_infix(t.repository@, "github.com"@) {
        t.repository@ + "/tree/main/"@ + t.subfolder@
    } else {
        t.repository@
    }
}

/// The lines of one template.
pub open spec fn entry_lines(detailed: bool, key: Seq<char>, t: TemplateInfo) -> Seq<LineView> {
    if detailed {
        seq![
            crate::output::out_line(
                Some(crate::output::Icon::Step),
                seq![(key, crate::output::st(crate::output::Color::Green, true, false, false))],
            ),
            crate::output::key_value_view("Name"@, t.name@),
            crate::output::key_value_view("Description"@, t.description@),
            crate::output::key_value_view("Frameworks"@, join_spec(views(t.frameworks@), ", "@)),
            crate::output::key_value_view("Repository"@, template_url_view(t)),
            crate::output::blank_view(),
        ] + match t.revision {
            Some(r) => seq![crate::output::info_view("    Pinned to: "@ + r@)],
            None => seq![],
        }
    } else {
        seq![
            crate::output::out_line(
                None,
                seq![
                    ("  "@, crate::output::plain_style()),
                    (key, crate::output::st(crate::output::Color::Green, true, false, false)),
                    (" - "@, crate::output::plain_style()),
                    (t.description@, crate::output::st(crate::output::Color::Default, false, true, false)),
                ],
            ),
        ] + match t.revision {
            Some(_) => seq![crate::output::info_view("      (pinned)"@)],
            None => seq![],
        }
    }
}

/// The lines of the first templates, in order.
pub open spec fn entries_lines(detailed: bool, entries: Seq<(String, TemplateInfo)>) -> Seq<LineView>
    decreases entries.len(),
{
    if entries.len() == 0 {
        seq![]
    } else {
        entries_lines(detailed, entries.drop_last()) + entry_lines(
            detailed,
            entries.last().0@,
            entries.last().1,
        )
    }
}

/// The example commands at the end of a listing.
pub open spec fn usage_view() -> Seq<LineView> {
    crate::output::header_view("To create a new project"@) + seq![
        crate::output::out_line(
            None,
            seq![
                ("  "@, crate::output::plain_style()),
                ("General syntax"@, crate::output::st(crate::output::Color::Default, false, true, false)),
                (": "@, crate::output::plain_style()),
                ("cza new <project-name> --template <template>"@, crate::output::st(crate::output::Color::Green, true, false, false)),
            ],
        ),
        crate::output::out_line(
            None,
            seq![
                ("  "@, crate::output::plain_style()),
                ("Example"@, crate::output::st(crate::output::Color::Default, false, true, false)),
                (": "@, crate::output::plain_style()),
                ("cza new my-zk-app --template noir-vite"@, crate::output::st(crate::output::Color::Green, true, false, false)),
            ],
        ),
    ]
}

/// The whole listing: a warning for an empty registry; otherwise a heading,
/// each template, a pointer to the detailed form unless it is shown, and usage.
pub open spec fn listing_view(detailed: bool, entries: Seq<(String, TemplateInfo)>) -> Seq<LineView> {
    if entries.len() == 0 {
        seq![crate::output::warning_view("No templates available."@)]
    } else {
        crate::output::header_view("Available templates"@) + entries_lines(detailed, entries) + (
        if detailed {
            seq![]
        } else {
            seq![
                crate::output::info_view(
                    "Use 'cza list --detailed' for more information about templates."@,
                ),
            ]
        }) + usage_view()
    }
}

impl ListCommand {
    /// Where to browse a template: for a GitHub repository, the subfolder's
    /// tree on the main branch; otherwise the repository itself.
    pub fn template_url(&self, t: &TemplateInfo) -> (r: String)
        ensures
            r@ == template_url_view(*t),
    {
        if contains(t.repository.as_str(), "github.com") {
            cat3(t.repository.as_str(), "/tree/main/", t.subfolder.as_str())
        } else {
            t.repository.clone()
        }
    }

    /// The lines of one template.
    fn entry(&self, detailed: bool, key: &String, t: &TemplateInfo) -> (r: Vec<Line>)
        ensures
            lines_view(r@) == entry_lines(detailed, key@, *t),
    {
        if detailed {
            let url = self.template_url(t);
            let mut r = template_detailed(
                key.as_str(),
                t.name.as_str(),
                t.description.as_str(),
                &t.frameworks,
                url.as_str(),
            );
            if let Some(rev) = &t.revision {
                push_line(&mut r, info(cat("    Pinned to: ", rev.as_str()).as_str()));
            }
            assert(lines_view(r@) =~= entry_lines(detailed, key@, *t));
            r
        } else {
            let mut r: Vec<Line> = Vec::new();
            push_line(&mut r, template_item(key.as_str(), t.description.as_str()));
            if t.revision.is_some() {
                push_line(&mut r, info("      (pinned)"));
            }
            assert(lines_view(r@) =~= entry_lines(detailed, key@, *t));
            r
        }
    }

    /// The lines that show the templates, in ascending order of key, each
    /// key once.
    pub fn listing(&self, args: &ListArgs, registry: &TemplateRegistry) -> (r: Vec<Line>)
        ensures
            keys_ascending(registry@),
            lines_view(r@) == listing_view(args.detailed, registry@),
    {
        let entries = registry.templates();
        if entries.len() == 0 {
            let mut r: Vec<Line> = Vec::new();
            push_line(&mut r, warning("No templates available."));
            assert(lines_view(r@) =~= listing_view(args.detailed, entries@));
            return r;
        }
        let mut r = header("Available templates");
        let ghost head = lines_view(r@);
        let mut i: usize = 0;
        while i < entries.len()
            invariant
                i <= entries@.len(),
                head == crate::output::header_view("Available templates"@),
                lines_view(r@) == head + entries_lines(args.detailed, entries@.take(i as int)),
            decreases entries@.len() - i,
        {
            let more = self.entry(args.detailed, &entries[i].0, &entries[i].1);
            append_lines(&mut r, &more);
            assert(entries@.take(i + 1).drop_last() =~= entries@.take(i as int));
            assert(head + entries_lines(args.detailed, entries@.take(i + 1)) =~= head + entries_lines(
                args.detailed,
                entries@.take(i as int),
            ) + entry_lines(args.detailed, entries@[i as int].0@, entries@[i as int].1));
            i = i + 1;
        }
        assert(entries@.take(entries@.len() as int) =~= entries@);
        if !args.detailed {
            push_line(
                &mut r,
                info("Use 'cza list --detailed' for more information about templates."),
            );
        }
        append_lines(&mut r, &header("To create a new project"));
        push_line(
            &mut r,
            command_example("General syntax", "cza new <project-name> --template <template>"),
        );
        push_line(&mut r, command_example("Example", "cza new my-zk-app --template noir-vite"));
        assert(lines_view(r@) =~= listing_view(args.detailed, entries@));
        r
    }
}

} // verus!
