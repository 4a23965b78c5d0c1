//! The panel that shows the GitHub context of a thread.
use std::path::PathBuf;

use vstd::prelude::*;

use crate::github::{GithubContext, GithubContextModel, GithubRef, DEFAULT_LIMIT};
use crate::text::{concatenated, decimal, decimal_text};
use crate::ui::{
    optional_toggle, push_section, render_rows, section_models, section_of, small, toggle_of,
    Color, Icon, IconName, Label, LabelModel, LabelSize, Section, SectionModel, Toggle,
    ToggleModel,
};

verus! {

/// The panel that shows the GitHub context of one thread. It starts closed, and
/// loads once.
pub struct GithubContextView {
    thread: u64,
    state: LoadState,
    expanded: bool,
}

/// Whether the snapshot has come.
enum LoadState {
    Loading,
    Loaded(GithubContext),
}

/// What a [`GithubContextView`] stands for.
#[verifier::ext_equal]
pub struct GithubPanelModel {
    /// The thread that the panel is bound to.
    pub thread: u64,
    /// The snapshot, once it has come.
    pub context: Option<GithubContextModel>,
    pub expanded: bool,
}

impl View for GithubContextView {
    type V = GithubPanelModel;

    closed spec fn view(&self) -> GithubPanelModel {
        GithubPanelModel {
            thread: self.thread,
            context: match self.state {
                LoadState::Loading => None,
                LoadState::Loaded(context) => Some(context@),
            },
            expanded: self.expanded,
        }
    }
}

/// What is done to load the snapshot of a panel.
#[derive(Debug, PartialEq, Eq)]
pub enum GithubLoad {
    /// Fetch the snapshot in a directory, with a limit on its lists.
    Fetch(PathBuf, usize),
    /// Show an empty snapshot.
    Empty(GithubContext),
}

/// A snapshot that can be opened: it has a repository and something to list.
pub open spec fn expandable(context: GithubContextModel) -> bool {
    context.available && (context.issues.len() > 0 || context.pull_requests.len() > 0)
}

/// The row of an issue or a pull request.
pub open spec fn ref_row(number: u64, title: Seq<char>) -> Seq<char> {
    "#"@ + decimal_text(number as nat) + " "@ + title
}

/// The rows of issues or pull requests.
pub open spec fn ref_rows(refs: Seq<(u64, Seq<char>)>) -> Seq<Seq<char>> {
    Seq::new(refs.len(), |i: int| ref_row(refs[i].0, refs[i].1))
}

/// What the user can press.
#[derive(Clone, Copy, Debug, PartialEq, Eq, Structural)]
pub enum GithubControl {
    /// The toggle.
    Toggle,
}

/// What a pressed control leads to: the toggle opens or closes the panel.
pub open spec fn pressed(panel: GithubPanelModel, control: GithubControl) -> GithubPanelModel {
    match control {
        GithubControl::Toggle => GithubPanelModel { expanded: !panel.expanded, ..panel },
    }
}

/// What the panel shows of a snapshot.
#[derive(Debug, PartialEq, Eq)]
pub struct GithubLoaded {
    /// Pressing it is [`GithubControl::Toggle`].
    pub toggle: Option<Toggle>,
    pub icon: Icon,
    pub summary: Label,
    pub sections: Vec<Section>,
}

/// What a [`GithubLoaded`] stands for.
#[verifier::ext_equal]
pub struct GithubLoadedModel {
    pub toggle: Option<ToggleModel>,
    pub icon: Icon,
    pub summary: LabelModel,
    pub sections: Seq<SectionModel>,
}

impl View for GithubLoaded {
    type V = GithubLoadedModel;

    open spec fn view(&self) -> GithubLoadedModel {
        GithubLoadedModel {
            toggle: optional_toggle(self.toggle),
            icon: self.icon,
            summary: self.summary@,
            sections: section_models(self.sections@),
        }
    }
}

/// What the panel shows.
#[derive(Debug, PartialEq, Eq)]
pub enum GithubPanel {
    Loading(Label),
    Loaded(GithubLoaded),
}

/// The colour of the header.
pub open spec fn header_color(available: bool) -> Color {
    if available {
        Color::Default
    } else {
        Color::Muted
    }
}

/// The text while the snapshot is on its way.
pub open spec fn loading_label() -> LabelModel {
    small("Loading GitHub context…"@, Color::Muted)
}

/// What the panel shows of a snapshot: its summary, with a toggle where it can be
/// opened, and its lists where it is open.
pub open spec fn shown(context: GithubContextModel, expanded: bool) -> GithubLoadedModel {
    GithubLoadedModel {
        toggle: toggle_of("github-context-toggle"@, expandable(context), expanded),
        icon: Icon { name: IconName::Github, color: header_color(context.available) },
        summary: small(context.summary(), header_color(context.available)),
        sections: if expandable(context) && expanded {
            section_of("Open issues"@, ref_rows(context.issues)) + section_of(
                "Open pull requests"@,
                ref_rows(context.pull_requests),
            )
        } else {
            Seq::empty()
        },
    }
}

impl GithubContextView {
    /// A panel that is bound to a thread, and what is done to load its snapshot:
    /// without a directory there is nothing to fetch.
    pub fn new(thread: u64, work_dir: Option<PathBuf>) -> (panel: (GithubContextView, GithubLoad))
        ensures
            panel.0@ == (GithubPanelModel { thread, context: None, expanded: false }),
            match work_dir {
                Some(work_dir) => panel.1 == GithubLoad::Fetch(work_dir, DEFAULT_LIMIT),
                None => {
                    &&& panel.1 is Empty
                    &&& panel.1->Empty_0@ == (GithubContextModel {
                        available: false,
                        status: None,
                        repo: None,
                        issues: Seq::empty(),
                        pull_requests: Seq::empty(),
                    })
                },
            },
    {
        let load = match work_dir {
            Some(work_dir) => GithubLoad::Fetch(work_dir, DEFAULT_LIMIT),
            None => GithubLoad::Empty(GithubContext::default()),
        };
        (GithubContextView { thread, state: LoadState::Loading, expanded: false }, load)
    }

    /// The thread that the panel is bound to.
    pub fn thread(&self) -> (thread: u64)
        ensures
            thread == self@.thread,
    {
        self.thread
    }

    /// Takes the snapshot over.
    pub fn loaded(&mut self, context: GithubContext)
        ensures
            final(self)@ == (GithubPanelModel { context: Some(context@), ..old(self)@ }),
    {
        self.state = LoadState::Loaded(context);
    }

    /// Opens or closes the panel.
    pub fn toggle_expanded(&mut self)
        ensures
            final(self)@ == (GithubPanelModel { expanded: !old(self)@.expanded, ..old(self)@ }),
    {
        self.expanded = !self.expanded;
    }

    /// Does what a pressed control stands for.
    pub fn press(&mut self, control: GithubControl)
        ensures
            final(self)@ == pressed(old(self)@, control),
    {
        match control {
            GithubControl::Toggle => self.toggle_expanded(),
        }
    }

    /// A snapshot can be opened where it has a repository and something to list.
    pub fn is_expandable(context: &GithubContext) -> (can: bool)
        ensures
            can == expandable(context@),
    {
        context.available && (context.issues.len() > 0 || context.pull_requests.len() > 0)
    }

    /// The row of an issue or a pull request.
    pub fn ref_label(reference: &GithubRef) -> (label: String)
        ensures
            label@ == ref_row(reference.number, reference.title@),
    {
        let mut label = concatenated("#", decimal(reference.number).as_str());
        label.append(" ");
        label.append(reference.title.as_str());
        label
    }

    /// The section of the issues or of the pull requests.
    fn render_ref_section(title: &str, refs: &Vec<GithubRef>) -> (section: Option<Section>)
        ensures
            section is Some ==> section_of(title@, ref_rows(crate::github::ref_views(refs@)))
                == seq![section->0@],
            section is None ==> section_of(title@, ref_rows(crate::github::ref_views(refs@)))
                == Seq::<SectionModel>::empty(),
    {
        let ghost expected = ref_rows(crate::github::ref_views(refs@));
        let mut rows: Vec<String> = Vec::new();
        let mut i: usize = 0;
        while i < refs.len()
            invariant
                i <= refs@.len(),
                rows@.len() == i,
                expected == ref_rows(crate::github::ref_views(refs@)),
                forall|j: int| 0 <= j < i ==> (#[trigger] rows@[j])@ == expected[j],
            decreases refs@.len() - i,
        {
            rows.push(Self::ref_label(&refs[i]));
            i = i + 1;
        }
        assert(rows.deep_view() =~= expected);
        render_rows(title, rows)
    }

    /// The text while the snapshot is on its way.
    fn render_loading() -> (label: Label)
        ensures
            label@ == loading_label(),
    {
        Label::small("Loading GitHub context…".to_owned(), Color::Muted)
    }

    /// What the panel shows of a snapshot.
    fn render_loaded(context: &GithubContext, expanded: bool) -> (panel: GithubLoaded)
        ensures
            panel@ == shown(context@, expanded),
    {
        let expandable = Self::is_expandable(context);
        let text_color = if context.available {
            Color::Default
        } else {
            Color::Muted
        };
        let toggle = Toggle::of("github-context-toggle", expandable, expanded);
        let icon = Icon { name: IconName::Github, color: text_color };
        let summary = Label::small(context.summary_label(), text_color);
        let mut sections: Vec<Section> = Vec::new();
        assert(section_models(sections@) =~= Seq::empty());
        if expandable && expanded {
            let issues = Self::render_ref_section("Open issues", &context.issues);
            push_section(&mut sections, issues);
            let pull_requests = Self::render_ref_section(
                "Open pull requests",
                &context.pull_requests,
            );
            push_section(&mut sections, pull_requests);
        }
        GithubLoaded { toggle, icon, summary, sections }
    }

    /// What the panel shows.
    pub fn render(&self) -> (panel: GithubPanel)
        ensures
            match self@.context {
                None => panel is Loading && panel->Loading_0@ == loading_label(),
                Some(context) => panel is Loaded && panel->Loaded_0@ == shown(
                    context,
                    self@.expanded,
                ),
            },
    {
        match &self.state {
            LoadState::Loading => GithubPanel::Loading(Self::render_loading()),
            LoadState::Loaded(context) => GithubPanel::Loaded(
                Self::render_loaded(context, self.expanded),
            ),
        }
    }
}

/// A degraded snapshot shows its status in a muted colour, and can neither be
/// opened nor lists anything.
pub proof fn degraded_snapshots_stay_closed(status: Seq<char>, expanded: bool)
    ensures
        ({
            let panel = shown(GithubContextModel::told(status), expanded);
            &&& panel.toggle is None
            &&& panel.sections.len() == 0
            &&& panel.summary == small(status, Color::Muted)
        }),
{
}

// ---------------------------------------------------------------------------
// What the panel shows
// ---------------------------------------------------------------------------

/// A panel that is open lists the issues and the pull requests of its snapshot, each
/// list under its title, as far as there is anything in it, and each by its number and
/// its title.
pub proof fn an_open_panel_lists_everything(context: GithubContextModel, k: int)
    requires
        context.available,
        context.issues.len() > 0 || context.pull_requests.len() > 0,
    ensures
        ({
            let sections = shown(context, true).sections;
            let issues: int = if context.issues.len() > 0 {
                1
            } else {
                0
            };
            let pull_requests: int = if context.pull_requests.len() > 0 {
                1
            } else {
                0
            };
            &&& sections.len() == issues + pull_requests
            &&& context.issues.len() > 0 ==> {
                let section = sections[0];
                &&& section.title.text == "Open issues"@ && section.title.color == Color::Muted
                &&& section.rows.len() == context.issues.len()
                &&& 0 <= k < context.issues.len() ==> section.rows[k].text == "#"@ + decimal_text(
                    context.issues[k].0 as nat,
                ) + " "@ + context.issues[k].1 && section.rows[k].color == Color::Default
            }
            &&& context.pull_requests.len() > 0 ==> {
                let section = sections[issues];
                &&& section.title.text == "Open pull requests"@ && section.title.color
                    == Color::Muted
                &&& section.rows.len() == context.pull_requests.len()
                &&& 0 <= k < context.pull_requests.len() ==> section.rows[k].text == "#"@
                    + decimal_text(context.pull_requests[k].0 as nat) + " "@
                    + context.pull_requests[k].1 && section.rows[k].color == Color::Default
            }
        }),
{
    let issues = section_of("Open issues"@, ref_rows(context.issues));
    let pull_requests = section_of("Open pull requests"@, ref_rows(context.pull_requests));
    let sections = issues + pull_requests;
    assert(shown(context, true).sections == sections);
    if context.issues.len() > 0 {
        assert(sections[0] == issues[0]);
    }
    if context.pull_requests.len() > 0 {
        assert(sections[issues.len() as int] == pull_requests[0]);
    }
}

/// A panel lists nothing while it is closed or has nothing to list. It has a toggle
/// exactly where there is something to list, which points down while the panel is
/// open. Its summary is muted unless the snapshot is available.
pub proof fn a_closed_panel_lists_nothing(context: GithubContextModel, expanded: bool)
    ensures
        ({
            let panel = shown(context, expanded);
            let listable = context.available && (context.issues.len() > 0
                || context.pull_requests.len() > 0);
            let color = if context.available {
                Color::Default
            } else {
                Color::Muted
            };
            &&& !expanded || !listable ==> panel.sections.len() == 0
            &&& expandable(context) <==> listable
            &&& panel.toggle is Some <==> listable
            &&& panel.toggle matches Some(toggle) ==> {
                &&& toggle.id == "github-context-toggle"@
                &&& toggle.icon == IconName::ChevronDown <==> expanded
                &&& toggle.icon == IconName::ChevronRight <==> !expanded
            }
            &&& panel.summary.text == context.summary()
            &&& panel.summary.color == color && panel.summary.size == LabelSize::Small
            &&& panel.icon.name == IconName::Github && panel.icon.color == color
        }),
{
}

/// The toggle opens a closed panel and closes an open one, and does nothing else.
pub proof fn the_toggle_opens_and_closes(panel: GithubPanelModel)
    ensures
        pressed(panel, GithubControl::Toggle).expanded == !panel.expanded,
        pressed(panel, GithubControl::Toggle).context == panel.context,
        pressed(panel, GithubControl::Toggle).thread == panel.thread,
        loading_label().text == "Loading GitHub context…"@,
        loading_label().color == Color::Muted && loading_label().size == LabelSize::Small,
{
}

/// A panel stands for what it holds.
pub proof fn a_panel_stands_for_what_it_holds(panel: GithubLoaded)
    ensures
        panel@.toggle == optional_toggle(panel.toggle),
        panel@.icon == panel.icon,
        panel@.summary == panel.summary@,
        panel@.sections == section_models(panel.sections@),
{
}

} // verus!
