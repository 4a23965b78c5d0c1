//! The panel that shows the Linear context of a thread.
use vstd::prelude::*;

use crate::linear::{
    clear_linear_api_key, clearing, connect_linear_from_env, connecting, issue_views,
    optional_change, team_views, KeychainChange, KeychainChangeModel, LinearContext,
    LinearContextModel, LinearIssue, LinearTeam, LINEAR_CONTEXT_DEFAULT_LIMIT,
};
use crate::text::concatenated;
use crate::ui::{
    button, optional_toggle, push_section, render_rows, section_models, section_of, small,
    toggle_of, Button, ButtonModel, ButtonStyle, Color, Icon, IconName, Label, LabelModel,
    LabelSize, Section, SectionModel, Toggle, ToggleModel,
};

verus! {

/// The panel that shows the Linear context of one thread. It starts closed, and
/// never holds a key.
pub struct LinearContextView {
    thread: u64,
    state: LoadState,
    expanded: bool,
}

/// Whether the snapshot has come.
enum LoadState {
    Loading,
    Loaded(LinearContext),
}

/// What a [`LinearContextView`] stands for.
#[verifier::ext_equal]
pub struct LinearPanelModel {
    /// The thread that the panel is bound to.
    pub thread: u64,
    /// The snapshot, once it has come.
    pub context: Option<LinearContextModel>,
    pub expanded: bool,
}

impl View for LinearContextView {
    type V = LinearPanelModel;

    closed spec fn view(&self) -> LinearPanelModel {
        LinearPanelModel {
            thread: self.thread,
            context: match self.state {
                LoadState::Loading => None,
                LoadState::Loaded(context) => Some(context@),
            },
            expanded: self.expanded,
        }
    }
}

/// A snapshot that can be opened: it is authenticated and has something to list.
pub open spec fn expandable(context: LinearContextModel) -> bool {
    context.authenticated && (context.teams.len() > 0 || context.projects.len() > 0
        || context.issues.len() > 0)
}

/// The row of a team or an issue: its key and its name.
pub open spec fn keyed_row(key: Seq<char>, name: Seq<char>) -> Seq<char> {
    key + " "@ + name
}

/// The rows of teams or issues.
pub open spec fn keyed_rows(entries: Seq<(Seq<char>, Seq<char>)>) -> Seq<Seq<char>> {
    Seq::new(entries.len(), |i: int| keyed_row(entries[i].0, entries[i].1))
}

/// What the user can press.
#[derive(Clone, Copy, Debug, PartialEq, Eq, Structural)]
pub enum LinearControl {
    /// The toggle.
    Toggle,
    Connect,
    Disconnect,
}

/// What a pressed control leads to.
#[derive(Debug, PartialEq, Eq)]
pub struct LinearPress {
    /// The keychain is to be changed.
    pub change: Option<KeychainChange>,
    /// The snapshot is to be loaded again, with a limit on its lists.
    pub reload: Option<usize>,
}

/// What a pressed control leads to: the toggle opens or closes the panel, and the
/// others change the keychain and load the snapshot again.
pub open spec fn pressed(
    panel: LinearPanelModel,
    control: LinearControl,
    env: Option<Seq<char>>,
) -> (LinearPanelModel, Option<KeychainChangeModel>, Option<usize>) {
    match control {
        LinearControl::Toggle => (
            LinearPanelModel { expanded: !panel.expanded, ..panel },
            None,
            None,
        ),
        LinearControl::Connect => (
            LinearPanelModel { context: None, ..panel },
            connecting(env),
            Some(LINEAR_CONTEXT_DEFAULT_LIMIT),
        ),
        LinearControl::Disconnect => (
            LinearPanelModel { context: None, ..panel },
            Some(clearing()),
            Some(LINEAR_CONTEXT_DEFAULT_LIMIT),
        ),
    }
}

/// What the panel shows of a snapshot.
#[derive(Debug, PartialEq, Eq)]
pub struct LinearLoaded {
    /// Pressing it is [`LinearControl::Toggle`].
    pub toggle: Option<Toggle>,
    pub icon: Icon,
    pub summary: Label,
    pub action: Button,
    /// What pressing the button is.
    pub on_action: LinearControl,
    pub sections: Vec<Section>,
}

/// What a [`LinearLoaded`] stands for.
#[verifier::ext_equal]
pub struct LinearLoadedModel {
    pub toggle: Option<ToggleModel>,
    pub icon: Icon,
    pub summary: LabelModel,
    pub action: ButtonModel,
    pub on_action: LinearControl,
    pub sections: Seq<SectionModel>,
}

impl View for LinearLoaded {
    type V = LinearLoadedModel;

    open spec fn view(&self) -> LinearLoadedModel {
        LinearLoadedModel {
            toggle: optional_toggle(self.toggle),
            icon: self.icon,
            summary: self.summary@,
            action: self.action@,
            on_action: self.on_action,
            sections: section_models(self.sections@),
        }
    }
}

/// What the panel shows.
#[derive(Debug, PartialEq, Eq)]
pub enum LinearPanel {
    Loading(Label),
    Loaded(LinearLoaded),
}

/// The colour of the header.
pub open spec fn header_color(authenticated: bool) -> Color {
    if authenticated {
        Color::Default
    } else {
        Color::Muted
    }
}

/// The button that ends a connection, or makes one.
pub open spec fn connection_button(authenticated: bool) -> ButtonModel {
    if authenticated {
        button("linear-disconnect"@, "Disconnect"@, ButtonStyle::Plain)
    } else {
        button("linear-connect"@, "Connect"@, ButtonStyle::Plain)
    }
}

/// What pressing that button is.
pub open spec fn connection_control(authenticated: bool) -> LinearControl {
    if authenticated {
        LinearControl::Disconnect
    } else {
        LinearControl::Connect
    }
}

/// The text while the snapshot is on its way.
pub open spec fn loading_label() -> LabelModel {
    small("Loading Linear context…"@, Color::Muted)
}

/// What the panel shows of a snapshot: its summary, with a toggle where it can be
/// opened, the button for the connection, and its lists where it is open.
pub open spec fn shown(context: LinearContextModel, expanded: bool) -> LinearLoadedModel {
    LinearLoadedModel {
        toggle: toggle_of("linear-context-toggle"@, expandable(context), expanded),
        icon: Icon { name: IconName::ListTodo, color: header_color(context.authenticated) },
        summary: small(context.summary(), header_color(context.authenticated)),
        action: connection_button(context.authenticated),
        on_action: connection_control(context.authenticated),
        sections: if expandable(context) && expanded {
            section_of("Teams"@, keyed_rows(context.teams)) + section_of(
                "Projects"@,
                context.projects,
            ) + section_of("Open issues"@, keyed_rows(context.issues))
        } else {
            Seq::empty()
        },
    }
}

impl LinearContextView {
    /// A panel that is bound to a thread. Its snapshot is to be loaded.
    pub fn new(thread: u64) -> (panel: LinearContextView)
        ensures
            panel@ == (LinearPanelModel { thread, context: None, expanded: false }),
    {
        LinearContextView { thread, state: LoadState::Loading, expanded: false }
    }

    /// The thread that the panel is bound to.
    pub fn thread(&self) -> (thread: u64)
        ensures
            thread == self@.thread,
    {
        self.thread
    }

    /// Waits for a new snapshot, and gives the limit to load it with.
    pub fn reload(&mut self) -> (limit: usize)
        ensures
            final(self)@ == (LinearPanelModel { context: None, ..old(self)@ }),
            limit == LINEAR_CONTEXT_DEFAULT_LIMIT,
    {
        self.state = LoadState::Loading;
        LINEAR_CONTEXT_DEFAULT_LIMIT
    }

    /// Stores the key of the environment, where it has one, and waits for a new
    /// snapshot.
    pub fn connect(&mut self, env: Option<String>) -> (change: Option<KeychainChange>)
        ensures
            final(self)@ == (LinearPanelModel { context: None, ..old(self)@ }),
            optional_change(change) == connecting(env.deep_view()),
    {
        let change = connect_linear_from_env(env);
        self.reload();
        change
    }

    /// Removes the stored key, and waits for a new snapshot.
    pub fn disconnect(&mut self) -> (change: KeychainChange)
        ensures
            final(self)@ == (LinearPanelModel { context: None, ..old(self)@ }),
            change@ == clearing(),
    {
        self.reload();
        clear_linear_api_key()
    }

    /// Takes the snapshot over.
    pub fn loaded(&mut self, context: LinearContext)
        ensures
            final(self)@ == (LinearPanelModel { context: Some(context@), ..old(self)@ }),
    {
        self.state = LoadState::Loaded(context);
    }

    /// Opens or closes the panel.
    pub fn toggle_expanded(&mut self)
        ensures
            final(self)@ == (LinearPanelModel { expanded: !old(self)@.expanded, ..old(self)@ }),
    {
        self.expanded = !self.expanded;
    }

    /// Does what a pressed control stands for. `env` is the environment variable
    /// that may hold a key.
    pub fn press(&mut self, control: LinearControl, env: Option<String>) -> (press: LinearPress)
        ensures
            final(self)@ == pressed(old(self)@, control, env.deep_view()).0,
            optional_change(press.change) == pressed(old(self)@, control, env.deep_view()).1,
            press.reload == pressed(old(self)@, control, env.deep_view()).2,
    {
        match control {
            LinearControl::Toggle => {
                self.toggle_expanded();
                LinearPress { change: None, reload: None }
            },
            LinearControl::Connect => {
                let change = self.connect(env);
                LinearPress { change, reload: Some(LINEAR_CONTEXT_DEFAULT_LIMIT) }
            },
            LinearControl::Disconnect => {
                let change = self.disconnect();
                LinearPress { change: Some(change), reload: Some(LINEAR_CONTEXT_DEFAULT_LIMIT) }
            },
        }
    }

    /// A snapshot can be opened where it is authenticated and has something to
    /// list.
    pub fn is_expandable(context: &LinearContext) -> (can: bool)
        ensures
            can == expandable(context@),
    {
        context.authenticated && (context.teams.len() > 0 || context.projects.len() > 0
            || context.issues.len() > 0)
    }

    /// The row of a team.
    pub fn team_label(team: &LinearTeam) -> (label: String)
        ensures
            label@ == keyed_row(team.key@, team.name@),
    {
        let mut label = concatenated(team.key.as_str(), " ");
        label.append(team.name.as_str());
        label
    }

    /// The row of an issue.
    pub fn issue_label(issue: &LinearIssue) -> (label: String)
        ensures
            label@ == keyed_row(issue.identifier@, issue.title@),
    {
        let mut label = concatenated(issue.identifier.as_str(), " ");
        label.append(issue.title.as_str());
        label
    }

    /// The rows of the teams.
    fn team_rows(teams: &Vec<LinearTeam>) -> (rows: Vec<String>)
        ensures
            rows.deep_view() == keyed_rows(team_views(teams@)),
    {
        let ghost expected = keyed_rows(team_views(teams@));
        let mut rows: Vec<String> = Vec::new();
        let mut i: usize = 0;
        while i < teams.len()
            invariant
                i <= teams@.len(),
                rows@.len() == i,
                expected == keyed_rows(team_views(teams@)),
                forall|j: int| 0 <= j < i ==> (#[trigger] rows@[j])@ == expected[j],
            decreases teams@.len() - i,
        {
            rows.push(Self::team_label(&teams[i]));
            i = i + 1;
        }
        assert(rows.deep_view() =~= expected);
        rows
    }

    /// The rows of the projects.
    fn project_rows(projects: &Vec<String>) -> (rows: Vec<String>)
        ensures
            rows.deep_view() == projects.deep_view(),
    {
        let mut rows: Vec<String> = Vec::new();
        let mut i: usize = 0;
        while i < projects.len()
            invariant
                i <= projects@.len(),
                rows@.len() == i,
                forall|j: int| 0 <= j < i ==> (#[trigger] rows@[j])@ == projects@[j]@,
            decreases projects@.len() - i,
        {
            rows.push(projects[i].clone());
            i = i + 1;
        }
        assert(rows.deep_view() =~= projects.deep_view());
        rows
    }

    /// The rows of the issues.
    fn issue_rows(issues: &Vec<LinearIssue>) -> (rows: Vec<String>)
        ensures
            rows.deep_view() == keyed_rows(issue_views(issues@)),
    {
        let ghost expected = keyed_rows(issue_views(issues@));
        let mut rows: Vec<String> = Vec::new();
        let mut i: usize = 0;
        while i < issues.len()
            invariant
                i <= issues@.len(),
                rows@.len() == i,
                expected == keyed_rows(issue_views(issues@)),
                forall|j: int| 0 <= j < i ==> (#[trigger] rows@[j])@ == expected[j],
            decreases issues@.len() - i,
        {
            rows.push(Self::issue_label(&issues[i]));
            i = i + 1;
        }
        assert(rows.deep_view() =~= expected);
        rows
    }

    /// The text while the snapshot is on its way.
    fn render_loading() -> (label: Label)
        ensures
            label@ == loading_label(),
    {
        Label::small("Loading Linear context…".to_owned(), Color::Muted)
    }

    /// What the panel shows of a snapshot.
    fn render_loaded(context: &LinearContext, expanded: bool) -> (panel: LinearLoaded)
        ensures
            panel@ == shown(context@, expanded),
    {
        let expandable = Self::is_expandable(context);
        let text_color = if context.authenticated {
            Color::Default
        } else {
            Color::Muted
        };
        let toggle = Toggle::of("linear-context-toggle", expandable, expanded);
        let action = if context.authenticated {
            Button::new("linear-disconnect", "Disconnect", ButtonStyle::Plain)
        } else {
            Button::new("linear-connect", "Connect", ButtonStyle::Plain)
        };
        let on_action = if context.authenticated {
            LinearControl::Disconnect
        } else {
            LinearControl::Connect
        };
        let icon = Icon { name: IconName::ListTodo, color: text_color };
        let summary = Label::small(context.summary_label(), text_color);
        let mut sections: Vec<Section> = Vec::new();
        assert(section_models(sections@) =~= Seq::empty());
        if expandable && expanded {
            let teams = render_rows("Teams", Self::team_rows(&context.teams));
            push_section(&mut sections, teams);
            let projects = render_rows("Projects", Self::project_rows(&context.projects));
            push_section(&mut sections, projects);
            let issues = render_rows("Open issues", Self::issue_rows(&context.issues));
            push_section(&mut sections, issues);
        }
        LinearLoaded { toggle, icon, summary, action, on_action, sections }
    }

    /// What the panel shows.
    pub fn render(&self) -> (panel: LinearPanel)
        ensures
            match self@.context {
                None => panel is Loading && panel->Loading_0@ == loading_label(),
                Some(context) => panel is Loaded && panel->Loaded_0@ == shown(
                    context,
                    self@.expanded,
                ),
            },
    {
        match &self.state {
            LoadState::Loading => LinearPanel::Loading(Self::render_loading()),
            LoadState::Loaded(context) => LinearPanel::Loaded(
                Self::render_loaded(context, self.expanded),
            ),
        }
    }
}

/// A snapshot that is not authenticated offers to connect, and can neither be
/// opened nor lists anything.
pub proof fn unauthenticated_snapshots_stay_closed(context: LinearContextModel, expanded: bool)
    requires
        !context.authenticated,
    ensures
        shown(context, expanded).toggle is None,
        shown(context, expanded).sections.len() == 0,
        shown(context, expanded).action == connection_button(false),
        shown(context, expanded).on_action == LinearControl::Connect,
{
}

// ---------------------------------------------------------------------------
// What the panel shows
// ---------------------------------------------------------------------------

/// A panel that is open lists the teams, the projects and the issues of its snapshot,
/// each list under its title, as far as there is anything in it: a team by its key and
/// its name, a project by its name, and an issue by its identifier and its title.
pub proof fn an_open_panel_lists_everything(context: LinearContextModel, k: int)
    requires
        context.authenticated,
        context.teams.len() > 0 || context.projects.len() > 0 || context.issues.len() > 0,
    ensures
        ({
            let sections = shown(context, true).sections;
            let teams: int = if context.teams.len() > 0 {
                1
            } else {
                0
            };
            let projects: int = if context.projects.len() > 0 {
                1
            } else {
                0
            };
            let issues: int = if context.issues.len() > 0 {
                1
            } else {
                0
            };
            &&& sections.len() == teams + projects + issues
            &&& context.teams.len() > 0 ==> {
                let section = sections[0];
                &&& section.title.text == "Teams"@ && section.title.color == Color::Muted
                &&& section.rows.len() == context.teams.len()
                &&& 0 <= k < context.teams.len() ==> section.rows[k].text == context.teams[k].0
                    + " "@ + context.teams[k].1 && section.rows[k].color == Color::Default
            }
            &&& context.projects.len() > 0 ==> {
                let section = sections[teams];
                &&& section.title.text == "Projects"@ && section.title.color == Color::Muted
                &&& section.rows.len() == context.projects.len()
                &&& 0 <= k < context.projects.len() ==> section.rows[k].text == context.projects[k]
                    && section.rows[k].color == Color::Default
            }
            &&& context.issues.len() > 0 ==> {
                let section = sections[teams + projects];
                &&& section.title.text == "Open issues"@ && section.title.color == Color::Muted
                &&& section.rows.len() == context.issues.len()
                &&& 0 <= k < context.issues.len() ==> section.rows[k].text == context.issues[k].0
                    + " "@ + context.issues[k].1 && section.rows[k].color == Color::Default
            }
        }),
{
    let teams = section_of("Teams"@, keyed_rows(context.teams));
    let projects = section_of("Projects"@, context.projects);
    let issues = section_of("Open issues"@, keyed_rows(context.issues));
    let sections = teams + projects + issues;
    assert(shown(context, true).sections == sections);
    if context.teams.len() > 0 {
        assert(sections[0] == teams[0]);
    }
    if context.projects.len() > 0 {
        assert(sections[teams.len() as int] == projects[0]);
    }
    if context.issues.len() > 0 {
        assert(sections[(teams.len() + projects.len()) as int] == issues[0]);
    }
}

/// A panel lists nothing while it is closed or has nothing to list. It has a toggle
/// exactly where there is something to list, which points down while the panel is
/// open.
pub proof fn a_closed_panel_lists_nothing(context: LinearContextModel, expanded: bool)
    ensures
        ({
            let panel = shown(context, expanded);
            let listable = context.authenticated && (context.teams.len() > 0
                || context.projects.len() > 0 || context.issues.len() > 0);
            &&& !expanded || !listable ==> panel.sections.len() == 0
            &&& expandable(context) <==> listable
            &&& panel.toggle is Some <==> listable
            &&& panel.toggle matches Some(toggle) ==> {
                &&& toggle.id == "linear-context-toggle"@
                &&& toggle.icon == IconName::ChevronDown <==> expanded
                &&& toggle.icon == IconName::ChevronRight <==> !expanded
            }
        }),
{
}

/// The header shows the summary, muted unless the snapshot is authenticated, and one
/// button: it ends the connection where there is one, and makes one where there is
/// none.
pub proof fn the_header_offers_the_other_state(
    panel: LinearPanelModel,
    context: LinearContextModel,
    expanded: bool,
    env: Option<Seq<char>>,
)
    ensures
        ({
            let header = shown(context, expanded);
            let after = pressed(panel, header.on_action, env);
            let color = if context.authenticated {
                Color::Default
            } else {
                Color::Muted
            };
            &&& header.summary.text == context.summary()
            &&& header.summary.color == color && header.summary.size == LabelSize::Small
            &&& header.icon.name == IconName::ListTodo && header.icon.color == color
            &&& !header.action.disabled && header.action.style == ButtonStyle::Plain
            &&& context.authenticated ==> {
                &&& header.action.label == "Disconnect"@
                &&& header.action.id == "linear-disconnect"@
                &&& after.1 == Some(
                    KeychainChangeModel::Delete { url: "https://api.linear.app"@ },
                )
            }
            &&& !context.authenticated ==> {
                &&& header.action.label == "Connect"@
                &&& header.action.id == "linear-connect"@
                &&& after.1 == connecting(env)
            }
            &&& after.0 == (LinearPanelModel { context: None, ..panel })
            &&& after.2 == Some(10usize)
        }),
{
}

/// The toggle opens a closed panel and closes an open one, and does nothing else.
pub proof fn the_toggle_opens_and_closes(panel: LinearPanelModel, env: Option<Seq<char>>)
    ensures
        pressed(panel, LinearControl::Toggle, env).0.expanded == !panel.expanded,
        pressed(panel, LinearControl::Toggle, env).0.context == panel.context,
        pressed(panel, LinearControl::Toggle, env).0.thread == panel.thread,
        pressed(panel, LinearControl::Toggle, env).1 is None,
        pressed(panel, LinearControl::Toggle, env).2 is None,
        loading_label().text == "Loading Linear context…"@,
        loading_label().color == Color::Muted && loading_label().size == LabelSize::Small,
{
}

/// A panel stands for what it holds.
pub proof fn a_panel_stands_for_what_it_holds(panel: LinearLoaded)
    ensures
        panel@.toggle == optional_toggle(panel.toggle),
        panel@.icon == panel.icon,
        panel@.summary == panel.summary@,
        panel@.action == panel.action@,
        panel@.on_action == panel.on_action,
        panel@.sections == section_models(panel.sections@),
{
}

} // verus!
