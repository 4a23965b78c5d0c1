//! The panel that shows a thread's subagents as a tree.
use vstd::prelude::*;

use crate::subagents::{
    as_many_levels_as_subagents, ends_within, has_child, no_subagent_is_shown_twice, node_models,
    opened_below, rows_below, rows_stand_under_open_subagents, unique_ids, visible, walk_ends,
    Subagent, SubagentModel,
};
use crate::text::{
    are_filled_places, concatenated, decimal, decimal_text, filled_parts,
    filled_parts_stand_in_order, join, joined, parts_at,
};
use crate::ui::{
    button, label_models, optional_label, optional_toggle, small, toggle_of, Button, ButtonModel,
    ButtonStyle, Color, IconName, Label, LabelModel, LabelSize, Toggle, ToggleModel,
};

verus! {

// ---------------------------------------------------------------------------
// The walk
// ---------------------------------------------------------------------------

/// Rows as what they show: the subagent and its depth.
pub open spec fn shown_rows(nodes: Seq<SubagentModel>, rows: Seq<(int, nat)>) -> Seq<
    (SubagentModel, nat),
> {
    Seq::new(rows.len(), |i: int| (nodes[rows[i].0], rows[i].1))
}

/// Rows as what they stand for.
pub open spec fn row_models(rows: Seq<(Subagent, usize)>) -> Seq<(SubagentModel, nat)> {
    Seq::new(rows.len(), |i: int| (rows[i].0@, rows[i].1 as nat))
}

/// The open subagents.
pub open spec fn id_set(ids: Seq<String>) -> Set<Seq<char>> {
    Set::new(|id: Seq<char>| exists|i: int| 0 <= i < ids.len() && (#[trigger] ids[i])@ == id)
}

/// Whether `id` is one of `ids`.
fn contains_id(ids: &Vec<String>, id: &str) -> (contains: bool)
    ensures
        contains == id_set(ids@).contains(id@),
{
    let mut i: usize = 0;
    while i < ids.len()
        invariant
            i <= ids@.len(),
            forall|j: int| 0 <= j < i ==> (#[trigger] ids@[j])@ != id@,
        decreases ids@.len() - i,
    {
        if ids[i].as_str().eq(id) {
            assert(ids@[i as int]@ == id@);
            return true;
        }
        i = i + 1;
    }
    false
}

/// Whether the subagent was started by `parent`.
fn is_child_of(node: &Subagent, parent: Option<&str>) -> (child: bool)
    ensures
        child == (node@.parent_id == parent.deep_view()),
{
    match (&node.parent_id, parent) {
        (Some(id), Some(parent)) => id.as_str().eq(parent),
        (None, None) => true,
        _ => false,
    }
}

/// Whether the walk from a parent ends within a number of levels.
fn walk_ends_within(
    subagents: &Vec<Subagent>,
    expanded: &Vec<String>,
    parent: Option<&str>,
    levels: usize,
) -> (ends: bool)
    ensures
        ends == ends_within(
            node_models(subagents@),
            id_set(expanded@),
            parent.deep_view(),
            levels as nat,
        ),
    decreases levels,
{
    let ghost nodes = node_models(subagents@);
    let ghost open = id_set(expanded@);
    let mut i: usize = 0;
    while i < subagents.len()
        invariant
            i <= subagents@.len(),
            nodes == node_models(subagents@),
            open == id_set(expanded@),
            forall|j: int|
                0 <= j < i && (#[trigger] nodes[j]).parent_id == parent.deep_view()
                    && open.contains(nodes[j].id) ==> levels > 0 && ends_within(
                    nodes,
                    open,
                    Some(nodes[j].id),
                    (levels - 1) as nat,
                ),
        decreases subagents@.len() - i,
    {
        let node = &subagents[i];
        assert(nodes[i as int] == node@);
        if is_child_of(node, parent) && contains_id(expanded, node.id.as_str()) {
            if levels == 0 {
                return false;
            }
            if !walk_ends_within(subagents, expanded, Some(node.id.as_str()), levels - 1) {
                return false;
            }
        }
        i = i + 1;
    }
    true
}

/// Adds the rows of the children of a parent.
fn walk(
    subagents: &Vec<Subagent>,
    parent: Option<&str>,
    depth: usize,
    expanded: &Vec<String>,
    out: &mut Vec<(Subagent, usize)>,
    Ghost(levels): Ghost<nat>,
)
    requires
        ends_within(node_models(subagents@), id_set(expanded@), parent.deep_view(), levels),
        depth + levels <= usize::MAX,
    ensures
        row_models(final(out)@) == row_models(old(out)@) + shown_rows(
            node_models(subagents@),
            rows_below(
                node_models(subagents@),
                id_set(expanded@),
                parent.deep_view(),
                depth as nat,
                levels,
                subagents@.len(),
            ),
        ),
    decreases levels,
{
    let ghost nodes = node_models(subagents@);
    let ghost open = id_set(expanded@);
    let ghost up = parent.deep_view();
    let ghost start = row_models(out@);
    let mut i: usize = 0;
    assert(shown_rows(nodes, Seq::empty()) =~= Seq::empty());
    assert(row_models(out@) =~= start + Seq::empty());
    while i < subagents.len()
        invariant
            i <= subagents@.len(),
            nodes == node_models(subagents@),
            open == id_set(expanded@),
            up == parent.deep_view(),
            ends_within(nodes, open, up, levels),
            depth + levels <= usize::MAX,
            row_models(out@) == start + shown_rows(
                nodes,
                rows_below(nodes, open, up, depth as nat, levels, i as nat),
            ),
        decreases subagents@.len() - i,
    {
        let node = &subagents[i];
        assert(nodes[i as int] == node@);
        let ghost before = rows_below(nodes, open, up, depth as nat, levels, i as nat);
        if is_child_of(node, parent) {
            let ghost earlier = row_models(out@);
            out.push((node.clone(), depth));
            let ghost with_node = before.push((i as int, depth as nat));
            assert(row_models(out@) =~= earlier.push((node@, depth as nat)));
            assert(row_models(out@) =~= start + shown_rows(nodes, with_node));
            let ghost below = opened_below(nodes, open, i as int, depth as nat, levels);
            reveal_with_fuel(opened_below, 2);
            if contains_id(expanded, node.id.as_str()) {
                walk(
                    subagents,
                    Some(node.id.as_str()),
                    depth + 1,
                    expanded,
                    out,
                    Ghost((levels - 1) as nat),
                );
            }
            assert(row_models(out@) =~= start + shown_rows(nodes, with_node + below));
        }
        i = i + 1;
    }
}

/// The panel that shows the subagents of one thread.
pub struct SubagentTree {
    thread: u64,
    /// The open subagents. At first there are none.
    expanded: Vec<String>,
    /// The subagent whose transcript is shown, if any.
    selected: Option<String>,
}

/// What a [`SubagentTree`] stands for.
#[verifier::ext_equal]
pub struct TreeModel {
    /// The thread that the panel is bound to.
    pub thread: u64,
    pub expanded: Set<Seq<char>>,
    pub selected: Option<Seq<char>>,
}

impl View for SubagentTree {
    type V = TreeModel;

    closed spec fn view(&self) -> TreeModel {
        TreeModel {
            thread: self.thread,
            expanded: id_set(self.expanded@),
            selected: self.selected.deep_view(),
        }
    }
}

/// The open subagents once one was opened or closed.
pub open spec fn toggled(expanded: Set<Seq<char>>, id: Seq<char>) -> Set<Seq<char>> {
    if expanded.contains(id) {
        expanded.remove(id)
    } else {
        expanded.insert(id)
    }
}

/// The colour of a status.
pub open spec fn color_of_status(status: Seq<char>) -> Color {
    if status == "completed"@ || status == "done"@ || status == "finished"@ || status
        == "succeeded"@ {
        Color::Success
    } else if status == "failed"@ || status == "error"@ || status == "errored"@ || status
        == "cancelled"@ || status == "canceled"@ {
        Color::Error
    } else if status.len() == 0 {
        Color::Muted
    } else {
        Color::Accent
    }
}

/// A count with its unit, unless there is none or it is zero.
pub open spec fn counted(count: Option<u64>, unit: Seq<char>) -> Seq<Seq<char>> {
    match count {
        Some(count) => if count > 0 {
            seq![decimal_text(count as nat) + unit]
        } else {
            Seq::empty()
        },
        None => Seq::empty(),
    }
}

/// A text in a list of its own, where there is one.
pub open spec fn if_any(text: Option<Seq<char>>) -> Seq<Seq<char>> {
    match text {
        Some(text) => seq![text],
        None => Seq::empty(),
    }
}

/// What a subagent has used so far, in words, one by one.
pub open spec fn counter_parts(node: SubagentModel) -> Seq<Seq<char>> {
    counted(node.tool_count, " tools"@) + counted(node.tokens, " tok"@) + if_any(node.cost)
        + if_any(node.model)
}

/// What a subagent has used so far, in words.
pub open spec fn counters(node: SubagentModel) -> Option<Seq<char>> {
    if counter_parts(node).len() == 0 {
        None
    } else {
        Some(joined(counter_parts(node), "  ·  "@))
    }
}

/// What the user can press.
#[derive(Debug, PartialEq, Eq)]
pub enum TreeControl {
    /// The toggle of the subagent with this id.
    Toggle(String),
    /// The row of the subagent with this id.
    Select(String),
    /// The button that closes the transcript.
    CloseInspector,
}

/// What a [`TreeControl`] stands for.
#[verifier::ext_equal]
pub enum TreeControlModel {
    Toggle(Seq<char>),
    Select(Seq<char>),
    CloseInspector,
}

impl View for TreeControl {
    type V = TreeControlModel;

    open spec fn view(&self) -> TreeControlModel {
        match self {
            TreeControl::Toggle(id) => TreeControlModel::Toggle(id@),
            TreeControl::Select(id) => TreeControlModel::Select(id@),
            TreeControl::CloseInspector => TreeControlModel::CloseInspector,
        }
    }
}

/// The selection once a subagent was pressed: that subagent, or none where it was
/// selected already.
pub open spec fn reselected(selected: Option<Seq<char>>, id: Seq<char>) -> Option<Seq<char>> {
    if selected == Some(id) {
        None
    } else {
        Some(id)
    }
}

/// What a pressed control leads to: a toggle opens or closes its subagent, a row
/// shows or hides its transcript, and the button hides it.
pub open spec fn pressed(tree: TreeModel, control: TreeControlModel) -> TreeModel {
    match control {
        TreeControlModel::Toggle(id) => TreeModel { expanded: toggled(tree.expanded, id), ..tree },
        TreeControlModel::Select(id) => TreeModel {
            selected: reselected(tree.selected, id),
            ..tree
        },
        TreeControlModel::CloseInspector => TreeModel { selected: None, ..tree },
    }
}

/// What is shown of a subagent.
#[derive(Debug, PartialEq, Eq)]
pub struct NodeRow {
    pub depth: usize,
    pub toggle: Option<Toggle>,
    /// What pressing the toggle is.
    pub on_toggle: TreeControl,
    pub row_id: String,
    /// What pressing the row is.
    pub on_press: TreeControl,
    pub id: Label,
    pub agent: Label,
    pub status: Option<Label>,
    pub counters: Option<Label>,
}

/// What a [`NodeRow`] stands for.
#[verifier::ext_equal]
pub struct NodeRowModel {
    pub depth: nat,
    pub toggle: Option<ToggleModel>,
    pub on_toggle: TreeControlModel,
    pub row_id: Seq<char>,
    pub on_press: TreeControlModel,
    pub id: LabelModel,
    pub agent: LabelModel,
    pub status: Option<LabelModel>,
    pub counters: Option<LabelModel>,
}

impl View for NodeRow {
    type V = NodeRowModel;

    open spec fn view(&self) -> NodeRowModel {
        NodeRowModel {
            depth: self.depth as nat,
            toggle: optional_toggle(self.toggle),
            on_toggle: self.on_toggle@,
            row_id: self.row_id@,
            on_press: self.on_press@,
            id: self.id@,
            agent: self.agent@,
            status: optional_label(self.status),
            counters: optional_label(self.counters),
        }
    }
}

/// Rows of subagents as what they stand for.
pub open spec fn node_row_models(rows: Seq<NodeRow>) -> Seq<NodeRowModel> {
    Seq::new(rows.len(), |i: int| rows[i]@)
}

/// What is shown of a subagent: its id and its agent, its status in the colour of
/// the status, and what it has used. It has a toggle where it has children.
pub open spec fn node_row(
    node: SubagentModel,
    depth: nat,
    has_children: bool,
    expanded: Set<Seq<char>>,
) -> NodeRowModel {
    NodeRowModel {
        depth,
        toggle: toggle_of(
            "subagent-toggle-"@ + node.id,
            has_children,
            expanded.contains(node.id),
        ),
        on_toggle: TreeControlModel::Toggle(node.id),
        row_id: "subagent-row-"@ + node.id,
        on_press: TreeControlModel::Select(node.id),
        id: small(node.id, Color::Default),
        agent: small(node.agent, Color::Muted),
        status: if node.status.len() > 0 {
            Some(small(node.status, color_of_status(node.status)))
        } else {
            None
        },
        counters: match counters(node) {
            Some(counters) => Some(small(counters, Color::Muted)),
            None => None,
        },
    }
}

/// The transcript of a subagent.
#[derive(Debug, PartialEq, Eq)]
pub struct Inspector {
    pub title: Label,
    /// Pressing it is [`TreeControl::CloseInspector`].
    pub close: Button,
    pub body: Vec<Label>,
}

/// What an [`Inspector`] stands for.
#[verifier::ext_equal]
pub struct InspectorModel {
    pub title: LabelModel,
    pub close: ButtonModel,
    pub body: Seq<LabelModel>,
}

impl View for Inspector {
    type V = InspectorModel;

    open spec fn view(&self) -> InspectorModel {
        InspectorModel {
            title: self.title@,
            close: self.close@,
            body: label_models(self.body@),
        }
    }
}

/// An optional transcript as what it stands for.
pub open spec fn optional_inspector(inspector: Option<Inspector>) -> Option<InspectorModel> {
    match inspector {
        Some(inspector) => Some(inspector@),
        None => None,
    }
}

/// The lines of a transcript, or a hint where there are none.
pub open spec fn transcript_labels(lines: Seq<Seq<char>>) -> Seq<LabelModel> {
    if lines.len() == 0 {
        seq![small("No messages yet"@, Color::Muted)]
    } else {
        Seq::new(lines.len(), |i: int| small(lines[i], Color::Default))
    }
}

/// What is shown of the transcript of the selected subagent.
pub open spec fn shown_inspector(selected: Option<Seq<char>>, lines: Seq<Seq<char>>) -> Option<
    InspectorModel,
> {
    match selected {
        Some(id) => Some(
            InspectorModel {
                title: small("Transcript · "@ + id, Color::Muted),
                close: button("subagent-inspector-close"@, "Close"@, ButtonStyle::Plain),
                body: transcript_labels(lines),
            },
        ),
        None => None,
    }
}

/// What the panel shows.
#[derive(Debug, PartialEq, Eq)]
pub struct TreePanel {
    pub title: Label,
    pub rows: Vec<NodeRow>,
    pub inspector: Option<Inspector>,
}

/// What a [`TreePanel`] stands for.
#[verifier::ext_equal]
pub struct TreePanelModel {
    pub title: LabelModel,
    pub rows: Seq<NodeRowModel>,
    pub inspector: Option<InspectorModel>,
}

impl View for TreePanel {
    type V = TreePanelModel;

    open spec fn view(&self) -> TreePanelModel {
        TreePanelModel {
            title: self.title@,
            rows: node_row_models(self.rows@),
            inspector: optional_inspector(self.inspector),
        }
    }
}

/// What the panel shows: how many subagents there are, the visible ones, and the
/// transcript of the selected one.
pub open spec fn shown(nodes: Seq<SubagentModel>, tree: TreeModel, lines: Seq<Seq<char>>) ->
    TreePanelModel {
    let places = visible(nodes, tree.expanded);
    TreePanelModel {
        title: small("Subagents ("@ + decimal_text(nodes.len()) + ")"@, Color::Muted),
        rows: Seq::new(
            places.len(),
            |i: int|
                node_row(
                    nodes[places[i].0],
                    places[i].1,
                    has_child(nodes, nodes[places[i].0].id),
                    tree.expanded,
                ),
        ),
        inspector: shown_inspector(tree.selected, lines),
    }
}

impl SubagentTree {
    /// Whether the rows can be walked: no subagent is, through open subagents,
    /// below itself.
    pub fn can_walk(subagents: &Vec<Subagent>, expanded: &Vec<String>) -> (can: bool)
        ensures
            can == walk_ends(node_models(subagents@), id_set(expanded@)),
    {
        proof {
            as_many_levels_as_subagents(node_models(subagents@), id_set(expanded@));
        }
        walk_ends_within(subagents, expanded, None, subagents.len())
    }

    /// The visible rows: the roots and, below each subagent that is open, its
    /// children, each with its depth.
    pub fn visible_rows(subagents: &Vec<Subagent>, expanded: &Vec<String>) -> (rows: Vec<
        (Subagent, usize),
    >)
        requires
            walk_ends(node_models(subagents@), id_set(expanded@)),
        ensures
            row_models(rows@) == shown_rows(
                node_models(subagents@),
                visible(node_models(subagents@), id_set(expanded@)),
            ),
    {
        proof {
            as_many_levels_as_subagents(node_models(subagents@), id_set(expanded@));
        }
        let mut rows: Vec<(Subagent, usize)> = Vec::new();
        assert(row_models(rows@) =~= Seq::empty());
        let count = subagents.len();
        walk(subagents, None, 0, expanded, &mut rows, Ghost(count as nat));
        assert(row_models(rows@) =~= shown_rows(
            node_models(subagents@),
            visible(node_models(subagents@), id_set(expanded@)),
        ));
        rows
    }

    /// A panel that is bound to a thread, with every subagent closed.
    pub fn new(thread: u64) -> (tree: SubagentTree)
        ensures
            tree@ == (TreeModel { thread, expanded: Set::empty(), selected: None }),
    {
        let tree = SubagentTree { thread, expanded: Vec::new(), selected: None };
        assert(tree@.expanded =~= Set::empty());
        tree
    }

    /// The thread that the panel is bound to.
    pub fn thread(&self) -> (thread: u64)
        ensures
            thread == self@.thread,
    {
        self.thread
    }

    /// Opens a subagent that is closed, and closes one that is open.
    pub fn toggle_expanded(&mut self, id: &str)
        ensures
            final(self)@ == (TreeModel {
                expanded: toggled(old(self)@.expanded, id@),
                ..old(self)@
            }),
    {
        let ghost before = self@;
        if contains_id(&self.expanded, id) {
            let mut kept: Vec<String> = Vec::new();
            let mut i: usize = 0;
            while i < self.expanded.len()
                invariant
                    i <= self.expanded@.len(),
                    forall|j: int|
                        0 <= j < kept@.len() ==> (#[trigger] kept@[j])@ != id@ && id_set(
                            self.expanded@,
                        ).contains(kept@[j]@),
                    forall|j: int|
                        0 <= j < i && (#[trigger] self.expanded@[j])@ != id@ ==> id_set(
                            kept@,
                        ).contains(self.expanded@[j]@),
                decreases self.expanded@.len() - i,
            {
                let ghost earlier = kept@;
                if !self.expanded[i].as_str().eq(id) {
                    kept.push(self.expanded[i].clone());
                    assert(kept@[kept@.len() - 1]@ == self.expanded@[i as int]@);
                    assert forall|other: Seq<char>| id_set(earlier).contains(other) implies id_set(
                        kept@,
                    ).contains(other) by {
                        let k = choose|k: int|
                            0 <= k < earlier.len() && (#[trigger] earlier[k])@ == other;
                        assert(kept@[k]@ == other);
                    }
                }
                i = i + 1;
            }
            assert(id_set(kept@) =~= before.expanded.remove(id@)) by {
                assert forall|other: Seq<char>| id_set(kept@).contains(other) == (
                before.expanded.contains(other) && other != id@) by {
                    if id_set(kept@).contains(other) {
                        let k = choose|k: int|
                            0 <= k < kept@.len() && (#[trigger] kept@[k])@ == other;
                        assert(kept@[k]@ != id@);
                    }
                    if before.expanded.contains(other) && other != id@ {
                        let k = choose|k: int|
                            0 <= k < self.expanded@.len() && (#[trigger] self.expanded@[k])@
                                == other;
                        assert(self.expanded@[k]@ != id@);
                    }
                }
            }
            self.expanded = kept;
        } else {
            let ghost earlier = self.expanded@;
            self.expanded.push(id.to_owned());
            assert(id_set(self.expanded@) =~= before.expanded.insert(id@)) by {
                assert forall|other: Seq<char>| id_set(self.expanded@).contains(other) == (
                before.expanded.contains(other) || other == id@) by {
                    if before.expanded.contains(other) {
                        let k = choose|k: int|
                            0 <= k < earlier.len() && (#[trigger] earlier[k])@ == other;
                        assert(self.expanded@[k]@ == other);
                    }
                    assert(self.expanded@[earlier.len() as int]@ == id@);
                    if id_set(self.expanded@).contains(other) && other != id@ {
                        let k = choose|k: int|
                            0 <= k < self.expanded@.len() && (#[trigger] self.expanded@[k])@
                                == other;
                        assert(earlier[k]@ == other);
                    }
                }
            }
        }
    }

    /// Shows the transcript of a subagent, or hides it where it is shown.
    pub fn toggle_selected(&mut self, id: &str)
        ensures
            final(self)@ == (TreeModel {
                selected: reselected(old(self)@.selected, id@),
                ..old(self)@
            }),
    {
        let is_selected = match &self.selected {
            Some(selected) => selected.as_str().eq(id),
            None => false,
        };
        if is_selected {
            self.selected = None;
        } else {
            self.selected = Some(id.to_owned());
        }
    }

    /// Hides the transcript.
    pub fn close_inspector(&mut self)
        ensures
            final(self)@ == (TreeModel { selected: None, ..old(self)@ }),
    {
        self.selected = None;
    }

    /// Does what a pressed control stands for.
    pub fn press(&mut self, control: TreeControl)
        ensures
            final(self)@ == pressed(old(self)@, control@),
    {
        match control {
            TreeControl::Toggle(id) => self.toggle_expanded(id.as_str()),
            TreeControl::Select(id) => self.toggle_selected(id.as_str()),
            TreeControl::CloseInspector => self.close_inspector(),
        }
    }

    /// The subagent whose transcript is shown, if any.
    pub fn selected(&self) -> (selected: Option<&str>)
        ensures
            selected.deep_view() == self@.selected,
    {
        match &self.selected {
            Some(selected) => Some(selected.as_str()),
            None => None,
        }
    }

    /// A subagent has children.
    pub fn has_children(subagents: &Vec<Subagent>, id: &str) -> (has: bool)
        ensures
            has == has_child(node_models(subagents@), id@),
    {
        let ghost nodes = node_models(subagents@);
        let mut i: usize = 0;
        while i < subagents.len()
            invariant
                i <= subagents@.len(),
                nodes == node_models(subagents@),
                forall|j: int| 0 <= j < i ==> (#[trigger] nodes[j]).parent_id != Some(id@),
            decreases subagents@.len() - i,
        {
            assert(nodes[i as int] == subagents@[i as int]@);
            if is_child_of(&subagents[i], Some(id)) {
                return true;
            }
            i = i + 1;
        }
        false
    }

    /// The colour of a status.
    pub fn status_color(status: &str) -> (color: Color)
        ensures
            color == color_of_status(status@),
    {
        if status.eq("completed") || status.eq("done") || status.eq("finished") || status.eq(
            "succeeded",
        ) {
            Color::Success
        } else if status.eq("failed") || status.eq("error") || status.eq("errored") || status.eq(
            "cancelled",
        ) || status.eq("canceled") {
            Color::Error
        } else if status.is_empty() {
            Color::Muted
        } else {
            Color::Accent
        }
    }

    /// What a subagent has used so far, in words; nothing where it has used
    /// nothing.
    pub fn counters_label(node: &Subagent) -> (label: Option<String>)
        ensures
            label.deep_view() == counters(node@),
    {
        let mut parts: Vec<String> = Vec::new();
        if let Some(tool_count) = node.tool_count {
            if tool_count > 0 {
                parts.push(concatenated(decimal(tool_count).as_str(), " tools"));
            }
        }
        if let Some(tokens) = node.tokens {
            if tokens > 0 {
                parts.push(concatenated(decimal(tokens).as_str(), " tok"));
            }
        }
        if let Some(cost) = &node.cost {
            parts.push(cost.clone());
        }
        if let Some(model) = &node.model {
            parts.push(model.clone());
        }
        assert(parts.deep_view() =~= counter_parts(node@));
        if parts.len() == 0 {
            None
        } else {
            Some(join(&parts, "  ·  "))
        }
    }

    /// What is shown of a subagent.
    fn render_node(&self, node: &Subagent, depth: usize, has_children: bool) -> (row: NodeRow)
        ensures
            row@ == node_row(node@, depth as nat, has_children, self@.expanded),
    {
        let is_expanded = contains_id(&self.expanded, node.id.as_str());
        let toggle_id = concatenated("subagent-toggle-", node.id.as_str());
        let toggle = Toggle::of(toggle_id.as_str(), has_children, is_expanded);
        let status = if node.status.as_str().is_empty() {
            None
        } else {
            Some(Label::small(node.status.clone(), Self::status_color(node.status.as_str())))
        };
        let counters = match Self::counters_label(node) {
            Some(counters) => Some(Label::small(counters, Color::Muted)),
            None => None,
        };
        NodeRow {
            depth,
            toggle,
            on_toggle: TreeControl::Toggle(node.id.clone()),
            row_id: concatenated("subagent-row-", node.id.as_str()),
            on_press: TreeControl::Select(node.id.clone()),
            id: Label::small(node.id.clone(), Color::Default),
            agent: Label::small(node.agent.clone(), Color::Muted),
            status,
            counters,
        }
    }

    /// What is shown of the transcript of the selected subagent. `lines` is its
    /// transcript.
    fn render_inspector(&self, lines: &Vec<String>) -> (inspector: Option<Inspector>)
        ensures
            optional_inspector(inspector) == shown_inspector(self@.selected, lines.deep_view()),
    {
        let id = match &self.selected {
            Some(id) => id,
            None => return None,
        };
        let ghost texts = lines.deep_view();
        let mut body: Vec<Label> = Vec::new();
        if lines.len() == 0 {
            body.push(Label::small("No messages yet".to_owned(), Color::Muted));
        } else {
            let mut i: usize = 0;
            while i < lines.len()
                invariant
                    i <= lines@.len(),
                    texts == lines.deep_view(),
                    body@.len() == i,
                    forall|j: int|
                        0 <= j < i ==> (#[trigger] body@[j])@ == small(texts[j], Color::Default),
                decreases lines@.len() - i,
            {
                body.push(Label::small(lines[i].clone(), Color::Default));
                i = i + 1;
            }
        }
        Some(
            Inspector {
                title: Label::small(concatenated("Transcript · ", id.as_str()), Color::Muted),
                close: Button::new("subagent-inspector-close", "Close", ButtonStyle::Plain),
                body,
            },
        )
    }

    /// The rows of this panel can be walked.
    pub fn can_render(&self, subagents: &Vec<Subagent>) -> (can: bool)
        ensures
            can == walk_ends(node_models(subagents@), self@.expanded),
    {
        Self::can_walk(subagents, &self.expanded)
    }

    /// What the panel shows. `transcript` is that of the selected subagent.
    pub fn render(&self, subagents: &Vec<Subagent>, transcript: &Vec<String>) -> (panel: Option<
        TreePanel,
    >)
        requires
            walk_ends(node_models(subagents@), self@.expanded),
        ensures
            panel is Some == (subagents@.len() > 0),
            panel is Some ==> panel->0@ == shown(
                node_models(subagents@),
                self@,
                transcript.deep_view(),
            ),
    {
        if subagents.len() == 0 {
            return None;
        }
        let ghost nodes = node_models(subagents@);
        let ghost places = visible(nodes, self@.expanded);
        let rows = Self::visible_rows(subagents, &self.expanded);
        let mut shown_nodes: Vec<NodeRow> = Vec::new();
        let mut i: usize = 0;
        while i < rows.len()
            invariant
                i <= rows@.len(),
                nodes == node_models(subagents@),
                places == visible(nodes, self@.expanded),
                row_models(rows@) == shown_rows(nodes, places),
                shown_nodes@.len() == i,
                forall|j: int|
                    0 <= j < i ==> (#[trigger] shown_nodes@[j])@ == node_row(
                        nodes[places[j].0],
                        places[j].1,
                        has_child(nodes, nodes[places[j].0].id),
                        self@.expanded,
                    ),
            decreases rows@.len() - i,
        {
            let row = &rows[i];
            proof {
                assert(row_models(rows@).len() == shown_rows(nodes, places).len());
                assert(row_models(rows@)[i as int] == (row.0@, row.1 as nat));
                assert(shown_rows(nodes, places)[i as int] == (
                    nodes[places[i as int].0],
                    places[i as int].1,
                ));
            }
            let has_children = Self::has_children(subagents, row.0.id.as_str());
            shown_nodes.push(self.render_node(&row.0, row.1, has_children));
            i = i + 1;
        }
        proof {
            assert(row_models(rows@).len() == shown_rows(nodes, places).len());
            assert(node_row_models(shown_nodes@) =~= shown(
                nodes,
                self@,
                transcript.deep_view(),
            ).rows);
        }
        let mut title = concatenated("Subagents (", decimal(subagents.len() as u64).as_str());
        title.append(")");
        Some(
            TreePanel {
                title: Label::small(title, Color::Muted),
                rows: shown_nodes,
                inspector: self.render_inspector(transcript),
            },
        )
    }
}

/// Opening a closed subagent and closing it again, or the other way round, leaves
/// the tree as it was.
pub proof fn toggling_twice_changes_nothing(expanded: Set<Seq<char>>, id: Seq<char>)
    ensures
        toggled(toggled(expanded, id), id) == expanded,
        forall|other: Seq<char>|
            other != id ==> #[trigger] toggled(expanded, id).contains(other) == expanded.contains(
                other,
            ),
{
    assert(toggled(toggled(expanded, id), id) =~= expanded);
}

// ---------------------------------------------------------------------------
// What the tree shows
// ---------------------------------------------------------------------------

/// Each row names the subagent that it shows: by its id, its agent, its status and
/// what it has used, at its depth. There is a row for each that is visible, and no
/// other.
pub proof fn each_row_names_its_subagent(
    nodes: Seq<SubagentModel>,
    tree: TreeModel,
    lines: Seq<Seq<char>>,
    k: int,
)
    ensures
        shown(nodes, tree, lines).rows.len() == visible(nodes, tree.expanded).len(),
        0 <= k < visible(nodes, tree.expanded).len() ==> {
            let (place, depth) = visible(nodes, tree.expanded)[k];
            let row = shown(nodes, tree, lines).rows[k];
            let node = nodes[place];
            &&& row.depth == depth
            &&& row.id.text == node.id
            &&& row.id.color == Color::Default && row.id.size == LabelSize::Small
            &&& row.agent.text == node.agent
            &&& row.agent.color == Color::Muted && row.agent.size == LabelSize::Small
            &&& row.status is Some <==> node.status.len() > 0
            &&& row.status matches Some(status) ==> status.text == node.status && status.color
                == color_of_status(node.status) && status.size == LabelSize::Small
            &&& row.counters is Some <==> counters(node) is Some
            &&& row.counters matches Some(used) ==> Some(used.text) == counters(node) && used.color
                == Color::Muted && used.size == LabelSize::Small
            &&& row.row_id == "subagent-row-"@ + node.id
        },
{
}

/// Where no two subagents have the same id, no two rows are named alike.
pub proof fn rows_can_be_told_apart(
    nodes: Seq<SubagentModel>,
    tree: TreeModel,
    lines: Seq<Seq<char>>,
    j: int,
    k: int,
)
    requires
        unique_ids(nodes),
        0 <= j < k < shown(nodes, tree, lines).rows.len(),
    ensures
        shown(nodes, tree, lines).rows[j].id.text != shown(nodes, tree, lines).rows[k].id.text,
{
    let places = visible(nodes, tree.expanded);
    no_subagent_is_shown_twice(nodes, tree.expanded);
    rows_stand_under_open_subagents(nodes, tree.expanded, j);
    rows_stand_under_open_subagents(nodes, tree.expanded, k);
    each_row_names_its_subagent(nodes, tree, lines, j);
    each_row_names_its_subagent(nodes, tree, lines, k);
    let left = places[j].0;
    let right = places[k].0;
    assert(left != right);
    if left < right {
        assert(nodes[left].id != nodes[right].id);
    } else {
        assert(nodes[right].id != nodes[left].id);
    }
}

/// A row has a toggle exactly where its subagent started another one, which points
/// down while the subagent is open. Pressing it opens or closes that subagent and
/// changes nothing else.
pub proof fn a_toggle_opens_its_own_subagent(
    nodes: Seq<SubagentModel>,
    tree: TreeModel,
    lines: Seq<Seq<char>>,
    k: int,
    other: Seq<char>,
)
    requires
        0 <= k < visible(nodes, tree.expanded).len(),
    ensures
        ({
            let id = nodes[visible(nodes, tree.expanded)[k].0].id;
            let row = shown(nodes, tree, lines).rows[k];
            let after = pressed(tree, row.on_toggle);
            &&& row.toggle is Some <==> exists|i: int|
                0 <= i < nodes.len() && (#[trigger] nodes[i]).parent_id == Some(id)
            &&& row.toggle matches Some(toggle) ==> {
                &&& toggle.id == "subagent-toggle-"@ + id
                &&& toggle.icon == IconName::ChevronDown <==> tree.expanded.contains(id)
                &&& toggle.icon == IconName::ChevronRight <==> !tree.expanded.contains(id)
            }
            &&& after.expanded.contains(id) <==> !tree.expanded.contains(id)
            &&& other != id ==> after.expanded.contains(other) == tree.expanded.contains(other)
            &&& after.selected == tree.selected
            &&& after.thread == tree.thread
        }),
{
}

/// Pressing a row shows the transcript of its subagent, and hides it where it is
/// shown; closing the transcript hides it. Nothing is opened or closed by either.
pub proof fn a_row_shows_its_own_transcript(
    nodes: Seq<SubagentModel>,
    tree: TreeModel,
    lines: Seq<Seq<char>>,
    k: int,
)
    requires
        0 <= k < visible(nodes, tree.expanded).len(),
    ensures
        ({
            let id = nodes[visible(nodes, tree.expanded)[k].0].id;
            let after = pressed(tree, shown(nodes, tree, lines).rows[k].on_press);
            let closed = pressed(tree, TreeControlModel::CloseInspector);
            &&& tree.selected == Some(id) ==> after.selected is None
            &&& tree.selected != Some(id) ==> after.selected == Some(id)
            &&& after.expanded == tree.expanded && after.thread == tree.thread
            &&& closed.selected is None
            &&& closed.expanded == tree.expanded && closed.thread == tree.thread
        }),
{
}

/// The tree tells how many subagents there are, and shows the transcript of the
/// selected one line by line, or a hint where there is none.
pub proof fn the_tree_counts_and_shows_the_transcript(
    nodes: Seq<SubagentModel>,
    tree: TreeModel,
    lines: Seq<Seq<char>>,
    i: int,
)
    ensures
        ({
            let panel = shown(nodes, tree, lines);
            &&& panel.title.text == "Subagents ("@ + decimal_text(nodes.len()) + ")"@
            &&& panel.title.color == Color::Muted && panel.title.size == LabelSize::Small
            &&& panel.inspector is Some <==> tree.selected is Some
            &&& panel.inspector matches Some(inspector) ==> {
                &&& inspector.title.text == "Transcript · "@ + tree.selected->0
                &&& inspector.title.color == Color::Muted
                &&& inspector.close.id == "subagent-inspector-close"@
                &&& inspector.close.label == "Close"@
                &&& !inspector.close.disabled && inspector.close.style == ButtonStyle::Plain
                &&& lines.len() == 0 ==> inspector.body.len() == 1 && inspector.body[0].text
                    == "No messages yet"@ && inspector.body[0].color == Color::Muted
                &&& lines.len() > 0 ==> inspector.body.len() == lines.len()
                &&& 0 <= i < lines.len() ==> inspector.body[i].text == lines[i]
                    && inspector.body[i].color == Color::Default && inspector.body[i].size
                    == LabelSize::Small
            }
        }),
{
}

proof fn statuses_differ()
    ensures
        "completed"@ != "failed"@ && "completed"@ != "error"@ && "completed"@ != "errored"@
            && "completed"@ != "cancelled"@ && "completed"@ != "canceled"@,
        "done"@ != "failed"@ && "done"@ != "error"@ && "done"@ != "errored"@ && "done"@
            != "cancelled"@ && "done"@ != "canceled"@,
        "finished"@ != "failed"@ && "finished"@ != "error"@ && "finished"@ != "errored"@
            && "finished"@ != "cancelled"@ && "finished"@ != "canceled"@,
        "succeeded"@ != "failed"@ && "succeeded"@ != "error"@ && "succeeded"@ != "errored"@
            && "succeeded"@ != "cancelled"@ && "succeeded"@ != "canceled"@,
        "completed"@.len() > 0 && "done"@.len() > 0 && "finished"@.len() > 0 && "succeeded"@.len()
            > 0,
        "failed"@.len() > 0 && "error"@.len() > 0 && "errored"@.len() > 0 && "cancelled"@.len() > 0
            && "canceled"@.len() > 0,
{
    reveal_strlit("completed");
    reveal_strlit("done");
    reveal_strlit("finished");
    reveal_strlit("succeeded");
    reveal_strlit("failed");
    reveal_strlit("error");
    reveal_strlit("errored");
    reveal_strlit("cancelled");
    reveal_strlit("canceled");
    assert("completed"@.len() == 9 && "done"@.len() == 4 && "finished"@.len() == 8);
    assert("succeeded"@.len() == 9 && "failed"@.len() == 6 && "error"@.len() == 5);
    assert("errored"@.len() == 7 && "cancelled"@.len() == 9 && "canceled"@.len() == 8);
    assert("completed"@[1] == 'o' && "cancelled"@[1] == 'a' && "succeeded"@[1] == 'u');
    assert("finished"@[0] == 'f' && "canceled"@[0] == 'c');
}

/// A status has the colour of success, of an error, of nothing where there is none,
/// or of what goes on.
pub proof fn each_status_has_its_color(status: Seq<char>)
    ensures
        color_of_status(status) == Color::Success <==> status == "completed"@ || status
            == "done"@ || status == "finished"@ || status == "succeeded"@,
        color_of_status(status) == Color::Error <==> status == "failed"@ || status == "error"@
            || status == "errored"@ || status == "cancelled"@ || status == "canceled"@,
        color_of_status(status) == Color::Muted <==> status.len() == 0,
        color_of_status(status) != Color::Default,
{
    statuses_differ();
    if status.len() == 0 {
        assert(status =~= ""@) by {
            reveal_strlit("");
        }
    }
    reveal_strlit("");
}

/// A count with its unit, unless there is none.
pub open spec fn used(count: Option<u64>, unit: Seq<char>) -> Option<Seq<char>> {
    if count is Some && count->0 > 0 {
        Some(decimal_text(count->0 as nat) + unit)
    } else {
        None
    }
}

/// What a subagent has used is told as far as it is known and is not nothing: its
/// tools, its tokens, what it cost and its model, in this order and with dots between
/// them. Where there is nothing to tell, nothing is told.
pub proof fn what_was_used_is_told(node: SubagentModel)
    ensures
        ({
            let parts = seq![
                used(node.tool_count, " tools"@),
                used(node.tokens, " tok"@),
                node.cost,
                node.model,
            ];
            exists|places: Seq<int>| #[trigger]
                are_filled_places(parts, places) && {
                    &&& counters(node) is Some <==> places.len() > 0
                    &&& counters(node) matches Some(text) ==> text == joined(
                        parts_at(parts, places),
                        "  ·  "@,
                    )
                }
        }),
{
    let parts = seq![
        used(node.tool_count, " tools"@),
        used(node.tokens, " tok"@),
        node.cost,
        node.model,
    ];
    let places = filled_parts_stand_in_order(parts);
    reveal_with_fuel(filled_parts, 5);
    let one = parts.take(1);
    let two = parts.take(2);
    let three = parts.take(3);
    assert(parts.drop_last() =~= three);
    assert(three.drop_last() =~= two);
    assert(two.drop_last() =~= one);
    assert(one.drop_last() =~= Seq::empty());
    assert(filled_parts(one) =~= counted(node.tool_count, " tools"@));
    assert(filled_parts(two) =~= filled_parts(one) + counted(node.tokens, " tok"@));
    assert(filled_parts(three) =~= filled_parts(two) + if_any(node.cost));
    assert(filled_parts(parts) =~= counter_parts(node));
    assert(are_filled_places(parts, places));
    assert(places.len() == counter_parts(node).len());
}

/// Rows, transcripts and panels stand for what they hold.
pub proof fn rows_and_panels_stand_for_what_they_hold(
    row: NodeRow,
    inspector: Inspector,
    panel: TreePanel,
    rows: Seq<NodeRow>,
    i: int,
    id: String,
)
    ensures
        row@.depth == row.depth,
        row@.toggle == optional_toggle(row.toggle),
        row@.on_toggle == row.on_toggle@,
        row@.row_id == row.row_id@,
        row@.on_press == row.on_press@,
        row@.id == row.id@,
        row@.agent == row.agent@,
        row@.status == optional_label(row.status),
        row@.counters == optional_label(row.counters),
        inspector@.title == inspector.title@,
        inspector@.close == inspector.close@,
        inspector@.body == label_models(inspector.body@),
        panel@.title == panel.title@,
        panel@.rows == node_row_models(panel.rows@),
        panel@.inspector is Some <==> panel.inspector is Some,
        panel.inspector matches Some(shown) ==> panel@.inspector == Some(shown@),
        node_row_models(rows).len() == rows.len(),
        0 <= i < rows.len() ==> node_row_models(rows)[i] == rows[i]@,
        TreeControl::Toggle(id)@ == TreeControlModel::Toggle(id@),
        TreeControl::Select(id)@ == TreeControlModel::Select(id@),
        TreeControl::CloseInspector@ == TreeControlModel::CloseInspector,
{
}

/// What is walked is what is shown: each row has the subagent at its place, at its
/// depth.
pub proof fn walked_rows_are_shown_rows(
    nodes: Seq<SubagentModel>,
    rows: Seq<(int, nat)>,
    walked: Seq<(Subagent, usize)>,
    i: int,
)
    ensures
        shown_rows(nodes, rows).len() == rows.len(),
        0 <= i < rows.len() ==> shown_rows(nodes, rows)[i] == (nodes[rows[i].0], rows[i].1),
        row_models(walked).len() == walked.len(),
        0 <= i < walked.len() ==> row_models(walked)[i] == (walked[i].0@, walked[i].1 as nat),
{
}

/// What is open is exactly what stands in the list of open subagents, and opening one
/// more adds that one alone.
pub proof fn what_is_listed_is_open(ids: Seq<String>, opened: String, id: Seq<char>, i: int)
    ensures
        0 <= i < ids.len() ==> id_set(ids).contains(ids[i]@),
        ids.len() == 0 ==> !id_set(ids).contains(id),
        id_set(ids.push(opened)).contains(id) <==> id == opened@ || id_set(ids).contains(id),
{
    let longer = ids.push(opened);
    assert(longer[ids.len() as int] == opened);
    if id_set(ids).contains(id) {
        let k = choose|k: int| 0 <= k < ids.len() && (#[trigger] ids[k])@ == id;
        assert(longer[k]@ == id);
    }
    if id_set(longer).contains(id) {
        let k = choose|k: int| 0 <= k < longer.len() && (#[trigger] longer[k])@ == id;
        if k < ids.len() {
            assert(ids[k]@ == id);
        }
    }
}

} // verus!
