use omp::subagent_tree::{SubagentTree, TreeControl};
use omp::subagents::Subagent;
use omp::ui::{Color, IconName};

fn node(id: &str, parent: Option<&str>, index: u32) -> Subagent {
    Subagent {
        id: id.to_string(),
        agent: "quick_task".to_string(),
        parent_id: parent.map(str::to_string),
        index,
        status: "running".to_string(),
        ..Default::default()
    }
}

fn rows(subagents: &Vec<Subagent>, expanded: &[&str]) -> Vec<(String, usize)> {
    let expanded: Vec<String> = expanded.iter().map(|id| id.to_string()).collect();
    assert!(SubagentTree::can_walk(subagents, &expanded));
    SubagentTree::visible_rows(subagents, &expanded)
        .into_iter()
        .map(|(node, depth)| (node.id, depth))
        .collect()
}

#[test]
fn collapses_to_roots_by_default() {
    let subagents = vec![
        node("TaskA", None, 0),
        node("TaskB", None, 1),
        node("TaskA1", Some("TaskA"), 0),
    ];
    assert_eq!(
        rows(&subagents, &[]),
        vec![("TaskA".to_string(), 0), ("TaskB".to_string(), 0)]
    );
    assert!(SubagentTree::has_children(&subagents, "TaskA"));
    assert!(!SubagentTree::has_children(&subagents, "TaskB"));
}

#[test]
fn expanding_a_root_reveals_its_children_in_place() {
    let subagents = vec![
        node("TaskA", None, 0),
        node("TaskB", None, 1),
        node("TaskA1", Some("TaskA"), 0),
    ];
    assert_eq!(
        rows(&subagents, &["TaskA"]),
        vec![
            ("TaskA".to_string(), 0),
            ("TaskA1".to_string(), 1),
            ("TaskB".to_string(), 0),
        ]
    );
}

#[test]
fn nests_grandchildren_at_increasing_depth() {
    let subagents = vec![
        node("TaskA", None, 0),
        node("TaskA1", Some("TaskA"), 0),
        node("TaskA1a", Some("TaskA1"), 0),
    ];
    assert_eq!(rows(&subagents, &[]), vec![("TaskA".to_string(), 0)]);
    assert_eq!(
        rows(&subagents, &["TaskA"]),
        vec![("TaskA".to_string(), 0), ("TaskA1".to_string(), 1)]
    );
    assert_eq!(
        rows(&subagents, &["TaskA", "TaskA1"]),
        vec![
            ("TaskA".to_string(), 0),
            ("TaskA1".to_string(), 1),
            ("TaskA1a".to_string(), 2),
        ]
    );
}

#[test]
fn counters_label_shows_only_present_nonzero_fields() {
    let mut node = node("TaskA", None, 0);
    node.tool_count = Some(3);
    node.tokens = Some(0);
    node.cost = None;
    node.model = Some("gpt".to_string());
    assert_eq!(
        SubagentTree::counters_label(&node).as_deref(),
        Some("3 tools  ·  gpt")
    );

    let bare = node_bare();
    assert_eq!(SubagentTree::counters_label(&bare), None);
}

fn node_bare() -> Subagent {
    Subagent { id: "TaskZ".to_string(), ..Default::default() }
}

#[test]
fn status_color_maps_lifecycle_states() {
    assert_eq!(SubagentTree::status_color("completed"), Color::Success);
    assert_eq!(SubagentTree::status_color("failed"), Color::Error);
    assert_eq!(SubagentTree::status_color("running"), Color::Accent);
    assert_eq!(SubagentTree::status_color(""), Color::Muted);
}

#[test]
fn every_status_has_its_color() {
    for status in ["done", "finished", "succeeded"] {
        assert_eq!(SubagentTree::status_color(status), Color::Success);
    }
    for status in ["error", "errored", "cancelled", "canceled"] {
        assert_eq!(SubagentTree::status_color(status), Color::Error);
    }
    assert_eq!(SubagentTree::status_color("Done"), Color::Accent);
}

#[test]
fn all_counters_are_listed_in_order() {
    let mut node = node_bare();
    node.tool_count = Some(1);
    node.tokens = Some(1200);
    node.cost = Some("$0.05".to_string());
    node.model = Some("m".to_string());
    assert_eq!(
        SubagentTree::counters_label(&node).as_deref(),
        Some("1 tools  ·  1200 tok  ·  $0.05  ·  m")
    );
}

#[test]
fn orphans_and_loops_are_not_shown() {
    let subagents = vec![
        node("A", None, 0),
        node("B", Some("missing"), 0),
        node("C", Some("D"), 0),
        node("D", Some("C"), 0),
    ];
    assert_eq!(rows(&subagents, &["A", "B", "C", "D", "missing"]), vec![("A".to_string(), 0)]);
}

#[test]
fn a_subagent_below_itself_cannot_be_walked() {
    let subagents = vec![node("A", None, 0), node("A", Some("A"), 1)];
    assert!(!SubagentTree::can_walk(&subagents, &vec!["A".to_string()]));
    assert!(SubagentTree::can_walk(&subagents, &Vec::new()));
    assert_eq!(rows(&subagents, &[]), vec![("A".to_string(), 0)]);
    let mut tree = SubagentTree::new(1);
    assert!(tree.can_render(&subagents));
    tree.toggle_expanded("A");
    assert!(!tree.can_render(&subagents));
}

#[test]
fn equal_roots_show_their_children_each() {
    let subagents = vec![node("A", None, 0), node("A", None, 1), node("B", Some("A"), 0)];
    assert_eq!(
        rows(&subagents, &["A"]),
        vec![
            ("A".to_string(), 0),
            ("B".to_string(), 1),
            ("A".to_string(), 0),
            ("B".to_string(), 1),
        ]
    );
}

#[test]
fn toggling_twice_changes_nothing() {
    let subagents = vec![node("A", None, 0), node("B", Some("A"), 0)];
    let mut tree = SubagentTree::new(7);
    assert_eq!(tree.thread(), 7);
    let before = tree.render(&subagents, &Vec::new());
    tree.toggle_expanded("A");
    let opened = tree.render(&subagents, &Vec::new()).expect("a tree");
    assert_eq!(opened.rows.len(), 2);
    assert_eq!(opened.rows[0].toggle.as_ref().expect("a toggle").icon, IconName::ChevronDown);
    tree.toggle_expanded("A");
    assert_eq!(tree.render(&subagents, &Vec::new()), before);
}

#[test]
fn the_tree_shows_its_rows_and_a_transcript() {
    let subagents = vec![node("A", None, 0), node("B", Some("A"), 0)];
    let mut tree = SubagentTree::new(7);
    assert_eq!(tree.render(&Vec::new(), &Vec::new()), None);
    let closed = tree.render(&subagents, &Vec::new()).expect("a tree");
    assert_eq!(closed.title.text, "Subagents (2)");
    assert_eq!(closed.inspector, None);
    let row = &closed.rows[0];
    assert_eq!(row.depth, 0);
    assert_eq!(row.row_id, "subagent-row-A");
    assert_eq!(row.toggle.as_ref().expect("a toggle").id, "subagent-toggle-A");
    assert_eq!(row.toggle.as_ref().expect("a toggle").icon, IconName::ChevronRight);
    assert_eq!(row.agent.text, "quick_task");
    assert_eq!(row.status.as_ref().expect("a status").color, Color::Accent);
    assert_eq!(row.counters, None);

    tree.toggle_selected("B");
    assert_eq!(tree.selected(), Some("B"));
    let empty = tree.render(&subagents, &Vec::new()).expect("a tree").inspector.expect("shown");
    assert_eq!(empty.title.text, "Transcript · B");
    assert_eq!(empty.close.id, "subagent-inspector-close");
    assert_eq!(empty.body[0].text, "No messages yet");
    assert_eq!(empty.body[0].color, Color::Muted);
    let lines = vec!["one".to_string(), "two".to_string()];
    let filled = tree.render(&subagents, &lines).expect("a tree").inspector.expect("shown");
    assert_eq!(filled.body.len(), 2);
    assert_eq!(filled.body[1].text, "two");
    assert_eq!(filled.body[1].color, Color::Default);
    tree.toggle_selected("B");
    assert_eq!(tree.selected(), None);
    tree.toggle_selected("A");
    tree.toggle_selected("B");
    assert_eq!(tree.selected(), Some("B"));
    tree.close_inspector();
    assert_eq!(tree.selected(), None);
}

#[test]
fn tree_controls_do_what_they_say() {
    let subagents = vec![node("A", None, 0), node("B", Some("A"), 0)];
    let mut tree = SubagentTree::new(7);
    let closed = tree.render(&subagents, &Vec::new()).expect("a tree");
    let row = closed.rows.into_iter().next().expect("a row");
    assert_eq!(row.on_toggle, TreeControl::Toggle("A".to_string()));
    assert_eq!(row.on_press, TreeControl::Select("A".to_string()));
    tree.press(row.on_toggle);
    tree.press(row.on_press);
    assert_eq!(tree.selected(), Some("A"));
    assert_eq!(tree.render(&subagents, &Vec::new()).expect("a tree").rows.len(), 2);
    tree.press(TreeControl::CloseInspector);
    assert_eq!(tree.selected(), None);
    tree.press(TreeControl::Select("B".to_string()));
    tree.press(TreeControl::Select("B".to_string()));
    assert_eq!(tree.selected(), None);
    tree.press(TreeControl::Toggle("A".to_string()));
    assert_eq!(tree.render(&subagents, &Vec::new()).expect("a tree").rows.len(), 1);
}

#[test]
fn open_ways_lead_to_rows() {
    let subagents = vec![
        node("A", None, 0),
        node("A1", Some("A"), 0),
        node("A1a", Some("A1"), 0),
    ];
    let shown = rows(&subagents, &["A", "A1"]);
    assert!(shown.contains(&("A1a".to_string(), 2)));
    // Where one is closed on the way, there is no row.
    assert!(!rows(&subagents, &["A1"]).iter().any(|(id, _)| id == "A1a"));
}

#[test]
fn opening_more_keeps_the_rows() {
    let subagents = vec![
        node("A", None, 0),
        node("B", None, 1),
        node("A1", Some("A"), 0),
        node("B1", Some("B"), 0),
        node("A1a", Some("A1"), 0),
    ];
    let fewer = rows(&subagents, &["B"]);
    let more = rows(&subagents, &["B", "A", "A1"]);
    let kept: Vec<(String, usize)> =
        more.into_iter().filter(|row| fewer.contains(row)).collect();
    assert_eq!(kept, fewer);
    // A subagent without children, or without a row, opens nothing.
    assert_eq!(rows(&subagents, &["B", "B1", "A1"]), fewer);
}
