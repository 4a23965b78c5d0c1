//! The subagents of a thread, and the rows that a tree of them shows.
use vstd::prelude::*;

verus! {

// ---------------------------------------------------------------------------
// Subagents
// ---------------------------------------------------------------------------

/// A subagent of a thread.
#[derive(Debug, PartialEq, Eq)]
pub struct Subagent {
    pub id: String,
    pub agent: String,
    /// The subagent that started it; none for a root.
    pub parent_id: Option<String>,
    pub index: u32,
    pub status: String,
    pub tool_count: Option<u64>,
    pub tokens: Option<u64>,
    /// What it has cost so far, in words; none where it has cost nothing.
    pub cost: Option<String>,
    pub model: Option<String>,
}

/// What a [`Subagent`] stands for.
#[verifier::ext_equal]
pub struct SubagentModel {
    pub id: Seq<char>,
    pub agent: Seq<char>,
    pub parent_id: Option<Seq<char>>,
    pub index: u32,
    pub status: Seq<char>,
    pub tool_count: Option<u64>,
    pub tokens: Option<u64>,
    pub cost: Option<Seq<char>>,
    pub model: Option<Seq<char>>,
}

impl View for Subagent {
    type V = SubagentModel;

    open spec fn view(&self) -> SubagentModel {
        SubagentModel {
            id: self.id@,
            agent: self.agent@,
            parent_id: self.parent_id.deep_view(),
            index: self.index,
            status: self.status@,
            tool_count: self.tool_count,
            tokens: self.tokens,
            cost: self.cost.deep_view(),
            model: self.model.deep_view(),
        }
    }
}

/// A copy of an optional text.
fn copy_text(text: &Option<String>) -> (copy: Option<String>)
    ensures
        copy == *text,
{
    match text {
        Some(text) => Some(text.clone()),
        None => None,
    }
}

impl Clone for Subagent {
    fn clone(&self) -> (copy: Subagent)
        ensures
            copy == *self,
    {
        Subagent {
            id: self.id.clone(),
            agent: self.agent.clone(),
            parent_id: copy_text(&self.parent_id),
            index: self.index,
            status: self.status.clone(),
            tool_count: self.tool_count,
            tokens: self.tokens,
            cost: copy_text(&self.cost),
            model: copy_text(&self.model),
        }
    }
}

impl Default for Subagent {
    fn default() -> (node: Subagent)
        ensures
            node@ == (SubagentModel {
                id: Seq::empty(),
                agent: Seq::empty(),
                parent_id: None,
                index: 0,
                status: Seq::empty(),
                tool_count: None,
                tokens: None,
                cost: None,
                model: None,
            }),
    {
        let node = Subagent {
            id: String::new(),
            agent: String::new(),
            parent_id: None,
            index: 0,
            status: String::new(),
            tool_count: None,
            tokens: None,
            cost: None,
            model: None,
        };
        assert(node@.id =~= Seq::empty());
        assert(node@.agent =~= Seq::empty());
        assert(node@.status =~= Seq::empty());
        node
    }
}

/// Some subagent was started by the one with a given id.
pub open spec fn has_child(nodes: Seq<SubagentModel>, id: Seq<char>) -> bool {
    exists|i: int| 0 <= i < nodes.len() && (#[trigger] nodes[i]).parent_id == Some(id)
}

/// Subagents as what they stand for.
pub open spec fn node_models(nodes: Seq<Subagent>) -> Seq<SubagentModel> {
    Seq::new(nodes.len(), |i: int| nodes[i]@)
}

// ---------------------------------------------------------------------------
// Rows
// ---------------------------------------------------------------------------

/// The walk from a parent ends within a number of levels: each child that is open
/// can be walked from within one level less.
pub open spec fn ends_within(
    nodes: Seq<SubagentModel>,
    expanded: Set<Seq<char>>,
    parent: Option<Seq<char>>,
    levels: nat,
) -> bool
    decreases levels,
{
    forall|i: int|
        0 <= i < nodes.len() && (#[trigger] nodes[i]).parent_id == parent && expanded.contains(
            nodes[i].id,
        ) ==> levels > 0 && ends_within(nodes, expanded, Some(nodes[i].id), (levels - 1) as nat)
}

/// The walk from the roots ends. It does not where a subagent is, through open
/// subagents, below itself.
pub open spec fn walk_ends(nodes: Seq<SubagentModel>, expanded: Set<Seq<char>>) -> bool {
    exists|levels: nat| ends_within(nodes, expanded, None, levels)
}

/// The rows of the children of a parent among the first `count` subagents: each
/// child at its depth, and below it, where it is open, the rows of its own
/// children. No more than `levels` levels are opened.
pub open spec fn rows_below(
    nodes: Seq<SubagentModel>,
    expanded: Set<Seq<char>>,
    parent: Option<Seq<char>>,
    depth: nat,
    levels: nat,
    count: nat,
) -> Seq<(int, nat)>
    decreases levels, count,
{
    if count == 0 {
        Seq::empty()
    } else {
        let i = count - 1;
        let before = rows_below(nodes, expanded, parent, depth, levels, (count - 1) as nat);
        if nodes[i].parent_id == parent {
            before.push((i, depth)) + opened_below(nodes, expanded, i, depth, levels)
        } else {
            before
        }
    }
}

/// The rows below a subagent where it is open.
pub open spec fn opened_below(
    nodes: Seq<SubagentModel>,
    expanded: Set<Seq<char>>,
    i: int,
    depth: nat,
    levels: nat,
) -> Seq<(int, nat)>
    decreases levels, 0nat,
{
    if expanded.contains(nodes[i].id) && levels > 0 {
        rows_below(
            nodes,
            expanded,
            Some(nodes[i].id),
            depth + 1,
            (levels - 1) as nat,
            nodes.len(),
        )
    } else {
        Seq::empty()
    }
}

/// The visible rows, each a subagent's place and its depth: the roots and, below
/// each subagent that is open, its children. As many levels are opened as there
/// are subagents, which are enough wherever the walk ends.
pub open spec fn visible(nodes: Seq<SubagentModel>, expanded: Set<Seq<char>>) -> Seq<(int, nat)> {
    rows_below(nodes, expanded, None, 0, nodes.len(), nodes.len())
}

// ---------------------------------------------------------------------------
// How deep the walk goes
// ---------------------------------------------------------------------------

proof fn more_levels_end_too(
    nodes: Seq<SubagentModel>,
    expanded: Set<Seq<char>>,
    parent: Option<Seq<char>>,
    fewer: nat,
    more: nat,
)
    requires
        ends_within(nodes, expanded, parent, fewer),
        fewer <= more,
    ensures
        ends_within(nodes, expanded, parent, more),
    decreases more,
{
    assert forall|i: int|
        0 <= i < nodes.len() && (#[trigger] nodes[i]).parent_id == parent && expanded.contains(
            nodes[i].id,
        ) implies more > 0 && ends_within(
        nodes,
        expanded,
        Some(nodes[i].id),
        (more - 1) as nat,
    ) by {
        more_levels_end_too(
            nodes,
            expanded,
            Some(nodes[i].id),
            (fewer - 1) as nat,
            (more - 1) as nat,
        );
    }
}

proof fn more_levels_open_nothing_more(
    nodes: Seq<SubagentModel>,
    expanded: Set<Seq<char>>,
    parent: Option<Seq<char>>,
    depth: nat,
    fewer: nat,
    more: nat,
    count: nat,
)
    requires
        ends_within(nodes, expanded, parent, fewer),
        fewer <= more,
        count <= nodes.len(),
    ensures
        rows_below(nodes, expanded, parent, depth, fewer, count) == rows_below(
            nodes,
            expanded,
            parent,
            depth,
            more,
            count,
        ),
    decreases fewer, count,
{
    if count > 0 {
        let i = count - 1;
        more_levels_open_nothing_more(
            nodes,
            expanded,
            parent,
            depth,
            fewer,
            more,
            (count - 1) as nat,
        );
        if nodes[i].parent_id == parent && expanded.contains(nodes[i].id) {
            more_levels_open_nothing_more(
                nodes,
                expanded,
                Some(nodes[i].id),
                depth + 1,
                (fewer - 1) as nat,
                (more - 1) as nat,
                nodes.len(),
            );
        }
        if nodes[i].parent_id == parent {
            reveal_with_fuel(opened_below, 2);
            assert(opened_below(nodes, expanded, i, depth, fewer) == opened_below(
                nodes,
                expanded,
                i,
                depth,
                more,
            ));
        }
        reveal_with_fuel(rows_below, 2);
    }
}

/// The walk from the parent ends within this many levels, and within no fewer.
spec fn ends_exactly(
    nodes: Seq<SubagentModel>,
    expanded: Set<Seq<char>>,
    parent: Option<Seq<char>>,
    levels: nat,
) -> bool {
    &&& ends_within(nodes, expanded, parent, levels)
    &&& levels > 0 ==> !ends_within(nodes, expanded, parent, (levels - 1) as nat)
}

/// Where the walk needs a number of levels, there is a subagent from which it
/// needs each smaller number.
proof fn a_subagent_for_each_level(
    nodes: Seq<SubagentModel>,
    expanded: Set<Seq<char>>,
    parent: Option<Seq<char>>,
    levels: nat,
) -> (places: Seq<int>)
    requires
        ends_exactly(nodes, expanded, parent, levels),
    ensures
        places.len() == levels,
        forall|j: int|
            0 <= j < levels ==> 0 <= #[trigger] places[j] < nodes.len() && ends_exactly(
                nodes,
                expanded,
                Some(nodes[places[j]].id),
                (levels - 1 - j) as nat,
            ),
    decreases levels,
{
    if levels == 0 {
        Seq::empty()
    } else {
        let i = choose|i: int|
            0 <= i < nodes.len() && (#[trigger] nodes[i]).parent_id == parent && expanded.contains(
                nodes[i].id,
            ) && !(levels - 1 > 0 && ends_within(
                nodes,
                expanded,
                Some(nodes[i].id),
                (levels - 2) as nat,
            ));
        assert(ends_exactly(nodes, expanded, Some(nodes[i].id), (levels - 1) as nat));
        let rest = a_subagent_for_each_level(
            nodes,
            expanded,
            Some(nodes[i].id),
            (levels - 1) as nat,
        );
        let places = seq![i] + rest;
        assert forall|j: int| 0 <= j < levels implies 0 <= #[trigger] places[j] < nodes.len()
            && ends_exactly(
            nodes,
            expanded,
            Some(nodes[places[j]].id),
            (levels - 1 - j) as nat,
        ) by {
            if j > 0 {
                assert(places[j] == rest[j - 1]);
            }
        }
        places
    }
}

/// Different places below a bound are no more than the bound.
proof fn different_places_fit(places: Seq<int>, bound: nat)
    requires
        places.no_duplicates(),
        forall|j: int| 0 <= j < places.len() ==> 0 <= #[trigger] places[j] < bound,
    ensures
        places.len() <= bound,
{
    places.unique_seq_to_set();
    vstd::set_lib::lemma_int_range(0, bound as int);
    let all = vstd::set_lib::set_int_range(0, bound as int);
    assert(places.to_set().subset_of(all)) by {
        assert forall|place: int| places.to_set().contains(place) implies all.contains(place) by {
            let j = choose|j: int| 0 <= j < places.len() && places[j] == place;
            assert(0 <= places[j] < bound);
        }
    }
    vstd::set_lib::lemma_len_subset(places.to_set(), all);
}

/// Where the walk from the roots ends at all, it ends within as many levels as
/// there are subagents.
pub proof fn as_many_levels_as_subagents(nodes: Seq<SubagentModel>, expanded: Set<Seq<char>>)
    ensures
        walk_ends(nodes, expanded) <==> ends_within(nodes, expanded, None, nodes.len()),
{
    if walk_ends(nodes, expanded) {
        let levels = choose|levels: nat| ends_within(nodes, expanded, None, levels);
        let least = least_levels(nodes, expanded, levels);
        let places = a_subagent_for_each_level(nodes, expanded, None, least);
        assert forall|i: int, j: int|
            0 <= i < places.len() && 0 <= j < places.len() && i != j implies places[i]
            != places[j] by {
            if places[i] == places[j] {
                let parent = Some(nodes[places[i]].id);
                if i < j {
                    more_levels_end_too(
                        nodes,
                        expanded,
                        parent,
                        (least - 1 - j) as nat,
                        (least - 2 - i) as nat,
                    );
                } else {
                    more_levels_end_too(
                        nodes,
                        expanded,
                        parent,
                        (least - 1 - i) as nat,
                        (least - 2 - j) as nat,
                    );
                }
            }
        }
        different_places_fit(places, nodes.len());
        more_levels_end_too(nodes, expanded, None, least, nodes.len());
    }
}

proof fn least_levels(nodes: Seq<SubagentModel>, expanded: Set<Seq<char>>, levels: nat) -> (least:
    nat)
    requires
        ends_within(nodes, expanded, None, levels),
    ensures
        ends_exactly(nodes, expanded, None, least),
    decreases levels,
{
    if levels > 0 && ends_within(nodes, expanded, None, (levels - 1) as nat) {
        least_levels(nodes, expanded, (levels - 1) as nat)
    } else {
        levels
    }
}

/// The visible rows are those that any number of levels shows within which the
/// walk ends.
pub proof fn visible_rows_are_all_rows(
    nodes: Seq<SubagentModel>,
    expanded: Set<Seq<char>>,
    levels: nat,
)
    requires
        ends_within(nodes, expanded, None, levels),
    ensures
        visible(nodes, expanded) == rows_below(nodes, expanded, None, 0, levels, nodes.len()),
{
    as_many_levels_as_subagents(nodes, expanded);
    if levels <= nodes.len() {
        more_levels_open_nothing_more(
            nodes,
            expanded,
            None,
            0,
            levels,
            nodes.len(),
            nodes.len(),
        );
    } else {
        more_levels_open_nothing_more(
            nodes,
            expanded,
            None,
            0,
            nodes.len(),
            levels,
            nodes.len(),
        );
    }
}

// ---------------------------------------------------------------------------
// What the rows keep
// ---------------------------------------------------------------------------

/// No two subagents have the same id.
pub open spec fn unique_ids(nodes: Seq<SubagentModel>) -> bool {
    forall|i: int, j: int|
        0 <= i < j < nodes.len() ==> (#[trigger] nodes[i]).id != (#[trigger] nodes[j]).id
}

/// A way down from a parent: each place is a child of the one before it, and the
/// first is a child of the parent.
pub open spec fn leads_down(
    nodes: Seq<SubagentModel>,
    parent: Option<Seq<char>>,
    way: Seq<int>,
) -> bool {
    &&& forall|k: int| 0 <= k < way.len() ==> 0 <= #[trigger] way[k] < nodes.len()
    &&& way.len() > 0 ==> nodes[way[0]].parent_id == parent
    &&& forall|k: int|
        0 < k < way.len() ==> nodes[#[trigger] way[k]].parent_id == Some(nodes[way[k - 1]].id)
}

/// Where the walk does not end within a number of levels, there is a longer way
/// down.
proof fn a_way_beyond(
    nodes: Seq<SubagentModel>,
    expanded: Set<Seq<char>>,
    parent: Option<Seq<char>>,
    levels: nat,
) -> (way: Seq<int>)
    requires
        !ends_within(nodes, expanded, parent, levels),
    ensures
        way.len() == levels + 1,
        leads_down(nodes, parent, way),
    decreases levels,
{
    let i = choose|i: int|
        0 <= i < nodes.len() && (#[trigger] nodes[i]).parent_id == parent && expanded.contains(
            nodes[i].id,
        ) && !(levels > 0 && ends_within(
            nodes,
            expanded,
            Some(nodes[i].id),
            (levels - 1) as nat,
        ));
    if levels == 0 {
        seq![i]
    } else {
        let rest = a_way_beyond(nodes, expanded, Some(nodes[i].id), (levels - 1) as nat);
        let way = seq![i] + rest;
        assert forall|k: int| 0 <= k < way.len() implies 0 <= #[trigger] way[k] < nodes.len() by {
            if k > 0 {
                assert(way[k] == rest[k - 1]);
            }
        }
        assert forall|k: int| 0 < k < way.len() implies nodes[#[trigger] way[k]].parent_id == Some(
            nodes[way[k - 1]].id,
        ) by {
            assert(way[k] == rest[k - 1]);
            if k > 1 {
                assert(way[k - 1] == rest[k - 2]);
            }
        }
        way
    }
}

/// A way down from the roots passes no subagent twice.
proof fn ways_from_the_roots_never_return(
    nodes: Seq<SubagentModel>,
    way: Seq<int>,
    a: int,
    b: int,
)
    requires
        unique_ids(nodes),
        leads_down(nodes, None, way),
        0 <= a < b < way.len(),
    ensures
        way[a] != way[b],
    decreases a,
{
    assert(nodes[way[b]].parent_id == Some(nodes[way[b - 1]].id));
    if way[a] == way[b] {
        if a > 0 {
            assert(nodes[way[a]].parent_id == Some(nodes[way[a - 1]].id));
            ways_from_the_roots_never_return(nodes, way, a - 1, b - 1);
            assert(0 <= way[a - 1] < nodes.len() && 0 <= way[b - 1] < nodes.len());
            if way[a - 1] < way[b - 1] {
                assert(nodes[way[a - 1]].id != nodes[way[b - 1]].id);
            } else {
                assert(nodes[way[b - 1]].id != nodes[way[a - 1]].id);
            }
        }
    }
}

/// Where no two subagents have the same id, the walk ends, whatever is open.
pub proof fn unique_ids_end_the_walk(nodes: Seq<SubagentModel>, expanded: Set<Seq<char>>)
    requires
        unique_ids(nodes),
    ensures
        walk_ends(nodes, expanded),
{
    if !ends_within(nodes, expanded, None, nodes.len()) {
        let way = a_way_beyond(nodes, expanded, None, nodes.len());
        assert forall|i: int, j: int|
            0 <= i < way.len() && 0 <= j < way.len() && i != j implies way[i] != way[j] by {
            if i < j {
                ways_from_the_roots_never_return(nodes, way, i, j);
            } else {
                ways_from_the_roots_never_return(nodes, way, j, i);
            }
        }
        different_places_fit(way, nodes.len());
    }
}

/// The roots among the first `count` subagents, in order.
pub open spec fn roots(nodes: Seq<SubagentModel>, count: nat) -> Seq<(int, nat)>
    decreases count,
{
    if count == 0 {
        Seq::empty()
    } else if nodes[count - 1].parent_id is None {
        roots(nodes, (count - 1) as nat).push((count - 1, 0nat))
    } else {
        roots(nodes, (count - 1) as nat)
    }
}

proof fn closed_rows_are_roots(nodes: Seq<SubagentModel>, levels: nat, count: nat)
    ensures
        rows_below(nodes, Set::empty(), None, 0, levels, count) == roots(nodes, count),
    decreases count,
{
    if count > 0 {
        closed_rows_are_roots(nodes, levels, (count - 1) as nat);
        let i = count - 1;
        let before = roots(nodes, (count - 1) as nat);
        assert(opened_below(nodes, Set::empty(), i, 0, levels) =~= Seq::empty());
        assert(before.push((i, 0nat)) + Seq::empty() =~= before.push((i, 0nat)));
    }
}

/// While nothing is open, the tree shows its roots and nothing else.
pub proof fn a_closed_tree_shows_its_roots(nodes: Seq<SubagentModel>)
    ensures
        walk_ends(nodes, Set::empty()),
        visible(nodes, Set::empty()) == roots(nodes, nodes.len()),
{
    assert(ends_within(nodes, Set::empty(), None, 0));
    closed_rows_are_roots(nodes, nodes.len(), nodes.len());
}

/// A row that shows a subagent, no higher than a depth.
spec fn shows_subagent(nodes: Seq<SubagentModel>, depth: nat, row: (int, nat)) -> bool {
    0 <= row.0 < nodes.len() && row.1 >= depth
}

/// Every row shows a subagent, no higher than where the rows begin.
proof fn rows_show_subagents(
    nodes: Seq<SubagentModel>,
    expanded: Set<Seq<char>>,
    parent: Option<Seq<char>>,
    depth: nat,
    levels: nat,
    count: nat,
)
    requires
        count <= nodes.len(),
    ensures
        forall|k: int|
            0 <= k < rows_below(nodes, expanded, parent, depth, levels, count).len()
                ==> shows_subagent(
                nodes,
                depth,
                #[trigger] rows_below(nodes, expanded, parent, depth, levels, count)[k],
            ),
    decreases levels, count,
{
    if count > 0 {
        let i = count - 1;
        rows_show_subagents(nodes, expanded, parent, depth, levels, (count - 1) as nat);
        let before = rows_below(nodes, expanded, parent, depth, levels, (count - 1) as nat);
        if nodes[i].parent_id == parent {
            let below = opened_below(nodes, expanded, i, depth, levels);
            reveal_with_fuel(opened_below, 2);
            if expanded.contains(nodes[i].id) && levels > 0 {
                rows_show_subagents(
                    nodes,
                    expanded,
                    Some(nodes[i].id),
                    depth + 1,
                    (levels - 1) as nat,
                    nodes.len(),
                );
            }
            let rows = rows_below(nodes, expanded, parent, depth, levels, count);
            assert forall|k: int| 0 <= k < rows.len() implies shows_subagent(
                nodes,
                depth,
                #[trigger] rows[k],
            ) by {
                if k < before.len() {
                    assert(rows[k] == before[k]);
                } else if k > before.len() {
                    let inner = k - before.len() - 1;
                    assert(rows[k] == below[inner]);
                    assert(below == rows_below(
                        nodes,
                        expanded,
                        Some(nodes[i].id),
                        depth + 1,
                        (levels - 1) as nat,
                        nodes.len(),
                    ));
                    assert(shows_subagent(
                        nodes,
                        depth + 1,
                        rows_below(
                            nodes,
                            expanded,
                            Some(nodes[i].id),
                            depth + 1,
                            (levels - 1) as nat,
                            nodes.len(),
                        )[inner],
                    ));
                }
            }
        }
    }
}

/// The place of the subagent with a given id.
spec fn place_of(nodes: Seq<SubagentModel>, id: Seq<char>) -> int {
    choose|i: int| 0 <= i < nodes.len() && (#[trigger] nodes[i]).id == id
}

/// There is a subagent with a given id.
spec fn has_id(nodes: Seq<SubagentModel>, id: Seq<char>) -> bool {
    exists|i: int| 0 <= i < nodes.len() && (#[trigger] nodes[i]).id == id
}

/// What is reached from a parent by going up a number of steps: nothing beyond the
/// roots.
spec fn up(nodes: Seq<SubagentModel>, from: Option<Seq<char>>, steps: nat) -> Option<
    Option<Seq<char>>,
>
    decreases steps,
{
    if steps == 0 {
        Some(from)
    } else {
        match from {
            Some(id) => if has_id(nodes, id) {
                up(nodes, nodes[place_of(nodes, id)].parent_id, (steps - 1) as nat)
            } else {
                None
            },
            None => None,
        }
    }
}

proof fn one_place_for_an_id(nodes: Seq<SubagentModel>, i: int)
    requires
        unique_ids(nodes),
        0 <= i < nodes.len(),
    ensures
        has_id(nodes, nodes[i].id),
        place_of(nodes, nodes[i].id) == i,
{
    let place = place_of(nodes, nodes[i].id);
    assert(0 <= place < nodes.len() && nodes[place].id == nodes[i].id);
    if place < i {
        assert(nodes[place].id != nodes[i].id);
    }
    if i < place {
        assert(nodes[i].id != nodes[place].id);
    }
}

proof fn going_up_in_two_parts(
    nodes: Seq<SubagentModel>,
    from: Option<Seq<char>>,
    first: nat,
    middle: Option<Seq<char>>,
    second: nat,
)
    requires
        up(nodes, from, first) == Some(middle),
    ensures
        up(nodes, from, first + second) == up(nodes, middle, second),
    decreases first,
{
    if first > 0 {
        let id = from->0;
        going_up_in_two_parts(
            nodes,
            nodes[place_of(nodes, id)].parent_id,
            (first - 1) as nat,
            middle,
            second,
        );
    }
}

/// The roots are reached in one number of steps.
proof fn one_number_of_steps(
    nodes: Seq<SubagentModel>,
    from: Option<Seq<char>>,
    first: nat,
    second: nat,
)
    requires
        up(nodes, from, first) == Some(None::<Seq<char>>),
        up(nodes, from, second) == Some(None::<Seq<char>>),
    ensures
        first == second,
{
    if first < second {
        going_up_in_two_parts(nodes, from, first, None, (second - first) as nat);
    }
    if second < first {
        going_up_in_two_parts(nodes, from, second, None, (first - second) as nat);
    }
}

/// From a row, its depth leads up to the parent of the rows.
proof fn rows_lead_up(
    nodes: Seq<SubagentModel>,
    expanded: Set<Seq<char>>,
    parent: Option<Seq<char>>,
    depth: nat,
    levels: nat,
    count: nat,
    k: int,
)
    requires
        unique_ids(nodes),
        count <= nodes.len(),
        0 <= k < rows_below(nodes, expanded, parent, depth, levels, count).len(),
    ensures
        ({
            let row = rows_below(nodes, expanded, parent, depth, levels, count)[k];
            &&& 0 <= row.0 < nodes.len()
            &&& row.1 >= depth
            &&& up(nodes, nodes[row.0].parent_id, (row.1 - depth) as nat) == Some(parent)
        }),
    decreases levels, count,
{
    let i = count - 1;
    let before = rows_below(nodes, expanded, parent, depth, levels, (count - 1) as nat);
    rows_show_subagents(nodes, expanded, parent, depth, levels, count);
    let row = rows_below(nodes, expanded, parent, depth, levels, count)[k];
    if k < before.len() {
        rows_lead_up(nodes, expanded, parent, depth, levels, (count - 1) as nat, k);
        assert(row == before[k]);
    } else if k > before.len() {
        reveal_with_fuel(opened_below, 2);
        let below = opened_below(nodes, expanded, i, depth, levels);
        assert(row == below[k - before.len() - 1]);
        rows_lead_up(
            nodes,
            expanded,
            Some(nodes[i].id),
            depth + 1,
            (levels - 1) as nat,
            nodes.len(),
            k - before.len() - 1,
        );
        one_place_for_an_id(nodes, i);
        going_up_in_two_parts(
            nodes,
            nodes[row.0].parent_id,
            (row.1 - depth - 1) as nat,
            Some(nodes[i].id),
            1,
        );
        reveal_with_fuel(up, 2);
    }
}

/// The child, among the first `count` subagents, at or below which a row stands.
proof fn rows_come_from_children(
    nodes: Seq<SubagentModel>,
    expanded: Set<Seq<char>>,
    parent: Option<Seq<char>>,
    depth: nat,
    levels: nat,
    count: nat,
    k: int,
) -> (child: int)
    requires
        unique_ids(nodes),
        count <= nodes.len(),
        0 <= k < rows_below(nodes, expanded, parent, depth, levels, count).len(),
    ensures
        0 <= child < count,
        ({
            let row = rows_below(nodes, expanded, parent, depth, levels, count)[k];
            &&& row.1 >= depth
            &&& row.1 == depth ==> row.0 == child
            &&& row.1 > depth ==> up(
                nodes,
                nodes[row.0].parent_id,
                (row.1 - depth - 1) as nat,
            ) == Some(Some(nodes[child].id))
        }),
    decreases count,
{
    let i = count - 1;
    let before = rows_below(nodes, expanded, parent, depth, levels, (count - 1) as nat);
    let row = rows_below(nodes, expanded, parent, depth, levels, count)[k];
    if k < before.len() {
        assert(row == before[k]);
        rows_come_from_children(nodes, expanded, parent, depth, levels, (count - 1) as nat, k)
    } else {
        if k > before.len() {
            reveal_with_fuel(opened_below, 2);
            let below = opened_below(nodes, expanded, i, depth, levels);
            assert(row == below[k - before.len() - 1]);
            rows_lead_up(
                nodes,
                expanded,
                Some(nodes[i].id),
                depth + 1,
                (levels - 1) as nat,
                nodes.len(),
                k - before.len() - 1,
            );
        }
        i
    }
}

/// Rows that stand at or below different children show different subagents.
proof fn rows_are_apart(
    nodes: Seq<SubagentModel>,
    expanded: Set<Seq<char>>,
    parent: Option<Seq<char>>,
    depth: nat,
    levels: nat,
    count: nat,
    j: int,
    k: int,
)
    requires
        unique_ids(nodes),
        0 < count <= nodes.len(),
        up(nodes, parent, depth) == Some(None::<Seq<char>>),
        nodes[count - 1].parent_id == parent,
        0 <= j < k < rows_below(nodes, expanded, parent, depth, levels, count).len(),
        j <= rows_below(nodes, expanded, parent, depth, levels, (count - 1) as nat).len() <= k,
    ensures
        rows_below(nodes, expanded, parent, depth, levels, count)[j].0 != rows_below(
            nodes,
            expanded,
            parent,
            depth,
            levels,
            count,
        )[k].0,
{
    let i = count - 1;
    let before = rows_below(nodes, expanded, parent, depth, levels, (count - 1) as nat);
    let rows = rows_below(nodes, expanded, parent, depth, levels, count);
    let at = before.len() as int;
    let left = rows[j];
    let right = rows[k];
    rows_lead_up(nodes, expanded, parent, depth, levels, count, j);
    rows_lead_up(nodes, expanded, parent, depth, levels, count, k);
    if left.0 == right.0 {
        let from = nodes[left.0].parent_id;
        going_up_in_two_parts(nodes, from, (left.1 - depth) as nat, parent, depth);
        going_up_in_two_parts(nodes, from, (right.1 - depth) as nat, parent, depth);
        one_number_of_steps(nodes, from, left.1, right.1);
        if j == at {
            let below = opened_below(nodes, expanded, i, depth, levels);
            reveal_with_fuel(opened_below, 2);
            assert(left == (i, depth));
            assert(right == below[k - at - 1]);
            rows_lead_up(
                nodes,
                expanded,
                Some(nodes[i].id),
                depth + 1,
                (levels - 1) as nat,
                nodes.len(),
                k - at - 1,
            );
            assert(right.1 >= depth + 1);
        } else {
            assert(left == before[j]);
            let child = rows_come_from_children(
                nodes,
                expanded,
                parent,
                depth,
                levels,
                (count - 1) as nat,
                j,
            );
            if k > at {
                let below = opened_below(nodes, expanded, i, depth, levels);
                reveal_with_fuel(opened_below, 2);
                assert(right == below[k - at - 1]);
                rows_lead_up(
                    nodes,
                    expanded,
                    Some(nodes[i].id),
                    depth + 1,
                    (levels - 1) as nat,
                    nodes.len(),
                    k - at - 1,
                );
                assert(nodes[child].id != nodes[i].id);
            } else {
                assert(right == (i, depth));
            }
        }
    }
}

/// No two rows show the same subagent.
pub open spec fn shows_each_once(rows: Seq<(int, nat)>) -> bool {
    forall|j: int, k: int|
        0 <= j < k < rows.len() ==> (#[trigger] rows[j]).0 != (#[trigger] rows[k]).0
}

proof fn rows_below_show_each_once(
    nodes: Seq<SubagentModel>,
    expanded: Set<Seq<char>>,
    parent: Option<Seq<char>>,
    depth: nat,
    levels: nat,
    count: nat,
)
    requires
        unique_ids(nodes),
        count <= nodes.len(),
        up(nodes, parent, depth) == Some(None::<Seq<char>>),
    ensures
        shows_each_once(rows_below(nodes, expanded, parent, depth, levels, count)),
    decreases levels, count,
{
    if count > 0 {
        let i = count - 1;
        let before = rows_below(nodes, expanded, parent, depth, levels, (count - 1) as nat);
        let rows = rows_below(nodes, expanded, parent, depth, levels, count);
        rows_below_show_each_once(nodes, expanded, parent, depth, levels, (count - 1) as nat);
        if nodes[i].parent_id == parent {
            let below = opened_below(nodes, expanded, i, depth, levels);
            reveal_with_fuel(opened_below, 2);
            one_place_for_an_id(nodes, i);
            if expanded.contains(nodes[i].id) && levels > 0 {
                reveal_with_fuel(up, 2);
                going_up_in_two_parts(nodes, Some(nodes[i].id), 1, parent, depth);
                rows_below_show_each_once(
                    nodes,
                    expanded,
                    Some(nodes[i].id),
                    depth + 1,
                    (levels - 1) as nat,
                    nodes.len(),
                );
            }
            assert forall|j: int, k: int| 0 <= j < k < rows.len() implies (#[trigger] rows[j]).0
                != (#[trigger] rows[k]).0 by {
                let at = before.len() as int;
                if k < at {
                    assert(rows[j] == before[j] && rows[k] == before[k]);
                } else if j > at {
                    assert(rows[j] == below[j - at - 1] && rows[k] == below[k - at - 1]);
                } else {
                    rows_are_apart(nodes, expanded, parent, depth, levels, count, j, k);
                }
            }
        }
    }
}

/// Where no two subagents have the same id, no subagent is shown twice, whatever
/// is open.
pub proof fn no_subagent_is_shown_twice(nodes: Seq<SubagentModel>, expanded: Set<Seq<char>>)
    requires
        unique_ids(nodes),
    ensures
        shows_each_once(visible(nodes, expanded)),
{
    rows_below_show_each_once(nodes, expanded, None, 0, nodes.len(), nodes.len());
}

/// Every row below the roots stands under an open subagent one level up, which
/// started it.
pub proof fn rows_stand_under_open_subagents(
    nodes: Seq<SubagentModel>,
    expanded: Set<Seq<char>>,
    k: int,
)
    requires
        0 <= k < visible(nodes, expanded).len(),
    ensures
        ({
            let rows = visible(nodes, expanded);
            let node = nodes[rows[k].0];
            &&& 0 <= rows[k].0 < nodes.len()
            &&& rows[k].1 == 0 ==> node.parent_id is None
            &&& rows[k].1 > 0 ==> node.parent_id is Some && expanded.contains(node.parent_id->0)
                && exists|j: int|
                0 <= j < k && (#[trigger] rows[j]).1 == rows[k].1 - 1 && nodes[rows[j].0].id
                    == node.parent_id->0
        }),
{
    rows_below_have_parents(nodes, expanded, None, 0, nodes.len(), nodes.len(), k);
}

proof fn rows_below_have_parents(
    nodes: Seq<SubagentModel>,
    expanded: Set<Seq<char>>,
    parent: Option<Seq<char>>,
    depth: nat,
    levels: nat,
    count: nat,
    k: int,
)
    requires
        count <= nodes.len(),
        0 <= k < rows_below(nodes, expanded, parent, depth, levels, count).len(),
    ensures
        ({
            let rows = rows_below(nodes, expanded, parent, depth, levels, count);
            let node = nodes[rows[k].0];
            &&& 0 <= rows[k].0 < nodes.len()
            &&& rows[k].1 >= depth
            &&& rows[k].1 == depth ==> node.parent_id == parent
            &&& rows[k].1 > depth ==> node.parent_id is Some && expanded.contains(
                node.parent_id->0,
            ) && exists|j: int|
                0 <= j < k && (#[trigger] rows[j]).1 == rows[k].1 - 1 && nodes[rows[j].0].id
                    == node.parent_id->0
        }),
    decreases levels, count,
{
    let i = count - 1;
    let before = rows_below(nodes, expanded, parent, depth, levels, (count - 1) as nat);
    let rows = rows_below(nodes, expanded, parent, depth, levels, count);
    let at = before.len() as int;
    let node = nodes[rows[k].0];
    if k < at {
        assert(rows[k] == before[k]);
        rows_below_have_parents(
            nodes,
            expanded,
            parent,
            depth,
            levels,
            (count - 1) as nat,
            k,
        );
        if rows[k].1 > depth {
            let j = choose|j: int|
                0 <= j < k && (#[trigger] before[j]).1 == before[k].1 - 1 && nodes[before[j].0].id
                    == node.parent_id->0;
            assert(rows[j] == before[j]);
        }
    } else if k > at {
        reveal_with_fuel(opened_below, 2);
        let below = opened_below(nodes, expanded, i, depth, levels);
        let inner = k - at - 1;
        assert(rows[k] == below[inner]);
        assert(rows[at] == (i, depth));
        rows_below_have_parents(
            nodes,
            expanded,
            Some(nodes[i].id),
            depth + 1,
            (levels - 1) as nat,
            nodes.len(),
            inner,
        );
        if rows[k].1 > depth + 1 {
            let j = choose|j: int|
                0 <= j < inner && (#[trigger] below[j]).1 == below[inner].1 - 1
                    && nodes[below[j].0].id == node.parent_id->0;
            assert(rows[at + 1 + j] == below[j]);
        }
    }
}

/// Every subagent on a way is open, but for the last.
pub open spec fn opens_the_way(
    nodes: Seq<SubagentModel>,
    expanded: Set<Seq<char>>,
    way: Seq<int>,
) -> bool {
    forall|k: int| 0 <= k < way.len() - 1 ==> expanded.contains(nodes[#[trigger] way[k]].id)
}

/// The row of a child, and each row below it, is one of the rows of its parent.
proof fn rows_hold_each_child(
    nodes: Seq<SubagentModel>,
    expanded: Set<Seq<char>>,
    parent: Option<Seq<char>>,
    depth: nat,
    levels: nat,
    count: nat,
    i: int,
    row: (int, nat),
)
    requires
        0 <= i < count <= nodes.len(),
        nodes[i].parent_id == parent,
        row == (i, depth) || opened_below(nodes, expanded, i, depth, levels).contains(row),
    ensures
        rows_below(nodes, expanded, parent, depth, levels, count).contains(row),
    decreases count,
{
    let rows = rows_below(nodes, expanded, parent, depth, levels, count);
    let before = rows_below(nodes, expanded, parent, depth, levels, (count - 1) as nat);
    let at = before.len() as int;
    if i < count - 1 {
        rows_hold_each_child(
            nodes,
            expanded,
            parent,
            depth,
            levels,
            (count - 1) as nat,
            i,
            row,
        );
        let k = choose|k: int| 0 <= k < before.len() && before[k] == row;
        assert(rows[k] == row);
    } else if row == (i, depth) {
        assert(rows[at] == row);
    } else {
        let below = opened_below(nodes, expanded, i, depth, levels);
        let k = choose|k: int| 0 <= k < below.len() && below[k] == row;
        assert(rows[at + 1 + k] == row);
    }
}

proof fn an_open_way_leads_to_a_row_below(
    nodes: Seq<SubagentModel>,
    expanded: Set<Seq<char>>,
    parent: Option<Seq<char>>,
    depth: nat,
    levels: nat,
    way: Seq<int>,
)
    requires
        way.len() > 0,
        leads_down(nodes, parent, way),
        opens_the_way(nodes, expanded, way),
        ends_within(nodes, expanded, parent, levels),
    ensures
        rows_below(nodes, expanded, parent, depth, levels, nodes.len()).contains(
            (way.last(), (depth + way.len() - 1) as nat),
        ),
    decreases way.len(),
{
    let i = way[0];
    let row = (way.last(), (depth + way.len() - 1) as nat);
    if way.len() > 1 {
        let rest = way.drop_first();
        assert(nodes[way[1]].parent_id == Some(nodes[way[0]].id));
        assert forall|k: int| 0 <= k < rest.len() implies 0 <= #[trigger] rest[k]
            < nodes.len() by {
            assert(rest[k] == way[k + 1]);
        }
        assert forall|k: int| 0 < k < rest.len() implies nodes[#[trigger] rest[k]].parent_id
            == Some(nodes[rest[k - 1]].id) by {
            assert(rest[k] == way[k + 1] && rest[k - 1] == way[k]);
        }
        assert forall|k: int| 0 <= k < rest.len() - 1 implies expanded.contains(
            nodes[#[trigger] rest[k]].id,
        ) by {
            assert(rest[k] == way[k + 1]);
        }
        an_open_way_leads_to_a_row_below(
            nodes,
            expanded,
            Some(nodes[i].id),
            depth + 1,
            (levels - 1) as nat,
            rest,
        );
        reveal_with_fuel(opened_below, 2);
        assert(opened_below(nodes, expanded, i, depth, levels).contains(row));
    }
    rows_hold_each_child(nodes, expanded, parent, depth, levels, nodes.len(), i, row);
}

/// Every subagent that an open way leads to from a root has a row, as deep as the
/// way is long.
pub proof fn open_ways_lead_to_rows(
    nodes: Seq<SubagentModel>,
    expanded: Set<Seq<char>>,
    way: Seq<int>,
)
    requires
        walk_ends(nodes, expanded),
        way.len() > 0,
        leads_down(nodes, None, way),
        opens_the_way(nodes, expanded, way),
    ensures
        visible(nodes, expanded).contains((way.last(), (way.len() - 1) as nat)),
{
    as_many_levels_as_subagents(nodes, expanded);
    an_open_way_leads_to_a_row_below(nodes, expanded, None, 0, nodes.len(), way);
}

// ---------------------------------------------------------------------------
// Opening more
// ---------------------------------------------------------------------------

/// Rows are some of other rows: those at given places, from the first to the last.
pub open spec fn taken_from(
    rows: Seq<(int, nat)>,
    others: Seq<(int, nat)>,
    places: Seq<int>,
) -> bool {
    &&& places.len() == rows.len()
    &&& forall|k: int|
        0 <= k < places.len() ==> 0 <= #[trigger] places[k] < others.len() && others[places[k]]
            == rows[k]
    &&& forall|j: int, k: int|
        0 <= j < k < places.len() ==> #[trigger] places[j] < #[trigger] places[k]
}

/// Rows are some of other rows, in the same order and at the same depths.
pub open spec fn are_among(rows: Seq<(int, nat)>, others: Seq<(int, nat)>) -> bool {
    exists|places: Seq<int>| taken_from(rows, others, places)
}

proof fn rows_in_two_parts_are_among(
    first: Seq<(int, nat)>,
    first_others: Seq<(int, nat)>,
    second: Seq<(int, nat)>,
    second_others: Seq<(int, nat)>,
)
    requires
        are_among(first, first_others),
        are_among(second, second_others),
    ensures
        are_among(first + second, first_others + second_others),
{
    let left = choose|places: Seq<int>| taken_from(first, first_others, places);
    let right = choose|places: Seq<int>| taken_from(second, second_others, places);
    let moved = Seq::new(right.len(), |k: int| right[k] + first_others.len());
    let places = left + moved;
    let rows = first + second;
    let others = first_others + second_others;
    assert forall|k: int| 0 <= k < places.len() implies 0 <= #[trigger] places[k] < others.len()
        && others[places[k]] == rows[k] by {
        if k < left.len() {
            assert(places[k] == left[k]);
        } else {
            let inner = k - left.len();
            assert(0 <= right[inner] < second_others.len());
            assert(places[k] == right[inner] + first_others.len());
        }
    }
    assert forall|j: int, k: int| 0 <= j < k < places.len() implies #[trigger] places[j]
        < #[trigger] places[k] by {
        if k < left.len() {
            assert(left[j] < left[k]);
        } else if j < left.len() {
            assert(left[j] < first_others.len());
            assert(0 <= right[k - left.len()]);
        } else {
            assert(right[j - left.len()] < right[k - left.len()]);
        }
    }
    assert(taken_from(rows, others, places));
}

proof fn rows_are_among_themselves(rows: Seq<(int, nat)>)
    ensures
        are_among(rows, rows),
{
    assert(taken_from(rows, rows, Seq::new(rows.len(), |k: int| k)));
}

proof fn no_rows_are_among_any(others: Seq<(int, nat)>)
    ensures
        are_among(Seq::empty(), others),
{
    assert(taken_from(Seq::empty(), others, Seq::empty()));
}

proof fn opening_more_keeps_the_rows_below(
    nodes: Seq<SubagentModel>,
    fewer: Set<Seq<char>>,
    more: Set<Seq<char>>,
    parent: Option<Seq<char>>,
    depth: nat,
    levels: nat,
    count: nat,
)
    requires
        fewer.subset_of(more),
        count <= nodes.len(),
    ensures
        are_among(
            rows_below(nodes, fewer, parent, depth, levels, count),
            rows_below(nodes, more, parent, depth, levels, count),
        ),
    decreases levels, count,
{
    if count == 0 {
        no_rows_are_among_any(Seq::empty());
    } else {
        let i = count - 1;
        let rows = rows_below(nodes, fewer, parent, depth, levels, (count - 1) as nat);
        let others = rows_below(nodes, more, parent, depth, levels, (count - 1) as nat);
        opening_more_keeps_the_rows_below(
            nodes,
            fewer,
            more,
            parent,
            depth,
            levels,
            (count - 1) as nat,
        );
        if nodes[i].parent_id == parent {
            let row = seq![(i, depth)];
            let below = opened_below(nodes, fewer, i, depth, levels);
            let others_below = opened_below(nodes, more, i, depth, levels);
            reveal_with_fuel(opened_below, 2);
            if fewer.contains(nodes[i].id) && levels > 0 {
                opening_more_keeps_the_rows_below(
                    nodes,
                    fewer,
                    more,
                    Some(nodes[i].id),
                    depth + 1,
                    (levels - 1) as nat,
                    nodes.len(),
                );
            } else {
                no_rows_are_among_any(others_below);
            }
            rows_are_among_themselves(row);
            rows_in_two_parts_are_among(rows, others, row, row);
            rows_in_two_parts_are_among(rows + row, others + row, below, others_below);
            assert(rows.push((i, depth)) =~= rows + row);
            assert(others.push((i, depth)) =~= others + row);
        }
    }
}

proof fn opening_less_ends_too(
    nodes: Seq<SubagentModel>,
    fewer: Set<Seq<char>>,
    more: Set<Seq<char>>,
    parent: Option<Seq<char>>,
    levels: nat,
)
    requires
        fewer.subset_of(more),
        ends_within(nodes, more, parent, levels),
    ensures
        ends_within(nodes, fewer, parent, levels),
    decreases levels,
{
    assert forall|i: int|
        0 <= i < nodes.len() && (#[trigger] nodes[i]).parent_id == parent && fewer.contains(
            nodes[i].id,
        ) implies levels > 0 && ends_within(
        nodes,
        fewer,
        Some(nodes[i].id),
        (levels - 1) as nat,
    ) by {
        assert(more.contains(nodes[i].id));
        opening_less_ends_too(nodes, fewer, more, Some(nodes[i].id), (levels - 1) as nat);
    }
}

/// Opening more subagents adds rows between those that are shown, and changes
/// neither their order nor their depths. What ends while more is open ends while
/// less is.
pub proof fn opening_more_keeps_the_rows(
    nodes: Seq<SubagentModel>,
    fewer: Set<Seq<char>>,
    more: Set<Seq<char>>,
)
    requires
        fewer.subset_of(more),
    ensures
        are_among(visible(nodes, fewer), visible(nodes, more)),
        walk_ends(nodes, more) ==> walk_ends(nodes, fewer),
{
    opening_more_keeps_the_rows_below(nodes, fewer, more, None, 0, nodes.len(), nodes.len());
    if walk_ends(nodes, more) {
        as_many_levels_as_subagents(nodes, more);
        opening_less_ends_too(nodes, fewer, more, None, nodes.len());
    }
}

/// One of some rows shows the subagent with a given id.
pub open spec fn has_row(
    nodes: Seq<SubagentModel>,
    rows: Seq<(int, nat)>,
    id: Seq<char>,
) -> bool {
    exists|k: int| 0 <= k < rows.len() && nodes[(#[trigger] rows[k]).0].id == id
}

/// Nothing is to be seen of opening a subagent: it has no children, or no row.
pub open spec fn opens_nothing(
    nodes: Seq<SubagentModel>,
    rows: Seq<(int, nat)>,
    id: Seq<char>,
) -> bool {
    !has_child(nodes, id) || !has_row(nodes, rows, id)
}

proof fn without_children_no_rows(
    nodes: Seq<SubagentModel>,
    expanded: Set<Seq<char>>,
    id: Seq<char>,
    depth: nat,
    levels: nat,
    count: nat,
)
    requires
        !has_child(nodes, id),
        count <= nodes.len(),
    ensures
        rows_below(nodes, expanded, Some(id), depth, levels, count).len() == 0,
    decreases count,
{
    if count > 0 {
        assert(nodes[count - 1].parent_id != Some(id));
        without_children_no_rows(nodes, expanded, id, depth, levels, (count - 1) as nat);
    }
}

proof fn opening_nothing_keeps_the_rows_below(
    nodes: Seq<SubagentModel>,
    fewer: Set<Seq<char>>,
    more: Set<Seq<char>>,
    parent: Option<Seq<char>>,
    depth: nat,
    levels: nat,
    count: nat,
)
    requires
        fewer.subset_of(more),
        count <= nodes.len(),
        forall|id: Seq<char>|
            more.contains(id) && !fewer.contains(id) ==> #[trigger] opens_nothing(
                nodes,
                rows_below(nodes, fewer, parent, depth, levels, count),
                id,
            ),
    ensures
        rows_below(nodes, fewer, parent, depth, levels, count) == rows_below(
            nodes,
            more,
            parent,
            depth,
            levels,
            count,
        ),
    decreases levels, count,
{
    if count > 0 {
        let i = count - 1;
        let rows = rows_below(nodes, fewer, parent, depth, levels, count);
        let before = rows_below(nodes, fewer, parent, depth, levels, (count - 1) as nat);
        let at = before.len() as int;
        assert forall|id: Seq<char>|
            more.contains(id) && !fewer.contains(id) implies #[trigger] opens_nothing(
            nodes,
            before,
            id,
        ) by {
            assert(opens_nothing(nodes, rows, id));
            if has_row(nodes, before, id) {
                let k = choose|k: int|
                    0 <= k < before.len() && nodes[(#[trigger] before[k]).0].id == id;
                assert(rows[k] == before[k]);
            }
        }
        opening_nothing_keeps_the_rows_below(
            nodes,
            fewer,
            more,
            parent,
            depth,
            levels,
            (count - 1) as nat,
        );
        if nodes[i].parent_id == parent {
            let id = nodes[i].id;
            let below = opened_below(nodes, fewer, i, depth, levels);
            reveal_with_fuel(opened_below, 2);
            assert(rows[at] == (i, depth));
            if fewer.contains(id) && levels > 0 {
                assert forall|inner: Seq<char>|
                    more.contains(inner) && !fewer.contains(
                        inner,
                    ) implies #[trigger] opens_nothing(nodes, below, inner) by {
                    assert(opens_nothing(nodes, rows, inner));
                    if has_row(nodes, below, inner) {
                        let k = choose|k: int|
                            0 <= k < below.len() && nodes[(#[trigger] below[k]).0].id == inner;
                        assert(rows[at + 1 + k] == below[k]);
                    }
                }
                opening_nothing_keeps_the_rows_below(
                    nodes,
                    fewer,
                    more,
                    Some(id),
                    depth + 1,
                    (levels - 1) as nat,
                    nodes.len(),
                );
            } else if more.contains(id) && levels > 0 {
                assert(opens_nothing(nodes, rows, id));
                without_children_no_rows(
                    nodes,
                    more,
                    id,
                    depth + 1,
                    (levels - 1) as nat,
                    nodes.len(),
                );
            }
            assert(below =~= opened_below(nodes, more, i, depth, levels));
        }
    }
}

/// Opening subagents that have no children, or no row, changes no row.
pub proof fn opening_nothing_keeps_the_rows(
    nodes: Seq<SubagentModel>,
    fewer: Set<Seq<char>>,
    more: Set<Seq<char>>,
)
    requires
        fewer.subset_of(more),
        forall|id: Seq<char>|
            more.contains(id) && !fewer.contains(id) ==> #[trigger] opens_nothing(
                nodes,
                visible(nodes, fewer),
                id,
            ),
    ensures
        visible(nodes, more) == visible(nodes, fewer),
{
    let rows = rows_below(nodes, fewer, None, 0, nodes.len(), nodes.len());
    assert forall|id: Seq<char>|
        more.contains(id) && !fewer.contains(id) implies #[trigger] opens_nothing(
        nodes,
        rows,
        id,
    ) by {
        assert(opens_nothing(nodes, visible(nodes, fewer), id));
    }
    opening_nothing_keeps_the_rows_below(nodes, fewer, more, None, 0, nodes.len(), nodes.len());
}

// ---------------------------------------------------------------------------
// The order of the rows
// ---------------------------------------------------------------------------

/// The row before another one under which that one stands: one level up, for the
/// subagent that started it, with nothing between them that is not below it.
pub open spec fn stands_under(
    nodes: Seq<SubagentModel>,
    rows: Seq<(int, nat)>,
    j: int,
    k: int,
) -> bool {
    &&& 0 <= j < k < rows.len()
    &&& rows[j].1 + 1 == rows[k].1
    &&& nodes[rows[k].0].parent_id == Some(nodes[rows[j].0].id)
    &&& forall|m: int| j < m < k ==> (#[trigger] rows[m]).1 >= rows[k].1
}

proof fn rows_below_stand_under_their_parents(
    nodes: Seq<SubagentModel>,
    expanded: Set<Seq<char>>,
    parent: Option<Seq<char>>,
    depth: nat,
    levels: nat,
    count: nat,
    k: int,
)
    requires
        count <= nodes.len(),
        0 <= k < rows_below(nodes, expanded, parent, depth, levels, count).len(),
        rows_below(nodes, expanded, parent, depth, levels, count)[k].1 > depth,
    ensures
        exists|j: int|
            stands_under(
                nodes,
                rows_below(nodes, expanded, parent, depth, levels, count),
                j,
                k,
            ),
    decreases levels, count,
{
    let i = count - 1;
    let before = rows_below(nodes, expanded, parent, depth, levels, (count - 1) as nat);
    let rows = rows_below(nodes, expanded, parent, depth, levels, count);
    let at = before.len() as int;
    if k < at {
        assert(rows[k] == before[k]);
        rows_below_stand_under_their_parents(
            nodes,
            expanded,
            parent,
            depth,
            levels,
            (count - 1) as nat,
            k,
        );
        let j = choose|j: int| stands_under(nodes, before, j, k);
        assert forall|m: int| j < m < k implies (#[trigger] rows[m]).1 >= rows[k].1 by {
            assert(rows[m] == before[m]);
        }
        assert(rows[j] == before[j]);
        assert(stands_under(nodes, rows, j, k));
    } else {
        reveal_with_fuel(opened_below, 2);
        let below = opened_below(nodes, expanded, i, depth, levels);
        let inner = k - at - 1;
        assert(rows[at] == (i, depth));
        assert(k > at);
        assert(rows[k] == below[inner]);
        let held = rows_below(
            nodes,
            expanded,
            Some(nodes[i].id),
            depth + 1,
            (levels - 1) as nat,
            nodes.len(),
        );
        assert(below == held);
        rows_show_subagents(
            nodes,
            expanded,
            Some(nodes[i].id),
            depth + 1,
            (levels - 1) as nat,
            nodes.len(),
        );
        if rows[k].1 == depth + 1 {
            rows_below_have_parents(
                nodes,
                expanded,
                Some(nodes[i].id),
                depth + 1,
                (levels - 1) as nat,
                nodes.len(),
                inner,
            );
            assert forall|m: int| at < m < k implies (#[trigger] rows[m]).1 >= rows[k].1 by {
                assert(rows[m] == held[m - at - 1]);
                assert(shows_subagent(nodes, depth + 1, held[m - at - 1]));
            }
            assert(stands_under(nodes, rows, at, k));
        } else {
            assert(shows_subagent(nodes, depth + 1, held[inner]));
            rows_below_stand_under_their_parents(
                nodes,
                expanded,
                Some(nodes[i].id),
                depth + 1,
                (levels - 1) as nat,
                nodes.len(),
                inner,
            );
            let j = choose|j: int| stands_under(nodes, held, j, inner);
            assert(rows[at + 1 + j] == held[j]);
            assert forall|m: int| at + 1 + j < m < k implies (#[trigger] rows[m]).1
                >= rows[k].1 by {
                assert(rows[m] == held[m - at - 1]);
            }
            assert(stands_under(nodes, rows, at + 1 + j, k));
        }
    }
}

/// Every row below the roots stands under that of the subagent that started it: one
/// level down, with nothing between them that is not below that subagent too.
pub proof fn rows_stand_under_their_parents(
    nodes: Seq<SubagentModel>,
    expanded: Set<Seq<char>>,
    k: int,
)
    requires
        0 <= k < visible(nodes, expanded).len(),
        visible(nodes, expanded)[k].1 > 0,
    ensures
        exists|j: int| stands_under(nodes, visible(nodes, expanded), j, k),
{
    rows_below_stand_under_their_parents(nodes, expanded, None, 0, nodes.len(), nodes.len(), k);
    let rows = rows_below(nodes, expanded, None, 0, nodes.len(), nodes.len());
    let j = choose|j: int| stands_under(nodes, rows, j, k);
    assert(stands_under(nodes, visible(nodes, expanded), j, k));
}

proof fn top_rows_are_early(
    nodes: Seq<SubagentModel>,
    expanded: Set<Seq<char>>,
    parent: Option<Seq<char>>,
    depth: nat,
    levels: nat,
    count: nat,
    k: int,
)
    requires
        count <= nodes.len(),
        0 <= k < rows_below(nodes, expanded, parent, depth, levels, count).len(),
        rows_below(nodes, expanded, parent, depth, levels, count)[k].1 == depth,
    ensures
        rows_below(nodes, expanded, parent, depth, levels, count)[k].0 < count,
    decreases count,
{
    let i = count - 1;
    let before = rows_below(nodes, expanded, parent, depth, levels, (count - 1) as nat);
    let rows = rows_below(nodes, expanded, parent, depth, levels, count);
    let at = before.len() as int;
    if k < at {
        assert(rows[k] == before[k]);
        top_rows_are_early(nodes, expanded, parent, depth, levels, (count - 1) as nat, k);
    } else if k > at {
        reveal_with_fuel(opened_below, 2);
        let held = rows_below(
            nodes,
            expanded,
            Some(nodes[i].id),
            depth + 1,
            (levels - 1) as nat,
            nodes.len(),
        );
        assert(rows[k] == opened_below(nodes, expanded, i, depth, levels)[k - at - 1]);
        rows_show_subagents(
            nodes,
            expanded,
            Some(nodes[i].id),
            depth + 1,
            (levels - 1) as nat,
            nodes.len(),
        );
        assert(shows_subagent(nodes, depth + 1, held[k - at - 1]));
    }
}

proof fn siblings_below_stand_in_order(
    nodes: Seq<SubagentModel>,
    expanded: Set<Seq<char>>,
    parent: Option<Seq<char>>,
    depth: nat,
    levels: nat,
    count: nat,
    j: int,
    k: int,
)
    requires
        count <= nodes.len(),
        are_siblings(rows_below(nodes, expanded, parent, depth, levels, count), j, k),
    ensures
        rows_below(nodes, expanded, parent, depth, levels, count)[j].0 < rows_below(
            nodes,
            expanded,
            parent,
            depth,
            levels,
            count,
        )[k].0,
    decreases levels, count,
{
    let i = count - 1;
    let before = rows_below(nodes, expanded, parent, depth, levels, (count - 1) as nat);
    let rows = rows_below(nodes, expanded, parent, depth, levels, count);
    let at = before.len() as int;
    if k < at {
        assert(rows[j] == before[j] && rows[k] == before[k]);
        assert forall|m: int| j < m < k implies (#[trigger] before[m]).1 >= before[k].1 by {
            assert(rows[m] == before[m]);
        }
        siblings_below_stand_in_order(
            nodes,
            expanded,
            parent,
            depth,
            levels,
            (count - 1) as nat,
            j,
            k,
        );
    } else if k == at {
        assert(rows[k] == (i, depth));
        assert(rows[j] == before[j]);
        top_rows_are_early(nodes, expanded, parent, depth, levels, (count - 1) as nat, j);
    } else {
        reveal_with_fuel(opened_below, 2);
        let held = rows_below(
            nodes,
            expanded,
            Some(nodes[i].id),
            depth + 1,
            (levels - 1) as nat,
            nodes.len(),
        );
        assert(rows[at] == (i, depth));
        assert(rows[k] == opened_below(nodes, expanded, i, depth, levels)[k - at - 1]);
        rows_show_subagents(
            nodes,
            expanded,
            Some(nodes[i].id),
            depth + 1,
            (levels - 1) as nat,
            nodes.len(),
        );
        assert(shows_subagent(nodes, depth + 1, held[k - at - 1]));
        assert(rows[k].1 > rows[at].1);
        assert(j > at);
        assert(rows[j] == held[j - at - 1]);
        assert forall|m: int| j - at - 1 < m < k - at - 1 implies (#[trigger] held[m]).1
            >= held[k - at - 1].1 by {
            assert(rows[m + at + 1] == held[m]);
        }
        siblings_below_stand_in_order(
            nodes,
            expanded,
            Some(nodes[i].id),
            depth + 1,
            (levels - 1) as nat,
            nodes.len(),
            j - at - 1,
            k - at - 1,
        );
    }
}

/// Two rows stand on one level, under the same row: nothing between them is higher.
pub open spec fn are_siblings(rows: Seq<(int, nat)>, j: int, k: int) -> bool {
    &&& 0 <= j < k < rows.len()
    &&& rows[j].1 == rows[k].1
    &&& forall|m: int| j < m < k ==> (#[trigger] rows[m]).1 >= rows[k].1
}

/// Siblings stand in the order in which the subagents are listed.
pub proof fn siblings_stand_in_order(
    nodes: Seq<SubagentModel>,
    expanded: Set<Seq<char>>,
    j: int,
    k: int,
)
    requires
        are_siblings(visible(nodes, expanded), j, k),
    ensures
        visible(nodes, expanded)[j].0 < visible(nodes, expanded)[k].0,
{
    siblings_below_stand_in_order(nodes, expanded, None, 0, nodes.len(), nodes.len(), j, k);
}

/// A subagent stands for what it holds.
pub proof fn a_subagent_stands_for_what_it_holds(node: Subagent, nodes: Seq<Subagent>, i: int)
    ensures
        node@.id == node.id@,
        node@.agent == node.agent@,
        node@.parent_id == node.parent_id.deep_view(),
        node@.index == node.index,
        node@.status == node.status@,
        node@.tool_count == node.tool_count,
        node@.tokens == node.tokens,
        node@.cost == node.cost.deep_view(),
        node@.model == node.model.deep_view(),
        node_models(nodes).len() == nodes.len(),
        0 <= i < nodes.len() ==> node_models(nodes)[i] == nodes[i]@,
{
}

} // verus!
