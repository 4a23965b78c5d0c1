//! What the panels are made of.
use vstd::prelude::*;

verus! {

/// The colour of a text or an icon.
#[derive(Clone, Copy, Debug, PartialEq, Eq, Structural)]
pub enum Color {
    Default,
    Muted,
    Accent,
    Success,
    Error,
}

/// The size of a text.
#[derive(Clone, Copy, Debug, PartialEq, Eq, Structural)]
pub enum LabelSize {
    Default,
    Small,
    XSmall,
}

/// The icons in use.
#[derive(Clone, Copy, Debug, PartialEq, Eq, Structural)]
pub enum IconName {
    Terminal,
    Github,
    ListTodo,
    ChevronDown,
    ChevronRight,
    ZedAgent,
}

/// A text.
#[derive(Clone, Debug, PartialEq, Eq)]
pub struct Label {
    pub text: String,
    pub size: LabelSize,
    pub color: Color,
}

/// What a [`Label`] stands for.
#[verifier::ext_equal]
pub struct LabelModel {
    pub text: Seq<char>,
    pub size: LabelSize,
    pub color: Color,
}

impl View for Label {
    type V = LabelModel;

    open spec fn view(&self) -> LabelModel {
        LabelModel { text: self.text@, size: self.size, color: self.color }
    }
}

/// A small text in a given colour.
pub open spec fn small(text: Seq<char>, color: Color) -> LabelModel {
    LabelModel { text, size: LabelSize::Small, color }
}

impl Label {
    /// A small text in a given colour.
    pub fn small(text: String, color: Color) -> (label: Label)
        ensures
            label@ == small(text@, color),
    {
        Label { text, size: LabelSize::Small, color }
    }
}

/// An optional text as what it stands for.
pub open spec fn optional_label(label: Option<Label>) -> Option<LabelModel> {
    match label {
        Some(label) => Some(label@),
        None => None,
    }
}

/// Texts as what they stand for.
pub open spec fn label_models(labels: Seq<Label>) -> Seq<LabelModel> {
    Seq::new(labels.len(), |i: int| labels[i]@)
}

/// A small icon.
#[derive(Clone, Copy, Debug, PartialEq, Eq, Structural)]
pub struct Icon {
    pub name: IconName,
    pub color: Color,
}

/// A small icon that opens or closes what stands below it.
#[derive(Clone, Debug, PartialEq, Eq)]
pub struct Toggle {
    pub id: String,
    pub icon: IconName,
}

/// What a [`Toggle`] stands for.
#[verifier::ext_equal]
pub struct ToggleModel {
    pub id: Seq<char>,
    pub icon: IconName,
}

impl View for Toggle {
    type V = ToggleModel;

    open spec fn view(&self) -> ToggleModel {
        ToggleModel { id: self.id@, icon: self.icon }
    }
}

/// An optional toggle as what it stands for.
pub open spec fn optional_toggle(toggle: Option<Toggle>) -> Option<ToggleModel> {
    match toggle {
        Some(toggle) => Some(toggle@),
        None => None,
    }
}

/// The icon that tells whether something is open.
pub open spec fn chevron(expanded: bool) -> IconName {
    if expanded {
        IconName::ChevronDown
    } else {
        IconName::ChevronRight
    }
}

/// The toggle of something that can be opened; nothing stands in its place where
/// it cannot.
pub open spec fn toggle_of(id: Seq<char>, expandable: bool, expanded: bool) -> Option<ToggleModel> {
    if expandable {
        Some(ToggleModel { id, icon: chevron(expanded) })
    } else {
        None
    }
}

impl Toggle {
    /// The toggle of something that can be opened.
    pub fn of(id: &str, expandable: bool, expanded: bool) -> (toggle: Option<Toggle>)
        ensures
            optional_toggle(toggle) == toggle_of(id@, expandable, expanded),
    {
        if expandable {
            let icon = if expanded {
                IconName::ChevronDown
            } else {
                IconName::ChevronRight
            };
            Some(Toggle { id: id.to_owned(), icon })
        } else {
            None
        }
    }
}

/// The look of a button.
#[derive(Clone, Copy, Debug, PartialEq, Eq, Structural)]
pub enum ButtonStyle {
    Plain,
    /// Tinted with the accent colour.
    Accent,
}

/// A button.
#[derive(Clone, Debug, PartialEq, Eq)]
pub struct Button {
    pub id: String,
    pub label: String,
    pub style: ButtonStyle,
    pub disabled: bool,
}

/// What a [`Button`] stands for.
#[verifier::ext_equal]
pub struct ButtonModel {
    pub id: Seq<char>,
    pub label: Seq<char>,
    pub style: ButtonStyle,
    pub disabled: bool,
}

impl View for Button {
    type V = ButtonModel;

    open spec fn view(&self) -> ButtonModel {
        ButtonModel {
            id: self.id@,
            label: self.label@,
            style: self.style,
            disabled: self.disabled,
        }
    }
}

/// A button that can be pressed.
pub open spec fn button(id: Seq<char>, label: Seq<char>, style: ButtonStyle) -> ButtonModel {
    ButtonModel { id, label, style, disabled: false }
}

impl Button {
    /// A button that can be pressed.
    pub fn new(id: &str, label: &str, style: ButtonStyle) -> (button: Button)
        ensures
            button@ == crate::ui::button(id@, label@, style),
    {
        Button { id: id.to_owned(), label: label.to_owned(), style, disabled: false }
    }
}

/// A titled list of rows.
#[derive(Clone, Debug, PartialEq, Eq)]
pub struct Section {
    pub title: Label,
    pub rows: Vec<Label>,
}

/// What a [`Section`] stands for.
#[verifier::ext_equal]
pub struct SectionModel {
    pub title: LabelModel,
    pub rows: Seq<LabelModel>,
}

impl View for Section {
    type V = SectionModel;

    open spec fn view(&self) -> SectionModel {
        SectionModel { title: self.title@, rows: label_models(self.rows@) }
    }
}

/// Sections as what they stand for.
pub open spec fn section_models(sections: Seq<Section>) -> Seq<SectionModel> {
    Seq::new(sections.len(), |i: int| sections[i]@)
}

/// The section with a given title and rows; none without rows.
pub open spec fn section_of(title: Seq<char>, rows: Seq<Seq<char>>) -> Seq<SectionModel> {
    if rows.len() == 0 {
        Seq::empty()
    } else {
        seq![
            SectionModel {
                title: small(title, Color::Muted),
                rows: Seq::new(rows.len(), |i: int| small(rows[i], Color::Default)),
            },
        ]
    }
}

/// The section with a given title and rows.
pub fn render_rows(title: &str, rows: Vec<String>) -> (section: Option<Section>)
    ensures
        section is Some == (rows@.len() > 0),
        section is Some ==> section_of(title@, rows.deep_view()) == seq![section->0@],
        section is None ==> section_of(title@, rows.deep_view()) == Seq::<SectionModel>::empty(),
{
    if rows.len() == 0 {
        return None;
    }
    let ghost texts = rows.deep_view();
    let mut labels: Vec<Label> = Vec::new();
    for row in iter: rows
        invariant
            iter.seq() == rows@,
            texts == rows.deep_view(),
            labels@.len() == iter.index(),
            forall|i: int|
                0 <= i < labels@.len() ==> (#[trigger] labels@[i])@ == small(
                    texts[i],
                    Color::Default,
                ),
    {
        labels.push(Label::small(row, Color::Default));
    }
    let section = Section { title: Label::small(title.to_owned(), Color::Muted), rows: labels };
    proof {
        assert(section@.rows =~= Seq::new(texts.len(), |i: int| small(texts[i], Color::Default)));
        assert(section_of(title@, texts) =~= seq![section@]);
    }
    Some(section)
}

/// Adds a section to those that are shown.
pub fn push_section(sections: &mut Vec<Section>, section: Option<Section>)
    ensures
        section_models(final(sections)@) == section_models(old(sections)@) + (match section {
            Some(section) => seq![section@],
            None => Seq::empty(),
        }),
{
    let ghost before = section_models(sections@);
    if let Some(section) = section {
        sections.push(section);
        assert(section_models(sections@) =~= before + seq![section@]);
    } else {
        assert(section_models(sections@) =~= before + Seq::empty());
    }
}

// ---------------------------------------------------------------------------
// What is seen
// ---------------------------------------------------------------------------

/// A small text is small, and has the text and the colour that it was given. A
/// button can be pressed, and has the id, the label and the style that it was given.
pub proof fn texts_and_buttons_are_as_given(
    id: Seq<char>,
    text: Seq<char>,
    color: Color,
    style: ButtonStyle,
)
    ensures
        small(text, color).text == text,
        small(text, color).color == color,
        small(text, color).size == LabelSize::Small,
        button(id, text, style).id == id,
        button(id, text, style).label == text,
        button(id, text, style).style == style,
        !button(id, text, style).disabled,
{
}

/// There is a toggle exactly where something can be opened. It points down while
/// that is open, and to the right while it is closed.
pub proof fn toggles_point_to_what_is_open(id: Seq<char>, expandable: bool, expanded: bool)
    ensures
        toggle_of(id, expandable, expanded) is Some <==> expandable,
        toggle_of(id, expandable, expanded) matches Some(toggle) ==> {
            &&& toggle.id == id
            &&& toggle.icon == IconName::ChevronDown <==> expanded
            &&& toggle.icon == IconName::ChevronRight <==> !expanded
        },
{
}

/// A section has its title, and below it each of its rows in their order; without
/// rows there is no section.
pub proof fn sections_list_their_rows(title: Seq<char>, rows: Seq<Seq<char>>)
    ensures
        rows.len() == 0 ==> section_of(title, rows).len() == 0,
        rows.len() > 0 ==> {
            let sections = section_of(title, rows);
            &&& sections.len() == 1
            &&& sections[0].title.text == title
            &&& sections[0].title.color == Color::Muted
            &&& sections[0].title.size == LabelSize::Small
            &&& sections[0].rows.len() == rows.len()
            &&& forall|i: int|
                0 <= i < rows.len() ==> (#[trigger] sections[0].rows[i]).text == rows[i]
                    && sections[0].rows[i].color == Color::Default && sections[0].rows[i].size
                    == LabelSize::Small
        },
{
}

/// What is made of texts, toggles, buttons and sections stands for what it holds.
pub proof fn elements_stand_for_what_they_hold(
    label: Label,
    toggle: Toggle,
    button: Button,
    section: Section,
    sections: Seq<Section>,
    labels: Seq<Label>,
    i: int,
)
    ensures
        label@.text == label.text@,
        label@.size == label.size,
        label@.color == label.color,
        toggle@.id == toggle.id@,
        toggle@.icon == toggle.icon,
        button@.id == button.id@,
        button@.label == button.label@,
        button@.style == button.style,
        button@.disabled == button.disabled,
        section@.title == section.title@,
        section@.rows == label_models(section.rows@),
        optional_toggle(None) is None,
        optional_toggle(Some(toggle)) == Some(toggle@),
        optional_label(None) is None,
        optional_label(Some(label)) == Some(label@),
        label_models(labels).len() == labels.len(),
        0 <= i < labels.len() ==> label_models(labels)[i] == labels[i]@,
        section_models(sections).len() == sections.len(),
        0 <= i < sections.len() ==> section_models(sections)[i] == sections[i]@,
{
}

} // verus!
