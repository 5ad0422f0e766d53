//! The declarative data model of a workflow: display and input content,
//! actions, action-bar descriptors (bumpers), page descriptions, and flows.
//!
//! The model is recursive: a display list or a page header may branch into a
//! sub-flow, and an action may navigate into one. Every type has a
//! mathematical view, and cloning is proved to preserve it.

use vstd::prelude::*;

use crate::gate::{ValidityGate, ValidityGateV};
use crate::items::{
    Align, AvatarContent, AvatarContentV, AvatarIconStyle, ChecklistItem, ChecklistItemV, EnumItem,
    EnumItemV, ListItem, ListItemV, Offset, Source, SourceV, TableItem, TableItemV, TextSize,
    TextStyle,
};

verus! {

/// A side effect owed to the host: the library never runs host code, it
/// records the effect (by its label) in the session log, in order, for the
/// host to perform.
pub struct SideEffect {
    pub label: String,
}

impl View for SideEffect {
    type V = Seq<char>;

    open spec fn view(&self) -> Seq<char> {
        self.label@
    }
}

impl Clone for SideEffect {
    fn clone(&self) -> (r: Self)
        ensures
            r@ == self@,
    {
        SideEffect { label: self.label.clone() }
    }
}

impl SideEffect {
    /// A side effect known to the host under `label`.
    pub fn new(label: &str) -> (r: Self)
        ensures
            r@ == label@,
    {
        SideEffect { label: label.to_owned() }
    }
}

/// What a control does when triggered.
pub enum Action {
    /// Hand the given datum to the host's share facility.
    Share { data: String },
    /// Open the host's image picker.
    SelectImage,
    /// Run a host side effect known under `label`.
    Custom { label: String },
    /// Do nothing.
    Idle,
    /// Enter the given flow.
    Navigate { flow: Flow },
}

/// The action bar of a page.
pub enum Bumper {
    /// A single "continue" control bound to the chain's next continuation, or
    /// a flow-terminal control when the page has no successor; gated.
    Default,
    /// A labelled primary control bound to a caller-supplied action (gated),
    /// and optionally a secondary control with its own action (ungated).
    Custom { label: String, action: Action, secondary: Option<(String, Action)> },
    /// A flow-terminal control; gated.
    Done,
    /// No action bar.
    Absent,
}

/// One block of read-only page content.
pub enum Display {
    /// A text block.
    Text { text: String, size: TextSize, style: TextStyle, align: Align },
    /// A large named icon.
    Icon { icon: String },
    /// A labelled datum with instructions, resolved against the session state
    /// when the page is materialized.
    Review { label: String, data: Source, instructions: String },
    /// A labelled table of rows, each resolved at materialization time.
    Table { label: String, items: Vec<TableItem> },
    /// A currency amount, in cents, with instructions.
    Currency { cents: u64, instructions: String },
    /// A section of rows, optionally opening a sub-flow; if the section is
    /// empty it degrades to its instructions text, or to nothing at all.
    List { label: Option<String>, items: Vec<ListItem>, flow: Option<Flow>, instructions: Option<
        String,
    > },
    /// A QR code followed by instructions text.
    QRCode { data: String, instructions: String },
    /// An avatar.
    Avatar { content: AvatarContent },
}

/// One input widget of a page.
pub enum Input {
    /// A text field echoing into the named state slot, gated by `check`.
    Text { label: String, actions: Option<Vec<Action>>, tag: String, check: ValidityGate },
    /// A currency field echoing into the named state slot, gated by `check`.
    Currency { instructions: String, tag: String, check: ValidityGate },
    /// A date field echoing into the named state slot, gated by `check`.
    Date { instructions: String, tag: String, check: ValidityGate },
    /// A time field echoing into the named state slot, gated by `check`.
    Time { instructions: String, tag: String, check: ValidityGate },
    /// An exclusive selector echoing the chosen option into the named slot.
    Enumerator { items: Vec<EnumItem>, tag: String },
    /// An avatar with an optional flair icon and an optional tap action.
    Avatar { content: AvatarContent, flair: Option<(String, AvatarIconStyle)>, action: Option<
        Action,
    > },
    /// A list of checkboxes.
    Boolean { items: Vec<ChecklistItem> },
}

/// One screen of a workflow: a tagged description of its content and action
/// bar. A page is materialized lazily, against the session state as it stands
/// at the moment of navigation.
pub enum PageType {
    /// A read-only page; `branch` attaches a header affordance opening a
    /// sub-flow.
    Display { title: String, items: Vec<Display>, branch: Option<(String, Flow)>, bumper: Bumper,
        offset: Offset },
    /// A page with a single input widget, whose check gates advancing.
    Input { title: String, items: Input, bumper: Bumper },
    /// A page with several input widgets, whose checks are conjoined into one
    /// aggregate gate.
    Settings { title: String, items: Vec<Input>, bumper: Bumper },
}

/// An ordered sequence of page descriptions plus an optional terminal submit
/// side effect. The sequence is immutable once defined; only materialization
/// is lazy.
pub struct Flow {
    pub pages: Vec<PageType>,
    pub on_submit: Option<SideEffect>,
}

/// Mathematical view of an `Action`.
pub ghost enum ActionV {
    Share { data: Seq<char> },
    SelectImage,
    Custom { label: Seq<char> },
    Idle,
    Navigate { flow: FlowV },
}

/// Mathematical view of a `Bumper`.
pub ghost enum BumperV {
    Default,
    Custom { label: Seq<char>, action: ActionV, secondary: Option<(Seq<char>, ActionV)> },
    Done,
    Absent,
}

/// Mathematical view of a `Display`.
pub ghost enum DisplayV {
    Text { text: Seq<char>, size: TextSize, style: TextStyle, align: Align },
    Icon { icon: Seq<char> },
    Review { label: Seq<char>, data: SourceV, instructions: Seq<char> },
    Table { label: Seq<char>, items: Seq<TableItemV> },
    Currency { cents: u64, instructions: Seq<char> },
    List { label: Option<Seq<char>>, items: Seq<ListItemV>, flow: Option<FlowV>, instructions:
        Option<Seq<char>> },
    QRCode { data: Seq<char>, instructions: Seq<char> },
    Avatar { content: AvatarContentV },
}

/// Mathematical view of an `Input`.
pub ghost enum InputV {
    Text { label: Seq<char>, actions: Option<Seq<ActionV>>, tag: Seq<char>, check: ValidityGateV },
    Currency { instructions: Seq<char>, tag: Seq<char>, check: ValidityGateV },
    Date { instructions: Seq<char>, tag: Seq<char>, check: ValidityGateV },
    Time { instructions: Seq<char>, tag: Seq<char>, check: ValidityGateV },
    Enumerator { items: Seq<EnumItemV>, tag: Seq<char> },
    Avatar { content: AvatarContentV, flair: Option<(Seq<char>, AvatarIconStyle)>, action: Option<
        ActionV,
    > },
    Boolean { items: Seq<ChecklistItemV> },
}

/// Mathematical view of a `PageType`.
pub ghost enum PageTypeV {
    Display { title: Seq<char>, items: Seq<DisplayV>, branch: Option<(Seq<char>, FlowV)>, bumper:
        BumperV, offset: Offset },
    Input { title: Seq<char>, items: InputV, bumper: BumperV },
    Settings { title: Seq<char>, items: Seq<InputV>, bumper: BumperV },
}

/// Mathematical view of a `Flow`.
#[verifier::ext_equal]
pub ghost struct FlowV {
    pub pages: Seq<PageTypeV>,
    pub on_submit: Option<Seq<char>>,
}

/// View of an action.
pub open spec fn view_action(a: Action) -> ActionV
    decreases a,
{
    match a {
        Action::Share { data } => ActionV::Share { data: data@ },
        Action::SelectImage => ActionV::SelectImage,
        Action::Custom { label } => ActionV::Custom { label: label@ },
        Action::Idle => ActionV::Idle,
        Action::Navigate { flow } => ActionV::Navigate { flow: view_flow(flow) },
    }
}

/// Views of a sequence of actions.
pub open spec fn action_views(s: Seq<Action>) -> Seq<ActionV>
    decreases s,
{
    Seq::new(
        s.len(),
        |i: int|
            if 0 <= i < s.len() {
                view_action(s[i])
            } else {
                vstd::pervasive::arbitrary()
            },
    )
}

/// View of a bumper.
pub open spec fn view_bumper(b: Bumper) -> BumperV
    decreases b,
{
    match b {
        Bumper::Default => BumperV::Default,
        Bumper::Custom { label, action, secondary } => BumperV::Custom {
            label: label@,
            action: view_action(action),
            secondary: match secondary {
                Some(s) => Some((s.0@, view_action(s.1))),
                None => None,
            },
        },
        Bumper::Done => BumperV::Done,
        Bumper::Absent => BumperV::Absent,
    }
}

/// View of a display block.
pub open spec fn view_display(d: Display) -> DisplayV
    decreases d,
{
    match d {
        Display::Text { text, size, style, align } => DisplayV::Text {
            text: text@,
            size,
            style,
            align,
        },
        Display::Icon { icon } => DisplayV::Icon { icon: icon@ },
        Display::Review { label, data, instructions } => DisplayV::Review {
            label: label@,
            data: data@,
            instructions: instructions@,
        },
        Display::Table { label, items } => DisplayV::Table {
            label: label@,
            items: Seq::new(items@.len(), |i: int| items@[i]@),
        },
        Display::Currency { cents, instructions } => DisplayV::Currency {
            cents,
            instructions: instructions@,
        },
        Display::List { label, items, flow, instructions } => DisplayV::List {
            label: match label {
                Some(l) => Some(l@),
                None => None,
            },
            items: Seq::new(items@.len(), |i: int| items@[i]@),
            flow: match flow {
                Some(f) => Some(view_flow(f)),
                None => None,
            },
            instructions: match instructions {
                Some(t) => Some(t@),
                None => None,
            },
        },
        Display::QRCode { data, instructions } => DisplayV::QRCode {
            data: data@,
            instructions: instructions@,
        },
        Display::Avatar { content } => DisplayV::Avatar { content: content@ },
    }
}

/// Views of a sequence of display blocks.
pub open spec fn display_views(s: Seq<Display>) -> Seq<DisplayV>
    decreases s,
{
    Seq::new(
        s.len(),
        |i: int|
            if 0 <= i < s.len() {
                view_display(s[i])
            } else {
                vstd::pervasive::arbitrary()
            },
    )
}

/// View of an input widget.
pub open spec fn view_input(inp: Input) -> InputV
    decreases inp,
{
    match inp {
        Input::Text { label, actions, tag, check } => InputV::Text {
            label: label@,
            actions: match actions {
                Some(a) => Some(action_views(a@)),
                None => None,
            },
            tag: tag@,
            check: check@,
        },
        Input::Currency { instructions, tag, check } => InputV::Currency {
            instructions: instructions@,
            tag: tag@,
            check: check@,
        },
        Input::Date { instructions, tag, check } => InputV::Date {
            instructions: instructions@,
            tag: tag@,
            check: check@,
        },
        Input::Time { instructions, tag, check } => InputV::Time {
            instructions: instructions@,
            tag: tag@,
            check: check@,
        },
        Input::Enumerator { items, tag } => InputV::Enumerator {
            items: Seq::new(items@.len(), |i: int| items@[i]@),
            tag: tag@,
        },
        Input::Avatar { content, flair, action } => InputV::Avatar {
            content: content@,
            flair: match flair {
                Some(f) => Some((f.0@, f.1)),
                None => None,
            },
            action: match action {
                Some(a) => Some(view_action(a)),
                None => None,
            },
        },
        Input::Boolean { items } => InputV::Boolean {
            items: Seq::new(items@.len(), |i: int| items@[i]@),
        },
    }
}

/// Views of a sequence of input widgets.
pub open spec fn input_views(s: Seq<Input>) -> Seq<InputV>
    decreases s,
{
    Seq::new(
        s.len(),
        |i: int|
            if 0 <= i < s.len() {
                view_input(s[i])
            } else {
                vstd::pervasive::arbitrary()
            },
    )
}

/// View of a page description.
pub open spec fn view_page(p: PageType) -> PageTypeV
    decreases p,
{
    match p {
        PageType::Display { title, items, branch, bumper, offset } => PageTypeV::Display {
            title: title@,
            items: display_views(items@),
            branch: match branch {
                Some(b) => Some((b.0@, view_flow(b.1))),
                None => None,
            },
            bumper: view_bumper(bumper),
            offset,
        },
        PageType::Input { title, items, bumper } => PageTypeV::Input {
            title: title@,
            items: view_input(items),
            bumper: view_bumper(bumper),
        },
        PageType::Settings { title, items, bumper } => PageTypeV::Settings {
            title: title@,
            items: input_views(items@),
            bumper: view_bumper(bumper),
        },
    }
}

/// Views of a sequence of page descriptions.
pub open spec fn page_views(s: Seq<PageType>) -> Seq<PageTypeV>
    decreases s,
{
    Seq::new(
        s.len(),
        |i: int|
            if 0 <= i < s.len() {
                view_page(s[i])
            } else {
                vstd::pervasive::arbitrary()
            },
    )
}

/// View of a flow.
pub open spec fn view_flow(f: Flow) -> FlowV
    decreases f,
{
    FlowV {
        pages: page_views(f.pages@),
        on_submit: match f.on_submit {
            Some(e) => Some(e.label@),
            None => None,
        },
    }
}

impl View for Action {
    type V = ActionV;

    open spec fn view(&self) -> ActionV {
        view_action(*self)
    }
}

impl View for Bumper {
    type V = BumperV;

    open spec fn view(&self) -> BumperV {
        view_bumper(*self)
    }
}

impl View for Display {
    type V = DisplayV;

    open spec fn view(&self) -> DisplayV {
        view_display(*self)
    }
}

impl View for Input {
    type V = InputV;

    open spec fn view(&self) -> InputV {
        view_input(*self)
    }
}

impl View for PageType {
    type V = PageTypeV;

    open spec fn view(&self) -> PageTypeV {
        view_page(*self)
    }
}

impl View for Flow {
    type V = FlowV;

    open spec fn view(&self) -> FlowV {
        view_flow(*self)
    }
}

/// Clones a table, preserving each row's view.
fn clone_table_items(v: &Vec<TableItem>) -> (r: Vec<TableItem>)
    ensures
        r@.len() == v@.len(),
        forall|j: int| 0 <= j < v@.len() ==> (#[trigger] r@[j])@ == v@[j]@,
{
    let mut r: Vec<TableItem> = Vec::new();
    let mut i: usize = 0;
    while i < v.len()
        invariant
            i <= v@.len(),
            r@.len() == i as int,
            forall|j: int| 0 <= j < i ==> (#[trigger] r@[j])@ == v@[j]@,
        decreases v@.len() - i,
    {
        r.push(v[i].clone());
        i = i + 1;
    }
    r
}

/// Clones a list of rows, preserving each row's view.
pub(crate) fn clone_list_items(v: &Vec<ListItem>) -> (r: Vec<ListItem>)
    ensures
        r@.len() == v@.len(),
        forall|j: int| 0 <= j < v@.len() ==> (#[trigger] r@[j])@ == v@[j]@,
{
    let mut r: Vec<ListItem> = Vec::new();
    let mut i: usize = 0;
    while i < v.len()
        invariant
            i <= v@.len(),
            r@.len() == i as int,
            forall|j: int| 0 <= j < i ==> (#[trigger] r@[j])@ == v@[j]@,
        decreases v@.len() - i,
    {
        r.push(v[i].clone());
        i = i + 1;
    }
    r
}

/// Clones selector options, preserving each option's view.
pub(crate) fn clone_enum_items(v: &Vec<EnumItem>) -> (r: Vec<EnumItem>)
    ensures
        r@.len() == v@.len(),
        forall|j: int| 0 <= j < v@.len() ==> (#[trigger] r@[j])@ == v@[j]@,
{
    let mut r: Vec<EnumItem> = Vec::new();
    let mut i: usize = 0;
    while i < v.len()
        invariant
            i <= v@.len(),
            r@.len() == i as int,
            forall|j: int| 0 <= j < i ==> (#[trigger] r@[j])@ == v@[j]@,
        decreases v@.len() - i,
    {
        r.push(v[i].clone());
        i = i + 1;
    }
    r
}

/// Clones checklist entries, preserving each entry's view.
pub(crate) fn clone_checklist_items(v: &Vec<ChecklistItem>) -> (r: Vec<ChecklistItem>)
    ensures
        r@.len() == v@.len(),
        forall|j: int| 0 <= j < v@.len() ==> (#[trigger] r@[j])@ == v@[j]@,
{
    let mut r: Vec<ChecklistItem> = Vec::new();
    let mut i: usize = 0;
    while i < v.len()
        invariant
            i <= v@.len(),
            r@.len() == i as int,
            forall|j: int| 0 <= j < i ==> (#[trigger] r@[j])@ == v@[j]@,
        decreases v@.len() - i,
    {
        r.push(v[i].clone());
        i = i + 1;
    }
    r
}

/// Clones an action, preserving its view.
fn clone_action(a: &Action) -> (r: Action)
    ensures
        r@ == a@,
    decreases a,
{
    match a {
        Action::Share { data } => Action::Share { data: data.clone() },
        Action::SelectImage => Action::SelectImage,
        Action::Custom { label } => Action::Custom { label: label.clone() },
        Action::Idle => Action::Idle,
        Action::Navigate { flow } => Action::Navigate { flow: clone_flow(flow) },
    }
}

/// Clones a sequence of actions, preserving their views.
fn clone_actions(v: &Vec<Action>) -> (r: Vec<Action>)
    ensures
        action_views(r@) == action_views(v@),
    decreases v,
{
    let mut r: Vec<Action> = Vec::new();
    let mut i: usize = 0;
    while i < v.len()
        invariant
            i <= v@.len(),
            r@.len() == i as int,
            forall|j: int| 0 <= j < i ==> (#[trigger] r@[j])@ == v@[j]@,
        decreases v@.len() - i,
    {
        r.push(clone_action(&v[i]));
        i = i + 1;
    }
    proof {
        assert(action_views(r@) =~= action_views(v@));
    }
    r
}

/// Clones a bumper, preserving its view.
fn clone_bumper(b: &Bumper) -> (r: Bumper)
    ensures
        r@ == b@,
    decreases b,
{
    match b {
        Bumper::Default => Bumper::Default,
        Bumper::Custom { label, action, secondary } => Bumper::Custom {
            label: label.clone(),
            action: clone_action(action),
            secondary: match secondary {
                Some(s) => Some((s.0.clone(), clone_action(&s.1))),
                None => None,
            },
        },
        Bumper::Done => Bumper::Done,
        Bumper::Absent => Bumper::Absent,
    }
}

/// Clones a display block, preserving its view.
fn clone_display(d: &Display) -> (r: Display)
    ensures
        r@ == d@,
    decreases d,
{
    match d {
        Display::Text { text, size, style, align } => Display::Text {
            text: text.clone(),
            size: *size,
            style: *style,
            align: *align,
        },
        Display::Icon { icon } => Display::Icon { icon: icon.clone() },
        Display::Review { label, data, instructions } => Display::Review {
            label: label.clone(),
            data: data.clone(),
            instructions: instructions.clone(),
        },
        Display::Table { label, items } => {
            let r = Display::Table { label: label.clone(), items: clone_table_items(items) };
            proof {
                assert(r@->Table_items =~= d@->Table_items);
            }
            r
        },
        Display::Currency { cents, instructions } => Display::Currency {
            cents: *cents,
            instructions: instructions.clone(),
        },
        Display::List { label, items, flow, instructions } => {
            let r = Display::List {
                label: match label {
                    Some(l) => Some(l.clone()),
                    None => None,
                },
                items: clone_list_items(items),
                flow: match flow {
                    Some(f) => Some(clone_flow(f)),
                    None => None,
                },
                instructions: match instructions {
                    Some(t) => Some(t.clone()),
                    None => None,
                },
            };
            proof {
                assert(r@->List_items =~= d@->List_items);
            }
            r
        },
        Display::QRCode { data, instructions } => Display::QRCode {
            data: data.clone(),
            instructions: instructions.clone(),
        },
        Display::Avatar { content } => Display::Avatar { content: content.clone() },
    }
}

/// Clones a sequence of display blocks, preserving their views.
fn clone_displays(v: &Vec<Display>) -> (r: Vec<Display>)
    ensures
        display_views(r@) == display_views(v@),
    decreases v,
{
    let mut r: Vec<Display> = Vec::new();
    let mut i: usize = 0;
    while i < v.len()
        invariant
            i <= v@.len(),
            r@.len() == i as int,
            forall|j: int| 0 <= j < i ==> (#[trigger] r@[j])@ == v@[j]@,
        decreases v@.len() - i,
    {
        r.push(clone_display(&v[i]));
        i = i + 1;
    }
    proof {
        assert(display_views(r@) =~= display_views(v@));
    }
    r
}

/// Clones an input widget, preserving its view.
fn clone_input(inp: &Input) -> (r: Input)
    ensures
        r@ == inp@,
    decreases inp,
{
    match inp {
        Input::Text { label, actions, tag, check } => Input::Text {
            label: label.clone(),
            actions: match actions {
                Some(a) => Some(clone_actions(a)),
                None => None,
            },
            tag: tag.clone(),
            check: check.clone(),
        },
        Input::Currency { instructions, tag, check } => Input::Currency {
            instructions: instructions.clone(),
            tag: tag.clone(),
            check: check.clone(),
        },
        Input::Date { instructions, tag, check } => Input::Date {
            instructions: instructions.clone(),
            tag: tag.clone(),
            check: check.clone(),
        },
        Input::Time { instructions, tag, check } => Input::Time {
            instructions: instructions.clone(),
            tag: tag.clone(),
            check: check.clone(),
        },
        Input::Enumerator { items, tag } => {
            let r = Input::Enumerator { items: clone_enum_items(items), tag: tag.clone() };
            proof {
                assert(r@->Enumerator_items =~= inp@->Enumerator_items);
            }
            r
        },
        Input::Avatar { content, flair, action } => Input::Avatar {
            content: content.clone(),
            flair: match flair {
                Some(f) => Some((f.0.clone(), f.1)),
                None => None,
            },
            action: match action {
                Some(a) => Some(clone_action(a)),
                None => None,
            },
        },
        Input::Boolean { items } => {
            let r = Input::Boolean { items: clone_checklist_items(items) };
            proof {
                assert(r@->Boolean_items =~= inp@->Boolean_items);
            }
            r
        },
    }
}

/// Clones a sequence of input widgets, preserving their views.
fn clone_inputs(v: &Vec<Input>) -> (r: Vec<Input>)
    ensures
        input_views(r@) == input_views(v@),
    decreases v,
{
    let mut r: Vec<Input> = Vec::new();
    let mut i: usize = 0;
    while i < v.len()
        invariant
            i <= v@.len(),
            r@.len() == i as int,
            forall|j: int| 0 <= j < i ==> (#[trigger] r@[j])@ == v@[j]@,
        decreases v@.len() - i,
    {
        r.push(clone_input(&v[i]));
        i = i + 1;
    }
    proof {
        assert(input_views(r@) =~= input_views(v@));
    }
    r
}

/// Clones a page description, preserving its view.
fn clone_page(p: &PageType) -> (r: PageType)
    ensures
        r@ == p@,
    decreases p,
{
    match p {
        PageType::Display { title, items, branch, bumper, offset } => {
            let r = PageType::Display {
                title: title.clone(),
                items: clone_displays(items),
                branch: match branch {
                    Some(b) => Some((b.0.clone(), clone_flow(&b.1))),
                    None => None,
                },
                bumper: clone_bumper(bumper),
                offset: *offset,
            };
            r
        },
        PageType::Input { title, items, bumper } => PageType::Input {
            title: title.clone(),
            items: clone_input(items),
            bumper: clone_bumper(bumper),
        },
        PageType::Settings { title, items, bumper } => PageType::Settings {
            title: title.clone(),
            items: clone_inputs(items),
            bumper: clone_bumper(bumper),
        },
    }
}

/// Clones a sequence of page descriptions, preserving their views.
fn clone_pages(v: &Vec<PageType>) -> (r: Vec<PageType>)
    ensures
        page_views(r@) == page_views(v@),
    decreases v,
{
    let mut r: Vec<PageType> = Vec::new();
    let mut i: usize = 0;
    while i < v.len()
        invariant
            i <= v@.len(),
            r@.len() == i as int,
            forall|j: int| 0 <= j < i ==> (#[trigger] r@[j])@ == v@[j]@,
        decreases v@.len() - i,
    {
        r.push(clone_page(&v[i]));
        i = i + 1;
    }
    proof {
        assert(page_views(r@) =~= page_views(v@));
    }
    r
}

/// Clones a flow, preserving its view.
fn clone_flow(f: &Flow) -> (r: Flow)
    ensures
        r@ == f@,
    decreases f,
{
    let r = Flow {
        pages: clone_pages(&f.pages),
        on_submit: match &f.on_submit {
            Some(e) => Some(e.clone()),
            None => None,
        },
    };
    proof {
        assert(r@ =~= f@);
    }
    r
}

impl Clone for Action {
    fn clone(&self) -> (r: Self)
        ensures
            r@ == self@,
    {
        clone_action(self)
    }
}

impl Clone for Bumper {
    fn clone(&self) -> (r: Self)
        ensures
            r@ == self@,
    {
        clone_bumper(self)
    }
}

impl Clone for Display {
    fn clone(&self) -> (r: Self)
        ensures
            r@ == self@,
    {
        clone_display(self)
    }
}

impl Clone for Input {
    fn clone(&self) -> (r: Self)
        ensures
            r@ == self@,
    {
        clone_input(self)
    }
}

impl Clone for PageType {
    fn clone(&self) -> (r: Self)
        ensures
            r@ == self@,
    {
        clone_page(self)
    }
}

impl Clone for Flow {
    fn clone(&self) -> (r: Self)
        ensures
            r@ == self@,
    {
        clone_flow(self)
    }
}

impl Action {
    /// A control that hands `data` to the host's share facility.
    pub fn share(data: &str) -> (r: Self)
        ensures
            r@ == (ActionV::Share { data: data@ }),
    {
        Action::Share { data: data.to_owned() }
    }

    /// A control that opens the host's image picker.
    pub fn select_image() -> (r: Self)
        ensures
            r@ == ActionV::SelectImage,
    {
        Action::SelectImage
    }

    /// A control that runs the host side effect known under `label`.
    pub fn custom(label: &str) -> (r: Self)
        ensures
            r@ == (ActionV::Custom { label: label@ }),
    {
        Action::Custom { label: label.to_owned() }
    }

    /// A control that enters the given flow.
    pub fn navigate(flow: Flow) -> (r: Self)
        ensures
            r@ == (ActionV::Navigate { flow: flow@ }),
    {
        Action::Navigate { flow }
    }
}

impl Default for Bumper {
    /// The default action bar: a single "continue" control bound to the
    /// chain's next continuation.
    fn default() -> (r: Self)
        ensures
            r@ == BumperV::Default,
    {
        Bumper::Default
    }
}

impl Bumper {
    /// A labelled primary control bound to a caller-supplied action.
    pub fn custom(label: &str, action: Action) -> (r: Self)
        ensures
            r@ == (BumperV::Custom { label: label@, action: action@, secondary: None }),
    {
        Bumper::Custom { label: label.to_owned(), action, secondary: None }
    }

    /// A labelled primary control plus a labelled secondary control.
    pub fn double(l1: &str, a1: Action, l2: &str, a2: Action) -> (r: Self)
        ensures
            r@ == (BumperV::Custom {
                label: l1@,
                action: a1@,
                secondary: Some((l2@, a2@)),
            }),
    {
        Bumper::Custom { label: l1.to_owned(), action: a1, secondary: Some((l2.to_owned(), a2)) }
    }
}

impl Display {
    /// Secondary, centered instruction text.
    pub fn instructions(text: &str) -> (r: Self)
        ensures
            r@ == (DisplayV::Text {
                text: text@,
                size: TextSize::Md,
                style: TextStyle::Secondary,
                align: Align::Center,
            }),
    {
        Display::Text {
            text: text.to_owned(),
            size: TextSize::Md,
            style: TextStyle::Secondary,
            align: Align::Center,
        }
    }

    /// A heading label.
    pub fn label(text: &str) -> (r: Self)
        ensures
            r@ == (DisplayV::Text {
                text: text@,
                size: TextSize::H5,
                style: TextStyle::Heading,
                align: Align::Left,
            }),
    {
        Display::Text {
            text: text.to_owned(),
            size: TextSize::H5,
            style: TextStyle::Heading,
            align: Align::Left,
        }
    }

    /// A large named icon.
    pub fn icon(icon: &str) -> (r: Self)
        ensures
            r@ == (DisplayV::Icon { icon: icon@ }),
    {
        Display::Icon { icon: icon.to_owned() }
    }

    /// A labelled literal datum with instructions.
    pub fn review(label: &str, data: &str, instructions: &str) -> (r: Self)
        ensures
            r@ == (DisplayV::Review {
                label: label@,
                data: SourceV::Lit { text: data@ },
                instructions: instructions@,
            }),
    {
        Display::Review {
            label: label.to_owned(),
            data: Source::lit(data),
            instructions: instructions.to_owned(),
        }
    }

    /// A labelled datum read from a named state slot at materialization time.
    pub fn review_slot(label: &str, tag: &str, instructions: &str) -> (r: Self)
        ensures
            r@ == (DisplayV::Review {
                label: label@,
                data: SourceV::Slot { tag: tag@ },
                instructions: instructions@,
            }),
    {
        Display::Review {
            label: label.to_owned(),
            data: Source::slot(tag),
            instructions: instructions.to_owned(),
        }
    }

    /// A labelled table of rows.
    pub fn table(label: &str, items: Vec<TableItem>) -> (r: Self)
        ensures
            r@ == (DisplayV::Table {
                label: label@,
                items: Seq::new(items@.len(), |i: int| items@[i]@),
            }),
    {
        Display::Table { label: label.to_owned(), items }
    }

    /// A QR code followed by instruction text.
    pub fn qr_code(data: &str, instructions: &str) -> (r: Self)
        ensures
            r@ == (DisplayV::QRCode { data: data@, instructions: instructions@ }),
    {
        Display::QRCode { data: data.to_owned(), instructions: instructions.to_owned() }
    }

    /// A section of rows, optionally opening a sub-flow.
    pub fn list(
        label: Option<&str>,
        items: Vec<ListItem>,
        flow: Option<Flow>,
        instructions: Option<&str>,
    ) -> (r: Self)
        ensures
            r@ == (DisplayV::List {
                label: match label {
                    Some(l) => Some(l@),
                    None => None,
                },
                items: Seq::new(items@.len(), |i: int| items@[i]@),
                flow: match flow {
                    Some(f) => Some(f@),
                    None => None,
                },
                instructions: match instructions {
                    Some(t) => Some(t@),
                    None => None,
                },
            }),
    {
        Display::List {
            label: match label {
                Some(l) => Some(l.to_owned()),
                None => None,
            },
            items,
            flow,
            instructions: match instructions {
                Some(t) => Some(t.to_owned()),
                None => None,
            },
        }
    }

    /// A currency amount, in cents.
    pub fn currency(cents: u64, instructions: &str) -> (r: Self)
        ensures
            r@ == (DisplayV::Currency { cents, instructions: instructions@ }),
    {
        Display::Currency { cents, instructions: instructions.to_owned() }
    }

    /// An avatar.
    pub fn avatar(content: AvatarContent) -> (r: Self)
        ensures
            r@ == (DisplayV::Avatar { content: content@ }),
    {
        Display::Avatar { content }
    }
}

/// The validity check contributed by an input widget: every check-carrying
/// field (text, currency, date, time) gates advancing with its stored check;
/// selectors, avatars and checklists contribute no gate.
pub open spec fn input_gate(inp: InputV) -> Option<ValidityGateV> {
    match inp {
        InputV::Text { check, .. } => Some(check),
        InputV::Currency { check, .. } => Some(check),
        InputV::Date { check, .. } => Some(check),
        InputV::Time { check, .. } => Some(check),
        _ => None,
    }
}

impl Input {
    /// A currency field echoing into the named state slot.
    pub fn currency(instructions: &str, tag: &str, check: ValidityGate) -> (r: Self)
        ensures
            r@ == (InputV::Currency { instructions: instructions@, tag: tag@, check: check@ }),
    {
        Input::Currency { instructions: instructions.to_owned(), tag: tag.to_owned(), check }
    }

    /// A date field echoing into the named state slot, gated by `check`.
    pub fn date(instructions: &str, tag: &str, check: ValidityGate) -> (r: Self)
        ensures
            r@ == (InputV::Date { instructions: instructions@, tag: tag@, check: check@ }),
    {
        Input::Date { instructions: instructions.to_owned(), tag: tag.to_owned(), check }
    }

    /// A time field echoing into the named state slot, gated by `check`.
    pub fn time(instructions: &str, tag: &str, check: ValidityGate) -> (r: Self)
        ensures
            r@ == (InputV::Time { instructions: instructions@, tag: tag@, check: check@ }),
    {
        Input::Time { instructions: instructions.to_owned(), tag: tag.to_owned(), check }
    }

    /// An exclusive selector echoing the chosen option into the named slot.
    pub fn enumerator(items: Vec<EnumItem>, tag: &str) -> (r: Self)
        ensures
            r@ == (InputV::Enumerator {
                items: Seq::new(items@.len(), |i: int| items@[i]@),
                tag: tag@,
            }),
    {
        Input::Enumerator { items, tag: tag.to_owned() }
    }

    /// A text field echoing into the named state slot.
    pub fn text(label: &str, actions: Option<Vec<Action>>, tag: &str, check: ValidityGate) -> (r:
        Self)
        ensures
            r@ == (InputV::Text {
                label: label@,
                actions: match actions {
                    Some(a) => Some(action_views(a@)),
                    None => None,
                },
                tag: tag@,
                check: check@,
            }),
    {
        Input::Text { label: label.to_owned(), actions, tag: tag.to_owned(), check }
    }

    /// An avatar with an optional flair icon and an optional tap action.
    pub fn avatar(
        content: AvatarContent,
        flair: Option<(String, AvatarIconStyle)>,
        action: Option<Action>,
    ) -> (r: Self)
        ensures
            r@ == (InputV::Avatar {
                content: content@,
                flair: match flair {
                    Some(f) => Some((f.0@, f.1)),
                    None => None,
                },
                action: match action {
                    Some(a) => Some(a@),
                    None => None,
                },
            }),
    {
        Input::Avatar { content, flair, action }
    }

    /// A list of checkboxes.
    pub fn checklist(items: Vec<ChecklistItem>) -> (r: Self)
        ensures
            r@ == (InputV::Boolean { items: Seq::new(items@.len(), |i: int| items@[i]@) }),
    {
        Input::Boolean { items }
    }

    /// The validity check this widget contributes to its page's gate, if any.
    pub fn check(&self) -> (r: Option<ValidityGate>)
        ensures
            match r {
                Some(g) => input_gate(self@) == Some(g@),
                None => input_gate(self@) is None,
            },
    {
        match self {
            Input::Text { check, .. } => Some(check.clone()),
            Input::Currency { check, .. } => Some(check.clone()),
            Input::Date { check, .. } => Some(check.clone()),
            Input::Time { check, .. } => Some(check.clone()),
            _ => None,
        }
    }
}

} // verus!
