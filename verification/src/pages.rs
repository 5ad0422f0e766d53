//! Materialized pages: the declarative descriptors this engine hands to the
//! rendering toolkit, and the resolution of a page description into one.
//!
//! Materialization is a pure function of the page description, its successor
//! continuation, and the session state of the moment: content sources are
//! resolved, input widgets contribute their validity checks, and the action
//! bar is resolved by the bumper rules — a `Default` bumper binds the
//! "continue" control to the successor continuation, or becomes a
//! flow-terminal control when there is none.

use vstd::prelude::*;

use crate::flow::{spec_build, ContinuationV, FlowChain, FlowChainV, NavigationContinuation};
use crate::gate::{clone_gates, gate_views, ValidityGate, ValidityGateV};
use crate::items::{
    Align, AvatarContent, AvatarContentV, AvatarIconStyle, ChecklistItem, ChecklistItemV, EnumItem,
    EnumItemV, ListItem, ListItemV, Offset, TableItem, TableItemV, TextSize, TextStyle,
};
use crate::flow::{spec_entry_log, spec_invoke_log};
use crate::gate::check_all;
use crate::gate::gates_hold;
use crate::state::{Ctx, Event, EventV, StateStore};
use crate::structs::{
    clone_checklist_items, clone_enum_items, clone_list_items, display_views, input_gate,
    input_views, view_display, view_input, view_page, Action, ActionV, Bumper, BumperV, Display,
    DisplayV, Flow, FlowV, Input, InputV, PageType, PageTypeV,
};

verus! {

/// One drawable block of a materialized page, with every datum resolved.
pub enum ContentNode {
    /// A text block.
    Text { text: String, size: TextSize, style: TextStyle, align: Align },
    /// A large named icon.
    Icon { name: String },
    /// A labelled datum with instructions.
    DataItem { label: String, data: String, instructions: String },
    /// A labelled table of resolved rows.
    Table { label: String, rows: Vec<(String, String)> },
    /// A currency amount, in cents.
    CurrencyDisplay { cents: u64, instructions: String },
    /// A section of rows; tapping a row enters the section's sub-chain, if
    /// one is attached.
    ListSection { label: Option<String>, entries: Vec<ListItem>, forward: Option<FlowChain> },
    /// A QR code.
    QrCode { data: String },
    /// An avatar.
    AvatarNode { content: AvatarContent },
    /// A text field echoing into the named state slot.
    TextInput { label: String, tag: String },
    /// A currency field echoing into the named state slot.
    CurrencyInput { instructions: String, tag: String },
    /// A date field echoing into the named state slot.
    DateInput { instructions: String, tag: String },
    /// A time field echoing into the named state slot.
    TimeInput { instructions: String, tag: String },
    /// An exclusive selector echoing into the named state slot.
    Selector { tag: String, options: Vec<EnumItem> },
    /// An avatar input with an optional flair and tap action.
    AvatarInput { content: AvatarContent, flair: Option<(String, AvatarIconStyle)>, action: Option<
        Action,
    > },
    /// A list of checkboxes.
    Checkboxes { entries: Vec<ChecklistItem> },
}

/// Mathematical view of a `ContentNode`.
pub ghost enum ContentNodeV {
    Text { text: Seq<char>, size: TextSize, style: TextStyle, align: Align },
    Icon { name: Seq<char> },
    DataItem { label: Seq<char>, data: Seq<char>, instructions: Seq<char> },
    Table { label: Seq<char>, rows: Seq<(Seq<char>, Seq<char>)> },
    CurrencyDisplay { cents: u64, instructions: Seq<char> },
    ListSection { label: Option<Seq<char>>, entries: Seq<ListItemV>, forward: Option<FlowChainV> },
    QrCode { data: Seq<char> },
    AvatarNode { content: AvatarContentV },
    TextInput { label: Seq<char>, tag: Seq<char> },
    CurrencyInput { instructions: Seq<char>, tag: Seq<char> },
    DateInput { instructions: Seq<char>, tag: Seq<char> },
    TimeInput { instructions: Seq<char>, tag: Seq<char> },
    Selector { tag: Seq<char>, options: Seq<EnumItemV> },
    AvatarInput { content: AvatarContentV, flair: Option<(Seq<char>, AvatarIconStyle)>, action:
        Option<ActionV> },
    Checkboxes { entries: Seq<ChecklistItemV> },
}

impl View for ContentNode {
    type V = ContentNodeV;

    open spec fn view(&self) -> ContentNodeV {
        match self {
            ContentNode::Text { text, size, style, align } => ContentNodeV::Text {
                text: text@,
                size: *size,
                style: *style,
                align: *align,
            },
            ContentNode::Icon { name } => ContentNodeV::Icon { name: name@ },
            ContentNode::DataItem { label, data, instructions } => ContentNodeV::DataItem {
                label: label@,
                data: data@,
                instructions: instructions@,
            },
            ContentNode::Table { label, rows } => ContentNodeV::Table {
                label: label@,
                rows: Seq::new(rows@.len(), |i: int| (rows@[i].0@, rows@[i].1@)),
            },
            ContentNode::CurrencyDisplay { cents, instructions } => ContentNodeV::CurrencyDisplay {
                cents: *cents,
                instructions: instructions@,
            },
            ContentNode::ListSection { label, entries, forward } => ContentNodeV::ListSection {
                label: match label {
                    Some(l) => Some(l@),
                    None => None,
                },
                entries: Seq::new(entries@.len(), |i: int| entries@[i]@),
                forward: match forward {
                    Some(c) => Some(c@),
                    None => None,
                },
            },
            ContentNode::QrCode { data } => ContentNodeV::QrCode { data: data@ },
            ContentNode::AvatarNode { content } => ContentNodeV::AvatarNode { content: content@ },
            ContentNode::TextInput { label, tag } => ContentNodeV::TextInput {
                label: label@,
                tag: tag@,
            },
            ContentNode::CurrencyInput { instructions, tag } => ContentNodeV::CurrencyInput {
                instructions: instructions@,
                tag: tag@,
            },
            ContentNode::DateInput { instructions, tag } => ContentNodeV::DateInput {
                instructions: instructions@,
                tag: tag@,
            },
            ContentNode::TimeInput { instructions, tag } => ContentNodeV::TimeInput {
                instructions: instructions@,
                tag: tag@,
            },
            ContentNode::Selector { tag, options } => ContentNodeV::Selector {
                tag: tag@,
                options: Seq::new(options@.len(), |i: int| options@[i]@),
            },
            ContentNode::AvatarInput { content, flair, action } => ContentNodeV::AvatarInput {
                content: content@,
                flair: match flair {
                    Some(f) => Some((f.0@, f.1)),
                    None => None,
                },
                action: match action {
                    Some(a) => Some(a@),
                    None => None,
                },
            },
            ContentNode::Checkboxes { entries } => ContentNodeV::Checkboxes {
                entries: Seq::new(entries@.len(), |i: int| entries@[i]@),
            },
        }
    }
}

/// The header of a materialized page.
pub enum Header {
    /// A root screen's header; the icon runs an action.
    Home { icon: Option<(String, Action)> },
    /// A mid-flow header; the icon opens a branch sub-chain.
    MidFlow { icon: Option<(String, FlowChain)> },
    /// A flow-terminal header.
    Terminal,
}

/// Mathematical view of a `Header`.
pub ghost enum HeaderV {
    Home { icon: Option<(Seq<char>, ActionV)> },
    MidFlow { icon: Option<(Seq<char>, FlowChainV)> },
    Terminal,
}

impl View for Header {
    type V = HeaderV;

    open spec fn view(&self) -> HeaderV {
        match self {
            Header::Home { icon } => HeaderV::Home {
                icon: match icon {
                    Some(p) => Some((p.0@, p.1@)),
                    None => None,
                },
            },
            Header::MidFlow { icon } => HeaderV::MidFlow {
                icon: match icon {
                    Some(p) => Some((p.0@, p.1@)),
                    None => None,
                },
            },
            Header::Terminal => HeaderV::Terminal,
        }
    }
}

/// The action bar of a materialized page: which control it offers, what the
/// control triggers, and the validity gates (re-evaluated on each attempted
/// activation) that the gated control is behind.
pub enum ControlBar {
    /// A "continue" control bound to the chain's next continuation; gated.
    Forward { next: NavigationContinuation, gates: Vec<ValidityGate> },
    /// A flow-terminal control showing how many steps the flow had; gated.
    Terminal { gates: Vec<ValidityGate>, steps: usize },
    /// A caller-supplied primary control (gated) and optional secondary
    /// control (ungated).
    Custom { label: String, action: Action, secondary: Option<(String, Action)>, gates: Vec<
        ValidityGate,
    > },
    /// A root screen's one or two entry controls; ungated.
    Root { primary: (String, FlowChain), secondary: Option<(String, FlowChain)> },
    /// No action bar.
    Absent,
}

/// Mathematical view of a `ControlBar`.
pub ghost enum ControlBarV {
    Forward { next: ContinuationV, gates: Seq<ValidityGateV> },
    Terminal { gates: Seq<ValidityGateV>, steps: int },
    Custom { label: Seq<char>, action: ActionV, secondary: Option<(Seq<char>, ActionV)>, gates:
        Seq<ValidityGateV> },
    Root { primary: (Seq<char>, FlowChainV), secondary: Option<(Seq<char>, FlowChainV)> },
    Absent,
}

impl View for ControlBar {
    type V = ControlBarV;

    open spec fn view(&self) -> ControlBarV {
        match self {
            ControlBar::Forward { next, gates } => ControlBarV::Forward {
                next: next@,
                gates: Seq::new(gates@.len(), |i: int| gates@[i]@),
            },
            ControlBar::Terminal { gates, steps } => ControlBarV::Terminal {
                gates: Seq::new(gates@.len(), |i: int| gates@[i]@),
                steps: *steps as int,
            },
            ControlBar::Custom { label, action, secondary, gates } => ControlBarV::Custom {
                label: label@,
                action: action@,
                secondary: match secondary {
                    Some(s) => Some((s.0@, s.1@)),
                    None => None,
                },
                gates: Seq::new(gates@.len(), |i: int| gates@[i]@),
            },
            ControlBar::Root { primary, secondary } => ControlBarV::Root {
                primary: (primary.0@, primary.1@),
                secondary: match secondary {
                    Some(s) => Some((s.0@, s.1@)),
                    None => None,
                },
            },
            ControlBar::Absent => ControlBarV::Absent,
        }
    }
}

/// A materialized page: the declarative descriptor handed to the rendering
/// toolkit and pushed onto the navigation stack.
pub struct RenderedPage {
    pub title: String,
    pub offset: Offset,
    pub content: Vec<ContentNode>,
    pub header: Header,
    pub control: ControlBar,
    pub position: usize,
}

/// Mathematical view of a `RenderedPage`.
#[verifier::ext_equal]
pub ghost struct RenderedPageV {
    pub title: Seq<char>,
    pub offset: Offset,
    pub content: Seq<ContentNodeV>,
    pub header: HeaderV,
    pub control: ControlBarV,
    pub position: int,
}

/// The views of a sequence of content nodes.
pub open spec fn content_views(s: Seq<ContentNode>) -> Seq<ContentNodeV> {
    Seq::new(s.len(), |i: int| s[i]@)
}

impl View for RenderedPage {
    type V = RenderedPageV;

    open spec fn view(&self) -> RenderedPageV {
        RenderedPageV {
            title: self.title@,
            offset: self.offset,
            content: content_views(self.content@),
            header: self.header@,
            control: self.control@,
            position: self.position as int,
        }
    }
}

/// Clones a table's resolved rows.
fn clone_rows(v: &Vec<(String, String)>) -> (r: Vec<(String, String)>)
    ensures
        r@.len() == v@.len(),
        forall|j: int| 0 <= j < v@.len() ==> (#[trigger] r@[j]).0@ == v@[j].0@ && r@[j].1@
            == v@[j].1@,
{
    let mut r: Vec<(String, String)> = Vec::new();
    let mut i: usize = 0;
    while i < v.len()
        invariant
            i <= v@.len(),
            r@.len() == i as int,
            forall|j: int| 0 <= j < i ==> (#[trigger] r@[j]).0@ == v@[j].0@ && r@[j].1@
                == v@[j].1@,
        decreases v@.len() - i,
    {
        let row = (v[i].0.clone(), v[i].1.clone());
        r.push(row);
        i = i + 1;
    }
    r
}

impl Clone for ContentNode {
    fn clone(&self) -> (r: Self)
        ensures
            r@ == self@,
    {
        match self {
            ContentNode::Text { text, size, style, align } => ContentNode::Text {
                text: text.clone(),
                size: *size,
                style: *style,
                align: *align,
            },
            ContentNode::Icon { name } => ContentNode::Icon { name: name.clone() },
            ContentNode::DataItem { label, data, instructions } => ContentNode::DataItem {
                label: label.clone(),
                data: data.clone(),
                instructions: instructions.clone(),
            },
            ContentNode::Table { label, rows } => {
                let r = ContentNode::Table { label: label.clone(), rows: clone_rows(rows) };
                proof {
                    assert(r@->Table_rows =~= self@->Table_rows);
                }
                r
            },
            ContentNode::CurrencyDisplay { cents, instructions } => ContentNode::CurrencyDisplay {
                cents: *cents,
                instructions: instructions.clone(),
            },
            ContentNode::ListSection { label, entries, forward } => {
                let r = ContentNode::ListSection {
                    label: match label {
                        Some(l) => Some(l.clone()),
                        None => None,
                    },
                    entries: clone_list_items(entries),
                    forward: match forward {
                        Some(c) => Some(c.clone()),
                        None => None,
                    },
                };
                proof {
                    assert(r@->ListSection_entries =~= self@->ListSection_entries);
                }
                r
            },
            ContentNode::QrCode { data } => ContentNode::QrCode { data: data.clone() },
            ContentNode::AvatarNode { content } => ContentNode::AvatarNode {
                content: content.clone(),
            },
            ContentNode::TextInput { label, tag } => ContentNode::TextInput {
                label: label.clone(),
                tag: tag.clone(),
            },
            ContentNode::CurrencyInput { instructions, tag } => ContentNode::CurrencyInput {
                instructions: instructions.clone(),
                tag: tag.clone(),
            },
            ContentNode::DateInput { instructions, tag } => ContentNode::DateInput {
                instructions: instructions.clone(),
                tag: tag.clone(),
            },
            ContentNode::TimeInput { instructions, tag } => ContentNode::TimeInput {
                instructions: instructions.clone(),
                tag: tag.clone(),
            },
            ContentNode::Selector { tag, options } => {
                let r = ContentNode::Selector {
                    tag: tag.clone(),
                    options: clone_enum_items(options),
                };
                proof {
                    assert(r@->Selector_options =~= self@->Selector_options);
                }
                r
            },
            ContentNode::AvatarInput { content, flair, action } => ContentNode::AvatarInput {
                content: content.clone(),
                flair: match flair {
                    Some(f) => Some((f.0.clone(), f.1)),
                    None => None,
                },
                action: match action {
                    Some(a) => Some(a.clone()),
                    None => None,
                },
            },
            ContentNode::Checkboxes { entries } => {
                let r = ContentNode::Checkboxes { entries: clone_checklist_items(entries) };
                proof {
                    assert(r@->Checkboxes_entries =~= self@->Checkboxes_entries);
                }
                r
            },
        }
    }
}

impl Clone for Header {
    fn clone(&self) -> (r: Self)
        ensures
            r@ == self@,
    {
        match self {
            Header::Home { icon } => Header::Home {
                icon: match icon {
                    Some(p) => Some((p.0.clone(), p.1.clone())),
                    None => None,
                },
            },
            Header::MidFlow { icon } => Header::MidFlow {
                icon: match icon {
                    Some(p) => Some((p.0.clone(), p.1.clone())),
                    None => None,
                },
            },
            Header::Terminal => Header::Terminal,
        }
    }
}

impl Clone for ControlBar {
    fn clone(&self) -> (r: Self)
        ensures
            r@ == self@,
    {
        match self {
            ControlBar::Forward { next, gates } => {
                let r = ControlBar::Forward { next: next.clone(), gates: clone_gates(gates) };
                proof {
                    assert(r@->Forward_gates =~= self@->Forward_gates);
                }
                r
            },
            ControlBar::Terminal { gates, steps } => {
                let r = ControlBar::Terminal { gates: clone_gates(gates), steps: *steps };
                proof {
                    assert(r@->Terminal_gates =~= self@->Terminal_gates);
                }
                r
            },
            ControlBar::Custom { label, action, secondary, gates } => {
                let r = ControlBar::Custom {
                    label: label.clone(),
                    action: action.clone(),
                    secondary: match secondary {
                        Some(s) => Some((s.0.clone(), s.1.clone())),
                        None => None,
                    },
                    gates: clone_gates(gates),
                };
                proof {
                    assert(r@->Custom_gates =~= self@->Custom_gates);
                }
                r
            },
            ControlBar::Root { primary, secondary } => ControlBar::Root {
                primary: (primary.0.clone(), primary.1.clone()),
                secondary: match secondary {
                    Some(s) => Some((s.0.clone(), s.1.clone())),
                    None => None,
                },
            },
            ControlBar::Absent => ControlBar::Absent,
        }
    }
}

/// Clones materialized content, preserving each node's view.
fn clone_content(v: &Vec<ContentNode>) -> (r: Vec<ContentNode>)
    ensures
        content_views(r@) == content_views(v@),
{
    let mut r: Vec<ContentNode> = Vec::new();
    let mut i: usize = 0;
    while i < v.len()
        invariant
            i <= v@.len(),
            r@.len() == i as int,
            forall|j: int| 0 <= j < i ==> (#[trigger] r@[j])@ == v@[j]@,
        decreases v@.len() - i,
    {
        r.push(v[i].clone());
        i = i + 1;
    }
    proof {
        assert(content_views(r@) =~= content_views(v@));
    }
    r
}

impl Clone for RenderedPage {
    fn clone(&self) -> (r: Self)
        ensures
            r@ == self@,
    {
        let r = RenderedPage {
            title: self.title.clone(),
            offset: self.offset,
            content: clone_content(&self.content),
            header: self.header.clone(),
            control: self.control.clone(),
            position: self.position,
        };
        proof {
            assert(r@ =~= self@);
        }
        r
    }
}

/// The resolved rows of a table: each row's datum resolved against the state.
pub open spec fn spec_render_table(
    items: Seq<TableItemV>,
    s: Map<Seq<char>, Seq<char>>,
) -> Seq<(Seq<char>, Seq<char>)> {
    Seq::new(items.len(), |i: int| (items[i].title, items[i].data.resolve(s)))
}

/// What one display block materializes into: `None` only for an empty list
/// section without instructions, which renders as nothing at all.
pub open spec fn spec_render_display(d: DisplayV, s: Map<Seq<char>, Seq<char>>) -> Option<
    Seq<ContentNodeV>,
> {
    match d {
        DisplayV::Text { text, size, style, align } => Some(
            seq![ContentNodeV::Text { text, size, style, align }],
        ),
        DisplayV::Icon { icon } => Some(seq![ContentNodeV::Icon { name: icon }]),
        DisplayV::Review { label, data, instructions } => Some(
            seq![ContentNodeV::DataItem { label, data: data.resolve(s), instructions }],
        ),
        DisplayV::Table { label, items } => Some(
            seq![ContentNodeV::Table { label, rows: spec_render_table(items, s) }],
        ),
        DisplayV::Currency { cents, instructions } => Some(
            seq![ContentNodeV::CurrencyDisplay { cents, instructions }],
        ),
        DisplayV::List { label, items, flow, instructions } => if items.len() == 0 {
            match instructions {
                Some(text) => Some(
                    seq![
                        ContentNodeV::Text {
                            text,
                            size: TextSize::Md,
                            style: TextStyle::Secondary,
                            align: Align::Center,
                        },
                    ],
                ),
                None => None,
            }
        } else {
            Some(
                seq![
                    ContentNodeV::ListSection {
                        label,
                        entries: items,
                        forward: match flow {
                            Some(f) => Some(spec_build(f)),
                            None => None,
                        },
                    },
                ],
            )
        },
        DisplayV::QRCode { data, instructions } => Some(
            seq![
                ContentNodeV::QrCode { data },
                ContentNodeV::Text {
                    text: instructions,
                    size: TextSize::Md,
                    style: TextStyle::Secondary,
                    align: Align::Center,
                },
            ],
        ),
        DisplayV::Avatar { content } => Some(seq![ContentNodeV::AvatarNode { content }]),
    }
}

/// What a sequence of display blocks materializes into: each block's nodes,
/// concatenated, with blocks that render to nothing dropped.
pub open spec fn spec_render_displays(
    items: Seq<DisplayV>,
    s: Map<Seq<char>, Seq<char>>,
) -> Seq<ContentNodeV>
    decreases items.len(),
{
    if items.len() == 0 {
        Seq::empty()
    } else {
        spec_render_displays(items.drop_last(), s) + match spec_render_display(items.last(), s) {
            Some(ns) => ns,
            None => Seq::empty(),
        }
    }
}

/// What one input widget materializes into.
pub open spec fn spec_render_input(inp: InputV) -> Seq<ContentNodeV> {
    match inp {
        InputV::Text { label, tag, .. } => Seq::empty().push(
            ContentNodeV::TextInput { label, tag },
        ),
        InputV::Currency { instructions, tag, .. } => Seq::empty().push(
            ContentNodeV::CurrencyInput { instructions, tag },
        ),
        InputV::Date { instructions, tag, .. } => Seq::empty().push(
            ContentNodeV::DateInput { instructions, tag },
        ),
        InputV::Time { instructions, tag, .. } => Seq::empty().push(
            ContentNodeV::TimeInput { instructions, tag },
        ),
        InputV::Enumerator { items, tag } => Seq::empty().push(
            ContentNodeV::Selector { tag, options: items },
        ),
        InputV::Avatar { content, flair, action } => Seq::empty().push(
            ContentNodeV::AvatarInput { content, flair, action },
        ),
        InputV::Boolean { items } => Seq::empty().push(
            ContentNodeV::Checkboxes { entries: items },
        ),
    }
}

/// What a sequence of input widgets materializes into.
pub open spec fn spec_render_inputs(items: Seq<InputV>) -> Seq<ContentNodeV>
    decreases items.len(),
{
    if items.len() == 0 {
        Seq::empty()
    } else {
        spec_render_inputs(items.drop_last()) + spec_render_input(items.last())
    }
}

/// The validity checks contributed by a settings page's widgets, in order.
pub open spec fn settings_gates(items: Seq<InputV>) -> Seq<ValidityGateV>
    decreases items.len(),
{
    if items.len() == 0 {
        Seq::empty()
    } else {
        settings_gates(items.drop_last()) + match input_gate(items.last()) {
            Some(g) => seq![g],
            None => Seq::empty(),
        }
    }
}

/// The title of a page description.
pub open spec fn page_title(p: PageTypeV) -> Seq<char> {
    match p {
        PageTypeV::Display { title, .. } => title,
        PageTypeV::Input { title, .. } => title,
        PageTypeV::Settings { title, .. } => title,
    }
}

/// The content offset of a materialized page: display pages use their stored
/// offset; input and settings pages start at the top.
pub open spec fn page_offset(p: PageTypeV) -> Offset {
    match p {
        PageTypeV::Display { offset, .. } => offset,
        PageTypeV::Input { .. } => Offset::Start,
        PageTypeV::Settings { .. } => Offset::Start,
    }
}

/// The bumper of a page description.
pub open spec fn page_bumper(p: PageTypeV) -> BumperV {
    match p {
        PageTypeV::Display { bumper, .. } => bumper,
        PageTypeV::Input { bumper, .. } => bumper,
        PageTypeV::Settings { bumper, .. } => bumper,
    }
}

/// The branch affordance of a page description, if any.
pub open spec fn page_branch(p: PageTypeV) -> Option<(Seq<char>, FlowV)> {
    match p {
        PageTypeV::Display { branch, .. } => branch,
        PageTypeV::Input { .. } => None,
        PageTypeV::Settings { .. } => None,
    }
}

/// The validity gates of a page: a display page has none, an input page has
/// its widget's check (if the widget contributes one), and a settings page
/// conjoins the checks of all its widgets.
pub open spec fn page_gates(p: PageTypeV) -> Seq<ValidityGateV> {
    match p {
        PageTypeV::Display { .. } => Seq::empty(),
        PageTypeV::Input { items, .. } => match input_gate(items) {
            Some(g) => seq![g],
            None => Seq::empty(),
        },
        PageTypeV::Settings { items, .. } => settings_gates(items),
    }
}

/// The materialized content of a page.
pub open spec fn page_content(p: PageTypeV, s: Map<Seq<char>, Seq<char>>) -> Seq<ContentNodeV> {
    match p {
        PageTypeV::Display { items, .. } => spec_render_displays(items, s),
        PageTypeV::Input { items, .. } => spec_render_input(items),
        PageTypeV::Settings { items, .. } => spec_render_inputs(items),
    }
}

/// What materializing a page yields: content resolved against the state, the
/// branch affordance built into a sub-chain, and the action bar resolved by
/// the bumper rules. A `Default` bumper binds the "continue" control to the
/// successor continuation when there is one, and becomes a flow-terminal
/// control when there is none; `Done` is always flow-terminal; a `Custom`
/// bumper binds the caller's actions; `Absent` renders no action bar. Every
/// gated control is behind the page's gates.
pub open spec fn spec_render(
    p: PageTypeV,
    position: int,
    next: Option<ContinuationV>,
    s: Map<Seq<char>, Seq<char>>,
) -> RenderedPageV {
    let gates = page_gates(p);
    let icon = match page_branch(p) {
        Some(b) => Some((b.0, spec_build(b.1))),
        None => None,
    };
    let header = match page_bumper(p) {
        BumperV::Custom { .. } => HeaderV::MidFlow { icon },
        BumperV::Default => match next {
            Some(_) => HeaderV::MidFlow { icon },
            None => HeaderV::Terminal,
        },
        BumperV::Done => HeaderV::Terminal,
        BumperV::Absent => HeaderV::MidFlow { icon },
    };
    let control = match page_bumper(p) {
        BumperV::Custom { label, action, secondary } => ControlBarV::Custom {
            label,
            action,
            secondary,
            gates,
        },
        BumperV::Default => match next {
            Some(n) => ControlBarV::Forward { next: n, gates },
            None => ControlBarV::Terminal { gates, steps: position },
        },
        BumperV::Done => ControlBarV::Terminal { gates, steps: position },
        BumperV::Absent => ControlBarV::Absent,
    };
    RenderedPageV {
        title: page_title(p),
        offset: page_offset(p),
        content: page_content(p, s),
        header,
        control,
        position,
    }
}

/// Resolves a table against the current state.
fn render_table(items: &Vec<TableItem>, state: &StateStore) -> (r: Vec<(String, String)>)
    ensures
        r@.len() == items@.len(),
        forall|i: int| 0 <= i < items@.len() ==> (#[trigger] r@[i]).0@ == items@[i]@.title
            && r@[i].1@ == items@[i]@.data.resolve(state@),
{
    let mut r: Vec<(String, String)> = Vec::new();
    let mut i: usize = 0;
    while i < items.len()
        invariant
            i <= items@.len(),
            r@.len() == i as int,
            forall|j: int| 0 <= j < i ==> (#[trigger] r@[j]).0@ == items@[j]@.title && r@[j].1@
                == items@[j]@.data.resolve(state@),
        decreases items@.len() - i,
    {
        let row = (items[i].title.clone(), items[i].data.resolve(state));
        r.push(row);
        i = i + 1;
    }
    r
}

/// Materializes one display block against the current state. Returns `None`
/// only for an empty list section without instructions.
fn render_display(d: &Display, state: &StateStore) -> (r: Option<Vec<ContentNode>>)
    ensures
        match r {
            Some(v) => spec_render_display(d@, state@) == Some(content_views(v@)),
            None => spec_render_display(d@, state@) is None,
        },
{
    match d {
        Display::Text { text, size, style, align } => {
            let mut v: Vec<ContentNode> = Vec::new();
            v.push(
                ContentNode::Text { text: text.clone(), size: *size, style: *style, align: *align },
            );
            proof {
                assert(content_views(v@) =~= spec_render_display(d@, state@)->0);
            }
            Some(v)
        },
        Display::Icon { icon } => {
            let mut v: Vec<ContentNode> = Vec::new();
            v.push(ContentNode::Icon { name: icon.clone() });
            proof {
                assert(content_views(v@) =~= spec_render_display(d@, state@)->0);
            }
            Some(v)
        },
        Display::Review { label, data, instructions } => {
            let mut v: Vec<ContentNode> = Vec::new();
            v.push(
                ContentNode::DataItem {
                    label: label.clone(),
                    data: data.resolve(state),
                    instructions: instructions.clone(),
                },
            );
            proof {
                assert(content_views(v@) =~= spec_render_display(d@, state@)->0);
            }
            Some(v)
        },
        Display::Table { label, items } => {
            let mut v: Vec<ContentNode> = Vec::new();
            let rows = render_table(items, state);
            v.push(ContentNode::Table { label: label.clone(), rows });
            proof {
                assert(content_views(v@)[0]->Table_rows =~= spec_render_table(
                    d@->Table_items,
                    state@,
                ));
                assert(content_views(v@) =~= spec_render_display(d@, state@)->0);
            }
            Some(v)
        },
        Display::Currency { cents, instructions } => {
            let mut v: Vec<ContentNode> = Vec::new();
            v.push(
                ContentNode::CurrencyDisplay {
                    cents: *cents,
                    instructions: instructions.clone(),
                },
            );
            proof {
                assert(content_views(v@) =~= spec_render_display(d@, state@)->0);
            }
            Some(v)
        },
        Display::List { label, items, flow, instructions } => {
            if items.len() == 0 {
                match instructions {
                    Some(text) => {
                        let mut v: Vec<ContentNode> = Vec::new();
                        v.push(
                            ContentNode::Text {
                                text: text.clone(),
                                size: TextSize::Md,
                                style: TextStyle::Secondary,
                                align: Align::Center,
                            },
                        );
                        proof {
                            assert(content_views(v@) =~= spec_render_display(d@, state@)->0);
                        }
                        Some(v)
                    },
                    None => None,
                }
            } else {
                let mut v: Vec<ContentNode> = Vec::new();
                let entries = clone_list_items(items);
                let forward = match flow {
                    Some(f) => Some(f.build()),
                    None => None,
                };
                v.push(
                    ContentNode::ListSection {
                        label: match label {
                            Some(l) => Some(l.clone()),
                            None => None,
                        },
                        entries,
                        forward,
                    },
                );
                proof {
                    assert(content_views(v@)[0]->ListSection_entries =~= d@->List_items);
                    assert(content_views(v@) =~= spec_render_display(d@, state@)->0);
                }
                Some(v)
            }
        },
        Display::QRCode { data, instructions } => {
            let mut v: Vec<ContentNode> = Vec::new();
            v.push(ContentNode::QrCode { data: data.clone() });
            v.push(
                ContentNode::Text {
                    text: instructions.clone(),
                    size: TextSize::Md,
                    style: TextStyle::Secondary,
                    align: Align::Center,
                },
            );
            proof {
                assert(content_views(v@) =~= spec_render_display(d@, state@)->0);
            }
            Some(v)
        },
        Display::Avatar { content } => {
            let mut v: Vec<ContentNode> = Vec::new();
            v.push(ContentNode::AvatarNode { content: content.clone() });
            proof {
                assert(content_views(v@) =~= spec_render_display(d@, state@)->0);
            }
            Some(v)
        },
    }
}

/// Materializes a sequence of display blocks, concatenating their nodes.
fn render_displays(items: &Vec<Display>, state: &StateStore) -> (r: Vec<ContentNode>)
    ensures
        content_views(r@) == spec_render_displays(display_views(items@), state@),
{
    let mut r: Vec<ContentNode> = Vec::new();
    let mut i: usize = 0;
    proof {
        assert(display_views(items@).take(0) =~= Seq::<DisplayV>::empty());
        assert(content_views(r@) =~= Seq::<ContentNodeV>::empty());
    }
    while i < items.len()
        invariant
            i <= items@.len(),
            content_views(r@) == spec_render_displays(
                display_views(items@).take(i as int),
                state@,
            ),
        decreases items@.len() - i,
    {
        let ghost prefix = display_views(items@).take(i as int);
        let ghost prefix1 = display_views(items@).take(i + 1);
        proof {
            assert(prefix1.drop_last() =~= prefix);
            assert(prefix1.last() == view_display(items@[i as int]));
        }
        match render_display(&items[i], state) {
            Some(mut v) => {
                let ghost old_r = r@;
                let ghost old_v = v@;
                r.append(&mut v);
                proof {
                    assert(content_views(old_r + old_v) =~= content_views(old_r) + content_views(
                        old_v,
                    ));
                }
            },
            None => (),
        }
        proof {
            assert(content_views(r@) + Seq::<ContentNodeV>::empty() =~= content_views(r@));
        }
        i = i + 1;
    }
    proof {
        assert(display_views(items@).take(items@.len() as int) =~= display_views(items@));
    }
    r
}

/// Materializes one input widget.
fn render_input(inp: &Input) -> (r: Vec<ContentNode>)
    ensures
        content_views(r@) == spec_render_input(inp@),
{
    let mut v: Vec<ContentNode> = Vec::new();
    match inp {
        Input::Text { label, tag, .. } => {
            v.push(ContentNode::TextInput { label: label.clone(), tag: tag.clone() });
        },
        Input::Currency { instructions, tag, .. } => {
            v.push(
                ContentNode::CurrencyInput {
                    instructions: instructions.clone(),
                    tag: tag.clone(),
                },
            );
        },
        Input::Date { instructions, tag, .. } => {
            v.push(
                ContentNode::DateInput { instructions: instructions.clone(), tag: tag.clone() },
            );
        },
        Input::Time { instructions, tag, .. } => {
            v.push(
                ContentNode::TimeInput { instructions: instructions.clone(), tag: tag.clone() },
            );
        },
        Input::Enumerator { items, tag } => {
            let options = clone_enum_items(items);
            v.push(ContentNode::Selector { tag: tag.clone(), options });
            proof {
                assert(content_views(v@)[0]->Selector_options =~= inp@->Enumerator_items);
            }
        },
        Input::Avatar { content, flair, action } => {
            v.push(
                ContentNode::AvatarInput {
                    content: content.clone(),
                    flair: match flair {
                        Some(f) => Some((f.0.clone(), f.1)),
                        None => None,
                    },
                    action: match action {
                        Some(a) => Some(a.clone()),
                        None => None,
                    },
                },
            );
        },
        Input::Boolean { items } => {
            let entries = clone_checklist_items(items);
            v.push(ContentNode::Checkboxes { entries });
            proof {
                assert(content_views(v@)[0]->Checkboxes_entries =~= inp@->Boolean_items);
            }
        },
    }
    proof {
        assert(content_views(v@) =~= spec_render_input(inp@));
    }
    v
}

/// Materializes a settings page's widgets, concatenating their nodes.
fn render_inputs(items: &Vec<Input>) -> (r: Vec<ContentNode>)
    ensures
        content_views(r@) == spec_render_inputs(input_views(items@)),
{
    let mut r: Vec<ContentNode> = Vec::new();
    let mut i: usize = 0;
    proof {
        assert(input_views(items@).take(0) =~= Seq::<InputV>::empty());
        assert(content_views(r@) =~= Seq::<ContentNodeV>::empty());
    }
    while i < items.len()
        invariant
            i <= items@.len(),
            content_views(r@) == spec_render_inputs(input_views(items@).take(i as int)),
        decreases items@.len() - i,
    {
        let ghost prefix = input_views(items@).take(i as int);
        let ghost prefix1 = input_views(items@).take(i + 1);
        proof {
            assert(prefix1.drop_last() =~= prefix);
            assert(prefix1.last() == view_input(items@[i as int]));
        }
        let mut v = render_input(&items[i]);
        let ghost old_r = r@;
        let ghost old_v = v@;
        r.append(&mut v);
        proof {
            assert(content_views(old_r + old_v) =~= content_views(old_r) + content_views(old_v));
        }
        i = i + 1;
    }
    proof {
        assert(input_views(items@).take(items@.len() as int) =~= input_views(items@));
    }
    r
}

/// Collects the validity checks contributed by a settings page's widgets.
fn collect_gates(items: &Vec<Input>) -> (r: Vec<ValidityGate>)
    ensures
        gate_views(r@) == settings_gates(input_views(items@)),
{
    let mut r: Vec<ValidityGate> = Vec::new();
    let mut i: usize = 0;
    proof {
        assert(input_views(items@).take(0) =~= Seq::<InputV>::empty());
        assert(gate_views(r@) =~= Seq::<ValidityGateV>::empty());
    }
    while i < items.len()
        invariant
            i <= items@.len(),
            gate_views(r@) == settings_gates(input_views(items@).take(i as int)),
        decreases items@.len() - i,
    {
        let ghost prefix = input_views(items@).take(i as int);
        let ghost prefix1 = input_views(items@).take(i + 1);
        proof {
            assert(prefix1.drop_last() =~= prefix);
            assert(prefix1.last() == view_input(items@[i as int]));
        }
        let ghost old_r = r@;
        match items[i].check() {
            Some(g) => {
                r.push(g);
                proof {
                    assert(gate_views(r@) =~= gate_views(old_r) + seq![r@.last()@]);
                }
            },
            None => {
                proof {
                    assert(gate_views(r@) + Seq::<ValidityGateV>::empty() =~= gate_views(r@));
                }
            },
        }
        i = i + 1;
    }
    proof {
        assert(input_views(items@).take(items@.len() as int) =~= input_views(items@));
    }
    r
}

impl Display {
    /// Materializes this block against the current state. `None` only for an
    /// empty list section without instructions, which renders as nothing.
    pub fn build(&self, state: &StateStore) -> (r: Option<Vec<ContentNode>>)
        ensures
            match r {
                Some(v) => spec_render_display(self@, state@) == Some(content_views(v@)),
                None => spec_render_display(self@, state@) is None,
            },
    {
        render_display(self, state)
    }
}

impl Input {
    /// Materializes this widget.
    pub fn build(&self) -> (r: Vec<ContentNode>)
        ensures
            content_views(r@) == spec_render_input(self@),
    {
        render_input(self)
    }
}

impl PageType {
    /// The page's title.
    pub fn name(&self) -> (r: String)
        ensures
            r@ == page_title(self@),
    {
        match self {
            PageType::Display { title, .. } => title.clone(),
            PageType::Input { title, .. } => title.clone(),
            PageType::Settings { title, .. } => title.clone(),
        }
    }

    /// Materializes the page against the current state, at the given 1-based
    /// position in its flow, with the given successor continuation.
    pub fn build(
        &self,
        position: usize,
        next: Option<NavigationContinuation>,
        state: &StateStore,
    ) -> (r: RenderedPage)
        ensures
            r@ == spec_render(
                self@,
                position as int,
                match next {
                    Some(n) => Some(n@),
                    None => None,
                },
                state@,
            ),
    {
        let ghost nextv: Option<ContinuationV> = match &next {
            Some(n) => Some(n@),
            None => None,
        };
        let gates: Vec<ValidityGate> = match self {
            PageType::Display { .. } => Vec::new(),
            PageType::Input { items, .. } => {
                match items.check() {
                    Some(g) => {
                        let mut v: Vec<ValidityGate> = Vec::new();
                        v.push(g);
                        v
                    },
                    None => Vec::new(),
                }
            },
            PageType::Settings { items, .. } => collect_gates(items),
        };
        proof {
            assert(gate_views(gates@) =~= page_gates(self@));
        }
        let content: Vec<ContentNode> = match self {
            PageType::Display { items, .. } => render_displays(items, state),
            PageType::Input { items, .. } => render_input(items),
            PageType::Settings { items, .. } => render_inputs(items),
        };
        let icon: Option<(String, FlowChain)> = match self {
            PageType::Display { branch: Some(b), .. } => Some((b.0.clone(), b.1.build())),
            _ => None,
        };
        let title = self.name();
        let offset = match self {
            PageType::Display { offset, .. } => *offset,
            _ => Offset::Start,
        };
        let bumper = match self {
            PageType::Display { bumper, .. } => bumper,
            PageType::Input { bumper, .. } => bumper,
            PageType::Settings { bumper, .. } => bumper,
        };
        let (header, control) = match bumper {
            Bumper::Custom { label, action, secondary } => (
                Header::MidFlow { icon },
                ControlBar::Custom {
                    label: label.clone(),
                    action: action.clone(),
                    secondary: match secondary {
                        Some(s) => Some((s.0.clone(), s.1.clone())),
                        None => None,
                    },
                    gates,
                },
            ),
            Bumper::Default => match next {
                Some(n) => (Header::MidFlow { icon }, ControlBar::Forward { next: n, gates }),
                None => (Header::Terminal, ControlBar::Terminal { gates, steps: position }),
            },
            Bumper::Done => (Header::Terminal, ControlBar::Terminal { gates, steps: position }),
            Bumper::Absent => (Header::MidFlow { icon }, ControlBar::Absent),
        };
        let r = RenderedPage { title, offset, content, header, control, position };
        proof {
            assert(r@ =~= spec_render(self@, position as int, nextv, state@));
        }
        r
    }

    /// A success page: a large icon, a centered heading, and a flow-terminal
    /// action bar.
    pub fn success(title: &str, icon: &str, text: &str) -> (r: Self)
        ensures
            r@ == (PageTypeV::Display {
                title: title@,
                items: seq![
                    DisplayV::Icon { icon: icon@ },
                    DisplayV::Text {
                        text: text@,
                        size: TextSize::H4,
                        style: TextStyle::Heading,
                        align: Align::Center,
                    },
                ],
                branch: None,
                bumper: BumperV::Done,
                offset: Offset::Center,
            }),
    {
        let mut items: Vec<Display> = Vec::new();
        items.push(Display::icon(icon));
        items.push(
            Display::Text {
                text: text.to_owned(),
                size: TextSize::H4,
                style: TextStyle::Heading,
                align: Align::Center,
            },
        );
        let r = PageType::Display {
            title: title.to_owned(),
            items,
            branch: None,
            bumper: Bumper::Done,
            offset: Offset::Center,
        };
        proof {
            assert(r@->Display_items =~= seq![
                DisplayV::Icon { icon: icon@ },
                DisplayV::Text {
                    text: text@,
                    size: TextSize::H4,
                    style: TextStyle::Heading,
                    align: Align::Center,
                },
            ]);
        }
        r
    }

    /// A review page: display content with the default "continue" bumper.
    pub fn review(title: &str, items: Vec<Display>) -> (r: Self)
        ensures
            r@ == (PageTypeV::Display {
                title: title@,
                items: display_views(items@),
                branch: None,
                bumper: BumperV::Default,
                offset: Offset::Start,
            }),
    {
        PageType::Display {
            title: title.to_owned(),
            items,
            branch: None,
            bumper: Bumper::Default,
            offset: Offset::Start,
        }
    }

    /// A page with a single input widget.
    pub fn input(title: &str, items: Input, bumper: Bumper) -> (r: Self)
        ensures
            r@ == (PageTypeV::Input { title: title@, items: items@, bumper: bumper@ }),
    {
        PageType::Input { title: title.to_owned(), items, bumper }
    }

    /// A display page.
    pub fn display(
        title: &str,
        items: Vec<Display>,
        branch: Option<(String, Flow)>,
        bumper: Bumper,
        offset: Offset,
    ) -> (r: Self)
        ensures
            r@ == (PageTypeV::Display {
                title: title@,
                items: display_views(items@),
                branch: match branch {
                    Some(b) => Some((b.0@, b.1@)),
                    None => None,
                },
                bumper: bumper@,
                offset,
            }),
    {
        PageType::Display { title: title.to_owned(), items, branch, bumper, offset }
    }

    /// A settings page: an editable avatar followed by one text field per
    /// entry of `text_fields`, each `(label, tag, check)`. The fields' checks
    /// are conjoined into the page's aggregate gate.
    pub fn settings(
        title: &str,
        avatar: AvatarContent,
        text_fields: Vec<(String, String, ValidityGate)>,
        bumper: Bumper,
    ) -> (r: Self)
        ensures
            r@ == (PageTypeV::Settings {
                title: title@,
                items: seq![
                    InputV::Avatar {
                        content: avatar@,
                        flair: Some(("edit"@, AvatarIconStyle::Secondary)),
                        action: Some(ActionV::SelectImage),
                    },
                ] + Seq::new(
                    text_fields@.len(),
                    |i: int| InputV::Text {
                        label: text_fields@[i].0@,
                        actions: None,
                        tag: text_fields@[i].1@,
                        check: text_fields@[i].2@,
                    },
                ),
                bumper: bumper@,
            }),
    {
        let mut items: Vec<Input> = Vec::new();
        items.push(
            Input::avatar(
                avatar,
                Some(("edit".to_owned(), AvatarIconStyle::Secondary)),
                Some(Action::SelectImage),
            ),
        );
        let mut i: usize = 0;
        while i < text_fields.len()
            invariant
                i <= text_fields@.len(),
                items@.len() == i + 1,
                forall|j: int| 1 <= j < i + 1 ==> (#[trigger] items@[j])@ == (InputV::Text {
                    label: text_fields@[j - 1].0@,
                    actions: None,
                    tag: text_fields@[j - 1].1@,
                    check: text_fields@[j - 1].2@,
                }),
                items@[0]@ == (InputV::Avatar {
                    content: avatar@,
                    flair: Some(("edit"@, AvatarIconStyle::Secondary)),
                    action: Some(ActionV::SelectImage),
                }),
            decreases text_fields@.len() - i,
        {
            let field = &text_fields[i];
            items.push(
                Input::text(field.0.as_str(), None, field.1.as_str(), field.2.clone()),
            );
            i = i + 1;
        }
        let r = PageType::Settings { title: title.to_owned(), items, bumper };
        proof {
            assert(r@->Settings_items =~= seq![
                InputV::Avatar {
                    content: avatar@,
                    flair: Some(("edit"@, AvatarIconStyle::Secondary)),
                    action: Some(ActionV::SelectImage),
                },
            ] + Seq::new(
                text_fields@.len(),
                |i: int| InputV::Text {
                    label: text_fields@[i].0@,
                    actions: None,
                    tag: text_fields@[i].1@,
                    check: text_fields@[i].2@,
                },
            ));
        }
        r
    }
}

/// What running an action appends to the session log: share, image-pick,
/// custom and idle actions are recorded as owed to the host; a navigation
/// action builds its flow and invokes the entry point.
pub open spec fn spec_run_action(a: ActionV, s: Map<Seq<char>, Seq<char>>) -> Seq<EventV> {
    match a {
        ActionV::Share { data } => seq![EventV::Shared { data }],
        ActionV::SelectImage => seq![EventV::ImageSelected],
        ActionV::Custom { label } => seq![EventV::CustomRan { label }],
        ActionV::Idle => seq![EventV::Idle],
        ActionV::Navigate { flow } => spec_entry_log(spec_build(flow), s),
    }
}

impl Action {
    /// Runs the action against the session: host-owed effects are recorded in
    /// the log; navigation enters the flow. The state is only read.
    pub fn run(&self, ctx: &mut Ctx)
        ensures
            final(ctx)@.state == old(ctx)@.state,
            final(ctx)@.log == old(ctx)@.log + spec_run_action(self@, old(ctx)@.state),
    {
        match self {
            Action::Share { data } => {
                ctx.record(Event::Shared { data: data.clone() });
            },
            Action::SelectImage => {
                ctx.record(Event::ImageSelected);
            },
            Action::Custom { label } => {
                ctx.record(Event::CustomRan { label: label.clone() });
            },
            Action::Idle => {
                ctx.record(Event::Idle);
            },
            Action::Navigate { flow } => {
                let chain = flow.build();
                chain.entry(ctx);
            },
        }
        proof {
            assert(ctx@.log =~= old(ctx)@.log + spec_run_action(self@, old(ctx)@.state));
        }
    }
}

/// What activating a page's primary control does under a given state: a
/// gated control does nothing at all while its gates do not hold; an enabled
/// forward control invokes the successor continuation; an enabled terminal
/// control closes the flow; an enabled custom control runs the caller's
/// action; a root control enters its flow, ungated. The second component says
/// whether the control fired.
pub open spec fn spec_activate_primary(p: RenderedPageV, s: Map<Seq<char>, Seq<char>>) -> (
    Seq<EventV>,
    bool,
) {
    match p.control {
        ControlBarV::Forward { next, gates } => if gates_hold(gates, s) && next.index
            < next.chain.nodes.len() {
            (spec_invoke_log(next.chain, next.index, s), true)
        } else {
            (Seq::empty(), false)
        },
        ControlBarV::Terminal { gates, .. } => if gates_hold(gates, s) {
            (seq![EventV::Closed], true)
        } else {
            (Seq::empty(), false)
        },
        ControlBarV::Custom { action, gates, .. } => if gates_hold(gates, s) {
            (spec_run_action(action, s), true)
        } else {
            (Seq::empty(), false)
        },
        ControlBarV::Root { primary, .. } => (spec_entry_log(primary.1, s), true),
        ControlBarV::Absent => (Seq::empty(), false),
    }
}

/// What activating a page's secondary control does: a custom bumper's
/// secondary action runs ungated; a root's second entry control enters its
/// flow; no other page has one.
pub open spec fn spec_activate_secondary(p: RenderedPageV, s: Map<Seq<char>, Seq<char>>) -> (
    Seq<EventV>,
    bool,
) {
    match p.control {
        ControlBarV::Custom { secondary: Some(sec), .. } => (spec_run_action(sec.1, s), true),
        ControlBarV::Root { secondary: Some(sec), .. } => (spec_entry_log(sec.1, s), true),
        _ => (Seq::empty(), false),
    }
}

/// What activating a page's header icon does: a mid-flow branch affordance
/// enters its sub-chain; a root header icon runs its action.
pub open spec fn spec_activate_header(p: RenderedPageV, s: Map<Seq<char>, Seq<char>>) -> (
    Seq<EventV>,
    bool,
) {
    match p.header {
        HeaderV::MidFlow { icon: Some(ic) } => (spec_entry_log(ic.1, s), true),
        HeaderV::Home { icon: Some(ic) } => (spec_run_action(ic.1, s), true),
        _ => (Seq::empty(), false),
    }
}

impl RenderedPage {
    /// Attempts to activate the page's primary control: the user gesture on
    /// "continue", "done", a custom action, or a root entry button. The gates
    /// are re-evaluated against the live state; while they do not hold, the
    /// control cannot fire and the session is left untouched.
    pub fn activate_primary(&self, ctx: &mut Ctx) -> (fired: bool)
        ensures
            final(ctx)@.state == old(ctx)@.state,
            final(ctx)@.log == old(ctx)@.log + spec_activate_primary(self@, old(ctx)@.state).0,
            fired == spec_activate_primary(self@, old(ctx)@.state).1,
    {
        let fired = match &self.control {
            ControlBar::Forward { next, gates } => {
                if check_all(gates, &ctx.state) && next.index < next.chain.len() {
                    next.chain.invoke(next.index, ctx);
                    true
                } else {
                    false
                }
            },
            ControlBar::Terminal { gates, .. } => {
                if check_all(gates, &ctx.state) {
                    ctx.record(Event::Closed);
                    true
                } else {
                    false
                }
            },
            ControlBar::Custom { action, gates, .. } => {
                if check_all(gates, &ctx.state) {
                    action.run(ctx);
                    true
                } else {
                    false
                }
            },
            ControlBar::Root { primary, .. } => {
                primary.1.entry(ctx);
                true
            },
            ControlBar::Absent => false,
        };
        proof {
            assert(ctx@.log =~= old(ctx)@.log + spec_activate_primary(self@, old(ctx)@.state).0);
        }
        fired
    }

    /// Attempts to activate the page's secondary control; it is ungated.
    pub fn activate_secondary(&self, ctx: &mut Ctx) -> (fired: bool)
        ensures
            final(ctx)@.state == old(ctx)@.state,
            final(ctx)@.log == old(ctx)@.log + spec_activate_secondary(self@, old(ctx)@.state).0,
            fired == spec_activate_secondary(self@, old(ctx)@.state).1,
    {
        let fired = match &self.control {
            ControlBar::Custom { secondary: Some(sec), .. } => {
                sec.1.run(ctx);
                true
            },
            ControlBar::Root { secondary: Some(sec), .. } => {
                sec.1.entry(ctx);
                true
            },
            _ => false,
        };
        proof {
            assert(ctx@.log =~= old(ctx)@.log + spec_activate_secondary(
                self@,
                old(ctx)@.state,
            ).0);
        }
        fired
    }

    /// Attempts to activate the page's header icon.
    pub fn activate_header(&self, ctx: &mut Ctx) -> (fired: bool)
        ensures
            final(ctx)@.state == old(ctx)@.state,
            final(ctx)@.log == old(ctx)@.log + spec_activate_header(self@, old(ctx)@.state).0,
            fired == spec_activate_header(self@, old(ctx)@.state).1,
    {
        let fired = match &self.header {
            Header::MidFlow { icon: Some(ic) } => {
                ic.1.entry(ctx);
                true
            },
            Header::Home { icon: Some(ic) } => {
                ic.1.run(ctx);
                true
            },
            _ => false,
        };
        proof {
            assert(ctx@.log =~= old(ctx)@.log + spec_activate_header(self@, old(ctx)@.state).0);
        }
        fired
    }
}

/// A (label, flow) pair for a root screen's primary action: materializing it
/// builds the flow's entry point.
pub struct RootBumper {
    pub label: String,
    pub flow: Flow,
}

/// Mathematical view of a `RootBumper`.
pub ghost struct RootBumperV {
    pub label: Seq<char>,
    pub flow: FlowV,
}

impl View for RootBumper {
    type V = RootBumperV;

    open spec fn view(&self) -> RootBumperV {
        RootBumperV { label: self.label@, flow: self.flow@ }
    }
}

impl Clone for RootBumper {
    fn clone(&self) -> (r: Self)
        ensures
            r@ == self@,
    {
        RootBumper { label: self.label.clone(), flow: self.flow.clone() }
    }
}

impl RootBumper {
    /// A root action offering entry into `flow` under `label`.
    pub fn new(label: &str, flow: Flow) -> (r: Self)
        ensures
            r@ == (RootBumperV { label: label@, flow: flow@ }),
    {
        RootBumper { label: label.to_owned(), flow }
    }

    /// Materializes the pair: the label and the flow's built entry chain.
    /// Repeated materializations yield equivalent, distinct chains.
    pub fn get(&self) -> (r: (String, FlowChain))
        ensures
            r.0@ == self@.label,
            r.1@ == spec_build(self@.flow),
    {
        (self.label.clone(), self.flow.build())
    }
}

/// The entry screen of a top-level section: always terminal, with up to two
/// primary actions offering entry into flows.
pub struct RootPage {
    pub title: String,
    pub content: Vec<Display>,
    pub header_icon: Option<(String, Action)>,
    pub bumper: (RootBumper, Option<RootBumper>),
}

/// Mathematical view of a `RootPage`.
pub ghost struct RootPageV {
    pub title: Seq<char>,
    pub content: Seq<DisplayV>,
    pub header_icon: Option<(Seq<char>, ActionV)>,
    pub bumper: (RootBumperV, Option<RootBumperV>),
}

impl View for RootPage {
    type V = RootPageV;

    open spec fn view(&self) -> RootPageV {
        RootPageV {
            title: self.title@,
            content: display_views(self.content@),
            header_icon: match &self.header_icon {
                Some(p) => Some((p.0@, p.1@)),
                None => None,
            },
            bumper: (
                self.bumper.0@,
                match &self.bumper.1 {
                    Some(b) => Some(b@),
                    None => None,
                },
            ),
        }
    }
}

/// What materializing a root screen yields. The content offset rule: a screen
/// whose first block is an empty list centers its content, one leading with a
/// populated list starts at the top, and otherwise a screen with at most one
/// rendered block centers it.
pub open spec fn spec_render_root(r: RootPageV, s: Map<Seq<char>, Seq<char>>) -> RenderedPageV {
    let rendered = spec_render_displays(r.content, s);
    let offset = if r.content.len() > 0 && r.content[0] is List {
        if r.content[0]->List_items.len() == 0 {
            Offset::Center
        } else {
            Offset::Start
        }
    } else if rendered.len() <= 1 {
        Offset::Center
    } else {
        Offset::Start
    };
    RenderedPageV {
        title: r.title,
        offset,
        content: rendered,
        header: HeaderV::Home { icon: r.header_icon },
        control: ControlBarV::Root {
            primary: (r.bumper.0.label, spec_build(r.bumper.0.flow)),
            secondary: match r.bumper.1 {
                Some(b) => Some((b.label, spec_build(b.flow))),
                None => None,
            },
        },
        position: 0,
    }
}

impl RootPage {
    /// A root screen.
    pub fn new(
        title: &str,
        content: Vec<Display>,
        header_icon: Option<(String, Action)>,
        bumper_a: RootBumper,
        bumper_b: Option<RootBumper>,
    ) -> (r: Self)
        ensures
            r@ == (RootPageV {
                title: title@,
                content: display_views(content@),
                header_icon: match header_icon {
                    Some(p) => Some((p.0@, p.1@)),
                    None => None,
                },
                bumper: (
                    bumper_a@,
                    match bumper_b {
                        Some(b) => Some(b@),
                        None => None,
                    },
                ),
            }),
    {
        RootPage { title: title.to_owned(), content, header_icon, bumper: (bumper_a, bumper_b) }
    }

    /// The screen's title.
    pub fn name(&self) -> (r: String)
        ensures
            r@ == self@.title,
    {
        self.title.clone()
    }

    /// Materializes the root screen against the current state. Roots are
    /// rebuilt rather than patched: building again after the state changed
    /// resolves fresh content and fresh entry chains.
    pub fn build(&self, state: &StateStore) -> (r: RenderedPage)
        ensures
            r@ == spec_render_root(self@, state@),
    {
        let content = render_displays(&self.content, state);
        let offset = if self.content.len() > 0 {
            match &self.content[0] {
                Display::List { items, .. } => {
                    proof {
                        assert(self@.content[0] == view_display(self.content@[0]));
                    }
                    if items.len() == 0 {
                        Offset::Center
                    } else {
                        Offset::Start
                    }
                },
                _ => {
                    proof {
                        assert(self@.content[0] == view_display(self.content@[0]));
                    }
                    if content.len() <= 1 {
                        Offset::Center
                    } else {
                        Offset::Start
                    }
                },
            }
        } else {
            if content.len() <= 1 {
                Offset::Center
            } else {
                Offset::Start
            }
        };
        let header = Header::Home {
            icon: match &self.header_icon {
                Some(p) => Some((p.0.clone(), p.1.clone())),
                None => None,
            },
        };
        let primary = self.bumper.0.get();
        let secondary = match &self.bumper.1 {
            Some(b) => Some(b.get()),
            None => None,
        };
        let control = ControlBar::Root { primary, secondary };
        let r = RenderedPage {
            title: self.title.clone(),
            offset,
            content,
            header,
            control,
            position: 0,
        };
        proof {
            assert(r@ =~= spec_render_root(self@, state@));
        }
        r
    }
}

/// Content of a root's tab button: an icon or an avatar.
pub enum RootContent {
    Icon { name: String },
    Avatar { content: AvatarContent },
}

/// Mathematical view of a `RootContent`.
pub ghost enum RootContentV {
    Icon { name: Seq<char> },
    Avatar { content: AvatarContentV },
}

impl View for RootContent {
    type V = RootContentV;

    open spec fn view(&self) -> RootContentV {
        match self {
            RootContent::Icon { name } => RootContentV::Icon { name: name@ },
            RootContent::Avatar { content } => RootContentV::Avatar { content: content@ },
        }
    }
}

impl RootContent {
    /// A tab button showing a named icon.
    pub fn icon(name: &str) -> (r: Self)
        ensures
            r@ == (RootContentV::Icon { name: name@ }),
    {
        RootContent::Icon { name: name.to_owned() }
    }

    /// A tab button showing an avatar.
    pub fn avatar(content: AvatarContent) -> (r: Self)
        ensures
            r@ == (RootContentV::Avatar { content: content@ }),
    {
        RootContent::Avatar { content }
    }
}

/// A top-level section: its tab button content and its root screen.
pub struct Root {
    pub content: RootContent,
    pub page: RootPage,
}

/// Mathematical view of a `Root`.
pub ghost struct RootV {
    pub content: RootContentV,
    pub page: RootPageV,
}

impl View for Root {
    type V = RootV;

    open spec fn view(&self) -> RootV {
        RootV { content: self.content@, page: self.page@ }
    }
}

impl Root {
    /// A top-level section.
    pub fn new(content: RootContent, page: RootPage) -> (r: Self)
        ensures
            r@ == (RootV { content: content@, page: page@ }),
    {
        Root { content, page }
    }
}

} // verus!
