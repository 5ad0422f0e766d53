//! Small content descriptors: text metrics, avatars, table rows, selector
//! options, checklist entries, list rows, and the `Source` of a displayed
//! datum (a literal, or a named slot of the session state resolved at the
//! moment a page is materialized).

use vstd::prelude::*;

use crate::state::StateStore;

verus! {

/// Vertical placement of a page's content.
#[derive(Clone, Copy, PartialEq, Eq, Structural, Debug)]
pub enum Offset {
    Start,
    Center,
}

/// Text size of a displayed text block.
#[derive(Clone, Copy, PartialEq, Eq, Structural, Debug)]
pub enum TextSize {
    H1,
    H2,
    H3,
    H4,
    H5,
    H6,
    Lg,
    Md,
    Sm,
}

/// Text colour role of a displayed text block.
#[derive(Clone, Copy, PartialEq, Eq, Structural, Debug)]
pub enum TextStyle {
    Heading,
    Primary,
    Secondary,
}

/// Horizontal alignment of a displayed text block.
#[derive(Clone, Copy, PartialEq, Eq, Structural, Debug)]
pub enum Align {
    Left,
    Center,
    Right,
}

/// Style of the small icon overlaid on an avatar.
#[derive(Clone, Copy, PartialEq, Eq, Structural, Debug)]
pub enum AvatarIconStyle {
    Brand,
    Secondary,
}

/// Content of an avatar: a named icon or a named image resource.
pub enum AvatarContent {
    Icon { name: String, style: AvatarIconStyle },
    Image { source: String },
}

/// Mathematical view of an `AvatarContent`.
pub ghost enum AvatarContentV {
    Icon { name: Seq<char>, style: AvatarIconStyle },
    Image { source: Seq<char> },
}

impl View for AvatarContent {
    type V = AvatarContentV;

    open spec fn view(&self) -> AvatarContentV {
        match self {
            AvatarContent::Icon { name, style } => AvatarContentV::Icon {
                name: name@,
                style: *style,
            },
            AvatarContent::Image { source } => AvatarContentV::Image { source: source@ },
        }
    }
}

impl Clone for AvatarContent {
    fn clone(&self) -> (r: Self)
        ensures
            r@ == self@,
    {
        match self {
            AvatarContent::Icon { name, style } => AvatarContent::Icon {
                name: name.clone(),
                style: *style,
            },
            AvatarContent::Image { source } => AvatarContent::Image { source: source.clone() },
        }
    }
}

impl AvatarContent {
    /// An avatar showing a named icon.
    pub fn icon(name: &str, style: AvatarIconStyle) -> (r: Self)
        ensures
            r@ == (AvatarContentV::Icon { name: name@, style }),
    {
        AvatarContent::Icon { name: name.to_owned(), style }
    }

    /// An avatar showing a named image resource.
    pub fn image(source: &str) -> (r: Self)
        ensures
            r@ == (AvatarContentV::Image { source: source@ }),
    {
        AvatarContent::Image { source: source.to_owned() }
    }
}

/// Where a displayed datum comes from: a literal string, or the latest value
/// of a named slot of the session state, read when the page is materialized.
pub enum Source {
    Lit { text: String },
    Slot { tag: String },
}

/// Mathematical view of a `Source`.
pub ghost enum SourceV {
    Lit { text: Seq<char> },
    Slot { tag: Seq<char> },
}

impl SourceV {
    /// What a source resolves to against a given state: a literal resolves to
    /// itself; a slot resolves to its latest value, or to the empty string if
    /// the slot was never written (the deliberate silent-miss policy).
    pub open spec fn resolve(self, state: Map<Seq<char>, Seq<char>>) -> Seq<char> {
        match self {
            SourceV::Lit { text } => text,
            SourceV::Slot { tag } => if state.contains_key(tag) {
                state[tag]
            } else {
                Seq::empty()
            },
        }
    }
}

impl View for Source {
    type V = SourceV;

    open spec fn view(&self) -> SourceV {
        match self {
            Source::Lit { text } => SourceV::Lit { text: text@ },
            Source::Slot { tag } => SourceV::Slot { tag: tag@ },
        }
    }
}

impl Clone for Source {
    fn clone(&self) -> (r: Self)
        ensures
            r@ == self@,
    {
        match self {
            Source::Lit { text } => Source::Lit { text: text.clone() },
            Source::Slot { tag } => Source::Slot { tag: tag.clone() },
        }
    }
}

impl Source {
    /// A literal datum.
    pub fn lit(text: &str) -> (r: Self)
        ensures
            r@ == (SourceV::Lit { text: text@ }),
    {
        Source::Lit { text: text.to_owned() }
    }

    /// A datum read from a named slot of the session state at materialization
    /// time.
    pub fn slot(tag: &str) -> (r: Self)
        ensures
            r@ == (SourceV::Slot { tag: tag@ }),
    {
        Source::Slot { tag: tag.to_owned() }
    }

    /// Resolves the source against the current state.
    pub fn resolve(&self, state: &StateStore) -> (r: String)
        ensures
            r@ == self@.resolve(state@),
    {
        match self {
            Source::Lit { text } => text.clone(),
            Source::Slot { tag } => state.get_named_or_default(tag.as_str()),
        }
    }
}

/// One row of a data table: a row title and the datum shown beside it.
pub struct TableItem {
    pub title: String,
    pub data: Source,
}

/// Mathematical view of a `TableItem`.
pub ghost struct TableItemV {
    pub title: Seq<char>,
    pub data: SourceV,
}

impl View for TableItem {
    type V = TableItemV;

    open spec fn view(&self) -> TableItemV {
        TableItemV { title: self.title@, data: self.data@ }
    }
}

impl Clone for TableItem {
    fn clone(&self) -> (r: Self)
        ensures
            r@ == self@,
    {
        TableItem { title: self.title.clone(), data: self.data.clone() }
    }
}

impl TableItem {
    /// A row with a literal datum.
    pub fn new(title: &str, data: &str) -> (r: Self)
        ensures
            r@ == (TableItemV { title: title@, data: SourceV::Lit { text: data@ } }),
    {
        TableItem { title: title.to_owned(), data: Source::lit(data) }
    }

    /// A row whose datum is read from a named state slot at materialization
    /// time.
    pub fn slot(title: &str, tag: &str) -> (r: Self)
        ensures
            r@ == (TableItemV { title: title@, data: SourceV::Slot { tag: tag@ } }),
    {
        TableItem { title: title.to_owned(), data: Source::slot(tag) }
    }
}

/// One option of an exclusive selector: a title and a description.
pub struct EnumItem {
    pub title: String,
    pub data: String,
}

/// Mathematical view of an `EnumItem`.
pub ghost struct EnumItemV {
    pub title: Seq<char>,
    pub data: Seq<char>,
}

impl View for EnumItem {
    type V = EnumItemV;

    open spec fn view(&self) -> EnumItemV {
        EnumItemV { title: self.title@, data: self.data@ }
    }
}

impl Clone for EnumItem {
    fn clone(&self) -> (r: Self)
        ensures
            r@ == self@,
    {
        EnumItem { title: self.title.clone(), data: self.data.clone() }
    }
}

impl EnumItem {
    /// A selector option.
    pub fn new(title: &str, data: &str) -> (r: Self)
        ensures
            r@ == (EnumItemV { title: title@, data: data@ }),
    {
        EnumItem { title: title.to_owned(), data: data.to_owned() }
    }
}

/// One entry of a checklist: a title, an optional subtitle, and whether it
/// starts out selected.
pub struct ChecklistItem {
    pub title: String,
    pub subtitle: Option<String>,
    pub is_selected: bool,
}

/// Mathematical view of a `ChecklistItem`.
pub ghost struct ChecklistItemV {
    pub title: Seq<char>,
    pub subtitle: Option<Seq<char>>,
    pub is_selected: bool,
}

impl View for ChecklistItem {
    type V = ChecklistItemV;

    open spec fn view(&self) -> ChecklistItemV {
        ChecklistItemV {
            title: self.title@,
            subtitle: match self.subtitle {
                Some(s) => Some(s@),
                None => None,
            },
            is_selected: self.is_selected,
        }
    }
}

impl Clone for ChecklistItem {
    fn clone(&self) -> (r: Self)
        ensures
            r@ == self@,
    {
        ChecklistItem {
            title: self.title.clone(),
            subtitle: match &self.subtitle {
                Some(s) => Some(s.clone()),
                None => None,
            },
            is_selected: self.is_selected,
        }
    }
}

impl ChecklistItem {
    /// A checklist entry.
    pub fn new(title: &str, subtitle: Option<&str>, is_selected: bool) -> (r: Self)
        ensures
            r@ == (ChecklistItemV {
                title: title@,
                subtitle: match subtitle {
                    Some(s) => Some(s@),
                    None => None,
                },
                is_selected,
            }),
    {
        ChecklistItem {
            title: title.to_owned(),
            subtitle: match subtitle {
                Some(s) => Some(s.to_owned()),
                None => None,
            },
            is_selected,
        }
    }
}

/// One row of a list section: an optional avatar, a title and subtitle shown
/// on the left, and an optional secondary datum shown on the right.
pub struct ListItem {
    pub avatar: Option<AvatarContent>,
    pub title: String,
    pub subtitle: String,
    pub secondary: Option<String>,
}

/// Mathematical view of a `ListItem`.
pub ghost struct ListItemV {
    pub avatar: Option<AvatarContentV>,
    pub title: Seq<char>,
    pub subtitle: Seq<char>,
    pub secondary: Option<Seq<char>>,
}

impl View for ListItem {
    type V = ListItemV;

    open spec fn view(&self) -> ListItemV {
        ListItemV {
            avatar: match &self.avatar {
                Some(a) => Some(a@),
                None => None,
            },
            title: self.title@,
            subtitle: self.subtitle@,
            secondary: match self.secondary {
                Some(s) => Some(s@),
                None => None,
            },
        }
    }
}

impl Clone for ListItem {
    fn clone(&self) -> (r: Self)
        ensures
            r@ == self@,
    {
        ListItem {
            avatar: match &self.avatar {
                Some(a) => Some(a.clone()),
                None => None,
            },
            title: self.title.clone(),
            subtitle: self.subtitle.clone(),
            secondary: match &self.secondary {
                Some(s) => Some(s.clone()),
                None => None,
            },
        }
    }
}

impl ListItem {
    /// A row without an avatar.
    pub fn plain(title: &str, subtitle: &str, secondary: Option<&str>, _tag: &str) -> (r: Self)
        ensures
            r@ == (ListItemV {
                avatar: None,
                title: title@,
                subtitle: subtitle@,
                secondary: match secondary {
                    Some(s) => Some(s@),
                    None => None,
                },
            }),
    {
        ListItem {
            avatar: None,
            title: title.to_owned(),
            subtitle: subtitle.to_owned(),
            secondary: match secondary {
                Some(s) => Some(s.to_owned()),
                None => None,
            },
        }
    }

    /// A row with an avatar.
    pub fn avatar(
        avatar: AvatarContent,
        title: &str,
        subtitle: &str,
        secondary: Option<&str>,
        _tag: &str,
    ) -> (r: Self)
        ensures
            r@ == (ListItemV {
                avatar: Some(avatar@),
                title: title@,
                subtitle: subtitle@,
                secondary: match secondary {
                    Some(s) => Some(s@),
                    None => None,
                },
            }),
    {
        ListItem {
            avatar: Some(avatar),
            title: title.to_owned(),
            subtitle: subtitle.to_owned(),
            secondary: match secondary {
                Some(s) => Some(s.to_owned()),
                None => None,
            },
        }
    }
}

} // verus!
