//! The session state store: named string slots written by input widgets and
//! read back by validity gates and by content materialization.
//!
//! The store is an append-only log of `(tag, value)` pairs; a lookup returns
//! the most recent value written under a tag. Its mathematical view is the
//! map from tags to their latest values.

use vstd::prelude::*;

use crate::items::{AvatarContent, AvatarContentV, AvatarIconStyle};
use crate::pages::{RenderedPage, RenderedPageV};

verus! {

/// Whether two string slices hold the same characters.
fn str_eq(a: &str, b: &str) -> (r: bool)
    ensures
        r == (a@ == b@),
{
    let na = a.unicode_len();
    let nb = b.unicode_len();
    if na != nb {
        return false;
    }
    let mut i: usize = 0;
    while i < na
        invariant
            i <= na,
            na == a@.len(),
            na == b@.len(),
            forall|j: int| 0 <= j < i ==> a@[j] == b@[j],
        decreases na - i,
    {
        if a.get_char(i) != b.get_char(i) {
            return false;
        }
        i = i + 1;
    }
    proof {
        assert(a@ =~= b@);
    }
    true
}

/// A process-local store of named string slots.
///
/// Input widgets echo the text typed into them under a string tag; gates and
/// page materialization read those echoes. A lookup of a tag that was never
/// written is not an error: it returns `None`, and callers that need a value
/// fall back to a default.
pub struct StateStore {
    entries: Vec<(String, String)>,
}

/// The map described by an entry log: later entries win.
pub open spec fn map_of(entries: Seq<(String, String)>) -> Map<Seq<char>, Seq<char>>
    decreases entries.len(),
{
    if entries.len() == 0 {
        Map::empty()
    } else {
        map_of(entries.drop_last()).insert(entries.last().0@, entries.last().1@)
    }
}

impl View for StateStore {
    type V = Map<Seq<char>, Seq<char>>;

    closed spec fn view(&self) -> Map<Seq<char>, Seq<char>> {
        map_of(self.entries@)
    }
}

/// If no entry at or after index `i` has the key `tag`, the store's map
/// agrees at `tag` with the map of the first `i` entries.
proof fn lemma_map_of_scan(entries: Seq<(String, String)>, tag: Seq<char>, i: int)
    requires
        0 <= i <= entries.len(),
        forall|j: int| i <= j < entries.len() ==> (#[trigger] entries[j].0)@ != tag,
    ensures
        map_of(entries).contains_key(tag) == map_of(entries.take(i)).contains_key(tag),
        map_of(entries).contains_key(tag) ==> map_of(entries)[tag] == map_of(entries.take(i))[tag],
    decreases entries.len() - i,
{
    if i < entries.len() {
        lemma_map_of_scan(entries, tag, i + 1);
        assert(entries.take(i + 1).drop_last() =~= entries.take(i));
        assert(entries.take(i + 1).last() == entries[i]);
    } else {
        assert(entries.take(i) =~= entries);
    }
}

impl StateStore {
    /// An empty store: no tag has a value.
    pub fn new() -> (s: Self)
        ensures
            s@ == Map::<Seq<char>, Seq<char>>::empty(),
    {
        StateStore { entries: Vec::new() }
    }

    /// Writes `value` under `tag`, replacing any earlier value.
    pub fn set_named(&mut self, tag: &str, value: &str)
        ensures
            final(self)@ == old(self)@.insert(tag@, value@),
    {
        let pair = (tag.to_owned(), value.to_owned());
        self.entries.push(pair);
        proof {
            assert(self.entries@.drop_last() =~= old(self).entries@);
        }
    }

    /// Reads the latest value written under `tag`, or `None` if the tag was
    /// never written.
    pub fn get_named(&self, tag: &str) -> (r: Option<String>)
        ensures
            match r {
                Some(v) => self@.contains_key(tag@) && v@ == self@[tag@],
                None => !self@.contains_key(tag@),
            },
    {
        let mut i = self.entries.len();
        while i > 0
            invariant
                i <= self.entries@.len(),
                forall|j: int| i <= j < self.entries@.len()
                    ==> (#[trigger] self.entries@[j].0)@ != tag@,
            decreases i,
        {
            let entry = &self.entries[i - 1];
            if str_eq(entry.0.as_str(), tag) {
                proof {
                    lemma_map_of_scan(self.entries@, tag@, i as int);
                    assert(self.entries@.take(i as int).drop_last()
                        =~= self.entries@.take(i - 1));
                    assert(self.entries@.take(i as int).last() == self.entries@[i - 1]);
                }
                return Some(entry.1.clone());
            }
            i = i - 1;
        }
        proof {
            lemma_map_of_scan(self.entries@, tag@, 0);
            assert(self.entries@.take(0) =~= Seq::<(String, String)>::empty());
        }
        None
    }

    /// Reads the latest value written under `tag`, or the empty string if the
    /// tag was never written. This is the deliberate silent-miss policy used
    /// by content materialization: a missing slot degrades to a default.
    pub fn get_named_or_default(&self, tag: &str) -> (r: String)
        ensures
            r@ == if self@.contains_key(tag@) {
                self@[tag@]
            } else {
                Seq::<char>::empty()
            },
    {
        match self.get_named(tag) {
            Some(v) => v,
            None => String::new(),
        }
    }
}

/// One entry of the session log: a page pushed onto the navigation stack, a
/// side effect owed to the host, or the closing of a flow. The log records,
/// in order, everything this engine did to the session.
pub enum Event {
    /// A page was materialized and pushed onto the navigation stack.
    Pushed { page: RenderedPage },
    /// The flow's submit side effect fired.
    Submitted { label: String },
    /// A datum was handed to the host's share facility.
    Shared { data: String },
    /// The host's image picker was opened.
    ImageSelected,
    /// A custom host side effect was triggered.
    CustomRan { label: String },
    /// A control that does nothing was triggered.
    Idle,
    /// A flow-terminal control closed its flow.
    Closed,
}

/// Mathematical view of an `Event`.
pub ghost enum EventV {
    Pushed { page: RenderedPageV },
    Submitted { label: Seq<char> },
    Shared { data: Seq<char> },
    ImageSelected,
    CustomRan { label: Seq<char> },
    Idle,
    Closed,
}

impl View for Event {
    type V = EventV;

    open spec fn view(&self) -> EventV {
        match self {
            Event::Pushed { page } => EventV::Pushed { page: page@ },
            Event::Submitted { label } => EventV::Submitted { label: label@ },
            Event::Shared { data } => EventV::Shared { data: data@ },
            Event::ImageSelected => EventV::ImageSelected,
            Event::CustomRan { label } => EventV::CustomRan { label: label@ },
            Event::Idle => EventV::Idle,
            Event::Closed => EventV::Closed,
        }
    }
}

/// The views of a sequence of events.
pub open spec fn event_views(s: Seq<Event>) -> Seq<EventV> {
    Seq::new(s.len(), |i: int| s[i]@)
}

/// The session context: the named state slots and the ordered log of what
/// the engine did. It is passed explicitly into every operation, so a test
/// can inject an isolated session.
pub struct Ctx {
    pub state: StateStore,
    pub log: Vec<Event>,
}

/// Mathematical view of a `Ctx`.
#[verifier::ext_equal]
pub ghost struct CtxV {
    pub state: Map<Seq<char>, Seq<char>>,
    pub log: Seq<EventV>,
}

impl View for Ctx {
    type V = CtxV;

    open spec fn view(&self) -> CtxV {
        CtxV { state: self.state@, log: event_views(self.log@) }
    }
}

/// The most recently pushed page of a log, if any.
pub open spec fn spec_last_pushed(log: Seq<EventV>) -> Option<RenderedPageV>
    decreases log.len(),
{
    if log.len() == 0 {
        None
    } else {
        match log.last() {
            EventV::Pushed { page } => Some(page),
            _ => spec_last_pushed(log.drop_last()),
        }
    }
}

/// A project shown by the example applications: an avatar and some metadata.
pub struct Project {
    pub avatar: AvatarContent,
    pub name: String,
    pub date: String,
    pub id: String,
}

/// Mathematical view of a `Project`.
pub ghost struct ProjectV {
    pub avatar: AvatarContentV,
    pub name: Seq<char>,
    pub date: Seq<char>,
    pub id: Seq<char>,
}

impl View for Project {
    type V = ProjectV;

    open spec fn view(&self) -> ProjectV {
        ProjectV { avatar: self.avatar@, name: self.name@, date: self.date@, id: self.id@ }
    }
}

impl Clone for Project {
    fn clone(&self) -> (r: Self)
        ensures
            r@ == self@,
    {
        Project {
            avatar: self.avatar.clone(),
            name: self.name.clone(),
            date: self.date.clone(),
            id: self.id.clone(),
        }
    }
}

impl Default for Project {
    /// The placeholder project.
    fn default() -> (r: Self)
        ensures
            r@ == (ProjectV {
                avatar: AvatarContentV::Icon { name: "home"@, style: AvatarIconStyle::Brand },
                name: "Orange"@,
                date: "11/23/2025"@,
                id: "projectid200"@,
            }),
    {
        Project {
            avatar: AvatarContent::icon("home", AvatarIconStyle::Brand),
            name: "Orange".to_owned(),
            date: "11/23/2025".to_owned(),
            id: "projectid200".to_owned(),
        }
    }
}

/// The project currently worked on.
pub struct CurrentProject {
    pub inner: Project,
}

impl View for CurrentProject {
    type V = ProjectV;

    open spec fn view(&self) -> ProjectV {
        self.inner@
    }
}

impl Clone for CurrentProject {
    fn clone(&self) -> (r: Self)
        ensures
            r@ == self@,
    {
        CurrentProject { inner: self.inner.clone() }
    }
}

impl Default for CurrentProject {
    /// Starts out as the placeholder project.
    fn default() -> (r: Self)
        ensures
            r@ == (ProjectV {
                avatar: AvatarContentV::Icon { name: "home"@, style: AvatarIconStyle::Brand },
                name: "Orange"@,
                date: "11/23/2025"@,
                id: "projectid200"@,
            }),
    {
        CurrentProject { inner: Project::default() }
    }
}

/// All projects known to the application.
pub struct AllProjects {
    pub inner: Vec<Project>,
}

impl View for AllProjects {
    type V = Seq<ProjectV>;

    open spec fn view(&self) -> Seq<ProjectV> {
        Seq::new(self.inner@.len(), |i: int| self.inner@[i]@)
    }
}

impl Default for AllProjects {
    /// Starts out holding just the placeholder project.
    fn default() -> (r: Self)
        ensures
            r@.len() == 1,
            r@[0] == (ProjectV {
                avatar: AvatarContentV::Icon { name: "home"@, style: AvatarIconStyle::Brand },
                name: "Orange"@,
                date: "11/23/2025"@,
                id: "projectid200"@,
            }),
    {
        let mut inner: Vec<Project> = Vec::new();
        inner.push(Project::default());
        AllProjects { inner }
    }
}

impl Ctx {
    /// A fresh session: empty state, empty log.
    pub fn new() -> (c: Self)
        ensures
            c@.state == Map::<Seq<char>, Seq<char>>::empty(),
            c@.log == Seq::<EventV>::empty(),
    {
        let c = Ctx { state: StateStore::new(), log: Vec::new() };
        proof {
            assert(c@.log =~= Seq::<EventV>::empty());
        }
        c
    }

    /// Appends one event to the log.
    pub fn record(&mut self, e: Event)
        ensures
            final(self)@.state == old(self)@.state,
            final(self)@.log == old(self)@.log.push(e@),
    {
        let ghost ev = e@;
        self.log.push(e);
        proof {
            assert(self@.log =~= old(self)@.log.push(ev));
        }
    }

    /// The most recently pushed page, cloned out of the log.
    pub fn last_pushed(&self) -> (r: Option<RenderedPage>)
        ensures
            match r {
                Some(p) => spec_last_pushed(self@.log) == Some(p@),
                None => spec_last_pushed(self@.log) is None,
            },
    {
        let mut i = self.log.len();
        proof {
            assert(event_views(self.log@).take(i as int) =~= event_views(self.log@));
        }
        while i > 0
            invariant
                i <= self.log@.len(),
                spec_last_pushed(event_views(self.log@).take(i as int)) == spec_last_pushed(
                    event_views(self.log@),
                ),
            decreases i,
        {
            proof {
                assert(event_views(self.log@).take(i as int).drop_last() =~= event_views(
                    self.log@,
                ).take(i - 1));
                assert(event_views(self.log@).take(i as int).last() == self.log@[i - 1]@);
            }
            match &self.log[i - 1] {
                Event::Pushed { page } => {
                    return Some(page.clone());
                },
                _ => (),
            }
            i = i - 1;
        }
        proof {
            assert(event_views(self.log@).take(0) =~= Seq::<EventV>::empty());
        }
        None
    }
}

} // verus!
