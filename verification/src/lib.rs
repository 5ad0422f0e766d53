//! A declarative engine for multi-step, form-like user workflows.
//!
//! A workflow ("flow") is an ordered sequence of page descriptions. Building
//! a flow yields a chain of navigation continuations: each page's "continue"
//! control already owns a ready-to-invoke action that renders the next page
//! and pushes it onto the navigation stack. Forward navigation is gated by
//! validity predicates over the session state, and a flow may carry a submit
//! side effect that fires exactly once, on the transition into its final page.
//!
//! Rendering is delegated to a host toolkit: this crate only produces
//! declarative descriptors (`RenderedPage`, `ContentNode`) and records every
//! navigation push and side effect in an explicit session context (`Ctx`),
//! which is what the correctness statements are about.

pub mod flow;
pub mod gate;
pub mod items;
pub mod laws;
pub mod pages;
pub mod state;
pub mod structs;

pub use crate::flow::{FlowChain, NavigationContinuation};
pub use crate::gate::{parse_currency, ValidityFn, ValidityGate};
pub use crate::items::{
    Align, AvatarContent, AvatarIconStyle, ChecklistItem, EnumItem, ListItem, Offset, Source,
    TableItem, TextSize, TextStyle,
};
pub use crate::pages::{
    ContentNode, ControlBar, Header, RenderedPage, Root, RootBumper, RootContent, RootPage,
};
pub use crate::state::{AllProjects, Ctx, CurrentProject, Event, Project, StateStore};
pub use crate::structs::{Action, Bumper, Display, Flow, Input, PageType, SideEffect};
