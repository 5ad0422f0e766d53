//! Settings pages (aggregate gates), content materialization edge cases, and
//! the root screen's offset rule.

use chk::{
    AvatarContent, AvatarIconStyle, Bumper, ChecklistItem, ContentNode, ControlBar, Ctx, Display,
    Flow, ListItem, Offset, PageType, RenderedPage, RootBumper, RootPage, Source, ValidityGate,
};

fn last_page(ctx: &Ctx) -> RenderedPage {
    ctx.last_pushed().expect("a page should have been pushed")
}

fn settings_page() -> PageType {
    PageType::settings(
        "Profile",
        AvatarContent::icon("profile", AvatarIconStyle::Brand),
        vec![
            (
                "Display name".to_string(),
                "NameTextInput".to_string(),
                ValidityGate::non_empty("NameTextInput"),
            ),
            (
                "Biography".to_string(),
                "BioTextInput".to_string(),
                ValidityGate::non_empty("BioTextInput"),
            ),
        ],
        Bumper::default(),
    )
}

#[test]
fn settings_aggregate_gate_is_and_not_or() {
    let mut ctx = Ctx::new();
    Flow::new(vec![settings_page()]).build().entry(&mut ctx);
    let page = last_page(&ctx);
    assert_eq!(page.title, "Profile");

    // neither field set: blocked
    assert!(!page.activate_primary(&mut ctx));

    // one field set: still blocked — the aggregate is a conjunction
    ctx.state.set_named("NameTextInput", "Alex");
    assert!(
        !page.activate_primary(&mut ctx),
        "one passing field must not enable the aggregate gate"
    );

    // the other field alone: still blocked
    ctx.state.set_named("NameTextInput", "");
    ctx.state.set_named("BioTextInput", "writes code");
    assert!(!page.activate_primary(&mut ctx));

    // both fields set: enabled
    ctx.state.set_named("NameTextInput", "Alex");
    assert!(page.activate_primary(&mut ctx));
}

#[test]
fn settings_page_renders_avatar_then_fields() {
    let mut ctx = Ctx::new();
    Flow::new(vec![settings_page()]).build().entry(&mut ctx);
    let page = last_page(&ctx);
    assert_eq!(page.content.len(), 3);
    assert!(matches!(&page.content[0], ContentNode::AvatarInput { .. }));
    match &page.content[1] {
        ContentNode::TextInput { label, tag } => {
            assert_eq!(label, "Display name");
            assert_eq!(tag, "NameTextInput");
        },
        _ => panic!("the first field must follow the avatar"),
    }
    match &page.content[2] {
        ContentNode::TextInput { label, tag } => {
            assert_eq!(label, "Biography");
            assert_eq!(tag, "BioTextInput");
        },
        _ => panic!("the second field comes last"),
    }
    match &page.control {
        ControlBar::Forward { gates, .. } | ControlBar::Terminal { gates, .. } => {
            assert_eq!(gates.len(), 2, "the avatar contributes no gate; each field does");
        },
        _ => panic!("a settings page with a default bumper has a gated control"),
    }
}

#[test]
fn empty_list_degrades_to_instructions() {
    let page = PageType::display(
        "Activity",
        vec![Display::list(Some("Recent"), Vec::new(), None, Some("Nothing here yet."))],
        None,
        Bumper::default(),
        Offset::Start,
    );
    let mut ctx = Ctx::new();
    Flow::new(vec![page]).build().entry(&mut ctx);
    let page = last_page(&ctx);
    assert_eq!(page.content.len(), 1);
    match &page.content[0] {
        ContentNode::Text { text, .. } => assert_eq!(text, "Nothing here yet."),
        _ => panic!("an empty list with instructions renders as the instructions text"),
    }
}

#[test]
fn empty_list_without_instructions_renders_nothing() {
    let page = PageType::display(
        "Activity",
        vec![
            Display::label("Heading"),
            Display::list(Some("Recent"), Vec::new(), None, None),
        ],
        None,
        Bumper::default(),
        Offset::Start,
    );
    let mut ctx = Ctx::new();
    Flow::new(vec![page]).build().entry(&mut ctx);
    let page = last_page(&ctx);
    assert_eq!(page.content.len(), 1, "the empty list contributes no content at all");
    assert!(matches!(&page.content[0], ContentNode::Text { .. }));
}

#[test]
fn list_rows_share_the_section_sub_chain() {
    let sub = Flow::new(vec![PageType::display(
        "Details",
        vec![Display::label("details")],
        None,
        Bumper::default(),
        Offset::Start,
    )]);
    let page = PageType::display(
        "Home",
        vec![Display::list(
            None,
            vec![
                ListItem::plain("Received", "0.001", Some("$12.45"), "tx0"),
                ListItem::plain("Sent", "0.002", None, "tx1"),
            ],
            Some(sub),
            None,
        )],
        None,
        Bumper::default(),
        Offset::Start,
    );
    let mut ctx = Ctx::new();
    Flow::new(vec![page]).build().entry(&mut ctx);
    let page = last_page(&ctx);
    match &page.content[0] {
        ContentNode::ListSection { entries, forward, .. } => {
            assert_eq!(entries.len(), 2);
            assert_eq!(entries[0].title, "Received");
            assert_eq!(entries[0].secondary.as_deref(), Some("$12.45"));
            let chain = forward.as_ref().expect("the section must carry its sub-chain");
            chain.entry(&mut ctx);
        },
        _ => panic!("a populated list renders as a section"),
    }
    assert_eq!(last_page(&ctx).title, "Details");
}

#[test]
fn qr_code_renders_two_nodes() {
    let page = PageType::display(
        "Receive bitcoin",
        vec![Display::qr_code("staesuh8438", "Scan to receive bitcoin.")],
        None,
        Bumper::custom("Share", chk::Action::share("staesuh8438")),
        Offset::Center,
    );
    let mut ctx = Ctx::new();
    Flow::new(vec![page]).build().entry(&mut ctx);
    let page = last_page(&ctx);
    assert_eq!(page.content.len(), 2);
    assert!(matches!(&page.content[0], ContentNode::QrCode { data } if data == "staesuh8438"));
    assert!(
        matches!(&page.content[1], ContentNode::Text { text, .. } if text == "Scan to receive bitcoin.")
    );
    assert!(matches!(&page.control, ControlBar::Custom { label, .. } if label == "Share"));
}

#[test]
fn literal_sources_resolve_to_themselves() {
    let page = PageType::review(
        "Check",
        vec![Display::review("Label", "fixed value", "note")],
    );
    let mut ctx = Ctx::new();
    ctx.state.set_named("Label", "should not matter");
    Flow::new(vec![page]).build().entry(&mut ctx);
    let page = last_page(&ctx);
    assert!(
        matches!(&page.content[0], ContentNode::DataItem { data, .. } if data == "fixed value")
    );
    let lit = Source::lit("abc");
    assert_eq!(lit.resolve(&ctx.state), "abc");
    let slot = Source::slot("Label");
    assert_eq!(slot.resolve(&ctx.state), "should not matter");
}

fn one_row() -> ListItem {
    ListItem::plain("row", "sub", None, "tag")
}

#[test]
fn root_offset_rule() {
    let mk_root = |content: Vec<Display>| {
        RootPage::new("Home", content, None, RootBumper::new("Go", Flow::new(Vec::new())), None)
    };
    let ctx = Ctx::new();

    // leading empty list: centered
    let screen = mk_root(vec![Display::list(None, Vec::new(), None, Some("empty"))]).build(
        &ctx.state,
    );
    assert_eq!(screen.offset, Offset::Center);

    // leading populated list: top-aligned
    let screen = mk_root(vec![Display::list(None, vec![one_row()], None, None)]).build(&ctx.state);
    assert_eq!(screen.offset, Offset::Start);

    // no list, a single rendered block: centered
    let screen = mk_root(vec![Display::label("only")]).build(&ctx.state);
    assert_eq!(screen.offset, Offset::Center);

    // no list, several rendered blocks: top-aligned
    let screen = mk_root(vec![Display::label("one"), Display::label("two")]).build(&ctx.state);
    assert_eq!(screen.offset, Offset::Start);

    // no content at all: centered
    let screen = mk_root(Vec::new()).build(&ctx.state);
    assert_eq!(screen.offset, Offset::Center);
}

#[test]
fn checklist_and_selector_render_their_items() {
    let page = PageType::input(
        "Options",
        chk::Input::checklist(vec![
            ChecklistItem::new("Alpha", Some("first"), true),
            ChecklistItem::new("Beta", None, false),
        ]),
        Bumper::default(),
    );
    let mut ctx = Ctx::new();
    Flow::new(vec![page]).build().entry(&mut ctx);
    let page = last_page(&ctx);
    match &page.content[0] {
        ContentNode::Checkboxes { entries } => {
            assert_eq!(entries.len(), 2);
            assert_eq!(entries[0].title, "Alpha");
            assert!(entries[0].is_selected);
            assert!(!entries[1].is_selected);
        },
        _ => panic!("a checklist renders as checkboxes"),
    }
    match &page.control {
        ControlBar::Terminal { gates, .. } => {
            assert!(gates.is_empty(), "a checklist contributes no gate");
        },
        _ => panic!("single page: terminal control"),
    }
}

#[test]
fn date_and_time_fields_gate_advancing() {
    // every check-carrying field wires its check into the page's control:
    // a date page stays blocked until its slot is filled, and so does a
    // time page
    let page = PageType::input(
        "When",
        chk::Input::date("Pick a date", "DateInput", ValidityGate::non_empty("DateInput")),
        Bumper::default(),
    );
    let mut ctx = Ctx::new();
    Flow::new(vec![page, PageType::input(
        "Time",
        chk::Input::time("Pick a time", "TimeInput", ValidityGate::non_empty("TimeInput")),
        Bumper::default(),
    )])
    .build()
    .entry(&mut ctx);
    let page = last_page(&ctx);
    match &page.control {
        ControlBar::Forward { gates, .. } => assert_eq!(gates.len(), 1),
        _ => panic!("a mid-flow page has a forward control"),
    }
    assert!(!page.activate_primary(&mut ctx), "an empty date slot must block advancing");
    ctx.state.set_named("DateInput", "11/23/2025");
    assert!(page.activate_primary(&mut ctx));

    let page = last_page(&ctx);
    assert_eq!(page.title, "Time");
    assert!(!page.activate_primary(&mut ctx), "an empty time slot must block advancing");
    ctx.state.set_named("TimeInput", "12:30");
    assert!(page.activate_primary(&mut ctx));
}

#[test]
fn absent_bumper_renders_no_control() {
    let page = PageType::display(
        "Plain",
        vec![Display::label("nothing to do")],
        None,
        Bumper::Absent,
        Offset::Start,
    );
    let mut ctx = Ctx::new();
    Flow::new(vec![page]).build().entry(&mut ctx);
    let page = last_page(&ctx);
    assert!(matches!(page.control, ControlBar::Absent));
    assert!(!page.activate_primary(&mut ctx), "no control, nothing to fire");
    assert!(!page.activate_secondary(&mut ctx));
    assert_eq!(ctx.log.len(), 1);
}

#[test]
fn last_pushed_skips_trailing_effects() {
    let page = PageType::display(
        "Lone",
        vec![Display::label("body")],
        None,
        Bumper::default(),
        Offset::Start,
    );
    let mut ctx = Ctx::new();
    Flow::new(vec![page]).build().entry(&mut ctx);
    let page = last_page(&ctx);
    assert!(page.activate_primary(&mut ctx));
    // the log now ends in Closed; the latest push is still the page
    assert_eq!(last_page(&ctx).title, "Lone");
}
