//! Traversal behaviour of built flows: order, counts, empty and single-page
//! flows, and the root-bumper round trip.

use chk::{
    Action, Bumper, ControlBar, Ctx, Display, Event, Flow, Header, Offset, PageType, RenderedPage,
    RootBumper, RootPage, SideEffect,
};

fn display_page(title: &str) -> PageType {
    PageType::display(
        title,
        vec![Display::instructions("step")],
        None,
        Bumper::default(),
        Offset::Start,
    )
}

fn pushed_pages(ctx: &Ctx) -> Vec<&RenderedPage> {
    ctx.log
        .iter()
        .filter_map(|e| match e {
            Event::Pushed { page } => Some(page),
            _ => None,
        })
        .collect()
}

fn last_page(ctx: &Ctx) -> RenderedPage {
    ctx.last_pushed().expect("a page should have been pushed")
}

#[test]
fn empty_flow_pushes_nothing() {
    let flow = Flow::new(Vec::new());
    let chain = flow.build();
    let mut ctx = Ctx::new();
    chain.entry(&mut ctx);
    assert_eq!(ctx.log.len(), 0);
}

#[test]
fn single_page_default_bumper_is_terminal() {
    let flow = Flow::new(vec![display_page("only")]);
    let chain = flow.build();
    let mut ctx = Ctx::new();
    chain.entry(&mut ctx);
    assert_eq!(ctx.log.len(), 1);
    let page = last_page(&ctx);
    assert_eq!(page.title, "only");
    assert_eq!(page.position, 1);
    match &page.control {
        ControlBar::Terminal { steps, .. } => assert_eq!(*steps, 1),
        _ => panic!("a lone page's default bumper must resolve to a terminal control"),
    }
    assert!(matches!(page.header, Header::Terminal));
}

#[test]
fn traversal_visits_pages_in_definition_order() {
    let flow = Flow::new(vec![
        display_page("first"),
        display_page("second"),
        display_page("third"),
    ]);
    let chain = flow.build();
    let mut ctx = Ctx::new();
    chain.entry(&mut ctx);
    // advance through the two forward controls
    for _ in 0..2 {
        let page = last_page(&ctx);
        assert!(page.activate_primary(&mut ctx));
    }
    let pages = pushed_pages(&ctx);
    assert_eq!(pages.len(), 3);
    assert_eq!(pages[0].title, "first");
    assert_eq!(pages[1].title, "second");
    assert_eq!(pages[2].title, "third");
    assert_eq!(pages[0].position, 1);
    assert_eq!(pages[1].position, 2);
    assert_eq!(pages[2].position, 3);
    // the last page is terminal: activating it closes the flow, pushing nothing
    let page = last_page(&ctx);
    assert!(page.activate_primary(&mut ctx));
    assert!(matches!(ctx.log.last(), Some(Event::Closed)));
    assert_eq!(pushed_pages(&ctx).len(), 3);
}

#[test]
fn mid_flow_pages_have_forward_controls() {
    let flow = Flow::new(vec![display_page("a"), display_page("b")]);
    let chain = flow.build();
    let mut ctx = Ctx::new();
    chain.entry(&mut ctx);
    let page = last_page(&ctx);
    assert!(matches!(page.control, ControlBar::Forward { .. }));
    assert!(matches!(page.header, Header::MidFlow { .. }));
}

#[test]
fn submit_fires_once_and_before_final_push() {
    let flow = Flow::new_form(
        vec![display_page("in1"), display_page("in2")],
        Some(PageType::review("check", vec![Display::instructions("confirm")])),
        PageType::success("done", "check", "All sent"),
        SideEffect::new("send-it"),
    );
    let chain = flow.build();
    let mut ctx = Ctx::new();
    chain.entry(&mut ctx);
    for _ in 0..3 {
        let page = last_page(&ctx);
        assert!(page.activate_primary(&mut ctx));
    }
    let submits: Vec<usize> = ctx
        .log
        .iter()
        .enumerate()
        .filter_map(|(i, e)| match e {
            Event::Submitted { label } => {
                assert_eq!(label, "send-it");
                Some(i)
            },
            _ => None,
        })
        .collect();
    assert_eq!(submits.len(), 1, "submit must fire exactly once per traversal");
    // strictly before the final (success) page is pushed
    assert_eq!(submits[0], ctx.log.len() - 2);
    assert!(matches!(ctx.log.last(), Some(Event::Pushed { .. })));
    let final_page = last_page(&ctx);
    assert_eq!(final_page.title, "done");
    assert!(matches!(final_page.control, ControlBar::Terminal { .. }));
}

#[test]
fn submit_does_not_fire_before_the_last_transition() {
    let flow = Flow::new_form(
        vec![display_page("in1"), display_page("in2")],
        None,
        PageType::success("done", "check", "All sent"),
        SideEffect::new("send-it"),
    );
    let chain = flow.build();
    let mut ctx = Ctx::new();
    chain.entry(&mut ctx);
    let page = last_page(&ctx);
    assert!(page.activate_primary(&mut ctx));
    // two pages pushed so far, no submit yet
    assert!(ctx.log.iter().all(|e| !matches!(e, Event::Submitted { .. })));
    let page = last_page(&ctx);
    assert!(page.activate_primary(&mut ctx));
    assert!(ctx.log.iter().any(|e| matches!(e, Event::Submitted { .. })));
}

fn push_signature(ctx: &Ctx) -> Vec<(String, usize)> {
    pushed_pages(ctx)
        .iter()
        .map(|p| (p.title.clone(), p.position))
        .collect()
}

#[test]
fn root_bumper_round_trips_to_flow_entry() {
    let make_flow = || Flow::new(vec![display_page("a"), display_page("b")]);

    // route one: build the flow directly and invoke its entry point
    let mut direct = Ctx::new();
    make_flow().build().entry(&mut direct);

    // route two: wrap the flow in a root bumper, materialize, invoke
    let bumper = RootBumper::new("Open", make_flow());
    let (label, chain) = bumper.get();
    assert_eq!(label, "Open");
    let mut via_bumper = Ctx::new();
    chain.entry(&mut via_bumper);

    assert_eq!(push_signature(&direct), push_signature(&via_bumper));

    // route three: through a whole root screen's primary control
    let root = RootPage::new(
        "Home",
        vec![Display::label("Welcome")],
        None,
        RootBumper::new("Open", make_flow()),
        None,
    );
    let mut via_root = Ctx::new();
    let screen = root.build(&via_root.state);
    assert!(screen.activate_primary(&mut via_root));
    assert_eq!(push_signature(&direct), push_signature(&via_root));
}

#[test]
fn root_page_offers_two_entries() {
    let root = RootPage::new(
        "Wallet",
        vec![Display::label("Balance")],
        Some(("settings".to_string(), Action::custom("open-settings"))),
        RootBumper::new("Receive", Flow::new(vec![display_page("receive")])),
        Some(RootBumper::new("Send", Flow::new(vec![display_page("send")]))),
    );
    let mut ctx = Ctx::new();
    let screen = root.build(&ctx.state);
    assert_eq!(screen.title, "Wallet");
    assert!(matches!(screen.header, Header::Home { icon: Some(_) }));
    // primary control enters the first flow
    assert!(screen.activate_primary(&mut ctx));
    assert_eq!(last_page(&ctx).title, "receive");
    // secondary control enters the second flow
    assert!(screen.activate_secondary(&mut ctx));
    assert_eq!(last_page(&ctx).title, "send");
    // the header icon runs its action
    assert!(screen.activate_header(&mut ctx));
    assert!(matches!(ctx.log.last(), Some(Event::CustomRan { label }) if label == "open-settings"));
}

#[test]
fn branch_header_icon_opens_sub_flow() {
    let sub = Flow::new(vec![display_page("branched")]);
    let page = PageType::display(
        "main",
        vec![Display::label("body")],
        Some(("fork".to_string(), sub)),
        Bumper::default(),
        Offset::Start,
    );
    let flow = Flow::new(vec![page]);
    let mut ctx = Ctx::new();
    flow.build().entry(&mut ctx);
    let page = last_page(&ctx);
    // terminal pages drop the icon; this page is the only one, so terminal
    assert!(matches!(page.header, Header::Terminal));

    // with a successor the header keeps the branch affordance
    let sub = Flow::new(vec![display_page("branched")]);
    let first = PageType::display(
        "main",
        vec![Display::label("body")],
        Some(("fork".to_string(), sub)),
        Bumper::default(),
        Offset::Start,
    );
    let flow = Flow::new(vec![first, display_page("after")]);
    let mut ctx = Ctx::new();
    flow.build().entry(&mut ctx);
    let page = last_page(&ctx);
    assert!(matches!(page.header, Header::MidFlow { icon: Some(_) }));
    assert!(page.activate_header(&mut ctx));
    assert_eq!(last_page(&ctx).title, "branched");
}

#[test]
fn navigate_action_enters_its_flow() {
    let target = Flow::new(vec![display_page("target")]);
    let page = PageType::display(
        "custom",
        vec![Display::label("body")],
        None,
        Bumper::custom("Go", Action::navigate(target)),
        Offset::Start,
    );
    let mut ctx = Ctx::new();
    Flow::new(vec![page]).build().entry(&mut ctx);
    let page = last_page(&ctx);
    assert!(page.activate_primary(&mut ctx));
    assert_eq!(last_page(&ctx).title, "target");
}

#[test]
fn double_bumper_secondary_is_ungated() {
    let page = PageType::display(
        "choices",
        vec![Display::label("body")],
        None,
        Bumper::double("Share", Action::share("payload"), "Skip", Action::custom("skipped")),
        Offset::Start,
    );
    let mut ctx = Ctx::new();
    Flow::new(vec![page]).build().entry(&mut ctx);
    let page = last_page(&ctx);
    assert!(page.activate_secondary(&mut ctx));
    assert!(matches!(ctx.log.last(), Some(Event::CustomRan { label }) if label == "skipped"));
    assert!(page.activate_primary(&mut ctx));
    assert!(matches!(ctx.log.last(), Some(Event::Shared { data }) if data == "payload"));
}
