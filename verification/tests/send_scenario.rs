//! The full send workflow: three gated input steps, a review of the captured
//! values, a submit side effect, and a terminal success page.

use chk::{
    Bumper, ContentNode, ControlBar, Ctx, Display, EnumItem, Event, Flow, Input, PageType,
    RenderedPage, SideEffect, TableItem, ValidityGate,
};

fn send_flow() -> Flow {
    let address = PageType::input(
        "Bitcoin address",
        Input::text(
            "Bitcoin address",
            None,
            "AddressTextInput",
            ValidityGate::non_empty("AddressTextInput"),
        ),
        Bumper::default(),
    );
    let amount = PageType::input(
        "Bitcoin amount",
        Input::currency(
            "Enter send amount",
            "AmountCurrencyInput",
            ValidityGate::amount_positive("AmountCurrencyInput"),
        ),
        Bumper::default(),
    );
    let speed = PageType::input(
        "Transaction speed",
        Input::enumerator(
            vec![
                EnumItem::new("Standard", "Arrives in ~2 hours"),
                EnumItem::new("Priority", "Arrives in ~30 minutes"),
            ],
            "FeeEnumerator",
        ),
        Bumper::default(),
    );
    let review = PageType::review(
        "Confirm send",
        vec![
            Display::review_slot(
                "Confirm address",
                "AddressTextInput",
                "Bitcoin sent to the wrong address can never be recovered.",
            ),
            Display::table(
                "Confirm amount",
                vec![
                    TableItem::slot("Amount Sent", "AmountCurrencyInput"),
                    TableItem::slot("Transaction Speed", "FeeEnumerator"),
                ],
            ),
        ],
    );
    let success = PageType::success("Bitcoin sent", "bitcoin", "Your payment is on its way");
    Flow::new_form(
        vec![address, amount, speed],
        Some(review),
        success,
        SideEffect::new("broadcast"),
    )
}

fn last_page(ctx: &Ctx) -> RenderedPage {
    ctx.last_pushed().expect("a page should have been pushed")
}

fn count_submits(ctx: &Ctx) -> usize {
    ctx.log
        .iter()
        .filter(|e| matches!(e, Event::Submitted { .. }))
        .count()
}

#[test]
fn send_flow_walkthrough() {
    let mut ctx = Ctx::new();
    send_flow().build().entry(&mut ctx);

    // page 1: address input, forward control disabled while the address is empty
    let page = last_page(&ctx);
    assert_eq!(page.title, "Bitcoin address");
    assert!(!page.activate_primary(&mut ctx), "empty address must block advancing");
    assert_eq!(ctx.log.len(), 1, "a blocked control leaves the session untouched");

    // typing an address enables the very same control, without a rebuild
    ctx.state.set_named("AddressTextInput", "abc123");
    assert!(page.activate_primary(&mut ctx));

    // page 2: amount input; zero stays disabled, a positive amount enables
    let page = last_page(&ctx);
    assert_eq!(page.title, "Bitcoin amount");
    ctx.state.set_named("AmountCurrencyInput", "$0");
    assert!(!page.activate_primary(&mut ctx), "a zero amount must block advancing");
    ctx.state.set_named("AmountCurrencyInput", "$25");
    assert!(page.activate_primary(&mut ctx));

    // page 3: speed selector, no gate: always enabled
    let page = last_page(&ctx);
    assert_eq!(page.title, "Transaction speed");
    match &page.control {
        ControlBar::Forward { gates, .. } => assert!(gates.is_empty()),
        other => panic!("expected a forward control, found {:?}", std::mem::discriminant(other)),
    }
    ctx.state.set_named("FeeEnumerator", "Priority");
    assert!(page.activate_primary(&mut ctx));

    // page 4: review with the three captured values
    assert_eq!(count_submits(&ctx), 0, "nothing is submitted before the review is confirmed");
    let page = last_page(&ctx);
    assert_eq!(page.title, "Confirm send");
    match &page.content[0] {
        ContentNode::DataItem { label, data, .. } => {
            assert_eq!(label, "Confirm address");
            assert_eq!(data, "abc123");
        },
        _ => panic!("the review page must lead with the captured address"),
    }
    match &page.content[1] {
        ContentNode::Table { rows, .. } => {
            assert_eq!(rows.len(), 2);
            assert_eq!(rows[0], ("Amount Sent".to_string(), "$25".to_string()));
            assert_eq!(rows[1], ("Transaction Speed".to_string(), "Priority".to_string()));
        },
        _ => panic!("the review page must tabulate the captured values"),
    }

    // confirming the review fires the submit exactly once, then pushes the
    // terminal success page
    assert!(page.activate_primary(&mut ctx));
    assert_eq!(count_submits(&ctx), 1);
    assert!(
        matches!(&ctx.log[ctx.log.len() - 2], Event::Submitted { label } if label == "broadcast")
    );
    let page = last_page(&ctx);
    assert_eq!(page.title, "Bitcoin sent");
    assert!(
        matches!(page.control, ControlBar::Terminal { .. }),
        "the success page has no further forward control"
    );
    assert_eq!(page.position, 5);

    // closing the flow from the success page pushes nothing and submits nothing
    assert!(page.activate_primary(&mut ctx));
    assert!(matches!(ctx.log.last(), Some(Event::Closed)));
    assert_eq!(count_submits(&ctx), 1);
}

#[test]
fn review_degrades_to_empty_values_for_missing_slots() {
    // the silent-miss policy: materializing against a state whose slots were
    // never written resolves them to empty strings rather than failing
    let review = PageType::review(
        "Confirm send",
        vec![Display::review_slot("Confirm address", "AddressTextInput", "note")],
    );
    let mut ctx = Ctx::new();
    Flow::new(vec![review]).build().entry(&mut ctx);
    let page = last_page(&ctx);
    match &page.content[0] {
        ContentNode::DataItem { data, .. } => assert_eq!(data, ""),
        _ => panic!("the review item must still be rendered"),
    }
}
