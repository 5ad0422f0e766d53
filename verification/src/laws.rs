//! The engine's navigation laws, proved once and for all over the
//! mathematical model that every contract in this crate is stated against.

use vstd::prelude::*;

use crate::flow::{spec_build, spec_entry_log, spec_invoke_log, ContinuationV, FlowChainV};
use crate::gate::{gates_hold, ValidityGateV};
use crate::pages::{
    page_bumper, page_gates, spec_activate_primary, spec_render, spec_render_root, settings_gates,
    ControlBarV, RenderedPageV, RootPageV,
};
use crate::state::EventV;
use crate::structs::{input_gate, BumperV, FlowV, InputV};

verus! {

/// The successor continuation handed to the chain's node at `i`.
pub open spec fn next_of(c: FlowChainV, i: int) -> Option<ContinuationV> {
    if i + 1 < c.nodes.len() {
        Some(ContinuationV { chain: c, index: i + 1 })
    } else {
        None
    }
}

/// The log of a full or partial traversal: nodes `0 .. states.len()` invoked
/// in order, the step into node `k` seeing the session state `states[k]`.
pub open spec fn spec_traverse_log(
    c: FlowChainV,
    states: Seq<Map<Seq<char>, Seq<char>>>,
) -> Seq<EventV>
    decreases states.len(),
{
    if states.len() == 0 {
        Seq::empty()
    } else {
        spec_traverse_log(c, states.drop_last()) + spec_invoke_log(
            c,
            states.len() - 1,
            states.last(),
        )
    }
}

/// The exact shape of any traversal of a built flow: it pushes, in definition
/// order, exactly the pages it stepped through, each materialized against the
/// state of its step and carrying its 1-based position — and, exactly when
/// the traversal is full, the flow has at least two pages and a submit side
/// effect, the submit event stands immediately before the last push.
pub proof fn lemma_traverse_shape(f: FlowV, states: Seq<Map<Seq<char>, Seq<char>>>)
    requires
        states.len() <= f.pages.len(),
    ensures
        ({
            let c = spec_build(f);
            let m = states.len();
            let submits = m == f.pages.len() && m >= 2 && f.on_submit is Some;
            let pushes = Seq::new(
                m,
                |k: int| EventV::Pushed {
                    page: spec_render(f.pages[k], k + 1, next_of(c, k), states[k]),
                },
            );
            spec_traverse_log(c, states) == if submits {
                pushes.drop_last() + seq![
                    EventV::Submitted { label: f.on_submit->0 },
                    pushes.last(),
                ]
            } else {
                pushes
            }
        }),
    decreases states.len(),
{
    let c = spec_build(f);
    let m = states.len();
    if m > 0 {
        lemma_traverse_shape(f, states.drop_last());
        let pushes = Seq::new(
            m,
            |k: int| EventV::Pushed {
                page: spec_render(f.pages[k], k + 1, next_of(c, k), states[k]),
            },
        );
        let prefix_pushes = Seq::new(
            (m - 1) as nat,
            |k: int| EventV::Pushed {
                page: spec_render(f.pages[k], k + 1, next_of(c, k), states.drop_last()[k]),
            },
        );
        assert(prefix_pushes =~= pushes.drop_last());
        let submits = m == f.pages.len() && m >= 2 && f.on_submit is Some;
        if submits {
            assert(spec_traverse_log(c, states) =~= pushes.drop_last() + seq![
                EventV::Submitted { label: f.on_submit->0 },
                pushes.last(),
            ]);
        } else {
            assert(spec_traverse_log(c, states) =~= pushes);
        }
    }
}

/// A flow of `N` pages without a submit side effect, traversed by invoking
/// the entry point and then each page's forward control: the pages are
/// visited in definition order, each step pushes exactly one page, and a full
/// traversal pushes exactly `N` pages — never more.
pub proof fn lemma_traversal_in_order(f: FlowV, states: Seq<Map<Seq<char>, Seq<char>>>)
    requires
        f.on_submit is None,
        states.len() <= f.pages.len(),
    ensures
        ({
            let c = spec_build(f);
            let log = spec_traverse_log(c, states);
            log.len() == states.len() && forall|k: int|
                0 <= k < states.len() ==> log[k] == (EventV::Pushed {
                    page: spec_render(f.pages[k], k + 1, next_of(c, k), states[k]),
                })
        }),
{
    lemma_traverse_shape(f, states);
}

/// The submit side effect, when present, fires exactly once per full
/// traversal, and strictly before the final page is pushed.
pub proof fn lemma_submit_fires_once(f: FlowV, states: Seq<Map<Seq<char>, Seq<char>>>)
    requires
        f.on_submit is Some,
        f.pages.len() >= 2,
        states.len() == f.pages.len(),
    ensures
        ({
            let log = spec_traverse_log(spec_build(f), states);
            let n = f.pages.len();
            log.len() == n + 1 && (forall|k: int|
                0 <= k < log.len() ==> (log[k] is Submitted <==> k == n - 1)) && log[n - 1]
                == (EventV::Submitted { label: f.on_submit->0 }) && log[n as int] is Pushed
        }),
{
    lemma_traverse_shape(f, states);
    let c = spec_build(f);
    let n = f.pages.len();
    let log = spec_traverse_log(c, states);
    let pushes = Seq::new(
        n,
        |k: int| EventV::Pushed { page: spec_render(f.pages[k], k + 1, next_of(c, k), states[k]) },
    );
    assert(log =~= pushes.drop_last() + seq![
        EventV::Submitted { label: f.on_submit->0 },
        pushes.last(),
    ]);
    assert forall|k: int| 0 <= k < log.len() implies (log[k] is Submitted <==> k == n - 1) by {
        if k < n - 1 {
            assert(log[k] == pushes[k]);
        }
    }
}

/// Invoking the entry point of a non-empty flow pushes exactly one page: the
/// first page, at position 1, materialized against the current state.
pub proof fn lemma_entry_pushes_first(f: FlowV, s: Map<Seq<char>, Seq<char>>)
    requires
        f.pages.len() > 0,
    ensures
        ({
            let c = spec_build(f);
            spec_entry_log(c, s) == seq![
                EventV::Pushed { page: spec_render(f.pages[0], 1, next_of(c, 0), s) },
            ]
        }),
{
}

/// Building a flow with zero pages yields an entry point that, when invoked,
/// pushes nothing.
pub proof fn lemma_empty_flow_pushes_nothing(f: FlowV, s: Map<Seq<char>, Seq<char>>)
    requires
        f.pages.len() == 0,
    ensures
        spec_entry_log(spec_build(f), s) == Seq::<EventV>::empty(),
{
}

/// A page materialized with a successor and a `Default` bumper binds its
/// forward control to exactly that successor, behind the page's gates.
pub proof fn lemma_default_bumper_binds_successor(f: FlowV, i: int, s: Map<Seq<char>, Seq<char>>)
    requires
        0 <= i < f.pages.len() - 1,
        page_bumper(f.pages[i]) == BumperV::Default,
    ensures
        ({
            let c = spec_build(f);
            let page = spec_render(f.pages[i], i + 1, next_of(c, i), s);
            page.control == (ControlBarV::Forward {
                next: ContinuationV { chain: c, index: i + 1 },
                gates: page_gates(f.pages[i]),
            })
        }),
{
}

/// Activating the forward control of a page pushed at step `i`, under a state
/// in which its gates hold, appends exactly the invocation of step `i + 1`:
/// the traversal advances to the next page in definition order.
pub proof fn lemma_forward_advances(
    f: FlowV,
    i: int,
    s1: Map<Seq<char>, Seq<char>>,
    s2: Map<Seq<char>, Seq<char>>,
)
    requires
        0 <= i < f.pages.len() - 1,
        page_bumper(f.pages[i]) == BumperV::Default,
        gates_hold(page_gates(f.pages[i]), s2),
    ensures
        ({
            let c = spec_build(f);
            let page = spec_render(f.pages[i], i + 1, next_of(c, i), s1);
            spec_activate_primary(page, s2) == (spec_invoke_log(c, i + 1, s2), true)
        }),
{
}

/// A forward control bound to validity gates cannot be activated while they
/// evaluate false, and flipping the underlying state so that they evaluate
/// true enables the very same control, without rebuilding the page.
pub proof fn lemma_gate_blocks_until_state_flips(
    page: RenderedPageV,
    s_blocked: Map<Seq<char>, Seq<char>>,
    s_enabled: Map<Seq<char>, Seq<char>>,
)
    requires
        page.control is Forward,
        !gates_hold(page.control->Forward_gates, s_blocked),
        gates_hold(page.control->Forward_gates, s_enabled),
        page.control->Forward_next.index < page.control->Forward_next.chain.nodes.len(),
    ensures
        spec_activate_primary(page, s_blocked) == (Seq::<EventV>::empty(), false),
        spec_activate_primary(page, s_enabled).1 == true,
{
}

/// Writing a non-empty value under a gate's tag makes a non-empty gate hold;
/// no rebuild of any page is involved, since gates are re-evaluated from the
/// live state on each attempt.
pub proof fn lemma_nonempty_gate_flips(
    tag: Seq<char>,
    s: Map<Seq<char>, Seq<char>>,
    v: Seq<char>,
)
    requires
        v.len() > 0,
    ensures
        (ValidityGateV::NonEmpty { tag }).holds(s.insert(tag, v)),
{
}

/// Building a flow with exactly one page whose bumper is `Default` yields an
/// entry point that pushes a page whose control is flow-terminal — not a
/// "continue" control — under a terminal header.
pub proof fn lemma_single_page_is_terminal(f: FlowV, s: Map<Seq<char>, Seq<char>>)
    requires
        f.pages.len() == 1,
        page_bumper(f.pages[0]) == BumperV::Default,
    ensures
        ({
            let log = spec_entry_log(spec_build(f), s);
            log.len() == 1 && log[0] is Pushed && log[0]->Pushed_page.control is Terminal
                && log[0]->Pushed_page.header is Terminal
                && log[0]->Pushed_page.control->Terminal_steps == 1
        }),
{
}

/// Round trip: the chain a root bumper materializes is the chain its flow
/// builds, so activating the primary control of a materialized root screen
/// appends exactly the log of building the underlying flow and invoking its
/// entry point directly — the same push sequence, whatever state each screen
/// was rendered under.
pub proof fn lemma_root_primary_matches_flow_entry(
    r: RootPageV,
    s_render: Map<Seq<char>, Seq<char>>,
    s: Map<Seq<char>, Seq<char>>,
)
    ensures
        ({
            let screen = spec_render_root(r, s_render);
            spec_activate_primary(screen, s) == (
                spec_entry_log(spec_build(r.bumper.0.flow), s),
                true,
            )
        }),
{
}

/// The conjunction of two gate sequences holds exactly when both hold.
proof fn lemma_gates_hold_concat(
    a: Seq<ValidityGateV>,
    b: Seq<ValidityGateV>,
    s: Map<Seq<char>, Seq<char>>,
)
    ensures
        gates_hold(a + b, s) <==> (gates_hold(a, s) && gates_hold(b, s)),
{
    if gates_hold(a + b, s) {
        assert forall|i: int| 0 <= i < a.len() implies (#[trigger] a[i]).holds(s) by {
            assert((a + b)[i] == a[i]);
        }
        assert forall|i: int| 0 <= i < b.len() implies (#[trigger] b[i]).holds(s) by {
            assert((a + b)[a.len() + i] == b[i]);
        }
    }
}

/// The aggregate gate of a settings page is the conjunction of its widgets'
/// individual checks: it holds exactly when every widget that contributes a
/// check passes — an AND-combination, not an OR.
pub proof fn lemma_settings_gate_is_conjunction(items: Seq<InputV>, s: Map<Seq<char>, Seq<char>>)
    ensures
        gates_hold(settings_gates(items), s) <==> (forall|i: int|
            0 <= i < items.len() ==> match input_gate(#[trigger] items[i]) {
                Some(g) => g.holds(s),
                None => true,
            }),
    decreases items.len(),
{
    if items.len() > 0 {
        lemma_settings_gate_is_conjunction(items.drop_last(), s);
        let tail = match input_gate(items.last()) {
            Some(g) => seq![g],
            None => Seq::<ValidityGateV>::empty(),
        };
        lemma_gates_hold_concat(settings_gates(items.drop_last()), tail, s);
        if gates_hold(settings_gates(items), s) {
            assert forall|i: int| 0 <= i < items.len() implies match input_gate(
                #[trigger] items[i],
            ) {
                Some(g) => g.holds(s),
                None => true,
            } by {
                if i < items.len() - 1 {
                    assert(items.drop_last()[i] == items[i]);
                } else {
                    assert(items[i] == items.last());
                    if input_gate(items.last()) is Some {
                        assert(tail[0] == input_gate(items.last())->0);
                        assert(tail[0].holds(s));
                    }
                }
            }
        } else {
            if !gates_hold(settings_gates(items.drop_last()), s) {
                let i = choose|i: int|
                    0 <= i < items.drop_last().len() && match input_gate(
                        #[trigger] items.drop_last()[i],
                    ) {
                        Some(g) => !g.holds(s),
                        None => false,
                    };
                assert(items.drop_last()[i] == items[i]);
            }
        }
    }
}

} // verus!
