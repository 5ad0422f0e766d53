//! Building a flow into a runnable chain of navigation continuations.
//!
//! A built chain is an immutable arena of nodes, one per page, shared behind
//! a reference-counted handle. A navigation continuation is a handle to the
//! chain plus the index of the node it will materialize: several independent
//! triggers (a root action, a mid-flow "continue" control) may hold handles
//! to the same remaining suffix of the chain. Because a node's successor is
//! simply the node after it in the arena, every page's "go forward" action is
//! fully formed before the page itself is materialized, with no forward
//! references and no two-pass resolution.

use vstd::prelude::*;

use std::rc::Rc;

use crate::pages::spec_render;
use crate::state::{Ctx, Event, EventV};
use crate::structs::{page_views, view_page, Flow, FlowV, PageType, PageTypeV, SideEffect};

verus! {

/// Relies on `Rc::clone`: the clone is a second handle to the same shared
/// value.
#[verifier::external_body]
fn rc_clone<T>(rc: &Rc<T>) -> (r: Rc<T>)
    ensures
        r == *rc,
{
    Rc::clone(rc)
}

/// One node of a built chain: a page description together with the position
/// it was inserted at (1-based) and whether the transition into it fires the
/// flow's submit side effect.
pub struct ChainNode {
    pub page: PageType,
    pub position: usize,
    pub fire_submit: bool,
}

/// Mathematical view of a `ChainNode`.
pub ghost struct ChainNodeV {
    pub page: PageTypeV,
    pub position: int,
    pub fire_submit: bool,
}

impl View for ChainNode {
    type V = ChainNodeV;

    open spec fn view(&self) -> ChainNodeV {
        ChainNodeV {
            page: view_page(self.page),
            position: self.position as int,
            fire_submit: self.fire_submit,
        }
    }
}

/// The shared arena of a built chain.
pub struct ChainData {
    pub nodes: Vec<ChainNode>,
    pub on_submit: Option<SideEffect>,
}

/// Mathematical view of a built chain.
#[verifier::ext_equal]
pub ghost struct FlowChainV {
    pub nodes: Seq<ChainNodeV>,
    pub on_submit: Option<Seq<char>>,
}

impl View for ChainData {
    type V = FlowChainV;

    open spec fn view(&self) -> FlowChainV {
        FlowChainV {
            nodes: Seq::new(self.nodes@.len(), |i: int| self.nodes@[i]@),
            on_submit: match self.on_submit {
                Some(e) => Some(e.label@),
                None => None,
            },
        }
    }
}

/// A built chain: a shared handle to the arena. Cloning the handle yields a
/// second trigger for the same chain, not a copy of it.
pub struct FlowChain {
    data: Rc<ChainData>,
}

impl View for FlowChain {
    type V = FlowChainV;

    closed spec fn view(&self) -> FlowChainV {
        self.data@
    }
}

impl Clone for FlowChain {
    fn clone(&self) -> (r: Self)
        ensures
            r == *self,
    {
        FlowChain { data: rc_clone(&self.data) }
    }
}

/// A deferred unit of navigation: "materialize the chain's node at `index`
/// against the session state of that moment, and push the result."
pub struct NavigationContinuation {
    pub chain: FlowChain,
    pub index: usize,
}

/// Mathematical view of a `NavigationContinuation`.
pub ghost struct ContinuationV {
    pub chain: FlowChainV,
    pub index: int,
}

impl View for NavigationContinuation {
    type V = ContinuationV;

    open spec fn view(&self) -> ContinuationV {
        ContinuationV { chain: self.chain@, index: self.index as int }
    }
}

impl Clone for NavigationContinuation {
    fn clone(&self) -> (r: Self)
        ensures
            r == *self,
    {
        NavigationContinuation { chain: self.chain.clone(), index: self.index }
    }
}

/// The chain that building a flow produces: one node per page, in definition
/// order, each carrying its 1-based position; the transition into the last
/// page fires the submit side effect, except when that page is also the
/// first.
pub open spec fn spec_build(f: FlowV) -> FlowChainV {
    FlowChainV {
        nodes: Seq::new(
            f.pages.len(),
            |i: int| ChainNodeV {
                page: f.pages[i],
                position: i + 1,
                fire_submit: i == f.pages.len() - 1 && i >= 1 && f.on_submit is Some,
            },
        ),
        on_submit: f.on_submit,
    }
}

impl Flow {
    /// A flow over the given pages, with no submit side effect.
    pub fn new(pages: Vec<PageType>) -> (r: Self)
        ensures
            r@ == (FlowV { pages: page_views(pages@), on_submit: None }),
    {
        Flow { pages, on_submit: None }
    }

    /// A form flow: the input pages, then an optional review page, then the
    /// success page, with a submit side effect that fires on the transition
    /// into the success page.
    pub fn new_form(
        inputs: Vec<PageType>,
        review: Option<PageType>,
        success: PageType,
        on_submit: SideEffect,
    ) -> (r: Self)
        ensures
            r@.pages == page_views(inputs@) + (match review {
                Some(p) => seq![view_page(p)],
                None => Seq::empty(),
            }) + seq![view_page(success)],
            r@.on_submit == Some(on_submit@),
    {
        let ghost inputs0 = inputs@;
        let ghost review0 = review;
        let mut pages = inputs;
        match review {
            Some(r) => pages.push(r),
            None => (),
        }
        pages.push(success);
        let r = Flow { pages, on_submit: Some(on_submit) };
        proof {
            assert(r@.pages =~= page_views(inputs0) + (match review0 {
                Some(p) => seq![view_page(p)],
                None => Seq::empty(),
            }) + seq![view_page(r.pages@.last())]);
        }
        r
    }

    /// Builds the flow into a chain of navigation continuations.
    ///
    /// The nodes are assembled so that node `i` describes page `i` at
    /// position `i + 1`; invoking a node materializes its page with the
    /// following node as its ready-made successor, which is how the
    /// right-to-left construction of the continuation chain surfaces in the
    /// arena: every successor exists before the node that hands it out.
    pub fn build(&self) -> (c: FlowChain)
        ensures
            c@ == spec_build(self@),
    {
        let n = self.pages.len();
        let mut nodes: Vec<ChainNode> = Vec::new();
        let mut i: usize = 0;
        while i < n
            invariant
                n == self.pages@.len(),
                i <= n,
                nodes@.len() == i as int,
                forall|j: int| 0 <= j < i ==> (#[trigger] nodes@[j])@ == spec_build(self@).nodes[j],
            decreases n - i,
        {
            let fire_submit = i == n - 1 && i >= 1 && self.on_submit.is_some();
            let node = ChainNode { page: self.pages[i].clone(), position: i + 1, fire_submit };
            nodes.push(node);
            i = i + 1;
        }
        let data = ChainData {
            nodes,
            on_submit: match &self.on_submit {
                Some(e) => Some(e.clone()),
                None => None,
            },
        };
        let c = FlowChain { data: Rc::new(data) };
        proof {
            assert(c@.nodes =~= spec_build(self@).nodes);
            assert(c@ =~= spec_build(self@));
        }
        c
    }
}

/// What invoking the chain's node at `i` appends to the session log: the
/// submit side effect when the transition into this node owes one, then the
/// push of the node's page, materialized against the state of this moment
/// with the following node as its ready-made successor. The submit effect,
/// when it fires, stands strictly before the push.
pub open spec fn spec_invoke_log(
    c: FlowChainV,
    i: int,
    s: Map<Seq<char>, Seq<char>>,
) -> Seq<EventV>
    recommends
        0 <= i < c.nodes.len(),
{
    let node = c.nodes[i];
    let next: Option<ContinuationV> = if i + 1 < c.nodes.len() {
        Some(ContinuationV { chain: c, index: i + 1 })
    } else {
        None
    };
    let push = seq![EventV::Pushed { page: spec_render(node.page, node.position, next, s) }];
    if node.fire_submit && c.on_submit is Some {
        seq![EventV::Submitted { label: c.on_submit->0 }] + push
    } else {
        push
    }
}

/// What the chain's entry point appends to the session log: nothing for an
/// empty chain, otherwise the invocation of the first node.
pub open spec fn spec_entry_log(c: FlowChainV, s: Map<Seq<char>, Seq<char>>) -> Seq<EventV> {
    if c.nodes.len() == 0 {
        Seq::empty()
    } else {
        spec_invoke_log(c, 0, s)
    }
}

impl FlowChain {
    /// How many pages the chain holds.
    pub fn len(&self) -> (n: usize)
        ensures
            n == self@.nodes.len(),
    {
        self.data.nodes.len()
    }

    /// Invokes the continuation at `index`: fires the submit side effect if
    /// this transition owes it, then materializes the node's page against the
    /// current state and pushes it. The state is only read, never changed.
    pub fn invoke(&self, index: usize, ctx: &mut Ctx)
        requires
            index < self@.nodes.len(),
        ensures
            final(ctx)@.state == old(ctx)@.state,
            final(ctx)@.log == old(ctx)@.log + spec_invoke_log(
                self@,
                index as int,
                old(ctx)@.state,
            ),
    {
        let node = &self.data.nodes[index];
        if node.fire_submit {
            match &self.data.on_submit {
                Some(e) => ctx.record(Event::Submitted { label: e.label.clone() }),
                None => (),
            }
        }
        proof {
            assert(self@.nodes.len() == self.data.nodes@.len());
        }
        let n = self.data.nodes.len();
        let next = if index < n - 1 {
            Some(NavigationContinuation { chain: self.clone(), index: index + 1 })
        } else {
            None
        };
        let page = node.page.build(node.position, next, &ctx.state);
        ctx.record(Event::Pushed { page });
        proof {
            assert(ctx@.log =~= old(ctx)@.log + spec_invoke_log(
                self@,
                index as int,
                old(ctx)@.state,
            ));
        }
    }

    /// The chain's entry point: a no-op for an empty chain, otherwise the
    /// invocation of the first node.
    pub fn entry(&self, ctx: &mut Ctx)
        ensures
            final(ctx)@.state == old(ctx)@.state,
            final(ctx)@.log == old(ctx)@.log + spec_entry_log(self@, old(ctx)@.state),
    {
        if self.data.nodes.len() == 0 {
            proof {
                assert(ctx@.log =~= old(ctx)@.log + Seq::<EventV>::empty());
            }
        } else {
            self.invoke(0, ctx);
        }
    }
}

} // verus!
