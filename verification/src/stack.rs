use vstd::prelude::*;

use crate::canvas::{DrawOp, OpView};
use crate::transform::{Prim, Transform};

verus! {

/// The engine's per-frame drawing state, modelled as an explicit value: the
/// model-matrix stack, whose top is the effective transform every draw call
/// renders under, and the draws recorded so far. The stack always holds at
/// least the identity entry, as the engine initializes it; all mutation
/// goes through the scoped operations, which keep push and pop balanced.
pub struct Gl {
    pub stack: Vec<Transform>,
    pub ops: Vec<DrawOp>,
}

/// A stack after pushing one transform: the engine composes the new entry
/// from the current top, so the entry below stays the frame to restore.
pub open spec fn pushed(stack: Seq<Seq<Prim>>, t: Seq<Prim>) -> Seq<Seq<Prim>> {
    stack.push(stack.last() + t)
}

/// A stack after pushing each transform of `ts` in sequence order.
pub open spec fn pushed_many(stack: Seq<Seq<Prim>>, ts: Seq<Seq<Prim>>) -> Seq<Seq<Prim>>
    decreases ts.len(),
{
    if ts.len() == 0 {
        stack
    } else {
        pushed(pushed_many(stack, ts.drop_last()), ts.last())
    }
}

/// The single composition of a sequence of transforms, in sequence order.
pub open spec fn concat_all(ts: Seq<Seq<Prim>>) -> Seq<Prim>
    decreases ts.len(),
{
    if ts.len() == 0 {
        Seq::empty()
    } else {
        concat_all(ts.drop_last()) + ts.last()
    }
}

/// The views of a sequence of transforms.
pub open spec fn views_of(ts: Seq<Transform>) -> Seq<Seq<Prim>> {
    ts.map_values(|t: Transform| t@)
}

impl Gl {
    /// The stack as the sequence of step sequences its entries denote.
    pub open spec fn stack_view(&self) -> Seq<Seq<Prim>> {
        self.stack@.map_values(|t: Transform| t@)
    }

    /// The recorded draws.
    pub open spec fn ops_view(&self) -> Seq<OpView> {
        self.ops@.map_values(|op: DrawOp| op@)
    }

    /// The stack is never empty: its bottom entry is the frame the engine
    /// started with.
    pub open spec fn wf(&self) -> bool {
        self.stack_view().len() >= 1
    }

    /// The effective transform: what the next draw call renders under.
    pub open spec fn effective(&self) -> Seq<Prim> {
        self.stack_view().last()
    }

    /// A fresh drawing state: the identity frame, nothing drawn.
    pub fn new() -> (gl: Gl)
        ensures
            gl.wf(),
            gl.stack_view() == seq![Seq::<Prim>::empty()],
            gl.ops_view() == Seq::<OpView>::empty(),
    {
        let gl = Gl { stack: vec![Transform::identity()], ops: Vec::new() };
        proof {
            assert(gl.stack_view() =~= seq![Seq::<Prim>::empty()]);
            assert(gl.ops_view() =~= Seq::<OpView>::empty());
        }
        gl
    }

    /// The depth of the transform stack.
    pub fn depth(&self) -> (d: usize)
        ensures
            d == self.stack_view().len(),
    {
        self.stack.len()
    }

    /// The current effective transform.
    pub fn model(&self) -> (t: &Transform)
        requires
            self.wf(),
        ensures
            t@ == self.effective(),
    {
        &self.stack[self.stack.len() - 1]
    }

    /// Pushes one transform: the new top is the old top with `matrix`
    /// nested inside it.
    fn push_model_matrix(&mut self, matrix: &Transform)
        requires
            old(self).wf(),
        ensures
            final(self).wf(),
            final(self).stack_view() == pushed(old(self).stack_view(), matrix@),
            final(self).ops_view() == old(self).ops_view(),
    {
        let composed = self.model().duplicate().compose(matrix.duplicate());
        self.stack.push(composed);
        proof {
            assert(self.stack_view() =~= pushed(old(self).stack_view(), matrix@));
            assert(self.ops_view() =~= old(self).ops_view());
        }
    }

    /// Pops one entry, keeping the engine's guard: the bottom entry stays.
    fn pop_model_matrix(&mut self)
        ensures
            old(self).stack_view().len() > 1 ==> final(self).stack_view() == old(
                self,
            ).stack_view().drop_last(),
            old(self).stack_view().len() <= 1 ==> final(self).stack_view() == old(
                self,
            ).stack_view(),
            final(self).ops_view() == old(self).ops_view(),
    {
        if self.stack.len() > 1 {
            self.stack.pop();
            proof {
                assert(self.stack_view() =~= old(self).stack_view().drop_last());
                assert(self.ops_view() =~= old(self).ops_view());
            }
        }
    }
}

/// Runs `f` with `matrix` applied: everything the body draws renders under
/// the old effective transform with `matrix` nested inside it, and the
/// stack is restored to its pre-call state afterwards — depth in equals
/// depth out, however deeply the body nests further scopes.
///
/// The body must be scope-balanced: it hands back a state with the stack it
/// received, which every composition of the library's scoped operations
/// does.
pub fn apply<F: FnOnce(Gl) -> Gl>(gl: Gl, matrix: Transform, f: F) -> (out: Gl)
    requires
        gl.wf(),
        forall|g: Gl|
            g.wf() && g.stack_view() == pushed(gl.stack_view(), matrix@) && g.ops_view()
                == gl.ops_view() ==> #[trigger] call_requires(f, (g,)),
        forall|g1: Gl, g2: Gl| #[trigger] call_ensures(f, (g1,), g2) ==> g2.stack_view()
            == g1.stack_view(),
    ensures
        out.wf(),
        out.stack_view() == gl.stack_view(),
        exists|g1: Gl, g2: Gl|
            g1.wf() && g1.stack_view() == pushed(gl.stack_view(), matrix@) && g1.ops_view()
                == gl.ops_view() && #[trigger] call_ensures(f, (g1,), g2) && out.ops_view()
                == g2.ops_view(),
{
    let ghost orig = gl;
    let mut inner = gl;
    inner.push_model_matrix(&matrix);
    let ghost pushed_state = inner;
    let mut out = f(inner);
    let ghost returned = out;
    out.pop_model_matrix();
    proof {
        assert(returned.stack_view() == pushed_state.stack_view());
        assert(out.stack_view() =~= orig.stack_view());
        assert(call_ensures(f, (pushed_state,), returned) && out.ops_view()
            == returned.ops_view());
    }
    out
}

/// How long a stack is after pushing a sequence of transforms.
pub proof fn lemma_pushed_many_len(stack: Seq<Seq<Prim>>, ts: Seq<Seq<Prim>>)
    ensures
        pushed_many(stack, ts).len() == stack.len() + ts.len(),
    decreases ts.len(),
{
    if ts.len() > 0 {
        lemma_pushed_many_len(stack, ts.drop_last());
    }
}

/// Law: nesting one scoped transform inside another composes. The body of
/// the inner scope renders under the same effective transform as the body
/// of a single scope that applies the composition `a + b`, and either way
/// the stack below the scopes is the untouched original.
pub proof fn lemma_nested_apply_composes(stack: Seq<Seq<Prim>>, a: Seq<Prim>, b: Seq<Prim>)
    requires
        stack.len() >= 1,
    ensures
        pushed(pushed(stack, a), b).last() == pushed(stack, a + b).last(),
        pushed(pushed(stack, a), b).drop_last().drop_last() == stack,
        pushed(stack, a + b).drop_last() == stack,
{
    assert((stack.last() + a) + b =~= stack.last() + (a + b));
    assert(pushed(pushed(stack, a), b).drop_last().drop_last() =~= stack);
    assert(pushed(stack, a + b).drop_last() =~= stack);
}

/// Law: pushing a sequence of transforms in listed order — the first listed
/// outermost — leaves as effective transform the old one with the single
/// composition of the whole sequence nested inside it.
pub proof fn lemma_apply_many_effective(stack: Seq<Seq<Prim>>, ts: Seq<Seq<Prim>>)
    requires
        stack.len() >= 1,
    ensures
        pushed_many(stack, ts).last() == stack.last() + concat_all(ts),
    decreases ts.len(),
{
    if ts.len() == 0 {
        assert(stack.last() + concat_all(ts) =~= stack.last());
    } else {
        lemma_pushed_many_len(stack, ts.drop_last());
        lemma_apply_many_effective(stack, ts.drop_last());
        assert((stack.last() + concat_all(ts.drop_last())) + ts.last() =~= stack.last() + (
        concat_all(ts.drop_last()) + ts.last()));
    }
}

/// Runs `f` with each transform of `transforms` pushed in listed order —
/// the first listed is the outermost frame — then pops exactly as many
/// entries, so the stack is restored whatever the body drew.
pub fn apply_transforms<F: FnOnce(Gl) -> Gl>(gl: Gl, transforms: &Vec<Transform>, f: F) -> (out:
    Gl)
    requires
        gl.wf(),
        forall|g: Gl|
            g.wf() && g.stack_view() == pushed_many(gl.stack_view(), views_of(transforms@))
                && g.ops_view() == gl.ops_view() ==> #[trigger] call_requires(f, (g,)),
        forall|g1: Gl, g2: Gl| #[trigger] call_ensures(f, (g1,), g2) ==> g2.stack_view()
            == g1.stack_view(),
    ensures
        out.wf(),
        out.stack_view() == gl.stack_view(),
        exists|g1: Gl, g2: Gl|
            g1.wf() && g1.stack_view() == pushed_many(gl.stack_view(), views_of(transforms@))
                && g1.ops_view() == gl.ops_view() && #[trigger] call_ensures(f, (g1,), g2)
                && out.ops_view() == g2.ops_view(),
{
    let ghost orig = gl;
    let mut inner = gl;
    let n = transforms.len();
    let mut i: usize = 0;
    while i < n
        invariant
            orig.wf(),
            inner.wf(),
            n == transforms@.len(),
            i <= n,
            inner.stack_view() == pushed_many(orig.stack_view(), views_of(transforms@.take(
                i as int,
            ))),
            inner.ops_view() == orig.ops_view(),
        decreases n - i,
    {
        let ghost before = views_of(transforms@.take(i as int));
        inner.push_model_matrix(&transforms[i]);
        i += 1;
        proof {
            let after = views_of(transforms@.take(i as int));
            assert(after.drop_last() =~= before);
            assert(after.last() == transforms@[i - 1]@);
            assert(inner.stack_view() == pushed_many(orig.stack_view(), after));
        }
    }
    proof {
        assert(transforms@.take(n as int) =~= transforms@);
    }
    let ghost pushed_state = inner;
    let mut out = f(inner);
    let ghost returned = out;
    let mut j: usize = 0;
    while j < n
        invariant
            orig.wf(),
            n == transforms@.len(),
            j <= n,
            out.stack_view() == pushed_many(orig.stack_view(), views_of(transforms@.take(
                (n - j) as int,
            ))),
            out.ops_view() == returned.ops_view(),
        decreases n - j,
    {
        proof {
            let vs = views_of(transforms@.take((n - j) as int));
            lemma_pushed_many_len(orig.stack_view(), vs.drop_last());
            assert(pushed_many(orig.stack_view(), vs) == pushed(
                pushed_many(orig.stack_view(), vs.drop_last()),
                vs.last(),
            ));
        }
        out.pop_model_matrix();
        j += 1;
        proof {
            let vs = views_of(transforms@.take((n - j + 1) as int));
            assert(out.stack_view() == pushed_many(orig.stack_view(), vs.drop_last()));
            assert(vs.drop_last() =~= views_of(transforms@.take((n - j) as int)));
        }
    }
    proof {
        assert(views_of(transforms@.take(0)) =~= Seq::<Seq<Prim>>::empty());
        assert(out.stack_view() == orig.stack_view());
        assert(call_ensures(f, (pushed_state,), returned) && out.ops_view()
            == returned.ops_view());
    }
    out
}

/// `apply` under its other name.
pub fn apply_transform<F: FnOnce(Gl) -> Gl>(gl: Gl, transform: Transform, f: F) -> (out: Gl)
    requires
        gl.wf(),
        forall|g: Gl|
            g.wf() && g.stack_view() == pushed(gl.stack_view(), transform@) && g.ops_view()
                == gl.ops_view() ==> #[trigger] call_requires(f, (g,)),
        forall|g1: Gl, g2: Gl| #[trigger] call_ensures(f, (g1,), g2) ==> g2.stack_view()
            == g1.stack_view(),
    ensures
        out.wf(),
        out.stack_view() == gl.stack_view(),
        exists|g1: Gl, g2: Gl|
            g1.wf() && g1.stack_view() == pushed(gl.stack_view(), transform@) && g1.ops_view()
                == gl.ops_view() && #[trigger] call_ensures(f, (g1,), g2) && out.ops_view()
                == g2.ops_view(),
{
    apply(gl, transform, f)
}

} // verus!
