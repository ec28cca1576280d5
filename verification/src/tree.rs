//! The tagged explanation tree that a failed predicate match produces: a node
//! label plus the explanations of its failing sub-predicates.
use vstd::prelude::*;
use vstd::string::*;

verus! {

/// A structured explanation of why a match failed.
pub struct CaseTree {
    pub label: String,
    pub children: Vec<CaseTree>,
}

/// The rendered text of an explanation tree: the label on its own line,
/// followed by the rendering of each child in order.
pub open spec fn render_spec(t: CaseTree) -> Seq<char>
    decreases t,
{
    t.label@ + "\n"@ + render_children_spec(t.children@)
}

/// The rendered text of a sequence of explanation trees, in order.
pub open spec fn render_children_spec(cs: Seq<CaseTree>) -> Seq<char>
    decreases cs,
{
    if cs.len() == 0 {
        Seq::<char>::empty()
    } else {
        render_spec(cs[0]) + render_children_spec(cs.drop_first())
    }
}

/// Rendering a child list one tree at a time matches rendering it whole.
proof fn lemma_render_children_push(cs: Seq<CaseTree>, t: CaseTree)
    ensures
        render_children_spec(cs.push(t)) == render_children_spec(cs) + render_spec(t),
    decreases cs,
{
    if cs.len() == 0 {
        assert(cs.push(t).drop_first() =~= Seq::<CaseTree>::empty());
        assert(cs.push(t)[0] == t);
        assert(render_children_spec(cs.push(t)) == render_spec(t) + render_children_spec(
            Seq::<CaseTree>::empty(),
        ));
        assert(render_children_spec(cs.push(t)) =~= render_children_spec(cs) + render_spec(t));
    } else {
        assert(cs.push(t).drop_first() =~= cs.drop_first().push(t));
        lemma_render_children_push(cs.drop_first(), t);
        assert(cs.push(t)[0] == cs[0]);
        assert(render_children_spec(cs.push(t)) == render_spec(cs[0]) + (render_children_spec(
            cs.drop_first(),
        ) + render_spec(t)));
        assert(render_children_spec(cs.push(t)) =~= render_children_spec(cs) + render_spec(t));
    }
}

impl CaseTree {
    /// A node with no sub-explanations.
    pub fn leaf(label: String) -> (r: CaseTree)
        ensures
            r.label == label,
            r.children@ == Seq::<CaseTree>::empty(),
    {
        CaseTree { label, children: Vec::new() }
    }

    /// A node holding one sub-explanation.
    pub fn node_with_child(label: String, child: CaseTree) -> (r: CaseTree)
        ensures
            render_spec(r) == label@ + "\n"@ + render_spec(child),
    {
        let mut children: Vec<CaseTree> = Vec::new();
        let ghost child_snap = child;
        children.push(child);
        let r = CaseTree { label, children };
        proof {
            assert(r.children@ =~= seq![child_snap]);
            assert(r.children@.drop_first() =~= Seq::<CaseTree>::empty());
            assert(render_children_spec(Seq::<CaseTree>::empty()) =~= Seq::<char>::empty());
            assert(render_children_spec(r.children@) =~= render_spec(child_snap));
            assert(render_spec(r) =~= r.label@ + "\n"@ + render_spec(child_snap));
        }
        r
    }

    /// Renders the tree as text, one label per line.
    pub fn render(&self) -> (r: String)
        ensures
            r@ == render_spec(*self),
        decreases *self,
    {
        let mut s = self.label.clone();
        s.append("\n");
        let mut i: usize = 0;
        proof {
            assert(self.children@.take(0) =~= Seq::<CaseTree>::empty());
        }
        while i < self.children.len()
            invariant
                i <= self.children@.len(),
                s@ == self.label@ + "\n"@ + render_children_spec(self.children@.take(i as int)),
            decreases self.children@.len() - i,
    {
            let c = self.children[i].render();
            s.append(c.as_str());
            proof {
                assert(self.children@.take(i as int).push(self.children@[i as int])
                    =~= self.children@.take(i + 1));
                lemma_render_children_push(self.children@.take(i as int), self.children@[i as int]);
                assert(s@ =~= self.label@ + "\n"@ + render_children_spec(
                    self.children@.take(i + 1),
                ));
            }
            i += 1;
        }
        proof {
            assert(self.children@.take(self.children@.len() as int) =~= self.children@);
        }
        s
    }
}

} // verus!
