//! Predicates over exit codes, and the coercions that turn convenient literal
//! shapes (a single code, a collection of codes) into such predicates.
use vstd::prelude::*;
use vstd::slice::slice_to_vec;
use vstd::string::*;

use crate::render::dec_str;
use crate::render::i32_to_string;
use crate::tree::render_spec;
use crate::tree::CaseTree;

verus! {

/// A predicate over a process exit code: a boolean test plus a renderable
/// explanation of a failed match.
pub trait CodePredicate: Sized {
    /// Whether the predicate accepts the given exit code.
    spec fn spec_eval(&self, item: i32) -> bool;

    /// The rendered explanation produced when the predicate rejects `item`.
    spec fn spec_case(&self, item: i32) -> Seq<char>;

    /// Evaluates the predicate on an exit code.
    fn eval(&self, item: &i32) -> (r: bool)
        ensures
            r == self.spec_eval(*item),
    ;

    /// Explains a failed match: returns a tree exactly when the predicate
    /// rejects `item`, and that tree renders as `spec_case`.
    fn find_case(&self, item: &i32) -> (r: Option<CaseTree>)
        ensures
            r is Some <==> !self.spec_eval(*item),
            r matches Some(t) ==> render_spec(t) == self.spec_case(*item),
    ;
}

/// Coercion of a convenient literal shape into a [`CodePredicate`], fixing
/// both what the coerced predicate accepts and how it explains a mismatch.
pub trait IntoCodePredicate<P: CodePredicate>: Sized {
    /// Whether the coerced predicate accepts the given exit code.
    spec fn spec_accepts(&self, item: i32) -> bool;

    /// The explanation the coerced predicate renders when it rejects `item`.
    spec fn spec_explain(&self, item: i32) -> Seq<char>;

    /// Converts to a predicate for testing a program's exit code.
    fn into_code(self) -> (r: P)
        ensures
            forall|c: i32| r.spec_eval(c) == self.spec_accepts(c),
            forall|c: i32| r.spec_case(c) == self.spec_explain(c),
    ;
}

impl<P: CodePredicate> IntoCodePredicate<P> for P {
    open spec fn spec_accepts(&self, item: i32) -> bool {
        self.spec_eval(item)
    }

    open spec fn spec_explain(&self, item: i32) -> Seq<char> {
        self.spec_case(item)
    }

    fn into_code(self) -> (r: P) {
        self
    }
}

/// The explanation text for an exit code that failed an equality check.
pub open spec fn eq_code_case(expected: i32, item: i32) -> Seq<char> {
    "code == "@ + dec_str(expected as int) + "\n"@ + "  actual: "@ + dec_str(item as int) + "\n"@
}

/// The rendering of a collection of exit codes, comma separated.
pub open spec fn codes_list_spec(s: Seq<i32>) -> Seq<char>
    decreases s.len(),
{
    if s.len() == 0 {
        Seq::<char>::empty()
    } else if s.len() == 1 {
        dec_str(s[0] as int)
    } else {
        codes_list_spec(s.drop_last()) + ", "@ + dec_str(s.last() as int)
    }
}

/// The explanation text for an exit code that failed a membership check.
pub open spec fn in_code_case(codes: Seq<i32>, item: i32) -> Seq<char> {
    "code in ["@ + codes_list_spec(codes) + "]"@ + "\n"@ + "  actual: "@ + dec_str(item as int)
        + "\n"@
}

/// Builds the leaf that reports the observed exit code.
fn actual_code_leaf(item: i32) -> (r: CaseTree)
    ensures
        render_spec(r) == "  actual: "@ + dec_str(item as int) + "\n"@,
{
    let mut label = String::from_str("  actual: ");
    let d = i32_to_string(item);
    label.append(d.as_str());
    let r = CaseTree::leaf(label);
    proof {
        assert(render_spec(r) =~= "  actual: "@ + dec_str(item as int) + "\n"@);
    }
    r
}

/// A predicate that accepts exactly one exit code.
pub struct EqCodePredicate {
    pub expected: i32,
}

impl EqCodePredicate {
    /// The predicate accepting exactly `value`.
    pub fn new(value: i32) -> (r: Self)
        ensures
            r.expected == value,
    {
        EqCodePredicate { expected: value }
    }
}

impl CodePredicate for EqCodePredicate {
    open spec fn spec_eval(&self, item: i32) -> bool {
        item == self.expected
    }

    open spec fn spec_case(&self, item: i32) -> Seq<char> {
        eq_code_case(self.expected, item)
    }

    fn eval(&self, item: &i32) -> (r: bool) {
        *item == self.expected
    }

    fn find_case(&self, item: &i32) -> (r: Option<CaseTree>) {
        if *item == self.expected {
            None
        } else {
            let mut label = String::from_str("code == ");
            let d = i32_to_string(self.expected);
            label.append(d.as_str());
            let t = CaseTree::node_with_child(label, actual_code_leaf(*item));
            proof {
                assert(render_spec(t) =~= eq_code_case(self.expected, *item));
            }
            Some(t)
        }
    }
}

impl IntoCodePredicate<EqCodePredicate> for i32 {
    open spec fn spec_accepts(&self, item: i32) -> bool {
        item == *self
    }

    open spec fn spec_explain(&self, item: i32) -> Seq<char> {
        eq_code_case(*self, item)
    }

    fn into_code(self) -> (r: EqCodePredicate) {
        EqCodePredicate::new(self)
    }
}

/// A predicate that accepts exactly the members of a collection of codes.
pub struct InCodePredicate {
    pub expected: Vec<i32>,
}

impl InCodePredicate {
    /// The predicate accepting exactly the members of `value`.
    pub fn new(value: Vec<i32>) -> (r: Self)
        ensures
            r.expected == value,
    {
        InCodePredicate { expected: value }
    }
}

/// Whether a collection of codes holds the given one.
fn contains_code(v: &Vec<i32>, item: i32) -> (r: bool)
    ensures
        r == v@.contains(item),
{
    let mut i: usize = 0;
    while i < v.len()
        invariant
            i <= v@.len(),
            forall|j: int| 0 <= j < i ==> v@[j] != item,
        decreases v@.len() - i,
    {
        if v[i] == item {
            return true;
        }
        i += 1;
    }
    false
}

/// Renders a collection of codes, comma separated.
fn codes_list(v: &Vec<i32>) -> (r: String)
    ensures
        r@ == codes_list_spec(v@),
{
    let mut s = String::new();
    let mut i: usize = 0;
    proof {
        assert(v@.take(0) =~= Seq::<i32>::empty());
    }
    while i < v.len()
        invariant
            i <= v@.len(),
            s@ == codes_list_spec(v@.take(i as int)),
        decreases v@.len() - i,
    {
        if i > 0 {
            s.append(", ");
        }
        let d = i32_to_string(v[i]);
        s.append(d.as_str());
        proof {
            let pre = v@.take(i + 1);
            assert(pre.drop_last() =~= v@.take(i as int));
            assert(pre.last() == v@[i as int]);
            assert(s@ =~= codes_list_spec(pre));
        }
        i += 1;
    }
    proof {
        assert(v@.take(v@.len() as int) =~= v@);
    }
    s
}

impl CodePredicate for InCodePredicate {
    open spec fn spec_eval(&self, item: i32) -> bool {
        self.expected@.contains(item)
    }

    open spec fn spec_case(&self, item: i32) -> Seq<char> {
        in_code_case(self.expected@, item)
    }

    fn eval(&self, item: &i32) -> (r: bool) {
        contains_code(&self.expected, *item)
    }

    fn find_case(&self, item: &i32) -> (r: Option<CaseTree>) {
        if contains_code(&self.expected, *item) {
            None
        } else {
            let mut label = String::from_str("code in [");
            let l = codes_list(&self.expected);
            label.append(l.as_str());
            label.append("]");
            let t = CaseTree::node_with_child(label, actual_code_leaf(*item));
            proof {
                assert(render_spec(t) =~= in_code_case(self.expected@, *item));
            }
            Some(t)
        }
    }
}

impl IntoCodePredicate<InCodePredicate> for Vec<i32> {
    open spec fn spec_accepts(&self, item: i32) -> bool {
        self@.contains(item)
    }

    open spec fn spec_explain(&self, item: i32) -> Seq<char> {
        in_code_case(self@, item)
    }

    fn into_code(self) -> (r: InCodePredicate) {
        InCodePredicate::new(self)
    }
}

impl IntoCodePredicate<InCodePredicate> for &'static [i32] {
    open spec fn spec_accepts(&self, item: i32) -> bool {
        self@.contains(item)
    }

    open spec fn spec_explain(&self, item: i32) -> Seq<char> {
        in_code_case(self@, item)
    }

    fn into_code(self) -> (r: InCodePredicate) {
        InCodePredicate::new(slice_to_vec(self))
    }
}

/// Coercing a single integer yields a predicate that accepts exactly that
/// integer and rejects every other exit code.
pub proof fn lemma_int_coercion_exact(n: i32, c: i32)
    ensures
        n.spec_accepts(c) <==> c == n,
{
}

/// Coercing a collection of integers yields a predicate that accepts exactly
/// the members of the collection.
pub proof fn lemma_collection_coercion_exact(v: Vec<i32>, c: i32)
    ensures
        v.spec_accepts(c) <==> v@.contains(c),
{
}

/// Coercing a borrowed slice of integers yields a predicate that accepts
/// exactly the members of the slice.
pub proof fn lemma_slice_coercion_exact(v: &'static [i32], c: i32)
    ensures
        v.spec_accepts(c) <==> v@.contains(c),
{
}

} // verus!
