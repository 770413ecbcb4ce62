//! Hierarchical cancellation.
//!
//! A [`CancelTree`] is an arena of nodes. Each node is either running or
//! cancelled with a reason, and knows the children that were enrolled under
//! it. A [`CancelToken`] names one node. Cancelling a node cancels, with the
//! same reason, every node that is reached from it through running nodes;
//! a node that is already cancelled keeps the reason it has.

use vstd::prelude::*;

verus! {

/// A place in a program's text: where a cancellation was asked for.
#[derive(Clone, Copy, Debug, PartialEq, Eq)]
pub struct SourceLocation {
    pub file: &'static str,
    pub line: u32,
    pub column: u32,
}

/// Why a node was cancelled, and where the cancellation was asked for.
#[derive(Clone, Debug, PartialEq, Eq)]
pub struct CancelReason<T> {
    pub value: T,
    pub location: SourceLocation,
}

impl<T: Default> CancelReason<T> {
    /// The reason that stands in where none was given: the default value,
    /// asked for at `location`.
    pub fn default_at(location: SourceLocation) -> (reason: Self)
        ensures
            T::default.ensures((), reason.value),
            reason.location == location,
    {
        CancelReason { value: T::default(), location }
    }
}

impl<T> CancelReason<T> {
    /// The reason with `value`, asked for at `location`.
    pub fn new_with_loc(value: T, location: SourceLocation) -> (reason: Self)
        ensures
            reason.value == value,
            reason.location == location,
    {
        CancelReason { value, location }
    }
}

/// What an observer of a node sees.
#[derive(Debug)]
pub enum State<T> {
    /// Nobody has cancelled the node.
    Running,
    /// The node was cancelled, for this reason.
    Cancelled(CancelReason<T>),
}

/// The answer of a wait that is asked without suspending.
#[derive(Debug)]
pub enum Readiness<T> {
    /// Nothing to report yet: the waiter stays suspended.
    Pending,
    /// The wait is over, with this.
    Ready(T),
}

/// One node of the arena.
pub struct TreeNode<T> {
    /// Index of the reason in the tree's log; `None` while running.
    cause: Option<usize>,
    children: Vec<usize>,
    /// The reason value that a release of this node fires, if one was set.
    drop: Option<T>,
    released: bool,
}

impl<T> TreeNode<T> {
    /// The node is running, has no children, fires nothing and was not
    /// released.
    pub closed spec fn is_fresh(&self) -> bool {
        &&& self.cause is None
        &&& self.children@.len() == 0
        &&& self.drop is None
        &&& !self.released
    }

    /// A running node without children and without a reason to fire.
    pub fn new() -> (node: Self)
        ensures
            node.is_fresh(),
    {
        TreeNode { cause: None, children: Vec::new(), drop: None, released: false }
    }
}

/// The arena that holds every node, and the log of the reasons given so far.
pub struct CancelTree<T> {
    nodes: Vec<TreeNode<T>>,
    reasons: Vec<CancelReason<T>>,
}

/// The name of one node of a [`CancelTree`].
#[derive(Clone, Copy, Debug, PartialEq, Eq)]
pub struct CancelToken {
    node: usize,
}

impl CancelToken {
    /// The index of the node that this token names.
    pub closed spec fn id(&self) -> int {
        self.node as int
    }
}

impl<T> CancelTree<T> {
    /// The number of nodes made so far.
    pub closed spec fn len(&self) -> nat {
        self.nodes@.len()
    }

    /// The place in the log of the reason that node `n` holds.
    pub closed spec fn cause_of(&self, n: int) -> Option<int> {
        match self.nodes@[n].cause {
            Some(k) => Some(k as int),
            None => None,
        }
    }

    /// Every reason that a cancellation has stored, oldest first.
    pub closed spec fn reason_log(&self) -> Seq<CancelReason<T>> {
        self.reasons@
    }

    /// The children enrolled under node `n`, in the order of their enrolment.
    pub closed spec fn children_of(&self, n: int) -> Seq<int> {
        Seq::new(self.nodes@[n].children@.len(), |i: int| self.nodes@[n].children@[i] as int)
    }

    /// The reason value that a release of node `n` would fire.
    pub closed spec fn drop_value(&self, n: int) -> Option<T> {
        self.nodes@[n].drop
    }

    /// Node `n` was given up.
    pub closed spec fn is_released(&self, n: int) -> bool {
        self.nodes@[n].released
    }

    /// Node `n` was not cancelled.
    pub open spec fn is_running(&self, n: int) -> bool {
        self.cause_of(n) is None
    }

    /// What an observer of node `n` sees.
    pub open spec fn state_of(&self, n: int) -> State<T> {
        match self.cause_of(n) {
            None => State::Running,
            Some(k) => State::Cancelled(self.reason_log()[k]),
        }
    }

    /// Every stored cause points into the log, and every child was made
    /// after its parent.
    pub closed spec fn wf(&self) -> bool {
        forall|n: int|
            0 <= n < self.nodes@.len() ==> {
                &&& (#[trigger] self.nodes@[n]).cause matches Some(k) ==> k < self.reasons@.len()
                &&& forall|i: int|
                    0 <= i < self.nodes@[n].children@.len() ==> n
                        < #[trigger] self.nodes@[n].children@[i] < self.nodes@.len()
            }
    }

    /// The token names a node of this tree.
    pub open spec fn holds(&self, token: CancelToken) -> bool {
        0 <= token.id() < self.len()
    }

    /// `d` is `a` or lies below it.
    pub open spec fn descends(&self, a: int, d: int) -> bool
        decreases self.len() - a,
    {
        &&& 0 <= a < self.len()
        &&& (d == a || exists|i: int|
            0 <= i < self.children_of(a).len() && a < #[trigger] self.children_of(a)[i] < self.len()
                && self.descends(self.children_of(a)[i], d))
    }

    /// `d` is reached from `a` along a chain of running nodes, both ends
    /// included: the nodes that a cancellation of `a` changes.
    pub open spec fn reaches(&self, a: int, d: int) -> bool
        decreases self.len() - a,
    {
        &&& 0 <= a < self.len()
        &&& self.is_running(a)
        &&& (d == a || exists|i: int|
            0 <= i < self.children_of(a).len() && a < #[trigger] self.children_of(a)[i] < self.len()
                && self.reaches(self.children_of(a)[i], d))
    }

    /// The two trees have the same nodes with the same children.
    pub open spec fn same_children(&self, other: &Self) -> bool {
        &&& self.len() == other.len()
        &&& forall|n: int| 0 <= n < self.len() ==> self.children_of(n) == other.children_of(n)
    }

    /// The two trees agree on what each release would fire and on which
    /// nodes were released.
    pub open spec fn same_slots(&self, other: &Self) -> bool {
        &&& self.len() == other.len()
        &&& forall|n: int|
            0 <= n < self.len() ==> self.drop_value(n) == other.drop_value(n) && self.is_released(n)
                == other.is_released(n)
    }

    /// Every observer sees in both trees the same state.
    pub open spec fn same_states(&self, other: &Self) -> bool {
        &&& self.len() == other.len()
        &&& forall|n: int| 0 <= n < self.len() ==> self.state_of(n) == other.state_of(n)
    }

    /// `post` is `self` after node `a` was cancelled with `reason`: the nodes
    /// reached from `a` through running nodes hold `reason`, every other node
    /// holds what it held.
    pub open spec fn cancelled_into(&self, post: &Self, a: int, reason: CancelReason<T>) -> bool {
        &&& self.len() == post.len()
        &&& forall|d: int|
            0 <= d < self.len() ==> post.state_of(d) == if self.reaches(a, d) {
                State::Cancelled(reason)
            } else {
                self.state_of(d)
            }
    }

    /// Field by field: the same nodes with the same children and slots.
    spec fn same_shape(&self, other: &Self) -> bool {
        &&& self.nodes@.len() == other.nodes@.len()
        &&& forall|n: int|
            0 <= n < self.nodes@.len() ==> {
                &&& (#[trigger] self.nodes@[n]).children@ == other.nodes@[n].children@
                &&& self.nodes@[n].drop == other.nodes@[n].drop
                &&& self.nodes@[n].released == other.nodes@[n].released
            }
    }

    proof fn lemma_same_shape(&self, other: &Self)
        requires
            self.same_shape(other),
        ensures
            self.same_children(other),
            self.same_slots(other),
    {
        assert forall|n: int| 0 <= n < self.len() implies self.children_of(n) == other.children_of(
            n,
        ) by {
            let _ = self.nodes@[n];
            assert(self.children_of(n) =~= other.children_of(n));
        }
        assert forall|n: int| 0 <= n < self.len() implies self.drop_value(n) == other.drop_value(n)
            && self.is_released(n) == other.is_released(n) by {
            let _ = self.nodes@[n];
        }
    }

    /// `d` is `a`, or is reached from one of the first `i` children of `a`.
    spec fn covered(&self, a: int, i: int, d: int) -> bool {
        d == a || exists|j: int|
            0 <= j < i && j < self.children_of(a).len() && a < #[trigger] self.children_of(a)[j]
                < self.len() && self.reaches(self.children_of(a)[j], d)
    }

    proof fn lemma_reaches_monotone(&self, other: &Self, a: int, d: int)
        requires
            self.same_children(other),
            forall|n: int| 0 <= n < self.len() && other.is_running(n) ==> self.is_running(n),
            other.reaches(a, d),
        ensures
            self.reaches(a, d),
        decreases self.len() - a,
    {
        if d != a {
            let i = choose|i: int|
                0 <= i < other.children_of(a).len() && a < #[trigger] other.children_of(a)[i]
                    < other.len() && other.reaches(other.children_of(a)[i], d);
            self.lemma_reaches_monotone(other, other.children_of(a)[i], d);
            assert(self.children_of(a)[i] == other.children_of(a)[i]);
        }
    }

    proof fn lemma_reaches_transitive(&self, a: int, n: int, d: int)
        requires
            self.reaches(a, n),
            self.reaches(n, d),
        ensures
            self.reaches(a, d),
        decreases self.len() - a,
    {
        if n != a && d != a {
            let i = choose|i: int|
                0 <= i < self.children_of(a).len() && a < #[trigger] self.children_of(a)[i]
                    < self.len() && self.reaches(self.children_of(a)[i], n);
            self.lemma_reaches_transitive(self.children_of(a)[i], n, d);
        }
    }

    /// A node reached from `c` before part of the work was done is still
    /// reached from it, or the work done has covered it.
    proof fn lemma_reached_or_covered(&self, mid: &Self, a: int, i: int, c: int, d: int)
        requires
            self.same_children(mid),
            a < c,
            forall|n: int|
                0 <= n < self.len() && self.is_running(n) && !self.covered(a, i, n)
                    ==> mid.is_running(n),
            self.reaches(c, d),
        ensures
            mid.reaches(c, d) || self.covered(a, i, d),
        decreases self.len() - c,
    {
        if mid.is_running(c) {
            if d != c {
                let m = choose|m: int|
                    0 <= m < self.children_of(c).len() && c < #[trigger] self.children_of(c)[m]
                        < self.len() && self.reaches(self.children_of(c)[m], d);
                let kid = self.children_of(c)[m];
                self.lemma_reached_or_covered(mid, a, i, kid, d);
                assert(mid.children_of(c)[m] == kid);
            }
        } else {
            assert(self.covered(a, i, c));
            let j = choose|j: int|
                0 <= j < i && j < self.children_of(a).len() && a < #[trigger] self.children_of(
                    a,
                )[j] < self.len() && self.reaches(self.children_of(a)[j], c);
            self.lemma_reaches_transitive(self.children_of(a)[j], c, d);
        }
    }

    /// An empty tree.
    pub fn new() -> (tree: Self)
        ensures
            tree.wf(),
            tree.len() == 0,
            tree.reason_log().len() == 0,
    {
        CancelTree { nodes: Vec::new(), reasons: Vec::new() }
    }

    /// Whether the token names a node of this tree.
    pub fn contains(&self, token: CancelToken) -> (found: bool)
        ensures
            found == self.holds(token),
    {
        token.node < self.nodes.len()
    }

    /// Marks with cause `k` every node reached from `a` through running nodes.
    fn propagate(&mut self, a: usize, k: usize)
        requires
            old(self).wf(),
            a < old(self).nodes@.len(),
            k < old(self).reasons@.len(),
        ensures
            final(self).wf(),
            final(self).reasons@ == old(self).reasons@,
            final(self).same_shape(old(self)),
            forall|d: int|
                0 <= d < old(self).nodes@.len() ==> (#[trigger] final(self).nodes@[d]).cause == if old(
                    self,
                ).reaches(a as int, d) {
                    Some(k)
                } else {
                    old(self).nodes@[d].cause
                },
        decreases old(self).nodes@.len() - a,
    {
        if self.nodes[a].cause.is_some() {
            return ;
        }
        let ghost pre = *self;
        self.nodes[a].cause = Some(k);
        assert(self.same_shape(&pre));
        proof {
            self.lemma_same_shape(&pre);
        }
        let n = self.nodes[a].children.len();
        let mut i: usize = 0;
        while i < n
            invariant
                self.wf(),
                self.reasons@ == pre.reasons@,
                self.same_shape(&pre),
                self.same_children(&pre),
                pre.nodes@.len() == old(self).nodes@.len(),
                pre.wf(),
                pre.is_running(a as int),
                a < pre.nodes@.len(),
                k < pre.reasons@.len(),
                i <= n,
                n == pre.nodes@[a as int].children@.len(),
                forall|d: int|
                    0 <= d < pre.nodes@.len() ==> (#[trigger] self.nodes@[d]).cause == if pre.covered(
                        a as int,
                        i as int,
                        d,
                    ) {
                        Some(k)
                    } else {
                        pre.nodes@[d].cause
                    },
            decreases n - i,
        {
            let c = self.nodes[a].children[i];
            let ghost mid = *self;
            assert(pre.children_of(a as int)[i as int] == c as int);
            assert(mid.children_of(a as int)[i as int] == c as int);
            self.propagate(c, k);
            proof {
                mid.lemma_same_shape(&pre);
                assert forall|d: int| 0 <= d < pre.nodes@.len() implies (#[trigger] self.nodes@[d]).cause
                    == if pre.covered(a as int, i + 1, d) {
                    Some(k)
                } else {
                    pre.nodes@[d].cause
                } by {
                    if mid.reaches(c as int, d) {
                        assert forall|m: int| 0 <= m < pre.len() && mid.is_running(m) implies pre.is_running(
                            m,
                        ) by {
                            let _ = mid.nodes@[m];
                        }
                        pre.lemma_reaches_monotone(&mid, c as int, d);
                        assert(pre.covered(a as int, i + 1, d));
                    } else {
                        let _ = mid.nodes@[d];
                        if pre.covered(a as int, i as int, d) {
                            assert(pre.covered(a as int, i + 1, d));
                        } else {
                            if pre.reaches(c as int, d) {
                                assert forall|m: int|
                                    0 <= m < pre.len() && pre.is_running(m) && !pre.covered(
                                        a as int,
                                        i as int,
                                        m,
                                    ) implies mid.is_running(m) by {
                                    let _ = mid.nodes@[m];
                                }
                                pre.lemma_reached_or_covered(&mid, a as int, i as int, c as int, d);
                            }
                            if pre.covered(a as int, i + 1, d) {
                                let j = choose|j: int|
                                    0 <= j < i + 1 && j < pre.children_of(a as int).len() && a
                                        < #[trigger] pre.children_of(a as int)[j] < pre.len()
                                        && pre.reaches(pre.children_of(a as int)[j], d);
                                if j < i {
                                    assert(pre.covered(a as int, i as int, d));
                                }
                            }
                        }
                    }
                }
                assert(self.same_shape(&pre)) by {
                    assert forall|m: int| 0 <= m < self.nodes@.len() implies (#[trigger] self.nodes@[m]).children@
                        == pre.nodes@[m].children@ && self.nodes@[m].drop == pre.nodes@[m].drop
                        && self.nodes@[m].released == pre.nodes@[m].released by {
                        let _ = mid.nodes@[m];
                    }
                }
                self.lemma_same_shape(&pre);
            }
            i += 1;
        }
        proof {
            assert forall|d: int| 0 <= d < pre.nodes@.len() implies pre.covered(a as int, n as int, d)
                == pre.reaches(a as int, d) by {
                if pre.reaches(a as int, d) && d != a {
                    let m = choose|m: int|
                        0 <= m < pre.children_of(a as int).len() && a < #[trigger] pre.children_of(
                            a as int,
                        )[m] < pre.len() && pre.reaches(pre.children_of(a as int)[m], d);
                    assert(pre.covered(a as int, n as int, d));
                }
            }
        }
    }

    proof fn lemma_reaches_same(&self, other: &Self, a: int, d: int)
        requires
            self.same_children(other),
            forall|n: int| 0 <= n < self.len() ==> self.is_running(n) == other.is_running(n),
        ensures
            self.reaches(a, d) == other.reaches(a, d),
    {
        if other.reaches(a, d) {
            self.lemma_reaches_monotone(other, a, d);
        }
        if self.reaches(a, d) {
            other.lemma_reaches_monotone(self, a, d);
        }
    }

    proof fn lemma_reached_is_running(&self, a: int, d: int)
        requires
            self.reaches(a, d),
        ensures
            self.is_running(d),
            0 <= d < self.len(),
        decreases self.len() - a,
    {
        if d != a {
            let i = choose|i: int|
                0 <= i < self.children_of(a).len() && a < #[trigger] self.children_of(a)[i]
                    < self.len() && self.reaches(self.children_of(a)[i], d);
            self.lemma_reached_is_running(self.children_of(a)[i], d);
        }
    }

    proof fn lemma_descends_within(&self, a: int, d: int)
        requires
            self.descends(a, d),
        ensures
            a <= d < self.len(),
        decreases self.len() - a,
    {
        if d != a {
            let i = choose|i: int|
                0 <= i < self.children_of(a).len() && a < #[trigger] self.children_of(a)[i]
                    < self.len() && self.descends(self.children_of(a)[i], d);
            self.lemma_descends_within(self.children_of(a)[i], d);
        }
    }

    proof fn lemma_running_subtree_is_reached(&self, a: int, d: int)
        requires
            self.descends(a, d),
            forall|x: int| self.descends(a, x) ==> self.is_running(x),
        ensures
            self.reaches(a, d),
        decreases self.len() - a,
    {
        assert(self.descends(a, a));
        if d != a {
            let i = choose|i: int|
                0 <= i < self.children_of(a).len() && a < #[trigger] self.children_of(a)[i]
                    < self.len() && self.descends(self.children_of(a)[i], d);
            let c = self.children_of(a)[i];
            assert forall|x: int| self.descends(c, x) implies self.is_running(x) by {
                assert(self.descends(a, x));
            }
            self.lemma_running_subtree_is_reached(c, d);
        }
    }

    /// A cancellation leaves every node that was already cancelled as it
    /// was: the first reason that reaches a node is the one it keeps.
    pub proof fn law_first_cancel_wins(&self, post: &Self, a: int, reason: CancelReason<T>, d: int)
        requires
            self.cancelled_into(post, a, reason),
            0 <= d < self.len(),
            !self.is_running(d),
        ensures
            post.state_of(d) == self.state_of(d),
    {
        if self.reaches(a, d) {
            self.lemma_reached_is_running(a, d);
        }
    }

    /// A second cancellation of a node changes what no observer sees,
    /// whatever the second reason is.
    pub proof fn law_second_cancel_changes_nothing(
        &self,
        once: &Self,
        twice: &Self,
        a: int,
        first: CancelReason<T>,
        second: CancelReason<T>,
    )
        requires
            0 <= a < self.len(),
            self.cancelled_into(once, a, first),
            once.cancelled_into(twice, a, second),
        ensures
            once.same_states(twice),
    {
        assert(!once.is_running(a)) by {
            if self.reaches(a, a) {
                assert(once.state_of(a) == State::Cancelled(first));
            } else {
                assert(!self.is_running(a));
                assert(once.state_of(a) == self.state_of(a));
            }
        }
        assert forall|d: int| 0 <= d < once.len() implies once.state_of(d) == twice.state_of(d) by {
            if once.reaches(a, d) {
                assert(once.is_running(a));
            }
        }
    }

    /// Where a node and all that lies below it are running, a cancellation
    /// of the node leaves each of them cancelled with the reason given.
    pub proof fn law_cancel_reaches_every_descendant(
        &self,
        post: &Self,
        a: int,
        reason: CancelReason<T>,
        d: int,
    )
        requires
            self.cancelled_into(post, a, reason),
            forall|x: int| self.descends(a, x) ==> self.is_running(x),
            self.descends(a, d),
        ensures
            post.state_of(d) == State::Cancelled(reason),
    {
        self.lemma_descends_within(a, d);
        self.lemma_running_subtree_is_reached(a, d);
    }

    /// In `post`, node `n` is what it is in `self`.
    pub open spec fn keeps(&self, post: &Self, n: int) -> bool {
        &&& post.state_of(n) == self.state_of(n)
        &&& post.children_of(n) == self.children_of(n)
        &&& post.drop_value(n) == self.drop_value(n)
        &&& post.is_released(n) == self.is_released(n)
    }

    /// Node `n` is running, has no children, fires nothing and was not
    /// released.
    pub open spec fn is_fresh(&self, n: int) -> bool {
        &&& self.is_running(n)
        &&& self.children_of(n).len() == 0
        &&& self.drop_value(n) is None
        &&& !self.is_released(n)
    }

    fn cancel_node(&mut self, a: usize, reason: CancelReason<T>)
        requires
            old(self).wf(),
            a < old(self).nodes@.len(),
        ensures
            final(self).wf(),
            final(self).same_shape(old(self)),
            old(self).cancelled_into(final(self), a as int, reason),
    {
        if self.nodes[a].cause.is_none() {
            let ghost pre = *self;
            let k = self.reasons.len();
            self.reasons.push(reason);
            let ghost mid = *self;
            assert(mid.wf());
            self.propagate(a, k);
            proof {
                mid.lemma_same_shape(&pre);
                assert forall|d: int| 0 <= d < pre.len() implies self.state_of(d) == if pre.reaches(
                    a as int,
                    d,
                ) {
                    State::Cancelled(reason)
                } else {
                    pre.state_of(d)
                } by {
                    mid.lemma_reaches_same(&pre, a as int, d);
                    let _ = self.nodes@[d];
                    let _ = pre.nodes@[d];
                }
            }
        } else {
            assert(self.same_shape(old(self)));
        }
    }

    fn push_node(&mut self) -> (n: usize)
        requires
            old(self).wf(),
        ensures
            final(self).wf(),
            n == old(self).nodes@.len(),
            final(self).nodes@.len() == n + 1,
            final(self).reasons@ == old(self).reasons@,
            final(self).is_fresh(n as int),
            forall|m: int| 0 <= m < n ==> final(self).nodes@[m] == old(self).nodes@[m],
            forall|m: int| 0 <= m < n ==> old(self).keeps(final(self), m),
    {
        let n = self.nodes.len();
        self.nodes.push(TreeNode::new());
        assert forall|m: int| 0 <= m < n implies old(self).keeps(self, m) by {
            assert(self.children_of(m) =~= old(self).children_of(m));
        }
        n
    }
}

impl CancelToken {
    /// Makes a running node without a parent and returns its token.
    pub fn new<T>(tree: &mut CancelTree<T>) -> (token: CancelToken)
        requires
            old(tree).wf(),
        ensures
            final(tree).wf(),
            token.id() == old(tree).len(),
            final(tree).len() == old(tree).len() + 1,
            final(tree).is_fresh(token.id()),
            final(tree).reason_log() == old(tree).reason_log(),
            forall|n: int| 0 <= n < old(tree).len() ==> old(tree).keeps(final(tree), n),
    {
        let node = tree.push_node();
        CancelToken { node }
    }

    /// Sets the node back to running and forgets its children. Nothing
    /// else changes: a node that was cancelled through this one stays so.
    pub fn reset<T>(&self, tree: &mut CancelTree<T>)
        requires
            old(tree).wf(),
            old(tree).holds(*self),
        ensures
            final(tree).wf(),
            final(tree).len() == old(tree).len(),
            final(tree).is_running(self.id()),
            final(tree).children_of(self.id()).len() == 0,
            final(tree).same_slots(old(tree)),
            final(tree).reason_log() == old(tree).reason_log(),
            forall|n: int|
                0 <= n < old(tree).len() && n != self.id() ==> old(tree).keeps(final(tree), n),
    {
        let a = self.node;
        tree.nodes[a].children.clear();
        tree.nodes[a].cause = None;
        proof {
            assert forall|n: int| 0 <= n < old(tree).len() && n != self.id() implies old(tree).keeps(
                tree,
                n,
            ) by {
                assert(tree.children_of(n) =~= old(tree).children_of(n));
            }
        }
    }

    /// Cancels the node with `value`, asked for at `location`.
    pub fn cancel<T>(&self, tree: &mut CancelTree<T>, value: T, location: SourceLocation)
        requires
            old(tree).wf(),
            old(tree).holds(*self),
        ensures
            final(tree).wf(),
            final(tree).same_children(old(tree)),
            final(tree).same_slots(old(tree)),
            old(tree).cancelled_into(
                final(tree),
                self.id(),
                (CancelReason { value, location }),
            ),
    {
        self.cancel_with_reason(tree, CancelReason::new_with_loc(value, location))
    }

    /// Cancels the node: it and every node reached from it through running
    /// nodes hold `reason` afterwards; a node that was cancelled before
    /// keeps its reason, and so does all that lies below such a node.
    pub fn cancel_with_reason<T>(&self, tree: &mut CancelTree<T>, reason: CancelReason<T>)
        requires
            old(tree).wf(),
            old(tree).holds(*self),
        ensures
            final(tree).wf(),
            final(tree).same_children(old(tree)),
            final(tree).same_slots(old(tree)),
            old(tree).cancelled_into(final(tree), self.id(), reason),
    {
        tree.cancel_node(self.node, reason);
        proof {
            tree.lemma_same_shape(old(tree));
        }
    }

    /// Whether the node holds a reason.
    pub fn is_cancelled<T>(&self, tree: &CancelTree<T>) -> (cancelled: bool)
        requires
            tree.holds(*self),
        ensures
            cancelled == !tree.is_running(self.id()),
    {
        tree.nodes[self.node].cause.is_some()
    }

    /// The reason that the node holds, if it was cancelled.
    pub fn reason<'a, T>(&self, tree: &'a CancelTree<T>) -> (reason: Option<&'a CancelReason<T>>)
        requires
            tree.wf(),
            tree.holds(*self),
        ensures
            match reason {
                Some(r) => tree.state_of(self.id()) == State::Cancelled(*r),
                None => tree.state_of(self.id()) == State::<T>::Running,
            },
    {
        match tree.nodes[self.node].cause {
            Some(k) => Some(&tree.reasons[k]),
            None => None,
        }
    }

    /// What a waiter for the node's cancellation is told: the reason once
    /// the node is cancelled, and until then to wait on, also where the
    /// node was released without being cancelled.
    pub fn cancelled<'a, T>(&self, tree: &'a CancelTree<T>) -> (seen: Readiness<
        &'a CancelReason<T>,
    >)
        requires
            tree.wf(),
            tree.holds(*self),
        ensures
            match seen {
                Readiness::Ready(r) => tree.state_of(self.id()) == State::Cancelled(*r),
                Readiness::Pending => tree.state_of(self.id()) == State::<T>::Running,
            },
    {
        match self.reason(tree) {
            Some(r) => Readiness::Ready(r),
            None => Readiness::Pending,
        }
    }

    /// What a waiter for the node's cancellation or release is told: the
    /// reason once the node is cancelled; nothing once it was released
    /// while running; until then to wait on.
    pub fn cancelled_or_dropped<'a, T>(&self, tree: &'a CancelTree<T>) -> (seen: Readiness<
        Option<&'a CancelReason<T>>,
    >)
        requires
            tree.wf(),
            tree.holds(*self),
        ensures
            match seen {
                Readiness::Ready(Some(r)) => tree.state_of(self.id()) == State::Cancelled(*r),
                Readiness::Ready(None) => tree.is_running(self.id()) && tree.is_released(
                    self.id(),
                ),
                Readiness::Pending => tree.is_running(self.id()) && !tree.is_released(self.id()),
            },
    {
        match self.reason(tree) {
            Some(r) => Readiness::Ready(Some(r)),
            None => if tree.nodes[self.node].released {
                Readiness::Ready(None)
            } else {
                Readiness::Pending
            },
        }
    }

    /// A token that is cancelled when this one is. Under a running node a
    /// new node is enrolled; a cancelled node hands out itself, so that the
    /// child is born cancelled with the parent's reason.
    pub fn child<T>(&self, tree: &mut CancelTree<T>) -> (child: CancelToken)
        requires
            old(tree).wf(),
            old(tree).holds(*self),
        ensures
            final(tree).wf(),
            final(tree).reason_log() == old(tree).reason_log(),
            forall|n: int|
                0 <= n < old(tree).len() && n != self.id() ==> old(tree).keeps(final(tree), n),
            final(tree).state_of(self.id()) == old(tree).state_of(self.id()),
            final(tree).drop_value(self.id()) == old(tree).drop_value(self.id()),
            final(tree).is_released(self.id()) == old(tree).is_released(self.id()),
            old(tree).is_running(self.id()) ==> {
                &&& child.id() == old(tree).len()
                &&& final(tree).len() == old(tree).len() + 1
                &&& final(tree).is_fresh(child.id())
                &&& final(tree).children_of(self.id()) == old(tree).children_of(self.id()).push(
                    child.id(),
                )
            },
            !old(tree).is_running(self.id()) ==> {
                &&& child == *self
                &&& final(tree).len() == old(tree).len()
                &&& final(tree).children_of(self.id()) == old(tree).children_of(self.id())
            },
    {
        let a = self.node;
        if tree.nodes[a].cause.is_none() {
            let c = tree.push_node();
            let ghost mid = *tree;
            tree.nodes[a].children.push(c);
            proof {
                assert(tree.children_of(a as int) =~= old(tree).children_of(a as int).push(c as int));
                assert(tree.children_of(c as int) =~= mid.children_of(c as int));
                assert forall|n: int| 0 <= n < old(tree).len() && n != self.id() implies old(
                    tree,
                ).keeps(tree, n) by {
                    assert(old(tree).keeps(&mid, n));
                    assert(tree.children_of(n) =~= mid.children_of(n));
                }
                assert(old(tree).keeps(&mid, a as int));
            }
            CancelToken { node: c }
        } else {
            CancelToken { node: a }
        }
    }

    /// Sets the reason value that a release of the node fires. The first
    /// value set stays.
    pub fn on_drop<T>(&self, tree: &mut CancelTree<T>, value: T)
        requires
            old(tree).wf(),
            old(tree).holds(*self),
        ensures
            final(tree).wf(),
            final(tree).same_children(old(tree)),
            final(tree).same_states(old(tree)),
            final(tree).reason_log() == old(tree).reason_log(),
            final(tree).drop_value(self.id()) == if old(tree).drop_value(self.id()) is None {
                Some(value)
            } else {
                old(tree).drop_value(self.id())
            },
            final(tree).is_released(self.id()) == old(tree).is_released(self.id()),
            forall|n: int|
                0 <= n < old(tree).len() && n != self.id() ==> old(tree).keeps(final(tree), n),
    {
        let a = self.node;
        if tree.nodes[a].drop.is_none() {
            tree.nodes[a].drop = Some(value);
        }
        proof {
            assert forall|n: int| 0 <= n < old(tree).len() implies tree.children_of(n) == old(
                tree,
            ).children_of(n) && tree.state_of(n) == old(tree).state_of(n) by {
                assert(tree.children_of(n) =~= old(tree).children_of(n));
            }
        }
    }

    /// Gives the node up. Where a reason value was set for this, the node
    /// is cancelled with it first, as by `cancel` at `location`; else the
    /// release is silent and only the waiters for a release learn of it.
    pub fn release<T>(&self, tree: &mut CancelTree<T>, location: SourceLocation)
        requires
            old(tree).wf(),
            old(tree).holds(*self),
        ensures
            final(tree).wf(),
            final(tree).same_children(old(tree)),
            final(tree).drop_value(self.id()) is None,
            final(tree).is_released(self.id()),
            forall|n: int|
                0 <= n < old(tree).len() && n != self.id() ==> final(tree).drop_value(n) == old(
                    tree,
                ).drop_value(n) && final(tree).is_released(n) == old(tree).is_released(n),
            match old(tree).drop_value(self.id()) {
                Some(value) => old(tree).cancelled_into(
                    final(tree),
                    self.id(),
                    (CancelReason { value, location }),
                ),
                None => old(tree).same_states(final(tree)),
            },
    {
        let a = self.node;
        let slot = tree.nodes[a].drop.take();
        tree.nodes[a].released = true;
        let ghost mid = *tree;
        proof {
            assert forall|n: int| 0 <= n < old(tree).len() implies mid.children_of(n) == old(
                tree,
            ).children_of(n) && mid.state_of(n) == old(tree).state_of(n) by {
                assert(mid.children_of(n) =~= old(tree).children_of(n));
            }
        }
        match slot {
            Some(value) => {
                let reason = CancelReason::new_with_loc(value, location);
                tree.cancel_node(a, reason);
                proof {
                    tree.lemma_same_shape(&mid);
                    assert forall|d: int| 0 <= d < mid.len() implies mid.reaches(a as int, d) == old(
                        tree,
                    ).reaches(a as int, d) by {
                        mid.lemma_reaches_same(old(tree), a as int, d);
                    }
                }
            },
            None => {},
        }
    }
}

} // verus!
