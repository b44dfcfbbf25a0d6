use vstd::prelude::*;

verus! {

/// Where the operator stands in the hierarchy, with the identifiers needed
/// to fetch that level again.
#[derive(Debug, PartialEq, Eq)]
pub enum ViewType {
    ProfileSelect,
    Projects,
    Targets { project: String },
    Services { project: String, target: String },
    Schema { project: String, target: String, service: String },
}

impl Clone for ViewType {
    /// An equal view.
    fn clone(&self) -> (r: Self)
        ensures
            r == *self,
    {
        match self {
            ViewType::ProfileSelect => ViewType::ProfileSelect,
            ViewType::Projects => ViewType::Projects,
            ViewType::Targets { project } => ViewType::Targets { project: project.clone() },
            ViewType::Services { project, target } => ViewType::Services {
                project: project.clone(),
                target: target.clone(),
            },
            ViewType::Schema { project, target, service } => ViewType::Schema {
                project: project.clone(),
                target: target.clone(),
                service: service.clone(),
            },
        }
    }
}

/// The abstract state of a navigation stack: the path of views taken from
/// the root, and the view shown now.
pub struct NavState {
    pub history: Seq<ViewType>,
    pub current: ViewType,
}

impl NavState {
    /// Descend into `v`: the view shown now joins the path.
    pub open spec fn pushed(self, v: ViewType) -> NavState {
        NavState { history: self.history.push(self.current), current: v }
    }

    /// Ascend one level; at the root nothing changes.
    pub open spec fn popped(self) -> NavState {
        if self.history.len() == 0 {
            self
        } else {
            NavState { history: self.history.drop_last(), current: self.history.last() }
        }
    }

    /// Descend into each view of `vs`, in order.
    pub open spec fn pushed_all(self, vs: Seq<ViewType>) -> NavState
        decreases vs.len(),
    {
        if vs.len() == 0 {
            self
        } else {
            self.pushed_all(vs.drop_last()).pushed(vs.last())
        }
    }

    /// Ascend `n` times.
    pub open spec fn popped_n(self, n: nat) -> NavState
        decreases n,
    {
        if n == 0 {
            self
        } else {
            self.popped().popped_n((n - 1) as nat)
        }
    }
}

/// The current view and the path of views that led to it.
pub struct NavigationStack {
    stack: Vec<ViewType>,
    current: ViewType,
}

impl View for NavigationStack {
    type V = NavState;

    closed spec fn view(&self) -> NavState {
        NavState { history: self.stack@, current: self.current }
    }
}

impl NavigationStack {
    /// A stack at the root, with no way back.
    pub fn new() -> (r: Self)
        ensures
            r@.history.len() == 0,
            r@.current == ViewType::ProfileSelect,
    {
        NavigationStack { stack: Vec::new(), current: ViewType::ProfileSelect }
    }

    /// Descend into `view`; the view shown until now becomes the way back.
    pub fn push(&mut self, view: ViewType)
        ensures
            final(self)@ == old(self)@.pushed(view),
    {
        let previous = self.current.clone();
        self.stack.push(previous);
        self.current = view;
    }

    /// Return to the view before the current one. At the root nothing
    /// changes and the result is `false`.
    pub fn pop(&mut self) -> (r: bool)
        ensures
            r == (old(self)@.history.len() > 0),
            final(self)@ == old(self)@.popped(),
    {
        match self.stack.pop() {
            Some(previous) => {
                self.current = previous;
                true
            },
            None => false,
        }
    }

    /// Whether there is a view to return to.
    pub fn can_go_back(&self) -> (r: bool)
        ensures
            r == (self@.history.len() > 0),
    {
        self.stack.len() > 0
    }

    /// The view shown now.
    pub fn current(&self) -> (r: &ViewType)
        ensures
            *r == self@.current,
    {
        &self.current
    }
}

impl Default for NavigationStack {
    fn default() -> (r: Self)
        ensures
            r@.history.len() == 0,
            r@.current == ViewType::ProfileSelect,
    {
        Self::new()
    }
}

/// Ascending once undoes a descent: the state is the one before the push.
pub proof fn lemma_pop_undoes_push(s: NavState, v: ViewType)
    ensures
        s.pushed(v).popped() == s,
{
    assert(s.pushed(v).history.drop_last() =~= s.history);
}

/// After descending through any views and ascending as many times, the
/// stack is back where it started; from the root, no way back is left.
pub proof fn lemma_push_all_pop_all(s: NavState, vs: Seq<ViewType>)
    ensures
        s.pushed_all(vs).popped_n(vs.len()) == s,
        s.history.len() == 0 ==> s.pushed_all(vs).popped_n(vs.len()).history.len() == 0,
    decreases vs.len(),
{
    if vs.len() > 0 {
        let rest = vs.drop_last();
        lemma_pop_undoes_push(s.pushed_all(rest), vs.last());
        lemma_push_all_pop_all(s, rest);
    }
}

/// At the root, ascending changes nothing, however often it is tried.
pub proof fn lemma_pop_at_root(s: NavState, n: nat)
    requires
        s.history.len() == 0,
    ensures
        s.popped() == s,
        s.popped_n(n) == s,
    decreases n,
{
    if n > 0 {
        lemma_pop_at_root(s, (n - 1) as nat);
    }
}

} // verus!
