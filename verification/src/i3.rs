//! Snapshots of the window manager's layout tree, and the order in which
//! their containers are visited.

use vstd::prelude::*;

verus! {

/// How many windows a traversal makes room for at the outset.
pub const PROBABLE_AMOUNT_OF_WINDOWS: usize = 16;

/// What the daemon needs to know of one container: its identifier, and
/// whether it holds the input focus.
#[derive(Clone, Copy, Debug, PartialEq, Eq, Structural)]
pub struct Window {
    pub id: i64,
    pub focused: bool,
}

/// One container of the layout tree with the containers below it.
#[derive(Debug, PartialEq, Eq)]
pub struct Node {
    pub id: i64,
    pub focused: bool,
    pub nodes: Vec<Node>,
}

impl Node {
    /// The container itself, without what lies below it.
    pub open spec fn window(self) -> Window {
        Window { id: self.id, focused: self.focused }
    }
}

/// The containers of a tree in visiting order: the root first, then the
/// subtrees of its children, the last child's subtree first.
pub open spec fn walk(node: Node) -> Seq<Window>
    decreases node, 0nat,
{
    seq![node.window()] + walk_stack(node.nodes@, node.nodes@.len())
}

/// The containers reached from the lowest `top` entries of a stack of trees:
/// the tree on top is walked first, then the one under it, down to the bottom.
pub open spec fn walk_stack(stack: Seq<Node>, top: nat) -> Seq<Window>
    decreases stack, top,
{
    if 0 < top <= stack.len() {
        walk(stack[top - 1]) + walk_stack(stack, (top - 1) as nat)
    } else {
        Seq::empty()
    }
}

/// Only the entries below `top` matter to a walk of the lowest `top` entries.
pub proof fn lemma_walk_stack_prefix(a: Seq<Node>, b: Seq<Node>, top: nat)
    requires
        top <= a.len(),
        top <= b.len(),
        forall|i: int| 0 <= i < top ==> a[i] == b[i],
    ensures
        walk_stack(a, top) == walk_stack(b, top),
    decreases top,
{
    if top > 0 {
        lemma_walk_stack_prefix(a, b, (top - 1) as nat);
    }
}

/// Trees put on top of a stack are walked before the trees under them.
pub proof fn lemma_walk_stack_concat(below: Seq<Node>, above: Seq<Node>, top: nat)
    requires
        top <= above.len(),
    ensures
        walk_stack(below + above, below.len() + top) == walk_stack(above, top) + walk_stack(
            below,
            below.len(),
        ),
    decreases top,
{
    let whole = below + above;
    if top == 0 {
        lemma_walk_stack_prefix(whole, below, below.len());
    } else {
        lemma_walk_stack_concat(below, above, (top - 1) as nat);
    }
}

/// A walk visits at least the root.
pub proof fn lemma_walk_starts_at_root(node: Node)
    ensures
        walk(node).len() > 0,
        walk(node)[0] == node.window(),
{
}

/// A traversal of a layout tree that goes one container at a time: the
/// containers still to come
/// are those below the trees it has stacked up.
pub struct AllWindows {
    stack: Vec<Node>,
}

impl View for AllWindows {
    type V = Seq<Window>;

    /// The containers still to come, in the order in which `next` yields them.
    closed spec fn view(&self) -> Seq<Window> {
        walk_stack(self.stack@, self.stack@.len())
    }
}

impl AllWindows {
    /// A traversal that has the whole of `root` before it.
    pub fn new(root: Node) -> (r: AllWindows)
        ensures
            r@ == walk(root),
    {
        let mut stack: Vec<Node> = Vec::with_capacity(PROBABLE_AMOUNT_OF_WINDOWS);
        stack.push(root);
        proof {
            assert(walk_stack(stack@, 0) =~= Seq::<Window>::empty());
        }
        AllWindows { stack }
    }

    /// Yields the next container, or `None` once every container was yielded.
    pub fn next(&mut self) -> (r: Option<Window>)
        ensures
            match r {
                Some(w) => old(self)@ == seq![w] + final(self)@,
                None => old(self)@.len() == 0 && final(self)@ == old(self)@,
            },
    {
        let ghost before = self.stack@;
        match self.stack.pop() {
            None => None,
            Some(node) => {
                let ghost rest = self.stack@;
                let ghost tree = node;
                let Node { id, focused, nodes } = node;
                let mut children = nodes;
                let ghost below = children@;
                self.stack.append(&mut children);
                proof {
                    lemma_walk_stack_prefix(before, rest, rest.len());
                    lemma_walk_stack_concat(rest, below, below.len());
                    assert(walk(tree) == seq![tree.window()] + walk_stack(below, below.len()));
                }
                Some(Window { id, focused })
            },
        }
    }
}

/// Questions that the daemon asks of a snapshot of the layout tree.
pub trait I3Ext: Sized {
    /// The tree that the snapshot holds.
    spec fn tree(self) -> Node;

    /// Begins a traversal of every container of the snapshot.
    fn iter_windows(self) -> (r: AllWindows)
        ensures
            r@ == walk(self.tree()),
    ;

    /// The first container in visiting order that holds the focus.
    fn get_focused_window(self) -> (r: Option<i64>)
        ensures
            r == first_focused(walk(self.tree())),
    ;
}

/// The identifier of the first focused window of a sequence, if any is
/// focused.
pub open spec fn first_focused(windows: Seq<Window>) -> Option<i64>
    decreases windows.len(),
{
    if windows.len() == 0 {
        None
    } else if windows[0].focused {
        Some(windows[0].id)
    } else {
        first_focused(windows.drop_first())
    }
}

/// The identifier of the last focused window of a sequence, if any is
/// focused.
pub open spec fn last_focused(windows: Seq<Window>) -> Option<i64>
    decreases windows.len(),
{
    if windows.len() == 0 {
        None
    } else if windows.last().focused {
        Some(windows.last().id)
    } else {
        last_focused(windows.drop_last())
    }
}

/// No window of the sequence holds the focus.
pub open spec fn none_focused(windows: Seq<Window>) -> bool {
    forall|i: int| 0 <= i < windows.len() ==> !(#[trigger] windows[i]).focused
}

/// `first_focused` names the focused window before which none is focused.
pub proof fn lemma_first_focused(windows: Seq<Window>)
    ensures
        match first_focused(windows) {
            Some(id) => exists|i: int|
                0 <= i < windows.len() && (#[trigger] windows[i]).focused && windows[i].id == id
                    && none_focused(windows.take(i)),
            None => none_focused(windows),
        },
    decreases windows.len(),
{
    if windows.len() > 0 && !windows[0].focused {
        let rest = windows.drop_first();
        lemma_first_focused(rest);
        match first_focused(rest) {
            Some(id) => {
                let i = choose|i: int|
                    0 <= i < rest.len() && (#[trigger] rest[i]).focused && rest[i].id == id
                        && none_focused(rest.take(i));
                assert forall|j: int| 0 <= j < i + 1 implies !(#[trigger] windows.take(
                    i + 1,
                )[j]).focused by {
                    if j > 0 {
                        assert(windows.take(i + 1)[j] == rest.take(i)[j - 1]);
                    }
                }
            },
            None => {
                assert forall|j: int| 0 <= j < windows.len() implies !(
                #[trigger] windows[j]).focused by {
                    if j > 0 {
                        assert(windows[j] == rest[j - 1]);
                    }
                }
            },
        }
    }
}

/// `last_focused` names the focused window after which none is focused.
pub proof fn lemma_last_focused(windows: Seq<Window>)
    ensures
        match last_focused(windows) {
            Some(id) => exists|i: int|
                0 <= i < windows.len() && (#[trigger] windows[i]).focused && windows[i].id == id
                    && none_focused(windows.skip(i + 1)),
            None => none_focused(windows),
        },
    decreases windows.len(),
{
    if windows.len() > 0 && !windows.last().focused {
        let rest = windows.drop_last();
        lemma_last_focused(rest);
        match last_focused(rest) {
            Some(id) => {
                let i = choose|i: int|
                    0 <= i < rest.len() && (#[trigger] rest[i]).focused && rest[i].id == id
                        && none_focused(rest.skip(i + 1));
                assert forall|j: int| 0 <= j < windows.skip(i + 1).len() implies !(
                #[trigger] windows.skip(i + 1)[j]).focused by {
                    if j < rest.skip(i + 1).len() {
                        assert(windows.skip(i + 1)[j] == rest.skip(i + 1)[j]);
                    }
                }
            },
            None => {
                assert forall|j: int| 0 <= j < windows.len() implies !(
                #[trigger] windows[j]).focused by {
                    if j < rest.len() {
                        assert(windows[j] == rest[j]);
                    }
                }
            },
        }
    }
}

impl Node {
    /// Every container of the tree, in visiting order.
    pub fn windows(self) -> (r: Vec<Window>)
        ensures
            r@ == walk(self),
    {
        let mut rest = AllWindows::new(self);
        let mut seen: Vec<Window> = Vec::with_capacity(PROBABLE_AMOUNT_OF_WINDOWS);
        let ghost all = rest@;
        loop
            invariant
                all == seen@ + rest@,
            ensures
                all == seen@,
            decreases rest@.len(),
        {
            match rest.next() {
                None => break,
                Some(w) => seen.push(w),
            }
        }
        seen
    }
}

impl I3Ext for Node {
    open spec fn tree(self) -> Node {
        self
    }

    fn iter_windows(self) -> (r: AllWindows) {
        AllWindows::new(self)
    }

    fn get_focused_window(self) -> (r: Option<i64>) {
        let windows = self.windows();
        find_focused(&windows)
    }
}

/// The first focused window among `windows`.
pub fn find_focused(windows: &Vec<Window>) -> (r: Option<i64>)
    ensures
        r == first_focused(windows@),
{
    let mut i: usize = 0;
    proof {
        assert(windows@.skip(0) =~= windows@);
    }
    while i < windows.len()
        invariant
            i <= windows.len(),
            first_focused(windows@) == first_focused(windows@.skip(i as int)),
        decreases windows.len() - i,
    {
        proof {
            assert(windows@.skip(i as int).drop_first() =~= windows@.skip(i + 1));
        }
        if windows[i].focused {
            return Some(windows[i].id);
        }
        i += 1;
    }
    None
}

/// What the daemon makes of the window manager's reports.
#[derive(Clone, Copy, Debug, PartialEq, Eq, Structural)]
pub enum I3Event {
    /// The focus went to another window.
    FocusChanged,
    /// The window manager is shutting down.
    Shutdown,
    /// The window with this identifier was closed.
    CloseWindow(i64),
}

/// What happened to a window, as the window manager tells it.
#[derive(Clone, Copy, Debug, PartialEq, Eq, Structural)]
pub enum WindowChange {
    New,
    Close,
    Focus,
    Title,
    FullscreenMode,
    Move,
    Floating,
    Urgent,
    Mark,
    Unknown,
}

/// A report of the window manager, with what the daemon reads of it.
#[derive(Clone, Copy, Debug, PartialEq, Eq, Structural)]
pub enum Report {
    Workspace,
    Output,
    Mode,
    /// Something happened to the window in container `container`.
    Window { change: WindowChange, container: i64 },
    BarConfig,
    Binding,
    Shutdown,
}

/// What a report means to the daemon: the close of a window, a change of
/// focus, the shutdown of the window manager, or nothing.
pub open spec fn meaning(report: Report) -> Option<I3Event> {
    match report {
        Report::Window { change: WindowChange::Close, container } => Some(
            I3Event::CloseWindow(container),
        ),
        Report::Window { change: WindowChange::Focus, .. } => Some(I3Event::FocusChanged),
        Report::Shutdown => Some(I3Event::Shutdown),
        _ => None,
    }
}

/// Sorts a report into the events that the daemon reacts to. Every other
/// report is dropped.
pub fn classify(report: Report) -> (r: Option<I3Event>)
    ensures
        r == meaning(report),
{
    match report {
        Report::Window { change, container } => match change {
            WindowChange::Close => Some(I3Event::CloseWindow(container)),
            WindowChange::Focus => Some(I3Event::FocusChanged),
            _ => None,
        },
        Report::Shutdown => Some(I3Event::Shutdown),
        _ => None,
    }
}

} // verus!
