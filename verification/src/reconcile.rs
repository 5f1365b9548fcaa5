//! The symlink reconciler: which filesystem operations make a destination
//! a symbolic link to its source, or take such a link away, without ever
//! touching anything that is not a symbolic link.
//!
//! The reconciler decides and the caller acts. It starts with [`begin`],
//! which gives a [`State`]. While [`State::request`] names an
//! [`Operation`], the caller performs it on the destination and hands the
//! filesystem's [`Reply`] to [`advance`]. When the state is
//! [`State::Finished`], [`conclude`] turns its [`End`] into a result.

use vstd::prelude::*;
use crate::failure::{failed, Failure, FailureView, Reason};

verus! {

/// What is wanted of a destination.
#[derive(Clone, Copy, Debug, PartialEq, Eq, Structural)]
pub enum Goal {
    /// The destination is to be a symbolic link to the source.
    Link,
    /// The symbolic link at the destination is to go.
    Unlink,
}

/// One operation on the filesystem, always on the destination.
#[derive(Clone, Copy, Debug, PartialEq, Eq, Structural)]
pub enum Operation {
    /// Create a symbolic link at the destination that points to the source.
    Create,
    /// Look at what is at the destination, without following a link.
    Inspect,
    /// Remove the file at the destination.
    Remove,
}

/// What the filesystem answered to an operation.
#[derive(Clone, Copy, Debug, PartialEq, Eq, Structural)]
pub enum Reply {
    /// The link was created, or the file removed.
    Done,
    /// Inspected: a symbolic link is there.
    Symlink,
    /// Inspected: something is there that is not a symbolic link.
    NotSymlink,
    /// Refused, because something is at the destination already.
    Exists,
    /// Refused, because nothing is at the destination.
    Missing,
    /// Any other failure.
    Failed,
}

/// How a reconciliation ended.
#[derive(Clone, Copy, Debug, PartialEq, Eq, Structural)]
pub enum End {
    /// A link was created where nothing was.
    Linked,
    /// A link was there, and a new one has taken its place.
    Replaced,
    /// The link was removed.
    Removed,
    /// Nothing was there to remove.
    Absent,
    /// Dry run: nothing was asked of the filesystem.
    Planned,
    /// Something other than a symbolic link is at the destination. It was
    /// left alone.
    Conflict,
    /// The filesystem failed in another way.
    Failed,
}

/// Where a reconciliation stands.
#[derive(Clone, Copy, Debug, PartialEq, Eq, Structural)]
pub enum State {
    /// The link is to be created.
    Creating,
    /// The destination is in the way, or is to go: it is to be inspected.
    Inspecting,
    /// A symbolic link was found: it is to be removed.
    Removing,
    /// The old link is gone: the new one is to be created, once.
    Recreating,
    /// Nothing more is to be done.
    Finished(End),
}

/// The state in which a reconciliation starts. Under a dry run it is
/// finished before it has begun.
pub open spec fn started(goal: Goal, dry_run: bool) -> State {
    if dry_run {
        State::Finished(End::Planned)
    } else {
        match goal {
            Goal::Link => State::Creating,
            Goal::Unlink => State::Inspecting,
        }
    }
}

/// The operation that a state asks for.
pub open spec fn requested(state: State) -> Option<Operation> {
    match state {
        State::Creating => Some(Operation::Create),
        State::Inspecting => Some(Operation::Inspect),
        State::Removing => Some(Operation::Remove),
        State::Recreating => Some(Operation::Create),
        State::Finished(_) => None,
    }
}

/// The state that follows once the operation of `state` was answered by
/// `reply`. An answer that does not fit the operation counts as a failure
/// of the filesystem.
pub open spec fn advanced(goal: Goal, state: State, reply: Reply) -> State {
    match (goal, state, reply) {
        (_, State::Finished(end), _) => State::Finished(end),
        (Goal::Link, State::Creating, Reply::Done) => State::Finished(End::Linked),
        (Goal::Link, State::Creating, Reply::Exists) => State::Inspecting,
        (Goal::Link, State::Inspecting, Reply::Symlink) => State::Removing,
        (Goal::Link, State::Inspecting, Reply::NotSymlink) => State::Finished(End::Conflict),
        (Goal::Link, State::Removing, Reply::Done) => State::Recreating,
        (Goal::Link, State::Recreating, Reply::Done) => State::Finished(End::Replaced),
        (Goal::Unlink, State::Inspecting, Reply::Missing) => State::Finished(End::Absent),
        (Goal::Unlink, State::Inspecting, Reply::Symlink) => State::Removing,
        (Goal::Unlink, State::Inspecting, Reply::NotSymlink) => State::Finished(End::Conflict),
        (Goal::Unlink, State::Removing, Reply::Done) => State::Finished(End::Removed),
        _ => State::Finished(End::Failed),
    }
}

/// The result that an end stands for: success, or the failure that names
/// the destination.
pub open spec fn concluded(end: End, destination: Seq<char>) -> Result<End, FailureView> {
    match end {
        End::Conflict => Err(failed(Reason::NotASymlink, destination)),
        End::Failed => Err(failed(Reason::Filesystem, destination)),
        _ => Ok(end),
    }
}

/// Starts a reconciliation.
pub fn begin(goal: Goal, dry_run: bool) -> (state: State)
    ensures
        state == started(goal, dry_run),
{
    if dry_run {
        State::Finished(End::Planned)
    } else {
        match goal {
            Goal::Link => State::Creating,
            Goal::Unlink => State::Inspecting,
        }
    }
}

impl State {
    /// The operation to perform next, or `None` once finished.
    pub fn request(&self) -> (op: Option<Operation>)
        ensures
            op == requested(*self),
    {
        match self {
            State::Creating => Some(Operation::Create),
            State::Inspecting => Some(Operation::Inspect),
            State::Removing => Some(Operation::Remove),
            State::Recreating => Some(Operation::Create),
            State::Finished(_) => None,
        }
    }
}

/// Takes the filesystem's answer to the operation that `state` asked
/// for, and gives the state that follows.
pub fn advance(goal: Goal, state: State, reply: Reply) -> (next: State)
    ensures
        next == advanced(goal, state, reply),
{
    match state {
        State::Finished(end) => State::Finished(end),
        State::Creating => match (goal, reply) {
            (Goal::Link, Reply::Done) => State::Finished(End::Linked),
            (Goal::Link, Reply::Exists) => State::Inspecting,
            _ => State::Finished(End::Failed),
        },
        State::Inspecting => match (goal, reply) {
            (_, Reply::Symlink) => State::Removing,
            (_, Reply::NotSymlink) => State::Finished(End::Conflict),
            (Goal::Unlink, Reply::Missing) => State::Finished(End::Absent),
            _ => State::Finished(End::Failed),
        },
        State::Removing => match (goal, reply) {
            (Goal::Link, Reply::Done) => State::Recreating,
            (Goal::Unlink, Reply::Done) => State::Finished(End::Removed),
            _ => State::Finished(End::Failed),
        },
        State::Recreating => match (goal, reply) {
            (Goal::Link, Reply::Done) => State::Finished(End::Replaced),
            _ => State::Finished(End::Failed),
        },
    }
}

/// Turns the end of a reconciliation into a result: a conflict and a
/// failed operation are errors that name the destination, every other end
/// is a success.
pub fn conclude(end: End, destination: &str) -> (r: Result<End, Failure>)
    ensures
        match concluded(end, destination@) {
            Ok(e) => r == Ok::<End, Failure>(e),
            Err(f) => r is Err && r->Err_0@ == f,
        },
{
    match end {
        End::Conflict => Err(Failure::new(Reason::NotASymlink, destination)),
        End::Failed => Err(Failure::new(Reason::Filesystem, destination)),
        _ => Ok(end),
    }
}

/// A dry run asks nothing of the filesystem, whatever the goal.
pub proof fn law_dry_run_requests_nothing(goal: Goal)
    ensures
        started(goal, true) == State::Finished(End::Planned),
        requested(started(goal, true)) is None,
{
}

/// A removal is only ever asked for in answer to an inspection that found
/// a symbolic link.
pub proof fn law_removes_only_symlinks(goal: Goal, state: State, reply: Reply)
    requires
        requested(advanced(goal, state, reply)) == Some(Operation::Remove),
    ensures
        state == State::Inspecting,
        reply == Reply::Symlink,
{
}

/// The most operations that a state can still ask for.
pub open spec fn operations_left(state: State) -> nat {
    match state {
        State::Creating => 4,
        State::Inspecting => 3,
        State::Removing => 2,
        State::Recreating => 1,
        State::Finished(_) => 0,
    }
}

/// Every answer brings a reconciliation nearer its end, whatever the
/// filesystem says.
pub proof fn law_every_answer_makes_progress(goal: Goal, state: State, reply: Reply)
    requires
        requested(state) is Some,
    ensures
        operations_left(advanced(goal, state, reply)) < operations_left(state),
{
}

/// No reconciliation asks for more than four operations, and one that
/// has none left asks for none.
pub proof fn law_at_most_four_operations(state: State)
    ensures
        operations_left(state) <= 4,
        operations_left(state) == 0 <==> requested(state) is None,
{
}

/// Once finished, a reconciliation stays as it is.
pub proof fn law_finished_is_final(goal: Goal, end: End, reply: Reply)
    ensures
        advanced(goal, State::Finished(end), reply) == State::Finished(end),
{
}

/// What a path may hold, for the statements below about whole runs.
pub ghost enum Node {
    Symlink(Seq<char>),
    File(Seq<u8>),
    Directory,
}

/// A filesystem, as far as these statements need one: what is at each
/// path.
pub type Tree = Map<Seq<char>, Node>;

/// What a filesystem without faults does with an operation, and what it
/// answers: it creates a link only where nothing is, reports what it
/// finds, and removes what is no directory.
pub open spec fn performed(
    tree: Tree,
    op: Operation,
    source: Seq<char>,
    destination: Seq<char>,
) -> (Tree, Reply) {
    match op {
        Operation::Create => if tree.contains_key(destination) {
            (tree, Reply::Exists)
        } else {
            (tree.insert(destination, Node::Symlink(source)), Reply::Done)
        },
        Operation::Inspect => if !tree.contains_key(destination) {
            (tree, Reply::Missing)
        } else if tree[destination] is Symlink {
            (tree, Reply::Symlink)
        } else {
            (tree, Reply::NotSymlink)
        },
        Operation::Remove => if !tree.contains_key(destination) {
            (tree, Reply::Missing)
        } else if tree[destination] is Directory {
            (tree, Reply::Failed)
        } else {
            (tree.remove(destination), Reply::Done)
        },
    }
}

/// The reconciliation driven from `state` against such a filesystem, for
/// at most `steps` operations.
pub open spec fn driven(
    goal: Goal,
    state: State,
    tree: Tree,
    source: Seq<char>,
    destination: Seq<char>,
    steps: nat,
) -> (Tree, State)
    decreases steps,
{
    match requested(state) {
        Some(op) if steps > 0 => {
            let (next_tree, reply) = performed(tree, op, source, destination);
            driven(
                goal,
                advanced(goal, state, reply),
                next_tree,
                source,
                destination,
                (steps - 1) as nat,
            )
        },
        _ => (tree, state),
    }
}

/// A whole reconciliation against such a filesystem: the filesystem
/// after it, and the state it reached. Four operations are the most that
/// any reconciliation asks for.
pub open spec fn run(
    goal: Goal,
    dry_run: bool,
    tree: Tree,
    source: Seq<char>,
    destination: Seq<char>,
) -> (Tree, State) {
    driven(goal, started(goal, dry_run), tree, source, destination, 4)
}

/// Every run finishes.
pub proof fn law_run_finishes(
    goal: Goal,
    dry_run: bool,
    tree: Tree,
    source: Seq<char>,
    destination: Seq<char>,
)
    ensures
        run(goal, dry_run, tree, source, destination).1 is Finished,
{
    reveal_with_fuel(driven, 5);
}

/// Linking is idempotent. Where the destination is free or holds a
/// symbolic link, linking succeeds and leaves a link to the source; doing
/// it again succeeds too and leaves the filesystem as it was.
pub proof fn law_link_twice(tree: Tree, source: Seq<char>, destination: Seq<char>)
    requires
        !tree.contains_key(destination) || tree[destination] is Symlink,
    ensures
        ({
            let (once, first) = run(Goal::Link, false, tree, source, destination);
            let (twice, second) = run(Goal::Link, false, once, source, destination);
            &&& first == State::Finished(
                if tree.contains_key(destination) {
                    End::Replaced
                } else {
                    End::Linked
                },
            )
            &&& once == tree.insert(destination, Node::Symlink(source))
            &&& second == State::Finished(End::Replaced)
            &&& twice == once
        }),
{
    reveal_with_fuel(driven, 5);
}

/// Linking is safe. Where the destination holds anything but a symbolic
/// link, linking ends in a conflict and the filesystem is as it was.
pub proof fn law_link_spares_what_is_no_link(
    tree: Tree,
    source: Seq<char>,
    destination: Seq<char>,
)
    requires
        tree.contains_key(destination),
        !(tree[destination] is Symlink),
    ensures
        run(Goal::Link, false, tree, source, destination) == (
            tree,
            State::Finished(End::Conflict),
        ),
        concluded(End::Conflict, destination) == Err::<End, FailureView>(
            failed(Reason::NotASymlink, destination),
        ),
{
    reveal_with_fuel(driven, 5);
}

/// Unlinking where nothing is succeeds and changes nothing.
pub proof fn law_unlink_absent(tree: Tree, source: Seq<char>, destination: Seq<char>)
    requires
        !tree.contains_key(destination),
    ensures
        run(Goal::Unlink, false, tree, source, destination) == (
            tree,
            State::Finished(End::Absent),
        ),
{
    reveal_with_fuel(driven, 5);
}

/// Unlinking what is no symbolic link ends in a conflict and changes
/// nothing.
pub proof fn law_unlink_spares_what_is_no_link(
    tree: Tree,
    source: Seq<char>,
    destination: Seq<char>,
)
    requires
        tree.contains_key(destination),
        !(tree[destination] is Symlink),
    ensures
        run(Goal::Unlink, false, tree, source, destination) == (
            tree,
            State::Finished(End::Conflict),
        ),
{
    reveal_with_fuel(driven, 5);
}

/// Unlinking a symbolic link removes it and nothing else.
pub proof fn law_unlink_removes_link(tree: Tree, source: Seq<char>, destination: Seq<char>)
    requires
        tree.contains_key(destination),
        tree[destination] is Symlink,
    ensures
        run(Goal::Unlink, false, tree, source, destination) == (
            tree.remove(destination),
            State::Finished(End::Removed),
        ),
{
    reveal_with_fuel(driven, 5);
}

/// A dry run leaves the filesystem as it was, whatever the goal and
/// whatever is there.
pub proof fn law_dry_run_changes_nothing(
    goal: Goal,
    tree: Tree,
    source: Seq<char>,
    destination: Seq<char>,
)
    ensures
        run(goal, true, tree, source, destination) == (tree, State::Finished(End::Planned)),
{
    reveal_with_fuel(driven, 2);
}

} // verus!
