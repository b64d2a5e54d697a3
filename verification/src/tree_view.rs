//! The tree view: the tasks of a store flattened depth first, parents before
//! their children, each task at the depth at which it was first reached.

use crate::task::{raw_ids, Task, TaskId, TaskView};
use crate::task_manager::TaskManager;
use std::collections::HashSet;
use vstd::prelude::*;

verus! {

broadcast use vstd::std_specs::hash::group_hash_axioms;

/// One line of the tree view: a copy of a task and its depth in the tree.
pub struct TaskUIView {
    pub task: Task,
    pub depth: usize,
}

/// Mathematical model of a [`TaskUIView`].
pub struct TaskRow {
    pub task: TaskView,
    pub depth: nat,
}

impl View for TaskUIView {
    type V = TaskRow;

    open spec fn view(&self) -> TaskRow {
        TaskRow { task: self.task@, depth: self.depth as nat }
    }
}

/// The models of a list of lines.
pub open spec fn row_views(rows: Seq<TaskUIView>) -> Seq<TaskRow> {
    rows.map_values(|r: TaskUIView| r@)
}

/// The result of a walk: the keys that were reached, each with its depth,
/// in the order in which they were reached, and the keys visited so far.
pub struct Walk {
    pub order: Seq<(u64, nat)>,
    pub visited: Set<u64>,
}

/// The number of tasks that have not been visited.
pub open spec fn unvisited(tasks: Map<u64, TaskView>, visited: Set<u64>) -> nat {
    tasks.dom().difference(visited).len()
}

/// The keys of `children`, each to be reached at `depth`.
pub open spec fn at_depth(children: Seq<u64>, depth: nat) -> Seq<(u64, nat)> {
    children.map_values(|c: u64| (c, depth))
}

/// Walks the tasks depth first. `work` holds the keys still to be reached,
/// the next one in front. A key that names no task, or one that has been
/// visited, is passed over. Otherwise the key is reached: it is marked as
/// visited and its children come next, one level deeper, before the rest of
/// the work.
pub open spec fn walk(tasks: Map<u64, TaskView>, work: Seq<(u64, nat)>, visited: Set<u64>) -> Walk
    decreases unvisited(tasks, visited), work.len(),
    when tasks.dom().finite()
{
    if work.len() == 0 {
        Walk { order: Seq::empty(), visited }
    } else {
        let (key, depth) = work[0];
        if !tasks.contains_key(key) || visited.contains(key) {
            walk(tasks, work.drop_first(), visited)
        } else {
            proof {
                lemma_visit_shrinks(tasks, visited, key);
            }
            let below = walk(
                tasks,
                at_depth(tasks[key].children, depth + 1) + work.drop_first(),
                visited.insert(key),
            );
            Walk { order: seq![(key, depth)] + below.order, visited: below.visited }
        }
    }
}

/// The lines for the keys of `order`.
pub open spec fn rows_of(tasks: Map<u64, TaskView>, order: Seq<(u64, nat)>) -> Seq<TaskRow> {
    order.map_values(|r: (u64, nat)| TaskRow { task: tasks[r.0], depth: r.1 })
}

/// Visiting a task that has not been visited leaves one task fewer to visit.
pub proof fn lemma_visit_shrinks(tasks: Map<u64, TaskView>, visited: Set<u64>, key: u64)
    requires
        tasks.dom().finite(),
        tasks.contains_key(key),
        !visited.contains(key),
    ensures
        unvisited(tasks, visited.insert(key)) + 1 == unvisited(tasks, visited),
{
    let before = tasks.dom().difference(visited);
    assert(before.contains(key));
    assert(tasks.dom().difference(visited.insert(key)) =~= before.remove(key));
}

/// The work that an exec stack stands for: its entries from the top down.
pub open spec fn work_of(stack: Seq<(u64, usize)>) -> Seq<(u64, nat)> {
    Seq::new(
        stack.len(),
        |i: int| (stack[stack.len() - 1 - i].0, stack[stack.len() - 1 - i].1 as nat),
    )
}

/// Appends to `ui_tasks` the lines of the subtree of `task_id`, which is
/// reached at `depth`: the task itself, then its children in their order,
/// each followed by its own subtree one level deeper. Tasks whose keys are in
/// `viewed_tasks` are passed over, and so are keys that name no task; every
/// task that gets a line is added to `viewed_tasks`.
pub fn add_subtasks(
    task_manager: &TaskManager,
    task_id: TaskId,
    viewed_tasks: &mut HashSet<u64>,
    ui_tasks: &mut Vec<TaskUIView>,
    depth: usize,
)
    requires
        depth + unvisited(task_manager@.tasks, old(viewed_tasks)@) <= usize::MAX,
    ensures
        ({
            let tasks = task_manager@.tasks;
            let found = walk(tasks, seq![(task_id.0, depth as nat)], old(viewed_tasks)@);
            &&& row_views(final(ui_tasks)@) == row_views(old(ui_tasks)@) + rows_of(
                tasks,
                found.order,
            )
            &&& final(viewed_tasks)@ == found.visited
        }),
{
    proof {
        task_manager.lemma_tasks_are_finite();
    }
    let ghost tasks = task_manager@.tasks;
    let ghost goal = walk(tasks, seq![(task_id.0, depth as nat)], viewed_tasks@);
    let ghost mut reached: Seq<(u64, nat)> = Seq::empty();
    let mut stack: Vec<(u64, usize)> = Vec::new();
    stack.push((task_id.0, depth));
    assert(work_of(stack@) =~= seq![(task_id.0, depth as nat)]);
    assert(row_views(ui_tasks@) =~= row_views(old(ui_tasks)@) + rows_of(tasks, reached));
    while stack.len() > 0
        invariant
            tasks == task_manager@.tasks,
            tasks.dom().finite(),
            forall|i: int|
                0 <= i < stack.len() ==> (#[trigger] stack[i]).1 + unvisited(tasks, viewed_tasks@)
                    <= usize::MAX,
            reached + walk(tasks, work_of(stack@), viewed_tasks@).order == goal.order,
            walk(tasks, work_of(stack@), viewed_tasks@).visited == goal.visited,
            row_views(ui_tasks@) == row_views(old(ui_tasks)@) + rows_of(tasks, reached),
        decreases unvisited(tasks, viewed_tasks@), stack.len(),
    {
        let ghost work = work_of(stack@);
        let ghost seen = viewed_tasks@;
        let ghost lines = ui_tasks@;
        let (key, level) = stack.pop().unwrap();
        assert(work[0] == (key, level as nat));
        assert(work.drop_first() =~= work_of(stack@));
        let found = task_manager.find_task(TaskId(key));
        let fresh = !viewed_tasks.contains(&key);
        match found {
            Some(task) if fresh => {
                proof {
                    lemma_visit_shrinks(tasks, seen, key);
                }
                ui_tasks.push(TaskUIView { task: task.clone(), depth: level });
                viewed_tasks.insert(key);
                let ghost rest = stack@;
                let mut i: usize = task.child_tasks.len();
                while i > 0
                    invariant
                        i <= task.child_tasks.len(),
                        level + 1 + unvisited(tasks, viewed_tasks@) <= usize::MAX,
                        work_of(stack@) == at_depth(
                            task@.children.subrange(i as int, task@.children.len() as int),
                            (level + 1) as nat,
                        ) + work_of(rest),
                        forall|j: int|
                            0 <= j < stack.len() ==> (#[trigger] stack[j]).1 + unvisited(
                                tasks,
                                viewed_tasks@,
                            ) <= usize::MAX,
                    decreases i,
                {
                    i = i - 1;
                    let ghost below = stack@;
                    stack.push((task.child_tasks[i].0, level + 1));
                    assert(work_of(stack@) =~= seq![(task.child_tasks[i as int].0, (level + 1) as nat)]
                        + work_of(below));
                    assert(work_of(stack@) =~= at_depth(
                        task@.children.subrange(i as int, task@.children.len() as int),
                        (level + 1) as nat,
                    ) + work_of(rest));
                }
                proof {
                    assert(task@.children.subrange(0, task@.children.len() as int)
                        =~= task@.children);
                    let step = seq![(key, level as nat)];
                    reached = reached + step;
                    assert(rows_of(tasks, reached) =~= rows_of(tasks, reached.drop_last()).push(
                        TaskRow { task: tasks[key], depth: level as nat },
                    ));
                    assert(row_views(ui_tasks@) =~= row_views(lines).push(
                        TaskRow { task: tasks[key], depth: level as nat },
                    ));
                    assert(walk(tasks, work, seen).order =~= step + walk(
                        tasks,
                        work_of(stack@),
                        viewed_tasks@,
                    ).order);
                }
            },
            _ => {
                assert(walk(tasks, work, seen) == walk(tasks, work_of(stack@), seen));
            },
        }
    }
    assert(work_of(stack@) =~= Seq::empty());
}

/// Walking `first` and then `second` is walking `first`, and then walking
/// `second` with what the first walk has visited.
pub proof fn lemma_walk_in_two_parts(
    tasks: Map<u64, TaskView>,
    first: Seq<(u64, nat)>,
    second: Seq<(u64, nat)>,
    visited: Set<u64>,
)
    requires
        tasks.dom().finite(),
    ensures
        ({
            let head = walk(tasks, first, visited);
            let tail = walk(tasks, second, head.visited);
            &&& walk(tasks, first + second, visited).order == head.order + tail.order
            &&& walk(tasks, first + second, visited).visited == tail.visited
        }),
    decreases unvisited(tasks, visited), first.len(),
{
    let head = walk(tasks, first, visited);
    let tail = walk(tasks, second, head.visited);
    if first.len() == 0 {
        assert(first + second =~= second);
        assert(head.order + tail.order =~= tail.order);
    } else {
        let (key, depth) = first[0];
        assert((first + second)[0] == first[0]);
        assert((first + second).drop_first() =~= first.drop_first() + second);
        if !tasks.contains_key(key) || visited.contains(key) {
            lemma_walk_in_two_parts(tasks, first.drop_first(), second, visited);
        } else {
            lemma_visit_shrinks(tasks, visited, key);
            let next = at_depth(tasks[key].children, depth + 1);
            assert(next + (first.drop_first() + second) =~= (next + first.drop_first()) + second);
            lemma_walk_in_two_parts(tasks, next + first.drop_first(), second, visited.insert(key));
            let below = walk(tasks, next + first.drop_first(), visited.insert(key));
            assert((seq![(key, depth)] + below.order) + tail.order =~= seq![(key, depth)] + (
            below.order + tail.order));
        }
    }
}

/// Whether `key` is among the keys of `order`.
pub open spec fn reaches(order: Seq<(u64, nat)>, key: u64) -> bool {
    exists|i: int| 0 <= i < order.len() && (#[trigger] order[i]).0 == key
}

/// A walk reaches only tasks of the store that had not been visited, and
/// none of them twice; it visits exactly what it reaches, besides what was
/// visited before; and every task whose key was in the work has been
/// visited at the end.
pub proof fn lemma_walk_reaches_each_task_once(
    tasks: Map<u64, TaskView>,
    work: Seq<(u64, nat)>,
    visited: Set<u64>,
)
    requires
        tasks.dom().finite(),
    ensures
        ({
            let found = walk(tasks, work, visited);
            &&& forall|i: int|
                0 <= i < found.order.len() ==> tasks.contains_key((#[trigger] found.order[i]).0)
                    && !visited.contains(found.order[i].0)
            &&& forall|i: int, j: int|
                0 <= i < j < found.order.len() ==> (#[trigger] found.order[i]).0 != (
                #[trigger] found.order[j]).0
            &&& forall|k: u64|
                found.visited.contains(k) <==> visited.contains(k) || reaches(found.order, k)
            &&& forall|i: int|
                0 <= i < work.len() && tasks.contains_key((#[trigger] work[i]).0)
                    ==> found.visited.contains(work[i].0)
        }),
    decreases unvisited(tasks, visited), work.len(),
{
    let found = walk(tasks, work, visited);
    if work.len() == 0 {
        assert(found.order.len() == 0);
        assert(forall|k: u64| !reaches(found.order, k));
    } else {
        let (key, depth) = work[0];
        let rest = work.drop_first();
        if !tasks.contains_key(key) || visited.contains(key) {
            lemma_walk_reaches_each_task_once(tasks, rest, visited);
            assert(found == walk(tasks, rest, visited));
            assert forall|i: int|
                0 <= i < work.len() && tasks.contains_key(
                    (#[trigger] work[i]).0,
                ) implies found.visited.contains(work[i].0) by {
                if i > 0 {
                    assert(rest[i - 1] == work[i]);
                }
            }
        } else {
            lemma_visit_shrinks(tasks, visited, key);
            let next = at_depth(tasks[key].children, depth + 1);
            let seen = visited.insert(key);
            lemma_walk_reaches_each_task_once(tasks, next + rest, seen);
            let below = walk(tasks, next + rest, seen);
            assert(found.order =~= seq![(key, depth)] + below.order);
            assert forall|i: int| 0 <= i < found.order.len() implies tasks.contains_key(
                (#[trigger] found.order[i]).0,
            ) && !visited.contains(found.order[i].0) by {
                if i > 0 {
                    assert(found.order[i] == below.order[i - 1]);
                }
            }
            assert forall|i: int, j: int| 0 <= i < j < found.order.len() implies (
            #[trigger] found.order[i]).0 != (#[trigger] found.order[j]).0 by {
                assert(found.order[j] == below.order[j - 1]);
                if i > 0 {
                    assert(found.order[i] == below.order[i - 1]);
                }
            }
            assert forall|k: u64|
                found.visited.contains(k) <==> visited.contains(k) || reaches(
                    found.order,
                    k,
                ) by {
                assert(found.visited == below.visited);
                assert(below.visited.contains(k) <==> seen.contains(k) || reaches(below.order, k));
                assert(found.order[0].0 == key);
                assert(reaches(found.order, key));
                if reaches(below.order, k) {
                    let i = choose|i: int| 0 <= i < below.order.len() && (
                    #[trigger] below.order[i]).0 == k;
                    assert(found.order[i + 1] == below.order[i]);
                    assert(reaches(found.order, k));
                }
                if reaches(found.order, k) {
                    let i = choose|i: int| 0 <= i < found.order.len() && (
                    #[trigger] found.order[i]).0 == k;
                    if i > 0 {
                        assert(found.order[i] == below.order[i - 1]);
                        assert(reaches(below.order, k));
                    }
                }
            }
            assert forall|i: int|
                0 <= i < work.len() && tasks.contains_key(
                    (#[trigger] work[i]).0,
                ) implies found.visited.contains(work[i].0) by {
                assert(found.visited == below.visited);
                if i > 0 {
                    assert((next + rest)[next.len() + i - 1] == work[i]);
                } else {
                    assert(seen.contains(key));
                    assert(below.visited.contains(key) <==> seen.contains(key) || reaches(
                        below.order,
                        key,
                    ));
                }
            }
        }
    }
}

/// When every task of the store is among the roots, the tree view has
/// exactly one line for each task.
pub proof fn lemma_tree_lists_every_task_once(tasks: Map<u64, TaskView>, roots: Seq<u64>)
    requires
        tasks.dom().finite(),
        forall|k: u64| tasks.contains_key(k) ==> roots.contains(k),
    ensures
        ({
            let order = walk(tasks, at_depth(roots, 0), Set::empty()).order;
            &&& forall|k: u64| tasks.contains_key(k) <==> reaches(order, k)
            &&& forall|i: int, j: int|
                0 <= i < j < order.len() ==> (#[trigger] order[i]).0 != (#[trigger] order[j]).0
            &&& order.len() == tasks.dom().len()
        }),
{
    let work = at_depth(roots, 0);
    let found = walk(tasks, work, Set::empty());
    let order = found.order;
    lemma_walk_reaches_each_task_once(tasks, work, Set::empty());
    assert forall|k: u64| tasks.contains_key(k) <==> reaches(order, k) by {
        if tasks.contains_key(k) {
            assert(roots.contains(k));
            let i = choose|i: int| 0 <= i < roots.len() && roots[i] == k;
            assert(work[i].0 == k);
            assert(found.visited.contains(k));
            assert(!Set::<u64>::empty().contains(k));
            assert(reaches(order, k));
        }
        if reaches(order, k) {
            let i = choose|i: int| 0 <= i < order.len() && (#[trigger] order[i]).0 == k;
            assert(tasks.contains_key(found.order[i].0));
        }
    }
    let keys = order.map_values(|r: (u64, nat)| r.0);
    assert(keys.no_duplicates());
    assert(keys.to_set() =~= tasks.dom()) by {
        assert forall|k: u64| keys.to_set().contains(k) <==> tasks.dom().contains(k) by {
            if keys.to_set().contains(k) {
                let i = choose|i: int| 0 <= i < keys.len() && keys[i] == k;
                assert(order[i].0 == k);
            }
            if reaches(order, k) {
                let i = choose|i: int| 0 <= i < order.len() && (#[trigger] order[i]).0 == k;
                assert(keys[i] == k);
            }
        }
    }
    keys.unique_seq_to_set();
}

/// The tree view of a store: the subtrees of `roots`, in their order, each
/// root at depth 0; a task that was reached before is passed over, so each
/// task has one line, at the place and depth at which it was first reached.
pub fn assemble_tree(task_manager: &TaskManager, roots: &Vec<TaskId>) -> (rows: Vec<TaskUIView>)
    ensures
        row_views(rows@) == rows_of(
            task_manager@.tasks,
            walk(task_manager@.tasks, at_depth(raw_ids(roots@), 0), Set::empty()).order,
        ),
{
    let count = task_manager.task_count();
    let ghost tasks = task_manager@.tasks;
    let ghost work = at_depth(raw_ids(roots@), 0);
    let mut viewed_tasks: HashSet<u64> = HashSet::new();
    let mut rows: Vec<TaskUIView> = Vec::new();
    let mut i: usize = 0;
    assert(work.subrange(0, 0) =~= Seq::empty());
    assert(row_views(rows@) =~= rows_of(tasks, Seq::empty()));
    while i < roots.len()
        invariant
            i <= roots.len(),
            tasks == task_manager@.tasks,
            tasks.dom().finite(),
            count == tasks.dom().len(),
            work == at_depth(raw_ids(roots@), 0),
            row_views(rows@) == rows_of(
                tasks,
                walk(tasks, work.subrange(0, i as int), Set::empty()).order,
            ),
            viewed_tasks@ == walk(tasks, work.subrange(0, i as int), Set::empty()).visited,
        decreases roots.len() - i,
    {
        let root = roots[i];
        let ghost done = work.subrange(0, i as int);
        let ghost step = seq![(root.0, 0nat)];
        let ghost before = walk(tasks, done, Set::empty());
        proof {
            assert(work.subrange(0, i + 1) =~= done + step);
            lemma_walk_in_two_parts(tasks, done, step, Set::empty());
            vstd::set_lib::lemma_len_difference(tasks.dom(), viewed_tasks@);
            assert(step.drop_first() =~= Seq::empty());
        }
        let ghost found = walk(tasks, step, before.visited);
        if !viewed_tasks.contains(&root.0) {
            add_subtasks(task_manager, root, &mut viewed_tasks, &mut rows, 0);
        } else {
            proof {
                let nothing = walk(tasks, Seq::empty(), before.visited);
                assert(nothing.order =~= Seq::empty() && nothing.visited == before.visited);
                assert(found == nothing);
                assert(rows_of(tasks, found.order) =~= Seq::empty());
                assert(row_views(rows@) + rows_of(tasks, found.order) =~= row_views(rows@));
            }
        }
        proof {
            assert(viewed_tasks@ == found.visited);
            assert(walk(tasks, done + step, Set::empty()).order == before.order + found.order);
            assert(rows_of(tasks, before.order + found.order) =~= rows_of(tasks, before.order)
                + rows_of(tasks, found.order));
        }
        i = i + 1;
    }
    assert(work.subrange(0, i as int) =~= work);
    rows
}

} // verus!
