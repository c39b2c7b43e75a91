//! The abstract to-do store: a sequence of tasks and the identifier the
//! next task receives, with each repository operation as a function from
//! the store before to the store after and the answer.
use vstd::prelude::*;
use crate::models::todo::{Task, TaskView, TodoError};
use crate::text::is_blank;

verus! {

/// The abstract state of a repository.
pub struct RepoView {
    pub tasks: Seq<TaskView>,
    pub next_id: usize,
}

/// The values of a sequence of tasks.
pub open spec fn views(ts: Seq<Task>) -> Seq<TaskView> {
    ts.map_values(|t: Task| t@)
}

/// A result that carries a task, with the task taken by its value.
pub open spec fn task_result(r: Result<Task, TodoError>) -> Result<TaskView, TodoError> {
    match r {
        Ok(t) => Ok(t@),
        Err(e) => Err(e),
    }
}

/// A result that may carry a task, with the task taken by its value.
pub open spec fn opt_task_result(r: Result<Option<Task>, TodoError>) -> Result<
    Option<TaskView>,
    TodoError,
> {
    match r {
        Ok(Some(t)) => Ok(Some(t@)),
        Ok(None) => Ok(None),
        Err(e) => Err(e),
    }
}

/// The store is well formed: identifiers strictly increase along the
/// sequence and all lie below the next identifier to be handed out.
pub open spec fn valid(v: RepoView) -> bool {
    &&& forall|i: int, j: int|
        0 <= i < j < v.tasks.len() ==> #[trigger] v.tasks[i].id < #[trigger] v.tasks[j].id
    &&& forall|i: int| 0 <= i < v.tasks.len() ==> #[trigger] v.tasks[i].id < v.next_id
}

/// `i` is the first position of a task with identifier `id`.
pub open spec fn first_at(tasks: Seq<TaskView>, id: usize, i: int) -> bool {
    &&& 0 <= i < tasks.len()
    &&& tasks[i].id == id
    &&& forall|j: int| 0 <= j < i ==> #[trigger] tasks[j].id != id
}

/// Whether some task has identifier `id`.
pub open spec fn has_id(tasks: Seq<TaskView>, id: usize) -> bool {
    exists|i: int| 0 <= i < tasks.len() && #[trigger] tasks[i].id == id
}

/// The position of the first task with identifier `id`, or `-1`.
pub open spec fn position_of(tasks: Seq<TaskView>, id: usize) -> int {
    if exists|i: int| first_at(tasks, id, i) {
        choose|i: int| first_at(tasks, id, i)
    } else {
        -1
    }
}

/// The task that a successful `add_task` creates.
pub open spec fn new_task(v: RepoView, title: Seq<char>, description: Seq<char>) -> TaskView {
    TaskView { id: v.next_id, title, description, completed: false }
}

/// `add_task`: a blank title or description is refused; otherwise the
/// task is appended with the next identifier, which then advances.
pub open spec fn add_spec(v: RepoView, title: Seq<char>, description: Seq<char>) -> (
    RepoView,
    Result<TaskView, TodoError>,
) {
    if is_blank(title) {
        (v, Err(TodoError::EmptyTitle))
    } else if is_blank(description) {
        (v, Err(TodoError::EmptyDescription))
    } else {
        let t = new_task(v, title, description);
        (RepoView { tasks: v.tasks.push(t), next_id: (v.next_id + 1) as usize }, Ok(t))
    }
}

/// `get_task`: the task with that identifier, or `InvalidIndex`.
pub open spec fn get_spec(v: RepoView, id: usize) -> Result<Option<TaskView>, TodoError> {
    let p = position_of(v.tasks, id);
    if p >= 0 {
        Ok(Some(v.tasks[p]))
    } else {
        Err(TodoError::InvalidIndex(id))
    }
}

/// `remove_task`: takes the task with that identifier out of the
/// sequence, or answers `InvalidIndex`.
pub open spec fn remove_spec(v: RepoView, id: usize) -> (RepoView, Result<Option<TaskView>, TodoError>) {
    let p = position_of(v.tasks, id);
    if p >= 0 {
        (RepoView { tasks: v.tasks.remove(p), next_id: v.next_id }, Ok(Some(v.tasks[p])))
    } else {
        (v, Err(TodoError::InvalidIndex(id)))
    }
}

/// `complete_task`: marks an open task as done; a missing task gives
/// `InvalidIndex` and a done one `TaskAlreadyComplete`.
pub open spec fn complete_spec(v: RepoView, id: usize) -> (RepoView, Result<bool, TodoError>) {
    let p = position_of(v.tasks, id);
    if p < 0 {
        (v, Err(TodoError::InvalidIndex(id)))
    } else if v.tasks[p].completed {
        (v, Err(TodoError::TaskAlreadyComplete(id)))
    } else {
        let t = v.tasks[p];
        (
            RepoView {
                tasks: v.tasks.update(p, TaskView { completed: true, ..t }),
                next_id: v.next_id,
            },
            Ok(true),
        )
    }
}

/// `clear_all`: empties a non-empty store and restarts identifiers at 1;
/// an empty store gives `AlreadyEmpty`.
pub open spec fn clear_spec(v: RepoView) -> (RepoView, Result<(), TodoError>) {
    if v.tasks.len() == 0 {
        (v, Err(TodoError::AlreadyEmpty))
    } else {
        (RepoView { tasks: Seq::empty(), next_id: 1 }, Ok(()))
    }
}

/// At most one position is the first one with a given identifier.
pub proof fn lemma_first_at_unique(tasks: Seq<TaskView>, id: usize, i: int, k: int)
    requires
        first_at(tasks, id, i),
        first_at(tasks, id, k),
    ensures
        i == k,
{
    if i < k {
        assert(tasks[i].id != id);
    } else if k < i {
        assert(tasks[k].id != id);
    }
}

/// `position_of` finds exactly the first position that holds the
/// identifier, and `-1` when none does.
pub proof fn lemma_position_of(tasks: Seq<TaskView>, id: usize)
    ensures
        position_of(tasks, id) >= 0 <==> has_id(tasks, id),
        position_of(tasks, id) >= 0 ==> first_at(tasks, id, position_of(tasks, id)),
        position_of(tasks, id) < 0 ==> position_of(tasks, id) == -1,
{
    if has_id(tasks, id) {
        let i = choose|i: int| 0 <= i < tasks.len() && #[trigger] tasks[i].id == id;
        lemma_has_first(tasks, id, i);
    } else {
        if exists|i: int| first_at(tasks, id, i) {
            let i = choose|i: int| first_at(tasks, id, i);
            assert(tasks[i].id == id);
        }
    }
}

proof fn lemma_has_first(tasks: Seq<TaskView>, id: usize, i: int)
    requires
        0 <= i < tasks.len(),
        tasks[i].id == id,
    ensures
        exists|k: int| first_at(tasks, id, k),
    decreases i,
{
    if forall|j: int| 0 <= j < i ==> #[trigger] tasks[j].id != id {
        assert(first_at(tasks, id, i));
    } else {
        let j = choose|j: int| 0 <= j < i && #[trigger] tasks[j].id == id;
        lemma_has_first(tasks, id, j);
    }
}

/// In a well-formed store the task with a given identifier is found at
/// the one position that holds it.
pub proof fn lemma_position_of_at(v: RepoView, i: int)
    requires
        valid(v),
        0 <= i < v.tasks.len(),
    ensures
        position_of(v.tasks, v.tasks[i].id) == i,
{
    let id = v.tasks[i].id;
    assert(first_at(v.tasks, id, i)) by {
        assert forall|j: int| 0 <= j < i implies #[trigger] v.tasks[j].id != id by {
            assert(v.tasks[j].id < v.tasks[i].id);
        }
    }
    lemma_position_of(v.tasks, id);
    lemma_first_at_unique(v.tasks, id, i, position_of(v.tasks, id));
}

/// Adding a task keeps the store well formed.
pub proof fn lemma_add_keeps_valid(v: RepoView, title: Seq<char>, description: Seq<char>)
    requires
        valid(v),
        v.next_id < usize::MAX || is_blank(title) || is_blank(description),
    ensures
        valid(add_spec(v, title, description).0),
{
    let w = add_spec(v, title, description).0;
    if !is_blank(title) && !is_blank(description) {
        assert forall|i: int, j: int| 0 <= i < j < w.tasks.len() implies #[trigger] w.tasks[i].id
            < #[trigger] w.tasks[j].id by {
            if j == v.tasks.len() {
                assert(v.tasks[i].id < v.next_id);
            } else {
                assert(w.tasks[i] == v.tasks[i] && w.tasks[j] == v.tasks[j]);
            }
        }
        assert forall|i: int| 0 <= i < w.tasks.len() implies #[trigger] w.tasks[i].id < w.next_id by {
            if i < v.tasks.len() {
                assert(w.tasks[i] == v.tasks[i]);
            }
        }
    }
}

/// Removing a task keeps the store well formed.
pub proof fn lemma_remove_keeps_valid(v: RepoView, id: usize)
    requires
        valid(v),
    ensures
        valid(remove_spec(v, id).0),
{
    lemma_position_of(v.tasks, id);
    let p = position_of(v.tasks, id);
    if p >= 0 {
        let w = remove_spec(v, id).0;
        assert forall|i: int, j: int| 0 <= i < j < w.tasks.len() implies #[trigger] w.tasks[i].id
            < #[trigger] w.tasks[j].id by {
            let oi = if i < p { i } else { i + 1 };
            let oj = if j < p { j } else { j + 1 };
            assert(w.tasks[i] == v.tasks[oi] && w.tasks[j] == v.tasks[oj]);
        }
        assert forall|i: int| 0 <= i < w.tasks.len() implies #[trigger] w.tasks[i].id < w.next_id by {
            let oi = if i < p { i } else { i + 1 };
            assert(w.tasks[i] == v.tasks[oi]);
        }
    }
}

/// Completing a task keeps the store well formed.
pub proof fn lemma_complete_keeps_valid(v: RepoView, id: usize)
    requires
        valid(v),
    ensures
        valid(complete_spec(v, id).0),
{
    lemma_position_of(v.tasks, id);
    let p = position_of(v.tasks, id);
    let w = complete_spec(v, id).0;
    if p >= 0 && !v.tasks[p].completed {
        assert forall|i: int, j: int| 0 <= i < j < w.tasks.len() implies #[trigger] w.tasks[i].id
            < #[trigger] w.tasks[j].id by {
            assert(w.tasks[i].id == v.tasks[i].id && w.tasks[j].id == v.tasks[j].id);
        }
        assert forall|i: int| 0 <= i < w.tasks.len() implies #[trigger] w.tasks[i].id < w.next_id by {
            assert(w.tasks[i].id == v.tasks[i].id);
        }
    }
}

/// Clearing the store keeps it well formed.
pub proof fn lemma_clear_keeps_valid(v: RepoView)
    requires
        valid(v),
    ensures
        valid(clear_spec(v).0),
{
}

/// In a well-formed store, looking up the identifier of the task at
/// position `i` gives that task.
pub proof fn lemma_get_at(v: RepoView, i: int)
    requires
        valid(v),
        0 <= i < v.tasks.len(),
    ensures
        get_spec(v, v.tasks[i].id) == Ok::<Option<TaskView>, TodoError>(Some(v.tasks[i])),
{
    lemma_position_of_at(v, i);
}

/// Looking up an identifier that no task has gives `InvalidIndex`.
pub proof fn lemma_get_missing(v: RepoView, id: usize)
    requires
        !has_id(v.tasks, id),
    ensures
        get_spec(v, id) == Err::<Option<TaskView>, TodoError>(TodoError::InvalidIndex(id)),
{
    lemma_position_of(v.tasks, id);
}

/// A new task gets an identifier that no task has, and that is larger
/// than every identifier in the store.
pub proof fn law_add_gives_fresh_id(v: RepoView, title: Seq<char>, description: Seq<char>)
    requires
        valid(v),
        add_spec(v, title, description).1 is Ok,
    ensures
        !has_id(v.tasks, add_spec(v, title, description).1->Ok_0.id),
        forall|i: int|
            0 <= i < v.tasks.len() ==> #[trigger] v.tasks[i].id < add_spec(
                v,
                title,
                description,
            ).1->Ok_0.id,
{
    if has_id(v.tasks, v.next_id) {
        let i = choose|i: int| 0 <= i < v.tasks.len() && #[trigger] v.tasks[i].id == v.next_id;
        assert(v.tasks[i].id < v.next_id);
    }
}

/// What `add_task` answers can be read back: after a successful addition,
/// looking up the new identifier gives the new task, and every other
/// identifier gives what it gave before.
pub proof fn law_get_after_add(v: RepoView, title: Seq<char>, description: Seq<char>, other: usize)
    requires
        valid(v),
        v.next_id < usize::MAX,
        !is_blank(title),
        !is_blank(description),
        other != v.next_id,
    ensures
        add_spec(v, title, description).1 == Ok::<TaskView, TodoError>(
            new_task(v, title, description),
        ),
        get_spec(add_spec(v, title, description).0, v.next_id) == Ok::<
            Option<TaskView>,
            TodoError,
        >(Some(new_task(v, title, description))),
        get_spec(add_spec(v, title, description).0, other) == get_spec(v, other),
{
    let w = add_spec(v, title, description).0;
    lemma_add_keeps_valid(v, title, description);
    lemma_get_at(w, v.tasks.len() as int);
    lemma_position_of(v.tasks, other);
    lemma_position_of(w.tasks, other);
    if has_id(v.tasks, other) {
        let p = position_of(v.tasks, other);
        lemma_get_at(v, p);
        assert(w.tasks[p] == v.tasks[p]);
        lemma_get_at(w, p);
    } else {
        assert(!has_id(w.tasks, other)) by {
            if has_id(w.tasks, other) {
                let k = choose|k: int| 0 <= k < w.tasks.len() && #[trigger] w.tasks[k].id == other;
                assert(k < v.tasks.len());
                assert(w.tasks[k] == v.tasks[k]);
            }
        }
        lemma_get_missing(w, other);
    }
}

/// A refused addition changes nothing: a blank title gives `EmptyTitle`,
/// otherwise a blank description gives `EmptyDescription`.
pub proof fn law_add_refuses_blank(v: RepoView, title: Seq<char>, description: Seq<char>)
    requires
        is_blank(title) || is_blank(description),
    ensures
        add_spec(v, title, description).0 == v,
        is_blank(title) ==> add_spec(v, title, description).1 == Err::<TaskView, TodoError>(
            TodoError::EmptyTitle,
        ),
        !is_blank(title) ==> add_spec(v, title, description).1 == Err::<TaskView, TodoError>(
            TodoError::EmptyDescription,
        ),
{
}

/// Removing a task hands it back; afterwards its identifier is unknown and
/// every other identifier gives what it gave before.  Removing an unknown
/// identifier changes nothing and gives `InvalidIndex`.
pub proof fn law_get_after_remove(v: RepoView, id: usize, other: usize)
    requires
        valid(v),
        other != id,
    ensures
        has_id(v.tasks, id) ==> remove_spec(v, id).1 == get_spec(v, id),
        get_spec(remove_spec(v, id).0, id) == Err::<Option<TaskView>, TodoError>(
            TodoError::InvalidIndex(id),
        ),
        get_spec(remove_spec(v, id).0, other) == get_spec(v, other),
        !has_id(v.tasks, id) ==> remove_spec(v, id) == (
            v,
            Err::<Option<TaskView>, TodoError>(TodoError::InvalidIndex(id)),
        ),
{
    lemma_remove_keeps_valid(v, id);
    lemma_position_of(v.tasks, id);
    lemma_position_of(v.tasks, other);
    let w = remove_spec(v, id).0;
    let p = position_of(v.tasks, id);
    if p >= 0 {
        assert(!has_id(w.tasks, id)) by {
            if has_id(w.tasks, id) {
                let k = choose|k: int| 0 <= k < w.tasks.len() && #[trigger] w.tasks[k].id == id;
                let ok = if k < p { k } else { k + 1 };
                assert(w.tasks[k] == v.tasks[ok]);
                if ok < p {
                    assert(v.tasks[ok].id < v.tasks[p].id);
                } else {
                    assert(v.tasks[p].id < v.tasks[ok].id);
                }
            }
        }
        lemma_get_missing(w, id);
        if has_id(v.tasks, other) {
            let q = position_of(v.tasks, other);
            lemma_get_at(v, q);
            let nq = if q < p { q } else { q - 1 };
            assert(w.tasks[nq] == v.tasks[q]);
            lemma_get_at(w, nq);
        } else {
            assert(!has_id(w.tasks, other)) by {
                if has_id(w.tasks, other) {
                    let k = choose|k: int| 0 <= k < w.tasks.len() && #[trigger] w.tasks[k].id == other;
                    let ok = if k < p { k } else { k + 1 };
                    assert(w.tasks[k] == v.tasks[ok]);
                }
            }
            lemma_get_missing(w, other);
        }
    } else {
        lemma_get_missing(w, id);
    }
}

/// Completing an open task answers `true` and marks it done, and nothing
/// else changes; completing it again gives `TaskAlreadyComplete`.
/// Completing an unknown identifier changes nothing and gives
/// `InvalidIndex`.
pub proof fn law_complete_then_complete(v: RepoView, id: usize, other: usize)
    requires
        valid(v),
        other != id,
    ensures
        !has_id(v.tasks, id) ==> complete_spec(v, id) == (
            v,
            Err::<bool, TodoError>(TodoError::InvalidIndex(id)),
        ),
        has_id(v.tasks, id) ==> {
            let t = v.tasks[position_of(v.tasks, id)];
            let w = complete_spec(v, id).0;
            &&& !t.completed ==> complete_spec(v, id).1 == Ok::<bool, TodoError>(true)
            &&& t.completed ==> complete_spec(v, id) == (
                v,
                Err::<bool, TodoError>(TodoError::TaskAlreadyComplete(id)),
            )
            &&& get_spec(w, id) == Ok::<Option<TaskView>, TodoError>(
                Some(TaskView { completed: true, ..t }),
            )
            &&& complete_spec(w, id) == (
                w,
                Err::<bool, TodoError>(TodoError::TaskAlreadyComplete(id)),
            )
            &&& get_spec(w, other) == get_spec(v, other)
            &&& w.next_id == v.next_id
            &&& w.tasks.len() == v.tasks.len()
        },
{
    lemma_complete_keeps_valid(v, id);
    lemma_position_of(v.tasks, id);
    lemma_position_of(v.tasks, other);
    let w = complete_spec(v, id).0;
    let p = position_of(v.tasks, id);
    if p >= 0 {
        let t = v.tasks[p];
        assert(w.tasks[p] == TaskView { completed: true, ..t });
        lemma_get_at(w, p);
        lemma_position_of_at(w, p);
        if has_id(v.tasks, other) {
            let q = position_of(v.tasks, other);
            lemma_get_at(v, q);
            assert(w.tasks[q] == v.tasks[q]);
            lemma_get_at(w, q);
        } else {
            assert(!has_id(w.tasks, other)) by {
                if has_id(w.tasks, other) {
                    let k = choose|k: int| 0 <= k < w.tasks.len() && #[trigger] w.tasks[k].id == other;
                    assert(w.tasks[k].id == v.tasks[k].id);
                }
            }
            lemma_get_missing(w, other);
        }
    }
}

/// The count follows the operations: a successful addition adds one
/// task, a successful removal takes one away, and clearing leaves none.
pub proof fn law_task_count(v: RepoView, title: Seq<char>, description: Seq<char>, id: usize)
    requires
        valid(v),
    ensures
        add_spec(v, title, description).1 is Ok ==> add_spec(v, title, description).0.tasks.len()
            == v.tasks.len() + 1,
        remove_spec(v, id).1 is Ok ==> remove_spec(v, id).0.tasks.len() == v.tasks.len() - 1,
        clear_spec(v).0.tasks.len() == 0,
{
    lemma_position_of(v.tasks, id);
}

/// Clearing empties the store and restarts the identifiers: the next task
/// gets identifier 1, and clearing again gives `AlreadyEmpty`.
pub proof fn law_clear_restarts(v: RepoView, title: Seq<char>, description: Seq<char>)
    requires
        valid(v),
        v.tasks.len() > 0,
        !is_blank(title),
        !is_blank(description),
    ensures
        clear_spec(v).1 == Ok::<(), TodoError>(()),
        clear_spec(clear_spec(v).0) == (
            clear_spec(v).0,
            Err::<(), TodoError>(TodoError::AlreadyEmpty),
        ),
        add_spec(clear_spec(v).0, title, description).1 matches Ok(t) && t.id == 1,
{
}

/// The stores that an empty repository from `InMemoryRepo::new` can come
/// to: well formed, identifiers from 1 on, and every stored title and
/// description non-blank.
pub open spec fn reachable(v: RepoView) -> bool {
    &&& valid(v)
    &&& v.next_id >= 1
    &&& forall|i: int|
        0 <= i < v.tasks.len() ==> #[trigger] v.tasks[i].id >= 1 && !is_blank(v.tasks[i].title)
            && !is_blank(v.tasks[i].description)
}

/// The empty store with next identifier 1 is reachable, and every
/// operation leads from a reachable store to a reachable one: stored
/// identifiers are at least 1 and stored texts are never blank.
pub proof fn law_reachable_stores(v: RepoView, title: Seq<char>, description: Seq<char>, id: usize)
    requires
        reachable(v),
        v.next_id < usize::MAX || is_blank(title) || is_blank(description),
    ensures
        reachable(RepoView { tasks: Seq::empty(), next_id: 1 }),
        reachable(add_spec(v, title, description).0),
        reachable(remove_spec(v, id).0),
        reachable(complete_spec(v, id).0),
        reachable(clear_spec(v).0),
{
    lemma_add_keeps_valid(v, title, description);
    lemma_remove_keeps_valid(v, id);
    lemma_complete_keeps_valid(v, id);
    lemma_position_of(v.tasks, id);
    let a = add_spec(v, title, description).0;
    assert forall|i: int| 0 <= i < a.tasks.len() implies #[trigger] a.tasks[i].id >= 1
        && !is_blank(a.tasks[i].title) && !is_blank(a.tasks[i].description) by {
        if i < v.tasks.len() {
            assert(a.tasks[i] == v.tasks[i]);
        }
    }
    let p = position_of(v.tasks, id);
    let r = remove_spec(v, id).0;
    assert forall|i: int| 0 <= i < r.tasks.len() implies #[trigger] r.tasks[i].id >= 1
        && !is_blank(r.tasks[i].title) && !is_blank(r.tasks[i].description) by {
        if p >= 0 {
            let oi = if i < p { i } else { i + 1 };
            assert(r.tasks[i] == v.tasks[oi]);
        } else {
            assert(r.tasks[i] == v.tasks[i]);
        }
    }
    let c = complete_spec(v, id).0;
    assert forall|i: int| 0 <= i < c.tasks.len() implies #[trigger] c.tasks[i].id >= 1
        && !is_blank(c.tasks[i].title) && !is_blank(c.tasks[i].description) by {
        if i != p {
            assert(c.tasks[i] == v.tasks[i]);
        } else {
            assert(c.tasks[i].title == v.tasks[i].title);
        }
    }
}

/// Clearing answers from the number of stored tasks alone: a store that
/// holds no task, whatever its next identifier, is refused with
/// `AlreadyEmpty` and left as it is; a store that holds tasks is emptied,
/// and its identifiers restart at 1.
pub proof fn law_clear_answers_by_count(v: RepoView)
    ensures
        v.tasks.len() == 0 ==> clear_spec(v) == (v, Err::<(), TodoError>(TodoError::AlreadyEmpty)),
        v.tasks.len() > 0 ==> clear_spec(v).1 == Ok::<(), TodoError>(()) && clear_spec(v).0.tasks.len()
            == 0 && clear_spec(v).0.next_id == 1,
        clear_spec(v).1 is Ok <==> v.tasks.len() > 0,
{
}

} // verus!
