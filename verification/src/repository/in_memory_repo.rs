//! A repository that keeps its tasks in a vector, in the order they were
//! added.
use vstd::prelude::*;
use crate::models::todo::{Task, TaskView, TodoError};
use crate::repository::model::{
    add_spec, clear_spec, complete_spec, first_at, get_spec, has_id, lemma_add_keeps_valid,
    lemma_complete_keeps_valid, lemma_first_at_unique, lemma_position_of, lemma_remove_keeps_valid,
    opt_task_result, position_of, remove_spec, task_result, valid, views, RepoView,
};
use crate::repository::todo_repo::TodoRepository;
use crate::text::is_blank_str;

verus! {

/// What `list_tasks` hands out and what `task_count` counts agree: a
/// listing equal to the store has as many tasks as the store.
pub proof fn law_list_matches_count(listed: Seq<Task>, v: RepoView)
    requires
        views(listed) == v.tasks,
    ensures
        listed.len() == v.tasks.len(),
        forall|i: int| 0 <= i < listed.len() ==> #[trigger] listed[i]@ == v.tasks[i],
{
}

/// Tasks kept in memory, with the identifier the next task receives.
pub struct InMemoryRepo {
    tasks: Vec<Task>,
    next_id: usize,
}

impl View for InMemoryRepo {
    type V = RepoView;

    closed spec fn view(&self) -> RepoView {
        RepoView { tasks: views(self.tasks@), next_id: self.next_id }
    }
}

impl Default for InMemoryRepo {
    fn default() -> (r: Self)
        ensures
            r@.tasks.len() == 0,
            r@.next_id == 0,
    {
        InMemoryRepo { tasks: Vec::new(), next_id: 0 }
    }
}

impl InMemoryRepo {
    /// An empty repository whose first task gets identifier 1.
    pub fn new() -> (r: Self)
        ensures
            r@ == (RepoView { tasks: Seq::empty(), next_id: 1 }),
            r.inv(),
    {
        let r = InMemoryRepo { tasks: Vec::new(), next_id: 1 };
        assert(r@.tasks =~= Seq::<TaskView>::empty());
        r
    }

    /// The first position of a task with identifier `id`.
    fn find_position(&self, id: usize) -> (p: Option<usize>)
        ensures
            match p {
                Some(i) => first_at(self@.tasks, id, i as int) && position_of(self@.tasks, id)
                    == i,
                None => !has_id(self@.tasks, id) && position_of(self@.tasks, id) == -1,
            },
    {
        proof {
            lemma_position_of(self@.tasks, id);
        }
        let n = self.tasks.len();
        let mut i: usize = 0;
        while i < n
            invariant
                n == self.tasks@.len(),
                i <= n,
                forall|j: int| 0 <= j < i ==> #[trigger] self.tasks@[j].id != id,
            decreases n - i,
        {
            if self.tasks[i].id == id {
                proof {
                    assert(first_at(self@.tasks, id, i as int));
                    lemma_position_of(self@.tasks, id);
                    lemma_first_at_unique(
                        self@.tasks,
                        id,
                        i as int,
                        position_of(self@.tasks, id),
                    );
                }
                return Some(i);
            }
            i = i + 1;
        }
        proof {
            if has_id(self@.tasks, id) {
                let k = choose|k: int| 0 <= k < self@.tasks.len() && #[trigger] self@.tasks[k].id == id;
                assert(self.tasks@[k].id == id);
            }
        }
        None
    }
}

impl TodoRepository for InMemoryRepo {
    open spec fn inv(&self) -> bool {
        valid(self@)
    }

    open spec fn has_room(&self) -> bool {
        self@.next_id < usize::MAX
    }

    fn can_add(&self) -> (b: bool) {
        self.next_id < usize::MAX
    }

    open spec fn location(&self) -> Option<Seq<char>> {
        None
    }

    open spec fn store(&self) -> Option<RepoView> {
        Some(self@)
    }

    fn add_task(&mut self, title: String, description: String) -> (r: Result<Task, TodoError>)
        ensures
            (final(self)@, task_result(r)) == add_spec(old(self)@, title@, description@),
    {
        if is_blank_str(title.as_str()) {
            return Err(TodoError::EmptyTitle);
        }
        if is_blank_str(description.as_str()) {
            return Err(TodoError::EmptyDescription);
        }
        proof {
            lemma_add_keeps_valid(old(self)@, title@, description@);
        }
        let task = Task { id: self.next_id, title, description, completed: false };
        self.tasks.push(task.clone());
        self.next_id = self.next_id + 1;
        proof {
            assert(self@.tasks =~= old(self)@.tasks.push(task@));
        }
        Ok(task)
    }

    fn list_tasks(&self) -> (r: Result<Vec<Task>, TodoError>)
        ensures
            r matches Ok(v) && views(v@) == self@.tasks,
    {
        let v = self.tasks.clone();
        proof {
            assert forall|i: int| 0 <= i < v@.len() implies v@[i] == self.tasks@[i] by {
                assert(cloned::<Task>(self.tasks[i], v[i]));
            }
            assert(views(v@) =~= self@.tasks);
        }
        Ok(v)
    }

    fn get_task(&self, id: usize) -> (r: Result<Option<Task>, TodoError>)
        ensures
            opt_task_result(r) == get_spec(self@, id),
    {
        match self.find_position(id) {
            Some(i) => Ok(Some(self.tasks[i].clone())),
            None => Err(TodoError::InvalidIndex(id)),
        }
    }

    fn remove_task(&mut self, id: usize) -> (r: Result<Option<Task>, TodoError>)
        ensures
            (final(self)@, opt_task_result(r)) == remove_spec(old(self)@, id),
    {
        proof {
            lemma_remove_keeps_valid(old(self)@, id);
        }
        match self.find_position(id) {
            Some(i) => {
                let t = self.tasks.remove(i);
                proof {
                    assert(self@.tasks =~= old(self)@.tasks.remove(i as int));
                }
                Ok(Some(t))
            },
            None => Err(TodoError::InvalidIndex(id)),
        }
    }

    fn complete_task(&mut self, id: usize) -> (r: Result<bool, TodoError>)
        ensures
            (final(self)@, r) == complete_spec(old(self)@, id),
    {
        proof {
            lemma_complete_keeps_valid(old(self)@, id);
        }
        match self.find_position(id) {
            Some(i) => {
                if self.tasks[i].completed {
                    return Err(TodoError::TaskAlreadyComplete(id));
                }
                let done = Task {
                    id: self.tasks[i].id,
                    description: self.tasks[i].description.clone(),
                    title: self.tasks[i].title.clone(),
                    completed: true,
                };
                self.tasks.set(i, done);
                proof {
                    let t = old(self)@.tasks[i as int];
                    assert(self@.tasks =~= old(self)@.tasks.update(
                        i as int,
                        TaskView { completed: true, ..t },
                    ));
                }
                Ok(true)
            },
            None => Err(TodoError::InvalidIndex(id)),
        }
    }

    fn task_count(&self) -> (r: Result<usize, TodoError>)
        ensures
            r == Ok::<usize, TodoError>(self@.tasks.len() as usize),
    {
        Ok(self.tasks.len())
    }

    fn clear_all(&mut self) -> (r: Result<(), TodoError>)
        ensures
            (final(self)@, r) == clear_spec(old(self)@),
            old(self)@.tasks.len() == 0 ==> r == Err::<(), TodoError>(TodoError::AlreadyEmpty)
                && final(self)@ == old(self)@,
            old(self)@.tasks.len() > 0 ==> r == Ok::<(), TodoError>(()) && final(self)@.tasks.len()
                == 0 && final(self)@.next_id == 1,
    {
        if self.tasks.len() == 0 {
            return Err(TodoError::AlreadyEmpty);
        }
        self.tasks.clear();
        self.next_id = 1;
        proof {
            assert(self@.tasks =~= Seq::<TaskView>::empty());
        }
        Ok(())
    }
}

} // verus!
