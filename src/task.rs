use vstd::prelude::*;

use crate::positioning::TilePosition;
use crate::tilemap::Tiles;

verus! {

/// What a task asks of an agent.
#[derive(Copy, Clone, Debug, PartialEq, Eq, Hash, Structural)]
pub enum TaskType {
    Move,
    Eat,
    Drink,
    Regenerate,
    Idle,
}

impl TaskType {
    pub open spec fn name_spec(self) -> Seq<char> {
        match self {
            TaskType::Move => "Move"@,
            TaskType::Eat => "Eat"@,
            TaskType::Drink => "Drink"@,
            TaskType::Regenerate => "Regenerate"@,
            TaskType::Idle => "Idle"@,
        }
    }

    /// The display name of the kind.
    pub fn name(&self) -> (r: &'static str)
        ensures
            r@ == self.name_spec(),
    {
        match self {
            TaskType::Move => "Move",
            TaskType::Eat => "Eat",
            TaskType::Drink => "Drink",
            TaskType::Regenerate => "Regenerate",
            TaskType::Idle => "Idle",
        }
    }
}

/// One remembered action: its kind, where it happens, and whether it is done.
#[derive(Copy, Clone, Debug, PartialEq, Eq, Structural)]
pub struct Task {
    pub task_type: TaskType,
    pub position: TilePosition,
    pub completed: bool,
}

impl Task {
    pub fn new(task_type: TaskType, position: TilePosition, completed: bool) -> (r: Task)
        ensures
            r == (Task { task_type, position, completed }),
    {
        Task { task_type, position, completed }
    }

    pub fn task_type(&self) -> (r: &TaskType)
        ensures
            *r == self.task_type,
    {
        &self.task_type
    }

    pub fn position(&self) -> (r: &TilePosition)
        ensures
            *r == self.position,
    {
        &self.position
    }

    pub fn completed(&self) -> (r: bool)
        ensures
            r == self.completed,
    {
        self.completed
    }

    pub fn set_completed(&mut self, completed: bool)
        ensures
            *final(self) == (Task { completed, ..*old(self) }),
    {
        self.completed = completed;
    }
}

impl Default for Task {
    /// An unfinished move toward a random tile.
    fn default() -> (r: Task)
        ensures
            r.task_type == TaskType::Move,
            !r.completed,
            r.position.in_bounds(),
    {
        let mut rng = rand::thread_rng();
        Task::new(TaskType::Move, Tiles::random_position(&mut rng), false)
    }
}

} // verus!
