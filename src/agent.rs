use vstd::prelude::*;

use crate::agent_view::{perceive, seen_from, view_before, view_window, AgentView};
use crate::needs::{capped, decayed, min_of, most_depleted, AgentData, Levels, BENEFIT, FULL};
use crate::positioning::{TilePosition, TransformPosition};
use crate::task::{Task, TaskType};
use crate::tilemap::{TileType, Tiles};
use crate::text::{hundredths_text, push_hundredths};
use crate::tradeoff::Tradeoff;
use vstd::string::StringExecFns;

verus! {

/// Number of agents in a world.
pub const AGENT_COUNT: i32 = 10;

/// Twice the default view radius of an agent, in tiles.
pub const AGENT_VIEW_DISTANCE: i32 = 32;

/// Whether an agent last chose to explore or to exploit.
#[derive(Copy, Clone, Debug, PartialEq, Eq, Structural)]
pub enum ExploringExploitingState {
    Exploring,
    Exploiting,
}

impl ExploringExploitingState {
    pub open spec fn name_spec(self) -> Seq<char> {
        match self {
            ExploringExploitingState::Exploring => "Exploring"@,
            ExploringExploitingState::Exploiting => "Exploiting"@,
        }
    }

    /// The display name of the state.
    pub fn name(&self) -> (r: &'static str)
        ensures
            r@ == self.name_spec(),
    {
        match self {
            ExploringExploitingState::Exploring => "Exploring",
            ExploringExploitingState::Exploiting => "Exploiting",
        }
    }
}

/// `h[i]` is an unfinished task of `kind`.
pub open spec fn open_task(h: Seq<Task>, kind: TaskType, i: int) -> bool {
    0 <= i < h.len() && h[i].task_type == kind && !h[i].completed
}

/// `i` is the latest unfinished task of `kind` in `h`.
pub open spec fn is_latest_open(h: Seq<Task>, kind: TaskType, i: int) -> bool {
    open_task(h, kind, i) && forall|j: int| i < j < h.len() ==> !open_task(h, kind, j)
}

/// Index of the latest unfinished task of `kind`, if any.
pub open spec fn latest_open(h: Seq<Task>, kind: TaskType) -> Option<int> {
    if exists|i: int| is_latest_open(h, kind, i) {
        Some(choose|i: int| is_latest_open(h, kind, i))
    } else {
        None
    }
}

proof fn lemma_latest_open_unique(h: Seq<Task>, kind: TaskType, i: int)
    requires
        is_latest_open(h, kind, i),
    ensures
        latest_open(h, kind) == Some(i),
{
    let c = choose|c: int| is_latest_open(h, kind, c);
    assert(is_latest_open(h, kind, c));
    if c < i {
        assert(!open_task(h, kind, i));
    } else if i < c {
        assert(!open_task(h, kind, c));
    }
}

proof fn lemma_latest_open_none(h: Seq<Task>, kind: TaskType)
    requires
        forall|j: int| 0 <= j < h.len() ==> !open_task(h, kind, j),
    ensures
        latest_open(h, kind) is None,
{
}

/// The kind of task a terrain's benefit is recorded as, if it has one.
pub open spec fn benefit_task(kind: TileType) -> Option<TaskType> {
    match kind {
        TileType::Grass => Some(TaskType::Eat),
        TileType::Water => Some(TaskType::Drink),
        TileType::Sand => Some(TaskType::Regenerate),
        _ => None,
    }
}

/// The needs after standing on terrain `kind`: grass feeds, water quenches,
/// sand heals, each by `BENEFIT`; then every need is capped at `FULL`.
pub open spec fn restored(v: Levels, kind: TileType) -> Levels {
    capped(
        match kind {
            TileType::Grass => (v.0 + BENEFIT, v.1, v.2),
            TileType::Water => (v.0, v.1 + BENEFIT, v.2),
            TileType::Sand => (v.0, v.1, v.2 + BENEFIT),
            _ => v,
        },
    )
}

/// The history after standing on terrain `kind` at `tile`: a completed task of
/// the benefit's kind is appended when the terrain has one.
pub open spec fn with_benefit(h: Seq<Task>, kind: TileType, tile: TilePosition) -> Seq<Task> {
    match benefit_task(kind) {
        Some(t) => h.push(Task { task_type: t, position: tile, completed: true }),
        None => h,
    }
}

/// Number of tasks of `kind` in `s`.
pub open spec fn count_kind(s: Seq<Task>, kind: TaskType) -> nat
    decreases s.len(),
{
    if s.len() == 0 {
        0
    } else {
        count_kind(s.drop_last(), kind) + if s.last().task_type == kind {
            1nat
        } else {
            0nat
        }
    }
}

/// The explore signal, scaled by `FULL * WEIGHT_ONE`: the lowest need, as a
/// share of a full one, times the explore weight.
pub open spec fn exploration_score(lowest: int, w: Tradeoff) -> int {
    lowest * w.lhs_multiplier
}

/// The exploit signal, at the same scale: what the lowest need lacks of a
/// full one, times the exploit weight.
pub open spec fn exploitation_score(lowest: int, w: Tradeoff) -> int {
    (FULL - lowest) * w.rhs_multiplier
}

/// What an agent does in one step of its policy. The host moves the agent
/// toward `target` in between choosing it and finishing the step.
#[derive(Copy, Clone, Debug, PartialEq, Eq, Structural)]
pub enum Decision {
    /// Nothing remembered yet: head for a fresh waypoint.
    Start { target: TilePosition },
    /// Explore: resume the unfinished move at index `resume` of the history,
    /// or head for a fresh waypoint when there is none.
    Explore { target: TilePosition, resume: Option<usize> },
    /// Exploit: return to the unfinished task at index `index`, which serves
    /// the most depleted need `kind`.
    Exploit { kind: TaskType, index: usize, target: TilePosition },
}

impl Decision {
    pub open spec fn target_spec(self) -> TilePosition {
        match self {
            Decision::Start { target } => target,
            Decision::Explore { target, .. } => target,
            Decision::Exploit { target, .. } => target,
        }
    }

    /// Where the agent is to head.
    pub fn target(&self) -> (r: TilePosition)
        ensures
            r == self.target_spec(),
    {
        match self {
            Decision::Start { target } => *target,
            Decision::Explore { target, .. } => *target,
            Decision::Exploit { target, .. } => *target,
        }
    }
}

/// Exploring: resume the latest unfinished move, else head for `fresh`.
pub open spec fn explore_decision(h: Seq<Task>, fresh: TilePosition) -> Decision {
    match latest_open(h, TaskType::Move) {
        Some(i) => Decision::Explore { target: h[i].position, resume: Some(i as usize) },
        None => Decision::Explore { target: fresh, resume: None },
    }
}

/// The policy. With no history, start toward `fresh`. Otherwise explore when
/// the explore signal is strictly stronger; else exploit the most depleted
/// need at its latest unfinished task, and explore when there is none.
pub open spec fn decision_for(
    h: Seq<Task>,
    data: AgentData,
    w: Tradeoff,
    fresh: TilePosition,
) -> Decision {
    let lowest = crate::needs::lowest_of(data.levels());
    if h.len() == 0 {
        Decision::Start { target: fresh }
    } else if exploration_score(lowest, w) > exploitation_score(lowest, w) {
        explore_decision(h, fresh)
    } else {
        let kind = most_depleted(data.levels());
        match latest_open(h, kind) {
            Some(i) => Decision::Exploit { kind, index: i as usize, target: h[i].position },
            None => explore_decision(h, fresh),
        }
    }
}

/// `h` with task `i` marked completed, when the agent reached it.
pub open spec fn marked(h: Seq<Task>, i: int, reached: bool) -> Seq<Task> {
    if reached && 0 <= i < h.len() {
        h.update(i, Task { completed: true, ..h[i] })
    } else {
        h
    }
}

/// The history after finishing decision `d` with the agent at `position`.
pub open spec fn history_after(
    h: Seq<Task>,
    d: Decision,
    position: TransformPosition,
    tiles: &Tiles,
) -> Seq<Task> {
    let tile = position.tile_spec();
    let terrain = tiles.kind_at(tile);
    match d {
        Decision::Start { target } => h.push(
            Task { task_type: TaskType::Move, position: target, completed: false },
        ),
        Decision::Explore { target, resume } => {
            let reached = position.reaches_spec(target);
            let h1 = match resume {
                Some(i) => marked(h, i as int, reached),
                None => h,
            };
            with_benefit(
                h1.push(Task { task_type: TaskType::Move, position: target, completed: reached }),
                terrain,
                tile,
            )
        },
        Decision::Exploit { index, target, .. } => with_benefit(
            marked(h, index as int, position.reaches_spec(target)),
            terrain,
            tile,
        ),
    }
}

/// An agent that remembers nothing starts by heading for the fresh waypoint,
/// and finishing that step leaves exactly one unfinished move toward it.
pub proof fn lemma_first_step(
    data: AgentData,
    w: Tradeoff,
    fresh: TilePosition,
    position: TransformPosition,
    tiles: &Tiles,
)
    ensures
        decision_for(Seq::empty(), data, w, fresh) == (Decision::Start { target: fresh }),
        history_after(Seq::empty(), Decision::Start { target: fresh }, position, tiles) == seq![
            Task { task_type: TaskType::Move, position: fresh, completed: false },
        ],
{
    assert(history_after(Seq::empty(), Decision::Start { target: fresh }, position, tiles)
        =~= seq![Task { task_type: TaskType::Move, position: fresh, completed: false }]);
}

/// Standing on water raises hydration by `BENEFIT`, capped at `FULL`, leaves
/// the other needs as they were apart from the cap, and records a completed
/// drink at that tile.
pub proof fn lemma_water_quenches(v: Levels, h: Seq<Task>, tile: TilePosition)
    ensures
        restored(v, TileType::Water) == capped((v.0, v.1 + BENEFIT, v.2)),
        restored(v, TileType::Water).1 == min_of(v.1 + BENEFIT, FULL as int),
        with_benefit(h, TileType::Water, tile) == h.push(
            Task { task_type: TaskType::Drink, position: tile, completed: true },
        ),
{
}

/// The status lines of an agent: its three needs with two decimals, its
/// state, and the kind of its latest task.
pub open spec fn status_spec(
    data: AgentData,
    state: ExploringExploitingState,
    latest: TaskType,
) -> Seq<char> {
    "Saturation: "@ + hundredths_text(data.saturation as int) + "\nThirst: "@ + hundredths_text(
        data.thirst as int,
    ) + "\nHealth: "@ + hundredths_text(data.health as int) + "\nState: "@ + state.name_spec()
        + "\nCurrent Task: "@ + latest.name_spec()
}

/// An autonomous inhabitant of the world.
pub struct Agent {
    /// What the agent saw at its last look around, nearest first.
    pub agent_view: Vec<AgentView>,
    /// Every task the agent has taken up, oldest first.
    pub task_history: Vec<Task>,
    pub data: AgentData,
    pub exploration_exploitation: Tradeoff,
    pub exploration_exploitation_state: ExploringExploitingState,
    pub latest_task: TaskType,
    /// Radius, in tiles, of the square the agent looks at.
    pub view_distance: i32,
}

impl AgentData {
    /// Each need can take one more `BENEFIT` without leaving the range of `i64`.
    pub open spec fn can_restore(self) -> bool {
        self.saturation <= i64::MAX - BENEFIT && self.thirst <= i64::MAX - BENEFIT && self.health
            <= i64::MAX - BENEFIT
    }
}

impl Agent {
    /// A fresh agent: full needs, random trade-off weights, no memory yet.
    pub fn new() -> (r: Agent)
        ensures
            r.agent_view@.len() == 0,
            r.task_history@.len() == 0,
            r.data.saturation == FULL && r.data.thirst == FULL && r.data.health == FULL,
            r.exploration_exploitation.lhs_multiplier < crate::tradeoff::WEIGHT_ONE,
            r.exploration_exploitation.rhs_multiplier < crate::tradeoff::WEIGHT_ONE,
            r.exploration_exploitation_state == ExploringExploitingState::Exploring,
            r.latest_task == TaskType::Idle,
            r.view_distance == AGENT_VIEW_DISTANCE / 2,
    {
        Agent {
            agent_view: Vec::new(),
            task_history: Vec::new(),
            data: AgentData::default(),
            exploration_exploitation: Tradeoff::default(),
            exploration_exploitation_state: ExploringExploitingState::Exploring,
            latest_task: TaskType::Idle,
            view_distance: AGENT_VIEW_DISTANCE / 2,
        }
    }

    pub fn view_distance(&self) -> (r: i32)
        ensures
            r == self.view_distance,
    {
        self.view_distance
    }

    pub fn set_view_distance(&mut self, view_distance: i32)
        ensures
            final(self).view_distance == view_distance,
            final(self).agent_view == old(self).agent_view,
            final(self).task_history == old(self).task_history,
            final(self).data == old(self).data,
            final(self).exploration_exploitation == old(self).exploration_exploitation,
            final(self).exploration_exploitation_state == old(
                self,
            ).exploration_exploitation_state,
            final(self).latest_task == old(self).latest_task,
    {
        self.view_distance = view_distance;
    }

    /// Index of the latest task of `task_type` that is not completed.
    pub fn latest_matching_index(&self, task_type: TaskType) -> (r: Option<usize>)
        ensures
            r matches Some(i) ==> latest_open(self.task_history@, task_type) == Some(i as int),
            r is None ==> latest_open(self.task_history@, task_type) is None,
    {
        let mut i: usize = self.task_history.len();
        while i > 0
            invariant
                i <= self.task_history@.len(),
                forall|j: int|
                    i <= j < self.task_history@.len() ==> !open_task(
                        self.task_history@,
                        task_type,
                        j,
                    ),
            decreases i,
        {
            let t = &self.task_history[i - 1];
            if t.task_type == task_type && !t.completed {
                proof {
                    lemma_latest_open_unique(self.task_history@, task_type, i - 1);
                }
                return Some(i - 1);
            }
            i = i - 1;
        }
        proof {
            lemma_latest_open_none(self.task_history@, task_type);
        }
        None
    }

    /// The latest task of `task_type` that is not completed.
    pub fn find_latest_matching_task(&self, task_type: TaskType) -> (r: Option<&Task>)
        ensures
            r matches Some(t) ==> exists|i: int|
                latest_open(self.task_history@, task_type) == Some(i) && *t
                    == self.task_history@[i],
            r is None ==> latest_open(self.task_history@, task_type) is None,
    {
        match self.latest_matching_index(task_type) {
            Some(i) => Some(&self.task_history[i]),
            None => None,
        }
    }

    /// The agent, standing at `position`, is within one world unit of the
    /// anchor of `tile`.
    pub fn check_if_at_postion(&self, position: &TransformPosition, tile: &TilePosition) -> (r:
        bool)
        ensures
            r == position.reaches_spec(*tile),
    {
        position.reaches(tile)
    }

    /// One tick of the needs: decay, then the cap at `FULL`.
    pub fn tick(&mut self)
        requires
            old(self).data.can_decay(),
        ensures
            final(self).data.levels() == capped(decayed(old(self).data.levels())),
            final(self).data.capped_at_full(),
            final(self).agent_view == old(self).agent_view,
            final(self).task_history == old(self).task_history,
            final(self).exploration_exploitation == old(self).exploration_exploitation,
            final(self).exploration_exploitation_state == old(
                self,
            ).exploration_exploitation_state,
            final(self).latest_task == old(self).latest_task,
            final(self).view_distance == old(self).view_distance,
    {
        self.data.tick();
        self.data.normalize();
    }

    /// Takes the benefit of the tile under `position`: grass feeds, water
    /// quenches, sand heals, and the benefit is remembered as a completed task
    /// at that tile; deep water and mountains give nothing. Needs are then
    /// capped at `FULL`.
    pub fn exploit(&mut self, tiles: &Tiles, position: &TransformPosition)
        requires
            tiles.wf(),
            position.tile_spec().in_bounds(),
            old(self).data.can_restore(),
        ensures
            final(self).data.levels() == restored(
                old(self).data.levels(),
                tiles.kind_at(position.tile_spec()),
            ),
            final(self).data.capped_at_full(),
            final(self).task_history@ == with_benefit(
                old(self).task_history@,
                tiles.kind_at(position.tile_spec()),
                position.tile_spec(),
            ),
            final(self).agent_view == old(self).agent_view,
            final(self).exploration_exploitation == old(self).exploration_exploitation,
            final(self).exploration_exploitation_state == old(
                self,
            ).exploration_exploitation_state,
            final(self).latest_task == old(self).latest_task,
            final(self).view_distance == old(self).view_distance,
    {
        let tile = position.tile();
        let kind = tiles.get_tile_type(&tile);
        match kind {
            TileType::Grass => {
                self.data.saturation = self.data.saturation + BENEFIT;
                self.task_history.push(Task::new(TaskType::Eat, tile, true));
            },
            TileType::Water => {
                self.data.thirst = self.data.thirst + BENEFIT;
                self.task_history.push(Task::new(TaskType::Drink, tile, true));
            },
            TileType::DeepWater => {},
            TileType::Sand => {
                self.data.health = self.data.health + BENEFIT;
                self.task_history.push(Task::new(TaskType::Regenerate, tile, true));
            },
            TileType::Mountain => {},
        }
        self.data.normalize();
    }

    /// Looks around from `position`: the view is replaced by what
    /// `perceive` returns for the agent's view distance.
    pub fn refresh_view(&mut self, position: &TransformPosition, tiles: &Tiles)
        requires
            tiles.wf(),
        ensures
            final(self).agent_view@.len() == view_window(
                *position,
                old(self).view_distance as int,
            ).size(),
            forall|i: int|
                0 <= i < final(self).agent_view@.len() ==> view_window(
                    *position,
                    old(self).view_distance as int,
                ).contains((#[trigger] final(self).agent_view@[i]).tile_position)
                    && final(self).agent_view@[i].tile_position.in_bounds()
                    && final(self).agent_view@[i] == seen_from(
                    *position,
                    tiles,
                    final(self).agent_view@[i].tile_position,
                ),
            forall|p: TilePosition|
                #[trigger] view_window(*position, old(self).view_distance as int).contains(p)
                    ==> exists|i: int|
                    0 <= i < final(self).agent_view@.len() && final(self).agent_view@[i].tile_position
                        == p,
            forall|i: int, j: int|
                0 <= i < j < final(self).agent_view@.len() ==> view_before(
                    view_window(*position, old(self).view_distance as int),
                    #[trigger] final(self).agent_view@[i],
                    #[trigger] final(self).agent_view@[j],
                ),
            final(self).task_history == old(self).task_history,
            final(self).data == old(self).data,
            final(self).exploration_exploitation == old(self).exploration_exploitation,
            final(self).exploration_exploitation_state == old(
                self,
            ).exploration_exploitation_state,
            final(self).latest_task == old(self).latest_task,
            final(self).view_distance == old(self).view_distance,
    {
        self.agent_view = perceive(position, self.view_distance, tiles);
    }

    /// The nearest tile of terrain `kind` in the current view.
    pub fn nearest_of_kind(&self, kind: TileType) -> (r: Option<AgentView>)
        ensures
            r is None <==> forall|i: int|
                0 <= i < self.agent_view@.len() ==> (#[trigger] self.agent_view@[i]).tile_type
                    != kind,
            r matches Some(v) ==> exists|i: int|
                0 <= i < self.agent_view@.len() && self.agent_view@[i] == v && v.tile_type == kind
                    && forall|j: int| 0 <= j < i ==> (#[trigger] self.agent_view@[j]).tile_type != kind,
    {
        let mut i: usize = 0;
        while i < self.agent_view.len()
            invariant
                i <= self.agent_view@.len(),
                forall|j: int| 0 <= j < i ==> (#[trigger] self.agent_view@[j]).tile_type != kind,
            decreases self.agent_view@.len() - i,
        {
            if self.agent_view[i].tile_type == kind {
                return Some(self.agent_view[i]);
            }
            i = i + 1;
        }
        None
    }
    /// Of the last `window` tasks (all of them when fewer), how many share the
    /// kind of the latest task: returns `(matching, considered)`.
    pub fn recent_same_kind_fraction(&self, window: usize) -> (r: (usize, usize))
        ensures
            r.1 == if window <= self.task_history@.len() {
                window as int
            } else {
                self.task_history@.len() as int
            },
            self.task_history@.len() == 0 ==> r.0 == 0,
            self.task_history@.len() > 0 ==> r.0 == count_kind(
                self.task_history@.subrange(
                    self.task_history@.len() - r.1,
                    self.task_history@.len() as int,
                ),
                self.task_history@.last().task_type,
            ),
    {
        let n = self.task_history.len();
        let considered: usize = if window <= n { window } else { n };
        if n == 0 {
            return (0, 0);
        }
        let kind = self.task_history[n - 1].task_type;
        let start: usize = n - considered;
        let mut count: usize = 0;
        let mut i: usize = start;
        while i < n
            invariant
                n == self.task_history@.len(),
                kind == self.task_history@.last().task_type,
                start <= i <= n,
                count == count_kind(self.task_history@.subrange(start as int, i as int), kind),
                count <= i - start,
            decreases n - i,
        {
            proof {
                assert(self.task_history@.subrange(start as int, i + 1).drop_last()
                    =~= self.task_history@.subrange(start as int, i as int));
            }
            if self.task_history[i].task_type == kind {
                count = count + 1;
            }
            i = i + 1;
        }
        (count, considered)
    }

    /// The latest task, or a fresh move toward a random tile when there is none.
    pub fn last_or_default(&self) -> (r: Task)
        ensures
            self.task_history@.len() > 0 ==> r == self.task_history@.last(),
            self.task_history@.len() == 0 ==> r.task_type == TaskType::Move && !r.completed
                && r.position.in_bounds(),
    {
        let n = self.task_history.len();
        if n > 0 {
            self.task_history[n - 1]
        } else {
            Task::default()
        }
    }

    /// The explore and exploit signals, both scaled by `FULL * WEIGHT_ONE`.
    pub fn calculate_exploration_exploitation(&self) -> (r: (i128, i128))
        ensures
            r.0 == exploration_score(
                crate::needs::lowest_of(self.data.levels()),
                self.exploration_exploitation,
            ),
            r.1 == exploitation_score(
                crate::needs::lowest_of(self.data.levels()),
                self.exploration_exploitation,
            ),
    {
        let lowest: i64 = self.data.lowest();
        let lhs: i128 = self.exploration_exploitation.lhs_multiplier as i128;
        let rhs: i128 = self.exploration_exploitation.rhs_multiplier as i128;
        let lacking: i128 = FULL as i128 - lowest as i128;
        proof {
            assert(-0x1_0000_0000_0000_0000_0000_0000 < lowest * lhs < 0x1_0000_0000_0000_0000_0000_0000)
                by (nonlinear_arith)
                requires
                    -0x8000_0000_0000_0000 <= lowest < 0x8000_0000_0000_0000,
                    0 <= lhs < 0x1_0000_0000,
            ;
            assert(-0x1_0000_0000_0000_0000_0000_0000 < lacking * rhs < 0x1_0000_0000_0000_0000_0000_0000)
                by (nonlinear_arith)
                requires
                    -0x8000_0000_0000_0000 <= lacking < 0x8000_0000_0000_3000,
                    0 <= rhs < 0x1_0000_0000,
            ;
        }
        (lowest as i128 * lhs, lacking * rhs)
    }

    /// Chooses the step to take; `fresh` is the waypoint to use when a new one
    /// is needed.
    pub fn decide(&self, fresh: TilePosition) -> (r: Decision)
        ensures
            r == decision_for(
                self.task_history@,
                self.data,
                self.exploration_exploitation,
                fresh,
            ),
    {
        if self.task_history.len() == 0 {
            return Decision::Start { target: fresh };
        }
        let (exploration, exploitation) = self.calculate_exploration_exploitation();
        if exploration > exploitation {
            self.explore_decision(fresh)
        } else {
            let kind = self.data.get_lowest_value_task();
            match self.latest_matching_index(kind) {
                Some(i) => Decision::Exploit { kind, index: i, target: self.task_history[i].position },
                None => self.explore_decision(fresh),
            }
        }
    }

    fn explore_decision(&self, fresh: TilePosition) -> (r: Decision)
        ensures
            r == explore_decision(self.task_history@, fresh),
    {
        match self.latest_matching_index(TaskType::Move) {
            Some(i) => Decision::Explore { target: self.task_history[i].position, resume: Some(i) },
            None => Decision::Explore { target: fresh, resume: None },
        }
    }

    /// Finishes `decision` once the host has moved the agent to `position`:
    /// a task reached (within one world unit) is marked completed; exploring
    /// records the move it made; both then take the benefit of the tile under
    /// the agent, and set the state and the latest task kind.
    pub fn finish(&mut self, decision: Decision, position: &TransformPosition, tiles: &Tiles)
        requires
            tiles.wf(),
            position.tile_spec().in_bounds(),
            old(self).data.can_restore(),
        ensures
            final(self).task_history@ == history_after(
                old(self).task_history@,
                decision,
                *position,
                tiles,
            ),
            decision is Start ==> final(self).data == old(self).data,
            !(decision is Start) ==> final(self).data.levels() == restored(
                old(self).data.levels(),
                tiles.kind_at(position.tile_spec()),
            ),
            final(self).exploration_exploitation_state == (if decision is Exploit {
                ExploringExploitingState::Exploiting
            } else {
                ExploringExploitingState::Exploring
            }),
            final(self).latest_task == (match decision {
                Decision::Start { .. } => old(self).latest_task,
                Decision::Explore { .. } => TaskType::Move,
                Decision::Exploit { kind, .. } => kind,
            }),
            final(self).agent_view == old(self).agent_view,
            final(self).exploration_exploitation == old(self).exploration_exploitation,
            final(self).view_distance == old(self).view_distance,
    {
        match decision {
            Decision::Start { target } => {
                self.task_history.push(Task::new(TaskType::Move, target, false));
                self.exploration_exploitation_state = ExploringExploitingState::Exploring;
            },
            Decision::Explore { target, resume } => {
                let reached = position.reaches(&target);
                if let Some(i) = resume {
                    if reached && i < self.task_history.len() {
                        self.task_history[i].completed = true;
                    }
                }
                self.task_history.push(Task::new(TaskType::Move, target, reached));
                self.latest_task = TaskType::Move;
                self.exploit(tiles, position);
                self.exploration_exploitation_state = ExploringExploitingState::Exploring;
            },
            Decision::Exploit { kind, index, target } => {
                let reached = position.reaches(&target);
                if reached && index < self.task_history.len() {
                    self.task_history[index].completed = true;
                }
                self.exploit(tiles, position);
                self.exploration_exploitation_state = ExploringExploitingState::Exploiting;
                self.latest_task = kind;
            },
        }
    }

    /// The status lines shown for the agent.
    pub fn status_text(&self) -> (r: String)
        ensures
            r@ == status_spec(self.data, self.exploration_exploitation_state, self.latest_task),
    {
        let mut s = String::new();
        s.append("Saturation: ");
        push_hundredths(&mut s, self.data.saturation);
        s.append("\nThirst: ");
        push_hundredths(&mut s, self.data.thirst);
        s.append("\nHealth: ");
        push_hundredths(&mut s, self.data.health);
        s.append("\nState: ");
        s.append(self.exploration_exploitation_state.name());
        s.append("\nCurrent Task: ");
        s.append(self.latest_task.name());
        proof {
            assert(s@ =~= status_spec(self.data, self.exploration_exploitation_state, self.latest_task));
        }
        s
    }
}

} // verus!
