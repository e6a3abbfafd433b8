use relevance_realization::agent::{Agent, Decision, ExploringExploitingState};
use relevance_realization::needs::AgentData;
use relevance_realization::positioning::{TilePosition, TransformPosition};
use relevance_realization::task::{Task, TaskType};
use relevance_realization::tilemap::{TileType, Tiles, MAP_SIZE};
use relevance_realization::tradeoff::{Tradeoff, WEIGHT_ONE};

/// Needs are kept in hundredths of a point.
fn points(v: i64) -> f32 {
    v as f32 / 100.0
}

fn tiles_with(p: TilePosition, kind: TileType) -> Tiles {
    let mut tiles = Tiles::default();
    tiles.tiles[p.x as usize][p.y as usize] = kind;
    tiles
}

#[test]
fn agent_new() {
    let agent = Agent::new();
    assert_eq!(agent.task_history.len(), 0);
    assert_eq!(agent.latest_task, TaskType::Idle);
}

#[test]
fn agent_find_latest_matching_task() {
    let mut agent = Agent::new();
    let task = Task::new(TaskType::Eat, TilePosition::new(0, 0), false);
    agent.task_history.push(task.clone());
    assert_eq!(agent.find_latest_matching_task(TaskType::Eat), Some(&task));
}

#[test]
fn agent_check_if_at_position() {
    let agent = Agent::new();
    let transform = TransformPosition::default();
    let tile_position = TilePosition::new(0, 0);
    assert_eq!(agent.check_if_at_postion(&transform, &tile_position), true);
}

#[test]
fn agent_data_default() {
    let agent_data = AgentData::default();
    assert_eq!(points(agent_data.saturation), 100.0);
    assert_eq!(points(agent_data.thirst), 100.0);
    assert_eq!(points(agent_data.health), 100.0);
}

#[test]
fn agent_data_average() {
    let agent_data = AgentData::default();
    assert_eq!(points(agent_data.average()), 100.0);
}

#[test]
fn agent_data_tick() {
    let mut agent_data = AgentData::default();
    agent_data.tick();
    assert_eq!(points(agent_data.saturation), 99.95);
    assert_eq!(points(agent_data.thirst), 99.95);
    assert_eq!(points(agent_data.health), 99.95);
}

#[test]
fn agent_data_normalize() {
    let mut agent_data = AgentData::default();
    agent_data.saturation = 10_100;
    agent_data.normalize();
    assert_eq!(points(agent_data.saturation), 100.0);
}

#[test]
fn agent_data_lowest() {
    let mut agent_data = AgentData::default();
    agent_data.saturation = 9_000;
    assert_eq!(points(agent_data.lowest()), 90.0);
}

#[test]
fn agent_data_get_lowest_value_task() {
    let mut agent_data = AgentData::default();
    agent_data.saturation = 9_000;
    assert_eq!(agent_data.get_lowest_value_task(), TaskType::Eat);
}

#[test]
fn tick_then_normalize_never_exceeds_full() {
    let mut agent = Agent::new();
    agent.data = AgentData { saturation: 20_000, thirst: 10_003, health: 50 };
    agent.tick();
    assert_eq!(agent.data.saturation, 10_000);
    assert_eq!(agent.data.thirst, 9_998);
    assert_eq!(agent.data.health, 45);
}

#[test]
fn any_negative_need_zeroes_vitality() {
    let mut data = AgentData { saturation: 3, thirst: 500, health: 700 };
    data.tick();
    assert_eq!(data.saturation, -2);
    assert_eq!(data.thirst, 495);
    assert_eq!(data.health, 0);
}

#[test]
fn average_runs_down_from_full() {
    let mut data = AgentData::default();
    let mut previous = data.average();
    let mut crossed = false;
    for _ in 0..2_500 {
        data.tick();
        let now = data.average();
        assert!(now < previous);
        previous = now;
        if data.saturation < 0 || data.thirst < 0 {
            crossed = true;
            assert_eq!(data.health, 0);
        }
    }
    assert!(crossed);
    assert_eq!(data.saturation, 10_000 - 5 * 2_500);
}

#[test]
fn average_rounds_down() {
    let data = AgentData { saturation: -1, thirst: 0, health: 0 };
    assert_eq!(data.average(), -1);
    let data = AgentData { saturation: 1, thirst: 1, health: 0 };
    assert_eq!(data.average(), 0);
}

#[test]
fn most_depleted_need_with_distinct_levels() {
    let d = |s, t, h| AgentData { saturation: s, thirst: t, health: h }.get_lowest_value_task();
    assert_eq!(d(1, 2, 3), TaskType::Eat);
    assert_eq!(d(1, 3, 2), TaskType::Eat);
    assert_eq!(d(2, 1, 3), TaskType::Drink);
    assert_eq!(d(3, 1, 2), TaskType::Drink);
    assert_eq!(d(2, 3, 1), TaskType::Regenerate);
    assert_eq!(d(3, 2, 1), TaskType::Regenerate);
}

#[test]
fn most_depleted_need_ties() {
    let d = |s, t, h| AgentData { saturation: s, thirst: t, health: h }.get_lowest_value_task();
    assert_eq!(d(5, 5, 5), TaskType::Regenerate);
    assert_eq!(d(1, 1, 5), TaskType::Drink);
    assert_eq!(d(1, 5, 1), TaskType::Regenerate);
    assert_eq!(d(5, 1, 1), TaskType::Regenerate);
}

fn alternating_history(n: usize) -> Agent {
    let mut agent = Agent::new();
    for i in 0..n {
        let kind = if i % 2 == 0 { TaskType::Move } else { TaskType::Eat };
        agent.task_history.push(Task::new(kind, TilePosition::new(1, 1), true));
    }
    agent
}

#[test]
fn recent_fraction_of_alternating_history() {
    let agent = alternating_history(150);
    let (matching, considered) = agent.recent_same_kind_fraction(100);
    assert_eq!((matching, considered), (50, 100));
    assert_eq!(matching as f32 / considered as f32, 0.5);
}

#[test]
fn recent_fraction_of_repeated_kind() {
    let mut agent = Agent::new();
    for _ in 0..150 {
        agent.task_history.push(Task::new(TaskType::Drink, TilePosition::new(2, 2), false));
    }
    let (matching, considered) = agent.recent_same_kind_fraction(100);
    assert_eq!(matching as f32 / considered as f32, 1.0);
}

#[test]
fn recent_fraction_of_short_history() {
    let agent = alternating_history(7);
    assert_eq!(agent.recent_same_kind_fraction(100), (4, 7));
    assert_eq!(Agent::new().recent_same_kind_fraction(100), (0, 0));
}

#[test]
fn last_or_default_falls_back_to_a_move() {
    let agent = Agent::new();
    let t = agent.last_or_default();
    assert_eq!(t.task_type, TaskType::Move);
    assert!(!t.completed);
    assert!(t.position.is_in_bounds());
    let agent = alternating_history(3);
    assert_eq!(agent.last_or_default().task_type, TaskType::Move);
}

#[test]
fn latest_matching_task_skips_completed_ones() {
    let mut agent = Agent::new();
    agent.task_history.push(Task::new(TaskType::Eat, TilePosition::new(1, 1), false));
    agent.task_history.push(Task::new(TaskType::Eat, TilePosition::new(2, 2), false));
    agent.task_history.push(Task::new(TaskType::Eat, TilePosition::new(3, 3), true));
    agent.task_history.push(Task::new(TaskType::Drink, TilePosition::new(4, 4), false));
    assert_eq!(agent.latest_matching_index(TaskType::Eat), Some(1));
    assert_eq!(agent.latest_matching_index(TaskType::Move), None);
    assert_eq!(agent.find_latest_matching_task(TaskType::Regenerate), None);
}

#[test]
fn first_step_starts_a_move() {
    let mut agent = Agent::new();
    let tiles = Tiles::default();
    let fresh = Tiles::random_position(&mut rand::thread_rng());
    let decision = agent.decide(fresh);
    assert_eq!(decision, Decision::Start { target: fresh });
    agent.finish(decision, &TransformPosition::new(100, 100), &tiles);
    assert_eq!(agent.task_history.len(), 1);
    assert_eq!(agent.task_history[0].task_type, TaskType::Move);
    assert!(!agent.task_history[0].completed);
    let target = agent.task_history[0].position;
    assert!(target.x >= 0 && target.x < MAP_SIZE && target.y >= 0 && target.y < MAP_SIZE);
    assert_eq!(agent.exploration_exploitation_state, ExploringExploitingState::Exploring);
}

#[test]
fn standing_on_water_quenches() {
    let tile = TilePosition::new(3, 4);
    let tiles = tiles_with(tile, TileType::Water);
    let mut agent = Agent::new();
    agent.data.thirst = 9_000;
    agent.exploit(&tiles, &tile.anchor());
    assert_eq!(points(agent.data.thirst), 91.0);
    assert_eq!(agent.task_history, vec![Task::new(TaskType::Drink, tile, true)]);
    agent.data.thirst = 9_950;
    agent.exploit(&tiles, &tile.anchor());
    assert_eq!(points(agent.data.thirst), 100.0);
    assert_eq!(agent.task_history.len(), 2);
}

#[test]
fn terrain_benefits() {
    let tile = TilePosition::new(10, 20);
    let mut agent = Agent::new();
    agent.data = AgentData { saturation: 5_000, thirst: 5_000, health: 5_000 };
    agent.exploit(&tiles_with(tile, TileType::Grass), &tile.anchor());
    agent.exploit(&tiles_with(tile, TileType::Sand), &tile.anchor());
    agent.exploit(&tiles_with(tile, TileType::DeepWater), &tile.anchor());
    agent.exploit(&tiles_with(tile, TileType::Mountain), &tile.anchor());
    assert_eq!(agent.data, AgentData { saturation: 5_100, thirst: 5_000, health: 5_100 });
    assert_eq!(
        agent.task_history,
        vec![Task::new(TaskType::Eat, tile, true), Task::new(TaskType::Regenerate, tile, true)]
    );
}

#[test]
fn equal_scores_choose_exploitation() {
    let mut agent = Agent::new();
    agent.data = AgentData { saturation: 0, thirst: 5_000, health: 5_000 };
    agent.exploration_exploitation = Tradeoff::new(WEIGHT_ONE, 0);
    assert_eq!(agent.calculate_exploration_exploitation(), (0, 0));
    let food = TilePosition::new(7, 7);
    agent.task_history.push(Task::new(TaskType::Move, TilePosition::new(1, 1), false));
    agent.task_history.push(Task::new(TaskType::Eat, food, false));
    let decision = agent.decide(TilePosition::new(0, 0));
    assert_eq!(decision, Decision::Exploit { kind: TaskType::Eat, index: 1, target: food });
}

#[test]
fn exploitation_without_memory_falls_back_to_exploring() {
    let mut agent = Agent::new();
    agent.data = AgentData { saturation: 0, thirst: 5_000, health: 5_000 };
    agent.exploration_exploitation = Tradeoff::new(WEIGHT_ONE, 0);
    agent.task_history.push(Task::new(TaskType::Move, TilePosition::new(1, 1), false));
    let decision = agent.decide(TilePosition::new(9, 9));
    assert_eq!(
        decision,
        Decision::Explore { target: TilePosition::new(1, 1), resume: Some(0) }
    );
}

#[test]
fn stronger_explore_signal_explores() {
    let mut agent = Agent::new();
    agent.data = AgentData { saturation: 8_000, thirst: 9_000, health: 9_000 };
    agent.exploration_exploitation = Tradeoff::new(WEIGHT_ONE / 2, WEIGHT_ONE / 2);
    let (explore, exploit) = agent.calculate_exploration_exploitation();
    assert_eq!(explore, 8_000 * (WEIGHT_ONE / 2) as i128);
    assert_eq!(exploit, 2_000 * (WEIGHT_ONE / 2) as i128);
    agent.task_history.push(Task::new(TaskType::Eat, TilePosition::new(1, 1), false));
    let fresh = TilePosition::new(9, 9);
    assert_eq!(agent.decide(fresh), Decision::Explore { target: fresh, resume: None });
}

#[test]
fn finishing_an_exploration_on_arrival() {
    let target = TilePosition::new(5, 6);
    let tiles = tiles_with(target, TileType::Sand);
    let mut agent = Agent::new();
    agent.data = AgentData { saturation: 9_000, thirst: 9_000, health: 9_000 };
    agent.task_history.push(Task::new(TaskType::Move, target, false));
    let decision = Decision::Explore { target, resume: Some(0) };
    let mut at = target.anchor();
    at.x += 999;
    agent.finish(decision, &at, &tiles);
    assert_eq!(
        agent.task_history,
        vec![
            Task::new(TaskType::Move, target, true),
            Task::new(TaskType::Move, target, true),
            Task::new(TaskType::Regenerate, target, true),
        ]
    );
    assert_eq!(agent.data.health, 9_100);
    assert_eq!(agent.latest_task, TaskType::Move);
    assert_eq!(agent.exploration_exploitation_state, ExploringExploitingState::Exploring);
}

#[test]
fn finishing_an_exploration_short_of_the_target() {
    let target = TilePosition::new(5, 6);
    let tiles = tiles_with(target, TileType::Mountain);
    let mut agent = Agent::new();
    agent.task_history.push(Task::new(TaskType::Move, target, false));
    let mut at = target.anchor();
    at.x += 1_000;
    agent.finish(Decision::Explore { target, resume: Some(0) }, &at, &tiles);
    assert_eq!(
        agent.task_history,
        vec![Task::new(TaskType::Move, target, false), Task::new(TaskType::Move, target, false)]
    );
}

#[test]
fn finishing_an_exploitation() {
    let target = TilePosition::new(5, 6);
    let tiles = tiles_with(target, TileType::Water);
    let mut agent = Agent::new();
    agent.data = AgentData { saturation: 9_000, thirst: 1_000, health: 9_000 };
    agent.task_history.push(Task::new(TaskType::Drink, target, false));
    let decision = Decision::Exploit { kind: TaskType::Drink, index: 0, target };
    agent.finish(decision, &target.anchor(), &tiles);
    assert_eq!(
        agent.task_history,
        vec![Task::new(TaskType::Drink, target, true), Task::new(TaskType::Drink, target, true)]
    );
    assert_eq!(agent.data.thirst, 1_100);
    assert_eq!(agent.latest_task, TaskType::Drink);
    assert_eq!(agent.exploration_exploitation_state, ExploringExploitingState::Exploiting);
}

#[test]
fn state_and_kind_names() {
    assert_eq!(ExploringExploitingState::Exploring.name(), "Exploring");
    assert_eq!(ExploringExploitingState::Exploiting.name(), "Exploiting");
    assert_eq!(TaskType::Regenerate.name(), "Regenerate");
    assert_eq!(TaskType::Idle.name(), "Idle");
}

#[test]
fn view_distance_defaults_to_half() {
    let mut agent = Agent::new();
    assert_eq!(agent.view_distance(), 16);
    agent.set_view_distance(3);
    assert_eq!(agent.view_distance(), 3);
}

#[test]
fn random_tradeoff_weights_are_below_one() {
    for _ in 0..100 {
        let t = Tradeoff::default();
        assert!(t.lhs_multiplier() < WEIGHT_ONE);
        assert!(t.rhs_multiplier() < WEIGHT_ONE);
    }
}

#[test]
fn status_text_of_a_fresh_agent() {
    let agent = Agent::new();
    assert_eq!(
        agent.status_text(),
        "Saturation: 100.00\nThirst: 100.00\nHealth: 100.00\nState: Exploring\nCurrent Task: Idle"
    );
}

#[test]
fn status_text_after_some_ticks() {
    let mut agent = Agent::new();
    agent.data = AgentData { saturation: 9_995, thirst: -1_205, health: 7 };
    agent.exploration_exploitation_state = ExploringExploitingState::Exploiting;
    agent.latest_task = TaskType::Drink;
    assert_eq!(
        agent.status_text(),
        "Saturation: 99.95\nThirst: -12.05\nHealth: 0.07\nState: Exploiting\nCurrent Task: Drink"
    );
    agent.data = AgentData { saturation: i64::MIN, thirst: 1_000_000, health: -5 };
    assert_eq!(
        agent.status_text(),
        "Saturation: -92233720368547758.08\nThirst: 10000.00\nHealth: -0.05\nState: Exploiting\nCurrent Task: Drink"
    );
}
