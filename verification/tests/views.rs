use cabinet::board::BoardState;
use cabinet::game::{DynamicState, GameState};
use cabinet::types::{
    Config, ExecutiveAction, ExecutiveActionResponse, ExecutiveActionTask, Faction, GameError,
    Law, Player, Role, Task, TaskAction, User,
};
use cabinet::view::StateView;

fn user(name: &str) -> User {
    User { name: name.to_string(), image: String::new(), color: String::new() }
}

fn player(name: &str, role: Role, alive: bool) -> Player {
    Player {
        id: name.to_string(),
        user: user(name),
        role,
        alive,
        connected: true,
        access_key: format!("key-{}", name),
    }
}

fn deck(lib: usize, fas: usize) -> Vec<Law> {
    let mut d = Vec::new();
    for _ in 0..lib {
        d.push(Law::Liberal);
    }
    for _ in 0..fas {
        d.push(Law::Fasho);
    }
    d
}

fn board(players: Vec<Player>) -> BoardState {
    let n = players.len();
    BoardState {
        players,
        draw_pile: deck(6, 11),
        discard_pile: Vec::new(),
        executive_actions: ExecutiveAction::for_player_count(n),
        voting_result: None,
        passed_fasho_laws: 0,
        passed_liberal_laws: 0,
        no_goverment_counter: 0,
        previous_president: None,
        previous_chancellor: None,
        current_president: "p0".to_string(),
        next_president_by_rules: None,
        history: Vec::new(),
        revealed_factions: None,
    }
}

fn roster(n: usize) -> Vec<Player> {
    let mut v = vec![
        player("p0", Role::FashoHitler, true),
        player("p1", Role::Fasho, true),
        player("p2", Role::Liberal, true),
        player("p3", Role::Liberal, true),
        player("p4", Role::Liberal, true),
    ];
    for i in 5..n {
        v.push(player(&format!("p{}", i), Role::Liberal, true));
    }
    v
}

fn game(board: BoardState, state: DynamicState) -> GameState {
    GameState { cfg: Config { id: String::new(), no_votes: false }, board, state }
}

fn find<'a>(views: &'a [cabinet::view::PlayerView], id: &str) -> &'a cabinet::view::PlayerView {
    views.iter().find(|p| p.id == id).unwrap()
}

#[test]
fn liberal_observer_sees_no_hidden_roles() {
    let g = game(board(roster(5)), DynamicState::Uninit);
    let view = g.view(&"p2".to_string()).unwrap();
    // Their own card is always known.
    assert_eq!(view.me.role, Some(Role::Liberal));
    assert_eq!(view.me.faction, Some(Faction::Liberal));
    let ps = &view.board.players;
    assert_eq!(find(ps, "p2").role, Some(Role::Liberal));
    for other in ["p0", "p1", "p3", "p4"] {
        assert_eq!(find(ps, other).role, None);
        assert_eq!(find(ps, other).faction, None);
    }
    // Pile contents are hidden; only sizes show.
    assert_eq!(view.board.draw_pile, 17);
    assert_eq!(view.board.discard_pile, 0);
}

#[test]
fn fascist_observer_sees_every_identity() {
    let g = game(board(roster(7)), DynamicState::Uninit);
    let view = g.view(&"p1".to_string()).unwrap();
    let ps = &view.board.players;
    assert_eq!(find(ps, "p0").role, Some(Role::FashoHitler));
    assert_eq!(find(ps, "p0").faction, Some(Faction::Fasho));
    assert_eq!(find(ps, "p2").role, Some(Role::Liberal));
}

#[test]
fn leader_sees_team_only_below_seven_living() {
    // Five living players: the leader knows the roster.
    let g5 = game(board(roster(5)), DynamicState::Uninit);
    let v5 = g5.view(&"p0".to_string()).unwrap();
    assert_eq!(find(&v5.board.players, "p1").role, Some(Role::Fasho));
    // Seven living players: teammates are hidden from the leader alone.
    let g7 = game(board(roster(7)), DynamicState::Uninit);
    let v7 = g7.view(&"p0".to_string()).unwrap();
    assert_eq!(find(&v7.board.players, "p1").role, None);
    assert_eq!(find(&v7.board.players, "p1").faction, None);
    // Deaths re-open the leader's knowledge: the count is of living players.
    let mut b = board(roster(7));
    b.players[5].alive = false;
    b.players[6].alive = false;
    let g7dead = game(b, DynamicState::Uninit);
    let vd = g7dead.view(&"p0".to_string()).unwrap();
    assert_eq!(find(&vd.board.players, "p1").role, Some(Role::Fasho));
}

#[test]
fn reveal_is_one_shot_and_private() {
    let mut b = board(roster(5));
    b.revealed_factions = Some(("p2".to_string(), "p1".to_string(), Faction::Fasho));
    let g = game(b, DynamicState::Uninit);
    // The named observer sees the target's faction, but not the role.
    let v2 = g.view(&"p2".to_string()).unwrap();
    assert_eq!(find(&v2.board.players, "p1").faction, Some(Faction::Fasho));
    assert_eq!(find(&v2.board.players, "p1").role, None);
    // Another liberal sees nothing.
    let v3 = g.view(&"p3".to_string()).unwrap();
    assert_eq!(find(&v3.board.players, "p1").faction, None);
}

#[test]
fn unknown_observer_gets_no_view() {
    let g = game(board(roster(5)), DynamicState::Uninit);
    assert!(g.view(&"nobody".to_string()).is_none());
}

#[test]
fn phase_view_redacts_ballots_and_laws() {
    let g = game(
        board(roster(5)),
        DynamicState::VoteChancellor {
            chancellor: "p1".to_string(),
            votes: vec![Some(true), None, None, None, None],
        },
    );
    let me = g.board.players[2].clone();
    match g.state.view(&me) {
        StateView::VoteChancellor { canidate } => assert_eq!(canidate, "p1"),
        other => panic!("expected the vote view, got {:?}", other),
    }
    let g2 = game(
        board(roster(5)),
        DynamicState::PresidentChooseLaws {
            laws: vec![Law::Fasho, Law::Fasho, Law::Liberal],
            chancellor: "p1".to_string(),
        },
    );
    match g2.state.view(&me) {
        StateView::PresidentChooseLaws { chancellor } => assert_eq!(chancellor, "p1"),
        other => panic!("expected the cull view, got {:?}", other),
    }
}

#[test]
fn tasks_follow_the_phase_and_actor() {
    let mut g = game(board(roster(5)), DynamicState::Uninit);
    assert!(g.tasks(&"p0".to_string()).is_none());
    let st = g.board.select_president("p0".to_string());
    g.state = st;
    match g.tasks(&"p0".to_string()) {
        Some(Task::ChooseChancellor(options)) => assert_eq!(options.len(), 4),
        other => panic!("expected a nomination task, got {:?}", other),
    }
    assert!(g.tasks(&"p1".to_string()).is_none());
    g.on_action("p0".to_string(), TaskAction::ChooseChancellor("p1".to_string())).unwrap();
    match g.tasks(&"p3".to_string()) {
        Some(Task::Vote(prop)) => {
            assert_eq!(prop.president, "p0");
            assert_eq!(prop.chancellor, "p1");
        }
        other => panic!("expected a vote task, got {:?}", other),
    }
    g.on_action("p3".to_string(), TaskAction::Vote(true)).unwrap();
    // A vote already cast leaves no pending task.
    assert!(g.tasks(&"p3".to_string()).is_none());
    assert!(g.tasks(&"p0".to_string()).is_some());
}

#[test]
fn kill_flips_alive_and_rotates() {
    let b = board(roster(5));
    let mut g = game(
        b,
        DynamicState::ExecutiveAction {
            chancellor: "p1".to_string(),
            action: ExecutiveActionTask::Kill,
        },
    );
    let r = g.on_action(
        "p0".to_string(),
        TaskAction::ExecuteAction(ExecutiveActionResponse::Kill("p2".to_string())),
    );
    assert_eq!(r, Ok(true));
    assert!(!g.board.players[2].alive);
    assert!(g.board.players[0].alive);
    assert_eq!(g.board.current_president, "p1");
    assert!(matches!(g.state, DynamicState::ChooseChancellor { .. }));
    // Killing an already dead player is refused.
    let mut g2 = game(
        g.board,
        DynamicState::ExecutiveAction {
            chancellor: "p1".to_string(),
            action: ExecutiveActionTask::Kill,
        },
    );
    g2.board.current_president = "p1".to_string();
    assert_eq!(
        g2.on_action(
            "p1".to_string(),
            TaskAction::ExecuteAction(ExecutiveActionResponse::Kill("p2".to_string())),
        ),
        Err(GameError::InvalidAction)
    );
}

#[test]
fn reveal_faction_records_the_one_shot() {
    let mut g = game(
        board(roster(5)),
        DynamicState::ExecutiveAction {
            chancellor: "p2".to_string(),
            action: ExecutiveActionTask::RevealFaction,
        },
    );
    g.on_action(
        "p0".to_string(),
        TaskAction::ExecuteAction(ExecutiveActionResponse::RevealFaction("p1".to_string())),
    )
    .unwrap();
    assert_eq!(
        g.board.revealed_factions,
        Some(("p0".to_string(), "p1".to_string(), Faction::Fasho))
    );
    assert_eq!(g.board.current_president, "p1");
}

#[test]
fn determine_president_hands_over_at_once() {
    let mut g = game(
        board(roster(5)),
        DynamicState::ExecutiveAction {
            chancellor: "p2".to_string(),
            action: ExecutiveActionTask::DeterminePresident,
        },
    );
    g.on_action(
        "p0".to_string(),
        TaskAction::ExecuteAction(ExecutiveActionResponse::DeterminePresident("p3".to_string())),
    )
    .unwrap();
    assert_eq!(g.board.current_president, "p3");
    assert_eq!(g.board.next_president_by_rules, None);
    assert!(matches!(g.state, DynamicState::ChooseChancellor { .. }));
}

#[test]
fn mismatched_executive_response_is_refused() {
    let mut g = game(
        board(roster(5)),
        DynamicState::ExecutiveAction {
            chancellor: "p2".to_string(),
            action: ExecutiveActionTask::Kill,
        },
    );
    assert_eq!(
        g.on_action(
            "p0".to_string(),
            TaskAction::ExecuteAction(ExecutiveActionResponse::RevealNextCards),
        ),
        Err(GameError::InvalidAction)
    );
}
