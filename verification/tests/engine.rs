use cabinet::board::BoardState;
use cabinet::game::{vote_succeeds, DynamicState, GameState};
use cabinet::types::{
    Config, ExecutiveAction, Faction, GameError, Law, Player, Role, TaskAction, User,
};

fn user(name: &str) -> User {
    User { name: name.to_string(), image: String::new(), color: String::new() }
}

fn player(name: &str, role: Role, alive: bool) -> Player {
    Player {
        id: name.to_string(),
        user: user(name),
        role,
        alive,
        connected: true,
        access_key: format!("key-{}", name),
    }
}

/// Five players; the first is the fascist leader, the second an ordinary
/// fascist, the rest liberals.
fn roster5() -> Vec<Player> {
    vec![
        player("p0", Role::FashoHitler, true),
        player("p1", Role::Fasho, true),
        player("p2", Role::Liberal, true),
        player("p3", Role::Liberal, true),
        player("p4", Role::Liberal, true),
    ]
}

/// A deck of `lib` liberal laws followed by `fas` fascist laws.
fn deck(lib: usize, fas: usize) -> Vec<Law> {
    let mut d = Vec::new();
    for _ in 0..lib {
        d.push(Law::Liberal);
    }
    for _ in 0..fas {
        d.push(Law::Fasho);
    }
    d
}

fn board5(draw: Vec<Law>, discard: Vec<Law>, pf: usize, pl: usize) -> BoardState {
    BoardState {
        players: roster5(),
        draw_pile: draw,
        discard_pile: discard,
        executive_actions: ExecutiveAction::for_player_count(5),
        voting_result: None,
        passed_fasho_laws: pf,
        passed_liberal_laws: pl,
        no_goverment_counter: 0,
        previous_president: None,
        previous_chancellor: None,
        current_president: "p0".to_string(),
        next_president_by_rules: None,
        history: Vec::new(),
        revealed_factions: None,
    }
}

fn game(board: BoardState, state: DynamicState) -> GameState {
    GameState { cfg: Config { id: String::new(), no_votes: false }, board, state }
}

fn deck_total(g: &GameState) -> usize {
    g.board.draw_pile.len() + g.board.discard_pile.len() + g.board.passed_fasho_laws
        + g.board.passed_liberal_laws
}

#[test]
fn start_deals_a_full_game() {
    let users = vec![user("a"), user("b"), user("c"), user("d"), user("e")];
    let mut g = GameState::new(users);
    let r = g.on_action("a".to_string(), TaskAction::Start);
    assert_eq!(r, Ok(true));
    assert_eq!(g.board.draw_pile.len(), 17);
    let libs = g.board.draw_pile.iter().filter(|l| **l == Law::Liberal).count();
    assert_eq!(libs, 6);
    assert_eq!(g.board.discard_pile.len(), 0);
    assert_eq!(g.board.passed_fasho_laws, 0);
    assert_eq!(g.board.passed_liberal_laws, 0);
    let hitlers =
        g.board.players.iter().filter(|p| p.role == Role::FashoHitler).count();
    let fashos = g.board.players.iter().filter(|p| p.role == Role::Fasho).count();
    assert_eq!(hitlers, 1);
    assert_eq!(fashos, 1);
    let names: Vec<String> = g.board.players.iter().map(|p| p.id.clone()).collect();
    assert!(names.contains(&g.board.current_president));
    match &g.state {
        DynamicState::ChooseChancellor { options } => {
            assert_eq!(options.len(), 4);
            assert!(!options.contains(&g.board.current_president));
        }
        other => panic!("expected nomination, got {:?}", other),
    }
}

#[test]
fn start_rejects_bad_player_counts() {
    let mut g = GameState::new(vec![user("a"), user("b")]);
    assert_eq!(g.on_action("a".to_string(), TaskAction::Start), Err(GameError::InvalidAction));
}

#[test]
fn full_round_liberal_law() {
    // A fixed deck with liberals up front makes the round deterministic.
    let mut g = game(board5(deck(6, 11), Vec::new(), 0, 0), DynamicState::Uninit);
    let st = g.board.select_president("p0".to_string());
    g.state = st;
    let r = g.on_action("p0".to_string(), TaskAction::ChooseChancellor("p1".to_string()));
    assert_eq!(r, Ok(true));
    for name in ["p0", "p1", "p2", "p3", "p4"] {
        assert_eq!(g.on_action(name.to_string(), TaskAction::Vote(true)), Ok(true));
    }
    let laws = match &g.state {
        DynamicState::PresidentChooseLaws { laws, chancellor } => {
            assert_eq!(chancellor, "p1");
            laws.clone()
        }
        other => panic!("expected president's cull, got {:?}", other),
    };
    assert_eq!(laws, vec![Law::Liberal, Law::Liberal, Law::Liberal]);
    assert_eq!(g.board.no_goverment_counter, 0);
    let r = g.on_action(
        "p0".to_string(),
        TaskAction::PickedLaws(vec![laws[1], laws[2]], laws[0]),
    );
    assert_eq!(r, Ok(true));
    match &g.state {
        DynamicState::ChancellorChooseLaws { can_ask_veto, laws, chancellor } => {
            assert!(!can_ask_veto);
            assert_eq!(laws.len(), 2);
            assert_eq!(chancellor, "p1");
        }
        other => panic!("expected chancellor's pick, got {:?}", other),
    }
    let r = g.on_action(
        "p1".to_string(),
        TaskAction::PickedLaws(vec![Law::Liberal], Law::Liberal),
    );
    assert_eq!(r, Ok(true));
    assert_eq!(g.board.passed_liberal_laws, 1);
    assert_eq!(g.board.passed_fasho_laws, 0);
    // The deck invariant holds again once no cards are in flight.
    assert_eq!(deck_total(&g), 17);
    // Term limits: the next nomination offers neither p0 nor p1.
    assert_eq!(g.board.current_president, "p1");
    match &g.state {
        DynamicState::ChooseChancellor { options } => {
            assert_eq!(options, &vec!["p2".to_string(), "p3".to_string(), "p4".to_string()]);
        }
        other => panic!("expected nomination, got {:?}", other),
    }
}

#[test]
fn wrong_actor_and_unknown_candidate_are_rejected() {
    let mut g = game(board5(deck(6, 11), Vec::new(), 0, 0), DynamicState::Uninit);
    let st = g.board.select_president("p0".to_string());
    g.state = st;
    // Not the president.
    assert_eq!(
        g.on_action("p1".to_string(), TaskAction::ChooseChancellor("p2".to_string())),
        Err(GameError::InvalidAction)
    );
    // The president cannot nominate themselves.
    assert_eq!(
        g.on_action("p0".to_string(), TaskAction::ChooseChancellor("p0".to_string())),
        Err(GameError::InvalidAction)
    );
    // An action whose shape does not fit the phase.
    assert_eq!(
        g.on_action("p0".to_string(), TaskAction::Vote(true)),
        Err(GameError::InvalidAction)
    );
    // Valid triples still work after the rejections.
    assert_eq!(
        g.on_action("p0".to_string(), TaskAction::ChooseChancellor("p2".to_string())),
        Ok(true)
    );
}

#[test]
fn tie_break_follows_presidents_vote() {
    // Concrete case: four living voters split two against two.
    let ballot = vec![Some(true), Some(false), Some(true), Some(false)];
    // President at slot 0 voted yes: the election passes.
    assert!(vote_succeeds(&ballot, 0));
    // President at slot 1 voted no: it fails.
    assert!(!vote_succeeds(&ballot, 1));
}

#[test]
fn revote_overwrites_instead_of_duplicating() {
    let mut g = game(board5(deck(6, 11), Vec::new(), 0, 0), DynamicState::Uninit);
    let st = g.board.select_president("p0".to_string());
    g.state = st;
    g.on_action("p0".to_string(), TaskAction::ChooseChancellor("p1".to_string())).unwrap();
    assert_eq!(g.on_action("p2".to_string(), TaskAction::Vote(true)), Ok(true));
    // Re-casting the same vote changes nothing observable.
    assert_eq!(g.on_action("p2".to_string(), TaskAction::Vote(true)), Ok(false));
    // Overwriting with the other vote is one change, not a second ballot.
    assert_eq!(g.on_action("p2".to_string(), TaskAction::Vote(false)), Ok(true));
    match &g.state {
        DynamicState::VoteChancellor { votes, .. } => {
            assert_eq!(votes.iter().filter(|v| v.is_some()).count(), 1);
            assert_eq!(votes[2], Some(false));
        }
        other => panic!("expected open ballot, got {:?}", other),
    }
}

#[test]
fn dead_players_cannot_vote() {
    let mut board = board5(deck(6, 11), Vec::new(), 0, 0);
    board.players[4].alive = false;
    let mut g = game(board, DynamicState::Uninit);
    let st = g.board.select_president("p0".to_string());
    g.state = st;
    g.on_action("p0".to_string(), TaskAction::ChooseChancellor("p1".to_string())).unwrap();
    assert_eq!(
        g.on_action("p4".to_string(), TaskAction::Vote(true)),
        Err(GameError::InvalidAction)
    );
    // The tally completes once the four living players have voted.
    for name in ["p0", "p1", "p2"] {
        g.on_action(name.to_string(), TaskAction::Vote(true)).unwrap();
    }
    g.on_action("p3".to_string(), TaskAction::Vote(false)).unwrap();
    assert!(matches!(g.state, DynamicState::PresidentChooseLaws { .. }));
}

#[test]
fn third_failed_election_forces_a_law() {
    let mut board = board5(deck(6, 11), Vec::new(), 0, 0);
    board.no_goverment_counter = 2;
    let mut g = game(
        board,
        DynamicState::VoteChancellor {
            chancellor: "p1".to_string(),
            votes: vec![Some(false), Some(false), Some(false), Some(false), None],
        },
    );
    let r = g.on_action("p4".to_string(), TaskAction::Vote(false));
    assert_eq!(r, Ok(true));
    // Exactly one law was auto-enacted (the deck's first, a liberal one), no
    // chancellor was recorded, and the counter reset even for a liberal law.
    assert_eq!(g.board.no_goverment_counter, 0);
    assert_eq!(g.board.passed_liberal_laws, 1);
    assert_eq!(g.board.passed_fasho_laws, 0);
    assert_eq!(g.board.previous_president, None);
    assert_eq!(g.board.previous_chancellor, None);
    assert_eq!(deck_total(&g), 17);
    assert_eq!(g.board.history.len(), 2);
    match &g.board.history[1] {
        cabinet::types::Event::PlayedLaw { chancellor, law, .. } => {
            assert_eq!(*chancellor, None);
            assert_eq!(*law, Law::Liberal);
        }
        other => panic!("expected a played law, got {:?}", other),
    }
    assert!(matches!(g.state, DynamicState::ChooseChancellor { .. }));
}

#[test]
fn failed_election_before_the_third_only_rotates() {
    let mut g = game(
        board5(deck(6, 11), Vec::new(), 0, 0),
        DynamicState::VoteChancellor {
            chancellor: "p1".to_string(),
            votes: vec![Some(false), Some(false), Some(false), Some(false), None],
        },
    );
    g.on_action("p4".to_string(), TaskAction::Vote(false)).unwrap();
    assert_eq!(g.board.no_goverment_counter, 1);
    assert_eq!(g.board.passed_liberal_laws, 0);
    assert_eq!(g.board.passed_fasho_laws, 0);
    assert_eq!(g.board.current_president, "p1");
    assert!(matches!(g.state, DynamicState::ChooseChancellor { .. }));
}

#[test]
fn veto_window_opens_with_the_fifth_fascist_law() {
    // Five fascist laws passed; three cards are in the president's hand.
    let mut g = game(
        board5(deck(6, 3), Vec::new(), 5, 0),
        DynamicState::PresidentChooseLaws {
            laws: vec![Law::Fasho, Law::Fasho, Law::Liberal],
            chancellor: "p2".to_string(),
        },
    );
    g.on_action(
        "p0".to_string(),
        TaskAction::PickedLaws(vec![Law::Fasho, Law::Liberal], Law::Fasho),
    )
    .unwrap();
    match &g.state {
        DynamicState::ChancellorChooseLaws { can_ask_veto, .. } => assert!(*can_ask_veto),
        other => panic!("expected chancellor's pick, got {:?}", other),
    }
    // Only the chancellor may ask.
    assert_eq!(
        g.on_action("p0".to_string(), TaskAction::Veto(true)),
        Err(GameError::InvalidAction)
    );
    g.on_action("p2".to_string(), TaskAction::Veto(true)).unwrap();
    assert!(matches!(g.state, DynamicState::AskVeto { .. }));
    // Only the president answers; rejection closes the window for this pair.
    assert_eq!(
        g.on_action("p2".to_string(), TaskAction::Veto(false)),
        Err(GameError::InvalidAction)
    );
    g.on_action("p0".to_string(), TaskAction::Veto(false)).unwrap();
    match &g.state {
        DynamicState::ChancellorChooseLaws { can_ask_veto, laws, .. } => {
            assert!(!can_ask_veto);
            assert_eq!(laws, &vec![Law::Fasho, Law::Liberal]);
        }
        other => panic!("expected chancellor's pick, got {:?}", other),
    }
    // A second request on the same pair is no longer honorable.
    assert_eq!(
        g.on_action("p2".to_string(), TaskAction::Veto(true)),
        Err(GameError::InvalidAction)
    );
}

#[test]
fn accepted_veto_discards_both_laws() {
    let mut g = game(
        board5(deck(6, 4), Vec::new(), 5, 0),
        DynamicState::AskVeto {
            chancellor: "p2".to_string(),
            laws: vec![Law::Fasho, Law::Liberal],
        },
    );
    g.on_action("p0".to_string(), TaskAction::Veto(true)).unwrap();
    assert_eq!(g.board.discard_pile, vec![Law::Fasho, Law::Liberal]);
    assert_eq!(g.board.passed_fasho_laws, 5);
    assert_eq!(g.board.passed_liberal_laws, 0);
    assert_eq!(g.board.previous_president, Some("p0".to_string()));
    assert_eq!(g.board.previous_chancellor, Some("p2".to_string()));
    assert_eq!(deck_total(&g), 17);
    assert!(matches!(g.state, DynamicState::ChooseChancellor { .. }));
}

#[test]
fn veto_window_stays_shut_below_five_fascist_laws() {
    let mut g = game(
        board5(deck(6, 8), Vec::new(), 0, 0),
        DynamicState::PresidentChooseLaws {
            laws: vec![Law::Fasho, Law::Fasho, Law::Liberal],
            chancellor: "p2".to_string(),
        },
    );
    g.on_action(
        "p0".to_string(),
        TaskAction::PickedLaws(vec![Law::Fasho, Law::Liberal], Law::Fasho),
    )
    .unwrap();
    match &g.state {
        DynamicState::ChancellorChooseLaws { can_ask_veto, .. } => assert!(!can_ask_veto),
        other => panic!("expected chancellor's pick, got {:?}", other),
    }
    assert_eq!(
        g.on_action("p2".to_string(), TaskAction::Veto(true)),
        Err(GameError::InvalidAction)
    );
}

#[test]
fn picked_laws_must_match_the_offer() {
    let mut g = game(
        board5(deck(6, 8), Vec::new(), 0, 0),
        DynamicState::PresidentChooseLaws {
            laws: vec![Law::Fasho, Law::Fasho, Law::Liberal],
            chancellor: "p2".to_string(),
        },
    );
    // Two liberals were never offered.
    assert_eq!(
        g.on_action(
            "p0".to_string(),
            TaskAction::PickedLaws(vec![Law::Liberal, Law::Liberal], Law::Fasho),
        ),
        Err(GameError::InvalidAction)
    );
    // Keeping all three is the wrong shape.
    assert_eq!(
        g.on_action(
            "p0".to_string(),
            TaskAction::PickedLaws(vec![Law::Fasho, Law::Fasho, Law::Liberal], Law::Fasho),
        ),
        Err(GameError::InvalidAction)
    );
}

#[test]
fn sixth_fascist_law_wins_for_fascists_first() {
    let mut board = board5(deck(4, 2), deck(0, 0), 6, 5);
    board.players[0].alive = false;
    let g = game(board, DynamicState::Uninit);
    // Both liberal conditions (five liberal laws, a dead leader) also hold,
    // yet the sixth fascist law decides first.
    assert_eq!(g.check_win_conditions(), Some(Faction::Fasho));
}

#[test]
fn fifth_liberal_law_wins_for_liberals() {
    let g = game(board5(deck(1, 8), deck(0, 3), 0, 5), DynamicState::Uninit);
    assert_eq!(g.check_win_conditions(), Some(Faction::Liberal));
}

#[test]
fn dead_leader_wins_for_liberals() {
    let mut board = board5(deck(6, 9), Vec::new(), 2, 0);
    board.players[0].alive = false;
    let g = game(board, DynamicState::Uninit);
    assert_eq!(g.check_win_conditions(), Some(Faction::Liberal));
}

#[test]
fn leader_elected_late_wins_for_fascists() {
    let board = board5(deck(6, 6), Vec::new(), 3, 0);
    let g = game(
        board,
        DynamicState::ChancellorChooseLaws {
            can_ask_veto: false,
            laws: vec![Law::Fasho, Law::Liberal],
            chancellor: "p0".to_string(),
        },
    );
    assert_eq!(g.check_win_conditions(), Some(Faction::Fasho));
    // With only two fascist laws passed the same election decides nothing.
    let mut g2 = g;
    g2.board.passed_fasho_laws = 2;
    g2.board.draw_pile.push(Law::Fasho);
    assert_eq!(g2.check_win_conditions(), None);
}

#[test]
fn no_transitions_out_of_a_decided_game() {
    let mut g = game(board5(deck(6, 5), Vec::new(), 6, 0), DynamicState::Uninit);
    let st = g.board.select_president("p0".to_string());
    g.state = st;
    assert_eq!(
        g.on_action("p0".to_string(), TaskAction::ChooseChancellor("p1".to_string())),
        Err(GameError::InvalidAction)
    );
}

#[test]
fn reshuffle_folds_the_discard_pile_back_in() {
    let mut board = board5(vec![Law::Liberal], deck(0, 4), 6, 6);
    let drawn = board.draw_laws(3);
    assert_eq!(drawn.len(), 3);
    assert_eq!(board.discard_pile.len(), 0);
    assert_eq!(board.draw_pile.len(), 2);
    let total_libs = drawn.iter().chain(board.draw_pile.iter()).filter(|l| {
        **l == Law::Liberal
    }).count();
    assert_eq!(total_libs, 1);
}

#[test]
fn draw_comes_off_the_front_when_the_pile_suffices() {
    let mut board = board5(deck(2, 3), deck(0, 1), 0, 0);
    let drawn = board.draw_laws(3);
    assert_eq!(drawn, vec![Law::Liberal, Law::Liberal, Law::Fasho]);
    assert_eq!(board.draw_pile, vec![Law::Fasho, Law::Fasho]);
    assert_eq!(board.discard_pile, vec![Law::Fasho]);
}

#[test]
fn rotation_skips_dead_players_and_wraps() {
    let mut board = board5(deck(6, 11), Vec::new(), 0, 0);
    board.players[1].alive = false;
    board.players[2].alive = false;
    board.current_president = "p0".to_string();
    let next = board.determine_next_president_in_line();
    assert_eq!(next, "p3");
    board.current_president = "p4".to_string();
    let wrapped = board.determine_next_president_in_line();
    assert_eq!(wrapped, "p0");
}

#[test]
fn forced_next_president_is_used_exactly_once() {
    let mut board = board5(deck(6, 11), Vec::new(), 0, 0);
    board.next_president_by_rules = Some("p3".to_string());
    assert_eq!(board.determine_next_president_in_line(), "p3");
    assert_eq!(board.next_president_by_rules, None);
    // The override is gone: the second rotation follows roster order.
    assert_eq!(board.determine_next_president_in_line(), "p1");
}

#[test]
fn fifth_liberal_law_ends_the_game_at_enactment() {
    let mut g = game(
        board5(deck(2, 9), deck(1, 0), 0, 4),
        DynamicState::ChancellorChooseLaws {
            can_ask_veto: false,
            laws: vec![Law::Liberal, Law::Fasho],
            chancellor: "p2".to_string(),
        },
    );
    g.on_action(
        "p2".to_string(),
        TaskAction::PickedLaws(vec![Law::Liberal], Law::Fasho),
    )
    .unwrap();
    assert_eq!(g.board.passed_liberal_laws, 5);
    assert_eq!(g.check_win_conditions(), Some(Faction::Liberal));
    // The game is decided: nothing but a restart is accepted.
    let president = g.board.current_president.clone();
    match &g.state {
        DynamicState::ChooseChancellor { options } => {
            let pick = options[0].clone();
            assert_eq!(
                g.on_action(president, TaskAction::ChooseChancellor(pick)),
                Err(GameError::InvalidAction)
            );
        }
        other => panic!("expected nomination, got {:?}", other),
    }
}

#[test]
fn third_fascist_law_unlocks_the_card_peek() {
    // Five players: the third fascist law reveals the next cards.
    let mut g = game(
        board5(
            vec![Law::Liberal, Law::Fasho, Law::Liberal, Law::Fasho],
            deck(4, 6),
            2,
            1,
        ),
        DynamicState::ChancellorChooseLaws {
            can_ask_veto: false,
            laws: vec![Law::Fasho, Law::Liberal],
            chancellor: "p2".to_string(),
        },
    );
    g.on_action(
        "p2".to_string(),
        TaskAction::PickedLaws(vec![Law::Fasho], Law::Liberal),
    )
    .unwrap();
    assert_eq!(g.board.passed_fasho_laws, 3);
    // The presidency does not rotate; the president must resolve the action.
    assert_eq!(g.board.current_president, "p0");
    match &g.state {
        DynamicState::ExecutiveAction { chancellor, action } => {
            assert_eq!(chancellor, "p2");
            match action {
                cabinet::types::ExecutiveActionTask::RevealNextCards(peek) => {
                    // A snapshot of the next three cards, without removal.
                    assert_eq!(peek, &vec![Law::Liberal, Law::Fasho, Law::Liberal]);
                    assert_eq!(g.board.draw_pile.len(), 4);
                }
                other => panic!("expected the card peek, got {:?}", other),
            }
        }
        other => panic!("expected an executive action, got {:?}", other),
    }
    // Acknowledging it rotates.
    g.on_action(
        "p0".to_string(),
        TaskAction::ExecuteAction(cabinet::types::ExecutiveActionResponse::RevealNextCards),
    )
    .unwrap();
    assert_eq!(g.board.current_president, "p1");
}
