use cabinet::game::GameState;
use cabinet::types::{ExecutiveAction, Faction, GameError, Law, Player, Role, User};

fn user(name: &str) -> User {
    User { name: name.to_string(), image: String::new(), color: String::new() }
}

#[test]
fn full_draw_pile_holds_seventeen_cards() {
    let pile = Law::full_draw_pile();
    assert_eq!(pile.len(), 17);
    assert_eq!(pile.iter().filter(|l| **l == Law::Liberal).count(), 6);
    assert_eq!(pile.iter().filter(|l| **l == Law::Fasho).count(), 11);
}

#[test]
fn roles_match_the_player_count() {
    for n in 5..=10usize {
        let roles = Role::roles_for(n);
        assert_eq!(roles.len(), n);
        assert_eq!(roles.iter().filter(|r| **r == Role::FashoHitler).count(), 1);
        assert_eq!(
            roles.iter().filter(|r| **r == Role::Fasho).count(),
            (n - 5) / 2 + 1
        );
    }
}

#[test]
fn faction_of_each_role() {
    assert_eq!(Role::Liberal.faction(), Faction::Liberal);
    assert_eq!(Role::Fasho.faction(), Faction::Fasho);
    assert_eq!(Role::FashoHitler.faction(), Faction::Fasho);
}

use ExecutiveAction::{DeterminePresident, Kill, RevealFaction, RevealNextCards};

#[test]
fn action_table_by_player_count() {
    assert_eq!(
        ExecutiveAction::for_player_count(5),
        vec![None, None, Some(RevealNextCards), Some(Kill), Some(Kill), None]
    );
    assert_eq!(
        ExecutiveAction::for_player_count(8),
        vec![None, Some(RevealFaction), Some(DeterminePresident), Some(Kill), Some(Kill), None]
    );
    assert_eq!(
        ExecutiveAction::for_player_count(9),
        vec![
            Some(RevealFaction),
            Some(RevealFaction),
            Some(DeterminePresident),
            Some(Kill),
            Some(Kill),
            None
        ]
    );
}

#[test]
fn new_player_is_alive_connected_and_credentialed() {
    let p = Player::new(user("alice"));
    assert_eq!(p.id, "alice");
    assert_eq!(p.role, Role::Liberal);
    assert!(p.alive);
    assert!(p.connected);
    assert_eq!(p.access_key.chars().count(), 32);
}

#[test]
fn registration_rejects_duplicates_and_late_joins() {
    let mut g = GameState::new(Vec::new());
    let p = g.add_new_user(user("alice")).unwrap();
    assert_eq!(p.id, "alice");
    assert!(matches!(
        g.add_new_user(user("alice")),
        Err(GameError::DuplicateRegistration)
    ));
    for name in ["bob", "carol", "dave", "erin"] {
        g.add_new_user(user(name)).unwrap();
    }
    g.on_action("alice".to_string(), cabinet::types::TaskAction::Start).unwrap();
    assert!(matches!(g.add_new_user(user("frank")), Err(GameError::InvalidAction)));
}

#[test]
fn reconnection_needs_a_known_credential_and_a_free_seat() {
    let mut g = GameState::new(Vec::new());
    let p = g.add_new_user(user("alice")).unwrap();
    assert!(matches!(
        g.join_existing_user("not-a-key".to_string()),
        Err(GameError::UnknownCredential)
    ));
    // The session is still live.
    assert!(matches!(
        g.join_existing_user(p.access_key.clone()),
        Err(GameError::AlreadyConnected)
    ));
    for name in ["bob", "carol", "dave", "erin"] {
        g.add_new_user(user(name)).unwrap();
    }
    g.on_action("alice".to_string(), cabinet::types::TaskAction::Start).unwrap();
    // Mid-game, leaving only flips connectivity; the credential then works.
    assert!(g.remove_player(&"alice".to_string()));
    assert_eq!(g.board.players.len(), 5);
    assert!(!g.board.players[0].connected);
    let back = g.join_existing_user(p.access_key.clone()).unwrap();
    assert_eq!(back.id, "alice");
    assert!(back.connected);
    // The reconnect flipped connectivity back on, so the seat is taken again.
    assert!(g.board.players[0].connected);
    assert!(matches!(
        g.join_existing_user(p.access_key.clone()),
        Err(GameError::AlreadyConnected)
    ));
}

#[test]
fn leaving_before_start_empties_the_seat() {
    let mut g = GameState::new(Vec::new());
    g.add_new_user(user("alice")).unwrap();
    g.add_new_user(user("bob")).unwrap();
    assert!(g.remove_player(&"alice".to_string()));
    assert_eq!(g.board.players.len(), 1);
    assert_eq!(g.board.players[0].id, "bob");
    assert!(!g.remove_player(&"alice".to_string()));
}
