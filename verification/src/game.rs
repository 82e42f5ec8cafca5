//! The turn state machine: the enumerated phase the game is in, the game
//! state that couples it with the board, and the transition function that
//! consumes one player action.

use crate::board::BoardState;
use crate::types::{
    count_eq, id_eq, Config, Event, ExecutiveActionResponse, ExecutiveActionTask, Faction,
    GameError, Law, Player, PlayerId, Role, Task, TaskAction, User, VotingProposal, Win,
};
use vstd::prelude::*;

verus! {

/// The phase the game is currently in, with its per-phase payload. A ballot
/// is a vector parallel to the roster: slot `i` is player `i`'s vote, `None`
/// until cast.
#[derive(Debug)]
pub enum DynamicState {
    Uninit,
    ChooseChancellor { options: Vec<PlayerId> },
    VoteChancellor { chancellor: PlayerId, votes: Vec<Option<bool>> },
    PresidentChooseLaws { laws: Vec<Law>, chancellor: PlayerId },
    ChancellorChooseLaws { can_ask_veto: bool, laws: Vec<Law>, chancellor: PlayerId },
    ExecutiveAction { chancellor: PlayerId, action: ExecutiveActionTask },
    AskVeto { chancellor: PlayerId, laws: Vec<Law> },
}

impl DynamicState {
    /// Whether `id` is the chancellor-elect of the current phase.
    pub open spec fn spec_is_player_elect(&self, id: Seq<char>) -> bool {
        match self {
            DynamicState::PresidentChooseLaws { chancellor, .. } => id == chancellor@,
            DynamicState::ChancellorChooseLaws { chancellor, .. } => id == chancellor@,
            DynamicState::AskVeto { chancellor, .. } => id == chancellor@,
            _ => false,
        }
    }

    /// Whether the player was elected chancellor in the currently running
    /// government: true exactly in the three phases between a won election
    /// and the enactment of its law.
    pub fn is_player_elect(&self, player_id: &PlayerId) -> (r: bool)
        ensures
            r == self.spec_is_player_elect(player_id@),
    {
        match self {
            DynamicState::PresidentChooseLaws { chancellor, .. } => id_eq(player_id, chancellor),
            DynamicState::ChancellorChooseLaws { chancellor, .. } => id_eq(player_id, chancellor),
            DynamicState::AskVeto { chancellor, .. } => id_eq(player_id, chancellor),
            _ => false,
        }
    }
}

/// One running game: configuration, the board economy, and the current phase.
#[derive(Debug)]
pub struct GameState {
    pub cfg: Config,
    pub board: BoardState,
    pub state: DynamicState,
}

impl DynamicState {
    /// How many drawn laws the phase is holding outside the piles.
    pub open spec fn held_laws(&self) -> int {
        match self {
            DynamicState::PresidentChooseLaws { .. } => 3,
            DynamicState::ChancellorChooseLaws { .. } => 2,
            DynamicState::AskVeto { .. } => 2,
            _ => 0,
        }
    }
}

impl GameState {
    /// The phase payload is consistent with the board: every embedded
    /// chancellor or candidate resolves to a living player, ballots run
    /// parallel to the roster and only living players have written into them,
    /// and each law-holding phase holds the right number of laws.
    pub open spec fn state_wf(&self) -> bool {
        match self.state {
            DynamicState::Uninit => true,
            DynamicState::ChooseChancellor { options } => forall|k: int|
                0 <= k < options@.len() ==> self.board.is_alive_id(#[trigger] options@[k]@),
            DynamicState::VoteChancellor { chancellor, votes } => {
                &&& self.board.is_alive_id(chancellor@)
                &&& votes@.len() == self.board.players@.len()
                &&& forall|k: int|
                    0 <= k < votes@.len() && votes@[k] is Some
                        ==> self.board.players@[k].alive
            },
            DynamicState::PresidentChooseLaws { laws, chancellor } => laws@.len() == 3
                && self.board.is_alive_id(chancellor@),
            DynamicState::ChancellorChooseLaws { laws, chancellor, .. } => laws@.len() == 2
                && self.board.is_alive_id(chancellor@),
            DynamicState::ExecutiveAction { chancellor, .. } => self.board.is_alive_id(
                chancellor@,
            ),
            DynamicState::AskVeto { chancellor, laws } => laws@.len() == 2
                && self.board.is_alive_id(chancellor@),
        }
    }

    /// The game invariant: the board is well formed, and once the game has
    /// started the 17-card deck invariant holds (counting laws held by the
    /// phase), the tallies are within their thresholds, the president lives,
    /// and the phase payload is consistent.
    pub open spec fn wf(&self) -> bool {
        &&& self.board.wf()
        &&& self.state is Uninit ==> forall|i: int|
            0 <= i < self.board.players@.len() ==> (#[trigger] self.board.players@[i]).alive
        &&& !(self.state is Uninit) ==> {
            &&& self.board.wf_started()
            &&& self.board.deck_total() + self.state.held_laws() == 17
            &&& self.board.next_president_by_rules is None
            &&& self.state_wf()
        }
    }

    /// A fresh, not yet started game over the given users.
    pub fn new(users: Vec<User>) -> (r: GameState)
        requires
            forall|i: int, j: int|
                0 <= i < j < users@.len() ==> users@[i].name@ != users@[j].name@,
        ensures
            r.wf(),
            r.state is Uninit,
            !r.cfg.no_votes,
            r.board.players@.len() == users@.len(),
            forall|i: int|
                0 <= i < users@.len() ==> (#[trigger] r.board.players@[i]).id == users@[i].name
                    && r.board.players@[i].user == users@[i] && r.board.players@[i].role
                    == Role::Liberal && r.board.players@[i].alive
                    && r.board.players@[i].connected,
            r.board.draw_pile@.len() == 0,
            r.board.discard_pile@.len() == 0,
            r.board.passed_fasho_laws == 0,
            r.board.passed_liberal_laws == 0,
            r.board.no_goverment_counter == 0,
            r.board.previous_president is None,
            r.board.previous_chancellor is None,
            r.board.next_president_by_rules is None,
            r.board.voting_result is None,
            r.board.revealed_factions is None,
            r.board.history@.len() == 0,
            r.board.current_president@ == Seq::<char>::empty(),
            r.board.executive_actions@.len() == 6,
            forall|i: int| 0 <= i < 6 ==> r.board.executive_actions@[i] is None,
    {
        GameState {
            cfg: Config { id: "001".to_owned(), no_votes: false },
            board: BoardState::new(users),
            state: DynamicState::Uninit,
        }
    }

    /// A living fascist leader is on the roster.
    pub open spec fn hitler_alive(&self) -> bool {
        exists|i: int|
            0 <= i < self.board.players@.len() && (#[trigger] self.board.players@[i]).alive
                && self.board.players@[i].role == Role::FashoHitler
    }

    /// A living fascist leader is the chancellor-elect of the current phase.
    pub open spec fn hitler_elected(&self) -> bool {
        exists|i: int|
            0 <= i < self.board.players@.len() && (#[trigger] self.board.players@[i]).alive
                && self.board.players@[i].role == Role::FashoHitler
                && self.state.spec_is_player_elect(self.board.players@[i].id@)
    }

    /// The win condition, if any: six fascist laws win for the fascists
    /// before anything else is considered; five liberal laws or a dead
    /// fascist leader win for the liberals; a living fascist leader elected
    /// chancellor after the third fascist law wins for the fascists.
    pub open spec fn spec_win(&self) -> Option<Win> {
        if self.board.passed_fasho_laws == 6 {
            Some(Faction::Fasho)
        } else if self.board.passed_liberal_laws == 5 {
            Some(Faction::Liberal)
        } else if !self.hitler_alive() {
            Some(Faction::Liberal)
        } else if self.board.passed_fasho_laws >= 3 && self.hitler_elected() {
            Some(Faction::Fasho)
        } else {
            None
        }
    }

    /// Evaluate the win condition; a pure query checked by the caller after
    /// every committed transition.
    pub fn check_win_conditions(&self) -> (r: Option<Win>)
        ensures
            r == self.spec_win(),
    {
        if self.board.passed_fasho_laws == 6 {
            return Some(Faction::Fasho);
        }
        if self.board.passed_liberal_laws == 5 {
            return Some(Faction::Liberal);
        }
        let mut found = false;
        let mut elected = false;
        let mut i: usize = 0;
        while i < self.board.players.len()
            invariant
                i <= self.board.players@.len(),
                found == exists|k: int|
                    0 <= k < i && (#[trigger] self.board.players@[k]).alive
                        && self.board.players@[k].role == Role::FashoHitler,
                elected == exists|k: int|
                    0 <= k < i && (#[trigger] self.board.players@[k]).alive
                        && self.board.players@[k].role == Role::FashoHitler
                        && self.state.spec_is_player_elect(self.board.players@[k].id@),
            decreases self.board.players@.len() - i,
        {
            let p = &self.board.players[i];
            if p.alive && p.role == Role::FashoHitler {
                found = true;
                if self.state.is_player_elect(&p.id) {
                    elected = true;
                }
            }
            i = i + 1;
        }
        if !found {
            return Some(Faction::Liberal);
        }
        if self.board.passed_fasho_laws >= 3 && elected {
            Some(Faction::Fasho)
        } else {
            None
        }
    }

    /// The observer's pending task, if the current phase assigns them one:
    /// the president nominates, picks laws, confirms vetoes and resolves
    /// executive actions; every living player who has not voted yet votes;
    /// the chancellor picks laws. Observers not on the roster have none.
    pub fn tasks(&self, player_id: &PlayerId) -> (r: Option<Task>)
        requires
            self.wf(),
        ensures
            match self.state {
                DynamicState::Uninit => r is None,
                DynamicState::ChooseChancellor { options } => if player_id@
                    == self.board.current_president@ {
                    r matches Some(Task::ChooseChancellor(o)) && o@ == options@
                } else {
                    r is None
                },
                DynamicState::VoteChancellor { chancellor, votes } => if self.board.has_player(
                    player_id@,
                ) && self.board.players@[crate::board::index_of_id(
                    self.board.players@,
                    player_id@,
                )].alive && votes@[crate::board::index_of_id(
                    self.board.players@,
                    player_id@,
                )] is None {
                    r matches Some(Task::Vote(v)) && v.president == self.board.current_president
                        && v.chancellor == chancellor
                } else {
                    r is None
                },
                DynamicState::PresidentChooseLaws { laws, .. } => if player_id@
                    == self.board.current_president@ {
                    r matches Some(Task::PickLaws(l, veto)) && l@ == laws@ && !veto
                } else {
                    r is None
                },
                DynamicState::ChancellorChooseLaws { laws, chancellor, can_ask_veto } => if player_id@
                    == chancellor@ {
                    r matches Some(Task::PickLaws(l, veto)) && l@ == laws@ && veto == can_ask_veto
                } else {
                    r is None
                },
                DynamicState::AskVeto { .. } => if player_id@ == self.board.current_president@ {
                    r matches Some(Task::ConfirmVeto)
                } else {
                    r is None
                },
                DynamicState::ExecutiveAction { action, .. } => if player_id@
                    == self.board.current_president@ {
                    r matches Some(Task::ExecutiveAction(t)) && crate::types::ea_task_eq(t, action)
                } else {
                    r is None
                },
            },
    {
        match &self.state {
            DynamicState::Uninit => None,
            DynamicState::ChooseChancellor { options } => {
                if id_eq(player_id, &self.board.current_president) {
                    Some(Task::ChooseChancellor(crate::types::clone_ids(options)))
                } else {
                    None
                }
            },
            DynamicState::VoteChancellor { chancellor, votes } => {
                match self.board.find_player(player_id) {
                    None => None,
                    Some(i) => {
                        proof {
                            crate::board::lemma_index_of_id_unique(
                                self.board.players@,
                                player_id@,
                                i as int,
                            );
                        }
                        if self.board.players[i].alive && votes[i].is_none() {
                            Some(
                                Task::Vote(
                                    VotingProposal {
                                        president: self.board.current_president.clone(),
                                        chancellor: chancellor.clone(),
                                    },
                                ),
                            )
                        } else {
                            None
                        }
                    },
                }
            },
            DynamicState::PresidentChooseLaws { laws, .. } => {
                if id_eq(player_id, &self.board.current_president) {
                    Some(Task::PickLaws(crate::types::clone_laws(laws), false))
                } else {
                    None
                }
            },
            DynamicState::ChancellorChooseLaws { laws, chancellor, can_ask_veto } => {
                if id_eq(player_id, chancellor) {
                    Some(Task::PickLaws(crate::types::clone_laws(laws), *can_ask_veto))
                } else {
                    None
                }
            },
            DynamicState::AskVeto { .. } => {
                if id_eq(player_id, &self.board.current_president) {
                    Some(Task::ConfirmVeto)
                } else {
                    None
                }
            },
            DynamicState::ExecutiveAction { action, .. } => {
                if id_eq(player_id, &self.board.current_president) {
                    Some(Task::ExecutiveAction(action.clone()))
                } else {
                    None
                }
            },
        }
    }

    /// Register a new user: only before the game has started, and only under
    /// a display name not already on the roster. The created player (with
    /// their fresh credential) is returned and appended to the roster.
    pub fn add_new_user(&mut self, user: User) -> (r: Result<Player, GameError>)
        requires
            old(self).wf(),
        ensures
            final(self).wf(),
            r is Err ==> *final(self) == *old(self),
            r matches Err(e) ==> if !(old(self).state is Uninit) {
                e == GameError::InvalidAction
            } else {
                e == GameError::DuplicateRegistration && old(self).board.has_player(user.name@)
            },
            r is Ok <==> old(self).state is Uninit && !old(self).board.has_player(user.name@),
            r matches Ok(p) ==> {
                &&& p.id == user.name
                &&& p.user == user
                &&& p.role == Role::Liberal
                &&& p.alive
                &&& p.connected
                &&& p.access_key@.len() == 32
                &&& final(self).board.players@ == old(self).board.players@.push(p)
                &&& final(self).state == old(self).state
                &&& final(self).cfg == old(self).cfg
                &&& crate::board::same_except_roster(old(self).board, final(self).board)
            },
    {
        if !(matches!(self.state, DynamicState::Uninit)) {
            return Err(GameError::InvalidAction);
        }
        let player = Player::new(user);
        if let Some(_) = self.board.find_player(&player.id) {
            return Err(GameError::DuplicateRegistration);
        }
        let copy = player.clone();
        self.board.players.push(player);
        Ok(copy)
    }

    /// Reconnect a user by their credential: succeeds exactly when a roster
    /// member holds the credential without a live session; that member's
    /// connectivity flips back on and their record is returned. Rejected as
    /// unknown when no member holds the credential, and as already connected
    /// when every holder's session is still live.
    pub fn join_existing_user(&mut self, auth_token: String) -> (r: Result<Player, GameError>)
        requires
            old(self).wf(),
        ensures
            final(self).wf(),
            r is Err ==> *final(self) == *old(self),
            r is Ok <==> exists|i: int|
                0 <= i < old(self).board.players@.len() && (#[trigger] old(
                self).board.players@[i]).access_key@ == auth_token@ && !old(
                self).board.players@[i].connected,
            (r matches Err(e) && e == GameError::UnknownCredential) <==> (forall|i: int|
                0 <= i < old(self).board.players@.len()
                    ==> (#[trigger] old(self).board.players@[i]).access_key@ != auth_token@),
            (r matches Err(e) && e == GameError::AlreadyConnected) <==> ((exists|i: int|
                0 <= i < old(self).board.players@.len() && (#[trigger] old(
                self).board.players@[i]).access_key@ == auth_token@) && (forall|i: int|
                0 <= i < old(self).board.players@.len() && (#[trigger] old(
                self).board.players@[i]).access_key@ == auth_token@ ==> old(
                self).board.players@[i].connected)),
            r matches Ok(p) ==> {
                &&& final(self).state == old(self).state
                &&& final(self).cfg == old(self).cfg
                &&& crate::board::same_except_roster(old(self).board, final(self).board)
                &&& final(self).board.players@.len() == old(self).board.players@.len()
                &&& exists|i: int|
                    {
                        &&& 0 <= i < old(self).board.players@.len()
                        &&& (#[trigger] old(self).board.players@[i]).access_key@ == auth_token@
                        &&& !old(self).board.players@[i].connected
                        &&& final(self).board.players@[i].connected
                        &&& final(self).board.players@[i].id == old(self).board.players@[i].id
                        &&& final(self).board.players@[i].user == old(self).board.players@[i].user
                        &&& final(self).board.players@[i].role == old(self).board.players@[i].role
                        &&& final(self).board.players@[i].alive == old(
                            self).board.players@[i].alive
                        &&& final(self).board.players@[i].access_key == old(
                            self).board.players@[i].access_key
                        &&& p == final(self).board.players@[i]
                        &&& forall|k: int|
                            0 <= k < old(self).board.players@.len() && k != i ==> final(
                                self).board.players@[k] == old(self).board.players@[k]
                    }
            },
    {
        match self.board.find_reconnectable(&auth_token) {
            Some(i) => {
                {
                    let pl = &mut self.board.players[i];
                    pl.connected = true;
                }
                proof {
                    Self::lemma_wf_preserved_same_ids_alive(*old(self), *self);
                }
                Ok(self.board.players[i].clone())
            },
            None => {
                match self.board.find_by_key(&auth_token) {
                    Some(_) => Err(GameError::AlreadyConnected),
                    None => Err(GameError::UnknownCredential),
                }
            },
        }
    }

    /// A roster change that keeps every player's identity and life status
    /// (such as a connectivity flip) preserves the game invariant.
    proof fn lemma_wf_preserved_same_ids_alive(pre: GameState, post: GameState)
        requires
            pre.wf(),
            post.cfg == pre.cfg,
            post.state == pre.state,
            crate::board::same_except_roster(pre.board, post.board),
            post.board.players@.len() == pre.board.players@.len(),
            forall|k: int|
                0 <= k < pre.board.players@.len() ==> (#[trigger] post.board.players@[k]).id
                    == pre.board.players@[k].id && post.board.players@[k].alive
                    == pre.board.players@[k].alive,
        ensures
            post.wf(),
    {
        assert forall|id: Seq<char>| pre.board.is_alive_id(id) implies post.board.is_alive_id(
            id,
        ) by {
            let w = choose|n: int|
                0 <= n < pre.board.players@.len() && #[trigger] pre.board.players@[n].id@ == id
                    && pre.board.players@[n].alive;
            assert(post.board.players@[w].id@ == id && post.board.players@[w].alive);
        }
        assert forall|id: Seq<char>| pre.board.has_player(id) implies post.board.has_player(
            id,
        ) by {
            let w = choose|n: int|
                0 <= n < pre.board.players@.len() && #[trigger] pre.board.players@[n].id@ == id;
            assert(post.board.players@[w].id@ == id);
        }
        assert(post.board.ids_distinct()) by {
            assert forall|a: int, b: int|
                0 <= a < b < post.board.players@.len() implies post.board.players@[a].id@
                != post.board.players@[b].id@ by {
                assert(pre.board.players@[a].id@ != pre.board.players@[b].id@);
            }
        }
        if post.state is Uninit {
            assert forall|k: int|
                0 <= k < post.board.players@.len() implies (
            #[trigger] post.board.players@[k]).alive by {
                assert(pre.board.players@[k].alive);
            }
        }
        if !(post.state is Uninit) {
            assert(post.state_wf()) by {
                match post.state {
                    DynamicState::VoteChancellor { chancellor, votes } => {
                        assert forall|k: int|
                            0 <= k < votes@.len() && votes@[k] is Some implies post.board.players@[
                        k].alive by {
                            assert(pre.board.players@[k].alive);
                        }
                    },
                    _ => {},
                }
            }
        }
    }

    /// Drop a player: before the game starts they leave the roster entirely;
    /// afterwards only their connectivity flips, so turn order never desyncs.
    /// Returns whether anything changed (and observers must be notified).
    pub fn remove_player(&mut self, user: &PlayerId) -> (r: bool)
        requires
            old(self).wf(),
        ensures
            final(self).wf(),
            r == old(self).board.has_player(user@),
            !r ==> *final(self) == *old(self),
            r ==> final(self).state == old(self).state && final(self).cfg == old(self).cfg
                && crate::board::same_except_roster(old(self).board, final(self).board),
            r && old(self).state is Uninit ==> final(self).board.players@ == old(self).board.players@.remove(
                crate::board::index_of_id(old(self).board.players@, user@),
            ),
            r && !(old(self).state is Uninit) ==> {
                let w = crate::board::index_of_id(old(self).board.players@, user@);
                &&& final(self).board.players@.len() == old(self).board.players@.len()
                &&& !final(self).board.players@[w].connected
                &&& final(self).board.players@[w].id == old(self).board.players@[w].id
                &&& final(self).board.players@[w].user == old(self).board.players@[w].user
                &&& final(self).board.players@[w].role == old(self).board.players@[w].role
                &&& final(self).board.players@[w].alive == old(self).board.players@[w].alive
                &&& final(self).board.players@[w].access_key == old(self).board.players@[w].access_key
                &&& forall|k: int|
                    0 <= k < old(self).board.players@.len() && k != w ==> final(self).board.players@[k] == old(self).board.players@[k]
            },
    {
        match self.board.find_player(user) {
            None => false,
            Some(i) => {
                proof {
                    crate::board::lemma_index_of_id_unique(
                        self.board.players@,
                        user@,
                        i as int,
                    );
                }
                if matches!(self.state, DynamicState::Uninit) {
                    self.board.players.remove(i);
                    proof {
                        let pre = old(self).board.players@;
                        let post = self.board.players@;
                        assert forall|a: int, b: int|
                            0 <= a < b < post.len() implies post[a].id@ != post[b].id@ by {
                            let a0: int = if a < i as int { a } else { a + 1 };
                            let b0: int = if b < i as int { b } else { b + 1 };
                            assert(post[a] == pre[a0]);
                            assert(post[b] == pre[b0]);
                            assert(pre[a0].id@ != pre[b0].id@);
                        }
                        assert forall|a: int| 0 <= a < post.len() implies (
                        #[trigger] post[a]).alive by {
                            let a0: int = if a < i as int { a } else { a + 1 };
                            assert(post[a] == pre[a0]);
                            assert(pre[a0].alive);
                        }
                    }
                } else {
                    let p = &mut self.board.players[i];
                    p.connected = false;
                    proof {
                        Self::lemma_wf_preserved_same_ids_alive(*old(self), *self);
                    }
                }
                true
            },
        }
    }
}

/// The roles the roster currently holds, in roster order.
pub open spec fn roles_of(players: Seq<Player>) -> Seq<Role> {
    players.map_values(|p: Player| p.role)
}

/// What starting (or restarting) a game does: identities and life status are
/// kept; roles are dealt afresh with exactly one fascist leader and the
/// player-count's share of fascists; the slot table is chosen by player
/// count; the full 17-card deck is rebuilt; every tally, memory and log is
/// reset; a random living player becomes president, and nomination opens
/// under no term limits.
pub open spec fn start_rel(pre: GameState, post: GameState) -> bool {
    let n = pre.board.players@.len() as int;
    &&& post.cfg == pre.cfg
    &&& post.board.players@.len() == n
    &&& forall|k: int|
        0 <= k < n ==> {
            &&& (#[trigger] post.board.players@[k]).id == pre.board.players@[k].id
            &&& post.board.players@[k].user == pre.board.players@[k].user
            &&& post.board.players@[k].alive == pre.board.players@[k].alive
            &&& post.board.players@[k].connected == pre.board.players@[k].connected
            &&& post.board.players@[k].access_key == pre.board.players@[k].access_key
        }
    &&& count_eq(roles_of(post.board.players@), Role::FashoHitler) == 1
    &&& count_eq(roles_of(post.board.players@), Role::Fasho) == (n - 5) / 2 + 1
    &&& count_eq(roles_of(post.board.players@), Role::Liberal) == n - 2 - (n - 5) / 2
    &&& post.board.executive_actions@ == crate::types::ExecutiveAction::spec_table(n)
    &&& post.board.draw_pile@.len() == 17
    &&& count_eq(post.board.draw_pile@, Law::Liberal) == 6
    &&& count_eq(post.board.draw_pile@, Law::Fasho) == 11
    &&& post.board.discard_pile@.len() == 0
    &&& post.board.passed_fasho_laws == 0
    &&& post.board.passed_liberal_laws == 0
    &&& post.board.no_goverment_counter == 0
    &&& post.board.previous_president is None
    &&& post.board.previous_chancellor is None
    &&& post.board.next_president_by_rules is None
    &&& post.board.voting_result is None
    &&& post.board.revealed_factions is None
    &&& post.board.history@.len() == 0
    &&& exists|i: int|
        0 <= i < n && (#[trigger] post.board.players@[i]).alive && post.board.current_president
            == post.board.players@[i].id
    &&& post.state matches DynamicState::ChooseChancellor { options } && options@
        == crate::board::chancellor_options(
        post.board.players@,
        post.board.current_president@,
        None,
        None,
    )
}

impl GameState {
    /// Start (or restart) the game: deal roles, set the slot table, rebuild
    /// and shuffle the deck, clear every tally and memory, pick a random
    /// living player as president and open the first nomination.
    pub fn start(&mut self)
        requires
            old(self).wf(),
            5 <= old(self).board.players@.len() <= 10,
        ensures
            final(self).wf(),
            start_rel(*old(self), *final(self)),
    {
        let n = self.board.players.len();
        let roles = Role::roles_for(n);
        let mut i: usize = 0;
        while i < n
            invariant
                n == self.board.players@.len(),
                roles@.len() == n,
                i <= n,
                self.cfg == old(self).cfg,
                self.state == old(self).state,
                crate::board::same_except_roster(old(self).board, self.board),
                forall|k: int|
                    0 <= k < n ==> {
                        &&& (#[trigger] self.board.players@[k]).id == old(
                            self,
                        ).board.players@[k].id
                        &&& self.board.players@[k].user == old(self).board.players@[k].user
                        &&& self.board.players@[k].alive == old(self).board.players@[k].alive
                        &&& self.board.players@[k].connected == old(
                            self,
                        ).board.players@[k].connected
                        &&& self.board.players@[k].access_key == old(
                            self,
                        ).board.players@[k].access_key
                    },
                forall|k: int| 0 <= k < i ==> self.board.players@[k].role == roles@[k],
            decreases n - i,
        {
            let p = &mut self.board.players[i];
            p.role = roles[i];
            i = i + 1;
        }
        proof {
            assert(roles_of(self.board.players@) =~= roles@);
        }
        self.board.executive_actions = crate::types::ExecutiveAction::for_player_count(n);
        self.board.draw_pile = Faction::full_draw_pile();
        self.board.discard_pile = Vec::new();
        self.board.passed_fasho_laws = 0;
        self.board.passed_liberal_laws = 0;
        self.board.no_goverment_counter = 0;
        self.board.previous_president = None;
        self.board.previous_chancellor = None;
        self.board.history = Vec::new();
        self.board.voting_result = None;
        self.board.revealed_factions = None;
        self.board.next_president_by_rules = None;
        let alive = self.board.players_alive();
        proof {
            if old(self).state is Uninit {
                assert(self.board.players@[0].alive);
                crate::board::lemma_count_alive_pos(self.board.players@, 0);
            } else {
                let w = choose|w: int|
                    0 <= w < old(self).board.players@.len() && #[trigger] old(
                        self,
                    ).board.players@[w].id@ == old(self).board.current_president@ && old(
                    self).board.players@[w].alive;
                assert(self.board.players@[w].alive);
                crate::board::lemma_count_alive_pos(self.board.players@, w);
            }
            crate::board::lemma_alive_seq_len(self.board.players@);
        }
        let idx = crate::rng::random_below(alive.len());
        proof {
            crate::board::lemma_alive_seq_members(self.board.players@, idx as int);
        }
        let president = {
            let p = &alive[idx];
            p.id.clone()
        };
        let ghost pre_select = self.board;
        let st = self.board.select_president(president);
        self.state = st;
        proof {
            assert forall|a: int, b: int|
                0 <= a < b < self.board.players@.len() implies self.board.players@[a].id@
                != self.board.players@[b].id@ by {
                assert(old(self).board.players@[a].id@ != old(self).board.players@[b].id@);
            }
            let w = choose|i: int|
                0 <= i < pre_select.players@.len() && #[trigger] pre_select.players@[i]
                    == crate::board::alive_seq(pre_select.players@)[idx as int];
            assert(self.board.players@[w].id@ == self.board.current_president@
                && self.board.players@[w].alive);
            assert(self.state_wf()) by {
                match self.state {
                    DynamicState::ChooseChancellor { options } => {
                        assert forall|k: int|
                            0 <= k < options@.len() implies self.board.is_alive_id(
                            #[trigger] options@[k]@,
                        ) by {
                            crate::board::lemma_chancellor_option_sound(
                                pre_select.players@,
                                president@,
                                None,
                                None,
                                k,
                            );
                            let j = choose|j: int|
                                0 <= j < pre_select.players@.len()
                                    && #[trigger] pre_select.players@[j].id
                                    == crate::board::chancellor_options(
                                    pre_select.players@,
                                    president@,
                                    None,
                                    None,
                                )[k] && crate::board::eligible_chancellor(
                                    pre_select.players@[j],
                                    president@,
                                    None,
                                    None,
                                );
                            assert(self.board.players@[j].id@ == options@[k]@
                                && self.board.players@[j].alive);
                        }
                    },
                    _ => {},
                }
            }
        }
    }
}


/// Every living player has cast a vote.
pub open spec fn all_voted(players: Seq<Player>, votes: Seq<Option<bool>>) -> bool {
    forall|i: int| 0 <= i < players.len() && (#[trigger] players[i]).alive ==> votes[i] is Some
}

/// The election passes: strictly more yes than no, or a tie broken by the
/// sitting president's own yes.
pub open spec fn spec_vote_success(votes: Seq<Option<bool>>, president_index: int) -> bool {
    let pros = count_eq(votes, Some(true));
    let cons = count_eq(votes, Some(false));
    pros > cons || (pros == cons && votes[president_index] == Some(true))
}

/// `e` records the given election: same government, the same ballot slot by
/// slot, and the same outcome.
pub open spec fn is_vote_event(
    e: Event,
    president: PlayerId,
    chancellor: PlayerId,
    ballot: Seq<Option<bool>>,
    success: bool,
) -> bool {
    e matches Event::Vote { president: p, chancellor: c, votes: v, success: s } && p == president
        && c == chancellor && v@ == ballot && s == success
}

/// `keep` plus the single `discard` are exactly the offered `laws`: as laws
/// are two-valued, equal counts of each faction mean equal multisets.
pub open spec fn picked_from(keep: Seq<Law>, discard: Law, laws: Seq<Law>) -> bool {
    &&& keep.len() + 1 == laws.len()
    &&& count_eq(keep, Law::Liberal) + (if discard == Law::Liberal {
        1int
    } else {
        0int
    }) == count_eq(laws, Law::Liberal)
    &&& count_eq(keep, Law::Fasho) + (if discard == Law::Fasho {
        1int
    } else {
        0int
    }) == count_eq(laws, Law::Fasho)
}

/// Someone other than `target` is alive, so a kill leaves the rotation a
/// living player to land on.
pub open spec fn another_alive(players: Seq<Player>, target: Seq<char>) -> bool {
    exists|i: int|
        0 <= i < players.len() && (#[trigger] players[i]).alive && players[i].id@ != target
}

/// The presidency rotated (consuming any override) and a nomination opened
/// under the given term limits.
pub open spec fn rotated_and_nominating(
    players: Seq<Player>,
    cur: Seq<char>,
    npr: Option<PlayerId>,
    prev_p: Option<PlayerId>,
    prev_c: Option<PlayerId>,
    post_cur: PlayerId,
    post_npr: Option<PlayerId>,
    st: DynamicState,
) -> bool {
    &&& match npr {
        Some(p) => post_cur == p,
        None => exists|i: int|
            #[trigger] crate::board::is_first_alive_after(
                players,
                crate::board::index_of_id(players, cur),
                i,
            ) && post_cur == players[i].id,
    }
    &&& post_npr is None
    &&& st matches DynamicState::ChooseChancellor { options } && options@
        == crate::board::chancellor_options(players, post_cur@, prev_p, prev_c)
}

/// Count the votes cast for `val`.
pub fn count_votes(votes: &Vec<Option<bool>>, val: bool) -> (r: usize)
    ensures
        r == count_eq(votes@, Some(val)),
{
    let mut r: usize = 0;
    let mut i: usize = 0;
    while i < votes.len()
        invariant
            i <= votes@.len(),
            r == count_eq(votes@.take(i as int), Some(val)),
            r <= i,
        decreases votes@.len() - i,
    {
        proof {
            crate::types::lemma_count_eq_push(votes@.take(i as int), Some(val), votes@[i as int]);
            assert(votes@.take(i + 1) =~= votes@.take(i as int).push(votes@[i as int]));
        }
        let slot = votes[i];
        if slot == Some(val) {
            r = r + 1;
        }
        i = i + 1;
    }
    proof {
        assert(votes@.take(votes@.len() as int) =~= votes@);
    }
    r
}

/// Whether the completed ballot elects the government, with the president's
/// vote breaking a tie.
pub fn vote_succeeds(votes: &Vec<Option<bool>>, president_index: usize) -> (r: bool)
    requires
        president_index < votes@.len(),
        votes@[president_index as int] is Some,
    ensures
        r == spec_vote_success(votes@, president_index as int),
{
    let pros = count_votes(votes, true);
    let cons = count_votes(votes, false);
    pros > cons || (pros == cons && votes[president_index] == Some(true))
}

/// Whether every living player has cast a vote.
pub fn all_living_voted(players: &Vec<Player>, votes: &Vec<Option<bool>>) -> (r: bool)
    requires
        votes@.len() == players@.len(),
    ensures
        r == all_voted(players@, votes@),
{
    let mut i: usize = 0;
    while i < players.len()
        invariant
            i <= players@.len(),
            votes@.len() == players@.len(),
            forall|k: int|
                0 <= k < i && (#[trigger] players@[k]).alive ==> votes@[k] is Some,
        decreases players@.len() - i,
    {
        if players[i].alive && votes[i].is_none() {
            return false;
        }
        i = i + 1;
    }
    true
}

/// Whether the kept laws and the discarded one are exactly the offered laws.
pub fn picked_ok(keep: &Vec<Law>, discard: Law, laws: &Vec<Law>) -> (r: bool)
    ensures
        r == picked_from(keep@, discard, laws@),
{
    if laws.len() == 0 || keep.len() != laws.len() - 1 {
        return false;
    }
    let keep_lib = crate::types::count_laws(keep, Law::Liberal);
    let keep_fas = crate::types::count_laws(keep, Law::Fasho);
    let laws_lib = crate::types::count_laws(laws, Law::Liberal);
    let laws_fas = crate::types::count_laws(laws, Law::Fasho);
    let lib_extra: usize = if matches!(discard, Law::Liberal) {
        1
    } else {
        0
    };
    let fas_extra: usize = if matches!(discard, Law::Fasho) {
        1
    } else {
        0
    };
    proof {
        crate::types::lemma_count_eq_le_len(keep@, Law::Liberal);
        crate::types::lemma_count_eq_le_len(keep@, Law::Fasho);
    }
    keep_lib + lib_extra == laws_lib && keep_fas + fas_extra == laws_fas
}

/// A nomination is valid when the sitting president submits it and the
/// candidate is among the offered options.
pub open spec fn nominate_valid(pre: GameState, player: Seq<char>, chosen: Seq<char>) -> bool {
    &&& player == pre.board.current_president@
    &&& match pre.state {
        DynamicState::ChooseChancellor { options } => exists|k: int|
            0 <= k < options@.len() && (#[trigger] options@[k])@ == chosen,
        _ => false,
    }
}

/// What a nomination does: it is logged, the cached ballot of the previous
/// round is cleared, and either (with voting skipped by configuration) three
/// laws are drawn straight for the president, or an empty ballot over the
/// roster opens.
pub open spec fn nominate_rel(
    pre: GameState,
    post: GameState,
    chosen: PlayerId,
    changed: bool,
) -> bool {
    &&& changed
    &&& post.cfg == pre.cfg
    &&& post.board.voting_result is None
    &&& post.board.history@ == pre.board.history@.push(
        Event::ChooseChancellor { president: pre.board.current_president, chancellor: chosen },
    )
    &&& post.board.players == pre.board.players
    &&& post.board.executive_actions == pre.board.executive_actions
    &&& post.board.passed_fasho_laws == pre.board.passed_fasho_laws
    &&& post.board.passed_liberal_laws == pre.board.passed_liberal_laws
    &&& post.board.previous_president == pre.board.previous_president
    &&& post.board.previous_chancellor == pre.board.previous_chancellor
    &&& post.board.current_president == pre.board.current_president
    &&& post.board.next_president_by_rules == pre.board.next_president_by_rules
    &&& post.board.revealed_factions == pre.board.revealed_factions
    &&& if pre.cfg.no_votes {
        &&& post.board.no_goverment_counter == 0
        &&& post.state matches DynamicState::PresidentChooseLaws { laws, chancellor }
            && chancellor == chosen && laws@.len() == 3 && crate::board::drawn_from(
            pre.board.draw_pile@,
            pre.board.discard_pile@,
            post.board.draw_pile@,
            post.board.discard_pile@,
            laws@,
        )
    } else {
        &&& post.board.no_goverment_counter == pre.board.no_goverment_counter
        &&& post.board.draw_pile == pre.board.draw_pile
        &&& post.board.discard_pile == pre.board.discard_pile
        &&& post.state matches DynamicState::VoteChancellor { chancellor, votes } && chancellor
            == chosen && votes@.len() == pre.board.players@.len() && (forall|k: int|
            0 <= k < votes@.len() ==> votes@[k] is None)
    }
}

/// A president's cull is valid when the president submits two kept laws and
/// one discard that together are exactly the three laws offered.
pub open spec fn president_pick_valid(
    pre: GameState,
    player: Seq<char>,
    keep: Seq<Law>,
    discard: Law,
) -> bool {
    match pre.state {
        DynamicState::PresidentChooseLaws { laws, .. } => player == pre.board.current_president@
            && keep.len() == 2 && picked_from(keep, discard, laws@),
        _ => false,
    }
}

/// What the president's cull does: the discard goes on the discard pile, the
/// kept two pass to the chancellor, and the veto option opens exactly when
/// five fascist laws have already passed.
pub open spec fn president_pick_rel(
    pre: GameState,
    post: GameState,
    keep: Seq<Law>,
    discard: Law,
    changed: bool,
) -> bool {
    match pre.state {
        DynamicState::PresidentChooseLaws { laws, chancellor } => {
            &&& changed
            &&& post.cfg == pre.cfg
            &&& post.board.voting_result is None
            &&& post.state matches DynamicState::ChancellorChooseLaws {
                can_ask_veto,
                laws: l2,
                chancellor: c2,
            } && c2 == chancellor && l2@ == keep && can_ask_veto == (pre.board.passed_fasho_laws
                == 5)
            &&& post.board.players == pre.board.players
            &&& post.board.draw_pile == pre.board.draw_pile
            &&& post.board.discard_pile@ == pre.board.discard_pile@.push(discard)
            &&& post.board.executive_actions == pre.board.executive_actions
            &&& post.board.passed_fasho_laws == pre.board.passed_fasho_laws
            &&& post.board.passed_liberal_laws == pre.board.passed_liberal_laws
            &&& post.board.no_goverment_counter == pre.board.no_goverment_counter
            &&& post.board.previous_president == pre.board.previous_president
            &&& post.board.previous_chancellor == pre.board.previous_chancellor
            &&& post.board.current_president == pre.board.current_president
            &&& post.board.next_president_by_rules == pre.board.next_president_by_rules
            &&& post.board.history == pre.board.history
            &&& post.board.revealed_factions == pre.board.revealed_factions
        },
        _ => false,
    }
}

/// A veto request is valid when the chancellor asks while the veto is open.
pub open spec fn request_veto_valid(pre: GameState, player: Seq<char>, ask: bool) -> bool {
    match pre.state {
        DynamicState::ChancellorChooseLaws { can_ask_veto, chancellor, .. } => ask && can_ask_veto
            && player == chancellor@,
        _ => false,
    }
}

/// What a veto request does: nothing on the board; the same two laws move to
/// the president's confirmation.
pub open spec fn request_veto_rel(pre: GameState, post: GameState, changed: bool) -> bool {
    match pre.state {
        DynamicState::ChancellorChooseLaws { laws, chancellor, .. } => {
            &&& changed
            &&& post.cfg == pre.cfg
            &&& post.board == pre.board
            &&& post.state matches DynamicState::AskVeto { chancellor: c2, laws: l2 } && c2
                == chancellor && l2 == laws
        },
        _ => false,
    }
}

/// A veto answer is valid when the sitting president gives it.
pub open spec fn answer_veto_valid(pre: GameState, player: Seq<char>) -> bool {
    match pre.state {
        DynamicState::AskVeto { .. } => player == pre.board.current_president@,
        _ => false,
    }
}

/// What the president's veto answer does. Accepting discards both laws
/// without enacting either, records the veto and the outgoing government's
/// term limits, and rotates. Rejecting returns the same two laws to the
/// chancellor with the veto option closed for this pair.
pub open spec fn answer_veto_rel(
    pre: GameState,
    post: GameState,
    accept: bool,
    changed: bool,
) -> bool {
    match pre.state {
        DynamicState::AskVeto { chancellor, laws } => {
            &&& changed
            &&& post.cfg == pre.cfg
            &&& if accept {
                &&& post.board.history@ == pre.board.history@.push(
                    Event::Veto { president: pre.board.current_president, chancellor: chancellor },
                )
                &&& post.board.discard_pile@ == pre.board.discard_pile@ + laws@
                &&& post.board.previous_president matches Some(p) && p
                    == pre.board.current_president
                &&& post.board.previous_chancellor matches Some(c) && c == chancellor
                &&& rotated_and_nominating(
                    pre.board.players@,
                    pre.board.current_president@,
                    pre.board.next_president_by_rules,
                    Some(pre.board.current_president),
                    Some(chancellor),
                    post.board.current_president,
                    post.board.next_president_by_rules,
                    post.state,
                )
                &&& post.board.players == pre.board.players
                &&& post.board.draw_pile == pre.board.draw_pile
                &&& post.board.executive_actions == pre.board.executive_actions
                &&& post.board.voting_result == pre.board.voting_result
                &&& post.board.passed_fasho_laws == pre.board.passed_fasho_laws
                &&& post.board.passed_liberal_laws == pre.board.passed_liberal_laws
                &&& post.board.no_goverment_counter == pre.board.no_goverment_counter
                &&& post.board.revealed_factions == pre.board.revealed_factions
            } else {
                &&& post.board == pre.board
                &&& post.state matches DynamicState::ChancellorChooseLaws {
                    can_ask_veto,
                    laws: l2,
                    chancellor: c2,
                } && !can_ask_veto && l2 == laws && c2 == chancellor
            }
        },
        _ => false,
    }
}

impl GameState {
    /// A freshly opened nomination satisfies the phase invariant: every
    /// option names a living player.
    proof fn lemma_nomination_state_wf(
        board: BoardState,
        president: Seq<char>,
        pp: Option<PlayerId>,
        pc: Option<PlayerId>,
        st: DynamicState,
    )
        requires
            match st {
                DynamicState::ChooseChancellor { options } => options@
                    == crate::board::chancellor_options(board.players@, president, pp, pc),
                _ => true,
            },
        ensures
            match st {
                DynamicState::ChooseChancellor { options } => forall|k: int|
                    0 <= k < options@.len() ==> board.is_alive_id(#[trigger] options@[k]@),
                _ => true,
            },
    {
        match st {
            DynamicState::ChooseChancellor { options } => {
                assert forall|k: int| 0 <= k < options@.len() implies board.is_alive_id(
                    #[trigger] options@[k]@,
                ) by {
                    crate::board::lemma_chancellor_option_sound(
                        board.players@,
                        president,
                        pp,
                        pc,
                        k,
                    );
                    let co = crate::board::chancellor_options(board.players@, president, pp, pc);
                    let i = choose|i: int|
                        0 <= i < board.players@.len() && #[trigger] board.players@[i].id == co[k]
                            && crate::board::eligible_chancellor(
                            board.players@[i],
                            president,
                            pp,
                            pc,
                        );
                    assert(board.players@[i].id@ == options@[k]@ && board.players@[i].alive);
                }
            },
            _ => {},
        }
    }

    /// Nominate a chancellor candidate: president only, candidate must be
    /// among the offered options. Opens the ballot (or, with voting switched
    /// off, deals the president's three laws at once).
    pub fn nominate(&mut self, player: PlayerId, chosen: PlayerId) -> (r: Result<
        bool,
        GameError,
    >)
        requires
            old(self).wf(),
            old(self).state matches DynamicState::ChooseChancellor { .. },
            old(self).spec_win() is None,
        ensures
            final(self).wf(),
            r is Err ==> *final(self) == *old(self) && (r matches Err(e) && e
                == GameError::InvalidAction),
            r is Ok <==> nominate_valid(*old(self), player@, chosen@),
            r matches Ok(ch) ==> nominate_rel(*old(self), *final(self), chosen, ch),
    {
        let mut st = DynamicState::Uninit;
        core::mem::swap(&mut st, &mut self.state);
        match st {
            DynamicState::ChooseChancellor { options } => {
                if !id_eq(&player, &self.board.current_president) {
                    self.state = DynamicState::ChooseChancellor { options };
                    return Err(GameError::InvalidAction);
                }
                let mut found = false;
                let mut i: usize = 0;
                while i < options.len()
                    invariant
                        i <= options@.len(),
                        found == exists|k: int|
                            0 <= k < i && (#[trigger] options@[k])@ == chosen@,
                    decreases options@.len() - i,
                {
                    if id_eq(&options[i], &chosen) {
                        found = true;
                    }
                    i = i + 1;
                }
                if !found {
                    self.state = DynamicState::ChooseChancellor { options };
                    return Err(GameError::InvalidAction);
                }
                self.board.history.push(
                    Event::ChooseChancellor {
                        president: self.board.current_president.clone(),
                        chancellor: chosen.clone(),
                    },
                );
                self.board.voting_result = None;
                proof {
                    let k = choose|k: int|
                        0 <= k < options@.len() && (#[trigger] options@[k])@ == chosen@;
                    assert(old(self).board.is_alive_id(options@[k]@));
                    assert(old(self).board.is_alive_id(chosen@));
                }
                if self.cfg.no_votes {
                    self.board.no_goverment_counter = 0;
                    let laws = self.board.draw_laws(3);
                    self.state = DynamicState::PresidentChooseLaws { laws, chancellor: chosen };
                } else {
                    let mut votes: Vec<Option<bool>> = Vec::new();
                    let mut j: usize = 0;
                    let n = self.board.players.len();
                    while j < n
                        invariant
                            j <= n,
                            votes@.len() == j,
                            forall|k: int| 0 <= k < j ==> votes@[k] is None,
                        decreases n - j,
                    {
                        votes.push(None);
                        j = j + 1;
                    }
                    self.state = DynamicState::VoteChancellor { chancellor: chosen, votes };
                }
                proof {
                    crate::board::lemma_alive_queries_stable(old(self).board, self.board);
                }
                Ok(true)
            },
            _ => {
                proof {
                    assert(false);
                }
                unreached()
            },
        }
    }

    /// The president culls one of the three drawn laws onto the discard pile
    /// and passes the other two to the chancellor.
    pub fn president_pick(&mut self, player: PlayerId, keep: Vec<Law>, discard: Law) -> (r: Result<
        bool,
        GameError,
    >)
        requires
            old(self).wf(),
            old(self).state matches DynamicState::PresidentChooseLaws { .. },
            old(self).spec_win() is None,
        ensures
            final(self).wf(),
            r is Err ==> *final(self) == *old(self) && (r matches Err(e) && e
                == GameError::InvalidAction),
            r is Ok <==> president_pick_valid(*old(self), player@, keep@, discard),
            r matches Ok(ch) ==> president_pick_rel(*old(self), *final(self), keep@, discard, ch),
    {
        let mut st = DynamicState::Uninit;
        core::mem::swap(&mut st, &mut self.state);
        match st {
            DynamicState::PresidentChooseLaws { laws, chancellor } => {
                if !id_eq(&player, &self.board.current_president) || keep.len() != 2 || !picked_ok(
                    &keep,
                    discard,
                    &laws,
                ) {
                    self.state = DynamicState::PresidentChooseLaws { laws, chancellor };
                    return Err(GameError::InvalidAction);
                }
                self.board.discard_pile.push(discard);
                self.board.voting_result = None;
                let can_ask_veto = self.board.passed_fasho_laws == 5;
                self.state = DynamicState::ChancellorChooseLaws {
                    can_ask_veto,
                    laws: keep,
                    chancellor,
                };
                proof {
                    crate::board::lemma_alive_queries_stable(old(self).board, self.board);
                }
                Ok(true)
            },
            _ => {
                proof {
                    assert(false);
                }
                unreached()
            },
        }
    }

    /// The chancellor asks to veto the pair; only honorable while the veto
    /// window (opened by the fifth fascist law) is open.
    pub fn request_veto(&mut self, player: PlayerId, ask: bool) -> (r: Result<bool, GameError>)
        requires
            old(self).wf(),
            old(self).state matches DynamicState::ChancellorChooseLaws { .. },
            old(self).spec_win() is None,
        ensures
            final(self).wf(),
            r is Err ==> *final(self) == *old(self) && (r matches Err(e) && e
                == GameError::InvalidAction),
            r is Ok <==> request_veto_valid(*old(self), player@, ask),
            r matches Ok(ch) ==> request_veto_rel(*old(self), *final(self), ch),
    {
        let mut st = DynamicState::Uninit;
        core::mem::swap(&mut st, &mut self.state);
        match st {
            DynamicState::ChancellorChooseLaws { can_ask_veto, laws, chancellor } => {
                if !(ask && can_ask_veto && id_eq(&player, &chancellor)) {
                    self.state = DynamicState::ChancellorChooseLaws {
                        can_ask_veto,
                        laws,
                        chancellor,
                    };
                    return Err(GameError::InvalidAction);
                }
                self.state = DynamicState::AskVeto { chancellor, laws };
                Ok(true)
            },
            _ => {
                proof {
                    assert(false);
                }
                unreached()
            },
        }
    }

    /// The president answers a veto request: accepting discards both laws and
    /// rotates; rejecting sends the pair back with the veto closed.
    pub fn answer_veto(&mut self, player: PlayerId, accept: bool) -> (r: Result<bool, GameError>)
        requires
            old(self).wf(),
            old(self).state matches DynamicState::AskVeto { .. },
            old(self).spec_win() is None,
        ensures
            final(self).wf(),
            r is Err ==> *final(self) == *old(self) && (r matches Err(e) && e
                == GameError::InvalidAction),
            r is Ok <==> answer_veto_valid(*old(self), player@),
            r matches Ok(ch) ==> answer_veto_rel(*old(self), *final(self), accept, ch),
    {
        let mut st = DynamicState::Uninit;
        core::mem::swap(&mut st, &mut self.state);
        match st {
            DynamicState::AskVeto { chancellor, laws } => {
                if !id_eq(&player, &self.board.current_president) {
                    self.state = DynamicState::AskVeto { chancellor, laws };
                    return Err(GameError::InvalidAction);
                }
                if accept {
                    self.board.history.push(
                        Event::Veto {
                            president: self.board.current_president.clone(),
                            chancellor: chancellor.clone(),
                        },
                    );
                    let mut k: usize = 0;
                    while k < laws.len()
                        invariant
                            k <= laws@.len(),
                            self.board.discard_pile@ == old(self).board.discard_pile@
                                + laws@.take(k as int),
                            self.board.draw_pile == old(self).board.draw_pile,
                            self.board.players == old(self).board.players,
                            self.board.executive_actions == old(self).board.executive_actions,
                            self.board.voting_result == old(self).board.voting_result,
                            self.board.passed_fasho_laws == old(self).board.passed_fasho_laws,
                            self.board.passed_liberal_laws == old(self).board.passed_liberal_laws,
                            self.board.no_goverment_counter == old(
                                self,
                            ).board.no_goverment_counter,
                            self.board.previous_president == old(self).board.previous_president,
                            self.board.previous_chancellor == old(self).board.previous_chancellor,
                            self.board.current_president == old(self).board.current_president,
                            self.board.next_president_by_rules == old(
                                self,
                            ).board.next_president_by_rules,
                            self.board.revealed_factions == old(self).board.revealed_factions,
                            self.board.history@ == old(self).board.history@.push(
                                Event::Veto {
                                    president: old(self).board.current_president,
                                    chancellor: chancellor,
                                },
                            ),
                            self.state is Uninit,
                            self.cfg == old(self).cfg,
                        decreases laws@.len() - k,
                    {
                        self.board.discard_pile.push(laws[k]);
                        proof {
                            assert(old(self).board.discard_pile@ + laws@.take(k + 1) =~= (old(
                                self,
                            ).board.discard_pile@ + laws@.take(k as int)).push(laws@[k as int]));
                        }
                        k = k + 1;
                    }
                    proof {
                        assert(laws@.take(laws@.len() as int) =~= laws@);
                    }
                    self.board.previous_president = Some(self.board.current_president.clone());
                    self.board.previous_chancellor = Some(chancellor);
                    let st2 = self.board.select_next_president();
                    self.state = st2;
                    proof {
                        crate::board::lemma_alive_queries_stable(old(self).board, self.board);
                        Self::lemma_nomination_state_wf(
                            self.board,
                            self.board.current_president@,
                            Some(old(self).board.current_president),
                            match old(self).state {
                                DynamicState::AskVeto { chancellor: c0, .. } => Some(c0),
                                _ => None,
                            },
                            self.state,
                        );
                    }
                    Ok(true)
                } else {
                    self.state = DynamicState::ChancellorChooseLaws {
                        can_ask_veto: false,
                        laws,
                        chancellor,
                    };
                    Ok(true)
                }
            },
            _ => {
                proof {
                    assert(false);
                }
                unreached()
            },
        }
    }
}

/// A vote is valid when a living roster member casts it.
pub open spec fn vote_valid(pre: GameState, player: Seq<char>) -> bool {
    match pre.state {
        DynamicState::VoteChancellor { .. } => pre.board.is_alive_id(player),
        _ => false,
    }
}

/// What casting a vote does. The vote overwrites the player's ballot slot
/// (idempotently). Once every living player has voted the election resolves:
/// the ballot is logged and cached; success clears the failed-election
/// counter and deals the president three laws; a third consecutive failure
/// force-enacts exactly one drawn law with no chancellor and clears the
/// counter; other failures count up and rotate.
pub open spec fn vote_rel(
    pre: GameState,
    post: GameState,
    player: Seq<char>,
    agree: bool,
    changed: bool,
) -> bool {
    match pre.state {
        DynamicState::VoteChancellor { chancellor, votes } => {
            let idx = crate::board::index_of_id(pre.board.players@, player);
            let ballot = votes@.update(idx, Some(agree));
            let pidx = crate::board::index_of_id(
                pre.board.players@,
                pre.board.current_president@,
            );
            &&& post.cfg == pre.cfg
            &&& post.board.players == pre.board.players
            &&& post.board.executive_actions == pre.board.executive_actions
            &&& post.board.revealed_factions == pre.board.revealed_factions
            &&& post.board.previous_president == pre.board.previous_president
            &&& post.board.previous_chancellor == pre.board.previous_chancellor
            &&& if !all_voted(pre.board.players@, ballot) {
                &&& post.board == pre.board
                &&& post.state matches DynamicState::VoteChancellor { chancellor: c2, votes: v2 }
                    && c2 == chancellor && v2@ == ballot
                &&& changed == (votes@[idx] != Some(agree))
            } else {
                let success = spec_vote_success(ballot, pidx);
                &&& changed
                &&& post.board.voting_result matches Some(v) && v@ == ballot
                &&& post.board.history@.len() > pre.board.history@.len()
                &&& post.board.history@.take(pre.board.history@.len() as int)
                    == pre.board.history@
                &&& is_vote_event(
                    post.board.history@[pre.board.history@.len() as int],
                    pre.board.current_president,
                    chancellor,
                    ballot,
                    success,
                )
                &&& if success {
                    &&& post.board.history@.len() == pre.board.history@.len() + 1
                    &&& post.board.no_goverment_counter == 0
                    &&& post.board.passed_fasho_laws == pre.board.passed_fasho_laws
                    &&& post.board.passed_liberal_laws == pre.board.passed_liberal_laws
                    &&& post.board.current_president == pre.board.current_president
                    &&& post.board.next_president_by_rules == pre.board.next_president_by_rules
                    &&& post.state matches DynamicState::PresidentChooseLaws {
                        laws,
                        chancellor: c2,
                    } && c2 == chancellor && laws@.len() == 3 && crate::board::drawn_from(
                        pre.board.draw_pile@,
                        pre.board.discard_pile@,
                        post.board.draw_pile@,
                        post.board.discard_pile@,
                        laws@,
                    )
                } else if pre.board.no_goverment_counter == 2 {
                    &&& post.board.no_goverment_counter == 0
                    &&& post.board.history@.len() == pre.board.history@.len() + 2
                    &&& (exists|l: Law|
                        post.board.history@.last() == Event::PlayedLaw {
                            president: pre.board.current_president,
                            chancellor: None,
                            law: l,
                        } && if l == Law::Liberal {
                            post.board.passed_liberal_laws == pre.board.passed_liberal_laws + 1
                                && post.board.passed_fasho_laws == pre.board.passed_fasho_laws
                        } else {
                            post.board.passed_fasho_laws == pre.board.passed_fasho_laws + 1
                                && post.board.passed_liberal_laws
                                == pre.board.passed_liberal_laws
                        })
                    &&& post.board.draw_pile@.len() + post.board.discard_pile@.len() + 1
                        == pre.board.draw_pile@.len() + pre.board.discard_pile@.len()
                    &&& rotated_and_nominating(
                        pre.board.players@,
                        pre.board.current_president@,
                        pre.board.next_president_by_rules,
                        pre.board.previous_president,
                        pre.board.previous_chancellor,
                        post.board.current_president,
                        post.board.next_president_by_rules,
                        post.state,
                    )
                } else {
                    &&& post.board.no_goverment_counter == pre.board.no_goverment_counter + 1
                    &&& post.board.passed_fasho_laws == pre.board.passed_fasho_laws
                    &&& post.board.passed_liberal_laws == pre.board.passed_liberal_laws
                    &&& post.board.draw_pile == pre.board.draw_pile
                    &&& post.board.discard_pile == pre.board.discard_pile
                    &&& post.board.history@.len() == pre.board.history@.len() + 1
                    &&& rotated_and_nominating(
                        pre.board.players@,
                        pre.board.current_president@,
                        pre.board.next_president_by_rules,
                        pre.board.previous_president,
                        pre.board.previous_chancellor,
                        post.board.current_president,
                        post.board.next_president_by_rules,
                        post.state,
                    )
                }
            }
        },
        _ => false,
    }
}

/// A chancellor's enactment is valid when the chancellor submits one kept law
/// and one discard that together are exactly the offered pair.
pub open spec fn chancellor_pick_valid(
    pre: GameState,
    player: Seq<char>,
    keep: Seq<Law>,
    discard: Law,
) -> bool {
    match pre.state {
        DynamicState::ChancellorChooseLaws { laws, chancellor, .. } => player == chancellor@
            && keep.len() == 1 && picked_from(keep, discard, laws@),
        _ => false,
    }
}

/// What the chancellor's enactment does: the discard goes on the discard
/// pile, the government is recorded for term limits, the kept law is enacted
/// and logged, and the round ends in an executive action (when the new
/// fascist count unlocks a slot) or a rotation.
pub open spec fn chancellor_pick_rel(
    pre: GameState,
    post: GameState,
    keep: Seq<Law>,
    discard: Law,
    changed: bool,
) -> bool {
    match pre.state {
        DynamicState::ChancellorChooseLaws { laws, chancellor, .. } => {
            &&& changed
            &&& post.cfg == pre.cfg
            &&& post.board.discard_pile@ == pre.board.discard_pile@.push(discard)
            &&& post.board.history@ == pre.board.history@.push(
                Event::PlayedLaw {
                    president: pre.board.current_president,
                    chancellor: Some(chancellor),
                    law: keep[0],
                },
            )
            &&& post.board.previous_president matches Some(p) && p == pre.board.current_president
            &&& post.board.previous_chancellor matches Some(c) && c == chancellor
            &&& post.board.players == pre.board.players
            &&& post.board.draw_pile == pre.board.draw_pile
            &&& post.board.executive_actions == pre.board.executive_actions
            &&& post.board.voting_result == pre.board.voting_result
            &&& post.board.revealed_factions == pre.board.revealed_factions
            &&& post.board.no_goverment_counter == pre.board.no_goverment_counter
            &&& if keep[0] == Law::Liberal {
                &&& post.board.passed_liberal_laws == pre.board.passed_liberal_laws + 1
                &&& post.board.passed_fasho_laws == pre.board.passed_fasho_laws
                &&& rotated_and_nominating(
                    pre.board.players@,
                    pre.board.current_president@,
                    pre.board.next_president_by_rules,
                    Some(pre.board.current_president),
                    Some(chancellor),
                    post.board.current_president,
                    post.board.next_president_by_rules,
                    post.state,
                )
            } else {
                &&& post.board.passed_fasho_laws == pre.board.passed_fasho_laws + 1
                &&& post.board.passed_liberal_laws == pre.board.passed_liberal_laws
                &&& match pre.board.executive_actions@[pre.board.passed_fasho_laws as int] {
                    Some(a) => {
                        &&& post.state matches DynamicState::ExecutiveAction {
                            chancellor: c2,
                            action: t,
                        } && c2 == chancellor && crate::board::ea_task_for(
                            a,
                            pre.board.draw_pile@,
                            t,
                        )
                        &&& post.board.current_president == pre.board.current_president
                        &&& post.board.next_president_by_rules
                            == pre.board.next_president_by_rules
                    },
                    None => rotated_and_nominating(
                        pre.board.players@,
                        pre.board.current_president@,
                        pre.board.next_president_by_rules,
                        Some(pre.board.current_president),
                        Some(chancellor),
                        post.board.current_president,
                        post.board.next_president_by_rules,
                        post.state,
                    ),
                }
            }
        },
        _ => false,
    }
}

/// An executive response is valid when the sitting president gives it, its
/// variant matches the pending power, and its target is on the roster —
/// living for a kill or a presidency handover, and for a kill some other
/// living player remains for the rotation to land on.
pub open spec fn execute_valid(
    pre: GameState,
    player: Seq<char>,
    resp: ExecutiveActionResponse,
) -> bool {
    match pre.state {
        DynamicState::ExecutiveAction { action: task, .. } => player
            == pre.board.current_president@ && match (task, resp) {
            (ExecutiveActionTask::Kill, ExecutiveActionResponse::Kill(target)) =>
                pre.board.is_alive_id(target@) && another_alive(pre.board.players@, target@),
            (
                ExecutiveActionTask::RevealFaction,
                ExecutiveActionResponse::RevealFaction(target),
            ) => pre.board.has_player(target@),
            (
                ExecutiveActionTask::DeterminePresident,
                ExecutiveActionResponse::DeterminePresident(target),
            ) => pre.board.is_alive_id(target@),
            (
                ExecutiveActionTask::RevealNextCards(_),
                ExecutiveActionResponse::RevealNextCards,
            ) => true,
            _ => false,
        },
        _ => false,
    }
}

/// What resolving an executive action does. A kill flips the target's alive
/// flag and nothing else about them; a faction reveal records the one-shot
/// (president, target, faction) triple; a presidency handover makes the
/// target president at once; a card reveal is a pure acknowledgement. All
/// rotate to the next president, the handover by way of its consumed
/// override.
pub open spec fn execute_rel(
    pre: GameState,
    post: GameState,
    resp: ExecutiveActionResponse,
    changed: bool,
) -> bool {
    match pre.state {
        DynamicState::ExecutiveAction { action: task, .. } => {
            &&& changed
            &&& post.cfg == pre.cfg
            &&& post.board.draw_pile == pre.board.draw_pile
            &&& post.board.discard_pile == pre.board.discard_pile
            &&& post.board.executive_actions == pre.board.executive_actions
            &&& post.board.voting_result == pre.board.voting_result
            &&& post.board.passed_fasho_laws == pre.board.passed_fasho_laws
            &&& post.board.passed_liberal_laws == pre.board.passed_liberal_laws
            &&& post.board.no_goverment_counter == pre.board.no_goverment_counter
            &&& post.board.previous_president == pre.board.previous_president
            &&& post.board.previous_chancellor == pre.board.previous_chancellor
            &&& post.board.history == pre.board.history
            &&& match (task, resp) {
                (ExecutiveActionTask::Kill, ExecutiveActionResponse::Kill(target)) => {
                    let t = crate::board::index_of_id(pre.board.players@, target@);
                    &&& post.board.players@.len() == pre.board.players@.len()
                    &&& !post.board.players@[t].alive
                    &&& post.board.players@[t].id == pre.board.players@[t].id
                    &&& post.board.players@[t].user == pre.board.players@[t].user
                    &&& post.board.players@[t].role == pre.board.players@[t].role
                    &&& post.board.players@[t].connected == pre.board.players@[t].connected
                    &&& post.board.players@[t].access_key == pre.board.players@[t].access_key
                    &&& forall|k: int|
                        0 <= k < pre.board.players@.len() && k != t ==> post.board.players@[k]
                            == pre.board.players@[k]
                    &&& post.board.revealed_factions == pre.board.revealed_factions
                    &&& rotated_and_nominating(
                        post.board.players@,
                        pre.board.current_president@,
                        pre.board.next_president_by_rules,
                        pre.board.previous_president,
                        pre.board.previous_chancellor,
                        post.board.current_president,
                        post.board.next_president_by_rules,
                        post.state,
                    )
                },
                (
                    ExecutiveActionTask::RevealFaction,
                    ExecutiveActionResponse::RevealFaction(target),
                ) => {
                    &&& post.board.players == pre.board.players
                    &&& post.board.revealed_factions matches Some(t3) && t3.0
                        == pre.board.current_president && t3.1 == target && t3.2
                        == pre.board.players@[crate::board::index_of_id(
                        pre.board.players@,
                        target@,
                    )].role.spec_faction()
                    &&& rotated_and_nominating(
                        pre.board.players@,
                        pre.board.current_president@,
                        pre.board.next_president_by_rules,
                        pre.board.previous_president,
                        pre.board.previous_chancellor,
                        post.board.current_president,
                        post.board.next_president_by_rules,
                        post.state,
                    )
                },
                (
                    ExecutiveActionTask::DeterminePresident,
                    ExecutiveActionResponse::DeterminePresident(target),
                ) => {
                    &&& post.board.players == pre.board.players
                    &&& post.board.revealed_factions == pre.board.revealed_factions
                    &&& post.board.current_president == target
                    &&& post.board.next_president_by_rules is None
                    &&& post.state matches DynamicState::ChooseChancellor { options } && options@
                        == crate::board::chancellor_options(
                        pre.board.players@,
                        target@,
                        pre.board.previous_president,
                        pre.board.previous_chancellor,
                    )
                },
                (
                    ExecutiveActionTask::RevealNextCards(_),
                    ExecutiveActionResponse::RevealNextCards,
                ) => {
                    &&& post.board.players == pre.board.players
                    &&& post.board.revealed_factions == pre.board.revealed_factions
                    &&& rotated_and_nominating(
                        pre.board.players@,
                        pre.board.current_president@,
                        pre.board.next_president_by_rules,
                        pre.board.previous_president,
                        pre.board.previous_chancellor,
                        post.board.current_president,
                        post.board.next_president_by_rules,
                        post.state,
                    )
                },
                _ => false,
            }
        },
        _ => false,
    }
}

impl GameState {
    /// Cast (or overwrite) a vote; only living roster members may. When the
    /// last living player votes, the election resolves.
    pub fn cast_vote(&mut self, player: PlayerId, agree: bool) -> (r: Result<bool, GameError>)
        requires
            old(self).wf(),
            old(self).state matches DynamicState::VoteChancellor { .. },
            old(self).spec_win() is None,
        ensures
            final(self).wf(),
            r is Err ==> *final(self) == *old(self) && (r matches Err(e) && e
                == GameError::InvalidAction),
            r is Ok <==> vote_valid(*old(self), player@),
            r matches Ok(ch) ==> vote_rel(*old(self), *final(self), player@, agree, ch),
    {
        let mut st = DynamicState::Uninit;
        core::mem::swap(&mut st, &mut self.state);
        match st {
            DynamicState::VoteChancellor { chancellor, mut votes } => {
                let idx = match self.board.find_player(&player) {
                    Some(i) => i,
                    None => {
                        proof {
                            if old(self).board.is_alive_id(player@) {
                                let w = choose|w: int|
                                    0 <= w < old(self).board.players@.len() && #[trigger] old(
                                    self).board.players@[w].id@ == player@ && old(
                                    self).board.players@[w].alive;
                                assert(old(self).board.has_player(player@));
                            }
                        }
                        self.state = DynamicState::VoteChancellor { chancellor, votes };
                        return Err(GameError::InvalidAction);
                    },
                };
                proof {
                    crate::board::lemma_index_of_id_unique(
                        self.board.players@,
                        player@,
                        idx as int,
                    );
                }
                if !self.board.players[idx].alive {
                    proof {
                        if old(self).board.is_alive_id(player@) {
                            let w = choose|w: int|
                                0 <= w < old(self).board.players@.len() && #[trigger] old(
                                self).board.players@[w].id@ == player@ && old(
                                self).board.players@[w].alive;
                            crate::board::lemma_index_of_id_unique(
                                old(self).board.players@,
                                player@,
                                w,
                            );
                        }
                    }
                    self.state = DynamicState::VoteChancellor { chancellor, votes };
                    return Err(GameError::InvalidAction);
                }
                let prev = votes[idx];
                let changed = !(prev == Some(agree));
                {
                    let slot = &mut votes[idx];
                    *slot = Some(agree);
                }
                if !all_living_voted(&self.board.players, &votes) {
                    self.state = DynamicState::VoteChancellor { chancellor, votes };
                    return Ok(changed);
                }
                let pidx = self.board.index(&self.board.current_president);
                proof {
                    crate::board::lemma_index_of_id_unique(
                        self.board.players@,
                        self.board.current_president@,
                        pidx as int,
                    );
                    let w = choose|w: int|
                        0 <= w < old(self).board.players@.len() && #[trigger] old(
                        self).board.players@[w].id@ == old(self).board.current_president@ && old(
                        self).board.players@[w].alive;
                    crate::board::lemma_index_of_id_unique(
                        old(self).board.players@,
                        old(self).board.current_president@,
                        w,
                    );
                    assert(votes@[pidx as int] is Some);
                }
                let success = vote_succeeds(&votes, pidx);
                self.board.history.push(
                    Event::Vote {
                        president: self.board.current_president.clone(),
                        chancellor: chancellor.clone(),
                        votes: crate::types::clone_votes(&votes),
                        success,
                    },
                );
                self.board.voting_result = Some(crate::types::clone_votes(&votes));
                let ghost hist1 = self.board.history@;
                if success {
                    self.board.no_goverment_counter = 0;
                    let laws = self.board.draw_laws(3);
                    self.state = DynamicState::PresidentChooseLaws { laws, chancellor };
                    proof {
                        crate::board::lemma_alive_queries_stable(old(self).board, self.board);
                        assert(self.board.history@.take(old(self).board.history@.len() as int)
                            =~= old(self).board.history@);
                    }
                    Ok(true)
                } else {
                    self.board.no_goverment_counter = self.board.no_goverment_counter + 1;
                    if self.board.no_goverment_counter == 3 {
                        let drawn = self.board.draw_laws(1);
                        let law = drawn[0];
                        let st2 = self.board.play_law(law, None);
                        self.state = st2;
                        proof {
                            crate::board::lemma_alive_queries_stable(old(self).board, self.board);
                            Self::lemma_nomination_state_wf(
                                self.board,
                                self.board.current_president@,
                                self.board.previous_president,
                                self.board.previous_chancellor,
                                self.state,
                            );
                            assert(self.board.history@.take(
                                old(self).board.history@.len() as int,
                            ) =~= old(self).board.history@);
                            assert(self.board.history@[old(self).board.history@.len() as int]
                                == hist1.last());
                        }
                        Ok(true)
                    } else {
                        let st2 = self.board.select_next_president();
                        self.state = st2;
                        proof {
                            crate::board::lemma_alive_queries_stable(old(self).board, self.board);
                            Self::lemma_nomination_state_wf(
                                self.board,
                                self.board.current_president@,
                                self.board.previous_president,
                                self.board.previous_chancellor,
                                self.state,
                            );
                            assert(self.board.history@.take(
                                old(self).board.history@.len() as int,
                            ) =~= old(self).board.history@);
                        }
                        Ok(true)
                    }
                }
            },
            _ => {
                proof {
                    assert(false);
                }
                unreached()
            },
        }
    }

    /// The chancellor enacts one of the two laws and discards the other; the
    /// government is recorded for term limits and the law's consequences
    /// (tally, executive action, rotation) follow.
    pub fn chancellor_pick(&mut self, player: PlayerId, keep: Vec<Law>, discard: Law) -> (r:
        Result<bool, GameError>)
        requires
            old(self).wf(),
            old(self).state matches DynamicState::ChancellorChooseLaws { .. },
            old(self).spec_win() is None,
        ensures
            final(self).wf(),
            r is Err ==> *final(self) == *old(self) && (r matches Err(e) && e
                == GameError::InvalidAction),
            r is Ok <==> chancellor_pick_valid(*old(self), player@, keep@, discard),
            r matches Ok(ch) ==> chancellor_pick_rel(*old(self), *final(self), keep@, discard, ch),
    {
        let mut st = DynamicState::Uninit;
        core::mem::swap(&mut st, &mut self.state);
        match st {
            DynamicState::ChancellorChooseLaws { can_ask_veto, laws, chancellor } => {
                if !id_eq(&player, &chancellor) || keep.len() != 1 || !picked_ok(
                    &keep,
                    discard,
                    &laws,
                ) {
                    self.state = DynamicState::ChancellorChooseLaws {
                        can_ask_veto,
                        laws,
                        chancellor,
                    };
                    return Err(GameError::InvalidAction);
                }
                self.board.discard_pile.push(discard);
                self.board.previous_president = Some(self.board.current_president.clone());
                self.board.previous_chancellor = Some(chancellor.clone());
                let law = keep[0];
                let st2 = self.board.play_law(law, Some(chancellor));
                self.state = st2;
                proof {
                    crate::board::lemma_alive_queries_stable(old(self).board, self.board);
                    Self::lemma_nomination_state_wf(
                        self.board,
                        self.board.current_president@,
                        self.board.previous_president,
                        self.board.previous_chancellor,
                        self.state,
                    );
                }
                Ok(true)
            },
            _ => {
                proof {
                    assert(false);
                }
                unreached()
            },
        }
    }

    /// The president resolves the pending executive action: kill a player,
    /// privately learn a faction, hand the presidency to a chosen player, or
    /// acknowledge the revealed cards.
    pub fn execute_action(&mut self, player: PlayerId, resp: ExecutiveActionResponse) -> (r:
        Result<bool, GameError>)
        requires
            old(self).wf(),
            old(self).state matches DynamicState::ExecutiveAction { .. },
            old(self).spec_win() is None,
        ensures
            final(self).wf(),
            r is Err ==> *final(self) == *old(self) && (r matches Err(e) && e
                == GameError::InvalidAction),
            r is Ok <==> execute_valid(*old(self), player@, resp),
            r matches Ok(ch) ==> execute_rel(*old(self), *final(self), resp, ch),
    {
        let mut st = DynamicState::Uninit;
        core::mem::swap(&mut st, &mut self.state);
        match st {
            DynamicState::ExecutiveAction { chancellor, action } => {
                if !id_eq(&player, &self.board.current_president) {
                    self.state = DynamicState::ExecutiveAction { chancellor, action };
                    return Err(GameError::InvalidAction);
                }
                match (&action, &resp) {
                    (ExecutiveActionTask::Kill, ExecutiveActionResponse::Kill(target)) => {
                        let t = match self.board.find_player(target) {
                            Some(t) => t,
                            None => {
                                proof {
                                    if old(self).board.is_alive_id(target@) {
                                        let w = choose|w: int|
                                            0 <= w < old(self).board.players@.len()
                                                && #[trigger] old(self).board.players@[w].id@
                                                == target@ && old(self).board.players@[w].alive;
                                        assert(old(self).board.has_player(target@));
                                    }
                                }
                                self.state = DynamicState::ExecutiveAction { chancellor, action };
                                return Err(GameError::InvalidAction);
                            },
                        };
                        proof {
                            crate::board::lemma_index_of_id_unique(
                                self.board.players@,
                                target@,
                                t as int,
                            );
                        }
                        if !self.board.players[t].alive {
                            proof {
                                if old(self).board.is_alive_id(target@) {
                                    let w = choose|w: int|
                                        0 <= w < old(self).board.players@.len() && #[trigger] old(
                                        self).board.players@[w].id@ == target@ && old(
                                        self).board.players@[w].alive;
                                    crate::board::lemma_index_of_id_unique(
                                        old(self).board.players@,
                                        target@,
                                        w,
                                    );
                                }
                            }
                            self.state = DynamicState::ExecutiveAction { chancellor, action };
                            return Err(GameError::InvalidAction);
                        }
                        let mut other = false;
                        let mut k: usize = 0;
                        let n = self.board.players.len();
                        while k < n
                            invariant
                                k <= n,
                                n == self.board.players@.len(),
                                other == exists|j: int|
                                    0 <= j < k && (#[trigger] self.board.players@[j]).alive
                                        && self.board.players@[j].id@ != target@,
                            decreases n - k,
                        {
                            if self.board.players[k].alive && !id_eq(
                                &self.board.players[k].id,
                                target,
                            ) {
                                other = true;
                            }
                            k = k + 1;
                        }
                        if !other {
                            self.state = DynamicState::ExecutiveAction { chancellor, action };
                            return Err(GameError::InvalidAction);
                        }
                        {
                            let p = &mut self.board.players[t];
                            p.alive = false;
                        }
                        proof {
                            let w = choose|j: int|
                                0 <= j < old(self).board.players@.len() && (#[trigger] old(
                                self).board.players@[j]).alive && old(self).board.players@[j].id@
                                    != target@;
                            assert(self.board.players@[w].alive);
                            assert(self.board.has_player(self.board.current_president@)) by {
                                let c = choose|c: int|
                                    0 <= c < old(self).board.players@.len() && #[trigger] old(
                                    self).board.players@[c].id@ == old(
                                    self).board.current_president@ && old(
                                    self).board.players@[c].alive;
                                assert(self.board.players@[c].id@
                                    == self.board.current_president@);
                            }
                            assert forall|a: int, b: int|
                                0 <= a < b < self.board.players@.len() implies self.board.players@[
                            a].id@ != self.board.players@[b].id@ by {
                                assert(old(self).board.players@[a].id@ != old(
                                self).board.players@[b].id@);
                            }
                        }
                        let st2 = self.board.select_next_president();
                        self.state = st2;
                        proof {
                            Self::lemma_nomination_state_wf(
                                self.board,
                                self.board.current_president@,
                                self.board.previous_president,
                                self.board.previous_chancellor,
                                self.state,
                            );
                            assert forall|id: Seq<char>|
                                old(self).board.has_player(id) implies self.board.has_player(
                                id,
                            ) by {
                                let w2 = choose|i: int|
                                    0 <= i < old(self).board.players@.len() && #[trigger] old(
                                    self).board.players@[i].id@ == id;
                                assert(self.board.players@[w2].id@ == id);
                            }
                        }
                        Ok(true)
                    },
                    (
                        ExecutiveActionTask::RevealFaction,
                        ExecutiveActionResponse::RevealFaction(target),
                    ) => {
                        let t = match self.board.find_player(target) {
                            Some(t) => t,
                            None => {
                                self.state = DynamicState::ExecutiveAction { chancellor, action };
                                return Err(GameError::InvalidAction);
                            },
                        };
                        proof {
                            crate::board::lemma_index_of_id_unique(
                                self.board.players@,
                                target@,
                                t as int,
                            );
                        }
                        let faction = self.board.players[t].role.faction();
                        self.board.revealed_factions = Some(
                            (self.board.current_president.clone(), target.clone(), faction),
                        );
                        let st2 = self.board.select_next_president();
                        self.state = st2;
                        proof {
                            crate::board::lemma_alive_queries_stable(old(self).board, self.board);
                            Self::lemma_nomination_state_wf(
                                self.board,
                                self.board.current_president@,
                                self.board.previous_president,
                                self.board.previous_chancellor,
                                self.state,
                            );
                        }
                        Ok(true)
                    },
                    (
                        ExecutiveActionTask::DeterminePresident,
                        ExecutiveActionResponse::DeterminePresident(target),
                    ) => {
                        let alive_target = match self.board.find_player(target) {
                            Some(t) => {
                                proof {
                                    crate::board::lemma_index_of_id_unique(
                                        self.board.players@,
                                        target@,
                                        t as int,
                                    );
                                }
                                self.board.players[t].alive
                            },
                            None => false,
                        };
                        if !alive_target {
                            proof {
                                if old(self).board.is_alive_id(target@) {
                                    let w = choose|w: int|
                                        0 <= w < old(self).board.players@.len() && #[trigger] old(
                                        self).board.players@[w].id@ == target@ && old(
                                        self).board.players@[w].alive;
                                    crate::board::lemma_index_of_id_unique(
                                        old(self).board.players@,
                                        target@,
                                        w,
                                    );
                                }
                            }
                            self.state = DynamicState::ExecutiveAction { chancellor, action };
                            return Err(GameError::InvalidAction);
                        }
                        self.board.next_president_by_rules = Some(target.clone());
                        let st2 = self.board.select_next_president();
                        self.state = st2;
                        proof {
                            crate::board::lemma_alive_queries_stable(old(self).board, self.board);
                            Self::lemma_nomination_state_wf(
                                self.board,
                                self.board.current_president@,
                                self.board.previous_president,
                                self.board.previous_chancellor,
                                self.state,
                            );
                        }
                        Ok(true)
                    },
                    (
                        ExecutiveActionTask::RevealNextCards(_),
                        ExecutiveActionResponse::RevealNextCards,
                    ) => {
                        let st2 = self.board.select_next_president();
                        self.state = st2;
                        proof {
                            crate::board::lemma_alive_queries_stable(old(self).board, self.board);
                            Self::lemma_nomination_state_wf(
                                self.board,
                                self.board.current_president@,
                                self.board.previous_president,
                                self.board.previous_chancellor,
                                self.state,
                            );
                        }
                        Ok(true)
                    },
                    _ => {
                        self.state = DynamicState::ExecutiveAction { chancellor, action };
                        Err(GameError::InvalidAction)
                    },
                }
            },
            _ => {
                proof {
                    assert(false);
                }
                unreached()
            },
        }
    }
}

/// Which `(phase, actor, action)` triples are accepted. `Start` is accepted
/// from any phase for a playable roster size; every other action requires the
/// game to be undecided, the phase to expect that action's shape, and its
/// per-action validation to pass.
pub open spec fn action_valid(pre: GameState, player: Seq<char>, action: TaskAction) -> bool {
    match action {
        TaskAction::Start => 5 <= pre.board.players@.len() <= 10,
        TaskAction::ChooseChancellor(chosen) => pre.spec_win() is None && (pre.state matches
            DynamicState::ChooseChancellor { .. }) && nominate_valid(pre, player, chosen@),
        TaskAction::Vote(_) => pre.spec_win() is None && (pre.state matches
            DynamicState::VoteChancellor { .. }) && vote_valid(pre, player),
        TaskAction::PickedLaws(keep, discard) => pre.spec_win() is None && match pre.state {
            DynamicState::PresidentChooseLaws { .. } => president_pick_valid(
                pre,
                player,
                keep@,
                discard,
            ),
            DynamicState::ChancellorChooseLaws { .. } => chancellor_pick_valid(
                pre,
                player,
                keep@,
                discard,
            ),
            _ => false,
        },
        TaskAction::Veto(v) => pre.spec_win() is None && match pre.state {
            DynamicState::ChancellorChooseLaws { .. } => request_veto_valid(pre, player, v),
            DynamicState::AskVeto { .. } => answer_veto_valid(pre, player),
            _ => false,
        },
        TaskAction::ExecuteAction(resp) => pre.spec_win() is None && (pre.state matches
            DynamicState::ExecutiveAction { .. }) && execute_valid(pre, player, resp),
    }
}

/// What each accepted action does, as the per-action relations state it.
pub open spec fn step_rel(
    pre: GameState,
    post: GameState,
    player: Seq<char>,
    action: TaskAction,
    changed: bool,
) -> bool {
    match action {
        TaskAction::Start => start_rel(pre, post) && changed,
        TaskAction::ChooseChancellor(chosen) => nominate_rel(pre, post, chosen, changed),
        TaskAction::Vote(agree) => vote_rel(pre, post, player, agree, changed),
        TaskAction::PickedLaws(keep, discard) => match pre.state {
            DynamicState::PresidentChooseLaws { .. } => president_pick_rel(
                pre,
                post,
                keep@,
                discard,
                changed,
            ),
            DynamicState::ChancellorChooseLaws { .. } => chancellor_pick_rel(
                pre,
                post,
                keep@,
                discard,
                changed,
            ),
            _ => false,
        },
        TaskAction::Veto(accept) => match pre.state {
            DynamicState::ChancellorChooseLaws { .. } => request_veto_rel(pre, post, changed),
            DynamicState::AskVeto { .. } => answer_veto_rel(pre, post, accept, changed),
            _ => false,
        },
        TaskAction::ExecuteAction(resp) => execute_rel(pre, post, resp, changed),
    }
}

impl GameState {
    /// Apply one player action. A triple that the current phase, actor or
    /// payload does not match is refused with `InvalidAction` and the state
    /// is unchanged; an accepted action commits exactly the transition
    /// `step_rel` describes and reports whether observers saw a change.
    pub fn on_action(&mut self, player: PlayerId, action: TaskAction) -> (r: Result<
        bool,
        GameError,
    >)
        requires
            old(self).wf(),
        ensures
            final(self).wf(),
            r is Err ==> *final(self) == *old(self) && (r matches Err(e) && e
                == GameError::InvalidAction),
            r is Ok <==> action_valid(*old(self), player@, action),
            r matches Ok(ch) ==> step_rel(*old(self), *final(self), player@, action, ch),
    {
        match action {
            TaskAction::Start => {
                let n = self.board.players.len();
                if n < 5 || n > 10 {
                    return Err(GameError::InvalidAction);
                }
                self.start();
                Ok(true)
            },
            TaskAction::ChooseChancellor(chosen) => {
                if self.check_win_conditions().is_some() {
                    return Err(GameError::InvalidAction);
                }
                if !matches!(self.state, DynamicState::ChooseChancellor { .. }) {
                    return Err(GameError::InvalidAction);
                }
                self.nominate(player, chosen)
            },
            TaskAction::Vote(agree) => {
                if self.check_win_conditions().is_some() {
                    return Err(GameError::InvalidAction);
                }
                if !matches!(self.state, DynamicState::VoteChancellor { .. }) {
                    return Err(GameError::InvalidAction);
                }
                self.cast_vote(player, agree)
            },
            TaskAction::PickedLaws(keep, discard) => {
                if self.check_win_conditions().is_some() {
                    return Err(GameError::InvalidAction);
                }
                if matches!(self.state, DynamicState::PresidentChooseLaws { .. }) {
                    self.president_pick(player, keep, discard)
                } else if matches!(self.state, DynamicState::ChancellorChooseLaws { .. }) {
                    self.chancellor_pick(player, keep, discard)
                } else {
                    Err(GameError::InvalidAction)
                }
            },
            TaskAction::Veto(v) => {
                if self.check_win_conditions().is_some() {
                    return Err(GameError::InvalidAction);
                }
                if matches!(self.state, DynamicState::ChancellorChooseLaws { .. }) {
                    self.request_veto(player, v)
                } else if matches!(self.state, DynamicState::AskVeto { .. }) {
                    self.answer_veto(player, v)
                } else {
                    Err(GameError::InvalidAction)
                }
            },
            TaskAction::ExecuteAction(resp) => {
                if self.check_win_conditions().is_some() {
                    return Err(GameError::InvalidAction);
                }
                if !matches!(self.state, DynamicState::ExecutiveAction { .. }) {
                    return Err(GameError::InvalidAction);
                }
                self.execute_action(player, resp)
            },
        }
    }
}

} // verus!
