//! The view projector: per observer, a redacted snapshot of board and phase
//! honoring the information-hiding rules, leaking no more than the rules
//! permit.

use crate::board::{index_of_id, lemma_index_of_id_unique, BoardState};
use crate::game::{DynamicState, GameState};
use crate::types::{
    clone_ids, clone_votes, count_alive, event_eq, id_eq, Event, ExecutiveAction,
    ExecutiveActionTask, Faction, Player, PlayerId, Role, User,
};
use vstd::prelude::*;

verus! {

/// Everything one observer is allowed to see.
#[derive(Debug)]
pub struct GameView {
    pub board: BoardStateView,
    pub state: StateView,
    pub me: PlayerView,
}

/// The current phase with other players' in-progress secrets (drawn laws,
/// raw ballots) stripped, keeping the public metadata.
#[derive(Debug)]
pub enum StateView {
    Uninit,
    ChooseChancellor { options: Vec<PlayerId> },
    VoteChancellor { canidate: PlayerId },
    PresidentChooseLaws { chancellor: PlayerId },
    ChancellorChooseLaws { can_ask_veto: bool, chancellor: PlayerId },
    ExecutiveAction { chancellor: PlayerId, action: ExecutiveActionTask },
    AskVeto { chancellor: PlayerId },
}

/// The board as one observer sees it: pile sizes instead of contents, the
/// full history, and per-player role knowledge gated by the rules.
#[derive(Debug)]
pub struct BoardStateView {
    pub players: Vec<PlayerView>,
    pub draw_pile: usize,
    pub discard_pile: usize,
    pub executive_actions: Vec<Option<ExecutiveAction>>,
    pub voting_result: Option<Vec<Option<bool>>>,
    pub passed_fasho_laws: usize,
    pub passed_liberal_laws: usize,
    pub no_goverment_counter: usize,
    pub previous_president: Option<PlayerId>,
    pub previous_chancellor: Option<PlayerId>,
    pub current_president: PlayerId,
    pub next_president_by_rules: Option<PlayerId>,
    pub history: Vec<Event>,
}

/// One roster member as one observer sees them: role and faction are present
/// only when the rules grant that observer the knowledge.
#[derive(Debug)]
pub struct PlayerView {
    pub id: PlayerId,
    pub user: User,
    pub alive: bool,
    pub role: Option<Role>,
    pub faction: Option<Faction>,
}

/// When `of` may see `target`'s role: it is their own, they are an ordinary
/// fascist (fascists know each other and their leader), or they are the
/// fascist leader in a small game — with fewer than seven players living the
/// leader knows their team, with seven or more that knowledge is withheld
/// from the leader alone.
pub open spec fn role_visible(target: Player, of: Player, fewer_than_seven: bool) -> bool {
    ||| of.id@ == target.id@
    ||| of.role == Role::Fasho
    ||| (of.role == Role::FashoHitler && fewer_than_seven)
}

/// The projection of one roster member for one observer, before any one-shot
/// reveal is applied.
pub open spec fn spec_player_view(target: Player, of: Player, fewer_than_seven: bool) -> PlayerView {
    PlayerView {
        id: target.id,
        user: target.user,
        alive: target.alive,
        role: if role_visible(target, of, fewer_than_seven) {
            Some(target.role)
        } else {
            None
        },
        faction: if role_visible(target, of, fewer_than_seven) {
            Some(target.role.spec_faction())
        } else {
            None
        },
    }
}

/// The projection of roster position `i` for observer `of`, with the
/// outstanding one-shot faction reveal applied when it names exactly this
/// observer and this target.
pub open spec fn spec_projected(board: BoardState, of: Player, i: int) -> PlayerView {
    let base = spec_player_view(board.players@[i], of, count_alive(board.players@) < 7);
    match board.revealed_factions {
        Some(t3) => if t3.0@ == of.id@ && board.players@[i].id@ == t3.1@ {
            PlayerView {
                id: base.id,
                user: base.user,
                alive: base.alive,
                role: base.role,
                faction: Some(t3.2),
            }
        } else {
            base
        },
        None => base,
    }
}

/// `r` is the redacted projection of phase `s`: other players' in-progress
/// secrets (drawn laws, the raw ballot) are dropped, the public metadata is
/// kept.
pub open spec fn state_view_ok(s: DynamicState, r: StateView) -> bool {
    match s {
        DynamicState::Uninit => r is Uninit,
        DynamicState::ChooseChancellor { options } => r matches StateView::ChooseChancellor {
            options: o,
        } && o@ == options@,
        DynamicState::VoteChancellor { chancellor, .. } => r matches StateView::VoteChancellor {
            canidate,
        } && canidate == chancellor,
        DynamicState::PresidentChooseLaws { chancellor, .. } => r matches
            StateView::PresidentChooseLaws { chancellor: c } && c == chancellor,
        DynamicState::ChancellorChooseLaws { can_ask_veto, chancellor, .. } => r matches
            StateView::ChancellorChooseLaws { can_ask_veto: v, chancellor: c } && v == can_ask_veto
            && c == chancellor,
        DynamicState::ExecutiveAction { chancellor, action } => r matches
            StateView::ExecutiveAction { chancellor: c, action: a } && c == chancellor
            && crate::types::ea_task_eq(a, action),
        DynamicState::AskVeto { chancellor, .. } => r matches StateView::AskVeto {
            chancellor: c,
        } && c == chancellor,
    }
}

/// `r` is the projection of board `b` for observer `of`: pile sizes instead
/// of contents, every roster member projected under the role-knowledge rules
/// (with the one-shot reveal applied for its observer), and the public
/// economy carried over unchanged.
pub open spec fn board_view_ok(b: BoardState, of: Player, r: BoardStateView) -> bool {
    &&& r.players@.len() == b.players@.len()
    &&& forall|i: int| 0 <= i < b.players@.len() ==> r.players@[i] == spec_projected(b, of, i)
    &&& r.draw_pile == b.draw_pile@.len()
    &&& r.discard_pile == b.discard_pile@.len()
    &&& r.executive_actions@ == b.executive_actions@
    &&& match b.voting_result {
        Some(v) => r.voting_result matches Some(v2) && v2@ == v@,
        None => r.voting_result is None,
    }
    &&& r.passed_fasho_laws == b.passed_fasho_laws
    &&& r.passed_liberal_laws == b.passed_liberal_laws
    &&& r.no_goverment_counter == b.no_goverment_counter
    &&& r.previous_president == b.previous_president
    &&& r.previous_chancellor == b.previous_chancellor
    &&& r.current_president == b.current_president
    &&& r.next_president_by_rules == b.next_president_by_rules
    &&& r.history@.len() == b.history@.len()
    &&& forall|i: int|
        0 <= i < b.history@.len() ==> event_eq(#[trigger] r.history@[i], b.history@[i])
}

impl Player {
    /// Project this player for observer `of`.
    pub fn view(&self, of: &Player, less_than_seven: bool) -> (r: PlayerView)
        ensures
            r == spec_player_view(*self, *of, less_than_seven),
    {
        let is_self = id_eq(&of.id, &self.id);
        let alt_knowledge = matches!(of.role, Role::FashoHitler) && less_than_seven;
        let visible = is_self || alt_knowledge || matches!(of.role, Role::Fasho);
        PlayerView {
            id: self.id.clone(),
            user: self.user.clone(),
            alive: self.alive,
            role: if visible {
                Some(self.role)
            } else {
                None
            },
            faction: if visible {
                Some(self.role.faction())
            } else {
                None
            },
        }
    }
}

impl DynamicState {
    /// Project the phase for observer `of`: payload that belongs to other
    /// players (drawn laws, the raw ballot) is dropped; public metadata is
    /// kept.
    pub fn view(&self, of: &Player) -> (r: StateView)
        ensures
            state_view_ok(*self, r),
    {
        match self {
            DynamicState::Uninit => StateView::Uninit,
            DynamicState::ChooseChancellor { options } => StateView::ChooseChancellor {
                options: clone_ids(options),
            },
            DynamicState::VoteChancellor { chancellor, .. } => StateView::VoteChancellor {
                canidate: chancellor.clone(),
            },
            DynamicState::PresidentChooseLaws { chancellor, .. } => StateView::PresidentChooseLaws {
                chancellor: chancellor.clone(),
            },
            DynamicState::ChancellorChooseLaws { can_ask_veto, chancellor, .. } => StateView::ChancellorChooseLaws {
                can_ask_veto: *can_ask_veto,
                chancellor: chancellor.clone(),
            },
            DynamicState::ExecutiveAction { chancellor, action } => StateView::ExecutiveAction {
                chancellor: chancellor.clone(),
                action: action.clone(),
            },
            DynamicState::AskVeto { chancellor, .. } => StateView::AskVeto {
                chancellor: chancellor.clone(),
            },
        }
    }
}

impl BoardState {
    /// Project the board for observer `of`: pile sizes instead of contents,
    /// every player projected under the role-knowledge rules, and the
    /// one-shot reveal applied for its observer alone.
    pub fn view(&self, of: &Player) -> (r: BoardStateView)
        requires
            self.ids_distinct(),
        ensures
            board_view_ok(*self, *of, r),
    {
        let fewer = self.alive_count() < 7;
        let mut players: Vec<PlayerView> = Vec::new();
        let mut i: usize = 0;
        while i < self.players.len()
            invariant
                i <= self.players@.len(),
                players@.len() == i,
                forall|k: int|
                    0 <= k < i ==> players@[k] == spec_player_view(
                        self.players@[k],
                        *of,
                        count_alive(self.players@) < 7,
                    ),
                fewer == (count_alive(self.players@) < 7),
            decreases self.players@.len() - i,
        {
            players.push(self.players[i].view(of, fewer));
            i = i + 1;
        }
        if let Some((knower, target, target_faction)) = &self.revealed_factions {
            if id_eq(knower, &of.id) {
                match self.find_player(target) {
                    Some(t) => {
                        proof {
                            lemma_index_of_id_unique(self.players@, target@, t as int);
                        }
                        let pv = &mut players[t];
                        pv.faction = Some(*target_faction);
                    },
                    None => {},
                }
            }
        }
        let mut history: Vec<Event> = Vec::new();
        let mut h: usize = 0;
        while h < self.history.len()
            invariant
                h <= self.history@.len(),
                history@.len() == h,
                forall|k: int|
                    0 <= k < h ==> event_eq(#[trigger] history@[k], self.history@[k]),
            decreases self.history@.len() - h,
        {
            history.push(self.history[h].clone());
            h = h + 1;
        }
        let mut actions: Vec<Option<ExecutiveAction>> = Vec::new();
        let mut a: usize = 0;
        while a < self.executive_actions.len()
            invariant
                a <= self.executive_actions@.len(),
                actions@ == self.executive_actions@.take(a as int),
            decreases self.executive_actions@.len() - a,
        {
            actions.push(self.executive_actions[a]);
            proof {
                assert(self.executive_actions@.take(a + 1) =~= self.executive_actions@.take(
                    a as int,
                ).push(self.executive_actions@[a as int]));
            }
            a = a + 1;
        }
        proof {
            assert(self.executive_actions@.take(self.executive_actions@.len() as int)
                =~= self.executive_actions@);
        }
        BoardStateView {
            players,
            draw_pile: self.draw_pile.len(),
            discard_pile: self.discard_pile.len(),
            executive_actions: actions,
            voting_result: match &self.voting_result {
                Some(v) => Some(clone_votes(v)),
                None => None,
            },
            passed_fasho_laws: self.passed_fasho_laws,
            passed_liberal_laws: self.passed_liberal_laws,
            no_goverment_counter: self.no_goverment_counter,
            previous_president: match &self.previous_president {
                Some(p) => Some(p.clone()),
                None => None,
            },
            previous_chancellor: match &self.previous_chancellor {
                Some(p) => Some(p.clone()),
                None => None,
            },
            current_president: self.current_president.clone(),
            next_president_by_rules: match &self.next_president_by_rules {
                Some(p) => Some(p.clone()),
                None => None,
            },
            history,
        }
    }
}

impl GameState {
    /// The full view for the observer named `of`: their projected board, the
    /// redacted phase, and their own (always self-visible) player card.
    /// Observers not on the roster see nothing.
    pub fn view(&self, of: &PlayerId) -> (r: Option<GameView>)
        requires
            self.board.ids_distinct(),
        ensures
            r is Some <==> self.board.has_player(of@),
            r matches Some(gv) ==> {
                let w = index_of_id(self.board.players@, of@);
                &&& gv.me == spec_player_view(
                    self.board.players@[w],
                    self.board.players@[w],
                    false,
                )
                &&& board_view_ok(self.board, self.board.players@[w], gv.board)
                &&& state_view_ok(self.state, gv.state)
            },
    {
        match self.board.find_player(of) {
            None => None,
            Some(w) => {
                proof {
                    lemma_index_of_id_unique(self.board.players@, of@, w as int);
                }
                let player = self.board.players[w].clone();
                Some(
                    GameView {
                        board: self.board.view(&player),
                        state: self.state.view(&player),
                        me: player.view(&player, false),
                    },
                )
            },
        }
    }
}

} // verus!
