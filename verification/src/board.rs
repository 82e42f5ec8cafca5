//! The board engine: the persistent game economy — roster, card piles, law
//! tallies, term-limit memory, executive-action slots — and its pure
//! state-transition operations.

use crate::game::DynamicState;
use crate::rng;
use crate::types::{
    count_alive, id_eq, Event, ExecutiveAction, ExecutiveActionTask, Faction, Law, Player,
    PlayerId, User,
};
use vstd::prelude::*;

verus! {

broadcast use vstd::seq_lib::group_to_multiset_ensures, vstd::multiset::group_multiset_axioms;

/// The authoritative game economy. The deck invariant ties the two piles to
/// the two law tallies: outside an in-flight draw their sum is the full
/// 17-card deck.
#[derive(Debug)]
pub struct BoardState {
    /// Roster, order fixed at game start; president rotation walks it.
    pub players: Vec<Player>,
    pub draw_pile: Vec<Law>,
    pub discard_pile: Vec<Law>,
    /// Slot `k` holds the power unlocked by the `k + 1`-th fascist law.
    pub executive_actions: Vec<Option<ExecutiveAction>>,
    /// The ballot of the last resolved election, by roster position.
    pub voting_result: Option<Vec<Option<bool>>>,
    pub passed_fasho_laws: usize,
    pub passed_liberal_laws: usize,
    /// Consecutive failed elections; a third forces a law.
    pub no_goverment_counter: usize,
    /// Term-limit memory of the last elected government.
    pub previous_president: Option<PlayerId>,
    pub previous_chancellor: Option<PlayerId>,
    pub current_president: PlayerId,
    /// Override set by the determine-president power; consumed by the next
    /// rotation.
    pub next_president_by_rules: Option<PlayerId>,
    /// Append-only log of domain events.
    pub history: Vec<Event>,
    /// At most one outstanding faction reveal: (observer, target, faction).
    pub revealed_factions: Option<(PlayerId, PlayerId, Faction)>,
}

/// Whether a player may be nominated chancellor: alive, not the sitting
/// president, and not term-limited by the previous government.
pub open spec fn eligible_chancellor(
    p: Player,
    president: Seq<char>,
    prev_president: Option<PlayerId>,
    prev_chancellor: Option<PlayerId>,
) -> bool {
    &&& p.alive
    &&& p.id@ != president
    &&& match prev_president {
        Some(q) => p.id@ != q@,
        None => true,
    }
    &&& match prev_chancellor {
        Some(q) => p.id@ != q@,
        None => true,
    }
}

/// The nomination options a president opens with: the eligible players, in
/// roster order.
pub open spec fn chancellor_options(
    players: Seq<Player>,
    president: Seq<char>,
    prev_president: Option<PlayerId>,
    prev_chancellor: Option<PlayerId>,
) -> Seq<PlayerId>
    decreases players.len(),
{
    if players.len() == 0 {
        Seq::empty()
    } else {
        chancellor_options(players.drop_last(), president, prev_president, prev_chancellor) + (
        if eligible_chancellor(players.last(), president, prev_president, prev_chancellor) {
            seq![players.last().id]
        } else {
            Seq::empty()
        })
    }
}

/// The roster position holding the player named `id`.
pub open spec fn index_of_id(players: Seq<Player>, id: Seq<char>) -> int {
    choose|i: int| 0 <= i < players.len() && #[trigger] players[i].id@ == id
}

/// With distinct ids, `index_of_id` is pinned to any position whose id
/// matches.
pub proof fn lemma_index_of_id_unique(players: Seq<Player>, id: Seq<char>, i: int)
    requires
        0 <= i < players.len(),
        players[i].id@ == id,
        forall|a: int, b: int| 0 <= a < b < players.len() ==> players[a].id@ != players[b].id@,
    ensures
        index_of_id(players, id) == i,
{
    let w = index_of_id(players, id);
    assert(0 <= w < players.len() && players[w].id@ == id);
    if w < i {
        assert(players[w].id@ != players[i].id@);
    }
    if i < w {
        assert(players[i].id@ != players[w].id@);
    }
}

/// `i` is the first living roster position strictly clockwise of `start`,
/// wrapping past the end of the roster; `start` itself is reached last.
pub open spec fn is_first_alive_after(players: Seq<Player>, start: int, i: int) -> bool {
    &&& 0 <= i < players.len()
    &&& players[i].alive
    &&& if i > start {
        forall|k: int| start < k < i ==> !players[k].alive
    } else {
        &&& forall|k: int| start < k < players.len() ==> !players[k].alive
        &&& forall|k: int| 0 <= k < i ==> !players[k].alive
    }
}

impl BoardState {
    /// No two roster members share an id.
    pub open spec fn ids_distinct(&self) -> bool {
        forall|i: int, j: int|
            0 <= i < j < self.players@.len() ==> self.players@[i].id@ != self.players@[j].id@
    }

    /// `id` names a roster member.
    pub open spec fn has_player(&self, id: Seq<char>) -> bool {
        exists|i: int| 0 <= i < self.players@.len() && #[trigger] self.players@[i].id@ == id
    }

    /// `id` names a living roster member.
    pub open spec fn is_alive_id(&self, id: Seq<char>) -> bool {
        exists|i: int|
            0 <= i < self.players@.len() && #[trigger] self.players@[i].id@ == id
                && self.players@[i].alive
    }

    /// Someone is still alive.
    pub open spec fn someone_alive(&self) -> bool {
        exists|i: int| 0 <= i < self.players@.len() && #[trigger] self.players@[i].alive
    }

    /// Cards in the piles plus laws already passed.
    pub open spec fn deck_total(&self) -> int {
        self.draw_pile@.len() + self.discard_pile@.len() + self.passed_fasho_laws
            + self.passed_liberal_laws
    }

    /// Well-formedness that holds from construction on.
    pub open spec fn wf(&self) -> bool {
        &&& self.ids_distinct()
        &&& self.executive_actions@.len() == 6
    }

    /// Well-formedness of a board whose game has started: the full-deck
    /// invariant, tally bounds, and living office holders.
    pub open spec fn wf_started(&self) -> bool {
        &&& self.wf()
        &&& 5 <= self.players@.len() <= 10
        &&& self.passed_fasho_laws <= 6
        &&& self.passed_liberal_laws <= 5
        &&& self.no_goverment_counter <= 2
        &&& self.is_alive_id(self.current_president@)
        &&& match self.next_president_by_rules {
            Some(p) => self.is_alive_id(p@),
            None => true,
        }
        &&& match self.revealed_factions {
            Some(t) => self.has_player(t.0@) && self.has_player(t.1@),
            None => true,
        }
    }

    /// The roster position of the player named `id`; the id must be on the
    /// roster.
    pub fn index(&self, id: &PlayerId) -> (r: usize)
        requires
            self.has_player(id@),
        ensures
            r < self.players@.len(),
            self.players@[r as int].id@ == id@,
    {
        let mut i: usize = 0;
        while i < self.players.len()
            invariant
                i <= self.players@.len(),
                self.has_player(id@),
                forall|k: int| 0 <= k < i ==> self.players@[k].id@ != id@,
            decreases self.players@.len() - i,
        {
            if id_eq(&self.players[i].id, id) {
                return i;
            }
            i = i + 1;
        }
        proof {
            assert(false);
        }
        unreached()
    }

    /// The first roster position of the player named `id`, if any.
    pub fn find_player(&self, id: &PlayerId) -> (r: Option<usize>)
        ensures
            match r {
                Some(i) => i < self.players@.len() && self.players@[i as int].id@ == id@
                    && forall|k: int| 0 <= k < i ==> self.players@[k].id@ != id@,
                None => !self.has_player(id@),
            },
    {
        let mut i: usize = 0;
        while i < self.players.len()
            invariant
                i <= self.players@.len(),
                forall|k: int| 0 <= k < i ==> self.players@[k].id@ != id@,
            decreases self.players@.len() - i,
        {
            if id_eq(&self.players[i].id, id) {
                return Some(i);
            }
            i = i + 1;
        }
        None
    }

    /// The first roster position whose reconnection credential is `key`, if
    /// any.
    pub fn find_by_key(&self, key: &String) -> (r: Option<usize>)
        ensures
            match r {
                Some(i) => i < self.players@.len() && self.players@[i as int].access_key@ == key@
                    && forall|k: int| 0 <= k < i ==> self.players@[k].access_key@ != key@,
                None => forall|k: int|
                    0 <= k < self.players@.len() ==> (#[trigger] self.players@[k]).access_key@
                        != key@,
            },
    {
        let mut i: usize = 0;
        while i < self.players.len()
            invariant
                i <= self.players@.len(),
                forall|k: int| 0 <= k < i ==> self.players@[k].access_key@ != key@,
            decreases self.players@.len() - i,
        {
            if self.players[i].access_key == *key {
                return Some(i);
            }
            i = i + 1;
        }
        None
    }

    /// The first roster position holding credential `key` whose session is
    /// not live, if any.
    pub fn find_reconnectable(&self, key: &String) -> (r: Option<usize>)
        ensures
            match r {
                Some(i) => i < self.players@.len() && self.players@[i as int].access_key@ == key@
                    && !self.players@[i as int].connected,
                None => forall|k: int|
                    0 <= k < self.players@.len() ==> !((#[trigger] self.players@[k]).access_key@
                        == key@ && !self.players@[k].connected),
            },
    {
        let mut i: usize = 0;
        while i < self.players.len()
            invariant
                i <= self.players@.len(),
                forall|k: int|
                    0 <= k < i ==> !((#[trigger] self.players@[k]).access_key@ == key@
                        && !self.players@[k].connected),
            decreases self.players@.len() - i,
        {
            if self.players[i].access_key == *key && !self.players[i].connected {
                return Some(i);
            }
            i = i + 1;
        }
        None
    }

    /// The living members of the roster, in roster order.
    pub fn players_alive(&self) -> (r: Vec<Player>)
        ensures
            r@ == alive_seq(self.players@),
    {
        let mut r: Vec<Player> = Vec::new();
        let mut i: usize = 0;
        while i < self.players.len()
            invariant
                i <= self.players@.len(),
                r@ == alive_seq(self.players@.take(i as int)),
            decreases self.players@.len() - i,
        {
            proof {
                assert(self.players@.take(i + 1).drop_last() =~= self.players@.take(i as int));
                assert(self.players@.take(i + 1).last() == self.players@[i as int]);
            }
            if self.players[i].alive {
                r.push(self.players[i].clone());
                proof {
                    assert(r@ =~= alive_seq(self.players@.take(i + 1)));
                }
            }
            i = i + 1;
        }
        proof {
            assert(self.players@.take(self.players@.len() as int) =~= self.players@);
        }
        r
    }

    /// How many roster members are alive.
    pub fn alive_count(&self) -> (r: usize)
        ensures
            r == count_alive(self.players@),
    {
        let mut r: usize = 0;
        let mut i: usize = 0;
        while i < self.players.len()
            invariant
                i <= self.players@.len(),
                r == count_alive(self.players@.take(i as int)),
                r <= i,
            decreases self.players@.len() - i,
        {
            proof {
                assert(self.players@.take(i + 1).drop_last() =~= self.players@.take(i as int));
                assert(self.players@.take(i + 1).last() == self.players@[i as int]);
            }
            if self.players[i].alive {
                r = r + 1;
            }
            i = i + 1;
        }
        proof {
            assert(self.players@.take(self.players@.len() as int) =~= self.players@);
        }
        r
    }

    /// An empty board over a fresh roster: no piles, no tallies, no history.
    /// Distinct display names are required because the name becomes the id.
    pub fn new(users: Vec<User>) -> (r: Self)
        requires
            forall|i: int, j: int|
                0 <= i < j < users@.len() ==> users@[i].name@ != users@[j].name@,
        ensures
            r.wf(),
            r.players@.len() == users@.len(),
            forall|i: int|
                0 <= i < users@.len() ==> {
                    &&& (#[trigger] r.players@[i]).id == users@[i].name
                    &&& r.players@[i].user == users@[i]
                    &&& r.players@[i].role == crate::types::Role::Liberal
                    &&& r.players@[i].alive
                    &&& r.players@[i].connected
                },
            r.draw_pile@.len() == 0,
            r.discard_pile@.len() == 0,
            r.passed_fasho_laws == 0,
            r.passed_liberal_laws == 0,
            r.no_goverment_counter == 0,
            r.previous_president is None,
            r.previous_chancellor is None,
            r.next_president_by_rules is None,
            r.voting_result is None,
            r.revealed_factions is None,
            r.history@.len() == 0,
            r.current_president@ == Seq::<char>::empty(),
            r.executive_actions@.len() == 6,
            forall|i: int| 0 <= i < 6 ==> r.executive_actions@[i] is None,
    {
        let mut players: Vec<Player> = Vec::new();
        let mut i: usize = 0;
        while i < users.len()
            invariant
                i <= users@.len(),
                players@.len() == i,
                forall|k: int|
                    0 <= k < i ==> {
                        &&& (#[trigger] players@[k]).id == users@[k].name
                        &&& players@[k].user == users@[k]
                        &&& players@[k].role == crate::types::Role::Liberal
                        &&& players@[k].alive
                        &&& players@[k].connected
                    },
            decreases users@.len() - i,
        {
            players.push(Player::new(users[i].clone()));
            i = i + 1;
        }
        let mut actions: Vec<Option<ExecutiveAction>> = Vec::new();
        let mut j: usize = 0;
        while j < 6
            invariant
                actions@.len() == j,
                j <= 6,
                forall|k: int| 0 <= k < j ==> actions@[k] is None,
            decreases 6 - j,
        {
            actions.push(None);
            j = j + 1;
        }
        BoardState {
            players,
            draw_pile: Vec::new(),
            discard_pile: Vec::new(),
            executive_actions: actions,
            voting_result: None,
            passed_fasho_laws: 0,
            passed_liberal_laws: 0,
            no_goverment_counter: 0,
            previous_president: None,
            previous_chancellor: None,
            current_president: String::new(),
            next_president_by_rules: None,
            history: Vec::new(),
            revealed_factions: None,
        }
    }
}

/// Everything but the two card piles is unchanged.
pub open spec fn same_except_piles(pre: BoardState, post: BoardState) -> bool {
    &&& post.players == pre.players
    &&& post.executive_actions == pre.executive_actions
    &&& post.voting_result == pre.voting_result
    &&& post.passed_fasho_laws == pre.passed_fasho_laws
    &&& post.passed_liberal_laws == pre.passed_liberal_laws
    &&& post.no_goverment_counter == pre.no_goverment_counter
    &&& post.previous_president == pre.previous_president
    &&& post.previous_chancellor == pre.previous_chancellor
    &&& post.current_president == pre.current_president
    &&& post.next_president_by_rules == pre.next_president_by_rules
    &&& post.history == pre.history
    &&& post.revealed_factions == pre.revealed_factions
}

/// Everything but the roster is unchanged.
pub open spec fn same_except_roster(pre: BoardState, post: BoardState) -> bool {
    &&& post.draw_pile == pre.draw_pile
    &&& post.discard_pile == pre.discard_pile
    &&& post.executive_actions == pre.executive_actions
    &&& post.voting_result == pre.voting_result
    &&& post.passed_fasho_laws == pre.passed_fasho_laws
    &&& post.passed_liberal_laws == pre.passed_liberal_laws
    &&& post.no_goverment_counter == pre.no_goverment_counter
    &&& post.previous_president == pre.previous_president
    &&& post.previous_chancellor == pre.previous_chancellor
    &&& post.current_president == pre.current_president
    &&& post.next_president_by_rules == pre.next_president_by_rules
    &&& post.history == pre.history
    &&& post.revealed_factions == pre.revealed_factions
}

/// Everything but the presidency (sitting president and rotation override) is
/// unchanged.
pub open spec fn same_except_rotation(pre: BoardState, post: BoardState) -> bool {
    &&& post.players == pre.players
    &&& post.draw_pile == pre.draw_pile
    &&& post.discard_pile == pre.discard_pile
    &&& post.executive_actions == pre.executive_actions
    &&& post.voting_result == pre.voting_result
    &&& post.passed_fasho_laws == pre.passed_fasho_laws
    &&& post.passed_liberal_laws == pre.passed_liberal_laws
    &&& post.no_goverment_counter == pre.no_goverment_counter
    &&& post.previous_president == pre.previous_president
    &&& post.previous_chancellor == pre.previous_chancellor
    &&& post.history == pre.history
    &&& post.revealed_factions == pre.revealed_factions
}

/// Everything an enactment cannot touch is unchanged: roster, piles, slot
/// table, cached ballot, term-limit memory and the outstanding reveal.
pub open spec fn same_except_enactment(pre: BoardState, post: BoardState) -> bool {
    &&& post.players == pre.players
    &&& post.draw_pile == pre.draw_pile
    &&& post.discard_pile == pre.discard_pile
    &&& post.executive_actions == pre.executive_actions
    &&& post.voting_result == pre.voting_result
    &&& post.previous_president == pre.previous_president
    &&& post.previous_chancellor == pre.previous_chancellor
    &&& post.revealed_factions == pre.revealed_factions
}

/// The rotation relation: the new president is the consumed override if one
/// was set, else the first living player clockwise of the old president, and
/// a fresh nomination opens for them.
pub open spec fn rotated(pre: BoardState, post: BoardState, r: DynamicState) -> bool {
    &&& match pre.next_president_by_rules {
        Some(p) => post.current_president == p,
        None => exists|i: int|
            #[trigger] is_first_alive_after(
                pre.players@,
                index_of_id(pre.players@, pre.current_president@),
                i,
            ) && post.current_president == pre.players@[i].id,
    }
    &&& post.next_president_by_rules is None
    &&& r matches DynamicState::ChooseChancellor { options } && options@ == chancellor_options(
        pre.players@,
        post.current_president@,
        pre.previous_president,
        pre.previous_chancellor,
    )
}

/// How a draw relates the piles before and after it: when the draw pile
/// could serve the request alone, the cards come off its front; otherwise the
/// discard pile was folded in and reshuffled, so only the multiset of cards
/// is determined. No card is created or lost either way.
pub open spec fn drawn_from(
    pre_draw: Seq<Law>,
    pre_discard: Seq<Law>,
    post_draw: Seq<Law>,
    post_discard: Seq<Law>,
    drawn: Seq<Law>,
) -> bool {
    &&& post_draw.len() + post_discard.len() + drawn.len() == pre_draw.len() + pre_discard.len()
    &&& drawn.to_multiset().add(post_draw.to_multiset()).add(post_discard.to_multiset())
        == pre_draw.to_multiset().add(pre_discard.to_multiset())
    &&& pre_draw.len() >= drawn.len() ==> {
        &&& drawn == pre_draw.take(drawn.len() as int)
        &&& post_draw == pre_draw.skip(drawn.len() as int)
        &&& post_discard == pre_discard
    }
    &&& pre_draw.len() < drawn.len() ==> {
        &&& post_discard.len() == 0
        &&& drawn.to_multiset().add(post_draw.to_multiset()) == pre_draw.to_multiset().add(
            pre_discard.to_multiset(),
        )
    }
}

/// The executive-action task that announces `action`, with a card reveal
/// snapshotting up to the next three cards of the draw pile.
pub open spec fn ea_task_for(action: ExecutiveAction, draw: Seq<Law>, t: ExecutiveActionTask) -> bool {
    match action {
        ExecutiveAction::Kill => t is Kill,
        ExecutiveAction::RevealFaction => t is RevealFaction,
        ExecutiveAction::DeterminePresident => t is DeterminePresident,
        ExecutiveAction::RevealNextCards => t matches ExecutiveActionTask::RevealNextCards(v)
            && v@ == draw.take(
            if draw.len() < 3 {
                draw.len() as int
            } else {
                3
            },
        ),
    }
}

impl BoardState {
    /// Draw `n` laws from the front of the draw pile; when the draw pile
    /// alone cannot serve them, the discard pile is folded back in and the
    /// whole pile reshuffled first.
    pub fn draw_laws(&mut self, n: usize) -> (r: Vec<Law>)
        requires
            1 <= n <= 3,
            old(self).draw_pile@.len() + old(self).discard_pile@.len() >= n,
        ensures
            r@.len() == n,
            drawn_from(
                old(self).draw_pile@,
                old(self).discard_pile@,
                final(self).draw_pile@,
                final(self).discard_pile@,
                r@,
            ),
            same_except_piles(*old(self), *final(self)),
    {
        let ghost pre_cards = self.draw_pile@.to_multiset().add(self.discard_pile@.to_multiset());
        if self.draw_pile.len() < n {
            let mut moved: Vec<Law> = Vec::new();
            core::mem::swap(&mut moved, &mut self.discard_pile);
            self.draw_pile.append(&mut moved);
            rng::shuffle(&mut self.draw_pile);
            proof {
                vstd::seq_lib::lemma_multiset_commutative(
                    old(self).draw_pile@,
                    old(self).discard_pile@,
                );
            }
        }
        let ghost pile0 = self.draw_pile@;
        let mut pile: Vec<Law> = Vec::new();
        core::mem::swap(&mut pile, &mut self.draw_pile);
        let mut r: Vec<Law> = Vec::new();
        let mut k: usize = 0;
        while k < n
            invariant
                k <= n,
                n <= pile0.len(),
                r@ == pile0.take(k as int),
                pile@ == pile0.skip(k as int),
            decreases n - k,
        {
            let x = pile.remove(0);
            r.push(x);
            proof {
                assert(pile0.skip(k as int).remove(0) =~= pile0.skip(k + 1));
                assert(pile0.take(k as int).push(pile0.skip(k as int)[0]) =~= pile0.take(k + 1));
            }
            k = k + 1;
        }
        core::mem::swap(&mut pile, &mut self.draw_pile);
        proof {
            assert(pile0.take(n as int) + pile0.skip(n as int) =~= pile0);
            vstd::seq_lib::lemma_multiset_commutative(pile0.take(n as int), pile0.skip(n as int));
            assert(r@.to_multiset().add(self.draw_pile@.to_multiset()) == pile0.to_multiset());
            if old(self).draw_pile@.len() < n {
                assert(r@.to_multiset().add(self.draw_pile@.to_multiset()).add(
                    self.discard_pile@.to_multiset(),
                ) =~= pre_cards);
            } else {
                vstd::seq_lib::lemma_multiset_commutative(
                    old(self).draw_pile@,
                    old(self).discard_pile@,
                );
                assert(r@.to_multiset().add(self.draw_pile@.to_multiset()).add(
                    self.discard_pile@.to_multiset(),
                ) =~= pre_cards);
            }
        }
        r
    }

    /// Install `president` as the sitting president and open nomination: the
    /// candidates are the living players other than the new president and the
    /// term-limited previous government, in roster order.
    pub fn select_president(&mut self, president: PlayerId) -> (r: DynamicState)
        ensures
            final(self).current_president == president,
            same_except_rotation(*old(self), *final(self)),
            final(self).next_president_by_rules == old(self).next_president_by_rules,
            r matches DynamicState::ChooseChancellor { options } && options@ == chancellor_options(
                old(self).players@,
                president@,
                old(self).previous_president,
                old(self).previous_chancellor,
            ),
    {
        let mut options: Vec<PlayerId> = Vec::new();
        let mut i: usize = 0;
        while i < self.players.len()
            invariant
                i <= self.players@.len(),
                *self == *old(self),
                options@ == chancellor_options(
                    self.players@.take(i as int),
                    president@,
                    self.previous_president,
                    self.previous_chancellor,
                ),
            decreases self.players@.len() - i,
        {
            proof {
                assert(self.players@.take(i + 1).drop_last() =~= self.players@.take(i as int));
                assert(self.players@.take(i + 1).last() == self.players@[i as int]);
            }
            let p = &self.players[i];
            let tl_president = match &self.previous_president {
                Some(q) => id_eq(&p.id, q),
                None => false,
            };
            let tl_chancellor = match &self.previous_chancellor {
                Some(q) => id_eq(&p.id, q),
                None => false,
            };
            if p.alive && !id_eq(&p.id, &president) && !tl_president && !tl_chancellor {
                options.push(self.players[i].id.clone());
                proof {
                    assert(options@ =~= chancellor_options(
                        self.players@.take(i + 1),
                        president@,
                        self.previous_president,
                        self.previous_chancellor,
                    ));
                }
            } else {
                proof {
                    assert(options@ =~= chancellor_options(
                        self.players@.take(i + 1),
                        president@,
                        self.previous_president,
                        self.previous_chancellor,
                    ));
                }
            }
            i = i + 1;
        }
        proof {
            assert(self.players@.take(self.players@.len() as int) =~= self.players@);
        }
        self.current_president = president;
        DynamicState::ChooseChancellor { options }
    }

    /// Resolve who presides next: the override left by the
    /// determine-president power, consumed here, or else the first living
    /// player clockwise of the sitting president.
    pub fn determine_next_president_in_line(&mut self) -> (r: PlayerId)
        requires
            old(self).has_player(old(self).current_president@),
            old(self).someone_alive(),
            old(self).ids_distinct(),
        ensures
            final(self).next_president_by_rules is None,
            match old(self).next_president_by_rules {
                Some(p) => r == p,
                None => exists|i: int|
                    #[trigger] is_first_alive_after(
                        old(self).players@,
                        index_of_id(old(self).players@, old(self).current_president@),
                        i,
                    ) && r == old(self).players@[i].id,
            },
            same_except_rotation(*old(self), *final(self)),
            final(self).current_president == old(self).current_president,
    {
        let mut taken: Option<PlayerId> = None;
        core::mem::swap(&mut taken, &mut self.next_president_by_rules);
        match taken {
            Some(next) => next,
            None => {
                let start = self.index(&self.current_president);
                let ghost s = self.players@;
                let ghost st = start as int;
                proof {
                    assert(index_of_id(s, old(self).current_president@) == st) by {
                        assert(s[st].id@ == old(self).current_president@);
                        let w = index_of_id(s, old(self).current_president@);
                        assert(0 <= w < s.len() && s[w].id@ == old(self).current_president@);
                        if w < st {
                            assert(s[w].id@ != s[st].id@);
                        }
                        if st < w {
                            assert(s[st].id@ != s[w].id@);
                        }
                    }
                }
                let len = self.players.len();
                let mut i: usize = start + 1;
                while i < len
                    invariant
                        *self == *old(self),
                        st == start as int,
                        start < i <= len,
                        len == s.len(),
                        s == self.players@,
                        st == index_of_id(s, old(self).current_president@),
                        old(self).next_president_by_rules is None,
                        forall|k: int| st < k < i ==> !s[k].alive,
                    decreases len - i,
                {
                    if self.players[i].alive {
                        proof {
                            assert(is_first_alive_after(s, st, i as int));
                        }
                        return self.players[i].id.clone();
                    }
                    i = i + 1;
                }
                let mut j: usize = 0;
                while j <= start
                    invariant
                        *self == *old(self),
                        st == start as int,
                        j <= start + 1,
                        start < len,
                        len == s.len(),
                        s == self.players@,
                        st == index_of_id(s, old(self).current_president@),
                        old(self).next_president_by_rules is None,
                        forall|k: int| st < k < len ==> !s[k].alive,
                        forall|k: int| 0 <= k < j ==> !s[k].alive,
                    decreases start + 1 - j,
                {
                    if self.players[j].alive {
                        proof {
                            assert(is_first_alive_after(s, st, j as int));
                        }
                        return self.players[j].id.clone();
                    }
                    j = j + 1;
                }
                proof {
                    let w = choose|i: int| 0 <= i < s.len() && #[trigger] s[i].alive;
                    assert(!s[w].alive);
                    assert(false);
                }
                unreached()
            },
        }
    }

    /// Rotate the presidency and open the next nomination.
    pub fn select_next_president(&mut self) -> (r: DynamicState)
        requires
            old(self).has_player(old(self).current_president@),
            old(self).someone_alive(),
            old(self).ids_distinct(),
        ensures
            rotated(*old(self), *final(self), r),
            same_except_rotation(*old(self), *final(self)),
            (match old(self).next_president_by_rules {
                Some(p) => old(self).is_alive_id(p@),
                None => true,
            }) ==> final(self).is_alive_id(final(self).current_president@),
    {
        let president = self.determine_next_president_in_line();
        self.select_president(president)
    }

    /// Enact a law: record it, bump its faction's tally, and either unlock
    /// the executive power of the new fascist count (under an elected
    /// chancellor), or clear the failed-election counter (forced enactment),
    /// and otherwise rotate the presidency.
    pub fn play_law(&mut self, law: Law, chancellor: Option<PlayerId>) -> (r: DynamicState)
        requires
            old(self).wf(),
            old(self).has_player(old(self).current_president@),
            old(self).someone_alive(),
            law == Law::Liberal ==> old(self).passed_liberal_laws < 5,
            law == Law::Fasho ==> old(self).passed_fasho_laws < 6,
        ensures
            same_except_enactment(*old(self), *final(self)),
            final(self).history@ == old(self).history@.push(
                Event::PlayedLaw {
                    president: old(self).current_president,
                    chancellor: chancellor,
                    law: law,
                },
            ),
            chancellor is Some ==> final(self).no_goverment_counter == old(
                self,
            ).no_goverment_counter,
            chancellor is None ==> final(self).no_goverment_counter == 0,
            law == Law::Liberal ==> {
                &&& final(self).passed_liberal_laws == old(self).passed_liberal_laws + 1
                &&& final(self).passed_fasho_laws == old(self).passed_fasho_laws
                &&& rotated(*old(self), *final(self), r)
            },
            law == Law::Fasho ==> {
                &&& final(self).passed_fasho_laws == old(self).passed_fasho_laws + 1
                &&& final(self).passed_liberal_laws == old(self).passed_liberal_laws
                &&& match chancellor {
                    Some(c) => {
                        &&& match old(self).executive_actions@[old(self).passed_fasho_laws as int] {
                            Some(action) => {
                                &&& r matches DynamicState::ExecutiveAction {
                                    chancellor: c2,
                                    action: t,
                                } && c2 == c && ea_task_for(action, old(self).draw_pile@, t)
                                &&& final(self).current_president == old(self).current_president
                                &&& final(self).next_president_by_rules == old(self).next_president_by_rules
                            },
                            None => rotated(*old(self), *final(self), r),
                        }
                    },
                    None => rotated(*old(self), *final(self), r),
                }
            },
            (match old(self).next_president_by_rules {
                Some(p) => old(self).is_alive_id(p@),
                None => true,
            }) && old(self).is_alive_id(old(self).current_president@) ==> final(self).is_alive_id(
                final(self).current_president@,
            ),
    {
        let pres = self.current_president.clone();
        let chanc = match &chancellor {
            Some(c) => Some(c.clone()),
            None => None,
        };
        self.history.push(Event::PlayedLaw { president: pres, chancellor: chanc, law });
        if matches!(&chancellor, None) {
            self.no_goverment_counter = 0;
        }
        match law {
            Law::Liberal => {
                self.passed_liberal_laws = self.passed_liberal_laws + 1;
                self.select_next_president()
            },
            Law::Fasho => {
                self.passed_fasho_laws = self.passed_fasho_laws + 1;
                match chancellor {
                    Some(c) => {
                        let slot = self.executive_actions[self.passed_fasho_laws - 1];
                        match slot {
                            Some(ExecutiveAction::Kill) => DynamicState::ExecutiveAction {
                                chancellor: c,
                                action: ExecutiveActionTask::Kill,
                            },
                            Some(ExecutiveAction::RevealFaction) => DynamicState::ExecutiveAction {
                                chancellor: c,
                                action: ExecutiveActionTask::RevealFaction,
                            },
                            Some(ExecutiveAction::DeterminePresident) => DynamicState::ExecutiveAction {
                                chancellor: c,
                                action: ExecutiveActionTask::DeterminePresident,
                            },
                            Some(ExecutiveAction::RevealNextCards) => {
                                let k = if self.draw_pile.len() < 3 {
                                    self.draw_pile.len()
                                } else {
                                    3
                                };
                                let mut peek: Vec<Law> = Vec::new();
                                let mut t: usize = 0;
                                while t < k
                                    invariant
                                        t <= k,
                                        k <= self.draw_pile@.len(),
                                        peek@ == self.draw_pile@.take(t as int),
                                    decreases k - t,
                                {
                                    peek.push(self.draw_pile[t]);
                                    proof {
                                        assert(self.draw_pile@.take(t + 1)
                                            =~= self.draw_pile@.take(t as int).push(
                                            self.draw_pile@[t as int],
                                        ));
                                    }
                                    t = t + 1;
                                }
                                DynamicState::ExecutiveAction {
                                    chancellor: c,
                                    action: ExecutiveActionTask::RevealNextCards(peek),
                                }
                            },
                            None => self.select_next_president(),
                        }
                    },
                    None => self.select_next_president(),
                }
            },
        }
    }
}

/// Every nomination option names an eligible player: living, distinct from
/// the president, and not term-limited. In particular the immediately
/// previous president and chancellor are never offered.
pub proof fn lemma_chancellor_option_sound(
    players: Seq<Player>,
    president: Seq<char>,
    pp: Option<PlayerId>,
    pc: Option<PlayerId>,
    k: int,
)
    requires
        0 <= k < chancellor_options(players, president, pp, pc).len(),
    ensures
        exists|i: int|
            0 <= i < players.len() && #[trigger] players[i].id == chancellor_options(
                players,
                president,
                pp,
                pc,
            )[k] && eligible_chancellor(players[i], president, pp, pc),
    decreases players.len(),
{
    let co = chancellor_options(players, president, pp, pc);
    let co0 = chancellor_options(players.drop_last(), president, pp, pc);
    if k < co0.len() {
        lemma_chancellor_option_sound(players.drop_last(), president, pp, pc, k);
        let i = choose|i: int|
            0 <= i < players.drop_last().len() && #[trigger] players.drop_last()[i].id == co0[k]
                && eligible_chancellor(players.drop_last()[i], president, pp, pc);
        assert(players[i].id == co[k] && eligible_chancellor(players[i], president, pp, pc));
    } else {
        let i = players.len() - 1;
        assert(eligible_chancellor(players[i], president, pp, pc));
        assert(players[i].id == co[k]);
    }
}

/// Roster-membership queries depend only on the roster: two boards with the
/// same players answer them alike.
pub proof fn lemma_alive_queries_stable(pre: BoardState, post: BoardState)
    requires
        post.players == pre.players,
    ensures
        forall|id: Seq<char>| #[trigger] post.is_alive_id(id) == pre.is_alive_id(id),
        forall|id: Seq<char>| #[trigger] post.has_player(id) == pre.has_player(id),
        post.someone_alive() == pre.someone_alive(),
        post.ids_distinct() == pre.ids_distinct(),
{
    assert forall|id: Seq<char>| #[trigger] post.is_alive_id(id) == pre.is_alive_id(id) by {
        if pre.is_alive_id(id) {
            let w = choose|i: int|
                0 <= i < pre.players@.len() && #[trigger] pre.players@[i].id@ == id
                    && pre.players@[i].alive;
            assert(post.players@[w].id@ == id && post.players@[w].alive);
        }
        if post.is_alive_id(id) {
            let w = choose|i: int|
                0 <= i < post.players@.len() && #[trigger] post.players@[i].id@ == id
                    && post.players@[i].alive;
            assert(pre.players@[w].id@ == id && pre.players@[w].alive);
        }
    }
    assert forall|id: Seq<char>| #[trigger] post.has_player(id) == pre.has_player(id) by {
        if pre.has_player(id) {
            let w = choose|i: int|
                0 <= i < pre.players@.len() && #[trigger] pre.players@[i].id@ == id;
            assert(post.players@[w].id@ == id);
        }
        if post.has_player(id) {
            let w = choose|i: int|
                0 <= i < post.players@.len() && #[trigger] post.players@[i].id@ == id;
            assert(pre.players@[w].id@ == id);
        }
    }
    if pre.someone_alive() {
        let w = choose|i: int| 0 <= i < pre.players@.len() && #[trigger] pre.players@[i].alive;
        assert(post.players@[w].alive);
    }
    if post.someone_alive() {
        let w = choose|i: int| 0 <= i < post.players@.len() && #[trigger] post.players@[i].alive;
        assert(pre.players@[w].alive);
    }
}

/// The subsequence of living players, in order.
pub open spec fn alive_seq(s: Seq<Player>) -> Seq<Player>
    decreases s.len(),
{
    if s.len() == 0 {
        Seq::empty()
    } else {
        alive_seq(s.drop_last()) + (if s.last().alive {
            seq![s.last()]
        } else {
            Seq::empty()
        })
    }
}

/// The living subsequence is as long as the number of living players.
pub proof fn lemma_alive_seq_len(s: Seq<Player>)
    ensures
        alive_seq(s).len() == count_alive(s),
    decreases s.len(),
{
    if s.len() > 0 {
        lemma_alive_seq_len(s.drop_last());
    }
}

/// Every member of the living subsequence is a living member of the roster.
pub proof fn lemma_alive_seq_members(s: Seq<Player>, k: int)
    requires
        0 <= k < alive_seq(s).len(),
    ensures
        alive_seq(s)[k].alive,
        exists|i: int| 0 <= i < s.len() && #[trigger] s[i] == alive_seq(s)[k],
    decreases s.len(),
{
    if s.len() > 0 {
        let a0 = alive_seq(s.drop_last());
        if k < a0.len() {
            lemma_alive_seq_members(s.drop_last(), k);
            let i = choose|i: int|
                0 <= i < s.drop_last().len() && #[trigger] s.drop_last()[i] == a0[k];
            assert(s[i] == alive_seq(s)[k]);
        } else {
            assert(s[s.len() - 1] == alive_seq(s)[k]);
        }
    }
}

/// A living player makes the living count positive.
pub proof fn lemma_count_alive_pos(s: Seq<Player>, i: int)
    requires
        0 <= i < s.len(),
        s[i].alive,
    ensures
        count_alive(s) > 0,
    decreases s.len(),
{
    if i == s.len() - 1 {
    } else {
        lemma_count_alive_pos(s.drop_last(), i);
    }
}

} // verus!
