//! The global guarantees of the engine, stated once as theorems over the
//! invariants and relations the transition functions already ensure.

use crate::board::{
    chancellor_options, eligible_chancellor, lemma_chancellor_option_sound, rotated, BoardState,
};
use crate::game::{DynamicState, GameState};
use crate::types::{count_alive, count_cast, lemma_cast_le_alive, Player, PlayerId, Role};
use crate::view::{spec_player_view, spec_projected};
use vstd::prelude::*;

verus! {

/// Deck invariant: in every well-formed running game, the draw pile, the
/// discard pile, the laws held by the current phase and the passed laws of
/// both factions account for the full 17-card deck.
pub proof fn lemma_deck_invariant(g: GameState)
    requires
        g.wf(),
        !(g.state is Uninit),
    ensures
        g.board.draw_pile@.len() + g.board.discard_pile@.len() + g.state.held_laws()
            + g.board.passed_fasho_laws + g.board.passed_liberal_laws == 17,
{
}

/// Rotation invariant: a rotation never seats a dead president, and it
/// consumes the forced-next override, so the override is used exactly once
/// after being set.
pub proof fn lemma_rotation_never_dead(pre: BoardState, post: BoardState, r: DynamicState)
    requires
        rotated(pre, post, r),
        post.players == pre.players,
        match pre.next_president_by_rules {
            Some(p) => pre.is_alive_id(p@),
            None => true,
        },
    ensures
        post.is_alive_id(post.current_president@),
        post.next_president_by_rules is None,
{
    match pre.next_president_by_rules {
        Some(p) => {
            let w = choose|i: int|
                0 <= i < pre.players@.len() && #[trigger] pre.players@[i].id@ == p@
                    && pre.players@[i].alive;
            assert(post.players@[w].id@ == post.current_president@ && post.players@[w].alive);
        },
        None => {
            let i = choose|i: int|
                #[trigger] crate::board::is_first_alive_after(
                    pre.players@,
                    crate::board::index_of_id(pre.players@, pre.current_president@),
                    i,
                ) && post.current_president == pre.players@[i].id;
            assert(post.players@[i].id@ == post.current_president@ && post.players@[i].alive);
        },
    }
}

/// Term-limit invariant: a nomination option is never the sitting president,
/// never the immediately previous president or chancellor, and always names a
/// living player.
pub proof fn lemma_term_limits(
    players: Seq<Player>,
    president: Seq<char>,
    prev_president: Option<PlayerId>,
    prev_chancellor: Option<PlayerId>,
    k: int,
)
    requires
        0 <= k < chancellor_options(players, president, prev_president, prev_chancellor).len(),
    ensures
        chancellor_options(players, president, prev_president, prev_chancellor)[k]@ != president,
        match prev_president {
            Some(q) => chancellor_options(players, president, prev_president, prev_chancellor)[k]@
                != q@,
            None => true,
        },
        match prev_chancellor {
            Some(q) => chancellor_options(players, president, prev_president, prev_chancellor)[k]@
                != q@,
            None => true,
        },
        exists|i: int|
            0 <= i < players.len() && #[trigger] players[i].id@ == chancellor_options(
                players,
                president,
                prev_president,
                prev_chancellor,
            )[k]@ && players[i].alive,
{
    lemma_chancellor_option_sound(players, president, prev_president, prev_chancellor, k);
    let co = chancellor_options(players, president, prev_president, prev_chancellor);
    let i = choose|i: int|
        0 <= i < players.len() && #[trigger] players[i].id == co[k] && eligible_chancellor(
            players[i],
            president,
            prev_president,
            prev_chancellor,
        );
    assert(players[i].id@ == co[k]@ && players[i].alive);
}

/// Election tie-break: with equally many yes and no votes, the election
/// passes exactly when the sitting president's own vote was yes.
pub proof fn lemma_tie_break(votes: Seq<Option<bool>>, president_index: int)
    requires
        0 <= president_index < votes.len(),
        crate::types::count_eq(votes, Some(true)) == crate::types::count_eq(votes, Some(false)),
    ensures
        crate::game::spec_vote_success(votes, president_index) <==> votes[president_index]
            == Some(true),
{
}

/// Redaction: a liberal observer learns no other player's role or faction
/// unless a one-shot reveal names exactly that observer and that target.
pub proof fn lemma_liberal_sees_nothing(board: BoardState, of: Player, i: int)
    requires
        0 <= i < board.players@.len(),
        of.role == Role::Liberal,
        board.players@[i].id@ != of.id@,
        match board.revealed_factions {
            Some(t3) => !(t3.0@ == of.id@ && board.players@[i].id@ == t3.1@),
            None => true,
        },
    ensures
        spec_projected(board, of, i).role is None,
        spec_projected(board, of, i).faction is None,
{
}

/// Redaction: an ordinary fascist observer always sees every player's role
/// and faction, the leader's included.
pub proof fn lemma_fascist_sees_team(target: Player, of: Player, fewer_than_seven: bool)
    requires
        of.role == Role::Fasho,
    ensures
        spec_player_view(target, of, fewer_than_seven).role == Some(target.role),
        spec_player_view(target, of, fewer_than_seven).faction == Some(target.role.spec_faction()),
{
}

/// Redaction asymmetry: the fascist leader sees another player's role exactly
/// when fewer than seven players are living (absent a reveal naming the
/// pair).
pub proof fn lemma_leader_sees_iff_small(board: BoardState, of: Player, i: int)
    requires
        0 <= i < board.players@.len(),
        of.role == Role::FashoHitler,
        board.players@[i].id@ != of.id@,
    ensures
        (spec_projected(board, of, i).role is Some) <==> count_alive(board.players@) < 7,
{
}

/// Redaction: a one-shot reveal is visible only to its named observer. Any
/// other observer projects every roster position exactly as on a board that
/// differs only by having no reveal outstanding.
pub proof fn lemma_reveal_private(b1: BoardState, b2: BoardState, of: Player, i: int)
    requires
        b2.players == b1.players,
        b2.revealed_factions is None,
        match b1.revealed_factions {
            Some(t3) => t3.0@ != of.id@,
            None => true,
        },
    ensures
        spec_projected(b1, of, i) == spec_projected(b2, of, i),
{
}

/// Ballot bound: in a voting phase of a well-formed game, the votes cast
/// never outnumber the living players, since only living players can write
/// into the ballot and re-casting overwrites.
pub proof fn lemma_ballot_bounded(g: GameState)
    requires
        g.wf(),
        g.state matches DynamicState::VoteChancellor { .. },
    ensures
        match g.state {
            DynamicState::VoteChancellor { votes, .. } => count_cast(votes@) <= count_alive(
                g.board.players@,
            ),
            _ => true,
        },
{
    match g.state {
        DynamicState::VoteChancellor { votes, .. } => {
            lemma_cast_le_alive(votes@, g.board.players@);
        },
        _ => {},
    }
}

} // verus!
