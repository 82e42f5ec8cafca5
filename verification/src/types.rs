//! Entity and enumeration model: players, user profiles, roles, law/faction
//! tokens, the executive-action catalogue, task descriptors, domain events,
//! errors, and the counting vocabulary the contracts are written in.

use crate::rng;
use vstd::prelude::*;

verus! {

broadcast use vstd::seq_lib::group_to_multiset_ensures, vstd::multiset::group_multiset_axioms;

/// A player's stable identifier; registration derives it from the display name.
pub type PlayerId = String;

/// A law token and a faction alignment share one two-valued representation.
pub type Law = Faction;

/// The faction whose win condition has been met.
pub type Win = Faction;

#[derive(Debug, Clone, Copy, PartialEq, Eq, Structural)]
pub enum Faction {
    Fasho,
    Liberal,
}

#[derive(Debug, Clone, Copy, PartialEq, Eq, Structural)]
pub enum Role {
    Liberal,
    Fasho,
    FashoHitler,
}

/// A user profile as supplied at registration.
#[derive(Debug)]
pub struct User {
    pub name: String,
    pub image: String,
    pub color: String,
}

impl Clone for User {
    fn clone(&self) -> (r: Self)
        ensures
            r == *self,
    {
        User { name: self.name.clone(), image: self.image.clone(), color: self.color.clone() }
    }
}

/// A roster member: identity, profile, hidden role, life and connection
/// status, and the credential that lets the same user reconnect.
#[derive(Debug)]
pub struct Player {
    pub id: PlayerId,
    pub user: User,
    pub role: Role,
    pub alive: bool,
    pub connected: bool,
    pub access_key: String,
}

impl Clone for Player {
    fn clone(&self) -> (r: Self)
        ensures
            r == *self,
    {
        Player {
            id: self.id.clone(),
            user: self.user.clone(),
            role: self.role,
            alive: self.alive,
            connected: self.connected,
            access_key: self.access_key.clone(),
        }
    }
}

impl Player {
    /// A fresh, living, connected player whose id is the display name and
    /// whose reconnection credential is freshly sampled.
    pub fn new(user: User) -> (r: Player)
        ensures
            r.id == user.name,
            r.user == user,
            r.role == Role::Liberal,
            r.alive,
            r.connected,
            r.access_key@.len() == 32,
    {
        let id = user.name.clone();
        Player {
            id,
            user,
            role: Role::Liberal,
            alive: true,
            connected: true,
            access_key: rng::random_access_key(),
        }
    }
}

/// Per-game configuration: a display id for logs, and a debugging switch that
/// skips the voting round entirely.
#[derive(Debug)]
pub struct Config {
    pub id: String,
    pub no_votes: bool,
}

impl Clone for Config {
    fn clone(&self) -> (r: Self)
        ensures
            r == *self,
    {
        Config { id: self.id.clone(), no_votes: self.no_votes }
    }
}

impl Default for Config {
    fn default() -> (r: Self)
        ensures
            r.id@ == Seq::<char>::empty(),
            !r.no_votes,
    {
        Config { id: String::new(), no_votes: false }
    }
}

/// A rejected request; validation always precedes mutation, so a rejected
/// request never changes the shared state.
#[derive(Debug, Clone, Copy, PartialEq, Eq, Structural)]
pub enum GameError {
    /// Registering a display name whose id is already on the roster.
    DuplicateRegistration,
    /// Reconnecting with a credential that belongs to no roster member.
    UnknownCredential,
    /// Reconnecting while the existing session is still live.
    AlreadyConnected,
    /// An action submitted by the wrong actor, or whose shape does not match
    /// the current phase.
    InvalidAction,
}

/// What a single observer is currently asked to do.
#[derive(Debug)]
pub enum Task {
    ChooseChancellor(Vec<PlayerId>),
    Vote(VotingProposal),
    PickLaws(Vec<Law>, bool),
    ExecutiveAction(ExecutiveActionTask),
    ConfirmVeto,
}

/// The government up for election.
#[derive(Debug)]
pub struct VotingProposal {
    pub president: PlayerId,
    pub chancellor: PlayerId,
}

/// An inbound action, tagged by kind and scoped to the submitting actor.
#[derive(Debug)]
pub enum TaskAction {
    Start,
    ChooseChancellor(PlayerId),
    Vote(bool),
    PickedLaws(Vec<Law>, Law),
    Veto(bool),
    ExecuteAction(ExecutiveActionResponse),
}

/// The executive powers, unlocked by fascist-law counts.
#[derive(Debug, Clone, Copy, PartialEq, Eq, Structural)]
pub enum ExecutiveAction {
    Kill,
    RevealFaction,
    DeterminePresident,
    RevealNextCards,
}

/// An executive power as presented to the president, with its payload.
#[derive(Debug)]
pub enum ExecutiveActionTask {
    Kill,
    RevealFaction,
    DeterminePresident,
    RevealNextCards(Vec<Law>),
}

/// Two executive-action tasks ask for the same thing: equal variants, and
/// for a card reveal the same snapshot of upcoming laws.
pub open spec fn ea_task_eq(a: ExecutiveActionTask, b: ExecutiveActionTask) -> bool {
    match (a, b) {
        (ExecutiveActionTask::Kill, ExecutiveActionTask::Kill) => true,
        (ExecutiveActionTask::RevealFaction, ExecutiveActionTask::RevealFaction) => true,
        (ExecutiveActionTask::DeterminePresident, ExecutiveActionTask::DeterminePresident) => true,
        (ExecutiveActionTask::RevealNextCards(x), ExecutiveActionTask::RevealNextCards(y)) => x@
            == y@,
        _ => false,
    }
}

impl Clone for ExecutiveActionTask {
    fn clone(&self) -> (r: Self)
        ensures
            ea_task_eq(r, *self),
    {
        match self {
            ExecutiveActionTask::Kill => ExecutiveActionTask::Kill,
            ExecutiveActionTask::RevealFaction => ExecutiveActionTask::RevealFaction,
            ExecutiveActionTask::DeterminePresident => ExecutiveActionTask::DeterminePresident,
            ExecutiveActionTask::RevealNextCards(laws) => ExecutiveActionTask::RevealNextCards(
                clone_laws(laws),
            ),
        }
    }
}

/// The president's answer to a pending executive power.
#[derive(Debug)]
pub enum ExecutiveActionResponse {
    Kill(PlayerId),
    RevealFaction(PlayerId),
    DeterminePresident(PlayerId),
    RevealNextCards,
}

/// An entry of the append-only history log. A vote ballot is recorded by
/// roster position; an entry is `None` for players who cast no vote.
#[derive(Debug)]
#[allow(inconsistent_fields)]
pub enum Event {
    ChooseChancellor { president: PlayerId, chancellor: PlayerId },
    Vote { president: PlayerId, chancellor: PlayerId, votes: Vec<Option<bool>>, success: bool },
    PlayedLaw { president: PlayerId, chancellor: Option<PlayerId>, law: Law },
    Veto { president: PlayerId, chancellor: PlayerId },
}

/// Two history entries record the same fact: equal variants and fields, with
/// recorded ballots compared slot by slot.
pub open spec fn event_eq(a: Event, b: Event) -> bool {
    match (a, b) {
        (
            Event::ChooseChancellor { president: p1, chancellor: c1 },
            Event::ChooseChancellor { president: p2, chancellor: c2 },
        ) => p1 == p2 && c1 == c2,
        (
            Event::Vote { president: p1, chancellor: c1, votes: v1, success: s1 },
            Event::Vote { president: p2, chancellor: c2, votes: v2, success: s2 },
        ) => p1 == p2 && c1 == c2 && v1@ == v2@ && s1 == s2,
        (
            Event::PlayedLaw { president: p1, chancellor: c1, law: l1 },
            Event::PlayedLaw { president: p2, chancellor: c2, law: l2 },
        ) => p1 == p2 && c1 == c2 && l1 == l2,
        (
            Event::Veto { president: p1, chancellor: c1 },
            Event::Veto { president: p2, chancellor: c2 },
        ) => p1 == p2 && c1 == c2,
        _ => false,
    }
}

impl Clone for Event {
    fn clone(&self) -> (r: Self)
        ensures
            event_eq(r, *self),
    {
        match self {
            Event::ChooseChancellor { president, chancellor } => Event::ChooseChancellor {
                president: president.clone(),
                chancellor: chancellor.clone(),
            },
            Event::Vote { president, chancellor, votes, success } => Event::Vote {
                president: president.clone(),
                chancellor: chancellor.clone(),
                votes: clone_votes(votes),
                success: *success,
            },
            Event::PlayedLaw { president, chancellor, law } => Event::PlayedLaw {
                president: president.clone(),
                chancellor: match chancellor {
                    Some(c) => Some(c.clone()),
                    None => None,
                },
                law: *law,
            },
            Event::Veto { president, chancellor } => Event::Veto {
                president: president.clone(),
                chancellor: chancellor.clone(),
            },
        }
    }
}

/// How many elements of `s` equal `x`.
pub open spec fn count_eq<T>(s: Seq<T>, x: T) -> nat
    decreases s.len(),
{
    if s.len() == 0 {
        0
    } else {
        count_eq(s.drop_last(), x) + (if s.last() == x {
            1nat
        } else {
            0nat
        })
    }
}

/// Appending one element raises the count by one exactly when the element
/// equals the counted value.
pub proof fn lemma_count_eq_push<T>(s: Seq<T>, x: T, y: T)
    ensures
        count_eq(s.push(y), x) == count_eq(s, x) + (if y == x {
            1nat
        } else {
            0nat
        }),
{
    assert(s.push(y).drop_last() =~= s);
}

/// `count_eq` never exceeds the length of the sequence.
pub proof fn lemma_count_eq_le_len<T>(s: Seq<T>, x: T)
    ensures
        count_eq(s, x) <= s.len(),
    decreases s.len(),
{
    if s.len() > 0 {
        lemma_count_eq_le_len(s.drop_last(), x);
    }
}

/// Counting equal elements agrees with the multiset multiplicity, so a
/// shuffle preserves every such count.
pub proof fn lemma_count_eq_multiset<T>(s: Seq<T>, x: T)
    ensures
        count_eq(s, x) == s.to_multiset().count(x),
    decreases s.len(),
{
    if s.len() == 0 {
        assert(s.to_multiset().len() == 0);
    } else {
        lemma_count_eq_multiset(s.drop_last(), x);
        assert(s.drop_last().push(s.last()) =~= s);
        assert(s.drop_last().push(s.last()).to_multiset() =~= s.drop_last().to_multiset().insert(
            s.last(),
        ));
    }
}

/// How many ballot slots hold a cast vote.
pub open spec fn count_cast(s: Seq<Option<bool>>) -> nat
    decreases s.len(),
{
    if s.len() == 0 {
        0
    } else {
        count_cast(s.drop_last()) + (if s.last() is Some {
            1nat
        } else {
            0nat
        })
    }
}

/// How many players of the roster are alive.
pub open spec fn count_alive(s: Seq<Player>) -> nat
    decreases s.len(),
{
    if s.len() == 0 {
        0
    } else {
        count_alive(s.drop_last()) + (if s.last().alive {
            1nat
        } else {
            0nat
        })
    }
}

/// A ballot that only living players have written into never holds more cast
/// votes than the roster holds living players.
pub proof fn lemma_cast_le_alive(votes: Seq<Option<bool>>, players: Seq<Player>)
    requires
        votes.len() == players.len(),
        forall|i: int| 0 <= i < votes.len() && votes[i] is Some ==> players[i].alive,
    ensures
        count_cast(votes) <= count_alive(players),
    decreases votes.len(),
{
    if votes.len() > 0 {
        lemma_cast_le_alive(votes.drop_last(), players.drop_last());
    }
}

/// Whether two player ids spell the same name.
pub fn id_eq(a: &PlayerId, b: &PlayerId) -> (r: bool)
    ensures
        r == (a@ == b@),
{
    *a == *b
}

/// An exact copy of a pile of laws.
pub fn clone_laws(v: &Vec<Law>) -> (r: Vec<Law>)
    ensures
        r@ == v@,
{
    let mut r: Vec<Law> = Vec::new();
    let mut i: usize = 0;
    while i < v.len()
        invariant
            i <= v.len(),
            r@ == v@.take(i as int),
        decreases v.len() - i,
    {
        r.push(v[i]);
        proof {
            assert(v@.take(i + 1) =~= v@.take(i as int).push(v@[i as int]));
        }
        i = i + 1;
    }
    proof {
        assert(v@.take(v@.len() as int) =~= v@);
    }
    r
}

/// An exact copy of a ballot.
pub fn clone_votes(v: &Vec<Option<bool>>) -> (r: Vec<Option<bool>>)
    ensures
        r@ == v@,
{
    let mut r: Vec<Option<bool>> = Vec::new();
    let mut i: usize = 0;
    while i < v.len()
        invariant
            i <= v.len(),
            r@ == v@.take(i as int),
        decreases v.len() - i,
    {
        r.push(v[i]);
        proof {
            assert(v@.take(i + 1) =~= v@.take(i as int).push(v@[i as int]));
        }
        i = i + 1;
    }
    proof {
        assert(v@.take(v@.len() as int) =~= v@);
    }
    r
}

/// An exact copy of a list of player ids.
pub fn clone_ids(v: &Vec<PlayerId>) -> (r: Vec<PlayerId>)
    ensures
        r@ == v@,
{
    let mut r: Vec<PlayerId> = Vec::new();
    let mut i: usize = 0;
    while i < v.len()
        invariant
            i <= v.len(),
            r@ == v@.take(i as int),
        decreases v.len() - i,
    {
        r.push(v[i].clone());
        proof {
            assert(v@.take(i + 1) =~= v@.take(i as int).push(v@[i as int]));
        }
        i = i + 1;
    }
    proof {
        assert(v@.take(v@.len() as int) =~= v@);
    }
    r
}

/// How many elements of the pile are laws of faction `f`.
pub fn count_laws(v: &Vec<Law>, f: Law) -> (r: usize)
    ensures
        r == count_eq(v@, f),
{
    let mut r: usize = 0;
    let mut i: usize = 0;
    while i < v.len()
        invariant
            i <= v.len(),
            r == count_eq(v@.take(i as int), f),
            r <= i,
        decreases v.len() - i,
    {
        proof {
            assert(v@.take(i + 1) =~= v@.take(i as int).push(v@[i as int]));
            lemma_count_eq_push(v@.take(i as int), f, v@[i as int]);
        }
        if v[i] == f {
            r = r + 1;
        }
        i = i + 1;
    }
    proof {
        assert(v@.take(v@.len() as int) =~= v@);
    }
    r
}

impl Role {
    /// The faction a role is aligned with.
    pub open spec fn spec_faction(&self) -> Faction {
        match self {
            Role::Liberal => Faction::Liberal,
            _ => Faction::Fasho,
        }
    }

    /// The faction a role is aligned with: both fascist roles count as fascist.
    #[verifier::when_used_as_spec(spec_faction)]
    pub fn faction(&self) -> (r: Faction)
        ensures
            r == self.spec_faction(),
    {
        match self {
            Role::Liberal => Faction::Liberal,
            _ => Faction::Fasho,
        }
    }

    /// A shuffled pile of roles for `n` players: exactly one fascist leader,
    /// `(n - 5) / 2 + 1` ordinary fascists, and liberals for the rest.
    pub fn roles_for(n: usize) -> (r: Vec<Role>)
        requires
            5 <= n <= 10,
        ensures
            r@.len() == n,
            count_eq(r@, Role::FashoHitler) == 1,
            count_eq(r@, Role::Fasho) == (n - 5) / 2 + 1,
            count_eq(r@, Role::Liberal) == n - 2 - (n - 5) / 2,
    {
        let fashos: usize = ((n - 5) / 2) + 1;
        let liberals: usize = n - fashos - 1;
        let mut pile: Vec<Role> = Vec::new();
        pile.push(Role::FashoHitler);
        proof {
            lemma_count_eq_push(Seq::<Role>::empty(), Role::FashoHitler, Role::FashoHitler);
            lemma_count_eq_push(Seq::<Role>::empty(), Role::Fasho, Role::FashoHitler);
            lemma_count_eq_push(Seq::<Role>::empty(), Role::Liberal, Role::FashoHitler);
        }
        let mut i: usize = 0;
        while i < fashos
            invariant
                i <= fashos,
                pile@.len() == 1 + i,
                count_eq(pile@, Role::FashoHitler) == 1,
                count_eq(pile@, Role::Fasho) == i,
                count_eq(pile@, Role::Liberal) == 0,
            decreases fashos - i,
        {
            proof {
                lemma_count_eq_push(pile@, Role::FashoHitler, Role::Fasho);
                lemma_count_eq_push(pile@, Role::Fasho, Role::Fasho);
                lemma_count_eq_push(pile@, Role::Liberal, Role::Fasho);
            }
            pile.push(Role::Fasho);
            i = i + 1;
        }
        let mut j: usize = 0;
        while j < liberals
            invariant
                j <= liberals,
                pile@.len() == 1 + fashos + j,
                count_eq(pile@, Role::FashoHitler) == 1,
                count_eq(pile@, Role::Fasho) == fashos,
                count_eq(pile@, Role::Liberal) == j,
            decreases liberals - j,
        {
            proof {
                lemma_count_eq_push(pile@, Role::FashoHitler, Role::Liberal);
                lemma_count_eq_push(pile@, Role::Fasho, Role::Liberal);
                lemma_count_eq_push(pile@, Role::Liberal, Role::Liberal);
            }
            pile.push(Role::Liberal);
            j = j + 1;
        }
        proof {
            let before = pile@;
            lemma_count_eq_multiset(before, Role::FashoHitler);
            lemma_count_eq_multiset(before, Role::Fasho);
            lemma_count_eq_multiset(before, Role::Liberal);
        }
        rng::shuffle(&mut pile);
        proof {
            lemma_count_eq_multiset(pile@, Role::FashoHitler);
            lemma_count_eq_multiset(pile@, Role::Fasho);
            lemma_count_eq_multiset(pile@, Role::Liberal);
        }
        pile
    }
}

impl Faction {
    /// The full, shuffled 17-card deck: 6 liberal and 11 fascist laws.
    pub fn full_draw_pile() -> (r: Vec<Law>)
        ensures
            r@.len() == 17,
            count_eq(r@, Law::Liberal) == 6,
            count_eq(r@, Law::Fasho) == 11,
    {
        let mut pile: Vec<Law> = Vec::new();
        let mut i: usize = 0;
        while i < 6
            invariant
                i <= 6,
                pile@.len() == i,
                count_eq(pile@, Law::Liberal) == i,
                count_eq(pile@, Law::Fasho) == 0,
            decreases 6 - i,
        {
            proof {
                lemma_count_eq_push(pile@, Law::Liberal, Law::Liberal);
                lemma_count_eq_push(pile@, Law::Fasho, Law::Liberal);
            }
            pile.push(Law::Liberal);
            i = i + 1;
        }
        let mut j: usize = 0;
        while j < 11
            invariant
                j <= 11,
                pile@.len() == 6 + j,
                count_eq(pile@, Law::Liberal) == 6,
                count_eq(pile@, Law::Fasho) == j,
            decreases 11 - j,
        {
            proof {
                lemma_count_eq_push(pile@, Law::Liberal, Law::Fasho);
                lemma_count_eq_push(pile@, Law::Fasho, Law::Fasho);
            }
            pile.push(Law::Fasho);
            j = j + 1;
        }
        proof {
            lemma_count_eq_multiset(pile@, Law::Liberal);
            lemma_count_eq_multiset(pile@, Law::Fasho);
        }
        rng::shuffle(&mut pile);
        proof {
            lemma_count_eq_multiset(pile@, Law::Liberal);
            lemma_count_eq_multiset(pile@, Law::Fasho);
        }
        pile
    }
}

impl ExecutiveAction {
    /// The slot table by player count: slot `k` is the power unlocked by the
    /// `k + 1`-th fascist law.
    pub open spec fn spec_table(count: int) -> Seq<Option<ExecutiveAction>> {
        if count <= 6 {
            seq![
                None,
                None,
                Some(ExecutiveAction::RevealNextCards),
                Some(ExecutiveAction::Kill),
                Some(ExecutiveAction::Kill),
                None,
            ]
        } else if count <= 8 {
            seq![
                None,
                Some(ExecutiveAction::RevealFaction),
                Some(ExecutiveAction::DeterminePresident),
                Some(ExecutiveAction::Kill),
                Some(ExecutiveAction::Kill),
                None,
            ]
        } else {
            seq![
                Some(ExecutiveAction::RevealFaction),
                Some(ExecutiveAction::RevealFaction),
                Some(ExecutiveAction::DeterminePresident),
                Some(ExecutiveAction::Kill),
                Some(ExecutiveAction::Kill),
                None,
            ]
        }
    }

    /// The fixed 6-slot executive-action table for a game of `count` players.
    pub fn for_player_count(count: usize) -> (r: Vec<Option<ExecutiveAction>>)
        requires
            5 <= count <= 10,
        ensures
            r@ == Self::spec_table(count as int),
            r@.len() == 6,
    {
        let mut r: Vec<Option<ExecutiveAction>> = Vec::new();
        if count <= 6 {
            r.push(None);
            r.push(None);
            r.push(Some(ExecutiveAction::RevealNextCards));
            r.push(Some(ExecutiveAction::Kill));
            r.push(Some(ExecutiveAction::Kill));
            r.push(None);
        } else if count <= 8 {
            r.push(None);
            r.push(Some(ExecutiveAction::RevealFaction));
            r.push(Some(ExecutiveAction::DeterminePresident));
            r.push(Some(ExecutiveAction::Kill));
            r.push(Some(ExecutiveAction::Kill));
            r.push(None);
        } else {
            r.push(Some(ExecutiveAction::RevealFaction));
            r.push(Some(ExecutiveAction::RevealFaction));
            r.push(Some(ExecutiveAction::DeterminePresident));
            r.push(Some(ExecutiveAction::Kill));
            r.push(Some(ExecutiveAction::Kill));
            r.push(None);
        }
        proof {
            assert(r@ =~= Self::spec_table(count as int));
        }
        r
    }
}

} // verus!
