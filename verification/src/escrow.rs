//! The match registry of the escrow contract that settles on the oracle's
//! results: matches are numbered `0, 1, 2, ...` in creation order, and each
//! starts `Pending`, with neither stake deposited.
//!
//! Only this registry of the escrow is held in this crate: `create_match`
//! records a match without validating its terms, and the escrow's deposit,
//! payout, cancellation and authorization rules are not part of this crate.

use vstd::prelude::*;

use crate::types::Platform;

verus! {

/// Life cycle of an escrowed match.
#[derive(Clone, Copy, Debug, PartialEq, Eq, Structural)]
pub enum MatchState {
    /// Created; waiting for both stakes.
    Pending,
    /// Both players have deposited their stake.
    Active,
    /// The result has been settled and the pot paid out.
    Completed,
}

/// A wager between two players on one chess game.
///
/// Addresses (players, token contract) are held by their strkey text.
#[derive(Debug, PartialEq, Eq)]
pub struct Match {
    pub id: u64,
    pub player1: String,
    pub player2: String,
    /// Stake of each player, in the token's smallest unit (stroops for XLM).
    pub stake_amount: i128,
    pub token: String,
    pub game_id: Vec<u8>,
    pub platform: Platform,
    pub state: MatchState,
    pub player1_deposited: bool,
    pub player2_deposited: bool,
}

/// The match that `create_match` records under id `id`.
pub open spec fn created_match(
    id: u64,
    player1: String,
    player2: String,
    stake_amount: i128,
    token: String,
    game_id: Vec<u8>,
    platform: Platform,
) -> Match {
    Match {
        id,
        player1,
        player2,
        stake_amount,
        token,
        game_id,
        platform,
        state: MatchState::Pending,
        player1_deposited: false,
        player2_deposited: false,
    }
}

/// The transition of `create_match`: the registry after it and the new id.
pub open spec fn spec_create_match(
    before: Seq<Match>,
    player1: String,
    player2: String,
    stake_amount: i128,
    token: String,
    game_id: Vec<u8>,
    platform: Platform,
) -> (Seq<Match>, u64) {
    let id = before.len() as u64;
    (before.push(created_match(id, player1, player2, stake_amount, token, game_id, platform)), id)
}

/// The escrow contract's registry of matches, by id.
pub struct EscrowContract {
    matches: Vec<Match>,
}

impl View for EscrowContract {
    /// The matches in creation order; the match at position `i` has id `i`.
    type V = Seq<Match>;

    closed spec fn view(&self) -> Seq<Match> {
        self.matches@
    }
}

impl EscrowContract {
    /// The registry's invariant: every match sits at the position of its id.
    #[verifier::type_invariant]
    spec fn well_formed(&self) -> bool {
        forall|i: int| 0 <= i < self.matches@.len() ==> (#[trigger] self.matches@[i]).id == i
    }

    /// A registry without matches.
    pub fn new() -> (e: Self)
        ensures
            e@ == Seq::<Match>::empty(),
    {
        EscrowContract { matches: Vec::new() }
    }

    /// Records a new `Pending` match with neither stake deposited and returns
    /// its id, the number of matches created before it.
    pub fn create_match(
        &mut self,
        player1: String,
        player2: String,
        stake_amount: i128,
        token: String,
        game_id: Vec<u8>,
        platform: Platform,
    ) -> (id: u64)
        ensures
            id == old(self)@.len(),
            final(self)@ == old(self)@.push(
                created_match(id, player1, player2, stake_amount, token, game_id, platform),
            ),
            final(self)@ == spec_create_match(
                old(self)@,
                player1,
                player2,
                stake_amount,
                token,
                game_id,
                platform,
            ).0,
            id == spec_create_match(old(self)@, player1, player2, stake_amount, token, game_id, platform).1,
    {
        proof {
            use_type_invariant(&*self);
        }
        let id = self.matches.len() as u64;
        let mut matches = Vec::new();
        std::mem::swap(&mut matches, &mut self.matches);
        matches.push(
            Match {
                id,
                player1,
                player2,
                stake_amount,
                token,
                game_id,
                platform,
                state: MatchState::Pending,
                player1_deposited: false,
                player2_deposited: false,
            },
        );
        self.matches = matches;
        id
    }

    /// The number of matches ever created.
    pub fn get_match_count(&self) -> (n: u64)
        ensures
            n == self@.len(),
    {
        self.matches.len() as u64
    }

    /// The match with id `match_id`, if one was created.
    pub fn get_match(&self, match_id: u64) -> (m: Option<&Match>)
        ensures
            match m {
                Some(m) => match_id < self@.len() && *m == self@[match_id as int] && m.id == match_id,
                None => match_id >= self@.len(),
            },
    {
        proof {
            use_type_invariant(self);
        }
        if match_id < self.matches.len() as u64 {
            Some(&self.matches[match_id as usize])
        } else {
            None
        }
    }
}

/// Each `create_match` adds exactly one match: the count grows by one, the
/// new match has the next id, the given players, stake, token, game id and
/// platform, and starts `Pending` with neither stake deposited; the matches
/// created before it are unchanged.
pub proof fn law_create_match_increments_count(
    before: Seq<Match>,
    id: u64,
    player1: String,
    player2: String,
    stake_amount: i128,
    token: String,
    game_id: Vec<u8>,
    platform: Platform,
)
    requires
        id == before.len(),
    ensures
        ({
            let after = spec_create_match(
                before,
                player1,
                player2,
                stake_amount,
                token,
                game_id,
                platform,
            ).0;
            let m = after[id as int];
            &&& spec_create_match(before, player1, player2, stake_amount, token, game_id, platform).1
                == id
            &&& after.len() == before.len() + 1
            &&& m.id == id
            &&& m.player1 == player1 && m.player2 == player2
            &&& m.stake_amount == stake_amount && m.token == token
            &&& m.game_id == game_id && m.platform == platform
            &&& m.state == MatchState::Pending
            &&& !m.player1_deposited && !m.player2_deposited
            &&& forall|i: int| 0 <= i < before.len() ==> after[i] == before[i]
        }),
{
}

} // verus!
