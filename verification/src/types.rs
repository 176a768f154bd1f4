use vstd::prelude::*;

verus! {

/// Outcome of a match. Mirrors the escrow contract's `Winner`.
#[derive(Clone, Copy, Debug, PartialEq, Eq, Structural)]
pub enum Winner {
    Player1,
    Player2,
    Draw,
}

/// Chess platform on which the game was played.
#[derive(Clone, Copy, Debug, PartialEq, Eq, Structural)]
pub enum Platform {
    Lichess,
    ChessDotCom,
}

/// A verified match result as the oracle stores it.
///
/// The game id is a byte string; addresses are held by their strkey text
/// (`G...` for accounts, `C...` for contracts).
#[derive(Debug, PartialEq, Eq)]
pub struct ResultEntry {
    pub game_id: Vec<u8>,
    pub platform: Platform,
    pub result: Winner,
    /// Ledger sequence number at which this result was submitted.
    pub submitted_ledger: u32,
    /// Address of the admin who submitted this result.
    pub submitter: String,
}

/// The value of a [`ResultEntry`].
pub struct ResultRecord {
    pub game_id: Seq<u8>,
    pub platform: Platform,
    pub result: Winner,
    pub submitted_ledger: u32,
    pub submitter: String,
}

impl View for ResultEntry {
    type V = ResultRecord;

    open spec fn view(&self) -> ResultRecord {
        ResultRecord {
            game_id: self.game_id@,
            platform: self.platform,
            result: self.result,
            submitted_ledger: self.submitted_ledger,
            submitter: self.submitter,
        }
    }
}

impl Clone for ResultEntry {
    fn clone(&self) -> (copy: Self)
        ensures
            copy@ == self@,
    {
        let copy = ResultEntry {
            game_id: self.game_id.clone(),
            platform: self.platform,
            result: self.result,
            submitted_ledger: self.submitted_ledger,
            submitter: self.submitter.clone(),
        };
        assert(copy.game_id@ =~= self.game_id@);
        copy
    }
}

/// A single entry in a batch result submission.
#[derive(Debug, PartialEq, Eq)]
pub struct BatchResultEntry {
    pub match_id: u64,
    pub game_id: Vec<u8>,
    pub platform: Platform,
    pub result: Winner,
}

/// The value of a [`BatchResultEntry`].
pub struct BatchRecord {
    pub match_id: u64,
    pub game_id: Seq<u8>,
    pub platform: Platform,
    pub result: Winner,
}

impl View for BatchResultEntry {
    type V = BatchRecord;

    open spec fn view(&self) -> BatchRecord {
        BatchRecord {
            match_id: self.match_id,
            game_id: self.game_id@,
            platform: self.platform,
            result: self.result,
        }
    }
}

impl Clone for BatchResultEntry {
    fn clone(&self) -> (copy: Self)
        ensures
            copy@ == self@,
    {
        let copy = BatchResultEntry {
            match_id: self.match_id,
            game_id: self.game_id.clone(),
            platform: self.platform,
            result: self.result,
        };
        assert(copy.game_id@ =~= self.game_id@);
        copy
    }
}

/// Keys under which the oracle keeps its ledger state.
#[derive(Clone, Copy, Debug, PartialEq, Eq, Structural)]
pub enum DataKey {
    /// Instance storage: the trusted admin address.
    Admin,
    /// Persistent storage: the result of a match, keyed by match id.
    Result(u64),
    /// Instance storage: the emergency pause flag.
    Paused,
}

} // verus!
