use vstd::prelude::*;
use crate::stats::{MatchGameState, recorded, update_stats, zero_stats};
use crate::text::same_text;

verus! {

/// The interface of this contract: callers send `Operation`s, other chains
/// send `Message`s, and readers send `Query`s.
pub struct MatchGameAbi;

/// A command sent directly to the contract.
#[derive(Clone, Copy, Debug, PartialEq, Eq, Structural)]
pub enum Operation {
    UpdateStats { score: u32, won: bool },
}

/// A notification delivered from another chain or contract instance.
#[derive(Clone, Copy, Debug, PartialEq, Eq, Structural)]
pub enum Message {
    NotifyGameCompleted { score: u32, won: bool },
}

/// A read request.
#[derive(Clone, Copy, Debug, PartialEq, Eq, Structural)]
pub enum Query {
    GetPlayerStats,
}

/// The answer to a `Query`.
#[derive(Clone, Copy, Debug, PartialEq, Eq, Structural)]
pub enum QueryResponse {
    PlayerStats(MatchGameState),
}

/// Why the contract rejected a call.
#[derive(Clone, Copy, Debug, PartialEq, Eq, Structural)]
pub enum ContractError {
    /// The command or message names a kind that the contract does not know.
    DecodeError,
}

/// The kind name of `Operation::UpdateStats`.
pub const UPDATE_STATS: &'static str = "UpdateStats";

/// The kind name of `Message::NotifyGameCompleted`.
pub const NOTIFY_GAME_COMPLETED: &'static str = "NotifyGameCompleted";

impl Operation {
    /// Builds the operation of kind `kind` with the given fields.
    pub fn decode(kind: &str, score: u32, won: bool) -> (r: Result<Operation, ContractError>)
        ensures
            kind@ == UPDATE_STATS@ ==> r == Ok::<Operation, ContractError>(
                Operation::UpdateStats { score, won },
            ),
            kind@ != UPDATE_STATS@ ==> r == Err::<Operation, ContractError>(
                ContractError::DecodeError,
            ),
    {
        if same_text(kind, UPDATE_STATS) {
            Ok(Operation::UpdateStats { score, won })
        } else {
            Err(ContractError::DecodeError)
        }
    }
}

impl Message {
    /// Builds the message of kind `kind` with the given fields.
    pub fn decode(kind: &str, score: u32, won: bool) -> (r: Result<Message, ContractError>)
        ensures
            kind@ == NOTIFY_GAME_COMPLETED@ ==> r == Ok::<Message, ContractError>(
                Message::NotifyGameCompleted { score, won },
            ),
            kind@ != NOTIFY_GAME_COMPLETED@ ==> r == Err::<Message, ContractError>(
                ContractError::DecodeError,
            ),
    {
        if same_text(kind, NOTIFY_GAME_COMPLETED) {
            Ok(Message::NotifyGameCompleted { score, won })
        } else {
            Err(ContractError::DecodeError)
        }
    }
}

/// What a read of the storage slot yields: the stored record, or the zero
/// record where nothing is stored.
pub open spec fn current(slot: Option<MatchGameState>) -> MatchGameState {
    match slot {
        Some(s) => s,
        None => zero_stats(),
    }
}

/// One contract instance together with its storage slot, which holds the
/// record once the contract has been initialized.
pub struct MatchGame {
    pub state: Option<MatchGameState>,
}

impl MatchGame {
    /// An instance whose slot holds nothing yet.
    pub fn new() -> (r: MatchGame)
        ensures
            r.state is None,
    {
        MatchGame { state: None }
    }

    /// An instance over a slot loaded from durable storage.
    pub fn from_slot(state: Option<MatchGameState>) -> (r: MatchGame)
        ensures
            r.state == state,
    {
        MatchGame { state }
    }

    /// Loads the record, reading an empty slot as the zero record.
    fn read_state(&self) -> (r: MatchGameState)
        ensures
            r == current(self.state),
    {
        match self.state {
            Some(s) => s,
            None => MatchGameState::default(),
        }
    }

    /// Stores `state` in the slot.
    fn write_state(&mut self, state: MatchGameState)
        ensures
            final(self).state == Some(state),
    {
        self.state = Some(state);
    }

    /// Stores the zero record, discarding whatever was stored before.
    pub fn initialize(&mut self) -> (r: Result<(), ContractError>)
        ensures
            r == Ok::<(), ContractError>(()),
            final(self).state == Some(zero_stats()),
    {
        let state = MatchGameState::default();
        self.write_state(state);
        Ok(())
    }

    /// Records one finished game and returns the stored record.
    pub fn record_game_result(&mut self, score: u32, won: bool) -> (r: MatchGameState)
        ensures
            r == recorded(current(old(self).state), score, won),
            final(self).state == Some(r),
            current(old(self).state).is_balanced() ==> r.is_balanced(),
            r.high_score >= current(old(self).state).high_score,
    {
        let state = self.read_state();
        let next = update_stats(state, score, won);
        self.write_state(next);
        next
    }

    /// Carries out an operation: every known operation records one game.
    pub fn execute_operation(&mut self, operation: Operation) -> (r: Result<(), ContractError>)
        ensures
            r == Ok::<(), ContractError>(()),
            match operation {
                Operation::UpdateStats { score, won } => final(self).state == Some(
                    recorded(current(old(self).state), score, won),
                ),
            },
    {
        match operation {
            Operation::UpdateStats { score, won } => {
                self.record_game_result(score, won);
                Ok(())
            },
        }
    }

    /// Handles a message: every known message records one game.
    pub fn execute_message(&mut self, message: Message) -> (r: Result<(), ContractError>)
        ensures
            r == Ok::<(), ContractError>(()),
            match message {
                Message::NotifyGameCompleted { score, won } => final(self).state == Some(
                    recorded(current(old(self).state), score, won),
                ),
            },
    {
        match message {
            Message::NotifyGameCompleted { score, won } => {
                self.record_game_result(score, won);
                Ok(())
            },
        }
    }

    /// Decodes an operation of kind `kind` and carries it out. An unknown kind
    /// is refused and leaves the slot as it was.
    pub fn apply_operation(&mut self, kind: &str, score: u32, won: bool) -> (r: Result<
        (),
        ContractError,
    >)
        ensures
            kind@ == UPDATE_STATS@ ==> r == Ok::<(), ContractError>(()) && final(self).state
                == Some(recorded(current(old(self).state), score, won)),
            kind@ != UPDATE_STATS@ ==> r == Err::<(), ContractError>(ContractError::DecodeError)
                && final(self).state == old(self).state,
    {
        match Operation::decode(kind, score, won) {
            Ok(operation) => self.execute_operation(operation),
            Err(e) => Err(e),
        }
    }

    /// Decodes a message of kind `kind` and handles it. An unknown kind is
    /// refused and leaves the slot as it was.
    pub fn apply_message(&mut self, kind: &str, score: u32, won: bool) -> (r: Result<
        (),
        ContractError,
    >)
        ensures
            kind@ == NOTIFY_GAME_COMPLETED@ ==> r == Ok::<(), ContractError>(())
                && final(self).state == Some(recorded(current(old(self).state), score, won)),
            kind@ != NOTIFY_GAME_COMPLETED@ ==> r == Err::<(), ContractError>(
                ContractError::DecodeError,
            ) && final(self).state == old(self).state,
    {
        match Message::decode(kind, score, won) {
            Ok(message) => self.execute_message(message),
            Err(e) => Err(e),
        }
    }

    /// The current record; the zero record where the slot holds nothing.
    pub fn query_stats(&self) -> (r: MatchGameState)
        ensures
            r == current(self.state),
    {
        self.read_state()
    }

    /// Answers a query. Reading never fails.
    pub fn query(&self, query: Query) -> (r: Result<QueryResponse, ContractError>)
        ensures
            r == Ok::<QueryResponse, ContractError>(
                QueryResponse::PlayerStats(current(self.state)),
            ),
    {
        match query {
            Query::GetPlayerStats => {
                let state = self.read_state();
                Ok(QueryResponse::PlayerStats(state))
            },
        }
    }

    /// The slot's content, for writing back to durable storage.
    pub fn slot(&self) -> (r: Option<MatchGameState>)
        ensures
            r == self.state,
    {
        self.state
    }
}

/// A query reads the ledger and nothing else: two queries of one slot, with
/// no update between them, give the same record.
pub proof fn lemma_query_repeatable(a: MatchGame, b: MatchGame)
    requires
        a.state == b.state,
    ensures
        current(a.state) == current(b.state),
{
}

} // verus!
