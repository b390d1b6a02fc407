//! The mint pipeline as a state machine: each step takes the state and what the outside
//! world reported, and gives the next state and what the outside world must do next.

use crate::codec::{carries_mint_of, deciphered, encode, is_mint_of, mint_script, TokenId};
use crate::eligibility::{EligibilityError, Pile, TokenEntry};
use crate::skeleton::{build_outcome, build_skeleton, BuildError, Skeleton, MAX_SCRIPT_SIZE, TARGET_POSTAGE};
use vstd::prelude::*;

verus! {

/// What the caller asks for.
#[derive(Debug)]
pub struct RunesMint {
    /// Fee rate for funding, in satoshis per virtual byte.
    pub fee_rate: u64,
    /// The rune to mint, as the caller wrote it, spacers included.
    pub rune: String,
    /// Value of the destination output, in satoshis; `TARGET_POSTAGE` when absent.
    pub postage: Option<u64>,
    /// Output script that receives the minted runes; the wallet's change script when absent.
    pub destination: Option<Vec<u8>>,
}

/// How to reach the wallet, as the caller gives it.
#[derive(Debug)]
pub struct WalletParams {
    pub name: String,
    pub no_sync: bool,
    pub server_url: Option<String>,
}

/// How to reach the wallet, every choice made.
#[derive(Debug)]
pub struct WalletContext {
    pub name: String,
    pub no_sync: bool,
    pub server_url: String,
}

/// What a successful mint reports.
#[derive(Debug)]
pub struct Output {
    /// The rune, as the caller wrote it.
    pub rune: String,
    /// What one mint yields, as evaluated before funding.
    pub pile: Pile,
    /// Identifier of the broadcast transaction.
    pub mint: String,
}

/// Why a mint failed.
#[derive(Debug)]
pub enum MintError {
    /// The index does not track runes.
    IndexNotEnabled,
    /// The index knows no such rune.
    TokenNotFound,
    NotStarted { start: u64 },
    Ended { end: u64 },
    CapReached { cap: u128 },
    PayloadTooLarge { size: usize },
    BelowDustLimit { dust: u64 },
    /// Locking the wallet's outputs or funding the skeleton failed.
    FundingFailed(String),
    SigningFailed(String),
    BroadcastFailed(String),
    /// The signed transaction does not carry the instruction that was encoded.
    EncodingMismatch,
}

/// A transaction as the signer returned it, with the output scripts it holds.
#[derive(Debug)]
pub struct SignedTx {
    /// The serialized transaction.
    pub tx: Vec<u8>,
    /// Its output scripts, in order.
    pub output_scripts: Vec<Vec<u8>>,
}

/// Where the pipeline stands.
#[derive(Debug)]
pub enum MintState {
    Requested,
    IndexChecked,
    /// The rune may be minted; the destination is still to come from the wallet.
    Eligible { id: TokenId, pile: Pile },
    /// The skeleton is built; the wallet's outputs are to be locked.
    SkeletonBuilt { id: TokenId, pile: Pile, skeleton: Skeleton },
    /// The skeleton is out for funding.
    Funding { id: TokenId, pile: Pile },
    /// The funded transaction is out for signing.
    Signing { id: TokenId, pile: Pile },
    /// The signed transaction is out for broadcast.
    Broadcasting { pile: Pile },
    Reported(Output),
    Failed(MintError),
}

/// What the outside world reports back.
#[derive(Debug)]
pub enum MintEvent {
    /// Whether the index tracks runes.
    IndexStatus(bool),
    /// The rune's identifier and entry, if the index knows it, and the chain height,
    /// both read at once.
    LookedUp { found: Option<(TokenId, TokenEntry)>, height: u64 },
    /// The wallet's change script.
    ChangeScript(Vec<u8>),
    /// The outcome of locking the wallet's outputs that carry more than plain value.
    Locked(Result<(), String>),
    /// The funded, unsigned transaction.
    Funded(Result<Vec<u8>, String>),
    Signed(Result<SignedTx, String>),
    /// The identifier of the broadcast transaction.
    Broadcast(Result<String, String>),
}

/// What the outside world must do next.
#[derive(Debug)]
pub enum MintAction {
    /// Ask the index whether it tracks runes.
    CheckIndex,
    /// Look the rune up in the index and read the chain height.
    LookUp { rune: String },
    /// Ask the wallet for its change script.
    ChangeScript,
    /// Lock the wallet's outputs that carry more than plain value.
    LockOutputs,
    /// Add inputs and change at the fee rate.
    Fund { skeleton: Skeleton, fee_rate: u64 },
    Sign { tx: Vec<u8> },
    Broadcast { tx: Vec<u8> },
    /// Nothing more: the state is `Reported` or `Failed`.
    Stop,
}

/// A request and how far the pipeline has taken it.
#[derive(Debug)]
pub struct MintSession {
    pub request: RunesMint,
    pub state: MintState,
}

pub open spec fn default_server_url() -> Seq<char> {
    "http://127.0.0.1:80"@
}

impl WalletParams {
    /// Settles how to reach the wallet: the URL given here, else the one in the settings,
    /// else the local default.
    pub fn constructor(self, settings_url: Option<String>) -> (r: WalletContext)
        ensures
            r.name == self.name,
            r.no_sync == self.no_sync,
            r.server_url@ == match self.server_url {
                Some(u) => u@,
                None => match settings_url {
                    Some(u) => u@,
                    None => default_server_url(),
                },
            },
    {
        let server_url = match self.server_url {
            Some(u) => u,
            None => match settings_url {
                Some(u) => u,
                None => {
                    proof {
                        reveal_strlit("http://127.0.0.1:80");
                    }
                    "http://127.0.0.1:80".to_owned()
                },
            },
        };
        WalletContext { name: self.name, no_sync: self.no_sync, server_url }
    }
}

pub open spec fn eligibility_error(e: EligibilityError) -> MintError {
    match e {
        EligibilityError::NotStarted { start } => MintError::NotStarted { start },
        EligibilityError::Ended { end } => MintError::Ended { end },
        EligibilityError::CapReached { cap } => MintError::CapReached { cap },
    }
}

pub open spec fn build_error(e: BuildError) -> MintError {
    match e {
        BuildError::BelowDustLimit { dust } => MintError::BelowDustLimit { dust },
        BuildError::PayloadTooLarge { size } => MintError::PayloadTooLarge { size },
    }
}

fn from_eligibility(e: EligibilityError) -> (r: MintError)
    ensures
        r == eligibility_error(e),
{
    match e {
        EligibilityError::NotStarted { start } => MintError::NotStarted { start },
        EligibilityError::Ended { end } => MintError::Ended { end },
        EligibilityError::CapReached { cap } => MintError::CapReached { cap },
    }
}

fn from_build(e: BuildError) -> (r: MintError)
    ensures
        r == build_error(e),
{
    match e {
        BuildError::BelowDustLimit { dust } => MintError::BelowDustLimit { dust },
        BuildError::PayloadTooLarge { size } => MintError::PayloadTooLarge { size },
    }
}

impl RunesMint {
    pub open spec fn wf(&self) -> bool {
        self.destination matches Some(d) ==> d@.len() <= MAX_SCRIPT_SIZE
    }

    pub open spec fn postage_spec(&self) -> u64 {
        match self.postage {
            Some(p) => p,
            None => TARGET_POSTAGE,
        }
    }

    /// Starts the pipeline on this request.
    pub fn run(self) -> (r: (MintSession, MintAction))
        ensures
            r.0.request == self,
            r.0.state is Requested,
            r.1 is CheckIndex,
    {
        (MintSession { request: self, state: MintState::Requested }, MintAction::CheckIndex)
    }

    /// Settles how to reach the wallet and starts the pipeline on this request.
    pub fn run_in_place(self, params: WalletParams, settings_url: Option<String>) -> (r: (
        WalletContext,
        MintSession,
        MintAction,
    ))
        ensures
            r.0.name == params.name,
            r.0.no_sync == params.no_sync,
            r.0.server_url@ == match params.server_url {
                Some(u) => u@,
                None => match settings_url {
                    Some(u) => u@,
                    None => default_server_url(),
                },
            },
            r.1.request == self,
            r.1.state is Requested,
            r.2 is CheckIndex,
    {
        let context = params.constructor(settings_url);
        let (session, action) = self.run();
        (context, session, action)
    }
}

/// Where building for `destination` leads: a failure, or the skeleton and a lock of the
/// wallet's outputs.
pub open spec fn built_to(next: MintState, action: MintAction, id: TokenId, pile: Pile, destination: Seq<u8>, postage: u64) -> bool {
    let instruction = mint_script(id.block, id.tx);
    match build_outcome(instruction, destination, postage) {
        Err(e) => next == MintState::Failed(build_error(e)) && action is Stop,
        Ok(_) => {
            &&& next matches MintState::SkeletonBuilt { id: i, pile: p, skeleton }
                && i == id && p == pile && skeleton.is_mint_skeleton(instruction, destination, postage)
            &&& action is LockOutputs
        },
    }
}

fn build_step(id: TokenId, pile: Pile, destination: Vec<u8>, postage: u64) -> (r: (MintState, MintAction))
    requires
        destination@.len() <= MAX_SCRIPT_SIZE,
    ensures
        built_to(r.0, r.1, id, pile, destination@, postage),
{
    let instruction = encode(id);
    match build_skeleton(instruction, destination, postage) {
        Ok(skeleton) => (MintState::SkeletonBuilt { id, pile, skeleton }, MintAction::LockOutputs),
        Err(e) => (MintState::Failed(from_build(e)), MintAction::Stop),
    }
}

impl MintSession {
    /// The event is the one the pipeline waits for in its current state.
    pub open spec fn awaits(&self, event: MintEvent) -> bool {
        &&& self.request.wf()
        &&& match self.state {
            MintState::Requested => event is IndexStatus,
            MintState::IndexChecked => event is LookedUp,
            MintState::Eligible { .. } => event matches MintEvent::ChangeScript(s) && s@.len() <= MAX_SCRIPT_SIZE,
            MintState::SkeletonBuilt { .. } => event is Locked,
            MintState::Funding { .. } => event is Funded,
            MintState::Signing { .. } => event is Signed,
            MintState::Broadcasting { .. } => event is Broadcast,
            _ => false,
        }
    }

    /// One transition of the pipeline.
    pub open spec fn step_spec(&self, event: MintEvent, next: MintState, action: MintAction) -> bool {
        match (self.state, event) {
            (MintState::Requested, MintEvent::IndexStatus(enabled)) => if enabled {
                next is IndexChecked && action == (MintAction::LookUp { rune: self.request.rune })
            } else {
                next == MintState::Failed(MintError::IndexNotEnabled) && action is Stop
            },
            (MintState::IndexChecked, MintEvent::LookedUp { found, height }) => match found {
                None => next == MintState::Failed(MintError::TokenNotFound) && action is Stop,
                Some((id, entry)) => match entry.mintable_spec(height) {
                    Err(e) => next == MintState::Failed(eligibility_error(e)) && action is Stop,
                    Ok(amount) => {
                        let pile = Pile { amount, divisibility: entry.divisibility, symbol: entry.symbol };
                        match self.request.destination {
                            None => next == (MintState::Eligible { id, pile }) && action is ChangeScript,
                            Some(d) => built_to(next, action, id, pile, d@, self.request.postage_spec()),
                        }
                    },
                },
            },
            (MintState::Eligible { id, pile }, MintEvent::ChangeScript(s)) => built_to(
                next,
                action,
                id,
                pile,
                s@,
                self.request.postage_spec(),
            ),
            (MintState::SkeletonBuilt { id, pile, skeleton }, MintEvent::Locked(res)) => match res {
                Ok(_) => next == (MintState::Funding { id, pile })
                    && action == (MintAction::Fund { skeleton, fee_rate: self.request.fee_rate }),
                Err(m) => next == MintState::Failed(MintError::FundingFailed(m)) && action is Stop,
            },
            (MintState::Funding { id, pile }, MintEvent::Funded(res)) => match res {
                Ok(tx) => next == (MintState::Signing { id, pile }) && action == (MintAction::Sign { tx }),
                Err(m) => next == MintState::Failed(MintError::FundingFailed(m)) && action is Stop,
            },
            (MintState::Signing { id, pile }, MintEvent::Signed(res)) => match res {
                Ok(signed) => if is_mint_of(deciphered(signed.output_scripts.deep_view()), id) {
                    next == (MintState::Broadcasting { pile }) && action == (MintAction::Broadcast { tx: signed.tx })
                } else {
                    next == MintState::Failed(MintError::EncodingMismatch) && action is Stop
                },
                Err(m) => next == MintState::Failed(MintError::SigningFailed(m)) && action is Stop,
            },
            (MintState::Broadcasting { pile }, MintEvent::Broadcast(res)) => match res {
                Ok(txid) => next == MintState::Reported(Output { rune: self.request.rune, pile, mint: txid })
                    && action is Stop,
                Err(m) => next == MintState::Failed(MintError::BroadcastFailed(m)) && action is Stop,
            },
            _ => false,
        }
    }

    /// Whether `event` is the one the pipeline waits for.
    pub fn awaits_event(&self, event: &MintEvent) -> (r: bool)
        ensures
            r == self.awaits(*event),
    {
        let request_ok = match &self.request.destination {
            Some(d) => d.len() <= MAX_SCRIPT_SIZE,
            None => true,
        };
        request_ok && match (&self.state, event) {
            (MintState::Requested, MintEvent::IndexStatus(_)) => true,
            (MintState::IndexChecked, MintEvent::LookedUp { .. }) => true,
            (MintState::Eligible { .. }, MintEvent::ChangeScript(s)) => s.len() <= MAX_SCRIPT_SIZE,
            (MintState::SkeletonBuilt { .. }, MintEvent::Locked(_)) => true,
            (MintState::Funding { .. }, MintEvent::Funded(_)) => true,
            (MintState::Signing { .. }, MintEvent::Signed(_)) => true,
            (MintState::Broadcasting { .. }, MintEvent::Broadcast(_)) => true,
            _ => false,
        }
    }

    /// Takes the pipeline one step: from what the outside world reported to the next state
    /// and what the outside world must do next.
    pub fn advance(self, event: MintEvent) -> (r: (MintSession, MintAction))
        requires
            self.awaits(event),
        ensures
            r.0.request == self.request,
            self.step_spec(event, r.0.state, r.1),
    {
        let MintSession { request, state } = self;
        let postage = match request.postage {
            Some(p) => p,
            None => TARGET_POSTAGE,
        };
        let (next, action) = match (state, event) {
            (MintState::Requested, MintEvent::IndexStatus(enabled)) => if enabled {
                (MintState::IndexChecked, MintAction::LookUp { rune: request.rune.clone() })
            } else {
                (MintState::Failed(MintError::IndexNotEnabled), MintAction::Stop)
            },
            (MintState::IndexChecked, MintEvent::LookedUp { found, height }) => match found {
                None => (MintState::Failed(MintError::TokenNotFound), MintAction::Stop),
                Some((id, entry)) => match entry.mintable(height) {
                    Err(e) => (MintState::Failed(from_eligibility(e)), MintAction::Stop),
                    Ok(amount) => {
                        let pile = entry.pile(amount);
                        match &request.destination {
                            None => (MintState::Eligible { id, pile }, MintAction::ChangeScript),
                            Some(d) => {
                                let destination = d.clone();
                                assert(destination@ =~= d@);
                                build_step(id, pile, destination, postage)
                            },
                        }
                    },
                },
            },
            (MintState::Eligible { id, pile }, MintEvent::ChangeScript(s)) => build_step(id, pile, s, postage),
            (MintState::SkeletonBuilt { id, pile, skeleton }, MintEvent::Locked(res)) => match res {
                Ok(_) => (MintState::Funding { id, pile }, MintAction::Fund { skeleton, fee_rate: request.fee_rate }),
                Err(m) => (MintState::Failed(MintError::FundingFailed(m)), MintAction::Stop),
            },
            (MintState::Funding { id, pile }, MintEvent::Funded(res)) => match res {
                Ok(tx) => (MintState::Signing { id, pile }, MintAction::Sign { tx }),
                Err(m) => (MintState::Failed(MintError::FundingFailed(m)), MintAction::Stop),
            },
            (MintState::Signing { id, pile }, MintEvent::Signed(res)) => match res {
                Ok(signed) => if carries_mint_of(&signed.output_scripts, id) {
                    (MintState::Broadcasting { pile }, MintAction::Broadcast { tx: signed.tx })
                } else {
                    (MintState::Failed(MintError::EncodingMismatch), MintAction::Stop)
                },
                Err(m) => (MintState::Failed(MintError::SigningFailed(m)), MintAction::Stop),
            },
            (MintState::Broadcasting { pile }, MintEvent::Broadcast(res)) => match res {
                Ok(txid) => {
                    let rune = request.rune.clone();
                    (MintState::Reported(Output { rune, pile, mint: txid }), MintAction::Stop)
                },
                Err(m) => (MintState::Failed(MintError::BroadcastFailed(m)), MintAction::Stop),
            },
            (state, _) => (state, MintAction::Stop),
        };
        (MintSession { request, state: next }, action)
    }
}

/// Every skeleton the pipeline builds puts the instruction for the rune first, with value
/// zero, and the destination second, with the postage the request settles on.
pub proof fn lemma_skeleton_order(session: MintSession, event: MintEvent, next: MintState, action: MintAction)
    requires
        session.awaits(event),
        session.step_spec(event, next, action),
        next is SkeletonBuilt,
    ensures
        next matches MintState::SkeletonBuilt { id, skeleton, .. } && {
            &&& skeleton.outputs@.len() == 2
            &&& skeleton.outputs@[0].script@ == mint_script(id.block, id.tx)
            &&& skeleton.outputs@[0].value == 0
            &&& skeleton.outputs@[1].value == session.request.postage_spec()
        },
{
}

/// A pipeline that has reported or failed waits for nothing more.
pub proof fn lemma_terminal(session: MintSession, event: MintEvent)
    requires
        session.state is Reported || session.state is Failed,
    ensures
        !session.awaits(event),
{
}

} // verus!
