//! The pipeline that one block goes through: fetch, attribute to a pool,
//! read the vote, register a new proposal, store. Each step is taken on an
//! event from outside and says what to do outside next; the block is stored
//! last, after its proposal and only when every step before has succeeded.

use crate::console::{
    detect_spec, getnewproposal, tally_matches, tallyvotes_spec, BlockData,
    DecodeError, Proposal, ProtocolError, TallyRequest, Vote,
};
use vstd::prelude::*;

verus! {

/// Why the pipeline stopped.
#[derive(Debug, Clone, Copy, PartialEq, Eq, Structural)]
pub enum ScanError {
    /// An event came that the pipeline was not waiting for.
    UnexpectedEvent,
    /// The block could not be read.
    Decode(DecodeError),
    /// The node's answer to the tally request could not be read.
    Protocol(ProtocolError),
}

/// What has happened outside: the answer to what the pipeline last asked
/// for.
#[derive(Debug)]
pub enum ScanEvent {
    /// The block, fetched and decoded.
    Block(BlockData),
    /// The node's answer to the validation of the stake address.
    AddressAnswer(serde_json::Value),
    /// The node's answer to the tally request.
    TallyAnswer(serde_json::Value),
    /// The proposal is stored, and these are the proposals known now.
    ProposalStored(Vec<u64>),
    /// The block is stored.
    BlockStored,
}

/// What is to be done outside next.
#[derive(Debug, Clone, PartialEq, Eq)]
pub enum ScanAction {
    /// Fetch and decode the block with this hash.
    FetchBlock(String),
    /// Ask the node what it knows of this stake address.
    ValidateAddress(String),
    /// Ask the node for this tally.
    FetchTally(TallyRequest),
    /// Store this proposal, then reload the known proposals.
    StoreProposal(Proposal),
    /// Store this block.
    StoreBlock(BlockData),
    /// Nothing: the block is through. Where it brought a new proposal,
    /// these are the proposals known now.
    Done(Option<Vec<u64>>),
}

/// What the pipeline waits for.
#[derive(Debug, Clone, PartialEq, Eq)]
pub enum Scan {
    /// The block itself.
    AwaitBlock,
    /// The node's answer on the stake address of this block.
    AwaitAddress(BlockData),
    /// The node's tally for the proposal that the vote of this block names.
    AwaitTally(BlockData, Vote),
    /// The storing of the new proposal that this block brought.
    AwaitProposalStored(BlockData),
    /// The storing of the block; with the proposals reloaded, if any were.
    AwaitBlockStored(Option<Vec<u64>>),
    /// Nothing more: the block is stored.
    Finished,
}

/// `res` is how the pipeline goes on with a block whose pool is recorded:
/// the vote of the block is read and recorded; a vote that names an unknown
/// proposal above the voting height asks for the tally, and any other block
/// is stored at once. A block whose vote cannot be read stops the pipeline.
pub open spec fn goes_on(block: BlockData, known: Seq<u64>, res: Result<(Scan, ScanAction), ScanError>) -> bool {
    match block.vote_spec() {
        Err(e) => res == Err::<(Scan, ScanAction), ScanError>(ScanError::Decode(e)),
        Ok(vote) => {
            let voted = BlockData { voting_info: vote, ..block };
            match detect_spec(block.height, vote, known) {
                Some(request) => res == Ok::<(Scan, ScanAction), ScanError>(
                    (Scan::AwaitTally(voted, vote->0), ScanAction::FetchTally(request)),
                ),
                None => res == Ok::<(Scan, ScanAction), ScanError>(
                    (Scan::AwaitBlockStored(None), ScanAction::StoreBlock(voted)),
                ),
            }
        },
    }
}

/// `res` is how the pipeline goes on with `block` once the node's answer
/// on its stake address is there, or once it is known to have none.
pub open spec fn attributes(
    block: BlockData,
    answer: Option<serde_json::Value>,
    known: Seq<u64>,
    res: Result<(Scan, ScanAction), ScanError>,
) -> bool {
    exists|after: BlockData| #[trigger]
        block.pool_recorded(block.answered_address(answer), after) && goes_on(after, known, res)
}

/// `res` is the step that the pipeline takes from `state` on `event`, with
/// the proposals `known` so far.
///
/// The block that arrives is asked for its stake address; a block without
/// the output that holds it, or with an output of another shape there,
/// stops the pipeline, also when it is met while the answer on its address
/// is awaited. An address is sent to the node to be validated, and the
/// answer gives the pool. Then the vote is read, and a new proposal is
/// tallied and stored before the block is. Any other event at any other
/// time is an error.
pub open spec fn steps_to(
    state: Scan,
    event: ScanEvent,
    known: Seq<u64>,
    res: Result<(Scan, ScanAction), ScanError>,
) -> bool {
    match (state, event) {
        (Scan::AwaitBlock, ScanEvent::Block(block)) => match block.stake_address_spec() {
            Err(e) => res == Err::<(Scan, ScanAction), ScanError>(ScanError::Decode(e)),
            Ok(Some(address)) => res == Ok::<(Scan, ScanAction), ScanError>(
                (Scan::AwaitAddress(block), ScanAction::ValidateAddress(address)),
            ),
            Ok(None) => attributes(block, None, known, res),
        },
        (Scan::AwaitAddress(block), ScanEvent::AddressAnswer(answer)) => match block.stake_address_spec() {
            Err(e) => res == Err::<(Scan, ScanAction), ScanError>(ScanError::Decode(e)),
            Ok(_) => attributes(block, Some(answer), known, res),
        },
        (Scan::AwaitTally(block, vote), ScanEvent::TallyAnswer(context)) => match tallyvotes_spec(
            context,
        ) {
            Err(e) => res == Err::<(Scan, ScanAction), ScanError>(ScanError::Protocol(e)),
            Ok(expected) => res matches Ok((Scan::AwaitProposalStored(kept), ScanAction::StoreProposal(proposal)))
                && kept == block && proposal.proposal_id == vote.proposal_id && tally_matches(
                proposal.stats@,
                expected,
            ) && proposal.well_formed(),
        },
        (Scan::AwaitProposalStored(block), ScanEvent::ProposalStored(ids)) => res == Ok::<
            (Scan, ScanAction),
            ScanError,
        >((Scan::AwaitBlockStored(Some(ids)), ScanAction::StoreBlock(block))),
        (Scan::AwaitBlockStored(reloaded), ScanEvent::BlockStored) => res == Ok::<
            (Scan, ScanAction),
            ScanError,
        >((Scan::Finished, ScanAction::Done(reloaded))),
        _ => res == Err::<(Scan, ScanAction), ScanError>(ScanError::UnexpectedEvent),
    }
}

impl Scan {
    /// Begins the pipeline for the block with this hash.
    pub fn begin(blockhash: String) -> (res: (Scan, ScanAction))
        ensures
            res == (Scan::AwaitBlock, ScanAction::FetchBlock(blockhash)),
    {
        (Scan::AwaitBlock, ScanAction::FetchBlock(blockhash))
    }

    /// Goes on with a block whose pool is recorded.
    fn go_on(block: BlockData, proposal_ids: &Vec<u64>) -> (res: Result<(Scan, ScanAction), ScanError>)
        ensures
            goes_on(block, proposal_ids@, res),
    {
        let mut block = block;
        match block.read_vote() {
            Err(e) => Err(ScanError::Decode(e)),
            Ok(()) => match getnewproposal(&block, proposal_ids) {
                Some(request) => match block.voting_info {
                    Some(vote) => Ok((Scan::AwaitTally(block, vote), ScanAction::FetchTally(request))),
                    // a tally is asked for only on a vote, so this arm is never taken
                    None => Err(ScanError::UnexpectedEvent),
                },
                None => Ok((Scan::AwaitBlockStored(None), ScanAction::StoreBlock(block))),
            },
        }
    }

    /// Takes an event and gives what the pipeline waits for next and what
    /// to do next.
    pub fn step(self, event: ScanEvent, proposal_ids: &Vec<u64>) -> (res: Result<
        (Scan, ScanAction),
        ScanError,
    >)
        ensures
            steps_to(self, event, proposal_ids@, res),
    {
        match (self, event) {
            (Scan::AwaitBlock, ScanEvent::Block(block)) => match block.stake_address() {
                Err(e) => Err(ScanError::Decode(e)),
                Ok(Some(address)) => Ok(
                    (Scan::AwaitAddress(block), ScanAction::ValidateAddress(address)),
                ),
                Ok(None) => {
                    let mut after = block;
                    match after.record_pool(None) {
                        Err(e) => Err(ScanError::Decode(e)),
                        Ok(()) => {
                            let res = Self::go_on(after, proposal_ids);
                            assert(block.pool_recorded(block.answered_address(None), after));
                            res
                        },
                    }
                },
            },
            (Scan::AwaitAddress(block), ScanEvent::AddressAnswer(answer)) => {
                let mut after = block;
                match after.validateaddress(Some(&answer)) {
                    Err(e) => Err(ScanError::Decode(e)),
                    Ok(()) => {
                        let res = Self::go_on(after, proposal_ids);
                        assert(block.pool_recorded(block.answered_address(Some(answer)), after));
                        res
                    },
                }
            },
            (Scan::AwaitTally(block, vote), ScanEvent::TallyAnswer(context)) => {
                match vote.gen_proposal(context) {
                    Ok(proposal) => Ok(
                        (Scan::AwaitProposalStored(block), ScanAction::StoreProposal(proposal)),
                    ),
                    Err(e) => Err(ScanError::Protocol(e)),
                }
            },
            (Scan::AwaitProposalStored(block), ScanEvent::ProposalStored(ids)) => Ok(
                (Scan::AwaitBlockStored(Some(ids)), ScanAction::StoreBlock(block)),
            ),
            (Scan::AwaitBlockStored(reloaded), ScanEvent::BlockStored) => Ok(
                (Scan::Finished, ScanAction::Done(reloaded)),
            ),
            _ => Err(ScanError::UnexpectedEvent),
        }
    }
}

/// The block is stored last. A step that asks to store the block leaves the
/// pipeline waiting for nothing but the storing, and it is taken either
/// when the block needs no proposal or when its proposal has been stored.
/// A step that asks to store a proposal is taken on the tally alone and
/// leaves the pipeline waiting for the proposal to be stored.
pub proof fn lemma_block_is_stored_last(
    state: Scan,
    event: ScanEvent,
    known: Seq<u64>,
    res: Result<(Scan, ScanAction), ScanError>,
)
    requires
        steps_to(state, event, known, res),
    ensures
        res matches Ok((next, ScanAction::StoreBlock(_))) ==> next is AwaitBlockStored && (state
            is AwaitBlock || state is AwaitAddress || state is AwaitProposalStored),
        res matches Ok((next, ScanAction::StoreProposal(_))) ==> next is AwaitProposalStored
            && state is AwaitTally,
        res matches Ok((next, ScanAction::Done(_))) ==> next is Finished && state is AwaitBlockStored,
        state is AwaitProposalStored && res is Ok ==> res matches Ok((_, ScanAction::StoreBlock(_))),
{
}

/// A block at or below the voting height never asks for a tally, whatever
/// its vote; nor does a block whose vote names a known proposal.
pub proof fn lemma_tally_only_for_new_proposals(
    state: Scan,
    event: ScanEvent,
    known: Seq<u64>,
    res: Result<(Scan, ScanAction), ScanError>,
)
    requires
        steps_to(state, event, known, res),
        res matches Ok((_, ScanAction::FetchTally(_))),
    ensures
        res matches Ok((Scan::AwaitTally(block, vote), ScanAction::FetchTally(request)))
            && block.height > crate::console::VOTING_HEIGHT && block.voting_info == Some(vote)
            && !known.contains(vote.proposal_id) && request == (TallyRequest {
            proposal_id: vote.proposal_id,
            height_start: crate::console::VOTING_HEIGHT,
            height_end: crate::console::TALLY_END,
        }),
{
}

} // verus!
