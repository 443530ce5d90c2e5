use chain_ingest::console::{
    BlockData, DecodeError, Proposal, ProtocolError, ScriptPubKey, TallyOption, TallyRequest,
    Transaction, Vote, Vout,
};
use chain_ingest::pipeline::{Scan, ScanAction, ScanError, ScanEvent};
use chain_ingest::pools::Pool;
use serde_json::Value;

fn json(text: &str) -> Value {
    serde_json::from_str(text).unwrap()
}

fn data_output(vote: Option<&str>) -> Vout {
    Vout::Data {
        n: 0,
        data_hex: "0473ad0a00".to_string(),
        smsgdifficulty: None,
        smsgfeerate_bits: None,
        treasury_fund_cfwd_bits: None,
        vout_type: "data".to_string(),
        vote: vote.map(|v| v.to_string()),
    }
}

fn standard_output(stakeaddress: Option<&str>) -> Vout {
    Vout::Standard {
        n: 1,
        vout_type: "standard".to_string(),
        value_bits: 12.5f64.to_bits(),
        valuesat: 1250000000,
        scriptpubkey: ScriptPubKey {
            addresses: None,
            stakeaddresses: stakeaddress.map(|a| vec![a.to_string()]),
            assembly: "OP_ISCOINSTAKE".to_string(),
            hex: "b863".to_string(),
            req_sigs: None,
            staking_type: "conditional_stake".to_string(),
        },
    }
}

fn block(height: u64, outputs: Vec<Vout>) -> BlockData {
    BlockData {
        bits: "1d00ffff".to_string(),
        blocksig: None,
        chainwork: "00".to_string(),
        difficulty_bits: 1.0f64.to_bits(),
        hash: "00aa".to_string(),
        hashproofofstake: None,
        height,
        mediantime: 1,
        merkleroot: "11".to_string(),
        n_tx: 1,
        nonce: 0,
        previousblockhash: None,
        prevstakemodifier: None,
        size: 100,
        stakekernelblockhash: None,
        stakekernelscript: None,
        stakekernelvalue_bits: None,
        strippedsize: 90,
        time: 2,
        tx: vec![Transaction {
            txid: "t0".to_string(),
            hash: "h0".to_string(),
            version: 160,
            size: 50,
            vsize: 50,
            weight: 200,
            locktime: 0,
            hex: "a0".to_string(),
            vin: Vec::new(),
            vout: outputs,
        }],
        version: 160,
        version_hex: "000000a0".to_string(),
        weight: 400,
        witnessmerkleroot: "22".to_string(),
        pool_info: None,
        voting_info: None,
    }
}

fn tally_answer() -> Value {
    json(
        r#"{"proposal": 43, "blocks_counted": 1000, "height_start": 710800,
            "height_end": 2147483647, "Yes": "75, 75.00%", "No": "25, 25.00%"}"#,
    )
}

#[test]
fn the_pipeline_begins_with_fetching_the_block() {
    assert_eq!(
        Scan::begin("00aa".to_string()),
        (Scan::AwaitBlock, ScanAction::FetchBlock("00aa".to_string()))
    );
}

#[test]
fn a_block_without_stake_address_and_vote_is_stored_at_once() {
    let b = block(5, vec![data_output(None), standard_output(None)]);
    let (state, action) = Scan::AwaitBlock.step(ScanEvent::Block(b.clone()), &Vec::new()).unwrap();
    assert_eq!(state, Scan::AwaitBlockStored(None));
    assert_eq!(action, ScanAction::StoreBlock(b));
    let (state, action) = state.step(ScanEvent::BlockStored, &Vec::new()).unwrap();
    assert_eq!(state, Scan::Finished);
    assert_eq!(action, ScanAction::Done(None));
}

#[test]
fn a_stake_address_is_sent_to_the_node_and_gives_the_pool() {
    let b = block(5, vec![data_output(None), standard_output(Some("Gstake"))]);
    let (state, action) = Scan::AwaitBlock.step(ScanEvent::Block(b.clone()), &Vec::new()).unwrap();
    assert_eq!(state, Scan::AwaitAddress(b.clone()));
    assert_eq!(action, ScanAction::ValidateAddress("Gstake".to_string()));
    let answer =
        json(r#"{"isvalid": true, "stakeonly_address": "gcs12ezltnndc6f6ds4zcwdy82d6mv94xx2anch950"}"#);
    let (state, action) = state.step(ScanEvent::AddressAnswer(answer), &Vec::new()).unwrap();
    let mut expected = b;
    expected.pool_info = Some(Pool {
        pubkey: "gcs12ezltnndc6f6ds4zcwdy82d6mv94xx2anch950".to_string(),
        url: Some("https://ghost.coldstake.io/".to_string()),
        pool_is_active: Some(false),
    });
    assert_eq!(state, Scan::AwaitBlockStored(None));
    assert_eq!(action, ScanAction::StoreBlock(expected));
}

#[test]
fn an_unlisted_pool_leaves_the_block_without_pool() {
    let b = block(5, vec![data_output(None), standard_output(Some("Gstake"))]);
    let (state, _) = Scan::AwaitBlock.step(ScanEvent::Block(b.clone()), &Vec::new()).unwrap();
    let answer = json(r#"{"isvalid": true, "stakeonly_address": "gcs1nobody"}"#);
    let (_, action) = state.step(ScanEvent::AddressAnswer(answer), &Vec::new()).unwrap();
    assert_eq!(action, ScanAction::StoreBlock(b));
}

#[test]
fn a_second_output_that_is_no_standard_output_stops_the_pipeline() {
    let b = block(800000, vec![data_output(Some("43, 1")), data_output(None)]);
    assert_eq!(
        Scan::AwaitBlock.step(ScanEvent::Block(b), &Vec::new()),
        Err(ScanError::Decode(DecodeError::UnexpectedVariant))
    );
    let b = block(800000, vec![data_output(Some("43, 1"))]);
    assert_eq!(
        Scan::AwaitBlock.step(ScanEvent::Block(b), &Vec::new()),
        Err(ScanError::Decode(DecodeError::MissingOutput))
    );
}

#[test]
fn a_vote_that_cannot_be_read_stops_the_pipeline() {
    let b = block(800000, vec![data_output(Some("43")), standard_output(None)]);
    assert_eq!(
        Scan::AwaitBlock.step(ScanEvent::Block(b), &Vec::new()),
        Err(ScanError::Decode(DecodeError::VoteFieldCount))
    );
    let b = block(800000, vec![data_output(Some("x, 1")), standard_output(Some("Gstake"))]);
    let (state, _) = Scan::AwaitBlock.step(ScanEvent::Block(b), &Vec::new()).unwrap();
    assert_eq!(
        state.step(ScanEvent::AddressAnswer(json("{}")), &Vec::new()),
        Err(ScanError::Decode(DecodeError::VoteNotNumeric))
    );
}

#[test]
fn a_new_proposal_is_tallied_and_stored_before_the_block() {
    let b = block(800000, vec![data_output(Some("43, 1")), standard_output(None)]);
    let known = vec![42];
    let vote = Vote { proposal_id: 43, voted_for_option: 1 };
    let mut voted = b.clone();
    voted.voting_info = Some(vote);
    let (state, action) = Scan::AwaitBlock.step(ScanEvent::Block(b), &known).unwrap();
    assert_eq!(state, Scan::AwaitTally(voted.clone(), vote));
    assert_eq!(
        action,
        ScanAction::FetchTally(TallyRequest {
            proposal_id: 43,
            height_start: 710800,
            height_end: 2147483647,
        })
    );
    let (state, action) = state.step(ScanEvent::TallyAnswer(tally_answer()), &known).unwrap();
    assert_eq!(state, Scan::AwaitProposalStored(voted.clone()));
    assert_eq!(
        action,
        ScanAction::StoreProposal(Proposal {
            proposal_id: 43,
            stats: vec![
                TallyOption { option: "No".to_string(), percentage: 25, ratio: "25.00".to_string() },
                TallyOption { option: "Yes".to_string(), percentage: 75, ratio: "75.00".to_string() },
            ],
        })
    );
    let (state, action) = state.step(ScanEvent::ProposalStored(vec![42, 43]), &known).unwrap();
    assert_eq!(state, Scan::AwaitBlockStored(Some(vec![42, 43])));
    assert_eq!(action, ScanAction::StoreBlock(voted));
    let (state, action) = state.step(ScanEvent::BlockStored, &known).unwrap();
    assert_eq!(state, Scan::Finished);
    assert_eq!(action, ScanAction::Done(Some(vec![42, 43])));
}

#[test]
fn a_vote_for_a_known_proposal_asks_for_no_tally() {
    let b = block(800000, vec![data_output(Some("42, 1")), standard_output(None)]);
    let mut voted = b.clone();
    voted.voting_info = Some(Vote { proposal_id: 42, voted_for_option: 1 });
    let (state, action) = Scan::AwaitBlock.step(ScanEvent::Block(b), &vec![42]).unwrap();
    assert_eq!(state, Scan::AwaitBlockStored(None));
    assert_eq!(action, ScanAction::StoreBlock(voted));
}

#[test]
fn a_vote_at_the_voting_height_is_recorded_and_asks_for_no_tally() {
    let b = block(710800, vec![data_output(Some("43, 1")), standard_output(None)]);
    let mut voted = b.clone();
    voted.voting_info = Some(Vote { proposal_id: 43, voted_for_option: 1 });
    let (state, action) = Scan::AwaitBlock.step(ScanEvent::Block(b), &Vec::new()).unwrap();
    assert_eq!(state, Scan::AwaitBlockStored(None));
    assert_eq!(action, ScanAction::StoreBlock(voted));
}

#[test]
fn a_block_below_the_voting_height_is_stored_without_a_vote() {
    let b = block(710799, vec![data_output(Some("43, 1")), standard_output(None)]);
    let (state, action) = Scan::AwaitBlock.step(ScanEvent::Block(b.clone()), &Vec::new()).unwrap();
    assert_eq!(state, Scan::AwaitBlockStored(None));
    assert_eq!(action, ScanAction::StoreBlock(b));
}

#[test]
fn a_block_without_stake_destination_is_refused_while_its_answer_is_awaited() {
    let b = block(800000, vec![data_output(Some("43, 1")), data_output(None)]);
    let answer =
        json(r#"{"isvalid": true, "stakeonly_address": "gcs12ezltnndc6f6ds4zcwdy82d6mv94xx2anch950"}"#);
    assert_eq!(
        Scan::AwaitAddress(b).step(ScanEvent::AddressAnswer(answer), &Vec::new()),
        Err(ScanError::Decode(DecodeError::UnexpectedVariant))
    );
    let b = block(800000, vec![data_output(Some("43, 1"))]);
    assert_eq!(
        Scan::AwaitAddress(b).step(ScanEvent::AddressAnswer(json("{}")), &Vec::new()),
        Err(ScanError::Decode(DecodeError::MissingOutput))
    );
}

#[test]
fn a_tally_that_cannot_be_read_stops_the_pipeline() {
    let b = block(800000, vec![data_output(Some("43, 1")), standard_output(None)]);
    let (state, _) = Scan::AwaitBlock.step(ScanEvent::Block(b), &Vec::new()).unwrap();
    assert_eq!(
        state.clone().step(ScanEvent::TallyAnswer(json("{}")), &Vec::new()),
        Err(ScanError::Protocol(ProtocolError::MissingMetadata))
    );
    assert_eq!(
        state.clone().step(ScanEvent::TallyAnswer(json("5")), &Vec::new()),
        Err(ScanError::Protocol(ProtocolError::MalformedResponse))
    );
    let malformed = json(
        r#"{"proposal": 43, "blocks_counted": 1000, "height_start": 710800,
            "height_end": 2147483647, "Yes": "most"}"#,
    );
    assert_eq!(
        state.step(ScanEvent::TallyAnswer(malformed), &Vec::new()),
        Err(ScanError::Protocol(ProtocolError::MalformedTally))
    );
}

#[test]
fn an_event_that_the_pipeline_does_not_wait_for_is_an_error() {
    let b = block(5, vec![data_output(None), standard_output(None)]);
    assert_eq!(
        Scan::AwaitBlock.step(ScanEvent::BlockStored, &Vec::new()),
        Err(ScanError::UnexpectedEvent)
    );
    assert_eq!(
        Scan::AwaitAddress(b.clone()).step(ScanEvent::Block(b.clone()), &Vec::new()),
        Err(ScanError::UnexpectedEvent)
    );
    assert_eq!(
        Scan::AwaitProposalStored(b.clone()).step(ScanEvent::BlockStored, &Vec::new()),
        Err(ScanError::UnexpectedEvent)
    );
    assert_eq!(
        Scan::AwaitBlockStored(None).step(ScanEvent::ProposalStored(Vec::new()), &Vec::new()),
        Err(ScanError::UnexpectedEvent)
    );
    assert_eq!(
        Scan::Finished.step(ScanEvent::BlockStored, &Vec::new()),
        Err(ScanError::UnexpectedEvent)
    );
}
