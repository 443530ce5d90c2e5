//! The block record and its parts, the decoder of transaction outputs, and
//! what is read out of a block: the stake address, the pool and the vote.

use crate::pools::{attribute, found_in, pool_table, Pool};
use crate::rpc::{
    entries_of, entry_texts, json_entries, json_member, json_text, json_u64, member_of, number_of,
    text_of, RPCResponse,
};
use crate::text::{
    chars_of, decimal, decimal_digits, is_number, number, parse_u64, parse_u64_spec, reads,
    same_text, split, split_spec, string_of, strip_char, trim, trim_spec, views, without_char,
};
use vstd::prelude::*;

verus! {

/// Why a block could not be read.
#[derive(Debug, Clone, Copy, PartialEq, Eq, Structural)]
pub enum DecodeError {
    /// An output has the fields of none of the four shapes.
    UnrecognizedOutputShape,
    /// The block has no output at a place where one is read.
    MissingOutput,
    /// The output that should carry the stake destination is no standard output.
    UnexpectedVariant,
    /// The stake destination lists its stake addresses and the list is empty.
    EmptyStakeAddresses,
    /// A vote payload does not have exactly two fields.
    VoteFieldCount,
    /// A field of a vote payload is no number.
    VoteNotNumeric,
}

/// The locking script of a standard output.
#[derive(Debug, Clone, PartialEq, Eq)]
pub struct ScriptPubKey {
    pub addresses: Option<Vec<String>>,
    pub stakeaddresses: Option<Vec<String>>,
    pub assembly: String,
    pub hex: String,
    pub req_sigs: Option<u64>,
    pub staking_type: String,
}

/// The unlocking script of a standard input.
#[derive(Debug, Clone, PartialEq, Eq)]
pub struct ScriptSig {
    pub assembly: String,
    pub hex: String,
}

/// A transaction input.
#[derive(Debug, Clone, PartialEq, Eq)]
pub enum Vin {
    Standard { txid: String, vout: u64, script_sig: ScriptSig },
    Anon {
        input_type: String,
        num_inputs: u64,
        ring_size: u64,
        txinwitness: Vec<String>,
        sequence: u64,
    },
}

/// What the node says of an address.
#[derive(Debug, Clone, PartialEq, Eq)]
pub struct ValidationConclusion {
    pub isvalid: bool,
    pub stakeonly_address: String,
}

/// A transaction output as it arrives: every field that any of the four
/// shapes knows, present or absent. A number with a fraction is held as the
/// bit pattern of its double-precision value.
#[derive(Debug, Clone, PartialEq, Eq)]
pub struct RawVout {
    pub n: Option<u64>,
    pub vout_type: Option<String>,
    pub value_bits: Option<u64>,
    pub valuesat: Option<u64>,
    pub scriptpubkey: Option<ScriptPubKey>,
    pub data_hex: Option<String>,
    pub smsgdifficulty: Option<String>,
    pub smsgfeerate_bits: Option<u64>,
    pub treasury_fund_cfwd_bits: Option<u64>,
    pub vote: Option<String>,
    pub pubkey: Option<String>,
    pub value_commitment: Option<String>,
    pub rangeproof: Option<String>,
}

/// A transaction output in one of its four shapes.
#[derive(Debug, Clone, PartialEq, Eq)]
pub enum Vout {
    /// Embedded data, which may carry a vote.
    Data {
        n: u64,
        data_hex: String,
        smsgdifficulty: Option<String>,
        smsgfeerate_bits: Option<u64>,
        treasury_fund_cfwd_bits: Option<u64>,
        vout_type: String,
        vote: Option<String>,
    },
    /// A plain transfer of value to a destination.
    Standard { n: u64, vout_type: String, value_bits: u64, valuesat: u64, scriptpubkey: ScriptPubKey },
    /// A transfer whose amount stands behind a commitment.
    Blind {
        n: u64,
        vout_type: String,
        pubkey: Option<String>,
        value_commitment: String,
        data_hex: String,
        rangeproof: String,
    },
    /// A ring-signed transfer whose amount stands behind a commitment.
    Anon {
        n: u64,
        vout_type: String,
        pubkey: Option<String>,
        value_commitment: String,
        data_hex: String,
        rangeproof: String,
    },
}

impl RawVout {
    /// The fields of a standard output are all there, and no other field is.
    pub open spec fn is_standard(self) -> bool {
        &&& self.n is Some
        &&& self.vout_type is Some
        &&& self.value_bits is Some
        &&& self.valuesat is Some
        &&& self.scriptpubkey is Some
        &&& self.data_hex is None
        &&& self.smsgdifficulty is None
        &&& self.smsgfeerate_bits is None
        &&& self.treasury_fund_cfwd_bits is None
        &&& self.vote is None
        &&& self.pubkey is None
        &&& self.value_commitment is None
        &&& self.rangeproof is None
    }

    /// The required fields of a data output are there, and no field that a
    /// data output does not know. Its four optional fields are free.
    pub open spec fn is_data(self) -> bool {
        &&& self.n is Some
        &&& self.vout_type is Some
        &&& self.data_hex is Some
        &&& self.value_bits is None
        &&& self.valuesat is None
        &&& self.scriptpubkey is None
        &&& self.pubkey is None
        &&& self.value_commitment is None
        &&& self.rangeproof is None
    }

    /// The required fields of a blinded output are there, and no field that
    /// a blinded output does not know. The public key is free.
    pub open spec fn is_blind(self) -> bool {
        &&& self.n is Some
        &&& self.vout_type is Some
        &&& self.value_commitment is Some
        &&& self.data_hex is Some
        &&& self.rangeproof is Some
        &&& self.value_bits is None
        &&& self.valuesat is None
        &&& self.scriptpubkey is None
        &&& self.smsgdifficulty is None
        &&& self.smsgfeerate_bits is None
        &&& self.treasury_fund_cfwd_bits is None
        &&& self.vote is None
    }

    /// The required fields of an anonymous output are there, and no field
    /// that an anonymous output does not know. The public key is free.
    pub open spec fn is_anon(self) -> bool {
        &&& self.n is Some
        &&& self.vout_type is Some
        &&& self.value_commitment is Some
        &&& self.data_hex is Some
        &&& self.rangeproof is Some
        &&& self.value_bits is None
        &&& self.valuesat is None
        &&& self.scriptpubkey is None
        &&& self.smsgdifficulty is None
        &&& self.smsgfeerate_bits is None
        &&& self.treasury_fund_cfwd_bits is None
        &&& self.vote is None
    }

    /// The output that these fields decode to. The shapes are tried in the
    /// order standard, data, blinded, anonymous, and the first that fits is
    /// taken.
    pub open spec fn decode_spec(self) -> Result<Vout, DecodeError> {
        if self.is_standard() {
            Ok(
                Vout::Standard {
                    n: self.n->0,
                    vout_type: self.vout_type->0,
                    value_bits: self.value_bits->0,
                    valuesat: self.valuesat->0,
                    scriptpubkey: self.scriptpubkey->0,
                },
            )
        } else if self.is_data() {
            Ok(
                Vout::Data {
                    n: self.n->0,
                    data_hex: self.data_hex->0,
                    smsgdifficulty: self.smsgdifficulty,
                    smsgfeerate_bits: self.smsgfeerate_bits,
                    treasury_fund_cfwd_bits: self.treasury_fund_cfwd_bits,
                    vout_type: self.vout_type->0,
                    vote: self.vote,
                },
            )
        } else if self.is_blind() {
            Ok(
                Vout::Blind {
                    n: self.n->0,
                    vout_type: self.vout_type->0,
                    pubkey: self.pubkey,
                    value_commitment: self.value_commitment->0,
                    data_hex: self.data_hex->0,
                    rangeproof: self.rangeproof->0,
                },
            )
        } else if self.is_anon() {
            Ok(
                Vout::Anon {
                    n: self.n->0,
                    vout_type: self.vout_type->0,
                    pubkey: self.pubkey,
                    value_commitment: self.value_commitment->0,
                    data_hex: self.data_hex->0,
                    rangeproof: self.rangeproof->0,
                },
            )
        } else {
            Err(DecodeError::UnrecognizedOutputShape)
        }
    }

    /// A record with no field.
    pub fn empty() -> (res: RawVout)
        ensures
            res == (RawVout {
                n: None,
                vout_type: None,
                value_bits: None,
                valuesat: None,
                scriptpubkey: None,
                data_hex: None,
                smsgdifficulty: None,
                smsgfeerate_bits: None,
                treasury_fund_cfwd_bits: None,
                vote: None,
                pubkey: None,
                value_commitment: None,
                rangeproof: None,
            }),
    {
        RawVout {
            n: None,
            vout_type: None,
            value_bits: None,
            valuesat: None,
            scriptpubkey: None,
            data_hex: None,
            smsgdifficulty: None,
            smsgfeerate_bits: None,
            treasury_fund_cfwd_bits: None,
            vote: None,
            pubkey: None,
            value_commitment: None,
            rangeproof: None,
        }
    }

    /// Whether no field is present but those that only a data output knows.
    fn lacks_value_fields(&self) -> (res: bool)
        ensures
            res == (self.value_bits is None && self.valuesat is None && self.scriptpubkey
                is None),
    {
        self.value_bits.is_none() && self.valuesat.is_none() && self.scriptpubkey.is_none()
    }

    /// Whether none of the optional fields of a data output is present.
    fn lacks_data_fields(&self) -> (res: bool)
        ensures
            res == (self.smsgdifficulty is None && self.smsgfeerate_bits is None
                && self.treasury_fund_cfwd_bits is None && self.vote is None),
    {
        self.smsgdifficulty.is_none() && self.smsgfeerate_bits.is_none()
            && self.treasury_fund_cfwd_bits.is_none() && self.vote.is_none()
    }

    /// Whether none of the fields of a hidden amount is present.
    fn lacks_hidden_fields(&self) -> (res: bool)
        ensures
            res == (self.pubkey is None && self.value_commitment is None && self.rangeproof
                is None),
    {
        self.pubkey.is_none() && self.value_commitment.is_none() && self.rangeproof.is_none()
    }

    /// Decodes the output: infers its shape from the fields that are present.
    ///
    /// An anonymous output is written with the same fields as a blinded one,
    /// and the blinded shape is tried first: fields that fit both decode as
    /// blinded.
    pub fn decode(self) -> (res: Result<Vout, DecodeError>)
        ensures
            res == self.decode_spec(),
    {
        let tagged: bool = self.n.is_some() && self.vout_type.is_some();
        if !tagged {
            return Err(DecodeError::UnrecognizedOutputShape);
        }
        if self.value_bits.is_some() && self.valuesat.is_some() && self.scriptpubkey.is_some()
            && self.data_hex.is_none() && self.lacks_data_fields() && self.lacks_hidden_fields() {
            Ok(
                Vout::Standard {
                    n: self.n.unwrap(),
                    vout_type: self.vout_type.unwrap(),
                    value_bits: self.value_bits.unwrap(),
                    valuesat: self.valuesat.unwrap(),
                    scriptpubkey: self.scriptpubkey.unwrap(),
                },
            )
        } else if self.data_hex.is_some() && self.lacks_value_fields()
            && self.lacks_hidden_fields() {
            Ok(
                Vout::Data {
                    n: self.n.unwrap(),
                    data_hex: self.data_hex.unwrap(),
                    smsgdifficulty: self.smsgdifficulty,
                    smsgfeerate_bits: self.smsgfeerate_bits,
                    treasury_fund_cfwd_bits: self.treasury_fund_cfwd_bits,
                    vout_type: self.vout_type.unwrap(),
                    vote: self.vote,
                },
            )
        } else if self.value_commitment.is_some() && self.data_hex.is_some()
            && self.rangeproof.is_some() && self.lacks_value_fields() && self.lacks_data_fields() {
            Ok(
                Vout::Blind {
                    n: self.n.unwrap(),
                    vout_type: self.vout_type.unwrap(),
                    pubkey: self.pubkey,
                    value_commitment: self.value_commitment.unwrap(),
                    data_hex: self.data_hex.unwrap(),
                    rangeproof: self.rangeproof.unwrap(),
                },
            )
        } else {
            Err(DecodeError::UnrecognizedOutputShape)
        }
    }
}

impl Vout {
    /// The fields that this output is written with.
    pub open spec fn encode_spec(self) -> RawVout {
        match self {
            Vout::Data {
                n,
                data_hex,
                smsgdifficulty,
                smsgfeerate_bits,
                treasury_fund_cfwd_bits,
                vout_type,
                vote,
            } => RawVout {
                n: Some(n),
                vout_type: Some(vout_type),
                value_bits: None,
                valuesat: None,
                scriptpubkey: None,
                data_hex: Some(data_hex),
                smsgdifficulty,
                smsgfeerate_bits,
                treasury_fund_cfwd_bits,
                vote,
                pubkey: None,
                value_commitment: None,
                rangeproof: None,
            },
            Vout::Standard { n, vout_type, value_bits, valuesat, scriptpubkey } => RawVout {
                n: Some(n),
                vout_type: Some(vout_type),
                value_bits: Some(value_bits),
                valuesat: Some(valuesat),
                scriptpubkey: Some(scriptpubkey),
                data_hex: None,
                smsgdifficulty: None,
                smsgfeerate_bits: None,
                treasury_fund_cfwd_bits: None,
                vote: None,
                pubkey: None,
                value_commitment: None,
                rangeproof: None,
            },
            Vout::Blind { n, vout_type, pubkey, value_commitment, data_hex, rangeproof } => RawVout {
                n: Some(n),
                vout_type: Some(vout_type),
                value_bits: None,
                valuesat: None,
                scriptpubkey: None,
                data_hex: Some(data_hex),
                smsgdifficulty: None,
                smsgfeerate_bits: None,
                treasury_fund_cfwd_bits: None,
                vote: None,
                pubkey,
                value_commitment: Some(value_commitment),
                rangeproof: Some(rangeproof),
            },
            Vout::Anon { n, vout_type, pubkey, value_commitment, data_hex, rangeproof } => RawVout {
                n: Some(n),
                vout_type: Some(vout_type),
                value_bits: None,
                valuesat: None,
                scriptpubkey: None,
                data_hex: Some(data_hex),
                smsgdifficulty: None,
                smsgfeerate_bits: None,
                treasury_fund_cfwd_bits: None,
                vote: None,
                pubkey,
                value_commitment: Some(value_commitment),
                rangeproof: Some(rangeproof),
            },
        }
    }

    /// Writes the output back as the fields it was read from.
    pub fn encode(self) -> (res: RawVout)
        ensures
            res == self.encode_spec(),
    {
        match self {
            Vout::Data {
                n,
                data_hex,
                smsgdifficulty,
                smsgfeerate_bits,
                treasury_fund_cfwd_bits,
                vout_type,
                vote,
            } => RawVout {
                n: Some(n),
                vout_type: Some(vout_type),
                value_bits: None,
                valuesat: None,
                scriptpubkey: None,
                data_hex: Some(data_hex),
                smsgdifficulty,
                smsgfeerate_bits,
                treasury_fund_cfwd_bits,
                vote,
                pubkey: None,
                value_commitment: None,
                rangeproof: None,
            },
            Vout::Standard { n, vout_type, value_bits, valuesat, scriptpubkey } => RawVout {
                n: Some(n),
                vout_type: Some(vout_type),
                value_bits: Some(value_bits),
                valuesat: Some(valuesat),
                scriptpubkey: Some(scriptpubkey),
                data_hex: None,
                smsgdifficulty: None,
                smsgfeerate_bits: None,
                treasury_fund_cfwd_bits: None,
                vote: None,
                pubkey: None,
                value_commitment: None,
                rangeproof: None,
            },
            Vout::Blind { n, vout_type, pubkey, value_commitment, data_hex, rangeproof } => RawVout {
                n: Some(n),
                vout_type: Some(vout_type),
                value_bits: None,
                valuesat: None,
                scriptpubkey: None,
                data_hex: Some(data_hex),
                smsgdifficulty: None,
                smsgfeerate_bits: None,
                treasury_fund_cfwd_bits: None,
                vote: None,
                pubkey,
                value_commitment: Some(value_commitment),
                rangeproof: Some(rangeproof),
            },
            Vout::Anon { n, vout_type, pubkey, value_commitment, data_hex, rangeproof } => RawVout {
                n: Some(n),
                vout_type: Some(vout_type),
                value_bits: None,
                valuesat: None,
                scriptpubkey: None,
                data_hex: Some(data_hex),
                smsgdifficulty: None,
                smsgfeerate_bits: None,
                treasury_fund_cfwd_bits: None,
                vote: None,
                pubkey,
                value_commitment: Some(value_commitment),
                rangeproof: Some(rangeproof),
            },
        }
    }
}

/// Decoding loses nothing: the fields that decode to an output are the
/// fields that the output is written back with.
pub proof fn lemma_decode_then_encode(raw: RawVout)
    requires
        raw.decode_spec() is Ok,
    ensures
        raw.decode_spec()->Ok_0.encode_spec() == raw,
{
}

/// What is written decodes: a standard, a data or a blinded output decodes
/// from its own fields to itself. An anonymous output has the fields of a
/// blinded one, which is tried first, and decodes to the blinded output with
/// the same fields.
pub proof fn lemma_encode_then_decode(out: Vout)
    ensures
        !(out is Anon) ==> out.encode_spec().decode_spec() == Ok::<Vout, DecodeError>(out),
        out matches Vout::Anon { n, vout_type, pubkey, value_commitment, data_hex, rangeproof }
            ==> out.encode_spec().decode_spec() == Ok::<Vout, DecodeError>(
            Vout::Blind { n, vout_type, pubkey, value_commitment, data_hex, rangeproof },
        ),
{
}

/// Every output of `raws` has one of the four shapes.
pub open spec fn all_decodable(raws: Seq<RawVout>) -> bool {
    forall|i: int| 0 <= i < raws.len() ==> (#[trigger] raws[i]).decode_spec() is Ok
}

/// Decodes the outputs of a transaction, in order. One output without a
/// known shape fails the whole transaction.
pub fn decode_outputs(raws: Vec<RawVout>) -> (res: Result<Vec<Vout>, DecodeError>)
    ensures
        res is Ok <==> all_decodable(raws@),
        res matches Ok(outs) ==> outs.len() == raws.len() && forall|i: int|
            0 <= i < raws.len() ==> (#[trigger] raws[i]).decode_spec() == Ok::<Vout, DecodeError>(
                outs[i],
            ),
        res matches Err(e) ==> e == DecodeError::UnrecognizedOutputShape,
{
    let mut outs: Vec<Vout> = Vec::new();
    for raw in it: raws
        invariant
            it.seq() == raws@,
            outs.len() == it.index(),
            forall|i: int|
                0 <= i < it.index() ==> (#[trigger] raws[i]).decode_spec() == Ok::<
                    Vout,
                    DecodeError,
                >(outs[i]),
    {
        match raw.decode() {
            Ok(out) => {
                outs.push(out);
            },
            Err(e) => {
                return Err(e);
            },
        }
    }
    Ok(outs)
}

/// A vote that a block casts: the proposal and the option chosen.
#[derive(Debug, Clone, Copy, PartialEq, Eq, Structural)]
pub struct Vote {
    pub proposal_id: u64,
    pub voted_for_option: u64,
}

/// The separator between the fields of a vote payload: a comma and a space.
pub open spec fn comma_space() -> Seq<char> {
    seq![',', ' ']
}

/// The vote that a payload carries: two numbers parted by a comma and a
/// space, the proposal first and the option second.
pub open spec fn vote_spec(payload: Seq<char>) -> Result<Vote, DecodeError> {
    let fields = split_spec(payload, comma_space());
    if fields.len() != 2 {
        Err(DecodeError::VoteFieldCount)
    } else {
        match (parse_u64_spec(fields[0]), parse_u64_spec(fields[1])) {
            (Some(proposal_id), Some(voted_for_option)) => Ok(
                Vote { proposal_id, voted_for_option },
            ),
            _ => Err(DecodeError::VoteNotNumeric),
        }
    }
}

/// The separator between the fields of a payload, as characters.
pub fn separator() -> (res: Vec<char>)
    ensures
        res@ == comma_space(),
{
    let mut sep: Vec<char> = Vec::new();
    sep.push(',');
    sep.push(' ');
    assert(sep@ =~= comma_space());
    sep
}

/// Reads the vote out of a payload.
pub fn parse_vote(payload: &str) -> (res: Result<Vote, DecodeError>)
    ensures
        res == vote_spec(payload@),
{
    let text = chars_of(payload);
    let sep = separator();
    let fields = split(&text, &sep);
    assert(views(fields@).len() == fields.len());
    if fields.len() != 2 {
        return Err(DecodeError::VoteFieldCount);
    }
    assert(views(fields@)[0] == fields[0]@);
    assert(views(fields@)[1] == fields[1]@);
    match (parse_u64(&fields[0]), parse_u64(&fields[1])) {
        (Some(proposal_id), Some(voted_for_option)) => Ok(Vote { proposal_id, voted_for_option }),
        _ => Err(DecodeError::VoteNotNumeric),
    }
}

/// A transaction of a block.
#[derive(Debug, Clone, PartialEq, Eq)]
pub struct Transaction {
    pub txid: String,
    pub hash: String,
    pub version: u64,
    pub size: u64,
    pub vsize: u64,
    pub weight: u64,
    pub locktime: u64,
    pub hex: String,
    pub vin: Vec<Vin>,
    pub vout: Vec<Vout>,
}

/// The record of one block. A number with a fraction is held as the bit
/// pattern of its double-precision value.
#[derive(Debug, Clone, PartialEq, Eq)]
pub struct BlockData {
    pub bits: String,
    pub blocksig: Option<String>,
    pub chainwork: String,
    pub difficulty_bits: u64,
    pub hash: String,
    pub hashproofofstake: Option<String>,
    pub height: u64,
    pub mediantime: u64,
    pub merkleroot: String,
    pub n_tx: u64,
    pub nonce: u64,
    pub previousblockhash: Option<String>,
    pub prevstakemodifier: Option<String>,
    pub size: u64,
    pub stakekernelblockhash: Option<String>,
    pub stakekernelscript: Option<String>,
    pub stakekernelvalue_bits: Option<u64>,
    pub strippedsize: u64,
    pub time: u64,
    pub tx: Vec<Transaction>,
    pub version: u64,
    pub version_hex: String,
    pub weight: u64,
    pub witnessmerkleroot: String,
    pub pool_info: Option<Pool>,
    pub voting_info: Option<Vote>,
}

impl BlockData {
    /// The output at place `index` of the first transaction, where there is one.
    pub open spec fn first_output(self, index: int) -> Option<Vout> {
        if self.tx.len() > 0 && 0 <= index < self.tx[0].vout.len() {
            Some(self.tx[0].vout[index])
        } else {
            None
        }
    }

    /// The stake address of the block. The second output of the first
    /// transaction must be a standard output. Where its script names no
    /// stake addresses the block has none; where it names some, the first
    /// is the block's.
    pub open spec fn stake_address_spec(self) -> Result<Option<String>, DecodeError> {
        match self.first_output(1) {
            None => Err(DecodeError::MissingOutput),
            Some(Vout::Standard { scriptpubkey, .. }) => match scriptpubkey.stakeaddresses {
                None => Ok(None),
                Some(list) => if list.len() > 0 {
                    Ok(Some(list[0]))
                } else {
                    Err(DecodeError::EmptyStakeAddresses)
                },
            },
            Some(_) => Err(DecodeError::UnexpectedVariant),
        }
    }

    /// Reads the stake address of the block.
    pub fn stake_address(&self) -> (res: Result<Option<String>, DecodeError>)
        ensures
            res == self.stake_address_spec(),
    {
        if self.tx.len() == 0 || self.tx[0].vout.len() < 2 {
            return Err(DecodeError::MissingOutput);
        }
        match &self.tx[0].vout[1] {
            Vout::Standard { scriptpubkey, .. } => match &scriptpubkey.stakeaddresses {
                None => Ok(None),
                Some(list) => if list.len() > 0 {
                    Ok(Some(list[0].clone()))
                } else {
                    Err(DecodeError::EmptyStakeAddresses)
                },
            },
            _ => Err(DecodeError::UnexpectedVariant),
        }
    }

    /// The stake-only address that counts for the block: the one that the
    /// node's answer names, where the block has a stake address and an
    /// answer was given; nothing otherwise.
    pub open spec fn answered_address(self, answer: Option<serde_json::Value>) -> Option<Seq<char>> {
        match (self.stake_address_spec(), answer) {
            (Ok(Some(_)), Some(value)) => stakeonly_spec(value),
            _ => None,
        }
    }

    /// `after` is this block with its pool recorded for the stake-only
    /// address given: the first pool of the table that has the address as
    /// its key, and no pool where no pool has it or no address is given.
    /// Nothing else of the block has changed.
    pub open spec fn pool_recorded(self, stakeonly: Option<Seq<char>>, after: BlockData) -> bool {
        &&& after == (BlockData { pool_info: after.pool_info, ..self })
        &&& match stakeonly {
            Some(address) => found_in(pool_table(), address, after.pool_info),
            None => after.pool_info is None,
        }
    }

    /// Records the pool of the block from the node's answer to the
    /// validation of the block's stake address, or from nothing when the
    /// block has no stake address.
    ///
    /// The block must have a standard output in the place of the stake
    /// destination: a block without one is refused with the error that
    /// `stake_address` gives, and is left as it was. The stake-only address
    /// that the answer names is looked up in the table of known pools; an
    /// answer that names none gives no pool.
    pub fn validateaddress(&mut self, answer: Option<&serde_json::Value>) -> (res: Result<
        (),
        DecodeError,
    >)
        ensures
            match old(self).stake_address_spec() {
                Err(e) => res == Err::<(), DecodeError>(e) && *final(self) == *old(self),
                Ok(_) => res is Ok && old(self).pool_recorded(
                    old(self).answered_address(
                        match answer {
                            Some(value) => Some(*value),
                            None => None,
                        },
                    ),
                    *final(self),
                ),
            },
    {
        match answer {
            Some(value) => match stakeonly_address(value) {
                Some(address) => self.record_pool(Some(address.as_str())),
                None => self.record_pool(None),
            },
            None => self.record_pool(None),
        }
    }

    /// Records the pool of the block. `stakeonly_address` is what the node
    /// gave for the block's stake address, or nothing; it is looked up in
    /// the table of known pools. A block without a stake address gets no
    /// pool, whatever is given.
    ///
    /// The block must have a standard output in the place of the stake
    /// destination: a block without one is refused with the error that
    /// `stake_address` gives, and is left as it was.
    pub fn record_pool(&mut self, stakeonly_address: Option<&str>) -> (res: Result<(), DecodeError>)
        ensures
            match old(self).stake_address_spec() {
                Err(e) => res == Err::<(), DecodeError>(e) && *final(self) == *old(self),
                Ok(None) => res is Ok && old(self).pool_recorded(None, *final(self)),
                Ok(Some(_)) => res is Ok && old(self).pool_recorded(
                    match stakeonly_address {
                        Some(address) => Some(address@),
                        None => None,
                    },
                    *final(self),
                ),
            },
    {
        match self.stake_address() {
            Err(e) => Err(e),
            Ok(None) => {
                self.pool_info = None;
                Ok(())
            },
            Ok(Some(_)) => {
                match stakeonly_address {
                    Some(address) => {
                        self.pool_info = attribute(address);
                    },
                    None => {
                        self.pool_info = None;
                    },
                }
                Ok(())
            },
        }
    }

    /// The vote of the block. A block below the voting height has none,
    /// whatever it carries. From the voting height on the vote is read from
    /// the first output of the first transaction: a data output with a
    /// payload carries the vote that the payload holds; a data output
    /// without one, or an output of another shape, carries none.
    pub open spec fn vote_spec(self) -> Result<Option<Vote>, DecodeError> {
        if self.height < VOTING_HEIGHT {
            Ok(None)
        } else {
            match self.first_output(0) {
                None => Err(DecodeError::MissingOutput),
                Some(Vout::Data { vote: Some(payload), .. }) => match vote_spec(payload@) {
                    Ok(vote) => Ok(Some(vote)),
                    Err(e) => Err(e),
                },
                Some(_) => Ok(None),
            }
        }
    }

    /// Reads the vote of the block without recording it.
    pub fn vote(&self) -> (res: Result<Option<Vote>, DecodeError>)
        ensures
            res == self.vote_spec(),
    {
        if self.height < VOTING_HEIGHT {
            return Ok(None);
        }
        if self.tx.len() == 0 || self.tx[0].vout.len() == 0 {
            return Err(DecodeError::MissingOutput);
        }
        match &self.tx[0].vout[0] {
            Vout::Data { vote: Some(payload), .. } => match parse_vote(payload.as_str()) {
                Ok(vote) => Ok(Some(vote)),
                Err(e) => Err(e),
            },
            _ => Ok(None),
        }
    }

    /// Reads the vote of the block and records it: none below the voting
    /// height. A payload that holds no vote is an error, and the block is
    /// then left as it was.
    pub fn read_vote(&mut self) -> (res: Result<(), DecodeError>)
        ensures
            match old(self).vote_spec() {
                Ok(vote) => res is Ok && *final(self) == (BlockData {
                    voting_info: vote,
                    ..*old(self)
                }),
                Err(e) => res == Err::<(), DecodeError>(e) && *final(self) == *old(self),
            },
    {
        match self.vote() {
            Ok(vote) => {
                self.voting_info = vote;
                Ok(())
            },
            Err(e) => Err(e),
        }
    }
}

/// A block below the voting height never yields a vote: whatever its first
/// output carries, reading its vote succeeds and gives none.
pub proof fn lemma_no_vote_below_voting_height(block: BlockData)
    requires
        block.height < VOTING_HEIGHT,
    ensures
        block.vote_spec() == Ok::<Option<Vote>, DecodeError>(None),
{
}

/// A block whose second output is no standard output is never given a pool:
/// the place of the stake destination is then empty or taken by an output
/// of another shape, and reading the stake address fails.
pub proof fn lemma_no_pool_without_stake_destination(block: BlockData)
    requires
        !(block.first_output(1) matches Some(Vout::Standard { .. })),
    ensures
        block.stake_address_spec() is Err,
        block.first_output(1) is Some ==> block.stake_address_spec() == Err::<
            Option<String>,
            DecodeError,
        >(DecodeError::UnexpectedVariant),
{
}

// ---------------------------------------------------------------------------
// Proposals and their tally
// ---------------------------------------------------------------------------

/// The height at which voting began. No block below it has a vote, only
/// blocks above it are looked at for new proposals, and every tally is
/// counted from it.
pub const VOTING_HEIGHT: u64 = 710800;

/// The height up to which a tally is asked for: past any block.
pub const TALLY_END: u64 = 2147483647;

/// Why the node's answer to a tally request could not be read.
#[derive(Debug, Clone, Copy, PartialEq, Eq, Structural)]
pub enum ProtocolError {
    /// The answer is not of the kind that was asked for.
    MalformedResponse,
    /// One of the four entries that describe the tally itself is not there.
    MissingMetadata,
    /// The value of an option is not a percentage and a ratio.
    MalformedTally,
    /// Two options of a tally have the same name.
    DuplicateOption,
    /// The node answered with an error.
    Refused,
}

/// The request for the tally of a proposal over a range of heights.
#[derive(Debug, Clone, Copy, PartialEq, Eq, Structural)]
pub struct TallyRequest {
    pub proposal_id: u64,
    pub height_start: u64,
    pub height_end: u64,
}

/// The tally of one option: its share of the votes in percent, and the ratio
/// as the node wrote it, a decimal number.
#[derive(Debug, Clone, PartialEq, Eq)]
pub struct TallyOption {
    pub option: String,
    pub percentage: u64,
    pub ratio: String,
}

/// A proposal with the tally taken when it was first seen. No two options
/// of the tally have the same name.
#[derive(Debug, Clone, PartialEq, Eq)]
pub struct Proposal {
    pub proposal_id: u64,
    pub stats: Vec<TallyOption>,
}

/// No two options of `tally` have the same name.
pub open spec fn distinct_options(tally: Seq<TallyOption>) -> bool {
    forall|i: int, j: int| 0 <= i < j < tally.len() ==> tally[i].option@ != tally[j].option@
}

impl Proposal {
    /// The tally names each option once.
    pub open spec fn well_formed(self) -> bool {
        distinct_options(self.stats@)
    }
}

/// The tally request that a block gives rise to. A block above the voting
/// height whose vote names a proposal that is not yet known asks for that
/// proposal's tally, over the heights from the voting height on. Any other
/// block asks for nothing.
pub open spec fn detect_spec(height: u64, vote: Option<Vote>, known: Seq<u64>) -> Option<
    TallyRequest,
> {
    match vote {
        Some(v) => if height > VOTING_HEIGHT && !known.contains(v.proposal_id) {
            Some(
                TallyRequest {
                    proposal_id: v.proposal_id,
                    height_start: VOTING_HEIGHT,
                    height_end: TALLY_END,
                },
            )
        } else {
            None
        },
        None => None,
    }
}

/// Whether `id` is among `ids`.
pub fn is_known(ids: &Vec<u64>, id: u64) -> (res: bool)
    ensures
        res == ids@.contains(id),
{
    let mut i: usize = 0;
    while i < ids.len()
        invariant
            i <= ids.len(),
            forall|j: int| 0 <= j < i ==> ids@[j] != id,
        decreases ids.len() - i,
    {
        if ids[i] == id {
            return true;
        }
        i += 1;
    }
    false
}

/// Decides whether a block brings a new proposal, and if so which tally to
/// ask the node for.
pub fn getnewproposal(blockdata: &BlockData, proposal_ids: &Vec<u64>) -> (res: Option<
    TallyRequest,
>)
    ensures
        res == detect_spec(blockdata.height, blockdata.voting_info, proposal_ids@),
{
    if blockdata.height > VOTING_HEIGHT {
        match blockdata.voting_info {
            Some(vote) => {
                if !is_known(proposal_ids, vote.proposal_id) {
                    Some(
                        TallyRequest {
                            proposal_id: vote.proposal_id,
                            height_start: VOTING_HEIGHT,
                            height_end: TALLY_END,
                        },
                    )
                } else {
                    None
                }
            },
            None => None,
        }
    } else {
        None
    }
}

/// The percentage and the ratio that the value of an option holds: two
/// fields parted by a comma and a space. Percent signs and the white space
/// around a field do not count. The first field is a whole number, the
/// second a decimal number, given back as it is written.
pub open spec fn ratios_spec(raw: Seq<char>) -> Option<(u64, Seq<char>)> {
    let fields = split_spec(raw, comma_space());
    if fields.len() != 2 {
        None
    } else {
        let percentage = parse_u64_spec(trim_spec(without_char(fields[0], '%')));
        let ratio = trim_spec(without_char(fields[1], '%'));
        if percentage is Some && is_number(ratio) {
            Some((percentage->0, ratio))
        } else {
            None
        }
    }
}

/// Reads the percentage and the ratio out of the value of an option.
pub fn parse_tallyvotes_ratios(raw: &Vec<char>) -> (res: Result<(u64, Vec<char>), ProtocolError>)
    ensures
        match ratios_spec(raw@) {
            Some((percentage, ratio)) => res matches Ok(pair) && pair.0 == percentage && pair.1@
                == ratio,
            None => res == Err::<(u64, Vec<char>), ProtocolError>(ProtocolError::MalformedTally),
        },
{
    let sep = separator();
    let fields = split(raw, &sep);
    assert(views(fields@).len() == fields.len());
    if fields.len() != 2 {
        return Err(ProtocolError::MalformedTally);
    }
    assert(views(fields@)[0] == fields[0]@);
    assert(views(fields@)[1] == fields[1]@);
    let first = trim(&strip_char(&fields[0], '%'));
    let ratio = trim(&strip_char(&fields[1], '%'));
    match parse_u64(&first) {
        Some(percentage) => {
            if number(&ratio) {
                Ok((percentage, ratio))
            } else {
                Err(ProtocolError::MalformedTally)
            }
        },
        None => Err(ProtocolError::MalformedTally),
    }
}

/// An entry of the node's answer with the double quotes taken out of its
/// key and its value.
pub open spec fn unquoted(entry: (Seq<char>, Seq<char>)) -> (Seq<char>, Seq<char>) {
    (without_char(entry.0, '"'), without_char(entry.1, '"'))
}

/// The entries of the node's answer, unquoted.
pub open spec fn unquoted_entries(entries: Seq<(Seq<char>, Seq<char>)>) -> Seq<
    (Seq<char>, Seq<char>),
> {
    Seq::new(entries.len(), |i: int| unquoted(entries[i]))
}

/// The tally that the entries of an answer hold, once unquoted.
pub open spec fn answer_tally(entries: Seq<(Seq<char>, Seq<char>)>) -> Result<
    Seq<(Seq<char>, u64, Seq<char>)>,
    ProtocolError,
> {
    tally_spec(unquoted_entries(entries))
}

/// `key` is one of the four keys that describe the tally itself.
pub open spec fn is_metadata_key(key: Seq<char>) -> bool {
    ||| key == "proposal"@
    ||| key == "blocks_counted"@
    ||| key == "height_start"@
    ||| key == "height_end"@
}

/// Some entry of `rows` has the key `key`.
pub open spec fn has_key(rows: Seq<(Seq<char>, Seq<char>)>, key: Seq<char>) -> bool {
    exists|i: int| 0 <= i < rows.len() && (#[trigger] rows[i]).0 == key
}

/// The test that the entries of the options pass: those whose key does not
/// describe the tally itself.
pub open spec fn is_option_row() -> spec_fn((Seq<char>, Seq<char>)) -> bool {
    |row: (Seq<char>, Seq<char>)| !is_metadata_key(row.0)
}

/// The entries of the options, in the order of the answer.
pub open spec fn option_rows(rows: Seq<(Seq<char>, Seq<char>)>) -> Seq<(Seq<char>, Seq<char>)> {
    rows.filter(is_option_row())
}

/// What a tally option holds, over plain values: its name, its percentage
/// and its ratio.
pub open spec fn option_view(option: TallyOption) -> (Seq<char>, u64, Seq<char>) {
    (option.option@, option.percentage, option.ratio@)
}

/// The entries at `i` and at `j` have the same key.
pub open spec fn same_key(rows: Seq<(Seq<char>, Seq<char>)>, i: int, j: int) -> bool {
    rows[i].0 == rows[j].0
}

/// Two entries of `rows` have the same key.
pub open spec fn has_twin(rows: Seq<(Seq<char>, Seq<char>)>) -> bool {
    exists|i: int, j: int| 0 <= i < j < rows.len() && #[trigger] same_key(rows, i, j)
}

/// The tally that `rows`, the unquoted entries of an answer, hold. All four
/// describing keys must be there, the value of every other entry must be a
/// percentage and a ratio, and no two of those entries may have the same
/// key. The tally has one option for each such entry, in the order of the
/// answer.
pub open spec fn tally_spec(rows: Seq<(Seq<char>, Seq<char>)>) -> Result<
    Seq<(Seq<char>, u64, Seq<char>)>,
    ProtocolError,
> {
    let options = option_rows(rows);
    if !(has_key(rows, "proposal"@) && has_key(rows, "blocks_counted"@) && has_key(
        rows,
        "height_start"@,
    ) && has_key(rows, "height_end"@)) {
        Err(ProtocolError::MissingMetadata)
    } else if exists|j: int| 0 <= j < options.len() && ratios_spec((#[trigger] options[j]).1) is None {
        Err(ProtocolError::MalformedTally)
    } else if has_twin(options) {
        Err(ProtocolError::DuplicateOption)
    } else {
        Ok(Seq::new(options.len(), |j: int| option_of(options[j])))
    }
}

/// Two entries of a list with one more entry have the same key exactly
/// when two had it before or an entry has the key of the new one.
pub proof fn lemma_has_twin_push(rows: Seq<(Seq<char>, Seq<char>)>, row: (Seq<char>, Seq<char>))
    ensures
        has_twin(rows.push(row)) == (has_twin(rows) || has_key(rows, row.0)),
{
    let more = rows.push(row);
    if has_twin(rows) {
        let (i, j) = choose|i: int, j: int| 0 <= i < j < rows.len() && #[trigger] same_key(rows, i, j);
        assert(same_key(more, i, j));
    }
    if has_key(rows, row.0) {
        let i = choose|i: int| 0 <= i < rows.len() && (#[trigger] rows[i]).0 == row.0;
        assert(same_key(more, i, rows.len() as int));
    }
    if has_twin(more) {
        let (i, j) = choose|i: int, j: int| 0 <= i < j < more.len() && #[trigger] same_key(more, i, j);
        if j < rows.len() {
            assert(same_key(rows, i, j));
        } else {
            assert(rows[i].0 == row.0);
        }
    }
}

/// The tally option that an entry of an option holds.
pub open spec fn option_of(row: (Seq<char>, Seq<char>)) -> (Seq<char>, u64, Seq<char>) {
    let pair = ratios_spec(row.1)->0;
    (row.0, pair.0, pair.1)
}

/// `tally` holds what `expected` says, option by option.
pub open spec fn tally_matches(
    tally: Seq<TallyOption>,
    expected: Seq<(Seq<char>, u64, Seq<char>)>,
) -> bool {
    &&& tally.len() == expected.len()
    &&& forall|j: int| 0 <= j < tally.len() ==> option_view(#[trigger] tally[j]) == expected[j]
}

/// `res` is the tally `expected`, with each option named once, or the
/// error in its place.
pub open spec fn tally_is(
    res: Result<Vec<TallyOption>, ProtocolError>,
    expected: Result<Seq<(Seq<char>, u64, Seq<char>)>, ProtocolError>,
) -> bool {
    match expected {
        Ok(options) => res matches Ok(tally) && tally_matches(tally@, options) && distinct_options(
            tally@,
        ),
        Err(e) => res == Err::<Vec<TallyOption>, ProtocolError>(e),
    }
}

/// Whether some option of `tally` has the name `name`.
fn is_named(tally: &Vec<TallyOption>, name: &Vec<char>) -> (res: bool)
    ensures
        res == exists|j: int| 0 <= j < tally.len() && (#[trigger] tally[j]).option@ == name@,
{
    let mut j: usize = 0;
    while j < tally.len()
        invariant
            j <= tally.len(),
            forall|k: int| 0 <= k < j ==> (#[trigger] tally[k]).option@ != name@,
        decreases tally.len() - j,
    {
        if reads(name, tally[j].option.as_str()) {
            return true;
        }
        j += 1;
    }
    false
}

/// Reads the tally out of the entries of the node's answer. Each entry is a
/// key and the text of its value.
pub fn read_tally(entries: &Vec<(String, String)>) -> (res: Result<Vec<TallyOption>, ProtocolError>)
    ensures
        tally_is(res, answer_tally(entry_texts(entries@))),
{
    let ghost rows = unquoted_entries(entry_texts(entries@));
    let ghost keep = is_option_row();
    let mut tally: Vec<TallyOption> = Vec::new();
    let mut malformed: bool = false;
    let mut duplicate: bool = false;
    let mut proposal: bool = false;
    let mut blocks_counted: bool = false;
    let mut height_start: bool = false;
    let mut height_end: bool = false;
    let mut i: usize = 0;
    assert(rows.take(0).filter(keep) =~= Seq::empty()) by {
        rows.take(0).lemma_filter_len(keep);
    }
    while i < entries.len()
        invariant
            i <= entries.len(),
            rows == unquoted_entries(entry_texts(entries@)),
            keep == is_option_row(),
            proposal == has_key(rows.take(i as int), "proposal"@),
            blocks_counted == has_key(rows.take(i as int), "blocks_counted"@),
            height_start == has_key(rows.take(i as int), "height_start"@),
            height_end == has_key(rows.take(i as int), "height_end"@),
            malformed == exists|j: int|
                0 <= j < rows.take(i as int).filter(keep).len() && ratios_spec(
                    (#[trigger] rows.take(i as int).filter(keep)[j]).1,
                ) is None,
            !malformed ==> duplicate == has_twin(rows.take(i as int).filter(keep)),
            !malformed ==> tally.len() == rows.take(i as int).filter(keep).len(),
            !malformed ==> forall|j: int|
                0 <= j < tally.len() ==> option_view(#[trigger] tally[j]) == option_of(
                    rows.take(i as int).filter(keep)[j],
                ),
        decreases entries.len() - i,
    {
        let key = strip_char(&chars_of(entries[i].0.as_str()), '"');
        let value = strip_char(&chars_of(entries[i].1.as_str()), '"');
        let ghost before = rows.take(i as int);
        let ghost row = rows[i as int];
        proof {
            assert(row == (key@, value@));
            assert(rows.take(i + 1) =~= before.push(row));
            before.lemma_filter_push(row, keep);
            lemma_has_key_push(before, row, "proposal"@);
            lemma_has_key_push(before, row, "blocks_counted"@);
            lemma_has_key_push(before, row, "height_start"@);
            lemma_has_key_push(before, row, "height_end"@);
        }
        let is_proposal: bool = reads(&key, "proposal");
        let is_blocks_counted: bool = reads(&key, "blocks_counted");
        let is_height_start: bool = reads(&key, "height_start");
        let is_height_end: bool = reads(&key, "height_end");
        if is_proposal || is_blocks_counted || is_height_start || is_height_end {
            proposal = proposal || is_proposal;
            blocks_counted = blocks_counted || is_blocks_counted;
            height_start = height_start || is_height_start;
            height_end = height_end || is_height_end;
            assert(!keep(row));
        } else {
            assert(keep(row));
            let ghost kept = before.filter(keep);
            assert(rows.take(i + 1).filter(keep) == kept.push(row));
            match parse_tallyvotes_ratios(&value) {
                Ok(pair) => {
                    if !malformed {
                        let twin: bool = is_named(&tally, &key);
                        proof {
                            lemma_has_twin_push(kept, row);
                            if twin {
                                let j = choose|j: int|
                                    0 <= j < tally.len() && (#[trigger] tally[j]).option@ == key@;
                                assert(option_view(tally[j]) == option_of(kept[j]));
                                assert(kept[j].0 == row.0);
                            }
                            if has_key(kept, row.0) {
                                let j = choose|j: int|
                                    0 <= j < kept.len() && (#[trigger] kept[j]).0 == row.0;
                                assert(option_view(tally[j]) == option_of(kept[j]));
                                assert(tally[j].option@ == key@);
                            }
                        }
                        duplicate = duplicate || twin;
                        tally.push(
                            TallyOption {
                                option: string_of(&key),
                                percentage: pair.0,
                                ratio: string_of(&pair.1),
                            },
                        );
                    }
                    proof {
                        if malformed {
                            let j = choose|j: int|
                                0 <= j < kept.len() && ratios_spec((#[trigger] kept[j]).1) is None;
                            assert(kept.push(row)[j] == kept[j]);
                        } else {
                            assert forall|j: int| 0 <= j < kept.push(row).len() implies !(
                            ratios_spec((#[trigger] kept.push(row)[j]).1) is None) by {
                                if j < kept.len() {
                                    assert(kept.push(row)[j] == kept[j]);
                                }
                            }
                        }
                    }
                },
                Err(_) => {
                    malformed = true;
                    assert(kept.push(row)[kept.len() as int] == row);
                },
            }
        }
        i += 1;
    }
    assert(rows.take(i as int) =~= rows);
    if !(proposal && blocks_counted && height_start && height_end) {
        Err(ProtocolError::MissingMetadata)
    } else if malformed {
        Err(ProtocolError::MalformedTally)
    } else if duplicate {
        Err(ProtocolError::DuplicateOption)
    } else {
        proof {
            let options = rows.filter(keep);
            assert forall|a: int, b: int| 0 <= a < b < tally.len() implies tally[a].option@
                != tally[b].option@ by {
                assert(option_view(tally[a]) == option_of(options[a]));
                assert(option_view(tally[b]) == option_of(options[b]));
                assert(!same_key(options, a, b));
            }
        }
        Ok(tally)
    }
}

/// A key is among the entries with one more entry exactly when it was among
/// them before or is the key of the new entry.
pub proof fn lemma_has_key_push(
    rows: Seq<(Seq<char>, Seq<char>)>,
    row: (Seq<char>, Seq<char>),
    key: Seq<char>,
)
    ensures
        has_key(rows.push(row), key) == (has_key(rows, key) || row.0 == key),
{
    if has_key(rows, key) {
        let i = choose|i: int| 0 <= i < rows.len() && (#[trigger] rows[i]).0 == key;
        assert(rows.push(row)[i] == rows[i]);
    }
    if row.0 == key {
        assert(rows.push(row)[rows.len() as int] == row);
    }
    if has_key(rows.push(row), key) {
        let i = choose|i: int| 0 <= i < rows.push(row).len() && (#[trigger] rows.push(row)[i]).0 == key;
        if i < rows.len() {
            assert(rows.push(row)[i] == rows[i]);
        }
    }
}

/// The tally that the node's answer to a tally request holds. An answer
/// that is no object is malformed.
pub open spec fn tallyvotes_spec(context: serde_json::Value) -> Result<
    Seq<(Seq<char>, u64, Seq<char>)>,
    ProtocolError,
> {
    match json_entries(context) {
        Some(entries) => answer_tally(entries),
        None => Err(ProtocolError::MalformedResponse),
    }
}

/// Reads the tally out of the node's answer to a tally request.
pub fn tallyvotes(context: serde_json::Value) -> (res: Result<Vec<TallyOption>, ProtocolError>)
    ensures
        tally_is(res, tallyvotes_spec(context)),
{
    match entries_of(context) {
        Ok(entries) => read_tally(&entries),
        Err(_) => Err(ProtocolError::MalformedResponse),
    }
}

impl Vote {
    /// Makes the proposal that this vote names, with the tally read from the
    /// node's answer to the tally request.
    pub fn gen_proposal(&self, context: serde_json::Value) -> (res: Result<Proposal, ProtocolError>)
        ensures
            match tallyvotes_spec(context) {
                Ok(expected) => res matches Ok(proposal) && proposal.proposal_id
                    == self.proposal_id && tally_matches(proposal.stats@, expected)
                    && proposal.well_formed(),
                Err(e) => res == Err::<Proposal, ProtocolError>(e),
            },
    {
        match tallyvotes(context) {
            Ok(stats) => Ok(Proposal { proposal_id: self.proposal_id, stats }),
            Err(e) => Err(e),
        }
    }
}

/// Reads the height of the chain out of the node's answer.
pub fn getblockcount(raw: serde_json::Value) -> (res: Result<u64, ProtocolError>)
    ensures
        match json_u64(raw) {
            Some(height) => res == Ok::<u64, ProtocolError>(height),
            None => res == Err::<u64, ProtocolError>(ProtocolError::MalformedResponse),
        },
{
    match number_of(raw) {
        Ok(height) => Ok(height),
        Err(_) => Err(ProtocolError::MalformedResponse),
    }
}

/// The words with which the node says that the chain has no block at the
/// height asked.
pub open spec fn height_out_of_range() -> Seq<char> {
    "Block height out of range"@
}

/// What the node's answer to the request for the hash at a height holds:
/// the hash; nothing, where the node says that the height is out of range;
/// an error, where the node refuses for another reason or its result is no
/// text.
pub fn getblockhash(response: RPCResponse) -> (res: Result<Option<String>, ProtocolError>)
    ensures
        match response.error {
            Some(message) => if message@ == height_out_of_range() {
                res == Ok::<Option<String>, ProtocolError>(None)
            } else {
                res == Err::<Option<String>, ProtocolError>(ProtocolError::Refused)
            },
            None => match json_text(response.result) {
                Some(text) => res matches Ok(Some(hash)) && hash@ == text,
                None => res == Err::<Option<String>, ProtocolError>(
                    ProtocolError::MalformedResponse,
                ),
            },
        },
{
    match response.error {
        Some(message) => {
            if same_text(message.as_str(), "Block height out of range") {
                Ok(None)
            } else {
                Err(ProtocolError::Refused)
            }
        },
        None => match text_of(response.result) {
            Ok(hash) => Ok(Some(hash)),
            Err(_) => Err(ProtocolError::MalformedResponse),
        },
    }
}

/// The stake-only address that the node's answer to the validation of an
/// address names: the text of its member `stakeonly_address`, where it has one.
pub open spec fn stakeonly_spec(answer: serde_json::Value) -> Option<Seq<char>> {
    match json_member(answer, "stakeonly_address"@) {
        Some(member) => json_text(member),
        None => None,
    }
}

/// Reads the stake-only address out of the node's answer to the validation
/// of an address.
pub fn stakeonly_address(answer: &serde_json::Value) -> (res: Option<String>)
    ensures
        match stakeonly_spec(*answer) {
            Some(text) => res matches Some(address) && address@ == text,
            None => res is None,
        },
{
    match member_of(answer, "stakeonly_address") {
        Some(member) => match text_of(member) {
            Ok(address) => Some(address),
            Err(_) => None,
        },
        None => None,
    }
}

// ---------------------------------------------------------------------------
// Commands for the node
// ---------------------------------------------------------------------------

/// The command that asks the node for the hash of the block at `height`.
pub fn getblockhash_command(height: u64) -> (res: String)
    ensures
        res@ == "getblockhash "@ + decimal_digits(height as nat),
{
    let mut command = "getblockhash ".to_owned();
    command.append(string_of(&decimal(height)).as_str());
    command
}

/// The command that asks the node for the block with this hash, with its
/// transactions in full.
pub fn getblock_command(blockhash: &str) -> (res: String)
    ensures
        res@ == "getblock "@ + blockhash@ + " 2 true"@,
{
    let mut command = "getblock ".to_owned();
    command.append(blockhash);
    command.append(" 2 true");
    command
}

/// The command that asks the node what it knows of a stake address.
pub fn validateaddress_command(address: &str) -> (res: String)
    ensures
        res@ == "validateaddress "@ + address@ + " true"@,
{
    let mut command = "validateaddress ".to_owned();
    command.append(address);
    command.append(" true");
    command
}

/// The command that asks the node for a tally.
pub fn tallyvotes_command(request: &TallyRequest) -> (res: String)
    ensures
        res@ == "tallyvotes "@ + decimal_digits(request.proposal_id as nat) + " "@
            + decimal_digits(request.height_start as nat) + " "@ + decimal_digits(
            request.height_end as nat,
        ),
{
    let mut command = "tallyvotes ".to_owned();
    command.append(string_of(&decimal(request.proposal_id)).as_str());
    command.append(" ");
    command.append(string_of(&decimal(request.height_start)).as_str());
    command.append(" ");
    command.append(string_of(&decimal(request.height_end)).as_str());
    command
}

} // verus!
