//! The ingestion controller: the window of block hashes that the live feed
//! has already brought, and the state machine that first catches up with the
//! chain height by height and then follows the feed.

use crate::db::{column_sum, full_range, lemma_full_range_sum, range_sum};
use crate::rpc::{url_spec, AuthToken};
use crate::text::{chars_of, parse_u64, parse_u64_spec, same_text, split, split_spec, string_of, views};
use vstd::prelude::*;

verus! {

/// `bitcoincore_zmq::Message`, a message of the live feed: carried through
/// as it is.
#[verifier::external_type_specification]
#[verifier::external_body]
pub struct ExFeedMessage(bitcoincore_zmq::Message);

// ---------------------------------------------------------------------------
// The window of processed blocks
// ---------------------------------------------------------------------------

/// How many hashes the window keeps.
pub const WINDOW_CAPACITY: usize = 1000;

/// The hashes of the blocks that the live feed brought last, oldest first.
#[derive(Debug, Clone, PartialEq, Eq)]
pub struct ProcessedBlocks {
    pub blocks: Vec<String>,
}

impl View for ProcessedBlocks {
    type V = Seq<Seq<char>>;

    /// The hashes of the window as texts, oldest first.
    open spec fn view(&self) -> Seq<Seq<char>> {
        Seq::new(self.blocks.len() as nat, |i: int| self.blocks[i]@)
    }
}

impl Default for ProcessedBlocks {
    fn default() -> (res: Self)
        ensures
            res@ == Seq::<Seq<char>>::empty(),
    {
        let window = ProcessedBlocks { blocks: Vec::new() };
        assert(window@ =~= Seq::<Seq<char>>::empty());
        window
    }
}

/// The newest hashes of `window`, as many as the window keeps: the window
/// itself where it is within its capacity, and otherwise what is left when
/// the oldest hashes have gone.
pub open spec fn newest(window: Seq<Seq<char>>) -> Seq<Seq<char>> {
    if window.len() > WINDOW_CAPACITY {
        window.skip(window.len() - WINDOW_CAPACITY)
    } else {
        window
    }
}

/// The window after `blockhash` has entered it: the hash stands last, and
/// the oldest hashes have left as far as the capacity asks for it.
pub open spec fn injected(window: Seq<Seq<char>>, blockhash: Seq<char>) -> Seq<Seq<char>> {
    newest(window.push(blockhash))
}

/// How often `blockhash` stands in `window`.
pub open spec fn occurrences(window: Seq<Seq<char>>, blockhash: Seq<char>) -> nat
    decreases window.len(),
{
    if window.len() == 0 {
        0
    } else {
        occurrences(window.drop_last(), blockhash) + if window.last() == blockhash {
            1nat
        } else {
            0nat
        }
    }
}

impl ProcessedBlocks {
    /// The window holds no more hashes than its capacity.
    pub open spec fn within_capacity(self) -> bool {
        self.blocks.len() <= WINDOW_CAPACITY
    }

    /// Whether the window holds `blockhash`.
    pub fn contains(&self, blockhash: &str) -> (res: bool)
        ensures
            res == self@.contains(blockhash@),
    {
        let mut i: usize = 0;
        while i < self.blocks.len()
            invariant
                i <= self.blocks.len(),
                forall|j: int| 0 <= j < i ==> self@[j] != blockhash@,
            decreases self.blocks.len() - i,
        {
            if same_text(self.blocks[i].as_str(), blockhash) {
                assert(self@[i as int] == blockhash@);
                return true;
            }
            i += 1;
        }
        false
    }

    /// Lets the oldest hashes go until the window is within its capacity.
    pub fn trim(&mut self)
        ensures
            final(self)@ == newest(old(self)@),
            final(self).within_capacity(),
    {
        let len: usize = self.blocks.len();
        if len > WINDOW_CAPACITY {
            let kept = self.blocks.split_off(len - WINDOW_CAPACITY);
            self.blocks = kept;
        }
        assert(self@ =~= newest(old(self)@));
    }

    /// Puts `blockhash` into the window, as its newest hash. A full window
    /// lets its oldest hash go, so that the window is within its capacity
    /// afterwards.
    pub fn inject(&mut self, blockhash: String)
        ensures
            final(self)@ == injected(old(self)@, blockhash@),
            final(self).within_capacity(),
    {
        self.blocks.push(blockhash);
        let ghost pushed = self@;
        assert(pushed =~= old(self)@.push(blockhash@));
        self.trim();
    }
}

/// A hash that has entered the window is held by it.
pub proof fn lemma_injected_is_held(window: Seq<Seq<char>>, blockhash: Seq<char>)
    ensures
        injected(window, blockhash).contains(blockhash),
{
    let after = injected(window, blockhash);
    assert(after[after.len() - 1] == blockhash);
}

/// After a hash has entered, the window is within its capacity, whatever it
/// was before.
pub proof fn lemma_injected_within_capacity(window: Seq<Seq<char>>, blockhash: Seq<char>)
    ensures
        injected(window, blockhash).len() <= WINDOW_CAPACITY,
        newest(window).len() <= WINDOW_CAPACITY,
{
}

/// A window within its capacity loses on entry of a hash nothing but, when
/// full, its oldest hash: every other hash keeps its order.
pub proof fn lemma_injected_evicts_oldest(window: Seq<Seq<char>>, blockhash: Seq<char>)
    requires
        window.len() <= WINDOW_CAPACITY,
    ensures
        injected(window, blockhash).len() <= WINDOW_CAPACITY,
        injected(window, blockhash).last() == blockhash,
        window.len() < WINDOW_CAPACITY ==> injected(window, blockhash).drop_last() == window,
        window.len() == WINDOW_CAPACITY ==> injected(window, blockhash).drop_last() == window.skip(1),
{
    let after = injected(window, blockhash);
    if window.len() < WINDOW_CAPACITY {
        assert(after.drop_last() =~= window);
    } else {
        assert(after.drop_last() =~= window.skip(1));
    }
}

/// A hash that a window does not hold stands in it zero times.
pub proof fn lemma_not_held_occurs_never(window: Seq<Seq<char>>, blockhash: Seq<char>)
    requires
        !window.contains(blockhash),
    ensures
        occurrences(window, blockhash) == 0,
    decreases window.len(),
{
    if window.len() > 0 {
        assert(window[window.len() - 1] != blockhash);
        assert forall|i: int| 0 <= i < window.drop_last().len() implies window.drop_last()[i]
            != blockhash by {
            assert(window.drop_last()[i] == window[i]);
        }
        lemma_not_held_occurs_never(window.drop_last(), blockhash);
    }
}

/// A hash that the window did not hold stands in it exactly once after it
/// has entered.
pub proof fn lemma_injected_once(window: Seq<Seq<char>>, blockhash: Seq<char>)
    requires
        !window.contains(blockhash),
        window.len() <= WINDOW_CAPACITY,
    ensures
        occurrences(injected(window, blockhash), blockhash) == 1,
{
    let after = injected(window, blockhash);
    lemma_injected_evicts_oldest(window, blockhash);
    if window.len() == WINDOW_CAPACITY {
        assert forall|i: int| 0 <= i < window.skip(1).len() implies window.skip(1)[i]
            != blockhash by {
            assert(window.skip(1)[i] == window[i + 1]);
        }
    }
    lemma_not_held_occurs_never(after.drop_last(), blockhash);
}

// ---------------------------------------------------------------------------
// The live feed
// ---------------------------------------------------------------------------

/// Why a message of the live feed gave no block hash.
#[derive(Debug, Clone, Copy, PartialEq, Eq, Structural)]
pub enum FeedError {
    /// The feed brought a message that announces no block hash.
    UnexpectedMessage,
    /// The feed itself failed.
    Transport,
}

/// The text of the block hash that a message announces, where it announces
/// one.
pub uninterp spec fn block_hash_text(msg: bitcoincore_zmq::Message) -> Option<Seq<char>>;

/// Tells the variants of `bitcoincore_zmq::Message` apart and writes the
/// hash of a `HashBlock` message as text, with the hash's own `to_string`.
/// Whether a hash comes out, and which, depends on the message alone.
#[verifier::external_body]
fn announced_hash(msg: &bitcoincore_zmq::Message) -> (res: Option<String>)
    ensures
        res is Some <==> block_hash_text(*msg) is Some,
        res matches Some(hash) ==> block_hash_text(*msg) == Some(hash@),
{
    match msg {
        bitcoincore_zmq::Message::HashBlock(hash, _) => Some(hash.to_string()),
        bitcoincore_zmq::Message::HashTx(_, _) => None,
        bitcoincore_zmq::Message::Block(_, _) => None,
        bitcoincore_zmq::Message::Tx(_, _) => None,
        bitcoincore_zmq::Message::Sequence(_, _) => None,
    }
}

/// The block hash that the feed has brought. A failure of the feed and a
/// message of another kind are errors.
pub fn gethash<E>(msg: Result<bitcoincore_zmq::Message, E>) -> (res: Result<String, FeedError>)
    ensures
        match msg {
            Ok(message) => match block_hash_text(message) {
                Some(text) => res matches Ok(hash) && hash@ == text,
                None => res == Err::<String, FeedError>(FeedError::UnexpectedMessage),
            },
            Err(_) => res == Err::<String, FeedError>(FeedError::Transport),
        },
{
    match msg {
        Ok(message) => match announced_hash(&message) {
            Some(hash) => Ok(hash),
            None => Err(FeedError::UnexpectedMessage),
        },
        Err(_) => Err(FeedError::Transport),
    }
}

// ---------------------------------------------------------------------------
// The address of the node
// ---------------------------------------------------------------------------

/// Why the address of the node could not be read.
#[derive(Debug, Clone, Copy, PartialEq, Eq, Structural)]
pub enum ConfigError {
    /// The address is not a host and a port with one colon between them.
    MalformedEndpoint,
    /// The port is no number from 0 to 65535.
    MalformedPort,
}

/// The host and the port that an address names.
pub open spec fn endpoint_spec(endpoint: Seq<char>) -> Result<(Seq<char>, u16), ConfigError> {
    let parts = split_spec(endpoint, seq![':']);
    if parts.len() != 2 {
        Err(ConfigError::MalformedEndpoint)
    } else {
        match parse_u64_spec(parts[1]) {
            Some(port) => if port <= u16::MAX {
                Ok((parts[0], port as u16))
            } else {
                Err(ConfigError::MalformedPort)
            },
            None => Err(ConfigError::MalformedPort),
        }
    }
}

/// Makes the token for the node at `endpoint`, a host and a port, with the
/// given credentials and no wallet.
pub fn authorize(endpoint: &str, user: &str, password: &str) -> (res: Result<
    AuthToken,
    ConfigError,
>)
    ensures
        match endpoint_spec(endpoint@) {
            Ok((ip, port)) => res matches Ok(auth) && auth.url_text() == url_spec(
                ip,
                port,
                Seq::<char>::empty(),
            ) && auth.user_text() == user@ && auth.password_text() == password@,
            Err(e) => res matches Err(err) && err == e,
        },
{
    let text = chars_of(endpoint);
    let mut sep: Vec<char> = Vec::new();
    sep.push(':');
    assert(sep@ =~= seq![':']);
    let parts = split(&text, &sep);
    assert(views(parts@).len() == parts.len());
    if parts.len() != 2 {
        return Err(ConfigError::MalformedEndpoint);
    }
    assert(views(parts@)[0] == parts[0]@);
    assert(views(parts@)[1] == parts[1]@);
    match parse_u64(&parts[1]) {
        Some(port) => {
            if port <= 65535 {
                let ip = string_of(&parts[0]);
                let wallet = String::new();
                Ok(
                    AuthToken::new().target(ip.as_str(), port as u16, wallet.as_str()).credentials(
                        user,
                        password,
                    ),
                )
            } else {
                Err(ConfigError::MalformedPort)
            }
        },
        None => Err(ConfigError::MalformedPort),
    }
}

// ---------------------------------------------------------------------------
// The controller
// ---------------------------------------------------------------------------

/// What the controller is doing.
#[derive(Debug, Clone, Copy, PartialEq, Eq, Structural)]
pub enum Mode {
    /// Walking the chain height by height up to the node's tip.
    Catchup,
    /// Following the live feed.
    Listen,
}

/// Why the controller stopped.
#[derive(Debug, Clone, Copy, PartialEq, Eq, Structural)]
pub enum EngineError {
    /// An event came that the controller was not waiting for.
    UnexpectedEvent,
    /// There is no height after the last one.
    HeightOverflow,
}

/// What has happened outside: the answer to what the controller last asked
/// for.
#[derive(Debug, Clone, PartialEq, Eq)]
pub enum Event {
    /// The node's answer for the height asked: the hash of the block there,
    /// or nothing where the chain has no such height yet.
    HeightAnswer(Option<String>),
    /// The live feed has brought a block hash.
    Notification(String),
    /// The block asked for has gone through the whole pipeline and is
    /// stored. Where it brought a new proposal, the proposal was stored
    /// before it, and these are the proposals known now.
    Scanned(Option<Vec<u64>>),
}

/// What is to be done outside next.
#[derive(Debug, Clone, PartialEq, Eq)]
pub enum Action {
    /// Ask the node for the hash of the block at this height.
    FetchHash(u64),
    /// Run the pipeline on the block with this hash: fetch, decode,
    /// attribute, detect a proposal, store.
    Scan(String),
    /// Wait for the next notification of the live feed.
    Await,
    /// Store the window, then wait for the next notification.
    PersistWindow,
}

/// The state of the ingestion: one worker, one block at a time.
#[derive(Debug, Clone, PartialEq, Eq)]
pub struct Controller {
    pub mode: Mode,
    /// The height asked for while catching up.
    pub cursor: u64,
    /// The hash of the block that is in the pipeline.
    pub pending: Option<String>,
    /// The proposals known so far.
    pub proposal_ids: Vec<u64>,
    /// The hashes that the live feed has brought last.
    pub window: ProcessedBlocks,
}

/// An event over plain values.
pub enum Occurrence {
    HeightAnswer(Option<Seq<char>>),
    Notification(Seq<char>),
    Scanned(Option<Seq<u64>>),
}

/// An action over plain values.
pub enum Request {
    FetchHash(u64),
    Scan(Seq<char>),
    Await,
    PersistWindow,
}

/// The state of the ingestion over plain values.
pub struct Ingestion {
    pub mode: Mode,
    pub cursor: u64,
    pub pending: Option<Seq<char>>,
    pub proposal_ids: Seq<u64>,
    pub window: Seq<Seq<char>>,
}

impl View for Event {
    type V = Occurrence;

    open spec fn view(&self) -> Occurrence {
        match *self {
            Event::HeightAnswer(Some(hash)) => Occurrence::HeightAnswer(Some(hash@)),
            Event::HeightAnswer(None) => Occurrence::HeightAnswer(None),
            Event::Notification(hash) => Occurrence::Notification(hash@),
            Event::Scanned(Some(ids)) => Occurrence::Scanned(Some(ids@)),
            Event::Scanned(None) => Occurrence::Scanned(None),
        }
    }
}

impl View for Action {
    type V = Request;

    open spec fn view(&self) -> Request {
        match *self {
            Action::FetchHash(height) => Request::FetchHash(height),
            Action::Scan(hash) => Request::Scan(hash@),
            Action::Await => Request::Await,
            Action::PersistWindow => Request::PersistWindow,
        }
    }
}

impl View for Controller {
    type V = Ingestion;

    open spec fn view(&self) -> Ingestion {
        Ingestion {
            mode: self.mode,
            cursor: self.cursor,
            pending: match self.pending {
                Some(hash) => Some(hash@),
                None => None,
            },
            proposal_ids: self.proposal_ids@,
            window: self.window@,
        }
    }
}

/// The height at which catching up begins: the one after the top height of
/// the store, or zero for an empty store.
pub open spec fn first_height(top: Option<u64>) -> Option<u64> {
    match top {
        None => Some(0u64),
        Some(h) => if h < u64::MAX {
            Some((h + 1) as u64)
        } else {
            None
        },
    }
}

/// The ingestion at start-up and its first request: it catches up from the
/// first height on, with nothing in the pipeline. Of a window that was kept
/// beyond its capacity only the newest hashes are taken over.
pub open spec fn start_spec(top: Option<u64>, proposal_ids: Seq<u64>, window: Seq<Seq<char>>) -> Result<
    (Ingestion, Request),
    EngineError,
> {
    match first_height(top) {
        Some(cursor) => Ok(
            (
                Ingestion {
                    mode: Mode::Catchup,
                    cursor,
                    pending: None,
                    proposal_ids,
                    window: newest(window),
                },
                Request::FetchHash(cursor),
            ),
        ),
        None => Err(EngineError::HeightOverflow),
    }
}

/// The proposals known after a block has gone through the pipeline.
pub open spec fn known_after(known: Seq<u64>, reloaded: Option<Seq<u64>>) -> Seq<u64> {
    match reloaded {
        Some(ids) => ids,
        None => known,
    }
}

/// The next state and the next request, for each state and event.
///
/// While catching up, a hash for the height asked sends its block into the
/// pipeline, and the end of the pipeline moves on to the next height; a
/// height that the chain does not have yet ends the catching up. While
/// listening, a hash that the window holds is dropped, any other sends its
/// block into the pipeline, and the end of the pipeline puts the hash into
/// the window. Any other event at any other time is an error.
pub open spec fn step_spec(state: Ingestion, event: Occurrence) -> Result<
    (Ingestion, Request),
    EngineError,
> {
    match (state.mode, state.pending, event) {
        (Mode::Catchup, None, Occurrence::HeightAnswer(Some(hash))) => Ok(
            (Ingestion { pending: Some(hash), ..state }, Request::Scan(hash)),
        ),
        (Mode::Catchup, None, Occurrence::HeightAnswer(None)) => Ok(
            (Ingestion { mode: Mode::Listen, ..state }, Request::Await),
        ),
        (Mode::Catchup, Some(_), Occurrence::Scanned(reloaded)) => if state.cursor < u64::MAX {
            Ok(
                (
                    Ingestion {
                        cursor: (state.cursor + 1) as u64,
                        pending: None,
                        proposal_ids: known_after(state.proposal_ids, reloaded),
                        ..state
                    },
                    Request::FetchHash((state.cursor + 1) as u64),
                ),
            )
        } else {
            Err(EngineError::HeightOverflow)
        },
        (Mode::Listen, None, Occurrence::Notification(hash)) => if state.window.contains(hash) {
            Ok((state, Request::Await))
        } else {
            Ok((Ingestion { pending: Some(hash), ..state }, Request::Scan(hash)))
        },
        (Mode::Listen, Some(hash), Occurrence::Scanned(reloaded)) => Ok(
            (
                Ingestion {
                    pending: None,
                    proposal_ids: known_after(state.proposal_ids, reloaded),
                    window: injected(state.window, hash),
                    ..state
                },
                Request::PersistWindow,
            ),
        ),
        _ => Err(EngineError::UnexpectedEvent),
    }
}

/// `res` is the outcome `expected`, over plain values.
pub open spec fn outcome_is(
    res: Result<(Controller, Action), EngineError>,
    expected: Result<(Ingestion, Request), EngineError>,
) -> bool {
    match expected {
        Ok((state, request)) => res matches Ok((controller, action)) && controller@ == state
            && action@ == request,
        Err(e) => res matches Err(err) && err == e,
    }
}

impl Controller {
    /// Starts the controller from what the store holds: its top height, the
    /// proposals it knows, and the window it kept.
    pub fn start(top: Option<u64>, proposal_ids: Vec<u64>, window: ProcessedBlocks) -> (res: Result<
        (Controller, Action),
        EngineError,
    >)
        ensures
            outcome_is(res, start_spec(top, proposal_ids@, window@)),
    {
        let cursor: u64 = match top {
            None => 0,
            Some(h) => {
                if h == u64::MAX {
                    return Err(EngineError::HeightOverflow);
                }
                h + 1
            },
        };
        let mut window = window;
        window.trim();
        Ok(
            (
                Controller { mode: Mode::Catchup, cursor, pending: None, proposal_ids, window },
                Action::FetchHash(cursor),
            ),
        )
    }

    /// Takes an event and gives the next state and what to do next.
    pub fn step(self, event: Event) -> (res: Result<(Controller, Action), EngineError>)
        ensures
            outcome_is(res, step_spec(self@, event@)),
    {
        let Controller { mode, cursor, pending, proposal_ids, window } = self;
        match mode {
            Mode::Catchup => match (pending, event) {
                (None, Event::HeightAnswer(Some(hash))) => {
                    let scanned = hash.clone();
                    Ok(
                        (
                            Controller { mode, cursor, pending: Some(hash), proposal_ids, window },
                            Action::Scan(scanned),
                        ),
                    )
                },
                (None, Event::HeightAnswer(None)) => Ok(
                    (
                        Controller { mode: Mode::Listen, cursor, pending: None, proposal_ids, window },
                        Action::Await,
                    ),
                ),
                (Some(_), Event::Scanned(reloaded)) => {
                    if cursor == u64::MAX {
                        return Err(EngineError::HeightOverflow);
                    }
                    let known = match reloaded {
                        Some(ids) => ids,
                        None => proposal_ids,
                    };
                    Ok(
                        (
                            Controller {
                                mode,
                                cursor: cursor + 1,
                                pending: None,
                                proposal_ids: known,
                                window,
                            },
                            Action::FetchHash(cursor + 1),
                        ),
                    )
                },
                _ => Err(EngineError::UnexpectedEvent),
            },
            Mode::Listen => match (pending, event) {
                (None, Event::Notification(hash)) => {
                    if window.contains(hash.as_str()) {
                        Ok(
                            (
                                Controller { mode, cursor, pending: None, proposal_ids, window },
                                Action::Await,
                            ),
                        )
                    } else {
                        let scanned = hash.clone();
                        Ok(
                            (
                                Controller {
                                    mode,
                                    cursor,
                                    pending: Some(hash),
                                    proposal_ids,
                                    window,
                                },
                                Action::Scan(scanned),
                            ),
                        )
                    }
                },
                (Some(hash), Event::Scanned(reloaded)) => {
                    let known = match reloaded {
                        Some(ids) => ids,
                        None => proposal_ids,
                    };
                    let mut window = window;
                    window.inject(hash);
                    Ok(
                        (
                            Controller { mode, cursor, pending: None, proposal_ids: known, window },
                            Action::PersistWindow,
                        ),
                    )
                },
                _ => Err(EngineError::UnexpectedEvent),
            },
        }
    }
}

// ---------------------------------------------------------------------------
// What holds of every run
// ---------------------------------------------------------------------------

/// A successful cycle: the hash that the node gave for the height asked, and
/// the proposals reloaded at the end of the pipeline, if any were.
pub type Cycle = (Seq<char>, Option<Seq<u64>>);

/// The state after one successful cycle of catching up: the node has given
/// a hash for the height asked and the block has gone through the pipeline.
pub open spec fn after_cycle(state: Ingestion, cycle: Cycle) -> Ingestion {
    match step_spec(state, Occurrence::HeightAnswer(Some(cycle.0))) {
        Ok((busy, _)) => match step_spec(busy, Occurrence::Scanned(cycle.1)) {
            Ok((next, _)) => next,
            Err(_) => busy,
        },
        Err(_) => state,
    }
}

/// The state after successful cycles of catching up, one after the other.
pub open spec fn after_cycles(state: Ingestion, cycles: Seq<Cycle>) -> Ingestion
    decreases cycles.len(),
{
    if cycles.len() == 0 {
        state
    } else {
        after_cycle(after_cycles(state, cycles.drop_last()), cycles.last())
    }
}

/// Catching up walks the heights one by one. From a state that catches up
/// with nothing in the pipeline, after any number of successful cycles the
/// controller still catches up, its cursor has moved on by that number, and
/// the window is as it was.
pub proof fn lemma_catchup_advances(state: Ingestion, cycles: Seq<Cycle>)
    requires
        state.mode == Mode::Catchup,
        state.pending is None,
        state.cursor + cycles.len() <= u64::MAX,
    ensures
        after_cycles(state, cycles).mode == Mode::Catchup,
        after_cycles(state, cycles).pending is None,
        after_cycles(state, cycles).cursor == state.cursor + cycles.len(),
        after_cycles(state, cycles).window == state.window,
    decreases cycles.len(),
{
    if cycles.len() > 0 {
        lemma_catchup_advances(state, cycles.drop_last());
    }
}

/// Catching up scans each height once, in ascending order and without a
/// gap: in the cycle with index `i` the block that goes into the pipeline is
/// the one whose hash the node gave for the height `i` above the first one,
/// and the request that follows it is for the next height. From an empty
/// store the first height is zero, so after `n` cycles the heights `0` to
/// `n - 1` have been scanned.
pub proof fn lemma_catchup_contiguous(state: Ingestion, cycles: Seq<Cycle>, i: int)
    requires
        state.mode == Mode::Catchup,
        state.pending is None,
        state.cursor + cycles.len() <= u64::MAX,
        0 <= i < cycles.len(),
    ensures
        ({
            let before = after_cycles(state, cycles.take(i));
            let busy = Ingestion { pending: Some(cycles[i].0), ..before };
            &&& before.cursor == state.cursor + i
            &&& step_spec(before, Occurrence::HeightAnswer(Some(cycles[i].0))) == Ok::<
                (Ingestion, Request),
                EngineError,
            >((busy, Request::Scan(cycles[i].0)))
            &&& step_spec(busy, Occurrence::Scanned(cycles[i].1)) == Ok::<
                (Ingestion, Request),
                EngineError,
            >(
                (
                    after_cycles(state, cycles.take(i + 1)),
                    Request::FetchHash((state.cursor + i + 1) as u64),
                ),
            )
        }),
{
    lemma_catchup_advances(state, cycles.take(i));
    assert(cycles.take(i + 1).drop_last() =~= cycles.take(i));
    assert(cycles.take(i + 1).last() == cycles[i]);
}

/// The heights of the blocks that have gone through the pipeline in a run of
/// successful cycles: for each cycle, the height that was asked for when
/// its hash came.
pub open spec fn heights_scanned(state: Ingestion, cycles: Seq<Cycle>) -> Seq<u64> {
    Seq::new(cycles.len(), |i: int| after_cycles(state, cycles.take(i)).cursor)
}

/// After any number of successful cycles the heights scanned are those from
/// the first height on, each once, in ascending order and without a gap;
/// from an empty store, the heights from zero on. A store that holds a block
/// for each of them adds up to the sum of their range.
pub proof fn lemma_catchup_heights(state: Ingestion, cycles: Seq<Cycle>)
    requires
        state.mode == Mode::Catchup,
        state.pending is None,
        state.cursor + cycles.len() <= u64::MAX,
    ensures
        heights_scanned(state, cycles) == full_range(
            state.cursor as int,
            state.cursor + cycles.len() - 1,
        ),
        column_sum(heights_scanned(state, cycles)) == range_sum(
            state.cursor as int,
            state.cursor + cycles.len() - 1,
        ),
{
    let scanned = heights_scanned(state, cycles);
    let range = full_range(state.cursor as int, state.cursor + cycles.len() - 1);
    assert forall|i: int| 0 <= i < cycles.len() implies scanned[i] == range[i] by {
        lemma_catchup_advances(state, cycles.take(i));
    }
    assert(scanned =~= range);
    lemma_full_range_sum(state.cursor as int, state.cursor + cycles.len() - 1);
}

/// The window never grows beyond its capacity. It is within its capacity at
/// start-up, whatever window was kept, and whatever the event, a step from a
/// state whose window is within its capacity leads to one whose window is.
pub proof fn lemma_window_stays_within_capacity(
    top: Option<u64>,
    proposal_ids: Seq<u64>,
    window: Seq<Seq<char>>,
    state: Ingestion,
    event: Occurrence,
)
    ensures
        start_spec(top, proposal_ids, window) matches Ok((first, _)) ==> first.window.len()
            <= WINDOW_CAPACITY,
        state.window.len() <= WINDOW_CAPACITY ==> (step_spec(state, event) matches Ok((next, _))
            ==> next.window.len() <= WINDOW_CAPACITY),
{
}

/// A store without blocks is caught up from height zero.
pub proof fn lemma_empty_store_starts_at_zero(proposal_ids: Seq<u64>, window: Seq<Seq<char>>)
    ensures
        start_spec(None, proposal_ids, window) == Ok::<(Ingestion, Request), EngineError>(
            (
                Ingestion {
                    mode: Mode::Catchup,
                    cursor: 0,
                    pending: None,
                    proposal_ids,
                    window: newest(window),
                },
                Request::FetchHash(0),
            ),
        ),
{
}

/// The live path takes each block once. A hash that the window does not
/// hold sends its block into the pipeline; at the end of the pipeline the
/// hash stands in the window, once, and the window is within its capacity;
/// the same hash brought again is dropped and changes nothing.
pub proof fn lemma_redelivery_is_dropped(
    state: Ingestion,
    hash: Seq<char>,
    reloaded: Option<Seq<u64>>,
)
    requires
        state.mode == Mode::Listen,
        state.pending is None,
        state.window.len() <= WINDOW_CAPACITY,
        !state.window.contains(hash),
    ensures
        ({
            let busy = Ingestion { pending: Some(hash), ..state };
            let done = Ingestion {
                proposal_ids: known_after(state.proposal_ids, reloaded),
                window: injected(state.window, hash),
                ..state
            };
            &&& step_spec(state, Occurrence::Notification(hash)) == Ok::<
                (Ingestion, Request),
                EngineError,
            >((busy, Request::Scan(hash)))
            &&& step_spec(busy, Occurrence::Scanned(reloaded)) == Ok::<
                (Ingestion, Request),
                EngineError,
            >((done, Request::PersistWindow))
            &&& step_spec(done, Occurrence::Notification(hash)) == Ok::<
                (Ingestion, Request),
                EngineError,
            >((done, Request::Await))
            &&& done.window.len() <= WINDOW_CAPACITY
            &&& occurrences(done.window, hash) == 1
        }),
{
    lemma_injected_is_held(state.window, hash);
    lemma_injected_evicts_oldest(state.window, hash);
    lemma_injected_once(state.window, hash);
}

} // verus!
