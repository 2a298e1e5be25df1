//! Start-up reload of the persisted block records, with repair of gaps.
//!
//! The records are walked once in the order in which they were persisted,
//! with a cursor that holds the height expected next. A record at the
//! cursor is accepted. A record below it means corruption. A record above it
//! opens a gap, which is repaired only if a chain-data client is at hand and
//! the gap is not longer than `MAX_HASH_GAP_REPAIR`: for each missing height
//! in turn the block hash is fetched, then its header, and the record made
//! of them is stored and accepted.
//!
//! Fetching and storing are the caller's work. `Preload` decides: each call
//! of `step` takes the outcome of what was asked for last and returns what
//! to do next.

use vstd::prelude::*;
use crate::types::{BlockHash, BlockMeta, Height, Timestamp};

verus! {

/// Length of the longest gap that is repaired.
pub const MAX_HASH_GAP_REPAIR: u32 = 1000;

/// Why the persisted records cannot be used. All of these ask for a new index.
#[derive(Clone, Copy, Debug, PartialEq, Eq, Structural)]
pub enum Corruption {
    /// A record lies below the height expected next.
    OutOfOrder { height: Height },
    /// Records are missing and no client is at hand to supply them.
    GapWithoutClient { expected: u64, found: Height },
    /// More records are missing than are repaired.
    GapTooLarge { len: u32, first: Height, last: Height },
    /// The client failed to answer for the block hash at a height.
    FetchBlockHash { height: Height },
    /// The client knows no block at a height.
    MissingBlockHash { height: Height },
    /// The client failed to answer for the header of a block.
    FetchBlockHeader { hash: BlockHash },
    /// The store failed to keep a repaired record.
    WriteHashMeta { height: Height },
}

#[derive(Clone, Copy, Debug, PartialEq, Eq, Structural)]
pub enum Error {
    /// The persisted records are inconsistent and were not repaired.
    DBCorrupted(Corruption),
    /// `step` was handed an outcome of something it had not asked for.
    UnexpectedEvent,
}

/// What happened outside since the last step.
#[derive(Clone, Copy, Debug, PartialEq, Eq, Structural)]
pub enum Event {
    /// Nothing yet: the first step.
    Begin,
    /// The client's answer to `Action::FetchBlockHash`; `None` where it knows
    /// no block at that height.
    BlockHash(Option<BlockHash>),
    /// The time in the header that the client gave for `Action::FetchBlockHeader`.
    Header(Timestamp),
    /// The record of `Action::Store` was stored.
    Stored,
    /// What was asked for last has failed.
    Failed,
}

/// What the caller is to do next.
#[derive(Clone, Copy, Debug, PartialEq, Eq, Structural)]
pub enum Action {
    /// Ask the client for the block hash at this height.
    FetchBlockHash(Height),
    /// Ask the client for the header of this block.
    FetchBlockHeader(BlockHash),
    /// Store this repaired record.
    Store(BlockMeta),
    /// The preload is complete, with this many records accepted.
    Done(u64),
    /// The preload has failed.
    Abort(Error),
}

/// What the preload waits for.
#[derive(Clone, Copy, Debug, PartialEq, Eq, Structural)]
pub enum Phase {
    /// Nothing: the walk has not begun.
    Scanning,
    /// The block hash at a missing height.
    AwaitingHash { height: Height },
    /// The header of the block at a missing height.
    AwaitingHeader { height: Height, hash: BlockHash },
    /// The storing of a repaired record.
    AwaitingStore { meta: BlockMeta },
    /// Nothing: every record was accepted.
    Done,
    /// Nothing: the preload was aborted.
    Failed,
}

/// A preload as a mathematical value.
pub struct PreloadState {
    /// The persisted records, in the order in which they were read.
    pub metas: Seq<BlockMeta>,
    /// Whether a chain-data client is at hand.
    pub has_client: bool,
    /// How many of the records have been accepted.
    pub pos: int,
    /// The height expected next.
    pub cursor: int,
    /// Hash and time of each accepted record, by height.
    pub cache: Seq<(BlockHash, Timestamp)>,
    pub phase: Phase,
}

/// The preload aborted for `reason`.
pub open spec fn abort(s: PreloadState, reason: Corruption) -> (PreloadState, Action) {
    (PreloadState { phase: Phase::Failed, ..s }, Action::Abort(Error::DBCorrupted(reason)))
}

/// The preload after `meta` was accepted.
pub open spec fn accept(s: PreloadState, meta: BlockMeta) -> PreloadState {
    PreloadState { cursor: s.cursor + 1, cache: s.cache.push((meta.hash, meta.timestamp)), ..s }
}

/// The walk over the records from `s.pos` on, up to its end or to the first
/// record that is not at the cursor.
pub open spec fn scan(s: PreloadState) -> (PreloadState, Action)
    decreases s.metas.len() - s.pos,
{
    if s.pos < 0 || s.pos >= s.metas.len() {
        (PreloadState { phase: Phase::Done, ..s }, Action::Done(s.cursor as u64))
    } else {
        let meta = s.metas[s.pos];
        if meta.height == s.cursor {
            scan(PreloadState { pos: s.pos + 1, ..accept(s, meta) })
        } else if meta.height < s.cursor {
            abort(s, Corruption::OutOfOrder { height: meta.height })
        } else if !s.has_client {
            abort(s, Corruption::GapWithoutClient { expected: s.cursor as u64, found: meta.height })
        } else if meta.height - s.cursor > MAX_HASH_GAP_REPAIR {
            abort(
                s,
                Corruption::GapTooLarge {
                    len: (meta.height - s.cursor) as u32,
                    first: s.cursor as u32,
                    last: (meta.height - 1) as u32,
                },
            )
        } else {
            (
                PreloadState { phase: Phase::AwaitingHash { height: s.cursor as u32 }, ..s },
                Action::FetchBlockHash(s.cursor as u32),
            )
        }
    }
}

/// The preload after a repaired record was stored: the record is accepted;
/// then the next missing height is asked for, or, with the gap closed, the
/// walk goes on.
pub open spec fn after_store(s: PreloadState, meta: BlockMeta) -> (PreloadState, Action) {
    let t = accept(s, meta);
    if t.cursor < s.metas[s.pos].height {
        (
            PreloadState { phase: Phase::AwaitingHash { height: t.cursor as u32 }, ..t },
            Action::FetchBlockHash(t.cursor as u32),
        )
    } else {
        scan(PreloadState { phase: Phase::Scanning, ..t })
    }
}

/// One step of the preload: the state and the action that follow from a
/// state and an event.
pub open spec fn step(s: PreloadState, event: Event) -> (PreloadState, Action) {
    match (s.phase, event) {
        (Phase::Scanning, Event::Begin) => scan(s),
        (Phase::AwaitingHash { height }, Event::BlockHash(Some(hash))) => (
            PreloadState { phase: Phase::AwaitingHeader { height, hash }, ..s },
            Action::FetchBlockHeader(hash),
        ),
        (Phase::AwaitingHash { height }, Event::BlockHash(None)) => abort(
            s,
            Corruption::MissingBlockHash { height },
        ),
        (Phase::AwaitingHash { height }, Event::Failed) => abort(
            s,
            Corruption::FetchBlockHash { height },
        ),
        (Phase::AwaitingHeader { height, hash }, Event::Header(timestamp)) => (
            PreloadState {
                phase: Phase::AwaitingStore { meta: BlockMeta { height, hash, timestamp } },
                ..s
            },
            Action::Store(BlockMeta { height, hash, timestamp }),
        ),
        (Phase::AwaitingHeader { height, hash }, Event::Failed) => abort(
            s,
            Corruption::FetchBlockHeader { hash },
        ),
        (Phase::AwaitingStore { meta }, Event::Stored) => after_store(s, meta),
        (Phase::AwaitingStore { meta }, Event::Failed) => abort(
            s,
            Corruption::WriteHashMeta { height: meta.height },
        ),
        _ => (PreloadState { phase: Phase::Failed, ..s }, Action::Abort(Error::UnexpectedEvent)),
    }
}

/// The state of one preload.
#[derive(Debug)]
pub struct Preload {
    metas: Vec<BlockMeta>,
    has_client: bool,
    pos: usize,
    cursor: u64,
    cache: Vec<(BlockHash, Timestamp)>,
    phase: Phase,
}

impl View for Preload {
    type V = PreloadState;

    closed spec fn view(&self) -> PreloadState {
        PreloadState {
            metas: self.metas@,
            has_client: self.has_client,
            pos: self.pos as int,
            cursor: self.cursor as int,
            cache: self.cache@,
            phase: self.phase,
        }
    }
}

/// What holds of every state that a preload reaches: one cache entry for
/// each height below the cursor, and, while a gap is repaired, the height
/// asked for is the cursor and lies below the record that opened the gap.
pub open spec fn state_wf(s: PreloadState) -> bool {
    &&& 0 <= s.pos <= s.metas.len()
    &&& 0 <= s.cursor <= 0x1_0000_0000
    &&& s.cache.len() == s.cursor
    &&& match s.phase {
        Phase::AwaitingHash { height } => repairing(s, height),
        Phase::AwaitingHeader { height, hash } => repairing(s, height),
        Phase::AwaitingStore { meta } => repairing(s, meta.height),
        Phase::Done => s.pos == s.metas.len(),
        _ => true,
    }
}

/// A gap is open at `height`.
pub open spec fn repairing(s: PreloadState, height: Height) -> bool {
    &&& s.has_client
    &&& s.pos < s.metas.len()
    &&& height == s.cursor
    &&& s.cursor < s.metas[s.pos].height
}

impl Preload {
    pub open spec fn wf(&self) -> bool {
        state_wf(self@)
    }

    /// A preload over `metas`, the persisted records in the order in which
    /// they were read, with or without a client to repair gaps.
    pub fn new(metas: Vec<BlockMeta>, has_client: bool) -> (r: Self)
        ensures
            r.wf(),
            r@ == initial(metas@, has_client),
    {
        Preload { metas, has_client, pos: 0, cursor: 0, cache: Vec::new(), phase: Phase::Scanning }
    }

    /// Hash and time of each record accepted so far, by height.
    pub fn blocks_hash_ts(&self) -> (r: &Vec<(BlockHash, Timestamp)>)
        ensures
            r@ == self@.cache,
    {
        &self.cache
    }

    /// What the preload waits for.
    pub fn phase(&self) -> (r: Phase)
        ensures
            r == self@.phase,
    {
        self.phase
    }

    fn fail(&mut self, reason: Corruption) -> (a: Action)
        requires
            old(self).wf(),
        ensures
            final(self).wf(),
            (final(self)@, a) == abort(old(self)@, reason),
    {
        self.phase = Phase::Failed;
        Action::Abort(Error::DBCorrupted(reason))
    }

    fn run_scan(&mut self) -> (a: Action)
        requires
            old(self).wf(),
            old(self)@.phase is Scanning,
        ensures
            final(self).wf(),
            (final(self)@, a) == scan(old(self)@),
    {
        while self.pos < self.metas.len()
            invariant
                self.wf(),
                self@.phase is Scanning,
                scan(self@) == scan(old(self)@),
            decreases self.metas@.len() - self.pos,
        {
            let meta = self.metas[self.pos];
            let height: u64 = meta.height as u64;
            if height == self.cursor {
                self.cache.push((meta.hash, meta.timestamp));
                self.cursor = self.cursor + 1;
                self.pos = self.pos + 1;
            } else if height < self.cursor {
                return self.fail(Corruption::OutOfOrder { height: meta.height });
            } else if !self.has_client {
                return self.fail(
                    Corruption::GapWithoutClient { expected: self.cursor, found: meta.height },
                );
            } else if height - self.cursor > MAX_HASH_GAP_REPAIR as u64 {
                return self.fail(
                    Corruption::GapTooLarge {
                        len: (height - self.cursor) as u32,
                        first: self.cursor as u32,
                        last: meta.height - 1,
                    },
                );
            } else {
                let first: u32 = self.cursor as u32;
                self.phase = Phase::AwaitingHash { height: first };
                return Action::FetchBlockHash(first);
            }
        }
        self.phase = Phase::Done;
        Action::Done(self.cursor)
    }

    /// Takes the outcome of the action returned last (`Event::Begin` at
    /// first) and returns the action to take next. An event that does not
    /// answer that action aborts the preload.
    pub fn step(&mut self, event: Event) -> (a: Action)
        requires
            old(self).wf(),
        ensures
            final(self).wf(),
            (final(self)@, a) == step(old(self)@, event),
    {
        match (self.phase, event) {
            (Phase::Scanning, Event::Begin) => self.run_scan(),
            (Phase::AwaitingHash { height }, Event::BlockHash(Some(hash))) => {
                self.phase = Phase::AwaitingHeader { height, hash };
                Action::FetchBlockHeader(hash)
            },
            (Phase::AwaitingHash { height }, Event::BlockHash(None)) => self.fail(
                Corruption::MissingBlockHash { height },
            ),
            (Phase::AwaitingHash { height }, Event::Failed) => self.fail(
                Corruption::FetchBlockHash { height },
            ),
            (Phase::AwaitingHeader { height, hash }, Event::Header(timestamp)) => {
                let meta = BlockMeta::new(height, hash, timestamp);
                self.phase = Phase::AwaitingStore { meta };
                Action::Store(meta)
            },
            (Phase::AwaitingHeader { height, hash }, Event::Failed) => self.fail(
                Corruption::FetchBlockHeader { hash },
            ),
            (Phase::AwaitingStore { meta }, Event::Stored) => {
                self.cache.push((meta.hash, meta.timestamp));
                self.cursor = self.cursor + 1;
                if self.cursor < self.metas[self.pos].height as u64 {
                    let next: u32 = self.cursor as u32;
                    self.phase = Phase::AwaitingHash { height: next };
                    Action::FetchBlockHash(next)
                } else {
                    self.phase = Phase::Scanning;
                    self.run_scan()
                }
            },
            (Phase::AwaitingStore { meta }, Event::Failed) => self.fail(
                Corruption::WriteHashMeta { height: meta.height },
            ),
            _ => {
                self.phase = Phase::Failed;
                Action::Abort(Error::UnexpectedEvent)
            },
        }
    }
}

/// The state in which every preload begins.
pub open spec fn initial(metas: Seq<BlockMeta>, has_client: bool) -> PreloadState {
    PreloadState {
        metas,
        has_client,
        pos: 0,
        cursor: 0,
        cache: Seq::empty(),
        phase: Phase::Scanning,
    }
}

/// Begins the preload of `metas`, the persisted records in the order in
/// which they were read: walks them up to the end or to the first record
/// that is not at the cursor. Returns the preload with the first action;
/// where that is no `Action::Done` or `Action::Abort`, the caller performs
/// it and goes on with `Preload::step`.
pub fn headers(metas: Vec<BlockMeta>, has_client: bool) -> (r: (Preload, Action))
    ensures
        r.0.wf(),
        (r.0@, r.1) == scan(initial(metas@, has_client)),
{
    let mut preload = Preload::new(metas, has_client);
    let action = preload.step(Event::Begin);
    (preload, action)
}

} // verus!
