//! The state behind the price feed: which trades wait, when the next batch starts, what a
//! batch leaves behind.

use vstd::prelude::*;
use crate::finance::health::{copy_text, FinanceHealth};
use crate::finance::queue::{
    all_offered, any_taken, listed_trades_are_those_waiting, lists, offers_add_up,
    offers_keep_newest, waiting_changes_where_taken, TradeData, TradeQueue,
};
use crate::number::{decimal, decimal_text};
use crate::text::{contains, occurs, opt_view, same};

verus! {

/// From how many waiting trades on the next batch is hurried.
pub const UPDATE_BATCH_SIZE: usize = 10;

/// Milliseconds until the next batch with few trades waiting.
pub const UPDATE_BATCH_TIMEOUT: u64 = 1000;

/// Milliseconds until the next batch with many trades waiting.
pub const UPDATE_BATCH_SIZE_DELAY: u64 = 500;

/// Nanoseconds between two log lines on finished batches.
pub const LOG_THROTTLE_INTERVAL: u64 = 5_000_000_000;

/// A message of the price feed.
#[derive(Debug)]
pub struct TradeUpdate {
    pub message_type: String,
    pub data: Vec<TradeData>,
}

/// Totals over all batches.
#[derive(Debug)]
pub struct BatchStats {
    pub batches_processed: u64,
    pub total_updates_processed: u64,
    pub errors: u64,
}

/// What arrives from the price feed.
#[derive(Debug)]
pub enum Frame {
    /// A text, and the message that it was read as, if it could be read.
    Text { raw: String, update: Option<TradeUpdate> },
    /// The server closes the connection.
    Close,
    /// A frame of any other kind.
    Other,
    /// Receiving failed, with the text of the failure.
    Broken { error: String },
    /// There is nothing left to wait for.
    End,
}

/// What to do with the batch timer, with the milliseconds until it fires.
#[derive(Clone, Copy, Debug, PartialEq, Eq, Structural)]
pub enum TimerSetting {
    /// No timer runs: start one.
    Start { delay: u64 },
    /// A timer runs: have it fire that long from now instead.
    Restart { delay: u64 },
}

/// What to do after a frame.
#[derive(Clone, Copy, Debug, PartialEq, Eq, Structural)]
pub enum ReadStep {
    /// Wait for the next frame.
    Continue,
    /// Set the batch timer, then wait for the next frame.
    SetTimer(TimerSetting),
    /// Leave the connection.
    Stop,
}

/// A batch that was begun.
#[derive(Debug)]
pub struct Batch {
    pub number: u64,
    pub trades: Vec<TradeData>,
}

/// How many trades of a batch went through, and how many failed.
#[derive(Clone, Copy, Debug, PartialEq, Eq, Structural)]
pub struct BatchCounts {
    pub processed: u64,
    pub errors: u64,
}

impl BatchCounts {
    /// The step that one trade of a batch takes: it counts once, as gone through or as failed.
    pub open spec fn note_step(before: Self, succeeded: bool, after: Self) -> bool {
        if succeeded {
            after.processed == before.processed + 1 && after.errors == before.errors
        } else {
            after.processed == before.processed && after.errors == before.errors + 1
        }
    }

    /// No trade was counted yet.
    pub fn new() -> (r: Self)
        ensures
            r.processed == 0,
            r.errors == 0,
    {
        BatchCounts { processed: 0, errors: 0 }
    }

    /// Counts one trade of the batch.
    pub fn note(&mut self, succeeded: bool)
        requires
            succeeded ==> old(self).processed < u64::MAX,
            !succeeded ==> old(self).errors < u64::MAX,
        ensures
            Self::note_step(*old(self), succeeded, *final(self)),
    {
        if succeeded {
            self.processed = self.processed + 1;
        } else {
            self.errors = self.errors + 1;
        }
    }
}

/// What to do after a batch.
#[derive(Clone, Copy, Debug, PartialEq, Eq, Structural)]
pub struct BatchEnd {
    /// Whether to log the counts and totals.
    pub log: bool,
    /// How to set the batch timer, if at all.
    pub timer: Option<TimerSetting>,
}

/// The state behind one connection to the price feed.
#[derive(Debug)]
pub struct WebSocketState {
    pub update_queue: TradeQueue,
    /// Whether the batch timer runs.
    pub batch_timer: bool,
    pub is_processing_batch: bool,
    pub stats: BatchStats,
    /// When the counts were last logged, in nanoseconds of a clock that never goes back.
    pub last_log_time: Option<u64>,
    pub last_error_message: Option<String>,
}

/// What happens while a batch is in process.
#[derive(Debug)]
pub enum Meanwhile {
    /// A frame arrives.
    Frame { frame: Frame, step: ReadStep },
    /// The timer fires.
    Timer { start_batch: bool },
    /// A batch is to begin.
    Begin { batch: Option<Batch> },
}

impl Meanwhile {
    /// The trades that arrive with it.
    pub open spec fn trades(self) -> Seq<TradeData> {
        match self {
            Meanwhile::Frame { frame: Frame::Text { raw: _, update: Some(update) }, step: _ } => {
                if update.message_type@ == "trade"@ {
                    update.data@
                } else {
                    seq![]
                }
            },
            _ => seq![],
        }
    }

    /// The step that it takes.
    pub open spec fn is_step(self, before: WebSocketState, after: WebSocketState) -> bool {
        match self {
            Meanwhile::Frame { frame, step } => WebSocketState::frame_step(
                before,
                frame,
                after,
                step,
            ),
            Meanwhile::Timer { start_batch } => WebSocketState::timer_step(
                before,
                after,
                start_batch,
            ),
            Meanwhile::Begin { batch } => WebSocketState::begin_step(before, after, batch),
        }
    }
}

/// The trades that arrive with a list of events, one after the other.
pub open spec fn arrived(events: Seq<Meanwhile>) -> Seq<TradeData>
    decreases events.len(),
{
    if events.len() == 0 {
        seq![]
    } else {
        arrived(events.drop_last()) + events.last().trades()
    }
}

/// Milliseconds until the next batch, with that many trades waiting.
pub open spec fn batch_delay(waiting: nat) -> u64 {
    if waiting >= UPDATE_BATCH_SIZE {
        UPDATE_BATCH_SIZE_DELAY
    } else {
        UPDATE_BATCH_TIMEOUT
    }
}

/// How the batch timer is set, with that many trades waiting.
pub open spec fn timer_setting(runs: bool, waiting: nat) -> TimerSetting {
    if runs {
        TimerSetting::Restart { delay: batch_delay(waiting) }
    } else {
        TimerSetting::Start { delay: batch_delay(waiting) }
    }
}

/// The note on a batch in which trades failed.
pub open spec fn batch_errors_note(number: u64, errors: u64) -> Seq<char> {
    "Batch #"@ + decimal(number as nat) + " had "@ + decimal(errors as nat)
        + " errors processing trades"@
}

/// The note on a batch that failed as a whole.
pub open spec fn batch_failure_note(number: u64, error: Seq<char>) -> Seq<char> {
    "Batch #"@ + decimal(number as nat) + " processing error: "@ + error
}

impl WebSocketState {
    /// Whether two states agree in all but the queue, the timer and the last error.
    pub open spec fn same_progress(self, other: Self) -> bool {
        &&& self.is_processing_batch == other.is_processing_batch
        &&& self.stats == other.stats
        &&& self.last_log_time == other.last_log_time
    }

    /// Whether trades wait.
    pub open spec fn has_waiting(self) -> bool {
        self.update_queue@.len() > 0
    }

    /// Whether every waiting trade has a batch coming: a timer runs, or a batch is in process,
    /// whose end looks at the queue again.
    pub open spec fn nothing_stranded(self) -> bool {
        self.has_waiting() ==> self.batch_timer || self.is_processing_batch
    }

    /// The step that a list of trades from the feed takes: they are offered to the queue, and
    /// where it takes one the timer is set.
    pub open spec fn trades_step(
        before: Self,
        trades: Seq<TradeData>,
        after: Self,
        setting: Option<TimerSetting>,
    ) -> bool {
        &&& after.same_progress(before)
        &&& after.last_error_message == before.last_error_message
        &&& after.update_queue@ == all_offered(before.update_queue@, trades)
        &&& if any_taken(before.update_queue@, trades) {
            &&& setting == Some(timer_setting(before.batch_timer, after.update_queue@.len()))
            &&& after.batch_timer
        } else {
            &&& setting is None
            &&& after.batch_timer == before.batch_timer
        }
    }

    /// The step that keeps everything but the last error.
    pub open spec fn error_step(before: Self, after: Self, error: Seq<char>) -> bool {
        &&& after.same_progress(before)
        &&& after.update_queue == before.update_queue
        &&& after.batch_timer == before.batch_timer
        &&& opt_view(after.last_error_message) == Some(error)
    }

    /// The step that a frame takes.
    pub open spec fn frame_step(before: Self, frame: Frame, after: Self, step: ReadStep) -> bool {
        match frame {
            Frame::Text { raw, update: Some(update) } => {
                if update.message_type@ == "trade"@ {
                    match step {
                        ReadStep::Continue => Self::trades_step(
                            before,
                            update.data@,
                            after,
                            None,
                        ),
                        ReadStep::SetTimer(setting) => Self::trades_step(
                            before,
                            update.data@,
                            after,
                            Some(setting),
                        ),
                        ReadStep::Stop => false,
                    }
                } else if update.message_type@ == "error"@ {
                    step == ReadStep::Continue && Self::error_step(before, after, raw@)
                } else {
                    step == ReadStep::Continue && after == before
                }
            },
            Frame::Text { raw, update: None } => {
                if occurs(raw@, "error"@) {
                    step == ReadStep::Continue && Self::error_step(before, after, raw@)
                } else {
                    step == ReadStep::Continue && after == before
                }
            },
            Frame::Close => step == ReadStep::Stop && Self::error_step(
                before,
                after,
                "Server closed connection"@,
            ),
            Frame::Other => step == ReadStep::Continue && after == before,
            Frame::Broken { error } => step == ReadStep::Stop && Self::error_step(
                before,
                after,
                "Error receiving message: "@ + error@,
            ),
            Frame::End => step == ReadStep::Stop && after == before,
        }
    }

    /// The step that the firing of the timer takes; a batch is wanted unless one is in process.
    pub open spec fn timer_step(before: Self, after: Self, start_batch: bool) -> bool {
        &&& start_batch == !before.is_processing_batch
        &&& after.same_progress(before)
        &&& after.update_queue == before.update_queue
        &&& after.last_error_message == before.last_error_message
        &&& !after.batch_timer
    }

    /// The step that the begin of a batch takes: with no batch in process and trades waiting,
    /// all of them leave the queue, under the next batch number.
    pub open spec fn begin_step(before: Self, after: Self, batch: Option<Batch>) -> bool {
        if before.is_processing_batch || !before.has_waiting() {
            batch is None && after == before
        } else {
            &&& batch is Some
            &&& batch->0.number == before.stats.batches_processed + 1
            &&& lists(batch->0.trades@, before.update_queue@)
            &&& after.update_queue@ == Map::<Seq<char>, TradeData>::empty()
            &&& after.is_processing_batch
            &&& after.stats == (BatchStats {
                batches_processed: batch->0.number,
                ..before.stats
            })
            &&& after.batch_timer == before.batch_timer
            &&& after.last_log_time == before.last_log_time
            &&& after.last_error_message == before.last_error_message
        }
    }

    /// Whether the end of a batch at that time is logged.
    pub open spec fn log_is_due(self, now: u64) -> bool {
        match self.last_log_time {
            Some(last) => now - last >= LOG_THROTTLE_INTERVAL,
            None => true,
        }
    }

    /// The step that the end of a batch takes, for the state.
    pub open spec fn finish_step(
        before: Self,
        number: u64,
        outcome: Result<BatchCounts, String>,
        now: u64,
        after: Self,
        end: BatchEnd,
    ) -> bool {
        &&& after.update_queue == before.update_queue
        &&& !after.is_processing_batch
        &&& after.stats.batches_processed == before.stats.batches_processed
        &&& if before.has_waiting() {
            &&& after.batch_timer
            &&& end.timer == Some(timer_setting(before.batch_timer, before.update_queue@.len()))
        } else {
            &&& after.batch_timer == before.batch_timer
            &&& end.timer is None
        }
        &&& match outcome {
            Ok(counts) => {
                &&& after.stats.total_updates_processed == before.stats.total_updates_processed
                    + counts.processed
                &&& after.stats.errors == before.stats.errors + counts.errors
                &&& if counts.errors > 0 && before.last_error_message is None {
                    opt_view(after.last_error_message) == Some(
                        batch_errors_note(number, counts.errors),
                    )
                } else {
                    after.last_error_message == before.last_error_message
                }
                &&& end.log == before.log_is_due(now)
                &&& after.last_log_time == if end.log {
                    Some(now)
                } else {
                    before.last_log_time
                }
            },
            Err(error) => {
                &&& after.stats.total_updates_processed == before.stats.total_updates_processed
                &&& after.stats.errors == before.stats.errors + 1
                &&& opt_view(after.last_error_message) == Some(batch_failure_note(number, error@))
                &&& !end.log
                &&& after.last_log_time == before.last_log_time
            },
        }
    }

    /// How the end of a batch is reported, by the state after it: as connected, with the number of
    /// the batch and the errors so far; a batch that failed as a whole is not reported.
    pub open spec fn reports_batch(
        self,
        number: u64,
        outcome: Result<BatchCounts, String>,
        before: FinanceHealth,
        after: FinanceHealth,
    ) -> bool {
        &&& outcome is Err ==> after == before
        &&& outcome is Ok ==> {
            &&& after.status == before.status
            &&& after.connection_status@ == "connected"@
            &&& after.batch_number == number
            &&& after.error_count == self.stats.errors
            &&& after.last_error == self.last_error_message
        }
    }

    /// How the loss of the connection is reported: with the batch that was reported last and the
    /// errors so far.
    pub open spec fn reports_loss(self, before: FinanceHealth, after: FinanceHealth) -> bool {
        &&& after.status == before.status
        &&& after.connection_status@ == "disconnected"@
        &&& after.batch_number == before.batch_number
        &&& after.error_count == self.stats.errors
        &&& after.last_error == self.last_error_message
    }

    /// Nothing waits, nothing runs, nothing was counted.
    pub fn new() -> (r: Self)
        ensures
            r.update_queue@ == Map::<Seq<char>, TradeData>::empty(),
            !r.batch_timer,
            !r.is_processing_batch,
            r.stats == (BatchStats {
                batches_processed: 0,
                total_updates_processed: 0,
                errors: 0,
            }),
            r.last_log_time is None,
            r.last_error_message is None,
    {
        WebSocketState {
            update_queue: TradeQueue::new(),
            batch_timer: false,
            is_processing_batch: false,
            stats: BatchStats { batches_processed: 0, total_updates_processed: 0, errors: 0 },
            last_log_time: None,
            last_error_message: None,
        }
    }

    /// Takes in what arrived from the price feed.
    pub fn on_frame(&mut self, frame: Frame) -> (r: ReadStep)
        ensures
            Self::frame_step(*old(self), frame, *final(self), r),
    {
        match frame {
            Frame::Text { raw, update: Some(update) } => {
                if same(update.message_type.as_str(), "trade") {
                    match self.handle_trade_update_batch(update.data) {
                        Some(setting) => ReadStep::SetTimer(setting),
                        None => ReadStep::Continue,
                    }
                } else if same(update.message_type.as_str(), "error") {
                    self.last_error_message = Some(raw);
                    ReadStep::Continue
                } else {
                    ReadStep::Continue
                }
            },
            Frame::Text { raw, update: None } => {
                if contains(raw.as_str(), "error") {
                    self.last_error_message = Some(raw);
                }
                ReadStep::Continue
            },
            Frame::Close => {
                self.last_error_message = Some("Server closed connection".to_owned());
                ReadStep::Stop
            },
            Frame::Other => ReadStep::Continue,
            Frame::Broken { error } => {
                let mut note: String = "Error receiving message: ".to_owned();
                note.append(error.as_str());
                self.last_error_message = Some(note);
                ReadStep::Stop
            },
            Frame::End => ReadStep::Stop,
        }
    }

    /// Offers the trades to the queue; where one is taken, says how to set the timer.
    pub fn handle_trade_update_batch(&mut self, trades: Vec<TradeData>) -> (r: Option<TimerSetting>)
        ensures
            Self::trades_step(*old(self), trades@, *final(self), r),
    {
        let mut taken: bool = false;
        let ghost before = *self;
        let ghost all = trades@;
        for trade in it: trades
            invariant
                it.seq() == all,
                self.update_queue@ == all_offered(
                    before.update_queue@,
                    all.take(it.index() as int),
                ),
                taken == any_taken(before.update_queue@, all.take(it.index() as int)),
                self.same_progress(before),
                self.last_error_message == before.last_error_message,
                self.batch_timer == before.batch_timer,
        {
            proof {
                let n = it.index() as int;
                assert(all.take(n + 1).drop_last() =~= all.take(n));
                assert(all.take(n + 1).last() == trade);
            }
            if self.update_queue.offer(trade) {
                taken = true;
            }
        }
        assert(all.take(all.len() as int) =~= all);
        if taken {
            Some(self.schedule_batch_processing())
        } else {
            None
        }
    }

    /// Says how to set the timer for the trades that wait.
    pub fn schedule_batch_processing(&mut self) -> (r: TimerSetting)
        ensures
            *final(self) == (WebSocketState { batch_timer: true, ..*old(self) }),
            r == timer_setting(old(self).batch_timer, old(self).update_queue@.len()),
    {
        let delay: u64 = if self.update_queue.len() >= UPDATE_BATCH_SIZE {
            UPDATE_BATCH_SIZE_DELAY
        } else {
            UPDATE_BATCH_TIMEOUT
        };
        if self.batch_timer {
            TimerSetting::Restart { delay }
        } else {
            self.batch_timer = true;
            TimerSetting::Start { delay }
        }
    }

    /// The timer fired. Says whether to start a batch.
    pub fn on_timer(&mut self) -> (r: bool)
        ensures
            Self::timer_step(*old(self), *final(self), r),
    {
        self.batch_timer = false;
        !self.is_processing_batch
    }

    /// Begins a batch, unless one is in process or no trade waits.
    pub fn begin_batch(&mut self) -> (r: Option<Batch>)
        requires
            !old(self).is_processing_batch && old(self).has_waiting() ==> old(
                self,
            ).stats.batches_processed < u64::MAX,
        ensures
            Self::begin_step(*old(self), *final(self), r),
    {
        if self.is_processing_batch || self.update_queue.is_empty() {
            return None;
        }
        self.is_processing_batch = true;
        let trades = self.update_queue.take_all();
        self.stats.batches_processed = self.stats.batches_processed + 1;
        Some(Batch { number: self.stats.batches_processed, trades })
    }

    /// Ends a batch: counts it, notes its errors, reports it as connected, and says whether to
    /// log and how to set the timer for what came in meanwhile. The report is left as it was
    /// where the batch failed as a whole.
    pub fn finish_batch(
        &mut self,
        number: u64,
        outcome: Result<BatchCounts, String>,
        now: u64,
        health: &mut FinanceHealth,
    ) -> (r: BatchEnd)
        requires
            outcome matches Ok(counts) ==> {
                &&& old(self).stats.total_updates_processed + counts.processed <= u64::MAX
                &&& old(self).stats.errors + counts.errors <= u64::MAX
            },
            outcome is Err ==> old(self).stats.errors < u64::MAX,
        ensures
            Self::finish_step(*old(self), number, outcome, now, *final(self), r),
            final(self).reports_batch(number, outcome, *old(health), *final(health)),
    {
        self.is_processing_batch = false;
        let mut log: bool = false;
        match outcome {
            Ok(counts) => {
                self.stats.total_updates_processed = self.stats.total_updates_processed
                    + counts.processed;
                self.stats.errors = self.stats.errors + counts.errors;
                if counts.errors > 0 && self.last_error_message.is_none() {
                    let mut note: String = "Batch #".to_owned();
                    note.append(decimal_text(number).as_str());
                    note.append(" had ");
                    note.append(decimal_text(counts.errors).as_str());
                    note.append(" errors processing trades");
                    self.last_error_message = Some(note);
                }
                log = match self.last_log_time {
                    Some(last) => now >= last && now - last >= LOG_THROTTLE_INTERVAL,
                    None => true,
                };
                health.update_health(
                    "connected".to_owned(),
                    number,
                    self.stats.errors,
                    copy_text(&self.last_error_message),
                );
                if log {
                    self.last_log_time = Some(now);
                }
            },
            Err(error) => {
                let mut note: String = "Batch #".to_owned();
                note.append(decimal_text(number).as_str());
                note.append(" processing error: ");
                note.append(error.as_str());
                self.stats.errors = self.stats.errors + 1;
                self.last_error_message = Some(note);
            },
        }
        let timer: Option<TimerSetting> = if !self.update_queue.is_empty() {
            Some(self.schedule_batch_processing())
        } else {
            None
        };
        BatchEnd { log, timer }
    }

    /// Reports a new connection.
    pub fn connected(health: &mut FinanceHealth)
        ensures
            final(health).status == old(health).status,
            final(health).connection_status@ == "connected"@,
            final(health).batch_number == 0,
            final(health).error_count == 0,
            final(health).last_error is None,
    {
        health.update_health("connected".to_owned(), 0, 0, None);
    }

    /// Reports the loss of the connection, and says whether trades wait for a last batch.
    pub fn disconnected(&self, health: &mut FinanceHealth) -> (r: bool)
        ensures
            r == self.has_waiting(),
            self.reports_loss(*old(health), *final(health)),
    {
        let batch_number: u64 = health.batch_number;
        health.update_health(
            "disconnected".to_owned(),
            batch_number,
            self.stats.errors,
            copy_text(&self.last_error_message),
        );
        !self.update_queue.is_empty()
    }
}

/// No frame strands a waiting trade: where every waiting trade has a batch coming before a
/// frame, every waiting trade has one after it.
pub proof fn frames_strand_nothing(
    before: WebSocketState,
    frame: Frame,
    after: WebSocketState,
    step: ReadStep,
)
    requires
        before.nothing_stranded(),
        WebSocketState::frame_step(before, frame, after, step),
    ensures
        after.nothing_stranded(),
{
    if let Frame::Text { raw, update: Some(update) } = frame {
        waiting_changes_where_taken(before.update_queue@, update.data@);
    }
}

/// The timer strands no waiting trade: once it fired and the batch that it asks for was begun,
/// every trade that still waits has a batch coming.
pub proof fn timer_strands_nothing(
    before: WebSocketState,
    fired: WebSocketState,
    start_batch: bool,
    after: WebSocketState,
    batch: Option<Batch>,
)
    requires
        WebSocketState::timer_step(before, fired, start_batch),
        if start_batch {
            WebSocketState::begin_step(fired, after, batch)
        } else {
            after == fired
        },
    ensures
        after.nothing_stranded(),
{
}

/// The end of a batch strands no waiting trade, whatever the batch came to.
pub proof fn batch_end_strands_nothing(
    before: WebSocketState,
    number: u64,
    outcome: Result<BatchCounts, String>,
    now: u64,
    after: WebSocketState,
    end: BatchEnd,
)
    requires
        WebSocketState::finish_step(before, number, outcome, now, after, end),
    ensures
        after.nothing_stranded(),
{
}

/// One batch at a time: once a batch was begun, none begins until it ends, whatever arrives
/// and however often the timer fires meanwhile.
pub proof fn one_batch_at_a_time(
    before: WebSocketState,
    begun: WebSocketState,
    batch: Batch,
    meanwhile: WebSocketState,
    after: WebSocketState,
    second: Option<Batch>,
)
    requires
        WebSocketState::begin_step(before, begun, Some(batch)),
        meanwhile.same_progress(begun),
        WebSocketState::begin_step(meanwhile, after, second),
    ensures
        second is None,
        after == meanwhile,
{
}

/// No trade is lost: a batch that begins after trades came in holds, for each of them, a trade
/// of its symbol that is as new, and no symbol twice.
pub proof fn batch_holds_newest_trades(
    before: WebSocketState,
    trades: Seq<TradeData>,
    queued: WebSocketState,
    setting: Option<TimerSetting>,
    after: WebSocketState,
    batch: Batch,
)
    requires
        WebSocketState::trades_step(before, trades, queued, setting),
        WebSocketState::begin_step(queued, after, Some(batch)),
    ensures
        forall|i: int|
            0 <= i < trades.len() ==> exists|j: int|
                0 <= j < batch.trades@.len() && (#[trigger] batch.trades@[j]).symbol@ == (
                #[trigger] trades[i]).symbol@ && batch.trades@[j].timestamp >= trades[i].timestamp,
        forall|j: int, k: int|
            0 <= j < k < batch.trades@.len() ==> #[trigger] batch.trades@[j].symbol@
                != #[trigger] batch.trades@[k].symbol@,
{
    offers_keep_newest(before.update_queue@, trades);
    let waiting = queued.update_queue@;
    assert forall|i: int| 0 <= i < trades.len() implies exists|j: int|
        0 <= j < batch.trades@.len() && (#[trigger] batch.trades@[j]).symbol@ == (
        #[trigger] trades[i]).symbol@ && batch.trades@[j].timestamp >= trades[i].timestamp by {
        let symbol = trades[i].symbol@;
        assert(waiting.contains_key(symbol));
        let j = choose|j: int|
            0 <= j < batch.trades@.len() && (#[trigger] batch.trades@[j]).symbol@ == symbol;
        assert(waiting[batch.trades@[j].symbol@] == batch.trades@[j]);
    }
}

/// Every trade of a batch counts once: after as many trades were counted as the batch holds, those
/// that went through and those that failed together are that many, and at the end of the batch the
/// totals have grown by as many.
pub proof fn batch_counts_add_up(
    batch: Batch,
    counts: Seq<BatchCounts>,
    outcomes: Seq<bool>,
    before: WebSocketState,
    now: u64,
    after: WebSocketState,
    end: BatchEnd,
)
    requires
        counts.len() == outcomes.len() + 1,
        outcomes.len() == batch.trades@.len(),
        counts[0] == (BatchCounts { processed: 0, errors: 0 }),
        forall|i: int|
            0 <= i < outcomes.len() ==> BatchCounts::note_step(
                #[trigger] counts[i],
                outcomes[i],
                counts[i + 1],
            ),
        WebSocketState::finish_step(before, batch.number, Ok(counts.last()), now, after, end),
    ensures
        counts.last().processed + counts.last().errors == batch.trades@.len(),
        counts.last().processed == outcomes.filter(|succeeded: bool| succeeded).len(),
        after.stats.total_updates_processed + after.stats.errors
            == before.stats.total_updates_processed + before.stats.errors + batch.trades@.len(),
{
    counts_follow_outcomes(counts, outcomes);
}

proof fn counts_follow_outcomes(counts: Seq<BatchCounts>, outcomes: Seq<bool>)
    requires
        counts.len() == outcomes.len() + 1,
        counts[0] == (BatchCounts { processed: 0, errors: 0 }),
        forall|i: int|
            0 <= i < outcomes.len() ==> BatchCounts::note_step(
                #[trigger] counts[i],
                outcomes[i],
                counts[i + 1],
            ),
    ensures
        counts.last().processed + counts.last().errors == outcomes.len(),
        counts.last().processed == outcomes.filter(|succeeded: bool| succeeded).len(),
    decreases outcomes.len(),
{
    reveal(Seq::filter);
    if outcomes.len() > 0 {
        let n = outcomes.len() - 1;
        let front = counts.drop_last();
        let early = outcomes.drop_last();
        assert forall|i: int| 0 <= i < n implies BatchCounts::note_step(
            #[trigger] front[i],
            early[i],
            front[i + 1],
        ) by {
            assert(BatchCounts::note_step(counts[i], outcomes[i], counts[i + 1]));
        }
        counts_follow_outcomes(front, early);
        assert(BatchCounts::note_step(counts[n], outcomes[n], counts[n + 1]));
        assert(front.last() == counts[n]);
    }
}

proof fn meanwhile_keeps_arrivals(states: Seq<WebSocketState>, events: Seq<Meanwhile>)
    requires
        states.len() == events.len() + 1,
        states[0].is_processing_batch,
        forall|i: int|
            0 <= i < events.len() ==> (#[trigger] events[i]).is_step(states[i], states[i + 1]),
    ensures
        states.last().same_progress(states[0]),
        states.last().update_queue@ == all_offered(states[0].update_queue@, arrived(events)),
    decreases events.len(),
{
    if events.len() > 0 {
        let n = events.len() - 1;
        let front = states.drop_last();
        let early = events.drop_last();
        assert forall|i: int| 0 <= i < n implies (#[trigger] early[i]).is_step(
            front[i],
            front[i + 1],
        ) by {
            assert(events[i].is_step(states[i], states[i + 1]));
        }
        meanwhile_keeps_arrivals(front, early);
        assert(front.last() == states[n]);
        assert(events[n].is_step(states[n], states[n + 1]));
        offers_add_up(states[0].update_queue@, arrived(early), events.last().trades());
        assert(states.last().update_queue@ == all_offered(
            front.last().update_queue@,
            events.last().trades(),
        ));
    }
}

/// What arrives while a batch is in process waits for the next one. Whatever frames arrive, however
/// often the timer fires and whatever other batches are to begin meanwhile: no other batch begins
/// and the wish for one changes nothing; at the end the queue holds what the trades that arrived
/// come to, none of them lost and none handled by this batch; if any waits, the timer is set by how
/// many wait, and once it fires the next batch holds all of them.
pub proof fn arrivals_wait_for_next_batch(
    before: WebSocketState,
    batch: Batch,
    states: Seq<WebSocketState>,
    events: Seq<Meanwhile>,
    outcome: Result<BatchCounts, String>,
    now: u64,
    ended: WebSocketState,
    end: BatchEnd,
    fired: WebSocketState,
    start_batch: bool,
    after: WebSocketState,
    next: Option<Batch>,
)
    requires
        states.len() == events.len() + 1,
        WebSocketState::begin_step(before, states[0], Some(batch)),
        forall|i: int|
            0 <= i < events.len() ==> (#[trigger] events[i]).is_step(states[i], states[i + 1]),
        WebSocketState::finish_step(states.last(), batch.number, outcome, now, ended, end),
        WebSocketState::timer_step(ended, fired, start_batch),
        WebSocketState::begin_step(fired, after, next),
    ensures
        forall|i: int|
            0 <= i < events.len() && (#[trigger] events[i]) is Begin ==> {
                &&& events[i]->batch is None
                &&& states[i + 1] == states[i]
            },
        ended.update_queue@ == all_offered(
            Map::<Seq<char>, TradeData>::empty(),
            arrived(events),
        ),
        !ended.is_processing_batch,
        ended.has_waiting() ==> {
            &&& ended.batch_timer
            &&& end.timer == Some(
                timer_setting(states.last().batch_timer, ended.update_queue@.len()),
            )
            &&& start_batch
            &&& next matches Some(following) && lists(following.trades@, ended.update_queue@)
        },
{
    meanwhile_keeps_arrivals(states, events);
    assert forall|i: int| 0 <= i < events.len() && (#[trigger] events[i]) is Begin implies {
        &&& events[i]->batch is None
        &&& states[i + 1] == states[i]
    } by {
        let part = states.take(i + 1);
        assert forall|k: int| 0 <= k < i implies (#[trigger] events.take(i)[k]).is_step(
            part[k],
            part[k + 1],
        ) by {
            assert(events[k].is_step(states[k], states[k + 1]));
        }
        meanwhile_keeps_arrivals(part, events.take(i));
        assert(part.last() == states[i]);
        assert(events[i].is_step(states[i], states[i + 1]));
    }
}

/// Frames and the timer leave it alone whether a batch is in process, and what was counted.
pub proof fn waiting_keeps_progress(
    before: WebSocketState,
    frame: Frame,
    after: WebSocketState,
    step: ReadStep,
    fired: WebSocketState,
    start_batch: bool,
)
    requires
        WebSocketState::frame_step(before, frame, after, step),
        WebSocketState::timer_step(before, fired, start_batch),
    ensures
        after.same_progress(before),
        fired.same_progress(before),
{
}

/// Batches are numbered one after the other: between the begin of one batch and the begin of
/// the next stands its end, and the next number is one higher.
pub proof fn batches_are_numbered_in_order(
    before: WebSocketState,
    begun: WebSocketState,
    first: Batch,
    meanwhile: WebSocketState,
    outcome: Result<BatchCounts, String>,
    now: u64,
    ended: WebSocketState,
    end: BatchEnd,
    later: WebSocketState,
    after: WebSocketState,
    second: Batch,
)
    requires
        WebSocketState::begin_step(before, begun, Some(first)),
        meanwhile.same_progress(begun),
        WebSocketState::finish_step(meanwhile, first.number, outcome, now, ended, end),
        later.same_progress(ended),
        WebSocketState::begin_step(later, after, Some(second)),
    ensures
        second.number == first.number + 1,
{
}

/// The note that a failed trade left stays until something else than a failed trade replaces
/// it: the end of a later batch that ran through does not overwrite the last error.
pub proof fn batch_errors_keep_first_note(
    before: WebSocketState,
    number: u64,
    counts: BatchCounts,
    now: u64,
    after: WebSocketState,
    end: BatchEnd,
)
    requires
        before.last_error_message is Some,
        WebSocketState::finish_step(before, number, Ok(counts), now, after, end),
    ensures
        after.last_error_message == before.last_error_message,
{
}

/// What a message of trades comes to: every one of its trades waits, or a trade of its symbol that is
/// as new; what waited still waits, or something newer of its symbol; nothing else waits; errors,
/// counts and a batch in process are left alone; and the connection is kept.
pub proof fn trade_message_is_queued(
    before: WebSocketState,
    raw: String,
    update: TradeUpdate,
    after: WebSocketState,
    step: ReadStep,
)
    requires
        update.message_type@ == "trade"@,
        WebSocketState::frame_step(
            before,
            Frame::Text { raw, update: Some(update) },
            after,
            step,
        ),
    ensures
        forall|i: int|
            0 <= i < update.data@.len() ==> after.update_queue@.contains_key(
                (#[trigger] update.data@[i]).symbol@,
            ) && after.update_queue@[update.data@[i].symbol@].timestamp
                >= update.data@[i].timestamp,
        forall|s: Seq<char>| #[trigger]
            before.update_queue@.contains_key(s) ==> after.update_queue@.contains_key(s)
                && after.update_queue@[s].timestamp >= before.update_queue@[s].timestamp,
        forall|s: Seq<char>| #[trigger]
            after.update_queue@.contains_key(s) ==> (before.update_queue@.contains_key(s)
                && after.update_queue@[s] == before.update_queue@[s]) || update.data@.contains(
                after.update_queue@[s],
            ),
        after.last_error_message == before.last_error_message,
        after.is_processing_batch == before.is_processing_batch,
        after.stats == before.stats,
        after.last_log_time == before.last_log_time,
        step != ReadStep::Stop,
{
    offers_keep_newest(before.update_queue@, update.data@);
    assert forall|s: Seq<char>| #[trigger] after.update_queue@.contains_key(s) implies (
    before.update_queue@.contains_key(s) && after.update_queue@[s] == before.update_queue@[s])
        || update.data@.contains(after.update_queue@[s]) by {
        if !(before.update_queue@.contains_key(s) && after.update_queue@[s]
            == before.update_queue@[s]) {
            let i = choose|i: int|
                0 <= i < update.data@.len() && #[trigger] update.data@[i]
                    == after.update_queue@[s] && update.data@[i].symbol@ == s;
            assert(update.data@.contains(update.data@[i]));
        }
    }
}

/// A message of trades sets the timer exactly where it changes what waits: to half a second where ten
/// trades or more wait then, and else to a second; it starts the timer where none ran, and else has
/// it fire later.
pub proof fn trade_message_sets_timer(
    before: WebSocketState,
    raw: String,
    update: TradeUpdate,
    after: WebSocketState,
    step: ReadStep,
)
    requires
        update.message_type@ == "trade"@,
        WebSocketState::frame_step(
            before,
            Frame::Text { raw, update: Some(update) },
            after,
            step,
        ),
    ensures
        after.update_queue@ == before.update_queue@ ==> step == ReadStep::Continue
            && after.batch_timer == before.batch_timer,
        after.update_queue@ != before.update_queue@ ==> {
            let delay: u64 = if after.update_queue@.len() >= 10 {
                500
            } else {
                1000
            };
            &&& after.batch_timer
            &&& before.batch_timer ==> step == ReadStep::SetTimer(TimerSetting::Restart { delay })
            &&& !before.batch_timer ==> step == ReadStep::SetTimer(TimerSetting::Start { delay })
        },
{
    waiting_changes_where_taken(before.update_queue@, update.data@);
}

/// A text that is no message of trades, and a frame that is no text, leave alone what waits, the
/// timer and the counts. A message of an error, and an unreadable text that speaks of one, are noted
/// word for word; any other text leaves the last error as it was. The connection ends where the
/// server closes it, where receiving fails and where nothing is left to wait for, and nowhere else.
pub proof fn other_frames_leave_queue(
    before: WebSocketState,
    frame: Frame,
    after: WebSocketState,
    step: ReadStep,
)
    requires
        WebSocketState::frame_step(before, frame, after, step),
        !(frame matches Frame::Text { raw: _, update: Some(update) } && update.message_type@
            == "trade"@),
    ensures
        after.update_queue == before.update_queue,
        after.batch_timer == before.batch_timer,
        after.is_processing_batch == before.is_processing_batch,
        after.stats == before.stats,
        after.last_log_time == before.last_log_time,
        frame is Close || frame is Broken || frame is End ==> step == ReadStep::Stop,
        frame is Text || frame is Other ==> step == ReadStep::Continue,
        frame matches Frame::Text { raw, update: Some(update) } ==> {
            &&& update.message_type@ == "error"@ ==> (after.last_error_message matches Some(note)
                && note@ == raw@)
            &&& update.message_type@ != "error"@ ==> after.last_error_message
                == before.last_error_message
        },
        frame matches Frame::Text { raw, update: None } ==> {
            &&& occurs(raw@, "error"@) ==> (after.last_error_message matches Some(note) && note@
                == raw@)
            &&& !occurs(raw@, "error"@) ==> after.last_error_message
                == before.last_error_message
        },
        frame is Close ==> (after.last_error_message matches Some(note) && note@
            == "Server closed connection"@),
        frame matches Frame::Broken { error } ==> (after.last_error_message matches Some(note)
            && note@ == "Error receiving message: "@ + error@),
        frame is Other || frame is End ==> after.last_error_message == before.last_error_message,
{
    reveal_strlit("trade");
    reveal_strlit("error");
    assert("trade"@[0] == 't' && "error"@[0] == 'e');
}

/// When the timer fires, it no longer runs, a batch is asked for exactly where none is in process,
/// and nothing else changes.
pub proof fn fired_timer_asks_for_batch(
    before: WebSocketState,
    after: WebSocketState,
    start_batch: bool,
)
    requires
        WebSocketState::timer_step(before, after, start_batch),
    ensures
        start_batch <==> !before.is_processing_batch,
        after == (WebSocketState { batch_timer: false, ..before }),
{
}

/// A batch begins exactly where trades wait and none is in process. It takes every waiting trade as it
/// is and leaves none; it has the number after the batches before it; and the timer, the other counts
/// and the last error are left alone.
pub proof fn batch_takes_all_that_waits(
    before: WebSocketState,
    after: WebSocketState,
    batch: Option<Batch>,
)
    requires
        WebSocketState::begin_step(before, after, batch),
    ensures
        batch is Some <==> !before.is_processing_batch && before.update_queue@.len() > 0,
        batch is None ==> after == before,
        batch matches Some(begun) ==> {
            &&& begun.number == before.stats.batches_processed + 1
            &&& begun.trades@.len() == before.update_queue@.len()
            &&& forall|s: Seq<char>| #[trigger]
                before.update_queue@.contains_key(s) ==> begun.trades@.contains(
                    before.update_queue@[s],
                )
            &&& forall|i: int|
                0 <= i < begun.trades@.len() ==> before.update_queue@.contains_key(
                    (#[trigger] begun.trades@[i]).symbol@,
                ) && before.update_queue@[begun.trades@[i].symbol@] == begun.trades@[i]
            &&& after.update_queue@.len() == 0
            &&& after.is_processing_batch
            &&& after.stats.batches_processed == before.stats.batches_processed + 1
            &&& after.stats.total_updates_processed == before.stats.total_updates_processed
            &&& after.stats.errors == before.stats.errors
            &&& after.batch_timer == before.batch_timer
            &&& after.last_log_time == before.last_log_time
            &&& after.last_error_message == before.last_error_message
        },
{
    if let Some(begun) = batch {
        listed_trades_are_those_waiting(begun.trades@, before.update_queue@);
    }
}

/// The end of a batch that ran through adds its counts to the totals, notes its errors where it had
/// any and no error was noted before, and is logged where the last log lies five seconds back or
/// there was none; the time of the last log is then this one.
pub proof fn finished_batch_is_counted(
    before: WebSocketState,
    number: u64,
    counts: BatchCounts,
    now: u64,
    after: WebSocketState,
    end: BatchEnd,
)
    requires
        WebSocketState::finish_step(before, number, Ok(counts), now, after, end),
    ensures
        !after.is_processing_batch,
        after.update_queue == before.update_queue,
        after.stats.batches_processed == before.stats.batches_processed,
        after.stats.total_updates_processed == before.stats.total_updates_processed
            + counts.processed,
        after.stats.errors == before.stats.errors + counts.errors,
        counts.errors == 0 || before.last_error_message is Some ==> after.last_error_message
            == before.last_error_message,
        counts.errors > 0 && before.last_error_message is None ==> (
        after.last_error_message matches Some(note) && note@ == "Batch #"@ + decimal(number as nat)
            + " had "@ + decimal(counts.errors as nat) + " errors processing trades"@),
        before.last_log_time is None ==> end.log,
        before.last_log_time matches Some(last) ==> (end.log <==> now >= last + 5_000_000_000),
        end.log ==> after.last_log_time == Some(now),
        !end.log ==> after.last_log_time == before.last_log_time,
{
}

/// The end of a batch that failed as a whole counts one error, notes it in place of the last error,
/// logs nothing and leaves the other totals alone.
pub proof fn failed_batch_is_noted(
    before: WebSocketState,
    number: u64,
    error: String,
    now: u64,
    after: WebSocketState,
    end: BatchEnd,
)
    requires
        WebSocketState::finish_step(before, number, Err(error), now, after, end),
    ensures
        !after.is_processing_batch,
        after.update_queue == before.update_queue,
        after.stats.batches_processed == before.stats.batches_processed,
        after.stats.total_updates_processed == before.stats.total_updates_processed,
        after.stats.errors == before.stats.errors + 1,
        after.last_error_message matches Some(note) && note@ == "Batch #"@ + decimal(number as nat)
            + " processing error: "@ + error@,
        !end.log,
        after.last_log_time == before.last_log_time,
{
}

/// The end of a batch sets the timer exactly where trades wait: to half a second where ten or more do,
/// and else to a second; it starts the timer where none runs, and else has it fire later.
pub proof fn batch_end_sets_timer(
    before: WebSocketState,
    number: u64,
    outcome: Result<BatchCounts, String>,
    now: u64,
    after: WebSocketState,
    end: BatchEnd,
)
    requires
        WebSocketState::finish_step(before, number, outcome, now, after, end),
    ensures
        before.update_queue@.len() == 0 ==> end.timer is None && after.batch_timer
            == before.batch_timer,
        before.update_queue@.len() > 0 ==> {
            let delay: u64 = if before.update_queue@.len() >= 10 {
                500
            } else {
                1000
            };
            &&& after.batch_timer
            &&& before.batch_timer ==> end.timer == Some(TimerSetting::Restart { delay })
            &&& !before.batch_timer ==> end.timer == Some(TimerSetting::Start { delay })
        },
{
}

/// A trade that went through is counted as such and as nothing else, and a failed one likewise.
pub proof fn trade_counts_on_one_side(before: BatchCounts, succeeded: bool, after: BatchCounts)
    requires
        BatchCounts::note_step(before, succeeded, after),
    ensures
        after.processed + after.errors == before.processed + before.errors + 1,
        succeeded ==> after.errors == before.errors,
        !succeeded ==> after.processed == before.processed,
{
}

/// The health page shows the errors of all batches so far, not those of the last one alone: after a
/// batch that ran through, it shows that batch's number and the errors from before with those of the
/// batch; after the loss of the connection, the same number and all errors still.
pub proof fn health_shows_running_errors(
    before: WebSocketState,
    number: u64,
    counts: BatchCounts,
    now: u64,
    after: WebSocketState,
    end: BatchEnd,
    old_health: FinanceHealth,
    health: FinanceHealth,
    lost: FinanceHealth,
)
    requires
        WebSocketState::finish_step(before, number, Ok(counts), now, after, end),
        after.reports_batch(number, Ok(counts), old_health, health),
        after.reports_loss(health, lost),
    ensures
        health.status == old_health.status,
        health.connection_status@ == "connected"@,
        health.batch_number == number,
        health.error_count == before.stats.errors + counts.errors,
        before.last_error_message is Some ==> health.last_error == before.last_error_message,
        before.last_error_message is None && counts.errors == 0 ==> health.last_error is None,
        before.last_error_message is None && counts.errors > 0 ==> health.last_error is Some,
        lost.status == old_health.status,
        lost.connection_status@ == "disconnected"@,
        lost.batch_number == number,
        lost.error_count == health.error_count,
        lost.last_error == health.last_error,
{
}

/// A batch that failed as a whole leaves the health page as it was.
pub proof fn failed_batch_is_not_reported(
    state: WebSocketState,
    number: u64,
    error: String,
    before: FinanceHealth,
    after: FinanceHealth,
)
    requires
        state.reports_batch(number, Err(error), before, after),
    ensures
        after == before,
{
}

} // verus!
