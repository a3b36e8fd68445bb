//! The output pump's decisions: how read events are batched into frames, and when the
//! pump sends an exit notice or stops. The caller performs each action and reports back.
use vstd::prelude::*;
use crate::frame::{build_frame, frame_spec, id_bytes, id_fits, lemma_frame_header_parses};
use crate::message::PtyResponse;

verus! {

/// Length of the batching window, in milliseconds.
pub const OUTPUT_BATCH_INTERVAL_MS: u64 = 4;

/// Size of the buffer that one blocking read fills.
pub const READ_BUFFER_SIZE: usize = 8192;

/// Capacity of the queue between the blocking reader and the pump.
pub const READ_QUEUE_CAPACITY: usize = 32;

/// What one blocking read of the terminal produced.
pub enum ReadEvent {
    Data(Vec<u8>),
    Eof,
    Error(String),
}

/// What the pump is told next.
pub enum PumpInput {
    /// An event arrived from the reader queue.
    Event(ReadEvent),
    /// The batching window closed before another event arrived.
    TimedOut,
    /// The reader queue is closed and empty.
    Closed,
    /// The last send downstream finished; `true` when it succeeded.
    Sent(bool),
}

/// What the caller does next on the pump's behalf.
pub enum PumpAction {
    /// Wait, without a deadline, for the next event.
    Receive,
    /// Start the batching window (now plus the interval), then wait for an event until it closes.
    OpenWindow,
    /// Wait for an event until the window that is already open closes.
    ReceiveInWindow,
    /// Send this binary frame downstream, then report the outcome.
    SendFrame(Vec<u8>),
    /// Send the exit notice downstream, then report the outcome.
    SendExit,
    /// The pump is finished.
    Stop,
}

/// What the pump does once the batch in hand has been flushed.
#[derive(PartialEq, Eq, Structural, Clone, Copy)]
pub enum AfterFlush {
    Continue,
    Exit,
    Fail,
}

#[derive(PartialEq, Eq, Structural, Clone, Copy)]
pub enum PumpPhase {
    /// Waiting for the first event of a burst.
    Idle,
    /// The window is open and bytes are being gathered.
    Collecting,
    /// A data frame is on its way downstream.
    FrameInFlight(AfterFlush),
    /// The exit notice is on its way downstream.
    ExitInFlight,
    /// The pump has stopped.
    Done,
}

/// An input as the transition rules see it.
pub enum InputView {
    Data(Seq<u8>),
    Eof,
    Error,
    TimedOut,
    Closed,
    Sent(bool),
}

/// An action as the transition rules see it.
pub enum ActionView {
    Receive,
    OpenWindow,
    ReceiveInWindow,
    SendFrame(Seq<u8>),
    SendExit,
    Stop,
}

impl PumpInput {
    pub open spec fn view(&self) -> InputView {
        match self {
            PumpInput::Event(ReadEvent::Data(d)) => InputView::Data(d@),
            PumpInput::Event(ReadEvent::Eof) => InputView::Eof,
            PumpInput::Event(ReadEvent::Error(_)) => InputView::Error,
            PumpInput::TimedOut => InputView::TimedOut,
            PumpInput::Closed => InputView::Closed,
            PumpInput::Sent(ok) => InputView::Sent(*ok),
        }
    }
}

impl PumpAction {
    pub open spec fn view(&self) -> ActionView {
        match self {
            PumpAction::Receive => ActionView::Receive,
            PumpAction::OpenWindow => ActionView::OpenWindow,
            PumpAction::ReceiveInWindow => ActionView::ReceiveInWindow,
            PumpAction::SendFrame(f) => ActionView::SendFrame(f@),
            PumpAction::SendExit => ActionView::SendExit,
            PumpAction::Stop => ActionView::Stop,
        }
    }
}

/// Whether the pump, in `phase`, expects `input`: events while waiting for one, and a send
/// outcome while a send is under way.
pub open spec fn accepts(phase: PumpPhase, input: InputView) -> bool {
    match phase {
        PumpPhase::Idle => !(input is TimedOut) && !(input is Sent),
        PumpPhase::Collecting => !(input is Sent),
        PumpPhase::FrameInFlight(_) | PumpPhase::ExitInFlight => input is Sent,
        PumpPhase::Done => false,
    }
}

/// Where the pump goes once nothing is left to send.
pub open spec fn after_flush(after: AfterFlush) -> (PumpPhase, ActionView) {
    match after {
        AfterFlush::Continue => (PumpPhase::Idle, ActionView::Receive),
        AfterFlush::Exit => (PumpPhase::ExitInFlight, ActionView::SendExit),
        AfterFlush::Fail => (PumpPhase::Done, ActionView::Stop),
    }
}

/// Flushing `batch`: one frame when it holds bytes, none when it is empty.
pub open spec fn flush(id: Seq<u8>, batch: Seq<u8>, after: AfterFlush) -> (PumpPhase, Seq<u8>, ActionView) {
    if batch.len() > 0 {
        (PumpPhase::FrameInFlight(after), Seq::empty(), ActionView::SendFrame(frame_spec(id, batch)))
    } else {
        (after_flush(after).0, Seq::empty(), after_flush(after).1)
    }
}

/// The pump's transition rules: from a phase and the batch in hand, on an accepted input, the
/// next phase, the next batch and the action to perform. The window is opened only by the
/// first data of a burst and never extended by later data.
pub open spec fn step(id: Seq<u8>, phase: PumpPhase, batch: Seq<u8>, input: InputView) -> (PumpPhase, Seq<u8>, ActionView) {
    match phase {
        PumpPhase::Idle => match input {
            InputView::Data(d) => (PumpPhase::Collecting, d, ActionView::OpenWindow),
            InputView::Eof => flush(id, batch, AfterFlush::Exit),
            InputView::Error => flush(id, batch, AfterFlush::Fail),
            _ => (PumpPhase::Done, Seq::empty(), ActionView::Stop),
        },
        PumpPhase::Collecting => match input {
            InputView::Data(d) => (PumpPhase::Collecting, batch + d, ActionView::ReceiveInWindow),
            InputView::Eof => flush(id, batch, AfterFlush::Exit),
            InputView::Error => flush(id, batch, AfterFlush::Fail),
            _ => flush(id, batch, AfterFlush::Continue),
        },
        PumpPhase::FrameInFlight(after) => match input {
            InputView::Sent(true) => (after_flush(after).0, Seq::empty(), after_flush(after).1),
            _ => (PumpPhase::Done, Seq::empty(), ActionView::Stop),
        },
        _ => (PumpPhase::Done, Seq::empty(), ActionView::Stop),
    }
}

/// The bytes that an input brings in.
pub open spec fn data_of(input: InputView) -> Seq<u8> {
    match input {
        InputView::Data(d) => d,
        _ => Seq::empty(),
    }
}

/// The payload bytes that an action hands downstream, given the batch it flushes.
pub open spec fn sent_of(action: ActionView, batch: Seq<u8>) -> Seq<u8> {
    match action {
        ActionView::SendFrame(_) => batch,
        _ => Seq::empty(),
    }
}

/// The per-session batcher.
pub struct OutputPump {
    session_id: String,
    batch: Vec<u8>,
    phase: PumpPhase,
    /// Every byte read so far, in order.
    received: Ghost<Seq<u8>>,
    /// Every byte handed downstream in a data frame so far, in order.
    emitted: Ghost<Seq<u8>>,
}

impl OutputPump {
    pub closed spec fn id(&self) -> Seq<char> {
        self.session_id@
    }

    pub closed spec fn phase(&self) -> PumpPhase {
        self.phase
    }

    pub closed spec fn batch(&self) -> Seq<u8> {
        self.batch@
    }

    pub closed spec fn received(&self) -> Seq<u8> {
        self.received@
    }

    pub closed spec fn emitted(&self) -> Seq<u8> {
        self.emitted@
    }

    /// Every byte read has been handed downstream exactly once, in order, or is in the batch;
    /// the batch is empty outside the window.
    pub closed spec fn wf(&self) -> bool {
        &&& id_fits(self.session_id@)
        &&& self.emitted@ + self.batch@ == self.received@
        &&& !(self.phase is Collecting) ==> self.batch@.len() == 0
    }

    /// A well-formed pump's identifier fits the frame header.
    pub proof fn lemma_id_fits(&self)
        requires
            self.wf(),
        ensures
            id_fits(self.id()),
    {
    }

    /// A pump for session `session_id`, waiting for its first event.
    pub fn new(session_id: String) -> (p: OutputPump)
        requires
            id_fits(session_id@),
        ensures
            p.wf(),
            p.id() == session_id@,
            p.phase() == PumpPhase::Idle,
            p.received() == Seq::<u8>::empty(),
            p.emitted() == Seq::<u8>::empty(),
    {
        let p = OutputPump {
            session_id,
            batch: Vec::new(),
            phase: PumpPhase::Idle,
            received: Ghost(Seq::empty()),
            emitted: Ghost(Seq::empty()),
        };
        assert(p.emitted@ + p.batch@ =~= p.received@);
        p
    }

    /// Whether the pump has stopped.
    pub fn is_done(&self) -> (r: bool)
        ensures
            r == (self.phase() is Done),
    {
        matches!(self.phase, PumpPhase::Done)
    }

    /// The exit notice of this pump's session; the exit code is always zero.
    pub fn exit_notice(&self) -> (r: PtyResponse)
        ensures
            r matches PtyResponse::Exit { session_id, code } && session_id@ == self.id() && code == 0,
    {
        PtyResponse::Exit { session_id: self.session_id.clone(), code: 0 }
    }

    fn flush(&mut self, after: AfterFlush) -> (action: PumpAction)
        requires
            id_fits(old(self).session_id@),
        ensures
            final(self).session_id == old(self).session_id,
            final(self).received == old(self).received,
            final(self).emitted@ == old(self).emitted@ + sent_of(action@, old(self).batch@),
            (final(self).phase, final(self).batch@, action@)
                == flush(id_bytes(old(self).session_id@), old(self).batch@, after),
    {
        if self.batch.len() > 0 {
            let frame = build_frame(self.session_id.as_str(), self.batch.as_slice());
            self.emitted = Ghost(self.emitted@ + self.batch@);
            self.batch.clear();
            self.phase = PumpPhase::FrameInFlight(after);
            PumpAction::SendFrame(frame)
        } else {
            match after {
                AfterFlush::Continue => {
                    self.phase = PumpPhase::Idle;
                    PumpAction::Receive
                },
                AfterFlush::Exit => {
                    self.phase = PumpPhase::ExitInFlight;
                    PumpAction::SendExit
                },
                AfterFlush::Fail => {
                    self.phase = PumpPhase::Done;
                    PumpAction::Stop
                },
            }
        }
    }

    /// Takes the next input and returns the action to perform. Bytes are never dropped,
    /// duplicated or reordered: what has been sent in frames, followed by the batch, is
    /// always exactly what has been read.
    pub fn on_input(&mut self, input: PumpInput) -> (action: PumpAction)
        requires
            old(self).wf(),
            accepts(old(self).phase(), input@),
        ensures
            final(self).wf(),
            final(self).id() == old(self).id(),
            final(self).emitted() + final(self).batch() == final(self).received(),
            (final(self).phase(), final(self).batch(), action@)
                == step(id_bytes(old(self).id()), old(self).phase(), old(self).batch(), input@),
            final(self).received() == old(self).received() + data_of(input@),
            final(self).emitted() == old(self).emitted() + sent_of(action@, old(self).batch()),
    {
        let ghost old_batch = self.batch@;
        match self.phase {
            PumpPhase::Idle | PumpPhase::Collecting => {
                let collecting = matches!(self.phase, PumpPhase::Collecting);
                match input {
                    PumpInput::Event(ReadEvent::Data(mut d)) => {
                        let ghost dv = d@;
                        self.received = Ghost(self.received@ + dv);
                        self.batch.append(&mut d);
                        self.phase = PumpPhase::Collecting;
                        assert(self.emitted@ + self.batch@ =~= self.received@);
                        if collecting {
                            PumpAction::ReceiveInWindow
                        } else {
                            assert(self.batch@ =~= dv);
                            PumpAction::OpenWindow
                        }
                    },
                    PumpInput::Event(ReadEvent::Eof) => self.flush(AfterFlush::Exit),
                    PumpInput::Event(ReadEvent::Error(_)) => self.flush(AfterFlush::Fail),
                    _ => {
                        if collecting {
                            self.flush(AfterFlush::Continue)
                        } else {
                            self.phase = PumpPhase::Done;
                            PumpAction::Stop
                        }
                    },
                }
            },
            PumpPhase::FrameInFlight(after) => {
                match input {
                    PumpInput::Sent(true) => {
                        match after {
                            AfterFlush::Continue => {
                                self.phase = PumpPhase::Idle;
                                PumpAction::Receive
                            },
                            AfterFlush::Exit => {
                                self.phase = PumpPhase::ExitInFlight;
                                PumpAction::SendExit
                            },
                            AfterFlush::Fail => {
                                self.phase = PumpPhase::Done;
                                PumpAction::Stop
                            },
                        }
                    },
                    _ => {
                        self.phase = PumpPhase::Done;
                        PumpAction::Stop
                    },
                }
            },
            _ => {
                self.phase = PumpPhase::Done;
                PumpAction::Stop
            },
        }
    }
}

/// End of output that arrives while no burst is open yields the exit notice at once, with
/// no empty data frame before it.
pub proof fn lemma_eof_at_window_start(id: Seq<u8>)
    ensures
        step(id, PumpPhase::Idle, Seq::empty(), InputView::Eof)
            == (PumpPhase::ExitInFlight, Seq::<u8>::empty(), ActionView::SendExit),
{
}

/// A read error in the middle of a burst flushes the bytes gathered so far as one frame,
/// then stops the pump, whatever the send's outcome, without an exit notice.
pub proof fn lemma_error_mid_burst(id: Seq<u8>, batch: Seq<u8>, sent: bool)
    requires
        batch.len() > 0,
    ensures
        step(id, PumpPhase::Collecting, batch, InputView::Error) == (
            PumpPhase::FrameInFlight(AfterFlush::Fail),
            Seq::<u8>::empty(),
            ActionView::SendFrame(frame_spec(id, batch)),
        ),
        step(id, PumpPhase::FrameInFlight(AfterFlush::Fail), Seq::empty(), InputView::Sent(sent))
            == (PumpPhase::Done, Seq::<u8>::empty(), ActionView::Stop),
{
}

/// The window is opened only by the first data of a burst: data that arrives while it is
/// open is added to the batch without extending it.
pub proof fn lemma_window_not_extended(id: Seq<u8>, batch: Seq<u8>, data: Seq<u8>)
    ensures
        step(id, PumpPhase::Collecting, batch, InputView::Data(data))
            == (PumpPhase::Collecting, batch + data, ActionView::ReceiveInWindow),
{
}

/// Every data frame that the pump of session `id` sends names that session: its first octet
/// is the length `L` of the identifier's bytes, and the next `L` bytes are those bytes.
pub proof fn lemma_frames_name_the_session(id: Seq<char>, phase: PumpPhase, batch: Seq<u8>, input: InputView)
    requires
        id_fits(id),
    ensures
        step(id_bytes(id), phase, batch, input).2 matches ActionView::SendFrame(f) ==> ({
            let l = f[0] as int;
            &&& l == id_bytes(id).len()
            &&& f.subrange(1, 1 + l) == id_bytes(id)
            &&& f.subrange(1 + l, f.len() as int) == batch
        }),
{
    lemma_frame_header_parses(id_bytes(id), batch);
}

/// The bytes that a sequence of inputs brings in, in order.
pub open spec fn received_in(inputs: Seq<InputView>) -> Seq<u8>
    decreases inputs.len(),
{
    if inputs.len() == 0 {
        Seq::empty()
    } else {
        received_in(inputs.drop_last()) + data_of(inputs.last())
    }
}

/// The pump run over a sequence of inputs: the phase and batch it ends in, the payload
/// bytes it sent in data frames, in order, and whether it accepted every input.
pub open spec fn run(id: Seq<u8>, phase: PumpPhase, batch: Seq<u8>, inputs: Seq<InputView>) -> (PumpPhase, Seq<u8>, Seq<u8>, bool)
    decreases inputs.len(),
{
    if inputs.len() == 0 {
        (phase, batch, Seq::empty(), true)
    } else {
        let (p, b, sent, ok) = run(id, phase, batch, inputs.drop_last());
        let (next_phase, next_batch, a) = step(id, p, b, inputs.last());
        (next_phase, next_batch, sent + sent_of(a, b), ok && accepts(p, inputs.last()))
    }
}

/// Coalescing keeps every byte exactly once and in order: over any run whose inputs the pump
/// accepts, what it sent in data frames, followed by the batch it still holds, is the batch it
/// started with followed by every byte it read.
pub proof fn lemma_run_keeps_every_byte(id: Seq<u8>, phase: PumpPhase, batch: Seq<u8>, inputs: Seq<InputView>)
    requires
        !(phase is Collecting) ==> batch.len() == 0,
        run(id, phase, batch, inputs).3,
    ensures
        run(id, phase, batch, inputs).2 + run(id, phase, batch, inputs).1 == batch + received_in(inputs),
        !(run(id, phase, batch, inputs).0 is Collecting) ==> run(id, phase, batch, inputs).1.len() == 0,
    decreases inputs.len(),
{
    if inputs.len() > 0 {
        let prev = inputs.drop_last();
        lemma_run_keeps_every_byte(id, phase, batch, prev);
        let (p, b, sent, ok) = run(id, phase, batch, prev);
        let i = inputs.last();
        let (next_phase, next_batch, a) = step(id, p, b, i);
        assert(sent_of(a, b) + next_batch =~= b + data_of(i));
        assert(received_in(inputs) == received_in(prev) + data_of(i));
        assert(sent + b == batch + received_in(prev));
        assert(sent + sent_of(a, b) + next_batch =~= sent + (sent_of(a, b) + next_batch));
        assert(sent + (b + data_of(i)) =~= (sent + b) + data_of(i));
        assert(batch + received_in(prev) + data_of(i) =~= batch + received_in(inputs));
    }
}

} // verus!
