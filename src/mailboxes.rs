//! The VideoCore mailbox: the shared property buffer and the synchronous call
//! protocol.
//!
//! A call is a small state machine. [`MailBox::call`] starts it and names the
//! first hardware action; the caller performs each action on the mailbox
//! registers and hands what it read back to [`MailBox::step`], which decides
//! the next action, until the action is [`MailboxAction::Finish`].
use vstd::prelude::*;

verus! {

/// Offset of the mailbox read register within the peripheral window.
pub const MBOX_READ: u32 = 0xB880;
/// Offset of the mailbox status register.
pub const MBOX_STATUS: u32 = 0xB898;
/// Offset of the mailbox write register.
pub const MBOX_WRITE: u32 = 0xB8A0;

/// Response-flag word that marks a request the GPU processed.
pub const MAILBOX_RESPONSE: u32 = 0x80000000;
/// Request-code word of a request.
pub const MAILBOX_REQUEST: u32 = 0;

/// Capacity of the mailbox buffer, in 32-bit words.
pub const MAILBOX_BUFFER_WORDS: usize = 36;

/// Bits of the doorbell word that carry the channel.
pub const CHANNEL_MASK: u32 = 0xF;

/// Mailbox channels in use.
#[derive(Clone, Copy, Debug, PartialEq, Eq, Structural)]
pub enum MailboxChannel {
    Framebuffer,
    Property,
}

impl MailboxChannel {
    pub open spec fn spec_id(self) -> u32 {
        match self {
            MailboxChannel::Framebuffer => 1,
            MailboxChannel::Property => 8,
        }
    }

    /// The channel number carried in the low four bits of a doorbell word.
    pub fn id(&self) -> (r: u32)
        ensures
            r == self.spec_id(),
            r <= CHANNEL_MASK,
    {
        match self {
            MailboxChannel::Framebuffer => 1,
            MailboxChannel::Property => 8,
        }
    }
}

/// Property tags.
#[derive(Clone, Copy, Debug, PartialEq, Eq, Structural)]
pub enum MailboxTag {
    SetPower,
    SetClkRate,
    SetPhyWH,
    SetVirtWH,
    SetVirtOff,
    SetDepth,
    SetPixelOrder,
    GetFB,
    GetPitch,
    TagLast,
}

impl MailboxTag {
    pub open spec fn spec_code(self) -> u32 {
        match self {
            MailboxTag::SetPower => 0x28001,
            MailboxTag::SetClkRate => 0x38002,
            MailboxTag::SetPhyWH => 0x48003,
            MailboxTag::SetVirtWH => 0x48004,
            MailboxTag::SetVirtOff => 0x48009,
            MailboxTag::SetDepth => 0x48005,
            MailboxTag::SetPixelOrder => 0x48006,
            MailboxTag::GetFB => 0x40001,
            MailboxTag::GetPitch => 0x40008,
            MailboxTag::TagLast => 0,
        }
    }

    /// The tag identifier as written into the buffer.
    pub fn code(&self) -> (r: u32)
        ensures
            r == self.spec_code(),
    {
        match self {
            MailboxTag::SetPower => 0x28001,
            MailboxTag::SetClkRate => 0x38002,
            MailboxTag::SetPhyWH => 0x48003,
            MailboxTag::SetVirtWH => 0x48004,
            MailboxTag::SetVirtOff => 0x48009,
            MailboxTag::SetDepth => 0x48005,
            MailboxTag::SetPixelOrder => 0x48006,
            MailboxTag::GetFB => 0x40001,
            MailboxTag::GetPitch => 0x40008,
            MailboxTag::TagLast => 0,
        }
    }
}

/// Bits of the mailbox status register.
#[derive(Clone, Copy, Debug, PartialEq, Eq, Structural)]
pub enum MailboxStatus {
    MailboxEmpty,
    MailboxFull,
}

impl MailboxStatus {
    pub open spec fn spec_bit(self) -> u32 {
        match self {
            MailboxStatus::MailboxEmpty => 0x40000000,
            MailboxStatus::MailboxFull => 0x80000000,
        }
    }

    /// The status bit that reports this condition.
    pub fn bit(&self) -> (r: u32)
        ensures
            r == self.spec_bit(),
    {
        match self {
            MailboxStatus::MailboxEmpty => 0x40000000,
            MailboxStatus::MailboxFull => 0x80000000,
        }
    }
}

/// The status word reports that the mailbox is full.
pub open spec fn reports_full(status: u32) -> bool {
    status & MailboxStatus::MailboxFull.spec_bit() != 0
}

/// The status word reports that the mailbox is empty.
pub open spec fn reports_empty(status: u32) -> bool {
    status & MailboxStatus::MailboxEmpty.spec_bit() != 0
}

/// The doorbell word: the buffer's address with its low four bits replaced
/// by the channel number.
pub open spec fn doorbell_of(buf_addr: u32, chan: MailboxChannel) -> u32 {
    (buf_addr & !CHANNEL_MASK) | chan.spec_id()
}

/// Builds the doorbell word for a buffer at `buf_addr` on `chan`; for an
/// aligned buffer it is the address plus the channel number.
pub fn doorbell(buf_addr: u32, chan: MailboxChannel) -> (r: u32)
    ensures
        r == doorbell_of(buf_addr, chan),
        r & !CHANNEL_MASK == buf_addr & !CHANNEL_MASK,
        r & CHANNEL_MASK == chan.spec_id(),
        buf_addr % 16 == 0 ==> r == buf_addr + chan.spec_id(),
{
    let id = chan.id();
    let r = (buf_addr & !CHANNEL_MASK) | id;
    assert(r & !0xFu32 == buf_addr & !0xFu32 && r & 0xFu32 == id
        && (buf_addr % 16 == 0 ==> r == buf_addr + id)) by (bit_vector)
        requires
            r == (buf_addr & !0xFu32) | id,
            id <= 0xF,
    ;
    r
}

/// The shared buffer of a mailbox call: a fixed number of words, indexed
/// from zero.
pub struct MailBoxBuffer {
    buf: Vec<u32>,
}

impl View for MailBoxBuffer {
    type V = Seq<u32>;

    closed spec fn view(&self) -> Seq<u32> {
        self.buf@
    }
}

impl MailBoxBuffer {
    pub open spec fn wf(&self) -> bool {
        self@.len() == MAILBOX_BUFFER_WORDS
    }

    /// A buffer of zero words.
    pub fn new() -> (r: MailBoxBuffer)
        ensures
            r.wf(),
            forall|i: int| 0 <= i < MAILBOX_BUFFER_WORDS ==> #[trigger] r@[i] == 0,
    {
        let mut buf: Vec<u32> = Vec::new();
        let mut i: usize = 0;
        while i < MAILBOX_BUFFER_WORDS
            invariant
                i <= MAILBOX_BUFFER_WORDS,
                buf@.len() == i,
                forall|j: int| 0 <= j < i ==> #[trigger] buf@[j] == 0,
            decreases MAILBOX_BUFFER_WORDS - i,
        {
            buf.push(0);
            i = i + 1;
        }
        MailBoxBuffer { buf }
    }

    /// Stores `val` at word `index`.
    pub fn write(&mut self, index: usize, val: u32)
        requires
            old(self).wf(),
            index < MAILBOX_BUFFER_WORDS,
        ensures
            final(self).wf(),
            final(self)@ == old(self)@.update(index as int, val),
    {
        self.buf.set(index, val);
    }

    /// The word at `index`.
    pub fn read(&self, index: usize) -> (r: u32)
        requires
            self.wf(),
            index < MAILBOX_BUFFER_WORDS,
        ensures
            r == self@[index as int],
    {
        self.buf[index]
    }

    /// All words of the buffer, in order.
    pub fn words(&self) -> (r: &[u32])
        ensures
            r@ == self@,
    {
        self.buf.as_slice()
    }
}

/// Where a mailbox call stands.
#[derive(Clone, Copy, Debug, PartialEq, Eq, Structural)]
pub enum MailboxPhase {
    /// No call in progress.
    Idle,
    /// Waiting for the status register to stop reporting "full".
    WaitWritable,
    /// Doorbell published; waiting for the status register to stop
    /// reporting "empty".
    WaitReadable,
    /// A message is waiting in the read register.
    CheckEcho,
}

/// What the caller read from the mailbox registers.
#[derive(Clone, Copy, Debug, PartialEq, Eq, Structural)]
pub enum MailboxEvent {
    /// A word read from the status register.
    Status(u32),
    /// A word read from the read register.
    Received(u32),
}

/// What the caller is to do next on the mailbox registers.
#[derive(Clone, Copy, Debug, PartialEq, Eq)]
pub enum MailboxAction {
    /// Read the status register and report it as `MailboxEvent::Status`.
    ReadStatus,
    /// Write the word to the write register, then read the status register
    /// and report it as `MailboxEvent::Status`.
    Publish(u32),
    /// Read the read register and report it as `MailboxEvent::Received`.
    ReadMailbox,
    /// The call is over, with this outcome.
    Finish(Result<(), ()>),
    /// No call is in progress.
    Nothing,
}

/// One step of the call protocol: from the phase, the doorbell word of the
/// call, the response-flag word of the buffer and what was read, the next
/// phase and action. A read that does not fit the phase leaves it unchanged
/// and asks again for what the phase waits on.
pub open spec fn transition(
    phase: MailboxPhase,
    doorbell: u32,
    response: u32,
    event: MailboxEvent,
) -> (MailboxPhase, MailboxAction) {
    match phase {
        MailboxPhase::Idle => (MailboxPhase::Idle, MailboxAction::Nothing),
        MailboxPhase::WaitWritable => match event {
            MailboxEvent::Status(s) => if reports_full(s) {
                (MailboxPhase::WaitWritable, MailboxAction::ReadStatus)
            } else {
                (MailboxPhase::WaitReadable, MailboxAction::Publish(doorbell))
            },
            MailboxEvent::Received(_) => (MailboxPhase::WaitWritable, MailboxAction::ReadStatus),
        },
        MailboxPhase::WaitReadable => match event {
            MailboxEvent::Status(s) => if reports_empty(s) {
                (MailboxPhase::WaitReadable, MailboxAction::ReadStatus)
            } else {
                (MailboxPhase::CheckEcho, MailboxAction::ReadMailbox)
            },
            MailboxEvent::Received(_) => (MailboxPhase::WaitReadable, MailboxAction::ReadStatus),
        },
        MailboxPhase::CheckEcho => match event {
            MailboxEvent::Received(v) => if v == doorbell {
                (
                    MailboxPhase::Idle,
                    MailboxAction::Finish(
                        if response == MAILBOX_RESPONSE {
                            Ok(())
                        } else {
                            Err(())
                        },
                    ),
                )
            } else {
                (MailboxPhase::WaitReadable, MailboxAction::ReadStatus)
            },
            MailboxEvent::Status(_) => (MailboxPhase::CheckEcho, MailboxAction::ReadMailbox),
        },
    }
}

/// Only a read-register word equal to the call's doorbell ends a call, and
/// the outcome is success exactly when the response-flag word holds
/// `MAILBOX_RESPONSE`.
pub proof fn lemma_only_matching_echo_finishes(
    phase: MailboxPhase,
    doorbell: u32,
    response: u32,
    event: MailboxEvent,
)
    ensures
        transition(phase, doorbell, response, event).1 matches MailboxAction::Finish(outcome) ==> {
            &&& phase == MailboxPhase::CheckEcho
            &&& event == MailboxEvent::Received(doorbell)
            &&& (outcome is Ok <==> response == MAILBOX_RESPONSE)
        },
        phase == MailboxPhase::CheckEcho && event == MailboxEvent::Received(doorbell) ==> transition(
            phase,
            doorbell,
            response,
            event,
        ).1 is Finish,
{
}

/// The actions of a call that starts in `phase` and is handed `events` in
/// turn.
pub open spec fn run(phase: MailboxPhase, doorbell: u32, response: u32, events: Seq<MailboxEvent>) -> Seq<MailboxAction>
    decreases events.len(),
{
    if events.len() == 0 {
        Seq::empty()
    } else {
        let (next, action) = transition(phase, doorbell, response, events[0]);
        seq![action] + run(next, doorbell, response, events.drop_first())
    }
}

/// A run has one action per event.
proof fn lemma_run_len(phase: MailboxPhase, doorbell: u32, response: u32, events: Seq<MailboxEvent>)
    ensures
        run(phase, doorbell, response, events).len() == events.len(),
    decreases events.len(),
{
    if events.len() > 0 {
        let next = transition(phase, doorbell, response, events[0]).0;
        lemma_run_len(next, doorbell, response, events.drop_first());
    }
}

/// Once the doorbell is out, the call never publishes again.
proof fn lemma_no_publish_after_waiting_writable(
    phase: MailboxPhase,
    doorbell: u32,
    response: u32,
    events: Seq<MailboxEvent>,
)
    requires
        phase != MailboxPhase::WaitWritable,
    ensures
        forall|i: int| 0 <= i < events.len() ==> !(#[trigger] run(phase, doorbell, response, events)[i] is Publish),
    decreases events.len(),
{
    if events.len() > 0 {
        let (next, action) = transition(phase, doorbell, response, events[0]);
        let tail = events.drop_first();
        lemma_run_len(next, doorbell, response, tail);
        lemma_no_publish_after_waiting_writable(next, doorbell, response, tail);
        let acts = run(phase, doorbell, response, events);
        assert forall|i: int| 0 <= i < events.len() implies !(#[trigger] acts[i] is Publish) by {
            if i > 0 {
                assert(acts[i] == run(next, doorbell, response, tail)[i - 1]);
            }
        }
    }
}

/// Whatever the hardware reports, a call publishes its doorbell at most once,
/// and what it publishes is the call's doorbell word.
pub proof fn lemma_doorbell_published_at_most_once(doorbell: u32, response: u32, events: Seq<MailboxEvent>)
    ensures
        forall|i: int, j: int|
            0 <= i < j < events.len() ==> !(#[trigger] run(MailboxPhase::WaitWritable, doorbell, response, events)[i] is Publish
                && #[trigger] run(MailboxPhase::WaitWritable, doorbell, response, events)[j] is Publish),
        forall|i: int|
            0 <= i < events.len() && (#[trigger] run(MailboxPhase::WaitWritable, doorbell, response, events)[i] is Publish)
                ==> run(MailboxPhase::WaitWritable, doorbell, response, events)[i] == MailboxAction::Publish(doorbell),
    decreases events.len(),
{
    if events.len() > 0 {
        let (next, action) = transition(MailboxPhase::WaitWritable, doorbell, response, events[0]);
        let tail = events.drop_first();
        let acts = run(MailboxPhase::WaitWritable, doorbell, response, events);
        let rest = run(next, doorbell, response, tail);
        lemma_run_len(next, doorbell, response, tail);
        assert(acts == seq![action] + rest);
        assert forall|i: int| 0 < i < events.len() implies acts[i] == rest[i - 1] by {}
        if next == MailboxPhase::WaitWritable {
            lemma_doorbell_published_at_most_once(doorbell, response, tail);
            assert(!(action is Publish));
        } else {
            lemma_no_publish_after_waiting_writable(next, doorbell, response, tail);
        }
        assert forall|i: int, j: int|
            0 <= i < j < events.len() implies !(#[trigger] acts[i] is Publish && #[trigger] acts[j] is Publish) by {
            assert(acts[j] == rest[j - 1]);
            if i > 0 {
                assert(acts[i] == rest[i - 1]);
            }
        }
        assert forall|i: int| 0 <= i < events.len() && (#[trigger] acts[i] is Publish) implies acts[i]
            == MailboxAction::Publish(doorbell) by {
            if i > 0 {
                assert(acts[i] == rest[i - 1]);
            }
        }
    }
}

/// The mailbox: its buffer and the state of the call in progress.
pub struct MailBox {
    buf: MailBoxBuffer,
    phase: MailboxPhase,
    doorbell: u32,
}

impl MailBox {
    pub open spec fn wf(&self) -> bool {
        self.buffer().len() == MAILBOX_BUFFER_WORDS
    }

    /// The buffer's words.
    pub closed spec fn buffer(&self) -> Seq<u32> {
        self.buf@
    }

    /// Where the current call stands.
    pub closed spec fn spec_phase(&self) -> MailboxPhase {
        self.phase
    }

    /// The doorbell word of the current call.
    pub closed spec fn spec_doorbell(&self) -> u32 {
        self.doorbell
    }

    /// A mailbox with a zeroed buffer and no call in progress.
    pub fn new() -> (r: MailBox)
        ensures
            r.wf(),
            r.spec_phase() == MailboxPhase::Idle,
            forall|i: int| 0 <= i < MAILBOX_BUFFER_WORDS ==> #[trigger] r.buffer()[i] == 0,
    {
        MailBox { buf: MailBoxBuffer::new(), phase: MailboxPhase::Idle, doorbell: 0 }
    }

    /// The status word says the write register can take a message.
    pub fn writeable(status: u32) -> (r: bool)
        ensures
            r == !reports_full(status),
    {
        status & MailboxStatus::MailboxFull.bit() == 0
    }

    /// The status word says a message waits in the read register.
    pub fn readable(status: u32) -> (r: bool)
        ensures
            r == !reports_empty(status),
    {
        status & MailboxStatus::MailboxEmpty.bit() == 0
    }

    /// Where the current call stands.
    pub fn phase(&self) -> (r: MailboxPhase)
        ensures
            r == self.spec_phase(),
    {
        self.phase
    }

    /// Stores `val` at word `index` of the buffer.
    pub fn write_buf(&mut self, index: usize, val: u32)
        requires
            old(self).wf(),
            index < MAILBOX_BUFFER_WORDS,
        ensures
            final(self).wf(),
            final(self).buffer() == old(self).buffer().update(index as int, val),
            final(self).spec_phase() == old(self).spec_phase(),
            final(self).spec_doorbell() == old(self).spec_doorbell(),
    {
        self.buf.write(index, val)
    }

    /// The word at `index` of the buffer.
    pub fn read_buf(&self, index: usize) -> (r: u32)
        requires
            self.wf(),
            index < MAILBOX_BUFFER_WORDS,
        ensures
            r == self.buffer()[index as int],
    {
        self.buf.read(index)
    }

    /// The buffer's words, in order; the GPU reads and writes them in place
    /// during a call.
    pub fn words(&self) -> (r: &[u32])
        ensures
            r@ == self.buffer(),
    {
        self.buf.words()
    }

    /// Starts a call on `mbox_channel` for the buffer, which lies at physical
    /// address `buf_addr`. The first action is to read the status register.
    pub fn call(&mut self, mbox_channel: MailboxChannel, buf_addr: u32) -> (r: MailboxAction)
        requires
            old(self).wf(),
        ensures
            final(self).wf(),
            final(self).buffer() == old(self).buffer(),
            final(self).spec_phase() == MailboxPhase::WaitWritable,
            final(self).spec_doorbell() == doorbell_of(buf_addr, mbox_channel),
            buf_addr % 16 == 0 ==> final(self).spec_doorbell() == buf_addr + mbox_channel.spec_id(),
            r == MailboxAction::ReadStatus,
    {
        self.doorbell = doorbell(buf_addr, mbox_channel);
        self.phase = MailboxPhase::WaitWritable;
        MailboxAction::ReadStatus
    }

    /// Takes what the caller read for the last action and returns the next
    /// one. Only a read-register word equal to the published doorbell ends
    /// the call; it succeeds when word 1 of the buffer holds the response
    /// flag.
    pub fn step(&mut self, event: MailboxEvent) -> (r: MailboxAction)
        requires
            old(self).wf(),
        ensures
            final(self).wf(),
            final(self).buffer() == old(self).buffer(),
            final(self).spec_doorbell() == old(self).spec_doorbell(),
            (final(self).spec_phase(), r) == transition(
                old(self).spec_phase(),
                old(self).spec_doorbell(),
                old(self).buffer()[1],
                event,
            ),
    {
        match self.phase {
            MailboxPhase::Idle => MailboxAction::Nothing,
            MailboxPhase::WaitWritable => match event {
                MailboxEvent::Status(s) => {
                    if MailBox::writeable(s) {
                        self.phase = MailboxPhase::WaitReadable;
                        MailboxAction::Publish(self.doorbell)
                    } else {
                        MailboxAction::ReadStatus
                    }
                },
                MailboxEvent::Received(_) => MailboxAction::ReadStatus,
            },
            MailboxPhase::WaitReadable => match event {
                MailboxEvent::Status(s) => {
                    if MailBox::readable(s) {
                        self.phase = MailboxPhase::CheckEcho;
                        MailboxAction::ReadMailbox
                    } else {
                        MailboxAction::ReadStatus
                    }
                },
                MailboxEvent::Received(_) => MailboxAction::ReadStatus,
            },
            MailboxPhase::CheckEcho => match event {
                MailboxEvent::Received(v) => {
                    if v == self.doorbell {
                        self.phase = MailboxPhase::Idle;
                        if self.buf.read(1) == MAILBOX_RESPONSE {
                            MailboxAction::Finish(Ok(()))
                        } else {
                            MailboxAction::Finish(Err(()))
                        }
                    } else {
                        self.phase = MailboxPhase::WaitReadable;
                        MailboxAction::ReadStatus
                    }
                },
                MailboxEvent::Status(_) => MailboxAction::ReadMailbox,
            },
        }
    }
}

} // verus!
