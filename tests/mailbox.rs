use std::collections::VecDeque;

use rpi_hal::mailboxes::{
    doorbell, MailBox, MailBoxBuffer, MailboxAction, MailboxChannel, MailboxEvent,
    MailboxPhase, MailboxStatus, MailboxTag, MAILBOX_BUFFER_WORDS, MAILBOX_RESPONSE,
};

const EMPTY: u32 = 0x4000_0000;
const FULL: u32 = 0x8000_0000;

/// Simulated mailbox hardware: the status words and read-register words it
/// will report, and a log of what happened.
struct Hardware {
    statuses: VecDeque<u32>,
    reads: VecDeque<u32>,
    status_reads: usize,
    published: Vec<(u32, usize)>,
}

impl Hardware {
    fn new(statuses: &[u32], reads: &[u32]) -> Hardware {
        Hardware {
            statuses: statuses.iter().copied().collect(),
            reads: reads.iter().copied().collect(),
            status_reads: 0,
            published: Vec::new(),
        }
    }

    fn status(&mut self) -> MailboxEvent {
        self.status_reads += 1;
        MailboxEvent::Status(self.statuses.pop_front().expect("status polled too often"))
    }

    fn run(&mut self, mb: &mut MailBox, chan: MailboxChannel, addr: u32) -> Result<(), ()> {
        let mut action = mb.call(chan, addr);
        loop {
            action = match action {
                MailboxAction::ReadStatus => mb.step(self.status()),
                MailboxAction::Publish(word) => {
                    self.published.push((word, self.status_reads));
                    mb.step(self.status())
                }
                MailboxAction::ReadMailbox => {
                    let v = self.reads.pop_front().expect("read register read too often");
                    mb.step(MailboxEvent::Received(v))
                }
                MailboxAction::Finish(r) => return r,
                MailboxAction::Nothing => panic!("no call in progress"),
            };
        }
    }
}

#[test]
fn publish_once_after_first_not_full() {
    let mut mb = MailBox::new();
    mb.write_buf(1, MAILBOX_RESPONSE);
    let bell = 0x1008;
    let mut hw = Hardware::new(&[0, FULL, 0, 0], &[bell]);
    assert_eq!(hw.run(&mut mb, MailboxChannel::Property, 0x1000), Ok(()));
    assert_eq!(hw.published, vec![(bell, 1)]);
}

#[test]
fn publish_waits_while_full() {
    let mut mb = MailBox::new();
    mb.write_buf(1, MAILBOX_RESPONSE);
    let bell = 0x2001;
    let mut hw = Hardware::new(&[FULL, FULL | EMPTY, EMPTY, EMPTY, EMPTY, 0], &[bell]);
    assert_eq!(hw.run(&mut mb, MailboxChannel::Framebuffer, 0x2000), Ok(()));
    assert_eq!(hw.published, vec![(bell, 3)]);
    assert_eq!(hw.status_reads, 6);
}

#[test]
fn mismatched_echo_is_discarded() {
    let mut mb = MailBox::new();
    mb.write_buf(1, MAILBOX_RESPONSE);
    let bell = 0x3008;
    let mut hw = Hardware::new(&[0, 0, 0], &[0x4001, bell]);
    assert_eq!(hw.run(&mut mb, MailboxChannel::Property, 0x3000), Ok(()));
    assert!(hw.reads.is_empty());
    assert_eq!(hw.status_reads, 3);
    assert_eq!(mb.phase(), MailboxPhase::Idle);
}

#[test]
fn mismatched_echo_step_by_step() {
    let mut mb = MailBox::new();
    mb.write_buf(1, MAILBOX_RESPONSE);
    assert_eq!(mb.call(MailboxChannel::Property, 0x3000), MailboxAction::ReadStatus);
    assert_eq!(mb.step(MailboxEvent::Status(0)), MailboxAction::Publish(0x3008));
    assert_eq!(mb.step(MailboxEvent::Status(0)), MailboxAction::ReadMailbox);
    assert_eq!(mb.step(MailboxEvent::Received(0x3001)), MailboxAction::ReadStatus);
    assert_eq!(mb.phase(), MailboxPhase::WaitReadable);
    assert_eq!(mb.step(MailboxEvent::Status(0)), MailboxAction::ReadMailbox);
    assert_eq!(mb.step(MailboxEvent::Received(0x3008)), MailboxAction::Finish(Ok(())));
}

#[test]
fn response_flag_decides_outcome() {
    for (flag, expected) in [
        (MAILBOX_RESPONSE, Ok(())),
        (0, Err(())),
        (0x8000_0001, Err(())),
        (0x4000_0000, Err(())),
    ] {
        let mut mb = MailBox::new();
        mb.write_buf(1, flag);
        let mut hw = Hardware::new(&[0, 0], &[0x1008]);
        assert_eq!(hw.run(&mut mb, MailboxChannel::Property, 0x1000), expected);
        assert_eq!(mb.read_buf(1), flag);
    }
}

#[test]
fn events_outside_their_phase_are_ignored() {
    let mut mb = MailBox::new();
    assert_eq!(mb.step(MailboxEvent::Status(0)), MailboxAction::Nothing);
    mb.call(MailboxChannel::Property, 0x1000);
    assert_eq!(mb.step(MailboxEvent::Received(0x1008)), MailboxAction::ReadStatus);
    assert_eq!(mb.phase(), MailboxPhase::WaitWritable);
    mb.step(MailboxEvent::Status(0));
    mb.step(MailboxEvent::Status(0));
    assert_eq!(mb.step(MailboxEvent::Status(0)), MailboxAction::ReadMailbox);
    assert_eq!(mb.phase(), MailboxPhase::CheckEcho);
}

#[test]
fn doorbell_words() {
    assert_eq!(doorbell(0x1000, MailboxChannel::Property), 0x1008);
    assert_eq!(doorbell(0x1000, MailboxChannel::Framebuffer), 0x1001);
    assert_eq!(doorbell(0x1234, MailboxChannel::Framebuffer), 0x1231);
}

#[test]
fn buffer_reads_back_writes() {
    let mut b = MailBoxBuffer::new();
    for i in 0..MAILBOX_BUFFER_WORDS {
        assert_eq!(b.read(i), 0);
    }
    b.write(0, 8 * 4);
    b.write(35, 7);
    assert_eq!(b.read(0), 32);
    assert_eq!(b.read(35), 7);
    assert_eq!(b.read(1), 0);
    let mut mb = MailBox::new();
    mb.write_buf(2, MailboxTag::GetFB.code());
    assert_eq!(mb.read_buf(2), 0x40001);
    assert_eq!(mb.read_buf(3), 0);
}

#[test]
fn enum_values() {
    assert_eq!(MailboxChannel::Framebuffer.id(), 1);
    assert_eq!(MailboxChannel::Property.id(), 8);
    assert_eq!(MailboxTag::SetPower.code(), 0x28001);
    assert_eq!(MailboxTag::GetPitch.code(), 0x40008);
    assert_eq!(MailboxTag::TagLast.code(), 0);
    assert_eq!(MailboxStatus::MailboxEmpty.bit(), 0x4000_0000);
    assert_eq!(MailboxStatus::MailboxFull.bit(), 0x8000_0000);
}
