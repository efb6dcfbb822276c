//! The firmware transfer as a state machine. The caller owns the port:
//! it hands in what the last exchange gave, and is told what to write
//! next, or that the transfer is over. Whatever happens, the request to
//! leave the bootloader goes out before the transfer is over.

use vstd::prelude::*;
use vstd::slice::slice_subrange;
use crate::cmd::math::{calculate_num_pages, crc16_spec, hi_byte, lo_byte, num_pages_spec, CRC16};
use crate::cmd::swupdate::{FWData, FWDataView, SWUpdateBootLoaderStates, SWUpdateCmd, SWUpdateCmdView};
use crate::crypto::{crc16_fw_data, fw_crc_spec, FwFile, FwFileView};
use crate::encoder::TechAirEncoder;
use crate::serial::{fail, read_frame, read_frame_spec, ErrorKind, TechAirError, READ_TIMEOUT_MS};
use crate::usbcmd::{category, encode_frame_spec, request_payload, subcommand, UsbCmd, UsbCmdView};

verus! {

/// The read timeout in milliseconds while the device checks the CRC of
/// what it has flashed.
pub const CRC_CHECK_TIMEOUT_MS: u64 = 3000;

/// The most bytes a transfer can hold: 65536 pages.
pub const MAX_TRANSFER_LEN: usize = 16777216;

/// What the driver waits for.
#[derive(Clone, Copy, Debug, PartialEq, Eq, Structural)]
pub enum BootloaderPhase {
    /// Nothing was sent yet.
    Idle,
    /// The reply to the request that starts the bootloader.
    Entering,
    /// The reply to a chunk.
    Chunk,
    /// The reply to the state poll that follows a chunk.
    ChunkState,
    /// The reply to a state poll after the last chunk.
    Verify,
    /// The reply to the request for the bootloader version.
    Version,
    /// The reply to the CRC check.
    Crc,
    /// The reply to the request that leaves the bootloader.
    Quitting,
    /// Nothing: the transfer is over.
    Done,
}

/// What the caller is to do next.
#[derive(Debug, PartialEq)]
pub enum BootloaderAction {
    /// Write the frame, read with the timeout in milliseconds, and hand
    /// in what came back.
    Exchange(Vec<u8>, u64),
    /// Stop: the transfer is over, with this outcome.
    Finished(Result<(), TechAirError>),
}

pub enum BootloaderActionView {
    Exchange(Seq<u8>, u64),
    Finished(Result<(), TechAirError>),
}

impl View for BootloaderAction {
    type V = BootloaderActionView;

    open spec fn view(&self) -> BootloaderActionView {
        match *self {
            BootloaderAction::Exchange(frame, timeout) => BootloaderActionView::Exchange(frame@, timeout),
            BootloaderAction::Finished(outcome) => BootloaderActionView::Finished(outcome),
        }
    }
}

/// The driver as a mathematical value.
pub struct BootloaderState {
    /// The package: its header, and its Intel-hex text.
    pub fw: FwFileView,
    /// What is transferred: the text and its CRC.
    pub image: Seq<u8>,
    /// How many bytes of the image were handed out.
    pub offset: nat,
    /// The pages that remain: the count that goes with the next chunk,
    /// and the count that the device is to echo for the last one.
    pub remaining: u16,
    /// How many more state polls may follow one that missed the verify
    /// state.
    pub polls_left: nat,
    pub phase: BootloaderPhase,
    /// The outcome, once it is decided.
    pub outcome: Result<(), TechAirError>,
}

/// What is transferred: the payload, and its CRC with the high byte
/// first.
pub open spec fn augmented(hex: Seq<u8>) -> Seq<u8> {
    hex + seq![hi_byte(crc16_spec(hex)), lo_byte(crc16_spec(hex))]
}

/// The pages that remain after a chunk went out: one less after a full
/// page, as long as there is one to take off, and none after a short
/// chunk.
pub open spec fn remaining_after(remaining: u16, chunk_len: nat) -> u16 {
    if chunk_len == 256 && remaining > 0 {
        (remaining - 1) as u16
    } else {
        0
    }
}

impl BootloaderState {
    pub open spec fn wf(self) -> bool {
        &&& self.image == augmented(self.fw.data)
        &&& self.image.len() <= MAX_TRANSFER_LEN
        &&& self.offset <= self.image.len()
        &&& (self.phase is Idle || self.phase is Entering) ==> self.offset == 0
    }

    /// Where the next chunk ends.
    pub open spec fn chunk_end(self) -> nat {
        if self.offset + 256 <= self.image.len() {
            self.offset + 256
        } else {
            self.image.len()
        }
    }

    /// The next chunk.
    pub open spec fn chunk(self) -> Seq<u8> {
        self.image.subrange(self.offset as int, self.chunk_end() as int)
    }

    pub open spec fn with_phase(self, phase: BootloaderPhase) -> BootloaderState {
        BootloaderState {
            fw: self.fw,
            image: self.image,
            offset: self.offset,
            remaining: self.remaining,
            polls_left: self.polls_left,
            phase: phase,
            outcome: self.outcome,
        }
    }
}

/// The driver before anything was sent.
pub open spec fn initial_state(fw: FwFileView, max_polls: u32) -> BootloaderState {
    BootloaderState {
        fw: fw,
        image: augmented(fw.data),
        offset: 0,
        remaining: num_pages_spec(augmented(fw.data).len()) as u16,
        polls_left: max_polls as nat,
        phase: BootloaderPhase::Idle,
        outcome: Ok(()),
    }
}

/// An exchange with the usual timeout.
pub open spec fn exchange(cmd: SWUpdateCmdView) -> BootloaderActionView {
    BootloaderActionView::Exchange(encode_frame_spec(UsbCmdView::SWUpdate(cmd)), READ_TIMEOUT_MS)
}

/// Leaving the bootloader, with the outcome decided.
pub open spec fn quit(s: BootloaderState, outcome: Result<(), TechAirError>) -> (
    BootloaderState,
    BootloaderActionView,
) {
    (
        BootloaderState {
            fw: s.fw,
            image: s.image,
            offset: s.offset,
            remaining: s.remaining,
            polls_left: s.polls_left,
            phase: BootloaderPhase::Quitting,
            outcome: outcome,
        },
        exchange(SWUpdateCmdView::QuitBootLoader),
    )
}

/// Sending the next chunk: up to a page of the image, with the pages
/// that remain before it.
pub open spec fn send_chunk(s: BootloaderState) -> (BootloaderState, BootloaderActionView) {
    (
        BootloaderState {
            fw: s.fw,
            image: s.image,
            offset: s.chunk_end(),
            remaining: remaining_after(s.remaining, s.chunk().len()),
            polls_left: s.polls_left,
            phase: BootloaderPhase::Chunk,
            outcome: s.outcome,
        },
        exchange(
            SWUpdateCmdView::WriteFWData(
                FWDataView { page_count: s.remaining, chunk_len: s.chunk().len(), data: Some(s.chunk()) },
            ),
        ),
    )
}

/// Asking for the state of the bootloader.
pub open spec fn poll(s: BootloaderState, phase: BootloaderPhase) -> (
    BootloaderState,
    BootloaderActionView,
) {
    (s.with_phase(phase), exchange(SWUpdateCmdView::GetBootLoaderState(None)))
}

/// What the reply to a chunk leads to: a reply that does not decode, or
/// that echoes another page count than the one that remains, ends the
/// transfer; after any other the state is polled.
pub open spec fn after_chunk(s: BootloaderState, bytes: Seq<u8>) -> (
    BootloaderState,
    BootloaderActionView,
) {
    match read_frame_spec(bytes) {
        Err(e) => quit(s, Err(e)),
        Ok(UsbCmdView::SWUpdate(SWUpdateCmdView::WriteFWData(res))) => if res.page_count
            != s.remaining {
            quit(s, fail(ErrorKind::BootloaderPageMismatch))
        } else {
            poll(s, BootloaderPhase::ChunkState)
        },
        Ok(_) => poll(s, BootloaderPhase::ChunkState),
    }
}

/// What the reply to a state poll after the last chunk leads to: the
/// version is asked for once the device waits to verify; before that the
/// poll is made again, as often as was allowed.
pub open spec fn after_verify_poll(s: BootloaderState, bytes: Seq<u8>) -> (
    BootloaderState,
    BootloaderActionView,
) {
    if read_frame_spec(bytes) == Ok::<UsbCmdView, TechAirError>(
        UsbCmdView::SWUpdate(
            SWUpdateCmdView::GetBootLoaderState(Some(SWUpdateBootLoaderStates::WaitVerifyFlashedCRC)),
        ),
    ) {
        (
            s.with_phase(BootloaderPhase::Version),
            exchange(SWUpdateCmdView::GetBootLoaderVersion(None)),
        )
    } else if s.polls_left == 0 {
        quit(s, fail(ErrorKind::BootloaderStateTimeout))
    } else {
        (
            BootloaderState {
                fw: s.fw,
                image: s.image,
                offset: s.offset,
                remaining: s.remaining,
                polls_left: (s.polls_left - 1) as nat,
                phase: BootloaderPhase::Verify,
                outcome: s.outcome,
            },
            exchange(SWUpdateCmdView::GetBootLoaderState(None)),
        )
    }
}

/// What the reply to the version request leads to: the CRC of the ROM
/// image for that version is sent for checking, with the long timeout.
pub open spec fn after_version(s: BootloaderState, bytes: Seq<u8>) -> (
    BootloaderState,
    BootloaderActionView,
) {
    match read_frame_spec(bytes) {
        Err(e) => quit(s, Err(e)),
        Ok(UsbCmdView::SWUpdate(SWUpdateCmdView::GetBootLoaderVersion(Some(ver)))) => match fw_crc_spec(
            s.fw.data,
            ver,
        ) {
            Ok(crc) => (
                s.with_phase(BootloaderPhase::Crc),
                BootloaderActionView::Exchange(
                    encode_frame_spec(UsbCmdView::SWUpdate(SWUpdateCmdView::CRCCheck(crc))),
                    CRC_CHECK_TIMEOUT_MS,
                ),
            ),
            Err(e) => quit(s, Err(e)),
        },
        Ok(_) => quit(s, fail(ErrorKind::InvalidFrame)),
    }
}

/// What the reply to the CRC check leads to: success where the status
/// is zero.
pub open spec fn after_crc(s: BootloaderState, bytes: Seq<u8>) -> (
    BootloaderState,
    BootloaderActionView,
) {
    match read_frame_spec(bytes) {
        Err(e) => quit(s, Err(e)),
        Ok(UsbCmdView::SWUpdate(SWUpdateCmdView::CRCCheck(status))) => if status == 0 {
            quit(s, Ok(()))
        } else {
            quit(s, fail(ErrorKind::BootloaderCrcFail))
        },
        Ok(_) => quit(s, fail(ErrorKind::BootloaderCrcFail)),
    }
}

/// One step of the transfer: from the state and what the last exchange
/// gave, to the next state and what to do. An exchange that failed on
/// the port ends the transfer with its error.
pub open spec fn xfer_step(s: BootloaderState, event: Result<Seq<u8>, TechAirError>) -> (
    BootloaderState,
    BootloaderActionView,
) {
    match s.phase {
        BootloaderPhase::Idle => (
            s.with_phase(BootloaderPhase::Entering),
            exchange(SWUpdateCmdView::StartBootLoader),
        ),
        BootloaderPhase::Quitting | BootloaderPhase::Done => (
            s.with_phase(BootloaderPhase::Done),
            BootloaderActionView::Finished(s.outcome),
        ),
        _ => match event {
            Err(e) => quit(s, Err(e)),
            Ok(bytes) => match s.phase {
                BootloaderPhase::Entering => send_chunk(s),
                BootloaderPhase::Chunk => after_chunk(s, bytes),
                BootloaderPhase::ChunkState => if s.offset < s.image.len() {
                    send_chunk(s)
                } else {
                    poll(s, BootloaderPhase::Verify)
                },
                BootloaderPhase::Verify => after_verify_poll(s, bytes),
                BootloaderPhase::Version => after_version(s, bytes),
                _ => after_crc(s, bytes),
            },
        },
    }
}

/// The view of what an exchange gave.
pub open spec fn event_view(event: Result<Vec<u8>, TechAirError>) -> Result<Seq<u8>, TechAirError> {
    match event {
        Ok(bytes) => Ok(bytes@),
        Err(e) => Err(e),
    }
}

/// The driver of a firmware transfer.
pub struct SWUpdateBootloader {
    fwf: FwFile,
    image: Vec<u8>,
    offset: usize,
    remaining: u16,
    polls_left: u32,
    phase: BootloaderPhase,
    outcome: Result<(), TechAirError>,
}

impl View for SWUpdateBootloader {
    type V = BootloaderState;

    closed spec fn view(&self) -> BootloaderState {
        BootloaderState {
            fw: self.fwf@,
            image: self.image@,
            offset: self.offset as nat,
            remaining: self.remaining,
            polls_left: self.polls_left as nat,
            phase: self.phase,
            outcome: self.outcome,
        }
    }
}

fn frame_of(cmd: SWUpdateCmd) -> (frame: Vec<u8>)
    ensures
        frame@ == encode_frame_spec(UsbCmdView::SWUpdate(cmd@)),
{
    let usb = UsbCmd::SWUpdate(cmd);
    let mut buf: Vec<u8> = Vec::new();
    usb.write_bytes(&mut buf);
    proof {
        let body = seq![category(usb@), subcommand(usb@)] + request_payload(usb@);
        assert(Seq::<u8>::empty() + body =~= body);
        assert(buf@ =~= encode_frame_spec(usb@));
    }
    buf
}

impl SWUpdateBootloader {
    /// A driver for the package `fwf`. After the last chunk it polls for
    /// the verify state once, and up to `max_polls` times more.
    pub fn new(fwf: FwFile, max_polls: u32) -> (bl: SWUpdateBootloader)
        requires
            fwf@.data.len() + 2 <= MAX_TRANSFER_LEN,
        ensures
            bl@ == initial_state(fwf@, max_polls),
            bl@.wf(),
    {
        let mut hexfile: Vec<u8> = fwf.data();
        let crc_fw: u16 = CRC16::calculate(hexfile.as_slice()).as_u16();
        hexfile.push((crc_fw / 256) as u8);
        hexfile.push((crc_fw % 256) as u8);
        proof {
            assert(hexfile@ =~= augmented(fwf@.data));
        }
        let page_count: u16 = calculate_num_pages(hexfile.len());
        SWUpdateBootloader {
            fwf: fwf,
            image: hexfile,
            offset: 0,
            remaining: page_count,
            polls_left: max_polls,
            phase: BootloaderPhase::Idle,
            outcome: Ok(()),
        }
    }

    pub fn phase(&self) -> (p: BootloaderPhase)
        ensures
            p == self@.phase,
    {
        self.phase
    }

    /// The bootloader version, from a reply that holds one.
    pub fn get_swupdate_bootloader_version(packet: UsbCmd) -> (r: Option<u8>)
        ensures
            r == (match packet@ {
                UsbCmdView::SWUpdate(SWUpdateCmdView::GetBootLoaderVersion(ver)) => ver,
                _ => None,
            }),
    {
        match packet {
            UsbCmd::SWUpdate(SWUpdateCmd::GetBootLoaderVersion(ver)) => ver,
            _ => None,
        }
    }

    /// The bootloader state, from a reply that holds one.
    pub fn get_swupdate_bootloader_state(packet: UsbCmd) -> (r: Option<SWUpdateBootLoaderStates>)
        ensures
            r == (match packet@ {
                UsbCmdView::SWUpdate(SWUpdateCmdView::GetBootLoaderState(state)) => state,
                _ => None,
            }),
    {
        match packet {
            UsbCmd::SWUpdate(SWUpdateCmd::GetBootLoaderState(state)) => state,
            _ => None,
        }
    }

    fn quit(&mut self, outcome: Result<(), TechAirError>) -> (action: BootloaderAction)
        ensures
            (final(self)@, action@) == quit(old(self)@, outcome),
    {
        self.phase = BootloaderPhase::Quitting;
        self.outcome = outcome;
        BootloaderAction::Exchange(frame_of(SWUpdateCmd::QuitBootLoader), READ_TIMEOUT_MS)
    }

    fn poll(&mut self, phase: BootloaderPhase) -> (action: BootloaderAction)
        ensures
            (final(self)@, action@) == poll(old(self)@, phase),
    {
        self.phase = phase;
        BootloaderAction::Exchange(frame_of(SWUpdateCmd::GetBootLoaderState(None)), READ_TIMEOUT_MS)
    }

    fn send_chunk(&mut self) -> (action: BootloaderAction)
        requires
            old(self)@.wf(),
            old(self)@.offset < old(self)@.image.len(),
        ensures
            (final(self)@, action@) == send_chunk(old(self)@),
            final(self)@.wf(),
    {
        let end: usize = if self.image.len() - self.offset >= 256 {
            self.offset + 256
        } else {
            self.image.len()
        };
        let chunk: &[u8] = slice_subrange(self.image.as_slice(), self.offset, end);
        let fw_data: FWData = match FWData::new(chunk, &self.remaining) {
            Some(fw) => fw,
            None => {
                proof {
                    assert(false);
                }
                FWData::reply(0)
            },
        };
        let chunk_len: usize = end - self.offset;
        self.remaining = if chunk_len == 256 && self.remaining > 0 {
            self.remaining - 1
        } else {
            0
        };
        self.offset = end;
        self.phase = BootloaderPhase::Chunk;
        BootloaderAction::Exchange(frame_of(SWUpdateCmd::WriteFWData(fw_data)), READ_TIMEOUT_MS)
    }

    fn crccheck_swupdate_bootloader_hexfile(&mut self, bl_ver: u8) -> (action: BootloaderAction)
        ensures
            (final(self)@, action@) == (match fw_crc_spec(old(self)@.fw.data, bl_ver) {
                Ok(crc) => (
                    old(self)@.with_phase(BootloaderPhase::Crc),
                    BootloaderActionView::Exchange(
                        encode_frame_spec(UsbCmdView::SWUpdate(SWUpdateCmdView::CRCCheck(crc))),
                        CRC_CHECK_TIMEOUT_MS,
                    ),
                ),
                Err(e) => quit(old(self)@, Err(e)),
            }),
    {
        match crc16_fw_data(&self.fwf, bl_ver) {
            Ok(hex_crc16) => {
                self.phase = BootloaderPhase::Crc;
                BootloaderAction::Exchange(frame_of(SWUpdateCmd::CRCCheck(hex_crc16)), CRC_CHECK_TIMEOUT_MS)
            },
            Err(e) => self.quit(Err(e)),
        }
    }

    /// One step of the transfer. `event` is what the exchange that the
    /// last action asked for gave: the bytes read, or the error of the
    /// port. At the first call it is passed over.
    pub fn xfer_swupdate_bootloader_hexfile(
        &mut self,
        event: Result<Vec<u8>, TechAirError>,
    ) -> (action: BootloaderAction)
        requires
            old(self)@.wf(),
        ensures
            (final(self)@, action@) == xfer_step(old(self)@, event_view(event)),
            final(self)@.wf(),
    {
        match self.phase {
            BootloaderPhase::Idle => {
                self.phase = BootloaderPhase::Entering;
                return BootloaderAction::Exchange(frame_of(SWUpdateCmd::StartBootLoader), READ_TIMEOUT_MS);
            },
            BootloaderPhase::Quitting | BootloaderPhase::Done => {
                self.phase = BootloaderPhase::Done;
                return BootloaderAction::Finished(self.outcome);
            },
            _ => {},
        }
        let bytes: Vec<u8> = match event {
            Err(e) => {
                return self.quit(Err(e));
            },
            Ok(bytes) => bytes,
        };
        match self.phase {
            BootloaderPhase::Entering => self.send_chunk(),
            BootloaderPhase::Chunk => match read_frame(bytes) {
                Err(e) => self.quit(Err(e)),
                Ok(UsbCmd::SWUpdate(SWUpdateCmd::WriteFWData(res))) => {
                    if res.page_count() != self.remaining {
                        self.quit(Err(TechAirError::new(ErrorKind::BootloaderPageMismatch)))
                    } else {
                        self.poll(BootloaderPhase::ChunkState)
                    }
                },
                Ok(_) => self.poll(BootloaderPhase::ChunkState),
            },
            BootloaderPhase::ChunkState => {
                if self.offset < self.image.len() {
                    self.send_chunk()
                } else {
                    self.poll(BootloaderPhase::Verify)
                }
            },
            BootloaderPhase::Verify => {
                let waiting: bool = match read_frame(bytes) {
                    Ok(
                        UsbCmd::SWUpdate(
                            SWUpdateCmd::GetBootLoaderState(
                                Some(SWUpdateBootLoaderStates::WaitVerifyFlashedCRC),
                            ),
                        ),
                    ) => true,
                    _ => false,
                };
                if waiting {
                    self.phase = BootloaderPhase::Version;
                    BootloaderAction::Exchange(
                        frame_of(SWUpdateCmd::GetBootLoaderVersion(None)),
                        READ_TIMEOUT_MS,
                    )
                } else if self.polls_left == 0 {
                    self.quit(Err(TechAirError::new(ErrorKind::BootloaderStateTimeout)))
                } else {
                    self.polls_left = self.polls_left - 1;
                    BootloaderAction::Exchange(
                        frame_of(SWUpdateCmd::GetBootLoaderState(None)),
                        READ_TIMEOUT_MS,
                    )
                }
            },
            BootloaderPhase::Version => match read_frame(bytes) {
                Err(e) => self.quit(Err(e)),
                Ok(UsbCmd::SWUpdate(SWUpdateCmd::GetBootLoaderVersion(Some(ver)))) => {
                    self.crccheck_swupdate_bootloader_hexfile(ver)
                },
                Ok(_) => self.quit(Err(TechAirError::new(ErrorKind::InvalidFrame))),
            },
            _ => match read_frame(bytes) {
                Err(e) => self.quit(Err(e)),
                Ok(UsbCmd::SWUpdate(SWUpdateCmd::CRCCheck(status))) => {
                    if status == 0 {
                        self.quit(Ok(()))
                    } else {
                        self.quit(Err(TechAirError::new(ErrorKind::BootloaderCrcFail)))
                    }
                },
                Ok(_) => self.quit(Err(TechAirError::new(ErrorKind::BootloaderCrcFail))),
            },
        }
    }
}

/// The request that starts the bootloader.
pub fn start_bootloader() -> (cmd: UsbCmd)
    ensures
        cmd@ == UsbCmdView::SWUpdate(SWUpdateCmdView::StartBootLoader),
{
    UsbCmd::SWUpdate(SWUpdateCmd::StartBootLoader)
}

/// The request that leaves the bootloader.
pub fn quit_bootloader() -> (cmd: UsbCmd)
    ensures
        cmd@ == UsbCmdView::SWUpdate(SWUpdateCmdView::QuitBootLoader),
{
    UsbCmd::SWUpdate(SWUpdateCmd::QuitBootLoader)
}

/// The request for the bootloader version.
pub fn get_swupdate_bootloader_version_request() -> (cmd: UsbCmd)
    ensures
        cmd@ == UsbCmdView::SWUpdate(SWUpdateCmdView::GetBootLoaderVersion(None)),
{
    UsbCmd::SWUpdate(SWUpdateCmd::GetBootLoaderVersion(None))
}

/// The request for the bootloader state.
pub fn get_swupdate_bootloader_state_request() -> (cmd: UsbCmd)
    ensures
        cmd@ == UsbCmdView::SWUpdate(SWUpdateCmdView::GetBootLoaderState(None)),
{
    UsbCmd::SWUpdate(SWUpdateCmd::GetBootLoaderState(None))
}

/// A run of the driver: the state after a row of events, and the
/// actions that were asked for on the way.
pub open spec fn run(s: BootloaderState, events: Seq<Result<Seq<u8>, TechAirError>>) -> (
    BootloaderState,
    Seq<BootloaderActionView>,
)
    decreases events.len(),
{
    if events.len() == 0 {
        (s, Seq::<BootloaderActionView>::empty())
    } else {
        let (mid, actions) = run(s, events.drop_last());
        let (next, action) = xfer_step(mid, events.last());
        (next, actions.push(action))
    }
}

/// Whether the request that leaves the bootloader is among the actions.
pub open spec fn quit_sent(actions: Seq<BootloaderActionView>) -> bool {
    exists|j: int|
        0 <= j < actions.len() && #[trigger] actions[j] == exchange(SWUpdateCmdView::QuitBootLoader)
}

/// The transfer never ends without leaving the bootloader. In every run
/// from a driver that has sent nothing, whatever the port and the device
/// do, an action that ends the transfer comes after the request that
/// leaves the bootloader, and it reports the outcome that was decided
/// when that request went out.
pub proof fn lemma_quits_before_finishing(
    s: BootloaderState,
    events: Seq<Result<Seq<u8>, TechAirError>>,
)
    requires
        s.phase is Idle,
    ensures
        (run(s, events).0.phase is Quitting || run(s, events).0.phase is Done) ==> quit_sent(
            run(s, events).1,
        ),
        run(s, events).1.len() == events.len(),
        forall|k: int|
            0 <= k < events.len() && #[trigger] run(s, events).1[k] is Finished ==> quit_sent(
                run(s, events).1.take(k),
            ),
    decreases events.len(),
{
    if events.len() > 0 {
        let head = events.drop_last();
        lemma_quits_before_finishing(s, head);
        let (mid, actions) = run(s, head);
        let (next, action) = xfer_step(mid, events.last());
        let all = actions.push(action);
        assert(run(s, events).1 == all);
        if next.phase is Quitting || next.phase is Done {
            if mid.phase is Quitting || mid.phase is Done {
                let j = choose|j: int|
                    0 <= j < actions.len() && #[trigger] actions[j] == exchange(
                        SWUpdateCmdView::QuitBootLoader,
                    );
                assert(all[j] == actions[j]);
            } else {
                assert(all[actions.len() as int] == exchange(SWUpdateCmdView::QuitBootLoader));
            }
        }
        assert forall|k: int| 0 <= k < events.len() && #[trigger] all[k] is Finished implies quit_sent(
            all.take(k),
        ) by {
            if k < actions.len() {
                assert(all[k] == actions[k]);
                assert(all.take(k) =~= actions.take(k));
            } else {
                assert(all.take(k) =~= actions);
                assert(mid.phase is Quitting || mid.phase is Done);
            }
        }
    }
}

/// The driver after its first `k` chunks went out, replies aside.
pub open spec fn after_chunks(s: BootloaderState, k: nat) -> BootloaderState
    decreases k,
{
    if k == 0 {
        s
    } else {
        send_chunk(after_chunks(s, (k - 1) as nat)).0
    }
}

/// The page countdown. Chunk number `k` of a transfer, counted from
/// zero, begins at byte `256 * k` and goes out with the page count of the
/// whole image less `k`.
pub proof fn lemma_page_countdown(fw: FwFileView, max_polls: u32, k: nat)
    requires
        augmented(fw.data).len() <= MAX_TRANSFER_LEN,
        256 * k < augmented(fw.data).len(),
    ensures
        after_chunks(initial_state(fw, max_polls), k).offset == 256 * k,
        after_chunks(initial_state(fw, max_polls), k).image == augmented(fw.data),
        after_chunks(initial_state(fw, max_polls), k).remaining == num_pages_spec(
            augmented(fw.data).len(),
        ) - k,
    decreases k,
{
    let len = augmented(fw.data).len();
    let s0 = initial_state(fw, max_polls);
    if k > 0 {
        lemma_page_countdown(fw, max_polls, (k - 1) as nat);
        let prev = after_chunks(s0, (k - 1) as nat);
        assert(prev.chunk_end() == 256 * k);
        assert(prev.chunk().len() == 256);
    }
}

/// After the last chunk of a transfer no page remains.
pub proof fn lemma_page_countdown_ends(fw: FwFileView, max_polls: u32, k: nat)
    requires
        augmented(fw.data).len() <= MAX_TRANSFER_LEN,
        256 * k < augmented(fw.data).len() <= 256 * (k + 1),
    ensures
        after_chunks(initial_state(fw, max_polls), k + 1).offset == augmented(fw.data).len(),
        after_chunks(initial_state(fw, max_polls), k + 1).remaining == 0,
{
    lemma_page_countdown(fw, max_polls, k);
}

/// The echo of a chunk. A reply to a chunk that holds a page count lets
/// the transfer go on where the count is the one that remains, and ends
/// it with `BootloaderPageMismatch` where it is another.
pub proof fn lemma_echo_decides(s: BootloaderState, bytes: Seq<u8>, echo: FWDataView)
    requires
        s.phase is Chunk,
        read_frame_spec(bytes) == Ok::<UsbCmdView, TechAirError>(
            UsbCmdView::SWUpdate(SWUpdateCmdView::WriteFWData(echo)),
        ),
    ensures
        echo.page_count == s.remaining ==> xfer_step(s, Ok(bytes)) == poll(
            s,
            BootloaderPhase::ChunkState,
        ),
        echo.page_count != s.remaining ==> xfer_step(s, Ok(bytes)) == quit(
            s,
            fail(ErrorKind::BootloaderPageMismatch),
        ),
{
}

/// The CRC check is asked for. On a reply that holds the bootloader
/// version, the driver sends the CRC of the ROM image that the package
/// describes for the window of that version, and waits for the answer
/// with the long timeout. A package whose text does not read ends the
/// transfer with the error of the reading.
pub proof fn lemma_crc_check_is_asked(s: BootloaderState, bytes: Seq<u8>, ver: u8)
    requires
        s.phase is Version,
        read_frame_spec(bytes) == Ok::<UsbCmdView, TechAirError>(
            UsbCmdView::SWUpdate(SWUpdateCmdView::GetBootLoaderVersion(Some(ver))),
        ),
    ensures
        match fw_crc_spec(s.fw.data, ver) {
            Ok(crc) => xfer_step(s, Ok(bytes)) == (
                s.with_phase(BootloaderPhase::Crc),
                BootloaderActionView::Exchange(
                    encode_frame_spec(UsbCmdView::SWUpdate(SWUpdateCmdView::CRCCheck(crc))),
                    3000,
                ),
            ),
            Err(e) => xfer_step(s, Ok(bytes)) == quit(s, Err(e)),
        },
{
}

/// The CRC check decides. On a reply that holds the status of the CRC
/// check the driver leaves the bootloader, and the transfer has
/// succeeded if and only if the status is zero.
pub proof fn lemma_crc_check_decides(s: BootloaderState, bytes: Seq<u8>, status: u16)
    requires
        s.phase is Crc,
        read_frame_spec(bytes) == Ok::<UsbCmdView, TechAirError>(
            UsbCmdView::SWUpdate(SWUpdateCmdView::CRCCheck(status)),
        ),
    ensures
        xfer_step(s, Ok(bytes)).1 == exchange(SWUpdateCmdView::QuitBootLoader),
        xfer_step(s, Ok(bytes)).0.phase is Quitting,
        xfer_step(s, Ok(bytes)).0.outcome is Ok <==> status == 0,
        status != 0 ==> xfer_step(s, Ok(bytes)).0.outcome == fail::<()>(ErrorKind::BootloaderCrcFail),
        xfer_step(xfer_step(s, Ok(bytes)).0, Ok(bytes)).1 == BootloaderActionView::Finished(
            xfer_step(s, Ok(bytes)).0.outcome,
        ),
{
}

} // verus!

