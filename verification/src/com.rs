//! The client of the embedded-controller service.

use crate::wire::{lemma_split, spec_bits16, spec_signed16, word_from_i16, word_to_i16};
use crate::wire::{low32, sid_words, spec_lendable, spec_low32, spec_one_word, spec_two_words};
use crate::wire::{Buffer, Call, Error, MemoryMessageView, Message, MessageView, Reply};
use crate::wire::{ScalarMessage, ServerAddress};
use vstd::pervasive::unreached;
use vstd::prelude::*;
use vstd::string::StringSliceAdditionalSpecFns;

verus! {

/// One reading of the battery gauge.
#[derive(Clone, Copy, Debug, PartialEq, Eq, Structural)]
pub struct BattStats {
    /// Instantaneous voltage, in millivolts.
    pub voltage: u16,
    /// State of charge, in percent.
    pub soc: u8,
    /// Instantaneous current draw, in milliamperes; negative while discharging.
    pub current: i16,
    /// Remaining capacity, in milliampere-hours.
    pub remaining_capacity: u16,
}

impl BattStats {
    /// The two wire words of a reading: voltage in bits 0..16 and charge in
    /// bits 16..24 of the first, capacity in bits 0..16 and current in bits
    /// 16..32 of the second.
    pub open spec fn spec_words(self) -> (int, int) {
        (
            self.voltage as int + self.soc as int * 0x1_0000,
            self.remaining_capacity as int + spec_bits16(self.current as int) * 0x1_0000,
        )
    }

    /// The reading that two wire words stand for. Bits above those that
    /// `spec_words` fills are ignored.
    pub open spec fn spec_from_words(lo: int, hi: int) -> BattStats {
        BattStats {
            voltage: (lo % 0x1_0000) as u16,
            soc: ((lo / 0x1_0000) % 0x100) as u8,
            current: spec_signed16((hi / 0x1_0000) % 0x1_0000) as i16,
            remaining_capacity: (hi % 0x1_0000) as u16,
        }
    }

    /// Decomposes the reading into its two wire words.
    pub fn to_words(&self) -> (w: [usize; 2])
        ensures
            w[0] == self.spec_words().0,
            w[1] == self.spec_words().1,
            BattStats::spec_from_words(w[0] as int, w[1] as int) == *self,
    {
        proof {
            lemma_batt_stats_round_trip(*self);
        }
        let lo: usize = self.voltage as usize + self.soc as usize * 0x1_0000;
        let hi: usize = self.remaining_capacity as usize + word_from_i16(self.current) * 0x1_0000;
        [lo, hi]
    }

    /// Rebuilds a reading from its two wire words.
    pub fn from_words(w: [usize; 2]) -> (s: BattStats)
        ensures
            s == BattStats::spec_from_words(w[0] as int, w[1] as int),
    {
        BattStats {
            voltage: (w[0] % 0x1_0000) as u16,
            soc: ((w[0] / 0x1_0000) % 0x100) as u8,
            current: word_to_i16(w[1] / 0x1_0000),
            remaining_capacity: (w[1] % 0x1_0000) as u16,
        }
    }
}

/// Decomposing a reading into its wire words and rebuilding it gives the
/// reading back, whatever its fields hold.
pub proof fn lemma_batt_stats_round_trip(s: BattStats)
    ensures
        BattStats::spec_from_words(s.spec_words().0, s.spec_words().1) == s,
{
    let current = spec_bits16(s.current as int);
    lemma_split(s.voltage as int, s.soc as int, 0x1_0000);
    lemma_split(s.soc as int, 0, 0x100);
    lemma_split(s.remaining_capacity as int, current, 0x1_0000);
    lemma_split(current, 0, 0x1_0000);
}

/// The requests that the service takes.
#[derive(Clone, Copy, Debug, PartialEq, Eq, Structural)]
pub enum Opcode {
    /// Cut the power of the main processor.
    PowerOffSoc,
    /// Answered with the firmware revision of the radio, in one word.
    Wf200Rev,
    /// Answered with the revision of the controller's firmware and whether
    /// it was built from a changed tree, in two words.
    EcGitRev,
    /// One line of configuration for the radio; travels in a lent region.
    Wf200PdsLine,
    /// Have a battery reading pushed to the registered listener.
    BattStatsNb,
    /// Register the server whose address the four words carry as the
    /// listener for battery readings.
    RegisterBattStatsListener,
}

impl Opcode {
    /// The wire number of the request: its place in the list.
    pub open spec fn spec_id(self) -> usize {
        match self {
            Opcode::PowerOffSoc => 0,
            Opcode::Wf200Rev => 1,
            Opcode::EcGitRev => 2,
            Opcode::Wf200PdsLine => 3,
            Opcode::BattStatsNb => 4,
            Opcode::RegisterBattStatsListener => 5,
        }
    }

    /// The request with the wire number `id`, if there is one.
    pub open spec fn spec_from_id(id: usize) -> Option<Opcode> {
        if id == 0 {
            Some(Opcode::PowerOffSoc)
        } else if id == 1 {
            Some(Opcode::Wf200Rev)
        } else if id == 2 {
            Some(Opcode::EcGitRev)
        } else if id == 3 {
            Some(Opcode::Wf200PdsLine)
        } else if id == 4 {
            Some(Opcode::BattStatsNb)
        } else if id == 5 {
            Some(Opcode::RegisterBattStatsListener)
        } else {
            None
        }
    }

    /// The wire number of the opcode.
    pub fn to_usize(&self) -> (id: usize)
        ensures
            id == self.spec_id(),
            Opcode::spec_from_id(id) == Some(*self),
    {
        match self {
            Opcode::PowerOffSoc => 0,
            Opcode::Wf200Rev => 1,
            Opcode::EcGitRev => 2,
            Opcode::Wf200PdsLine => 3,
            Opcode::BattStatsNb => 4,
            Opcode::RegisterBattStatsListener => 5,
        }
    }

    /// The request with the wire number `id`; `None` for a number that names no
    /// request, which a receiver ignores.
    pub fn from_usize(id: usize) -> (op: Option<Opcode>)
        ensures
            op == Opcode::spec_from_id(id),
            op matches Some(o) ==> o.spec_id() == id,
    {
        if id == 0 {
            Some(Opcode::PowerOffSoc)
        } else if id == 1 {
            Some(Opcode::Wf200Rev)
        } else if id == 2 {
            Some(Opcode::EcGitRev)
        } else if id == 3 {
            Some(Opcode::Wf200PdsLine)
        } else if id == 4 {
            Some(Opcode::BattStatsNb)
        } else if id == 5 {
            Some(Opcode::RegisterBattStatsListener)
        } else {
            None
        }
    }
}

/// The messages that a listener for the service's events takes.
#[derive(Clone, Copy, Debug, PartialEq, Eq, Structural)]
pub enum Callback {
    /// A battery reading, in two words.
    BattStats,
    /// Stop listening.
    Drop,
}

impl Callback {
    /// The wire number of the message: its place in the list.
    pub open spec fn spec_id(self) -> usize {
        match self {
            Callback::BattStats => 0,
            Callback::Drop => 1,
        }
    }

    /// The message with the wire number `id`, if there is one.
    pub open spec fn spec_from_id(id: usize) -> Option<Callback> {
        if id == 0 {
            Some(Callback::BattStats)
        } else if id == 1 {
            Some(Callback::Drop)
        } else {
            None
        }
    }

    /// The wire number of the opcode.
    pub fn to_usize(&self) -> (id: usize)
        ensures
            id == self.spec_id(),
            Callback::spec_from_id(id) == Some(*self),
    {
        match self {
            Callback::BattStats => 0,
            Callback::Drop => 1,
        }
    }

    /// The message with the wire number `id`; `None` for a number that names no
    /// message, which a listener ignores.
    pub fn from_usize(id: usize) -> (cb: Option<Callback>)
        ensures
            cb == Callback::spec_from_id(id),
            cb matches Some(c) ==> c.spec_id() == id,
    {
        if id == 0 {
            Some(Callback::BattStats)
        } else if id == 1 {
            Some(Callback::Drop)
        } else {
            None
        }
    }
}

/// The most bytes that one line of radio configuration holds.
pub const MAX_PDS_LINE: usize = 512;

/// What a listener does with one message.
#[derive(Clone, Copy, Debug, PartialEq, Eq, Structural)]
pub enum BridgeAction {
    /// Call the handler with this reading.
    Invoke(BattStats),
    /// Nothing: the opcode is not one of the listener's.
    Ignore,
    /// Leave the loop and end the thread.
    Exit,
}

/// The private listener that a client stands up to have events pushed to
/// it: the handler, and whether the loop is still running.
pub struct Listener<H> {
    pub handler: H,
    pub live: bool,
}

impl<H> Listener<H> {
    /// What a running listener does with a message of opcode `id` and the
    /// words `lo` and `hi`.
    pub open spec fn spec_action(id: usize, lo: usize, hi: usize) -> BridgeAction {
        match Callback::spec_from_id(id) {
            Some(Callback::BattStats) => BridgeAction::Invoke(
                BattStats::spec_from_words(lo as int, hi as int),
            ),
            Some(Callback::Drop) => BridgeAction::Exit,
            None => BridgeAction::Ignore,
        }
    }

    /// What sending a message of opcode `id` with the words `lo` and `hi` to
    /// the listener gives: what it does with it while its loop runs, and
    /// `ServerNotFound` once the loop has ended.
    pub open spec fn spec_result(self, id: usize, lo: usize, hi: usize) -> Result<
        BridgeAction,
        Error,
    > {
        if self.live {
            Ok(Self::spec_action(id, lo, hi))
        } else {
            Err(Error::ServerNotFound)
        }
    }

    /// The listener after a message of opcode `id`: the terminate opcode
    /// ends its loop, and nothing else changes it.
    pub open spec fn spec_receive(self, id: usize) -> Listener<H> {
        Listener {
            handler: self.handler,
            live: self.live && Callback::spec_from_id(id) != Some(Callback::Drop),
        }
    }

    /// Handles one message of opcode `id` with the words `lo` and `hi`: a
    /// battery reading is rebuilt for the handler, the terminate opcode ends
    /// the loop, any other opcode is ignored. Once the loop has ended nothing
    /// is listening, and the message is refused with `ServerNotFound`.
    pub fn receive(&mut self, id: usize, lo: usize, hi: usize) -> (r: Result<BridgeAction, Error>)
        ensures
            r == old(self).spec_result(id, lo, hi),
            *final(self) == old(self).spec_receive(id),
    {
        if !self.live {
            return Err(Error::ServerNotFound);
        }
        match Callback::from_usize(id) {
            Some(Callback::BattStats) => Ok(BridgeAction::Invoke(BattStats::from_words([lo, hi]))),
            Some(Callback::Drop) => {
                self.live = false;
                Ok(BridgeAction::Exit)
            },
            None => Ok(BridgeAction::Ignore),
        }
    }
}

impl<H: Fn(BattStats)> Listener<H> {
    /// Handles one message as `receive` does, and calls the handler with the
    /// reading where the message brought one, before it returns.
    pub fn dispatch(&mut self, id: usize, lo: usize, hi: usize) -> (r: Result<BridgeAction, Error>)
        requires
            forall|stats: BattStats| call_requires(old(self).handler, (stats,)),
        ensures
            r == old(self).spec_result(id, lo, hi),
            *final(self) == old(self).spec_receive(id),
            r matches Ok(BridgeAction::Invoke(stats)) ==> call_ensures(
                old(self).handler,
                (stats,),
                (),
            ),
    {
        let r = self.receive(id, lo, hi);
        if let Ok(BridgeAction::Invoke(stats)) = r {
            (self.handler)(stats);
        }
        r
    }
}

/// A listener takes the terminate opcode by leaving its loop, and from then
/// on every message sent to it is refused with `ServerNotFound` and changes
/// nothing.
pub proof fn lemma_terminated_listener_is_gone<H>(
    listener: Listener<H>,
    lo: usize,
    hi: usize,
    later_id: usize,
    later_lo: usize,
    later_hi: usize,
)
    ensures
        ({
            let drop = Callback::Drop.spec_id();
            let after = listener.spec_receive(drop);
            &&& listener.live ==> listener.spec_result(drop, lo, hi) == Ok::<BridgeAction, Error>(
                BridgeAction::Exit,
            )
            &&& !after.live
            &&& after.spec_result(later_id, later_lo, later_hi) == Err::<BridgeAction, Error>(
                Error::ServerNotFound,
            )
            &&& after.spec_receive(later_id) == after
        }),
{
}

/// A reading that is pushed to a running listener in its two wire words
/// reaches the handler as it was, and the listener runs on.
pub proof fn lemma_pushed_reading_is_delivered<H>(listener: Listener<H>, stats: BattStats)
    requires
        listener.live,
    ensures
        listener.spec_result(
            Callback::BattStats.spec_id(),
            stats.spec_words().0 as usize,
            stats.spec_words().1 as usize,
        ) == Ok::<BridgeAction, Error>(BridgeAction::Invoke(stats)),
        listener.spec_receive(Callback::BattStats.spec_id()) == listener,
{
    lemma_batt_stats_round_trip(stats);
}

/// A message whose opcode is not in the listener's table is ignored: the
/// loop goes on as it was.
pub proof fn lemma_unknown_opcode_is_ignored<H>(
    listener: Listener<H>,
    id: usize,
    lo: usize,
    hi: usize,
)
    requires
        listener.live,
        Callback::spec_from_id(id) is None,
    ensures
        listener.spec_result(id, lo, hi) == Ok::<BridgeAction, Error>(BridgeAction::Ignore),
        listener.spec_receive(id) == listener,
{
}

/// The server that a listener thread receives on, from the four machine
/// words that the thread was started with: the low 32 bits of each are one
/// word of the address.
pub fn battstats_server(sid0: usize, sid1: usize, sid2: usize, sid3: usize) -> (sid: xous::SID)
    ensures
        sid_words(sid) == ServerAddress::spec_from_args(sid0, sid1, sid2, sid3).spec_words(),
{
    ServerAddress::from_args(sid0, sid1, sid2, sid3).to_sid()
}

/// One step of taking a client handle down.
#[derive(Clone, Copy, Debug, PartialEq, Eq)]
pub enum TeardownStep {
    /// Send `message` to the listener at `bridge`, so that its loop ends.
    Terminate { bridge: ServerAddress, message: ScalarMessage },
    /// Give up the connection to the service.
    Release { conn: u32 },
}

/// The handle of one client of the service.
pub struct Com {
    pub conn: u32,
    /// The address of the private listener, once it is registered.
    pub battstats_sid: Option<ServerAddress>,
    /// Whether a handler for battery readings is registered.
    pub battstats_hooked: bool,
}

/// The firmware revision that a packed word stands for: major, minor and
/// patch in bits 16..24, 8..16 and 0..8.
pub open spec fn spec_fw_rev(rev: usize) -> (u8, u8, u8) {
    (((rev / 0x1_0000) % 0x100) as u8, ((rev / 0x100) % 0x100) as u8, (rev % 0x100) as u8)
}

impl Com {
    /// A listener is registered only for a handler.
    pub open spec fn wf(self) -> bool {
        self.battstats_sid is Some ==> self.battstats_hooked
    }

    /// The message that ends a listener's loop.
    pub open spec fn spec_drop_message() -> ScalarMessage {
        ScalarMessage { id: Callback::Drop.spec_id(), arg1: 0, arg2: 0, arg3: 0, arg4: 0 }
    }

    /// The steps of taking the handle down, in order: the listener, if one
    /// is registered, is told to end before the connection is given up.
    pub open spec fn spec_teardown(self) -> Seq<TeardownStep> {
        match self.battstats_sid {
            Some(bridge) => seq![
                TeardownStep::Terminate { bridge, message: Com::spec_drop_message() },
                TeardownStep::Release { conn: self.conn },
            ],
            None => seq![TeardownStep::Release { conn: self.conn }],
        }
    }

    /// The handle after a handler was offered for registration.
    pub open spec fn spec_hook(self) -> Com {
        Com { battstats_hooked: true, ..self }
    }

    /// What offering the handler `cb` for registration gives: its listener,
    /// or `MemoryInUse` while a handler is registered.
    pub open spec fn spec_hook_result<H>(self, cb: H) -> Result<Listener<H>, Error> {
        if self.battstats_hooked {
            Err(Error::MemoryInUse)
        } else {
            Ok(Listener { handler: cb, live: true })
        }
    }

    /// A handle on the connection `conn` to the service, with nothing
    /// registered.
    pub fn new(conn: u32) -> (com: Com)
        ensures
            com == (Com { conn, battstats_sid: None, battstats_hooked: false }),
            com.wf(),
    {
        Com { conn, battstats_sid: None, battstats_hooked: false }
    }

    /// The request to cut the power of the main processor. It does not
    /// block: the send is over once the kernel has queued the message.
    pub fn power_off_soc(&self) -> (call: Call)
        ensures
            call.sends(self.conn, MessageView::scalar(Opcode::PowerOffSoc.spec_id(), 0, 0, 0, 0)),
            !call.message@.is_blocking(),
    {
        Call {
            conn: self.conn,
            message: Message::new_scalar(Opcode::PowerOffSoc.to_usize(), 0, 0, 0, 0),
        }
    }

    /// The request for the firmware revision of the radio;
    /// `get_wf200_fw_rev_reply` reads the answer.
    pub fn get_wf200_fw_rev(&self) -> (call: Call)
        ensures
            call.sends(
                self.conn,
                MessageView::blocking_scalar(Opcode::Wf200Rev.spec_id(), 0, 0, 0, 0),
            ),
            call.message@.is_blocking(),
    {
        Call {
            conn: self.conn,
            message: Message::new_blocking_scalar(Opcode::Wf200Rev.to_usize(), 0, 0, 0, 0),
        }
    }

    /// Reads the answer to `get_wf200_fw_rev`: major, minor and patch from
    /// the one packed word. A kernel error is passed on. An answer of another
    /// shape than one word means that the two ends were built from different
    /// opcode tables, and must not be handed in.
    pub fn get_wf200_fw_rev_reply(response: Result<Reply, Error>) -> (r: Result<
        (u8, u8, u8),
        Error,
    >)
        requires
            spec_one_word(response),
        ensures
            response matches Ok(Reply::Scalar1(rev)) ==> r == Ok::<(u8, u8, u8), Error>(
                spec_fw_rev(rev),
            ),
            response matches Err(e) ==> r == Err::<(u8, u8, u8), Error>(e),
    {
        match response {
            Ok(Reply::Scalar1(rev)) => Ok(
                (
                    ((rev / 0x1_0000) % 0x100) as u8,
                    ((rev / 0x100) % 0x100) as u8,
                    (rev % 0x100) as u8,
                ),
            ),
            Ok(_) => unreached(),
            Err(e) => Err(e),
        }
    }

    /// The request for the revision of the controller's firmware;
    /// `get_ec_git_rev_reply` reads the answer.
    pub fn get_ec_git_rev(&self) -> (call: Call)
        ensures
            call.sends(
                self.conn,
                MessageView::blocking_scalar(Opcode::EcGitRev.spec_id(), 0, 0, 0, 0),
            ),
            call.message@.is_blocking(),
    {
        Call {
            conn: self.conn,
            message: Message::new_blocking_scalar(Opcode::EcGitRev.to_usize(), 0, 0, 0, 0),
        }
    }

    /// Reads the answer to `get_ec_git_rev`: the revision from the low 32
    /// bits of the first word, and whether the second word is not zero.
    pub fn get_ec_git_rev_reply(response: Result<Reply, Error>) -> (r: Result<(u32, bool), Error>)
        requires
            spec_two_words(response),
        ensures
            response matches Ok(Reply::Scalar2(rev, dirty)) ==> r == Ok::<(u32, bool), Error>(
                (spec_low32(rev), dirty != 0),
            ),
            response matches Err(e) ==> r == Err::<(u32, bool), Error>(e),
    {
        match response {
            Ok(Reply::Scalar2(rev, dirty)) => Ok((low32(rev), dirty != 0)),
            Ok(_) => unreached(),
            Err(e) => Err(e),
        }
    }

    /// The request to pass the line `s` of radio configuration on, whose
    /// archive is `archive` with its root at `offset`. A line longer than
    /// `MAX_PDS_LINE` bytes is refused with `AccessDenied`, and an archive
    /// that cannot be lent with `InternalError`; nothing is lent then.
    pub fn send_pds_line(&self, s: &str, archive: Vec<u8>, offset: usize) -> (r: Result<
        Call,
        Error,
    >)
        ensures
            match r {
                Ok(call) => s.spec_bytes().len() <= MAX_PDS_LINE && spec_lendable(
                    archive@.len(),
                    offset,
                ) && call.sends(
                    self.conn,
                    MessageView::Borrow(
                        MemoryMessageView {
                            id: Opcode::Wf200PdsLine.spec_id(),
                            buf: archive@,
                            offset,
                        },
                    ),
                ),
                Err(e) => if s.spec_bytes().len() > MAX_PDS_LINE {
                    e == Error::AccessDenied
                } else {
                    !spec_lendable(archive@.len(), offset) && e == Error::InternalError
                },
            },
    {
        if s.as_bytes().len() > MAX_PDS_LINE {
            return Err(Error::AccessDenied);
        }
        match Buffer::from_archive(archive, offset) {
            Ok(buffer) => Ok(buffer.lend(self.conn, Opcode::Wf200PdsLine.to_usize())),
            Err(e) => Err(e),
        }
    }

    /// The request to have a battery reading pushed to the listener at some
    /// later time. It does not block.
    pub fn req_batt_stats(&self) -> (call: Call)
        ensures
            call.sends(self.conn, MessageView::scalar(Opcode::BattStatsNb.spec_id(), 0, 0, 0, 0)),
            !call.message@.is_blocking(),
    {
        Call {
            conn: self.conn,
            message: Message::new_scalar(Opcode::BattStatsNb.to_usize(), 0, 0, 0, 0),
        }
    }

    /// Registers `cb` as the handler for battery readings, and hands out the
    /// listener that will call it. While a handler is registered a second
    /// one is refused with `MemoryInUse`, and the handle is left as it was.
    pub fn hook_batt_stats<H>(&mut self, cb: H) -> (r: Result<Listener<H>, Error>)
        ensures
            final(self).wf(),
            r == old(self).spec_hook_result(cb),
            *final(self) == old(self).spec_hook(),
            r is Err ==> *final(self) == *old(self),
    {
        if self.battstats_hooked {
            return Err(Error::MemoryInUse);
        }
        self.battstats_hooked = true;
        Ok(Listener { handler: cb, live: true })
    }

    /// Takes note of the server `sid` that was made for the listener, and
    /// gives the request that registers it with the service: the four words
    /// of its address. A handle with a registered listener takes no further
    /// handler.
    pub fn register_batt_stats_listener(&mut self, sid: &xous::SID) -> (call: Call)
        ensures
            final(self).wf(),
            final(self).conn == old(self).conn,
            final(self).battstats_hooked,
            final(self).battstats_sid matches Some(address) && address.spec_words() == sid_words(
                *sid,
            ) && call.sends(
                old(self).conn,
                MessageView::scalar(
                    Opcode::RegisterBattStatsListener.spec_id(),
                    address.spec_args().0,
                    address.spec_args().1,
                    address.spec_args().2,
                    address.spec_args().3,
                ),
            ),
    {
        let address = ServerAddress::from_sid(sid);
        self.battstats_sid = Some(address);
        self.battstats_hooked = true;
        let a = address.to_args();
        Call {
            conn: self.conn,
            message: Message::new_scalar(
                Opcode::RegisterBattStatsListener.to_usize(),
                a.0,
                a.1,
                a.2,
                a.3,
            ),
        }
    }

    /// Takes the handle down. The steps are to be done in the order given.
    pub fn teardown(self) -> (steps: Vec<TeardownStep>)
        ensures
            steps@ == self.spec_teardown(),
    {
        let mut steps: Vec<TeardownStep> = Vec::new();
        if let Some(bridge) = self.battstats_sid {
            steps.push(
                TeardownStep::Terminate {
                    bridge,
                    message: ScalarMessage {
                        id: Callback::Drop.to_usize(),
                        arg1: 0,
                        arg2: 0,
                        arg3: 0,
                        arg4: 0,
                    },
                },
            );
        }
        steps.push(TeardownStep::Release { conn: self.conn });
        steps
    }
}

/// Of two registrations in a row the second is refused with `MemoryInUse`
/// and leaves the handle as the first left it; and the listener that the
/// first one made still hands every battery reading to the first handler.
pub proof fn lemma_single_registration<H>(com: Com, first: H, second: H, lo: usize, hi: usize)
    ensures
        ({
            let once = com.spec_hook();
            &&& once.spec_hook_result(second) == Err::<Listener<H>, Error>(Error::MemoryInUse)
            &&& once.spec_hook() == once
            &&& com.spec_hook_result(first) matches Ok(listener) ==> listener.handler == first
                && listener.spec_result(Callback::BattStats.spec_id(), lo, hi) == Ok::<
                BridgeAction,
                Error,
            >(BridgeAction::Invoke(BattStats::spec_from_words(lo as int, hi as int)))
                && listener.spec_receive(Callback::BattStats.spec_id()) == listener
        }),
{
}

/// Taking a handle down gives up the connection last, and tells the
/// listener to end before that if one is registered.
pub proof fn lemma_teardown_order(com: Com)
    ensures
        ({
            let steps = com.spec_teardown();
            &&& steps.len() >= 1
            &&& steps.last() == (TeardownStep::Release { conn: com.conn })
            &&& com.battstats_sid matches Some(bridge) ==> steps.len() == 2 && steps[0] == (
            TeardownStep::Terminate { bridge, message: Com::spec_drop_message() })
            &&& forall|i: int| 0 <= i < steps.len() - 1 ==> steps[i] is Terminate
        }),
{
}

} // verus!
