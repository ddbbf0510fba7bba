//! TRB rings: circular queues of TRBs shared with the xHC, with a producer
//! (enqueue) and a consumer (dequeue) index and a cycle bit that tells which
//! entries are new.
use vstd::prelude::*;
use crate::bits::{place_field32, set_bits32};
use crate::phys::{phys_addr_add, phys_limit};
use crate::xhci::trb::{cycle_of, trb_type_of, Trb};

verus! {

/// Size of one TRB in bytes.
pub const TRB_SIZE: u64 = 16;

/// A ring could not be created.
#[derive(Debug)]
pub struct TrbCreationError();

/// Why a ring operation did not take place.
#[derive(Clone, Copy, Debug, PartialEq, Eq)]
pub enum RingError {
    Empty,
    Unsupported,
    InvalidTrbOnEventRing,
    InvalidTrbOnCommandRing,
    InvalidTrbOnTransferRing,
    Full,
}

/// What a ring holds: its TRBs, its physical base, both indices and the cycle state.
pub struct RingModel {
    pub trbs: Seq<Trb>,
    pub ring_phys: u64,
    pub enqueue_index: nat,
    pub dequeue_index: nat,
    pub cycle_state: bool,
}

/// A circular queue of TRBs. The last TRB of a ring made by [`TrbRing::new`]
/// is a link TRB pointing back to the start.
pub struct TrbRing {
    trbs: Vec<Trb>,
    ring_phys: u64,
    enqueue_index: usize,
    dequeue_index: usize,
    cycle_state: bool,
}

impl View for TrbRing {
    type V = RingModel;

    closed spec fn view(&self) -> RingModel {
        RingModel {
            trbs: self.trbs@,
            ring_phys: self.ring_phys,
            enqueue_index: self.enqueue_index as nat,
            dequeue_index: self.dequeue_index as nat,
            cycle_state: self.cycle_state,
        }
    }
}

/// Both indices lie in the ring, the ring is not empty, and the physical
/// address of every TRB is one `x86_64::PhysAddr` accepts.
pub open spec fn ring_wf(m: RingModel) -> bool {
    &&& m.trbs.len() >= 1
    &&& m.enqueue_index < m.trbs.len()
    &&& m.dequeue_index < m.trbs.len()
    &&& m.ring_phys + TRB_SIZE * m.trbs.len() <= phys_limit()
}

/// A ring that the producer can write to: it has room for a link TRB and at
/// least one other, and the enqueue index never rests on the link TRB.
pub open spec fn ring_can_enqueue(m: RingModel) -> bool {
    &&& ring_wf(m)
    &&& m.trbs.len() >= 2
    &&& m.enqueue_index <= m.trbs.len() - 2
}

/// Physical address of the TRB at `index`.
pub open spec fn trb_phys_of(m: RingModel, index: int) -> int {
    m.ring_phys + TRB_SIZE * index
}

/// `trb` with its cycle bit replaced by `cycle`.
pub open spec fn with_cycle(trb: Trb, cycle: bool) -> Trb {
    Trb { control: set_bits32(trb.control, 0x1, cycle), ..trb }
}

/// The index the producer moves to after writing at `i`: the next one, or 0
/// instead of the link TRB.
pub open spec fn next_enqueue_index(m: RingModel) -> nat {
    if m.enqueue_index + 1 == m.trbs.len() - 1 {
        0
    } else {
        (m.enqueue_index + 1) as nat
    }
}

/// Enqueueing `trb`: unless the ring is full (checked only when `check`), the
/// TRB is written at the enqueue index with the cycle bit of the producer; if
/// it was the last slot before the link TRB, the link TRB gets that cycle bit
/// too, the index goes back to 0 and the cycle state flips. The result is the
/// physical address of the written TRB.
pub open spec fn spec_enqueue(m: RingModel, trb: Trb, check: bool) -> (RingModel, Result<u64, RingError>) {
    let link = m.trbs.len() - 1;
    let i = m.enqueue_index as int;
    if check && next_enqueue_index(m) == m.dequeue_index {
        (m, Err(RingError::Full))
    } else {
        let written = m.trbs.update(i, with_cycle(trb, m.cycle_state));
        let last = i == link - 1;
        let trbs = if last {
            written.update(link, with_cycle(written[link], m.cycle_state))
        } else {
            written
        };
        (
            RingModel {
                trbs,
                enqueue_index: if last { 0 } else { (i + 1) as nat },
                cycle_state: if last { !m.cycle_state } else { m.cycle_state },
                ..m
            },
            Ok(trb_phys_of(m, i) as u64),
        )
    }
}

/// Dequeueing: the TRB at the dequeue index is new when its cycle bit equals
/// the cycle state. Then it is returned and the index moves on, back to 0 with
/// a flipped cycle state after the last TRB; otherwise the ring is empty.
pub open spec fn spec_dequeue(m: RingModel) -> (RingModel, Result<Trb, RingError>) {
    let i = m.dequeue_index as int;
    let trb = m.trbs[i];
    if cycle_of(trb.control) != m.cycle_state {
        (m, Err(RingError::Empty))
    } else if i + 1 == m.trbs.len() {
        (RingModel { dequeue_index: 0, cycle_state: !m.cycle_state, ..m }, Ok(trb))
    } else {
        (RingModel { dequeue_index: (i + 1) as nat, ..m }, Ok(trb))
    }
}

/// The link TRB that closes a ring based at `ring_phys`, made from the TRB that
/// was in the last slot: type link, cycle and toggle cycle bits set, pointing at
/// the ring's start.
pub open spec fn link_trb(old_last: Trb, ring_phys: u64) -> Trb {
    Trb {
        parameter: ring_phys,
        status: old_last.status,
        control: set_bits32(
            set_bits32(place_field32(old_last.control, 0xFC00, 10, 6), 0x1, true),
            0x2,
            true,
        ),
    }
}

/// Clearing the cycle bit to its opposite and then flipping it gives the bit.
proof fn lemma_cycle_flip(c: u32, cycle: bool)
    by (bit_vector)
    ensures
        set_bits32(c, 0x1, !cycle) ^ 1 == set_bits32(c, 0x1, cycle),
{
}

impl TrbRing {
    /// A ring over `trbs` based at `ring_phys`; its last TRB becomes a link TRB
    /// back to the start. Both indices start at 0 and the cycle state at 1.
    pub fn new(trbs: Vec<Trb>, ring_phys: u64) -> (r: Result<TrbRing, TrbCreationError>)
        requires
            trbs.len() >= 1,
        ensures
            r matches Ok(ring) && ring@ == (RingModel {
                trbs: trbs@.update(trbs.len() - 1, link_trb(trbs@[trbs.len() - 1], ring_phys)),
                ring_phys,
                enqueue_index: 0,
                dequeue_index: 0,
                cycle_state: true,
            }),
    {
        let mut trbs = trbs;
        let len = trbs.len();
        let last_index = len - 1;
        let mut last = trbs[last_index];
        last.set_trb_type(Trb::TRB_LINK);
        last.set_cycle(true);
        last.set_toggle_cycle(true);
        last.set_parameter(ring_phys);
        trbs.set(last_index, last);
        Ok(TrbRing { trbs, ring_phys, enqueue_index: 0, dequeue_index: 0, cycle_state: true })
    }

    /// A ring over `trbs` exactly as given, without a link TRB, as the event
    /// ring uses.
    pub fn new_unlinked(trbs: Vec<Trb>, ring_phys: u64) -> (r: TrbRing)
        ensures
            r@ == (RingModel { trbs: trbs@, ring_phys, enqueue_index: 0, dequeue_index: 0, cycle_state: true }),
    {
        TrbRing { trbs, ring_phys, enqueue_index: 0, dequeue_index: 0, cycle_state: true }
    }

    /// Writes `trb` at the enqueue index (see [`spec_enqueue`]). With
    /// `dequeue_index_check`, refuses with [`RingError::Full`] when moving on
    /// would reach the dequeue index.
    pub fn enqueue(&mut self, trb: Trb, dequeue_index_check: bool) -> (r: Result<u64, RingError>)
        requires
            ring_can_enqueue(old(self)@),
        ensures
            (final(self)@, r) == spec_enqueue(old(self)@, trb, dequeue_index_check),
            ring_can_enqueue(final(self)@),
    {
        let len = self.trbs.len();
        let link_index = len - 1;
        let mut next_index = self.enqueue_index + 1;
        if next_index == link_index {
            next_index = 0;
        }
        if dequeue_index_check && next_index == self.dequeue_index {
            return Err(RingError::Full);
        }
        let written_index = self.enqueue_index;
        let is_last_slot = written_index == link_index - 1;

        // The TRB goes in with the opposite cycle bit, so that the consumer
        // does not take it before the whole TRB is in place.
        let ghost trb_in = trb;
        let mut trb = trb;
        trb.set_cycle(!self.cycle_state);
        self.trbs.set(written_index, trb);

        if is_last_slot {
            let mut link_trb = self.trbs[link_index];
            link_trb.set_cycle(self.cycle_state);
            self.trbs.set(link_index, link_trb);
        }

        // Now the control dword is written again with the producer's cycle bit.
        let correct_control_dword = trb.control() ^ 1;
        proof {
            lemma_cycle_flip(trb_in.control, self.cycle_state);
        }
        let mut placed = self.trbs[written_index];
        placed.set_control(correct_control_dword);
        self.trbs.set(written_index, placed);

        proof {
            let m = old(self)@;
            let written = m.trbs.update(written_index as int, with_cycle(trb_in, m.cycle_state));
            if is_last_slot {
                assert(self.trbs@ =~= written.update(link_index as int, with_cycle(written[link_index as int], m.cycle_state)));
            } else {
                assert(self.trbs@ =~= written);
            }
        }
        if is_last_slot {
            self.enqueue_index = 0;
            self.cycle_state = !self.cycle_state;
        } else {
            self.enqueue_index = self.enqueue_index + 1;
        }
        Ok(self.trb_phys(written_index))
    }

    /// Physical address of the TRB at `index`.
    pub fn trb_phys(&self, index: usize) -> (r: u64)
        requires
            ring_wf(self@),
            index < self@.trbs.len(),
        ensures
            r == trb_phys_of(self@, index as int),
    {
        phys_addr_add(self.ring_phys, index as u64 * TRB_SIZE)
    }

    /// Takes the TRB at the dequeue index if it is new (see [`spec_dequeue`]).
    pub fn dequeue(&mut self) -> (r: Result<Trb, RingError>)
        requires
            ring_wf(old(self)@),
        ensures
            (final(self)@, r) == spec_dequeue(old(self)@),
            ring_wf(final(self)@),
            final(self)@.enqueue_index == old(self)@.enqueue_index,
    {
        let control_dword = self.trbs[self.dequeue_index].control;
        let cycle_bit = (control_dword & 1) != 0;
        if cycle_bit != self.cycle_state {
            return Err(RingError::Empty);
        }
        let trb = self.trbs[self.dequeue_index];
        let len = self.trbs.len();
        self.dequeue_index = self.dequeue_index + 1;
        if self.dequeue_index == len {
            self.dequeue_index = 0;
            self.cycle_state = !self.cycle_state;
        }
        Ok(trb)
    }

    /// Moves the dequeue index on by one, back to 0 with a flipped cycle state
    /// after the last TRB, without looking at the TRB.
    pub fn advance_dequeue_index(&mut self)
        requires
            ring_wf(old(self)@),
        ensures
            ring_wf(final(self)@),
            final(self)@ == (if old(self)@.dequeue_index + 1 == old(self)@.trbs.len() {
                RingModel { dequeue_index: 0, cycle_state: !old(self)@.cycle_state, ..old(self)@ }
            } else {
                RingModel { dequeue_index: old(self)@.dequeue_index + 1, ..old(self)@ }
            }),
    {
        let len = self.trbs.len();
        self.dequeue_index = self.dequeue_index + 1;
        if self.dequeue_index == len {
            self.dequeue_index = 0;
            self.cycle_state = !self.cycle_state;
        }
    }

    /// Physical address of the TRB at the dequeue index.
    pub fn head_phys(&self) -> (r: u64)
        requires
            ring_wf(self@),
        ensures
            r == trb_phys_of(self@, self@.dequeue_index as int),
    {
        self.trb_phys(self.dequeue_index)
    }

    /// Physical address of the TRB at the enqueue index.
    pub fn tail_phys(&self) -> (r: u64)
        requires
            ring_wf(self@),
        ensures
            r == trb_phys_of(self@, self@.enqueue_index as int),
    {
        self.trb_phys(self.enqueue_index)
    }

    pub fn get_enqueue_phys(&self) -> (r: u64)
        requires
            ring_wf(self@),
        ensures
            r == trb_phys_of(self@, self@.enqueue_index as int),
    {
        self.tail_phys()
    }

    pub fn get_dequeue_phys(&self) -> (r: u64)
        requires
            ring_wf(self@),
        ensures
            r == trb_phys_of(self@, self@.dequeue_index as int),
    {
        self.head_phys()
    }

    pub fn enqueue_index(&self) -> (r: usize)
        ensures
            r == self@.enqueue_index,
    {
        self.enqueue_index
    }

    pub fn dequeue_index(&self) -> (r: usize)
        ensures
            r == self@.dequeue_index,
    {
        self.dequeue_index
    }

    pub fn cycle_state(&self) -> (r: bool)
        ensures
            r == self@.cycle_state,
    {
        self.cycle_state
    }

    /// The TRB at `index`.
    pub fn trb(&self, index: usize) -> (r: Trb)
        requires
            index < self@.trbs.len(),
        ensures
            r == self@.trbs[index as int],
    {
        self.trbs[index]
    }

    pub fn len(&self) -> (r: usize)
        ensures
            r == self@.trbs.len(),
    {
        self.trbs.len()
    }
}

/// Operations shared by the command, event and transfer rings.
pub trait Ring: Sized {
    /// What the ring holds.
    spec fn model(&self) -> RingModel;

    fn new(trbs: Vec<Trb>, ring_phys: u64) -> (r: Self)
        requires
            trbs.len() >= 1,
    ;

    fn enqueue(&mut self, trb: Trb) -> (r: Result<u64, RingError>)
        requires
            ring_can_enqueue(old(self).model()),
        ensures
            ring_can_enqueue(final(self).model()),
    ;

    fn dequeue(&mut self) -> (r: Result<Trb, RingError>)
        requires
            ring_wf(old(self).model()),
        ensures
            ring_wf(final(self).model()),
    ;

    fn get_dequeue_phys(&self) -> (r: Result<u64, RingError>)
        requires
            ring_wf(self.model()),
    ;

    fn ring(&self) -> (r: &TrbRing)
        ensures
            r@ == self.model(),
    ;

    fn advance_dequeue_index(&mut self)
        requires
            ring_wf(old(self).model()),
        ensures
            ring_wf(final(self).model()),
    ;

    fn enqueue_index(&self) -> (r: usize)
        ensures
            r == self.model().enqueue_index,
    {
        self.ring().enqueue_index()
    }

    fn dequeue_index(&self) -> (r: usize)
        ensures
            r == self.model().dequeue_index,
    {
        self.ring().dequeue_index()
    }

    fn cycle_state(&self) -> (r: bool)
        ensures
            r == self.model().cycle_state,
    {
        self.ring().cycle_state()
    }
}

/// The ring on which the xHC reports events; software only dequeues.
pub struct EventRing {
    ring: TrbRing,
    erdp_offset: Option<(u64, u64)>,
}

impl Ring for EventRing {
    closed spec fn model(&self) -> RingModel {
        self.ring@
    }

    /// An event ring over `trbs` as given (no link TRB), cycle state 1.
    fn new(trbs: Vec<Trb>, ring_phys: u64) -> (r: Self)
        ensures
            r.model() == (RingModel { trbs: trbs@, ring_phys, enqueue_index: 0, dequeue_index: 0, cycle_state: true }),
    {
        Self { ring: TrbRing::new_unlinked(trbs, ring_phys), erdp_offset: None }
    }

    /// Software does not produce events.
    fn enqueue(&mut self, trb: Trb) -> (r: Result<u64, RingError>)
        ensures
            r == Err::<u64, RingError>(RingError::Unsupported),
            final(self).model() == old(self).model(),
    {
        Err(RingError::Unsupported)
    }

    /// Dequeues a TRB; a TRB that is not an event is taken off the ring and
    /// reported as [`RingError::InvalidTrbOnEventRing`].
    fn dequeue(&mut self) -> (r: Result<Trb, RingError>)
        ensures
            final(self).model() == spec_dequeue(old(self).model()).0,
            r == (match spec_dequeue(old(self).model()).1 {
                Ok(t) => if 32 <= trb_type_of(t.control) <= 63 {
                    Ok(t)
                } else {
                    Err(RingError::InvalidTrbOnEventRing)
                },
                Err(e) => Err(e),
            }),
    {
        let a = self.ring.dequeue()?;
        if a.is_event_trb() {
            Ok(a)
        } else {
            Err(RingError::InvalidTrbOnEventRing)
        }
    }

    fn get_dequeue_phys(&self) -> (r: Result<u64, RingError>)
        ensures
            r == Ok::<u64, RingError>(trb_phys_of(self.model(), self.model().dequeue_index as int) as u64),
    {
        Ok(self.ring.get_dequeue_phys())
    }

    fn ring(&self) -> (r: &TrbRing) {
        &self.ring
    }

    fn advance_dequeue_index(&mut self)
        ensures
            final(self).model() == (if old(self).model().dequeue_index + 1 == old(self).model().trbs.len() {
                RingModel { dequeue_index: 0, cycle_state: !old(self).model().cycle_state, ..old(self).model() }
            } else {
                RingModel { dequeue_index: old(self).model().dequeue_index + 1, ..old(self).model() }
            }),
    {
        self.ring.advance_dequeue_index();
    }
}

/// The ring on which software issues commands to the xHC.
pub struct CommandRing {
    ring: TrbRing,
}

impl Ring for CommandRing {
    closed spec fn model(&self) -> RingModel {
        self.ring@
    }

    /// A command ring over `trbs`, closed by a link TRB.
    fn new(trbs: Vec<Trb>, ring_phys: u64) -> (r: Self)
        ensures
            r.model() == (RingModel {
                trbs: trbs@.update(trbs.len() - 1, link_trb(trbs@[trbs.len() - 1], ring_phys)),
                ring_phys,
                enqueue_index: 0,
                dequeue_index: 0,
                cycle_state: true,
            }),
    {
        match TrbRing::new(trbs, ring_phys) {
            Ok(ring) => Self { ring },
            Err(_) => {
                proof {
                    assert(false);
                }
                Self { ring: TrbRing::new_unlinked(Vec::new(), ring_phys) }
            },
        }
    }

    /// Enqueues a command TRB, refusing when the ring is full; other TRBs are
    /// refused with [`RingError::InvalidTrbOnCommandRing`].
    fn enqueue(&mut self, trb: Trb) -> (r: Result<u64, RingError>)
        ensures
            if 9 <= trb_type_of(trb.control) <= 31 {
                (final(self).model(), r) == spec_enqueue(old(self).model(), trb, true)
            } else {
                r == Err::<u64, RingError>(RingError::InvalidTrbOnCommandRing) && final(self).model() == old(self).model()
            },
    {
        if trb.is_command_trb() {
            self.ring.enqueue(trb, true)
        } else {
            Err(RingError::InvalidTrbOnCommandRing)
        }
    }

    /// Only the xHC consumes commands.
    fn dequeue(&mut self) -> (r: Result<Trb, RingError>)
        ensures
            r == Err::<Trb, RingError>(RingError::Unsupported),
            final(self).model() == old(self).model(),
    {
        Err(RingError::Unsupported)
    }

    fn get_dequeue_phys(&self) -> (r: Result<u64, RingError>)
        ensures
            r == Err::<u64, RingError>(RingError::Unsupported),
    {
        Err(RingError::Unsupported)
    }

    fn ring(&self) -> (r: &TrbRing) {
        &self.ring
    }

    fn advance_dequeue_index(&mut self) {
        self.ring.advance_dequeue_index();
    }
}

/// A ring carrying the transfers of one endpoint.
pub struct TransferRing {
    ring: TrbRing,
}

impl Ring for TransferRing {
    closed spec fn model(&self) -> RingModel {
        self.ring@
    }

    /// A transfer ring over `trbs`, closed by a link TRB.
    fn new(trbs: Vec<Trb>, ring_phys: u64) -> (r: Self)
        ensures
            r.model() == (RingModel {
                trbs: trbs@.update(trbs.len() - 1, link_trb(trbs@[trbs.len() - 1], ring_phys)),
                ring_phys,
                enqueue_index: 0,
                dequeue_index: 0,
                cycle_state: true,
            }),
    {
        match TrbRing::new(trbs, ring_phys) {
            Ok(ring) => Self { ring },
            Err(_) => {
                proof {
                    assert(false);
                }
                Self { ring: TrbRing::new_unlinked(Vec::new(), ring_phys) }
            },
        }
    }

    /// Enqueues a transfer TRB without checking for a full ring; other TRBs are
    /// refused with [`RingError::InvalidTrbOnTransferRing`].
    fn enqueue(&mut self, trb: Trb) -> (r: Result<u64, RingError>)
        ensures
            if 1 <= trb_type_of(trb.control) <= 8 {
                (final(self).model(), r) == spec_enqueue(old(self).model(), trb, false)
            } else {
                r == Err::<u64, RingError>(RingError::InvalidTrbOnTransferRing) && final(self).model() == old(self).model()
            },
    {
        if trb.is_transfer_trb() {
            self.ring.enqueue(trb, false)
        } else {
            Err(RingError::InvalidTrbOnTransferRing)
        }
    }

    fn dequeue(&mut self) -> (r: Result<Trb, RingError>)
        ensures
            (final(self).model(), r) == spec_dequeue(old(self).model()),
    {
        self.ring.dequeue()
    }

    fn get_dequeue_phys(&self) -> (r: Result<u64, RingError>)
        ensures
            r == Err::<u64, RingError>(RingError::Unsupported),
    {
        Err(RingError::Unsupported)
    }

    fn ring(&self) -> (r: &TrbRing) {
        &self.ring
    }

    fn advance_dequeue_index(&mut self) {
        self.ring.advance_dequeue_index();
    }
}

/// What a command was issued for, remembered until its completion event comes.
#[derive(Clone, Copy, Debug)]
pub enum CommandContext {
    Empty,
    EnableSlot { port_id: u8 },
    DisableSlot { port_id: u8, slot_id: u8 },
    AddressDevice { slot_id: u8 },
}

impl Default for CommandContext {
    fn default() -> (r: Self)
        ensures
            r == CommandContext::Empty,
    {
        Self::Empty
    }
}

/// The slot of the command ring that a command TRB address falls on: none when
/// the address is below the ring, not at a TRB boundary, or past `size` TRBs.
pub open spec fn shadow_index(base: u64, phys_addr: u64, size: nat) -> Option<nat> {
    if phys_addr < base {
        None
    } else if (phys_addr - base) % (TRB_SIZE as int) != 0 {
        None
    } else if (phys_addr - base) / (TRB_SIZE as int) >= size {
        None
    } else {
        Some(((phys_addr - base) / (TRB_SIZE as int)) as nat)
    }
}

/// One remembered [`CommandContext`] per slot of a command ring of `SIZE` TRBs,
/// looked up by the physical address of the command TRB.
pub struct ShadowRing<const SIZE: usize> {
    entries: Vec<CommandContext>,
    command_ring_phys_base: u64,
}

impl<const SIZE: usize> View for ShadowRing<SIZE> {
    type V = (Seq<CommandContext>, u64);

    closed spec fn view(&self) -> (Seq<CommandContext>, u64) {
        (self.entries@, self.command_ring_phys_base)
    }
}

impl<const SIZE: usize> ShadowRing<SIZE> {
    /// Every entry is empty.
    pub fn new(command_ring_phys_base: u64) -> (r: Self)
        ensures
            r@.0 == Seq::new(SIZE as nat, |i: int| CommandContext::Empty),
            r@.1 == command_ring_phys_base,
    {
        let mut entries: Vec<CommandContext> = Vec::new();
        let mut i: usize = 0;
        while i < SIZE
            invariant
                i <= SIZE,
                entries@ =~= Seq::new(i as nat, |j: int| CommandContext::Empty),
            decreases SIZE - i,
        {
            entries.push(CommandContext::Empty);
            i = i + 1;
        }
        Self { entries, command_ring_phys_base }
    }

    /// Remembers `context` for the command at `phys_addr`.
    pub fn save_context_by_phys_addr(&mut self, phys_addr: u64, context: CommandContext)
        requires
            old(self)@.0.len() == SIZE,
            shadow_index(old(self)@.1, phys_addr, SIZE as nat) is Some,
        ensures
            final(self)@.0 == old(self)@.0.update(
                shadow_index(old(self)@.1, phys_addr, SIZE as nat)->0 as int,
                context,
            ),
            final(self)@.1 == old(self)@.1,
    {
        match self.calculate_index(phys_addr) {
            Some(index) => self.entries.set(index, context),
            None => {},
        }
    }

    /// Hands out and forgets what was remembered for the command at
    /// `phys_addr`; [`CommandContext::Empty`] for an address outside the ring.
    pub fn take_context_by_phys_addr(&mut self, phys_addr: u64) -> (r: CommandContext)
        requires
            old(self)@.0.len() == SIZE,
        ensures
            match shadow_index(old(self)@.1, phys_addr, SIZE as nat) {
                Some(i) => r == old(self)@.0[i as int] && final(self)@ == (
                    old(self)@.0.update(i as int, CommandContext::Empty),
                    old(self)@.1,
                ),
                None => r == CommandContext::Empty && final(self)@ == old(self)@,
            },
    {
        match self.calculate_index(phys_addr) {
            Some(index) => {
                let context = self.entries[index];
                self.entries.set(index, CommandContext::Empty);
                context
            },
            None => CommandContext::Empty,
        }
    }

    fn calculate_index(&self, phys_addr: u64) -> (r: Option<usize>)
        ensures
            match shadow_index(self@.1, phys_addr, SIZE as nat) {
                Some(i) => r == Some(i as usize),
                None => r is None,
            },
    {
        if phys_addr < self.command_ring_phys_base {
            return None;
        }
        let offset_bytes = phys_addr - self.command_ring_phys_base;
        if offset_bytes % TRB_SIZE != 0 {
            return None;
        }
        let index = offset_bytes / TRB_SIZE;
        if index >= SIZE as u64 {
            return None;
        }
        Some(index as usize)
    }
}

/// One entry of the event ring segment table: the 64-byte aligned address of a
/// segment (split in two dwords) and its size in TRBs.
#[derive(Debug, Clone, Copy)]
pub struct ERST {
    ring_addr_low: u32,
    ring_addr_high: u32,
    ring_segment_size: u32,
    rsvdz: u32,
}

impl View for ERST {
    type V = (u32, u32, u32, u32);

    closed spec fn view(&self) -> (u32, u32, u32, u32) {
        (self.ring_addr_low, self.ring_addr_high, self.ring_segment_size, self.rsvdz)
    }
}

impl ERST {
    /// The entry for a segment at `ring_addr` (which must be 32-byte aligned)
    /// of `ring_segment_size` TRBs.
    pub fn new(ring_addr: u64, ring_segment_size: u32) -> (r: ERST)
        requires
            ring_addr & 0x1F == 0,
        ensures
            r@ == ((ring_addr & 0xFFFFFFE0) as u32, (ring_addr >> 32) as u32, ring_segment_size, 0u32),
    {
        let ring_addr_high: u32 = (ring_addr >> 32) as u32;
        let ring_addr_low: u32 = (ring_addr & 0xFFFFFFE0) as u32;
        Self { ring_addr_low, ring_addr_high, ring_segment_size, rsvdz: 0u32 }
    }

    pub fn ring_addr_low(&self) -> (r: u32)
        ensures
            r == self@.0,
    {
        self.ring_addr_low
    }

    pub fn set_ring_addr_low(&mut self, val: u32)
        ensures
            final(self)@ == (val, old(self)@.1, old(self)@.2, old(self)@.3),
    {
        self.ring_addr_low = val;
    }

    pub fn ring_addr_high(&self) -> (r: u32)
        ensures
            r == self@.1,
    {
        self.ring_addr_high
    }

    pub fn set_ring_addr_high(&mut self, val: u32)
        ensures
            final(self)@ == (old(self)@.0, val, old(self)@.2, old(self)@.3),
    {
        self.ring_addr_high = val;
    }

    pub fn ring_segment_size(&self) -> (r: u32)
        ensures
            r == self@.2,
    {
        self.ring_segment_size
    }

    pub fn set_ring_segment_size(&mut self, val: u32)
        ensures
            final(self)@ == (old(self)@.0, old(self)@.1, val, old(self)@.3),
    {
        self.ring_segment_size = val;
    }
}

/// The ring after `k` dequeues from `m`, successful or not.
pub open spec fn dequeue_times(m: RingModel, k: nat) -> RingModel
    decreases k,
{
    if k == 0 {
        m
    } else {
        spec_dequeue(dequeue_times(m, (k - 1) as nat)).0
    }
}

/// A dequeue that takes the last TRB of the ring goes back to the first and
/// inverts the consumer's cycle state; any other successful dequeue moves on
/// by one and keeps it. A dequeue never changes the TRBs.
pub proof fn law_dequeue_wraps_with_flipped_cycle(m: RingModel)
    requires
        ring_wf(m),
    ensures
        spec_dequeue(m).0.trbs == m.trbs,
        spec_dequeue(m).1 is Ok && m.dequeue_index + 1 == m.trbs.len() ==> spec_dequeue(m).0.dequeue_index
            == 0 && spec_dequeue(m).0.cycle_state == !m.cycle_state,
        spec_dequeue(m).1 is Ok && m.dequeue_index + 1 < m.trbs.len() ==> spec_dequeue(m).0.dequeue_index
            == m.dequeue_index + 1 && spec_dequeue(m).0.cycle_state == m.cycle_state,
        spec_dequeue(m).1 is Ok ==> spec_dequeue(m).1 == Ok::<Trb, RingError>(m.trbs[m.dequeue_index as int]),
        spec_dequeue(m).1 is Ok <==> cycle_of(m.trbs[m.dequeue_index as int].control) == m.cycle_state,
{
}

/// Dequeues that all succeed from the start of the ring walk it in order:
/// after `k` of them the index is `k` (0 again, with the cycle state
/// inverted, after a whole lap) and the `k`-th handed out TRB `k`.
proof fn lemma_dequeue_lap(m: RingModel, k: nat)
    requires
        ring_wf(m),
        m.dequeue_index == 0,
        k <= m.trbs.len(),
        forall|j: nat| j < k ==> (#[trigger] spec_dequeue(dequeue_times(m, j))).1 is Ok,
    ensures
        dequeue_times(m, k).trbs == m.trbs,
        dequeue_times(m, k).ring_phys == m.ring_phys,
        dequeue_times(m, k).enqueue_index == m.enqueue_index,
        k < m.trbs.len() ==> dequeue_times(m, k).dequeue_index == k && dequeue_times(m, k).cycle_state
            == m.cycle_state,
        k == m.trbs.len() ==> dequeue_times(m, k).dequeue_index == 0 && dequeue_times(m, k).cycle_state
            == !m.cycle_state,
    decreases k,
{
    if k > 0 {
        let k1 = (k - 1) as nat;
        lemma_dequeue_lap(m, k1);
        assert(spec_dequeue(dequeue_times(m, k1)).1 is Ok);
    }
}

/// Once a consumer has taken every TRB of a lap, starting at the first, a
/// further dequeue finds the ring empty unless the first TRB's cycle bit was
/// written again: no TRB is handed out twice for one write.
pub proof fn law_full_lap_then_empty(m: RingModel)
    requires
        ring_wf(m),
        m.dequeue_index == 0,
        forall|j: nat| j < m.trbs.len() ==> (#[trigger] spec_dequeue(dequeue_times(m, j))).1 is Ok,
    ensures
        spec_dequeue(dequeue_times(m, m.trbs.len())).1 == Err::<Trb, RingError>(RingError::Empty),
{
    let n = m.trbs.len();
    lemma_dequeue_lap(m, n);
    lemma_dequeue_lap(m, 0);
    assert(spec_dequeue(dequeue_times(m, 0)).1 is Ok);
}

/// On a ring whose two indices meet, away from the last slot before the link
/// TRB, a TRB that is enqueued is the next one dequeued, carrying the
/// producer's cycle bit, and enqueueing reports the address of the slot it
/// wrote.
pub proof fn law_enqueue_then_dequeue(m: RingModel, trb: Trb, check: bool)
    requires
        ring_can_enqueue(m),
        m.dequeue_index == m.enqueue_index,
        m.enqueue_index + 2 < m.trbs.len(),
    ensures
        spec_enqueue(m, trb, check).1 == Ok::<u64, RingError>(trb_phys_of(m, m.enqueue_index as int) as u64),
        spec_dequeue(spec_enqueue(m, trb, check).0).1 == Ok::<Trb, RingError>(with_cycle(trb, m.cycle_state)),
{
    lemma_with_cycle_reads_back(trb, m.cycle_state);
}

/// A TRB written with a cycle bit reads that cycle bit back.
pub proof fn lemma_with_cycle_reads_back(trb: Trb, cycle: bool)
    ensures
        cycle_of(with_cycle(trb, cycle).control) == cycle,
{
    crate::bits::lemma_bits32(trb.control, 0x1, cycle);
}

/// With the full check, the producer never moves onto the consumer's index: a
/// refused enqueue leaves the ring as it was, and an accepted one leaves the
/// enqueue index away from the dequeue index.
pub proof fn law_checked_enqueue_keeps_a_gap(m: RingModel, trb: Trb)
    requires
        ring_can_enqueue(m),
    ensures
        spec_enqueue(m, trb, true).1 == Err::<u64, RingError>(RingError::Full) ==> spec_enqueue(m, trb, true).0 == m,
        spec_enqueue(m, trb, true).1 is Ok ==> spec_enqueue(m, trb, true).0.enqueue_index != m.dequeue_index,
{
}

/// What is remembered for a command is what is handed out for it, once: after
/// being taken, the slot is empty again.
pub proof fn law_shadow_save_then_take(entries: Seq<CommandContext>, base: u64, size: nat, phys_addr: u64, context: CommandContext)
    requires
        entries.len() == size,
        shadow_index(base, phys_addr, size) is Some,
    ensures
        ({
            let i = shadow_index(base, phys_addr, size)->0 as int;
            let saved = entries.update(i, context);
            &&& saved[i] == context
            &&& saved.update(i, CommandContext::Empty)[i] == CommandContext::Empty
        }),
{
}

} // verus!
