//! A device behind an xHCI slot: the transfer rings of its endpoints, the
//! transfers it has outstanding, and how a request becomes TRBs on a ring.
use vstd::prelude::*;
use crate::bits::{get_field32, has_bits32, place_field32, place_field64, set_bits32, set_field32};
use crate::xhci::trb::{
    setup_transfer_type_value, trb_type_of, DataStageTrb, NormalTrb, SetupStageTrb, TrbTrait,
    SetupTransferType, StatusStageTrb, Trb,
};
use crate::keyed::{
    keys_unique, lemma_pairs_contains, lemma_pairs_len, lemma_pairs_remove, lemma_pairs_update,
    lemma_pairs_value, pairs_map,
};
use crate::usb::usb_transfers::{UsbSetupPacket, UsbTransferRequest, UsbTransferStatus};
use crate::xhci::controller::{max_packet_size_0, xhci_endpoint_address_to_dci};
use crate::xhci::trb::TrbCompletionCode;
use crate::xhci::trb_ring::{
    ring_can_enqueue, spec_enqueue, trb_phys_of, Ring, RingError, RingModel, TransferRing,
};

verus! {

/// The setup stage's transfer type: no data stage, or a data stage in the
/// request's direction.
pub open spec fn setup_trt(has_data: bool, is_in: bool) -> SetupTransferType {
    if !has_data {
        SetupTransferType::NoDataStage
    } else if is_in {
        SetupTransferType::InDataStage
    } else {
        SetupTransferType::OutDataStage
    }
}

/// The setup stage TRB of a request: the eight request bytes as immediate
/// data, transfer length 8, no interrupt on completion.
pub open spec fn setup_stage_trb(
    target: u16,
    bm_request_type: u8,
    b_request: u8,
    w_length: u16,
    w_value: u16,
    w_index: u16,
    trt: SetupTransferType,
) -> Trb {
    Trb {
        parameter: place_field64(
            place_field64(
                place_field64(
                    place_field64(place_field64(0, 0xFF, 0, bm_request_type as u64), 0xFF00, 8, b_request as u64),
                    0xFFFF0000,
                    16,
                    w_value as u64,
                ),
                0xFFFF00000000,
                32,
                w_index as u64,
            ),
            0xFFFF000000000000,
            48,
            w_length as u64,
        ),
        status: set_field32(set_field32(set_field32(0, 0x1FFFF, 0, 8), 0x1FFFF, 0, 8), 0xFFC00000, 22, target as u32),
        control: set_bits32(
            set_bits32(
                place_field32(set_bits32(place_field32(0, 0xFC00, 10, 2), 0x40, true), 0x30000, 16, setup_transfer_type_value(trt)),
                0x20,
                false,
            ),
            0x40,
            true,
        ),
    }
}

/// The data stage TRB: the buffer, its length and the direction bit.
pub open spec fn data_stage_trb(target: u16, direction: u8, length: u32, buffer: u64) -> Trb {
    Trb {
        parameter: buffer,
        status: set_field32(set_field32(0, 0x1FFFF, 0, length), 0xFFC00000, 22, target as u32),
        control: set_bits32(
            set_bits32(
                set_bits32(set_field32(place_field32(0, 0xFC00, 10, 3), 0x10000, 16, direction as u32), 0x10, false),
                0x20,
                false,
            ),
            0x40,
            false,
        ),
    }
}

/// The status stage TRB: the direction bit, interrupt on completion.
pub open spec fn status_stage_trb(target: u16, direction: u8) -> Trb {
    Trb {
        parameter: 0,
        status: set_field32(0, 0xFFC00000, 22, target as u32),
        control: set_bits32(
            set_bits32(set_field32(place_field32(0, 0xFC00, 10, 4), 0x10000, 16, direction as u32), 0x10, false),
            0x20,
            true,
        ),
    }
}

/// The normal TRB of a bulk or interrupt transfer: interrupt on completion
/// and on a short packet, not chained.
pub open spec fn normal_trb(target: u16, buffer: u64, length: u32) -> Trb {
    Trb {
        parameter: buffer,
        status: set_field32(set_field32(0, 0x1FFFF, 0, length), 0xFFC00000, 22, target as u32),
        control: set_bits32(
            set_bits32(set_bits32(place_field32(0, 0xFC00, 10, 1), 0x20, true), 0x4, true),
            0x10,
            false,
        ),
    }
}

/// The TRBs of a control request, in ring order: setup, then a data stage
/// where `length` is not 0, then the status stage, whose direction is the
/// opposite of the data stage's (IN where there is no data stage).
pub open spec fn control_request_trbs(
    target: u16,
    bm_request_type: u8,
    b_request: u8,
    length: usize,
    w_value: u16,
    w_index: u16,
    buffer: u64,
) -> Seq<Trb> {
    let has_data = length > 0;
    let is_in = bm_request_type & 0x80 != 0;
    let setup = setup_stage_trb(target, bm_request_type, b_request, length as u16, w_value, w_index, setup_trt(has_data, is_in));
    let status = status_stage_trb(target, if has_data && is_in { 0u8 } else { 1u8 });
    if has_data {
        seq![setup, data_stage_trb(target, if is_in { 1u8 } else { 0u8 }, length as u32, buffer), status]
    } else {
        seq![setup, status]
    }
}

/// The ring after enqueueing `trbs` one after the other, unchecked.
pub open spec fn enqueue_all(m: RingModel, trbs: Seq<Trb>) -> RingModel
    decreases trbs.len(),
{
    if trbs.len() == 0 {
        m
    } else {
        enqueue_all(spec_enqueue(m, trbs[0], false).0, trbs.drop_first())
    }
}

/// The physical address at which the last of `trbs` lands.
pub open spec fn last_trb_phys(m: RingModel, trbs: Seq<Trb>) -> u64 {
    trb_phys_of(enqueue_all(m, trbs.drop_last()), enqueue_all(m, trbs.drop_last()).enqueue_index as int) as u64
}

/// The type fields of the four transfer TRBs built here.
proof fn lemma_transfer_trb_types(trt: u32, direction: u32, status_direction: u32)
    by (bit_vector)
    requires
        trt <= 3,
    ensures
        get_field32(
            set_bits32(
                set_bits32(place_field32(set_bits32(place_field32(0, 0xFC00, 10, 2), 0x40, true), 0x30000, 16, trt), 0x20, false),
                0x40,
                true,
            ),
            0xFC00,
            10,
        ) == 2,
        get_field32(
            set_bits32(
                set_bits32(set_bits32(set_field32(place_field32(0, 0xFC00, 10, 3), 0x10000, 16, direction), 0x10, false), 0x20, false),
                0x40,
                false,
            ),
            0xFC00,
            10,
        ) == 3,
        get_field32(
            set_bits32(set_bits32(set_field32(place_field32(0, 0xFC00, 10, 4), 0x10000, 16, status_direction), 0x10, false), 0x20, true),
            0xFC00,
            10,
        ) == 4,
        get_field32(
            set_bits32(set_bits32(set_bits32(place_field32(0, 0xFC00, 10, 1), 0x20, true), 0x4, true), 0x10, false),
            0xFC00,
            10,
        ) == 1,
{
}

/// Enqueues the TRBs of a control request on `ring` and gives the physical
/// address of its status stage TRB, the one the transfer event will name.
pub fn enqueue_control_request(
    ring: &mut TransferRing,
    interrupter_target: u16,
    bm_request_type: u8,
    b_request: u8,
    transfer_length: usize,
    w_value: u16,
    w_index: u16,
    buffer_phys: u64,
) -> (r: u64)
    requires
        ring_can_enqueue(old(ring).model()),
    ensures
        ring_can_enqueue(final(ring).model()),
        final(ring).model() == enqueue_all(
            old(ring).model(),
            control_request_trbs(interrupter_target, bm_request_type, b_request, transfer_length, w_value, w_index, buffer_phys),
        ),
        r == last_trb_phys(
            old(ring).model(),
            control_request_trbs(interrupter_target, bm_request_type, b_request, transfer_length, w_value, w_index, buffer_phys),
        ),
{
    let ghost m0 = ring.model();
    let ghost trbs = control_request_trbs(interrupter_target, bm_request_type, b_request, transfer_length, w_value, w_index, buffer_phys);
    let has_data = transfer_length > 0;
    let is_in = (bm_request_type & 0x80) != 0;

    let mut setup_stage_td = SetupStageTrb::new();
    let trt = if !has_data {
        SetupTransferType::NoDataStage
    } else if is_in {
        SetupTransferType::InDataStage
    } else {
        SetupTransferType::OutDataStage
    };
    setup_stage_td.set_trt(trt);
    setup_stage_td.set_transfer_length(8);
    setup_stage_td.set_ioc(false);
    setup_stage_td.set_idt(true);
    setup_stage_td.set_bm_request_type(bm_request_type);
    setup_stage_td.set_b_request(b_request);
    setup_stage_td.set_w_value(w_value);
    setup_stage_td.set_w_index(w_index);
    setup_stage_td.set_w_length(#[verifier::truncate] (transfer_length as u16));
    setup_stage_td.set_interrupter_target(interrupter_target);

    let direction: u8 = if is_in { 1 } else { 0 };
    let status_direction: u8 = if has_data && is_in { 0 } else { 1 };
    proof {
        lemma_transfer_trb_types(setup_transfer_type_value(trt), direction as u32, status_direction as u32);
    }
    assert(setup_stage_td@ == trbs[0]);
    let _ = ring.enqueue(*setup_stage_td.raw());
    let ghost m1 = ring.model();

    if has_data {
        let mut data_stage_td = DataStageTrb::new();
        data_stage_td.set_direction(direction);
        data_stage_td.set_transfer_length(#[verifier::truncate] (transfer_length as u32));
        data_stage_td.set_chain(false);
        data_stage_td.set_ioc(false);
        data_stage_td.set_idt(false);
        data_stage_td.set_data_buffer(buffer_phys);
        data_stage_td.set_interrupter_target(interrupter_target);
        assert(data_stage_td@ == trbs[1]);
        let _ = ring.enqueue(*data_stage_td.raw());
    }
    let ghost m2 = ring.model();

    let mut status_stage_td = StatusStageTrb::new();
    status_stage_td.set_direction(status_direction);
    status_stage_td.set_chain(false);
    status_stage_td.set_ioc(true);
    status_stage_td.set_interrupter_target(interrupter_target);
    assert(status_stage_td@ == trbs.last());
    let status_phys = match ring.enqueue(*status_stage_td.raw()) {
        Ok(phys) => phys,
        Err(_) => 0,
    };
    proof {
        let s1 = trbs.drop_first();
        if has_data {
            let s2 = s1.drop_first();
            assert(s2.drop_first() =~= Seq::<Trb>::empty());
            assert(enqueue_all(m2, s2) == spec_enqueue(m2, trbs[2], false).0) by {
                assert(enqueue_all(spec_enqueue(m2, s2[0], false).0, s2.drop_first()) == spec_enqueue(m2, s2[0], false).0);
            }
            assert(trbs.drop_last() =~= seq![trbs[0], trbs[1]]);
            let d = trbs.drop_last();
            assert(d.drop_first().drop_first() =~= Seq::<Trb>::empty());
            assert(enqueue_all(m1, d.drop_first()) == m2) by {
                assert(enqueue_all(spec_enqueue(m1, d.drop_first()[0], false).0, d.drop_first().drop_first()) == m2);
            }
            assert(enqueue_all(m0, d) == m2);
            assert(enqueue_all(m1, s1) == enqueue_all(m2, s2));
        } else {
            assert(s1.drop_first() =~= Seq::<Trb>::empty());
            assert(enqueue_all(m1, s1) == spec_enqueue(m1, trbs[1], false).0) by {
                assert(enqueue_all(spec_enqueue(m1, s1[0], false).0, s1.drop_first()) == spec_enqueue(m1, s1[0], false).0);
            }
            assert(trbs.drop_last() =~= seq![trbs[0]]);
            let d = trbs.drop_last();
            assert(d.drop_first() =~= Seq::<Trb>::empty());
            assert(enqueue_all(m0, d) == enqueue_all(spec_enqueue(m0, d[0], false).0, d.drop_first()));
            assert(enqueue_all(m0, d) == m1);
        }
    }
    status_phys
}

/// Enqueues the normal TRB of a bulk or interrupt transfer and gives its
/// physical address.
pub fn enqueue_normal_transfer(ring: &mut TransferRing, interrupter_target: u16, buffer: u64, transfer_length: usize) -> (r: u64)
    requires
        ring_can_enqueue(old(ring).model()),
    ensures
        ring_can_enqueue(final(ring).model()),
        final(ring).model() == spec_enqueue(
            old(ring).model(),
            normal_trb(interrupter_target, buffer, #[verifier::truncate] (transfer_length as u32)),
            false,
        ).0,
        r == trb_phys_of(old(ring).model(), old(ring).model().enqueue_index as int),
{
    let mut normal = NormalTrb::new();
    normal.set_data_buffer(buffer);
    normal.set_transfer_length(#[verifier::truncate] (transfer_length as u32));
    normal.set_interrupt_on_completion(true);
    normal.set_interrupt_on_short_packet(true);
    normal.set_chain(false);
    normal.set_interrupter_target(interrupter_target);
    proof {
        lemma_transfer_trb_types(0, 0, 0);
    }
    match ring.enqueue(*normal.raw()) {
        Ok(phys) => phys,
        Err(_) => 0,
    }
}

/// The endpoint of device context index 1, the default control endpoint.
pub const EP0_DCI: u8 = 1;
/// The highest device context index.
pub const MAX_DCI: u8 = 31;

/// A device in an xHCI slot: a transfer ring for each configured endpoint
/// (by device context index), the root hub port and slot it sits on, the
/// status stage TRB of the descriptor read the driver issued for itself,
/// and the outstanding transfers, each known by the TRB whose completion
/// ends it and standing for the request by its number.
pub struct XhciDevice {
    transfer_rings: Vec<Option<TransferRing>>,
    port: u8,
    slot_id: u8,
    descriptor_probe_trb: Option<u64>,
    pending_requests: Vec<(u64, u64)>,
}

impl XhciDevice {
    /// The rings by device context index.
    pub closed spec fn rings(&self) -> Seq<Option<RingModel>> {
        self.transfer_rings@.map_values(|o: Option<TransferRing>| match o {
            Some(r) => Some(r.model()),
            None => None,
        })
    }

    /// The root hub port the device is attached to.
    pub closed spec fn on_port(&self) -> u8 {
        self.port
    }

    /// The slot the controller gave the device.
    pub closed spec fn in_slot(&self) -> u8 {
        self.slot_id
    }

    /// The outstanding transfers: TRB address to request.
    pub closed spec fn pending(&self) -> Map<u64, u64> {
        pairs_map(self.pending_requests@)
    }

    /// The status stage TRB of the driver's own descriptor read, if one is
    /// outstanding.
    pub closed spec fn probe(&self) -> Option<u64> {
        self.descriptor_probe_trb
    }

    /// One ring per context index up to 31, every ring open to the producer,
    /// and no TRB that two transfers wait on.
    pub closed spec fn wf(&self) -> bool {
        &&& self.transfer_rings@.len() == MAX_DCI + 1
        &&& forall|i: int| 0 <= i < self.transfer_rings@.len() && (#[trigger] self.transfer_rings@[i]) is Some
            ==> ring_can_enqueue(self.transfer_rings@[i]->0.model())
        &&& keys_unique(self.pending_requests@)
    }

    /// Whether the ring at `dci` accepts TRBs: a shorthand for contracts.
    pub open spec fn ring_ok(&self, dci: int) -> bool {
        0 <= dci < self.rings().len() && self.rings()[dci] is Some
    }

    /// A device on `port` in `slot_id` with only its default control
    /// endpoint's ring.
    pub fn new(ep0_transfer_ring: TransferRing, port: u8, slot_id: u8) -> (r: Self)
        requires
            ring_can_enqueue(ep0_transfer_ring.model()),
        ensures
            r.wf(),
            r.on_port() == port,
            r.in_slot() == slot_id,
            r.rings().len() == 32,
            r.rings()[1] == Some(ep0_transfer_ring.model()),
            forall|i: int| 0 <= i < 32 && i != 1 ==> r.rings()[i] is None,
            r.pending() == Map::<u64, u64>::empty(),
            r.probe() is None,
    {
        let ghost model = ep0_transfer_ring.model();
        let mut transfer_rings: Vec<Option<TransferRing>> = Vec::new();
        transfer_rings.push(None);
        transfer_rings.push(Some(ep0_transfer_ring));
        let mut i: usize = 0;
        while i < MAX_DCI as usize + 1 - 2
            invariant
                i <= 30,
                transfer_rings@.len() == i + 2,
                transfer_rings@[0] is None,
                transfer_rings@[1] == Some(ep0_transfer_ring),
                forall|j: int| 2 <= j < transfer_rings@.len() ==> transfer_rings@[j] is None,
                ep0_transfer_ring.model() == model,
            decreases 30 - i,
        {
            transfer_rings.push(None);
            i = i + 1;
        }
        let r = XhciDevice {
            transfer_rings,
            port,
            slot_id,
            descriptor_probe_trb: None,
            pending_requests: Vec::new(),
        };
        assert(pairs_map(r.pending_requests@) =~= Map::<u64, u64>::empty());
        r
    }

    /// The root hub port.
    pub fn port(&self) -> (r: u8)
        ensures
            r == self.on_port(),
    {
        self.port
    }

    /// The slot ID.
    pub fn slot_id(&self) -> (r: u8)
        ensures
            r == self.in_slot(),
    {
        self.slot_id
    }

    /// Remembers that the transfer ending with the TRB at `trb` belongs to
    /// `request`, in place of any request that was known for that TRB.
    pub fn insert_pending(&mut self, trb: u64, request: u64)
        requires
            old(self).wf(),
        ensures
            final(self).wf(),
            final(self).pending() == old(self).pending().insert(trb, request),
            final(self).rings() == old(self).rings(),
            final(self).probe() == old(self).probe(),
            final(self).on_port() == old(self).on_port(),
            final(self).in_slot() == old(self).in_slot(),
    {
        let n = self.pending_requests.len();
        let mut i: usize = 0;
        while i < n
            invariant
                n == self.pending_requests@.len(),
                i <= n,
                *self == *old(self),
                old(self).wf(),
                forall|j: int| 0 <= j < i ==> self.pending_requests@[j].0 != trb,
            decreases n - i,
        {
            if self.pending_requests[i].0 == trb {
                proof {
                    lemma_pairs_update(self.pending_requests@, i as int, request);
                    assert(self.pending_requests@.update(i as int, (trb, request)) == self.pending_requests@.update(
                        i as int,
                        (self.pending_requests@[i as int].0, request),
                    ));
                }
                self.pending_requests.set(i, (trb, request));
                return;
            }
            i = i + 1;
        }
        self.pending_requests.push((trb, request));
        assert(self.pending_requests@.drop_last() =~= old(self).pending_requests@);
    }

    /// Takes out the request waiting for the TRB at `trb`, if any.
    pub fn take_pending(&mut self, trb: u64) -> (r: Option<u64>)
        requires
            old(self).wf(),
        ensures
            final(self).wf(),
            r == (if old(self).pending().dom().contains(trb) {
                Some(old(self).pending()[trb])
            } else {
                None::<u64>
            }),
            final(self).pending() == old(self).pending().remove(trb),
            final(self).rings() == old(self).rings(),
            final(self).probe() == old(self).probe(),
            final(self).on_port() == old(self).on_port(),
            final(self).in_slot() == old(self).in_slot(),
    {
        let n = self.pending_requests.len();
        let mut i: usize = 0;
        while i < n
            invariant
                n == self.pending_requests@.len(),
                i <= n,
                *self == *old(self),
                old(self).wf(),
                forall|j: int| 0 <= j < i ==> self.pending_requests@[j].0 != trb,
            decreases n - i,
        {
            if self.pending_requests[i].0 == trb {
                proof {
                    lemma_pairs_value(self.pending_requests@, i as int);
                    lemma_pairs_remove(self.pending_requests@, i as int);
                }
                let (_, request) = self.pending_requests.remove(i);
                return Some(request);
            }
            i = i + 1;
        }
        proof {
            lemma_pairs_contains(self.pending_requests@, trb);
            assert(pairs_map(self.pending_requests@).remove(trb) =~= pairs_map(self.pending_requests@));
        }
        None
    }

    /// Takes out the request of the outstanding transfer with the lowest TRB
    /// address, so that the caller can fail it; `None` when nothing is
    /// outstanding.
    pub fn pop_pending(&mut self) -> (r: Option<u64>)
        requires
            old(self).wf(),
        ensures
            final(self).wf(),
            r is None <==> old(self).pending() == Map::<u64, u64>::empty(),
            r is None ==> final(self).pending() == old(self).pending(),
            forall|v: u64| r == Some(v) ==> exists|k: u64| {
                &&& #[trigger] old(self).pending().dom().contains(k)
                &&& old(self).pending()[k] == v
                &&& forall|k2: u64| old(self).pending().dom().contains(k2) ==> k <= k2
                &&& final(self).pending() == old(self).pending().remove(k)
            },
            final(self).rings() == old(self).rings(),
            final(self).probe() == old(self).probe(),
            final(self).on_port() == old(self).on_port(),
            final(self).in_slot() == old(self).in_slot(),
    {
        let n = self.pending_requests.len();
        if n == 0 {
            return None;
        }
        proof {
            lemma_pairs_contains(self.pending_requests@, self.pending_requests@[0].0);
            assert(!(pairs_map(self.pending_requests@) =~= Map::<u64, u64>::empty())) by {
                assert(pairs_map(self.pending_requests@).dom().contains(self.pending_requests@[0].0));
            }
        }
        let mut best: usize = 0;
        let mut i: usize = 1;
        while i < n
            invariant
                n == self.pending_requests@.len(),
                1 <= i <= n,
                *self == *old(self),
                old(self).wf(),
                best < i,
                forall|j: int| 0 <= j < i ==> self.pending_requests@[best as int].0 <= #[trigger] self.pending_requests@[j].0,
            decreases n - i,
        {
            if self.pending_requests[i].0 < self.pending_requests[best].0 {
                best = i;
            }
            i = i + 1;
        }
        let ghost s = self.pending_requests@;
        let ghost k = s[best as int].0;
        proof {
            lemma_pairs_value(s, best as int);
            lemma_pairs_remove(s, best as int);
            assert forall|k2: u64| pairs_map(s).dom().contains(k2) implies k <= k2 by {
                lemma_pairs_contains(s, k2);
                let j = choose|j: int| 0 <= j < s.len() && s[j].0 == k2;
                assert(s[best as int].0 <= s[j].0);
            }
        }
        let (_, request) = self.pending_requests.remove(best);
        assert(self.pending_requests@ == s.remove(best as int));
        assert(old(self).pending().dom().contains(k) && old(self).pending()[k] == request
            && (forall|k2: u64| old(self).pending().dom().contains(k2) ==> k <= k2)
            && self.pending() == old(self).pending().remove(k));
        Some(request)
    }

    /// Records the status stage TRB of the driver's own descriptor read.
    pub fn set_descriptor_probe(&mut self, trb: u64)
        ensures
            final(self).probe() == Some(trb),
            final(self).pending() == old(self).pending(),
            final(self).rings() == old(self).rings(),
            final(self).wf() == old(self).wf(),
            final(self).on_port() == old(self).on_port(),
            final(self).in_slot() == old(self).in_slot(),
    {
        self.descriptor_probe_trb = Some(trb);
    }

    /// Whether the TRB at `trb` ends the driver's own descriptor read; if it
    /// does, that read is no longer outstanding.
    pub fn take_descriptor_probe(&mut self, trb: u64) -> (r: bool)
        ensures
            r == (old(self).probe() == Some(trb)),
            final(self).probe() == (if r { None } else { old(self).probe() }),
            final(self).pending() == old(self).pending(),
            final(self).rings() == old(self).rings(),
            final(self).wf() == old(self).wf(),
            final(self).on_port() == old(self).on_port(),
            final(self).in_slot() == old(self).in_slot(),
    {
        if self.descriptor_probe_trb == Some(trb) {
            self.descriptor_probe_trb = None;
            return true;
        }
        false
    }

    /// Takes the ring at `dci` out of its place, leaving none there.
    fn take_ring(&mut self, dci: usize) -> (r: Option<TransferRing>)
        requires
            old(self).wf(),
            dci < old(self).transfer_rings@.len(),
        ensures
            final(self).transfer_rings@ == old(self).transfer_rings@.update(dci as int, None),
            r == old(self).transfer_rings@[dci as int],
            r matches Some(ring) ==> ring_can_enqueue(ring.model()),
            final(self).pending_requests == old(self).pending_requests,
            final(self).descriptor_probe_trb == old(self).descriptor_probe_trb,
            final(self).port == old(self).port,
            final(self).slot_id == old(self).slot_id,
    {
        let mut slot: Option<TransferRing> = None;
        self.transfer_rings.set_and_swap(dci, &mut slot);
        slot
    }

    /// Puts `ring` back at `dci`, which `take_ring` emptied.
    fn put_ring(&mut self, dci: usize, ring: TransferRing)
        requires
            dci < old(self).transfer_rings@.len(),
            old(self).transfer_rings@.len() == MAX_DCI + 1,
            forall|i: int| 0 <= i < old(self).transfer_rings@.len() && i != dci && (#[trigger] old(self).transfer_rings@[i]) is Some
                ==> ring_can_enqueue(old(self).transfer_rings@[i]->0.model()),
            keys_unique(old(self).pending_requests@),
            ring_can_enqueue(ring.model()),
        ensures
            final(self).wf(),
            final(self).transfer_rings@ == old(self).transfer_rings@.update(dci as int, Some(ring)),
            final(self).pending_requests == old(self).pending_requests,
            final(self).descriptor_probe_trb == old(self).descriptor_probe_trb,
            final(self).port == old(self).port,
            final(self).slot_id == old(self).slot_id,
    {
        self.transfer_rings.set(dci, Some(ring));
    }

    /// Installs the transfer ring of the endpoint at `dci`, replacing any.
    pub fn set_transfer_ring(&mut self, dci: u8, ring: TransferRing)
        requires
            old(self).wf(),
            dci <= MAX_DCI,
            ring_can_enqueue(ring.model()),
        ensures
            final(self).wf(),
            final(self).rings() == old(self).rings().update(dci as int, Some(ring.model())),
            final(self).pending() == old(self).pending(),
            final(self).probe() == old(self).probe(),
            final(self).on_port() == old(self).on_port(),
            final(self).in_slot() == old(self).in_slot(),
    {
        self.put_ring(dci as usize, ring);
        assert(self.rings() =~= old(self).rings().update(dci as int, Some(ring.model())));
    }

    /// Queues a control transfer on the default control endpoint and gives
    /// the address of its status stage TRB, the TRB that the transfer event
    /// will name. A data stage needs a buffer, and the endpoint needs a
    /// ring: otherwise [`RingError::Unsupported`], and nothing is queued.
    pub fn ep0_issue_request(
        &mut self,
        interrupter_target: u16,
        bm_request_type: u8,
        b_request: u8,
        transfer_length: usize,
        w_value: u16,
        w_index: u16,
        buffer_phys: Option<u64>,
    ) -> (r: Result<u64, RingError>)
        requires
            old(self).wf(),
        ensures
            final(self).wf(),
            (transfer_length > 0 && buffer_phys is None) || !old(self).ring_ok(EP0_DCI as int) ==> {
                &&& r == Err::<u64, RingError>(RingError::Unsupported)
                &&& final(self).rings() == old(self).rings()
            },
            !(transfer_length > 0 && buffer_phys is None) && old(self).ring_ok(EP0_DCI as int) ==> {
                let trbs = control_request_trbs(
                    interrupter_target,
                    bm_request_type,
                    b_request,
                    transfer_length,
                    w_value,
                    w_index,
                    if transfer_length > 0 { buffer_phys->0 } else { 0 },
                );
                let m = old(self).rings()[EP0_DCI as int]->0;
                &&& r == Ok::<u64, RingError>(last_trb_phys(m, trbs))
                &&& final(self).rings() == old(self).rings().update(EP0_DCI as int, Some(enqueue_all(m, trbs)))
            },
            final(self).pending() == old(self).pending(),
            final(self).probe() == old(self).probe(),
            final(self).on_port() == old(self).on_port(),
            final(self).in_slot() == old(self).in_slot(),
    {
        let has_data = transfer_length > 0;
        let data_buffer_phys: u64 = if has_data {
            match buffer_phys {
                Some(phys) => phys,
                None => return Err(RingError::Unsupported),
            }
        } else {
            0
        };
        let dci = EP0_DCI as usize;
        match self.take_ring(dci) {
            Some(mut ring) => {
                let status_phys = enqueue_control_request(
                    &mut ring,
                    interrupter_target,
                    bm_request_type,
                    b_request,
                    transfer_length,
                    w_value,
                    w_index,
                    data_buffer_phys,
                );
                self.put_ring(dci, ring);
                assert(self.rings() =~= old(self).rings().update(dci as int, Some(ring.model())));
                Ok(status_phys)
            },
            None => {
                assert(self.transfer_rings@ =~= old(self).transfer_rings@);
                Err(RingError::Unsupported)
            },
        }
    }

    /// Queues a bulk or interrupt transfer on the endpoint at `dci` and
    /// gives the address of its normal TRB; without a buffer the TRB points
    /// at address 0. An endpoint without a ring gives
    /// [`RingError::Unsupported`], and nothing is queued.
    pub fn issue_normal_transfer(
        &mut self,
        interrupter_target: u16,
        dci: u8,
        dma_buf: Option<u64>,
        transfer_length: usize,
    ) -> (r: Result<u64, RingError>)
        requires
            old(self).wf(),
        ensures
            final(self).wf(),
            !old(self).ring_ok(dci as int) ==> {
                &&& r == Err::<u64, RingError>(RingError::Unsupported)
                &&& final(self).rings() == old(self).rings()
            },
            old(self).ring_ok(dci as int) ==> {
                let m = old(self).rings()[dci as int]->0;
                let trb = normal_trb(
                    interrupter_target,
                    if dma_buf is Some { dma_buf->0 } else { 0 },
                    #[verifier::truncate] (transfer_length as u32),
                );
                &&& r == Ok::<u64, RingError>(trb_phys_of(m, m.enqueue_index as int) as u64)
                &&& final(self).rings() == old(self).rings().update(dci as int, Some(spec_enqueue(m, trb, false).0))
            },
            final(self).pending() == old(self).pending(),
            final(self).probe() == old(self).probe(),
            final(self).on_port() == old(self).on_port(),
            final(self).in_slot() == old(self).in_slot(),
    {
        let index = dci as usize;
        if index >= self.transfer_rings.len() {
            return Err(RingError::Unsupported);
        }
        let buf_addr: u64 = match dma_buf {
            Some(addr) => addr,
            None => 0,
        };
        match self.take_ring(index) {
            Some(mut ring) => {
                let phys = enqueue_normal_transfer(&mut ring, interrupter_target, buf_addr, transfer_length);
                self.put_ring(index, ring);
                assert(self.rings() =~= old(self).rings().update(index as int, Some(ring.model())));
                Ok(phys)
            },
            None => {
                assert(self.transfer_rings@ =~= old(self).transfer_rings@);
                Err(RingError::Unsupported)
            },
        }
    }
}

/// What a transfer's completion code makes of it: success and a short
/// packet complete it, a stall stalls it, anything else is an error.
pub fn transfer_status_of(completion_code: u8) -> (r: UsbTransferStatus)
    ensures
        r == if completion_code == 1 || completion_code == 13 {
            UsbTransferStatus::Completed
        } else if completion_code == 6 {
            UsbTransferStatus::Stalled
        } else {
            UsbTransferStatus::Error
        },
{
    if completion_code == TrbCompletionCode::SUCCESS || completion_code == TrbCompletionCode::SHORT_PACKET {
        UsbTransferStatus::Completed
    } else if completion_code == TrbCompletionCode::STALL_ERROR {
        UsbTransferStatus::Stalled
    } else {
        UsbTransferStatus::Error
    }
}

/// Which handler a transfer event goes to, by the type of the TRB it names.
#[derive(Clone, Copy, Debug, PartialEq, Eq, Structural)]
pub enum TransferEventRoute {
    /// A status stage: the end of a control transfer.
    Control,
    /// A normal TRB: the end of a bulk or interrupt transfer.
    Data,
    /// Any other type; an event that names no TRB counts as type 0.
    Unhandled(u8),
}

/// Routes a transfer event naming the TRB at `event_trb`, whose type field
/// reads `type_at_event_trb`.
pub fn route_transfer_event(event_trb: u64, type_at_event_trb: u8) -> (r: TransferEventRoute)
    ensures
        r == if event_trb == 0 {
            TransferEventRoute::Unhandled(0)
        } else if type_at_event_trb == 4 {
            TransferEventRoute::Control
        } else if type_at_event_trb == 1 {
            TransferEventRoute::Data
        } else {
            TransferEventRoute::Unhandled(type_at_event_trb)
        },
{
    let finished = if event_trb == 0 { Trb::TRB_RESERVED0 } else { type_at_event_trb };
    if finished == Trb::TRB_STATUS_STAGE {
        TransferEventRoute::Control
    } else if finished == Trb::TRB_NORMAL {
        TransferEventRoute::Data
    } else {
        TransferEventRoute::Unhandled(finished)
    }
}

/// What a finished control transfer turns out to have been.
#[derive(Clone, Copy, Debug, PartialEq, Eq, Structural)]
pub enum ControlCompletion {
    /// A submitted request, by its number: complete it.
    Request(u64),
    /// The driver's own read of the device descriptor's first bytes.
    DescriptorProbe,
    /// Nothing waited for it.
    Unmatched,
}

/// What follows the driver's read of the control endpoint's packet size.
#[derive(Clone, Copy, Debug, PartialEq, Eq, Structural)]
pub enum ProbeOutcome {
    /// The read failed: give the slot up.
    DisableSlot,
    /// Nothing to correct, or nothing usable reported: hand the device on.
    Register,
    /// Program this packet size into the endpoint context and evaluate it.
    EvaluateContext(u32),
}

/// The step after the packet size read ended with `status`: the device
/// reported `reported` (if the bytes came back), sits on a port of speed
/// `port_speed`, and its endpoint context holds `programmed`.
pub fn max_packet_size_probe_outcome(
    status: UsbTransferStatus,
    reported: Option<u8>,
    port_speed: u8,
    programmed: u32,
) -> (r: ProbeOutcome)
    ensures
        status != UsbTransferStatus::Completed ==> r == ProbeOutcome::DisableSlot,
        status == UsbTransferStatus::Completed ==> r == match reported {
            None => ProbeOutcome::Register,
            Some(value) => {
                let size = if port_speed == 4 {
                    if value == 9 { Some(512u32) } else { None }
                } else if value == 8 || value == 16 || value == 32 || value == 64 {
                    Some(value as u32)
                } else {
                    None
                };
                match size {
                    None => ProbeOutcome::Register,
                    Some(mps) => if mps == programmed {
                        ProbeOutcome::Register
                    } else {
                        ProbeOutcome::EvaluateContext(mps)
                    },
                }
            },
        },
{
    if status != UsbTransferStatus::Completed {
        return ProbeOutcome::DisableSlot;
    }
    let max_packet_size = match reported {
        Some(value) => max_packet_size_0(port_speed, value),
        None => None,
    };
    match max_packet_size {
        None => ProbeOutcome::Register,
        Some(mps) => if mps == programmed {
            ProbeOutcome::Register
        } else {
            ProbeOutcome::EvaluateContext(mps)
        },
    }
}

/// Why a request could not be submitted.
#[derive(Clone, Copy, Debug, PartialEq, Eq, Structural)]
pub enum SubmitError {
    /// A request for endpoint 0 came without a setup packet.
    MissingSetupPacket,
    /// Its TRBs could not be queued.
    EnqueueFailed,
}

impl SubmitError {
    /// The message the host controller interface reports.
    pub fn message(&self) -> (r: &'static str)
        ensures
            r@ == match self {
                SubmitError::MissingSetupPacket => "Cannot issue request - ep0 specified and no setup packet provided."@,
                SubmitError::EnqueueFailed => "Failed to enqueue the transfer TRBs."@,
            },
    {
        match self {
            SubmitError::MissingSetupPacket => "Cannot issue request - ep0 specified and no setup packet provided.",
            SubmitError::EnqueueFailed => "Failed to enqueue the transfer TRBs.",
        }
    }
}

/// What a submitted request became.
#[derive(Clone, Copy, Debug, PartialEq, Eq, Structural)]
pub enum SubmitOutcome {
    /// Its TRBs are on the ring of `dci`, the last at `trb`: ring that
    /// endpoint's doorbell.
    Queued { dci: u8, trb: u64 },
    /// A SET_CONFIGURATION: its endpoints are configured first, and the port
    /// waits for that.
    PendingSetConfiguration,
}

impl XhciDevice {
    /// A control transfer ending with the TRB at `event_trb` finished: both
    /// the request waiting for it and the driver's own descriptor read are
    /// looked up and taken out; a request comes first.
    pub fn control_transfer_completed(&mut self, event_trb: u64) -> (r: ControlCompletion)
        requires
            old(self).wf(),
        ensures
            final(self).wf(),
            r == if old(self).pending().dom().contains(event_trb) {
                ControlCompletion::Request(old(self).pending()[event_trb])
            } else if old(self).probe() == Some(event_trb) {
                ControlCompletion::DescriptorProbe
            } else {
                ControlCompletion::Unmatched
            },
            final(self).pending() == old(self).pending().remove(event_trb),
            final(self).probe() == (if old(self).probe() == Some(event_trb) { None } else { old(self).probe() }),
            final(self).rings() == old(self).rings(),
            final(self).on_port() == old(self).on_port(),
            final(self).in_slot() == old(self).in_slot(),
    {
        let pending = self.take_pending(event_trb);
        let is_descriptor_probe = self.take_descriptor_probe(event_trb);
        match pending {
            Some(request) => ControlCompletion::Request(request),
            None => if is_descriptor_probe {
                ControlCompletion::DescriptorProbe
            } else {
                ControlCompletion::Unmatched
            },
        }
    }

    /// Submits `request`, known as `request_id`, on the interrupter
    /// `interrupter_target`: a request for endpoint 0 needs its setup
    /// packet; a SET_CONFIGURATION is held back for the endpoint
    /// configuration; anything else is queued, on endpoint 0 as a control
    /// transfer and elsewhere as a normal TRB, and remembered as waiting for
    /// its last TRB.
    pub fn submit_request(&mut self, interrupter_target: u16, request: &UsbTransferRequest, request_id: u64) -> (r: Result<SubmitOutcome, SubmitError>)
        requires
            old(self).wf(),
        ensures
            final(self).wf(),
            final(self).probe() == old(self).probe(),
            final(self).on_port() == old(self).on_port(),
            final(self).in_slot() == old(self).in_slot(),
            ({
                let dci = (if request.endpoint_address & 0x0F == 0 {
                    1
                } else {
                    2 * (request.endpoint_address & 0x0F) + if request.endpoint_address & 0x80 != 0 { 1int } else { 0 }
                });
                let len = request.data_buffer_length;
                let buf = request.dma_buffer;
                if dci == 1 {
                    match request.setup_packet {
                        None => r == Err::<SubmitOutcome, SubmitError>(SubmitError::MissingSetupPacket)
                            && *final(self) == *old(self),
                        Some(setup) => if setup.b_request == 0x09 {
                            r == Ok::<SubmitOutcome, SubmitError>(SubmitOutcome::PendingSetConfiguration)
                                && *final(self) == *old(self)
                        } else if (len > 0 && buf is None) || !old(self).ring_ok(1) {
                            r == Err::<SubmitOutcome, SubmitError>(SubmitError::EnqueueFailed)
                                && final(self).rings() == old(self).rings()
                                && final(self).pending() == old(self).pending()
                        } else {
                            let trbs = control_request_trbs(
                                interrupter_target,
                                setup.bm_request_type,
                                setup.b_request,
                                len,
                                setup.w_value,
                                setup.w_index,
                                if len > 0 { buf->0 } else { 0 },
                            );
                            let m = old(self).rings()[1]->0;
                            let trb = last_trb_phys(m, trbs);
                            &&& r == Ok::<SubmitOutcome, SubmitError>(SubmitOutcome::Queued { dci: 1, trb })
                            &&& final(self).rings() == old(self).rings().update(1, Some(enqueue_all(m, trbs)))
                            &&& final(self).pending() == old(self).pending().insert(trb, request_id)
                        },
                    }
                } else if !old(self).ring_ok(dci) {
                    r == Err::<SubmitOutcome, SubmitError>(SubmitError::EnqueueFailed)
                        && final(self).rings() == old(self).rings()
                        && final(self).pending() == old(self).pending()
                } else {
                    let m = old(self).rings()[dci]->0;
                    let normal = normal_trb(
                        interrupter_target,
                        if buf is Some { buf->0 } else { 0 },
                        #[verifier::truncate] (len as u32),
                    );
                    let trb = trb_phys_of(m, m.enqueue_index as int) as u64;
                    &&& r == Ok::<SubmitOutcome, SubmitError>(SubmitOutcome::Queued { dci: dci as u8, trb })
                    &&& final(self).rings() == old(self).rings().update(dci, Some(spec_enqueue(m, normal, false).0))
                    &&& final(self).pending() == old(self).pending().insert(trb, request_id)
                }
            }),
    {
        let dci = xhci_endpoint_address_to_dci(request.endpoint_address);
        let issued = if dci == EP0_DCI {
            let setup = match request.setup_packet {
                Some(setup) => setup,
                None => return Err(SubmitError::MissingSetupPacket),
            };
            if setup.b_request == 0x09 {
                return Ok(SubmitOutcome::PendingSetConfiguration);
            }
            self.ep0_issue_request(
                interrupter_target,
                setup.bm_request_type,
                setup.b_request,
                request.data_buffer_length,
                setup.w_value,
                setup.w_index,
                request.dma_buffer,
            )
        } else {
            self.issue_normal_transfer(interrupter_target, dci, request.dma_buffer, request.data_buffer_length)
        };
        let trb = match issued {
            Ok(trb) => trb,
            Err(_) => return Err(SubmitError::EnqueueFailed),
        };
        self.insert_pending(trb, request_id);
        Ok(SubmitOutcome::Queued { dci, trb })
    }
}

/// The direction bit (bit 16) of a data or status stage TRB.
pub open spec fn stage_direction(trb: Trb) -> u32 {
    get_field32(trb.control, 0x10000, 16)
}

/// The direction bits and interrupt on completion bits of the stages.
proof fn lemma_stage_bits(trt: u32, d: u32)
    by (bit_vector)
    requires
        trt <= 3,
        d <= 1,
    ensures
        get_field32(
            set_bits32(
                set_bits32(set_bits32(set_field32(place_field32(0, 0xFC00, 10, 3), 0x10000, 16, d), 0x10, false), 0x20, false),
                0x40,
                false,
            ),
            0x10000,
            16,
        ) == d,
        get_field32(
            set_bits32(set_bits32(set_field32(place_field32(0, 0xFC00, 10, 4), 0x10000, 16, d), 0x10, false), 0x20, true),
            0x10000,
            16,
        ) == d,
        set_bits32(set_bits32(set_field32(place_field32(0, 0xFC00, 10, 4), 0x10000, 16, d), 0x10, false), 0x20, true) & 0x20 != 0,
        set_bits32(
            set_bits32(set_bits32(set_field32(place_field32(0, 0xFC00, 10, 3), 0x10000, 16, d), 0x10, false), 0x20, false),
            0x40,
            false,
        ) & 0x20 == 0,
        set_bits32(
            set_bits32(place_field32(set_bits32(place_field32(0, 0xFC00, 10, 2), 0x40, true), 0x30000, 16, trt), 0x20, false),
            0x40,
            true,
        ) & 0x20 == 0,
{
}

/// A control request goes out as a setup stage, a data stage exactly when
/// there are bytes to move, in the request's direction, and a status stage
/// in the opposite direction (IN where there is no data stage); only the
/// status stage interrupts on completion.
pub proof fn law_control_request_stages(
    target: u16,
    bm_request_type: u8,
    b_request: u8,
    length: usize,
    w_value: u16,
    w_index: u16,
    buffer: u64,
)
    ensures
        ({
            let trbs = control_request_trbs(target, bm_request_type, b_request, length, w_value, w_index, buffer);
            let is_in = bm_request_type & 0x80 != 0;
            &&& trbs.len() == if length > 0 { 3int } else { 2int }
            &&& trb_type_of(trbs[0].control) == 2
            &&& !has_bits32(trbs[0].control, 0x20)
            &&& length > 0 ==> {
                &&& trb_type_of(trbs[1].control) == 3
                &&& stage_direction(trbs[1]) == if is_in { 1u32 } else { 0u32 }
                &&& !has_bits32(trbs[1].control, 0x20)
                &&& trbs[1].parameter == buffer
            }
            &&& trb_type_of(trbs.last().control) == 4
            &&& stage_direction(trbs.last()) == if length > 0 && is_in { 0u32 } else { 1u32 }
            &&& has_bits32(trbs.last().control, 0x20)
        }),
{
    let has_data = length > 0;
    let is_in = bm_request_type & 0x80 != 0;
    let trt = setup_transfer_type_value(setup_trt(has_data, is_in));
    let d: u8 = if is_in { 1 } else { 0 };
    let sd: u8 = if has_data && is_in { 0 } else { 1 };
    lemma_transfer_trb_types(trt, d as u32, sd as u32);
    lemma_stage_bits(trt, d as u32);
    lemma_stage_bits(trt, sd as u32);
}

/// A request remembered for a TRB is the one given back when that TRB
/// completes, and the others stay as they were.
pub proof fn law_pending_insert_then_take(pending: Map<u64, u64>, trb: u64, request: u64)
    ensures
        pending.insert(trb, request).dom().contains(trb),
        pending.insert(trb, request)[trb] == request,
        pending.insert(trb, request).remove(trb) == pending.remove(trb),
{
    assert(pending.insert(trb, request).remove(trb) =~= pending.remove(trb));
}

/// Whether `v` is the value of some key of `m`.
pub open spec fn is_value_of(m: Map<u64, u64>, v: u64) -> bool {
    exists|k: u64| m.dom().contains(k) && m[k] == v
}

impl XhciDevice {
    /// Takes out every outstanding request, lowest TRB address first, so
    /// that the caller can fail them all before the device goes away.
    pub fn drain_pending(&mut self) -> (r: Vec<u64>)
        requires
            old(self).wf(),
        ensures
            final(self).wf(),
            final(self).pending() == Map::<u64, u64>::empty(),
            old(self).pending().dom().finite(),
            r@.len() == old(self).pending().dom().len(),
            forall|k: u64| old(self).pending().dom().contains(k) ==> r@.contains(old(self).pending()[k]),
            forall|i: int| 0 <= i < r@.len() ==> is_value_of(old(self).pending(), #[trigger] r@[i]),
            final(self).rings() == old(self).rings(),
            final(self).probe() == old(self).probe(),
            final(self).on_port() == old(self).on_port(),
            final(self).in_slot() == old(self).in_slot(),
    {
        let ghost start = self.pending();
        proof {
            lemma_pairs_len(self.pending_requests@);
        }
        let mut taken: Vec<u64> = Vec::new();
        loop
            invariant_except_break
                self.wf(),
                self.pending().dom().finite(),
                self.pending().dom().len() + taken@.len() == start.dom().len(),
                forall|k: u64| #[trigger] self.pending().dom().contains(k) ==> start.dom().contains(k) && self.pending()[k] == start[k],
                forall|k: u64| start.dom().contains(k) && !self.pending().dom().contains(k) ==> taken@.contains(start[k]),
                forall|i: int| 0 <= i < taken@.len() ==> is_value_of(start, #[trigger] taken@[i]),
                self.rings() == old(self).rings(),
                self.probe() == old(self).probe(),
                self.on_port() == old(self).on_port(),
                self.in_slot() == old(self).in_slot(),
                start == old(self).pending(),
                start.dom().finite(),
            ensures
                self.wf(),
                self.pending() == Map::<u64, u64>::empty(),
                taken@.len() == start.dom().len(),
                forall|k: u64| start.dom().contains(k) ==> taken@.contains(start[k]),
                forall|i: int| 0 <= i < taken@.len() ==> is_value_of(start, #[trigger] taken@[i]),
                self.rings() == old(self).rings(),
                self.probe() == old(self).probe(),
                self.on_port() == old(self).on_port(),
                self.in_slot() == old(self).in_slot(),
            decreases self.pending().dom().len(),
        {
            let ghost before = self.pending();
            let ghost n_before = self.pending_requests@.len();
            match self.pop_pending() {
                None => {
                    assert(before.dom() =~= Set::<u64>::empty());
                    assert forall|k2: u64| start.dom().contains(k2) implies taken@.contains(start[k2]) by {
                        assert(!self.pending().dom().contains(k2));
                    }
                    break;
                },
                Some(request) => {
                    let ghost k = choose|k: u64| {
                        &&& #[trigger] before.dom().contains(k)
                        &&& before[k] == request
                        &&& forall|k2: u64| before.dom().contains(k2) ==> k <= k2
                        &&& self.pending() == before.remove(k)
                    };
                    proof {
                        lemma_pairs_len(self.pending_requests@);
                        assert(self.pending().dom() =~= before.dom().remove(k));
                    }
                    let ghost taken_before = taken@;
                    taken.push(request);
                    assert forall|k2: u64| start.dom().contains(k2) && !self.pending().dom().contains(k2) implies taken@.contains(start[k2]) by {
                        if k2 == k {
                            assert(taken@[taken@.len() - 1] == start[k2]);
                        } else {
                            assert(!before.dom().contains(k2));
                            let j = choose|j: int| 0 <= j < taken_before.len() && taken_before[j] == start[k2];
                            assert(taken@[j] == start[k2]);
                        }
                    }
                    assert forall|i: int| 0 <= i < taken@.len() implies is_value_of(start, #[trigger] taken@[i]) by {
                        if i == taken@.len() - 1 {
                            assert(start.dom().contains(k) && start[k] == taken@[i]);
                        } else {
                            assert(taken@[i] == taken_before[i]);
                        }
                    }
                },
            }
        }
        taken
    }
}

/// Which handler an event goes to, by its TRB type.
#[derive(Clone, Copy, Debug, PartialEq, Eq, Structural)]
pub enum EventRoute {
    PortStatusChange,
    CommandCompletion,
    Transfer,
    Other(u8),
}

/// Routes an event TRB of type `trb_type`.
pub fn route_event(trb_type: u8) -> (r: EventRoute)
    ensures
        r == if trb_type == 34 {
            EventRoute::PortStatusChange
        } else if trb_type == 33 {
            EventRoute::CommandCompletion
        } else if trb_type == 32 {
            EventRoute::Transfer
        } else {
            EventRoute::Other(trb_type)
        },
{
    if trb_type == Trb::TRB_PORT_STATUS_CHANGE_EVENT {
        EventRoute::PortStatusChange
    } else if trb_type == Trb::TRB_COMMAND_COMPLETION_EVENT {
        EventRoute::CommandCompletion
    } else if trb_type == Trb::TRB_TRANSFER_EVENT {
        EventRoute::Transfer
    } else {
        EventRoute::Other(trb_type)
    }
}

/// Which handler a command's completion goes to, by the type of the
/// command TRB it names.
#[derive(Clone, Copy, Debug, PartialEq, Eq, Structural)]
pub enum CommandRoute {
    EnableSlot,
    AddressDevice,
    DisableSlot,
    EvaluateContext,
    ConfigureEndpoint,
    /// A command the driver does not handle.
    Unhandled(u8),
    /// The TRB named is no command at all.
    NotACommand(u8),
}

/// Routes the completion of the command whose TRB has type `command_type`.
pub fn route_command_completion(command_type: u8) -> (r: CommandRoute)
    ensures
        r == if !(9 <= command_type <= 31) {
            CommandRoute::NotACommand(command_type)
        } else if command_type == 9 {
            CommandRoute::EnableSlot
        } else if command_type == 11 {
            CommandRoute::AddressDevice
        } else if command_type == 10 {
            CommandRoute::DisableSlot
        } else if command_type == 13 {
            CommandRoute::EvaluateContext
        } else if command_type == 12 {
            CommandRoute::ConfigureEndpoint
        } else {
            CommandRoute::Unhandled(command_type)
        },
{
    if !(command_type >= 9 && command_type <= 31) {
        CommandRoute::NotACommand(command_type)
    } else if command_type == Trb::TRB_ENABLE_SLOT_COMMAND {
        CommandRoute::EnableSlot
    } else if command_type == Trb::TRB_ADDRESS_DEVICE_COMMAND {
        CommandRoute::AddressDevice
    } else if command_type == Trb::TRB_DISABLE_SLOT_COMMAND {
        CommandRoute::DisableSlot
    } else if command_type == Trb::TRB_EVALUATE_CONTEXT_COMMAND {
        CommandRoute::EvaluateContext
    } else if command_type == Trb::TRB_CONFIGURE_ENDPOINT_COMMAND {
        CommandRoute::ConfigureEndpoint
    } else {
        CommandRoute::Unhandled(command_type)
    }
}

impl XhciDevice {
    /// Configure Endpoint, issued with the TRB at `command_trb` for the
    /// SET_CONFIGURATION request remembered under that TRB, completed with
    /// `completion_code`. On success the request is taken out and, where the
    /// port still waits for it (`port_pending`), its setup packet `setup`
    /// goes out on the default control endpoint without a data stage and the
    /// request waits for that transfer's status stage, whose address is
    /// given back; a failed command changes nothing.
    pub fn on_endpoint_configured(
        &mut self,
        interrupter_target: u16,
        completion_code: u8,
        command_trb: u64,
        port_pending: bool,
        setup: UsbSetupPacket,
    ) -> (r: Option<u64>)
        requires
            old(self).wf(),
            completion_code == 1 ==> old(self).pending().dom().contains(command_trb),
            completion_code == 1 && port_pending ==> old(self).ring_ok(1),
        ensures
            final(self).wf(),
            final(self).probe() == old(self).probe(),
            final(self).on_port() == old(self).on_port(),
            final(self).in_slot() == old(self).in_slot(),
            completion_code != 1 ==> r is None && *final(self) == *old(self),
            completion_code == 1 && !port_pending ==> {
                &&& r is None
                &&& final(self).pending() == old(self).pending().remove(command_trb)
                &&& final(self).rings() == old(self).rings()
            },
            completion_code == 1 && port_pending ==> {
                let trbs = control_request_trbs(
                    interrupter_target,
                    setup.bm_request_type,
                    setup.b_request,
                    0,
                    setup.w_value,
                    setup.w_index,
                    0,
                );
                let m = old(self).rings()[1]->0;
                let trb = last_trb_phys(m, trbs);
                &&& r == Some(trb)
                &&& final(self).rings() == old(self).rings().update(1, Some(enqueue_all(m, trbs)))
                &&& final(self).pending() == old(self).pending().remove(command_trb).insert(
                    trb,
                    old(self).pending()[command_trb],
                )
            },
    {
        if completion_code != TrbCompletionCode::SUCCESS {
            return None;
        }
        let request = match self.take_pending(command_trb) {
            Some(request) => request,
            None => {
                proof {
                    assert(false);
                }
                return None;
            },
        };
        if !port_pending {
            return None;
        }
        let issued = self.ep0_issue_request(
            interrupter_target,
            setup.bm_request_type,
            setup.b_request,
            0,
            setup.w_value,
            setup.w_index,
            None,
        );
        match issued {
            Ok(trb) => {
                self.insert_pending(trb, request);
                Some(trb)
            },
            Err(_) => {
                proof {
                    assert(false);
                }
                None
            },
        }
    }
}

} // verus!
