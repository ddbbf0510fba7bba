//! The lines in which a configuration tree is listed: the configuration,
//! its other descriptors, then each interface with its class specific
//! descriptors and its endpoints. Turning a line into text is the caller's.
use vstd::prelude::*;
use crate::usb::descriptors::{
    bytes_seqs, ConfigurationDescriptor, ConfigurationModel, EndpointDescriptor,
    InterfaceDescriptor, InterfaceModel, UsbConfigurationTree, UsbInterfaceTree,
};

verus! {

/// The transfer type in the low two bits of an endpoint's attributes.
#[derive(Clone, Copy, Debug, PartialEq, Eq, Structural)]
pub enum EndpointTransfer {
    Control,
    Isochronous,
    Bulk,
    Interrupt,
}

/// One line of a configuration tree's listing.
#[derive(Clone, Copy, Debug, PartialEq, Eq, Structural)]
pub enum ListingLine {
    /// The configuration's value, the power it draws in mA and its number
    /// of interfaces.
    Configuration { value: u8, power_ma: u16, interfaces: u8 },
    /// A descriptor that came before the first interface.
    OtherDescriptor { descriptor_type: u8, length: usize },
    Interface { number: u8, alternate: u8, class: u8, sub_class: u8, protocol: u8 },
    /// A descriptor that came after an interface and before its endpoints.
    ClassSpecific { descriptor_type: u8, length: usize },
    /// An endpoint: its number, whether data flows to the host, its
    /// transfer type, its largest packet and its polling interval.
    Endpoint {
        number: u8,
        device_to_host: bool,
        transfer: EndpointTransfer,
        max_packet: u16,
        interval: u8,
    },
}

/// The type byte of the descriptor `d`; 0 where it is shorter than two bytes.
pub open spec fn descriptor_type_of(d: Seq<u8>) -> u8 {
    if d.len() > 1 {
        d[1]
    } else {
        0
    }
}

/// The transfer type that the attribute byte `attributes` names.
pub open spec fn transfer_of(attributes: u8) -> EndpointTransfer {
    let t = attributes % 4;
    if t == 0 {
        EndpointTransfer::Control
    } else if t == 1 {
        EndpointTransfer::Isochronous
    } else if t == 2 {
        EndpointTransfer::Bulk
    } else {
        EndpointTransfer::Interrupt
    }
}

/// The line of the configuration descriptor `c`; its power is given in
/// units of 2 mA.
pub open spec fn configuration_line(c: ConfigurationDescriptor) -> ListingLine {
    ListingLine::Configuration {
        value: c.b_configuration_value,
        power_ma: (c.b_max_power * 2) as u16,
        interfaces: c.b_num_interfaces,
    }
}

/// The line of the descriptor `d`: a class specific one where
/// `class_specific`, else one that came before the interfaces.
pub open spec fn descriptor_line(d: Seq<u8>, class_specific: bool) -> ListingLine {
    if class_specific {
        ListingLine::ClassSpecific { descriptor_type: descriptor_type_of(d), length: d.len() as usize }
    } else {
        ListingLine::OtherDescriptor { descriptor_type: descriptor_type_of(d), length: d.len() as usize }
    }
}

/// The line of the interface descriptor `i`.
pub open spec fn interface_line(i: InterfaceDescriptor) -> ListingLine {
    ListingLine::Interface {
        number: i.b_interface_number,
        alternate: i.b_alternate_setting,
        class: i.b_interface_class,
        sub_class: i.b_interface_sub_class,
        protocol: i.b_interface_protocol,
    }
}

/// The line of the endpoint descriptor `e`: bits 3:0 of its address are its
/// number, bit 7 its direction.
pub open spec fn endpoint_line(e: EndpointDescriptor) -> ListingLine {
    ListingLine::Endpoint {
        number: (e.b_endpoint_address % 16) as u8,
        device_to_host: e.b_endpoint_address >= 0x80,
        transfer: transfer_of(e.bm_attributes),
        max_packet: e.w_max_packet_size,
        interval: e.b_interval,
    }
}

/// The lines of the descriptors `ds`, in order.
pub open spec fn descriptor_lines(ds: Seq<Seq<u8>>, class_specific: bool) -> Seq<ListingLine> {
    ds.map_values(|d: Seq<u8>| descriptor_line(d, class_specific))
}

/// The lines of the interface `i`: itself, its class specific descriptors,
/// then its endpoints.
pub open spec fn interface_listing(i: InterfaceModel) -> Seq<ListingLine> {
    seq![interface_line(i.0)] + descriptor_lines(i.2, true) + i.1.map_values(
        |e: EndpointDescriptor| endpoint_line(e),
    )
}

/// The lines of the interfaces `s`, one after the other.
pub open spec fn interfaces_listing(s: Seq<InterfaceModel>) -> Seq<ListingLine>
    decreases s.len(),
{
    if s.len() == 0 {
        Seq::empty()
    } else {
        interfaces_listing(s.drop_last()) + interface_listing(s.last())
    }
}

/// The listing of the configuration `m`: its line, the lines of the
/// descriptors before its first interface, then its interfaces.
pub open spec fn configuration_listing(m: ConfigurationModel) -> Seq<ListingLine> {
    seq![configuration_line(m.0)] + descriptor_lines(m.2, false) + interfaces_listing(m.1)
}

fn transfer_from_attributes(attributes: u8) -> (r: EndpointTransfer)
    ensures
        r == transfer_of(attributes),
{
    let t = attributes % 4;
    if t == 0 {
        EndpointTransfer::Control
    } else if t == 1 {
        EndpointTransfer::Isochronous
    } else if t == 2 {
        EndpointTransfer::Bulk
    } else {
        EndpointTransfer::Interrupt
    }
}

fn endpoint_listing_line(e: &EndpointDescriptor) -> (r: ListingLine)
    ensures
        r == endpoint_line(*e),
{
    ListingLine::Endpoint {
        number: e.b_endpoint_address % 16,
        device_to_host: e.b_endpoint_address >= 0x80,
        transfer: transfer_from_attributes(e.bm_attributes),
        max_packet: e.w_max_packet_size,
        interval: e.b_interval,
    }
}

fn descriptor_listing_line(d: &Vec<u8>, class_specific: bool) -> (r: ListingLine)
    ensures
        r == descriptor_line(d@, class_specific),
{
    let descriptor_type = if d.len() > 1 {
        d[1]
    } else {
        0
    };
    if class_specific {
        ListingLine::ClassSpecific { descriptor_type, length: d.len() }
    } else {
        ListingLine::OtherDescriptor { descriptor_type, length: d.len() }
    }
}

/// Appends the lines of the descriptors `ds` to `out`.
fn push_descriptor_lines(ds: &Vec<Vec<u8>>, class_specific: bool, out: &mut Vec<ListingLine>)
    ensures
        final(out)@ == old(out)@ + descriptor_lines(bytes_seqs(ds@), class_specific),
{
    let ghost base = out@;
    let ghost want = descriptor_lines(bytes_seqs(ds@), class_specific);
    let mut i: usize = 0;
    while i < ds.len()
        invariant
            i <= ds@.len(),
            want == descriptor_lines(bytes_seqs(ds@), class_specific),
            want.len() == ds@.len(),
            out@.len() == base.len() + i,
            out@.subrange(0, base.len() as int) == base,
            forall|j: int| 0 <= j < i ==> out@[base.len() + j] == want[j],
        decreases ds@.len() - i,
    {
        let line = descriptor_listing_line(&ds[i], class_specific);
        out.push(line);
        assert(out@.subrange(0, base.len() as int) =~= base);
        i = i + 1;
    }
    assert(out@ =~= base + want);
}

/// Appends the lines of the endpoints `es` to `out`.
fn push_endpoint_lines(es: &Vec<EndpointDescriptor>, out: &mut Vec<ListingLine>)
    ensures
        final(out)@ == old(out)@ + es@.map_values(|e: EndpointDescriptor| endpoint_line(e)),
{
    let ghost base = out@;
    let ghost want = es@.map_values(|e: EndpointDescriptor| endpoint_line(e));
    let mut i: usize = 0;
    while i < es.len()
        invariant
            i <= es@.len(),
            want == es@.map_values(|e: EndpointDescriptor| endpoint_line(e)),
            out@.len() == base.len() + i,
            out@.subrange(0, base.len() as int) == base,
            forall|j: int| 0 <= j < i ==> out@[base.len() + j] == want[j],
        decreases es@.len() - i,
    {
        let line = endpoint_listing_line(&es[i]);
        out.push(line);
        assert(out@.subrange(0, base.len() as int) =~= base);
        i = i + 1;
    }
    assert(out@ =~= base + want);
}

/// Appends the lines of the interface `t` to `out`.
fn push_interface_lines(t: &UsbInterfaceTree, out: &mut Vec<ListingLine>)
    ensures
        final(out)@ == old(out)@ + interface_listing(t@),
{
    let ghost base = out@;
    let i = &t.interface;
    out.push(
        ListingLine::Interface {
            number: i.b_interface_number,
            alternate: i.b_alternate_setting,
            class: i.b_interface_class,
            sub_class: i.b_interface_sub_class,
            protocol: i.b_interface_protocol,
        },
    );
    push_descriptor_lines(&t.other_descriptors, true, out);
    push_endpoint_lines(&t.endpoints, out);
    assert(out@ =~= base + interface_listing(t@));
}

impl UsbConfigurationTree {
    /// The lines in which this tree is listed.
    pub fn listing(&self) -> (r: Vec<ListingLine>)
        ensures
            r@ == configuration_listing(self@),
    {
        let c = &self.configuration;
        let mut out: Vec<ListingLine> = Vec::new();
        out.push(
            ListingLine::Configuration {
                value: c.b_configuration_value,
                power_ma: (c.b_max_power as u16) * 2,
                interfaces: c.b_num_interfaces,
            },
        );
        push_descriptor_lines(&self.other_descriptors, false, &mut out);
        let ghost head = out@;
        let ghost ifaces = self@.1;
        let mut k: usize = 0;
        while k < self.interfaces.len()
            invariant
                k <= self.interfaces@.len(),
                ifaces == self@.1,
                ifaces.len() == self.interfaces@.len(),
                out@ == head + interfaces_listing(ifaces.subrange(0, k as int)),
            decreases self.interfaces@.len() - k,
        {
            let ghost before = out@;
            push_interface_lines(&self.interfaces[k], &mut out);
            proof {
                let s = ifaces.subrange(0, k + 1);
                assert(s.drop_last() =~= ifaces.subrange(0, k as int));
                assert(s.last() == self.interfaces@[k as int]@);
                assert(out@ =~= head + interfaces_listing(s));
            }
            k = k + 1;
        }
        assert(ifaces.subrange(0, ifaces.len() as int) =~= ifaces);
        assert(out@ =~= configuration_listing(self@));
        out
    }
}

} // verus!
