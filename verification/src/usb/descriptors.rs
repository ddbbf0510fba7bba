//! USB descriptors: the device descriptor, and the configuration tree that
//! a configuration descriptor's bytes unfold into.
use vstd::prelude::*;
use crate::bytes::{le16, read_u16_le};
use crate::usb::UsbId;

verus! {

/// The 18-byte device descriptor.
#[derive(Clone, Copy, Debug)]
pub struct UsbDeviceDescriptor {
    pub b_length: u8,
    pub b_descriptor_type: u8,
    pub bcd_usb: u16,
    pub b_device_class: u8,
    pub b_device_subclass: u8,
    pub b_device_protocol: u8,
    pub b_max_packet_size0: u8,
    pub id_vendor: u16,
    pub id_product: u16,
    pub bcd_device: u16,
    pub i_manufacturer: u8,
    pub i_product: u8,
    pub i_serial_number: u8,
    pub b_num_configurations: u8,
}

/// `v` holds the 18-byte record stored in `s` at `off`.
pub open spec fn usb_device_descriptor_at(v: UsbDeviceDescriptor, s: Seq<u8>, off: int) -> bool {
    &&& 0 <= off && off + 18 <= s.len()
    &&& v.b_length == s[off]
    &&& v.b_descriptor_type == s[off + 1]
    &&& v.bcd_usb == le16(s, off + 2)
    &&& v.b_device_class == s[off + 4]
    &&& v.b_device_subclass == s[off + 5]
    &&& v.b_device_protocol == s[off + 6]
    &&& v.b_max_packet_size0 == s[off + 7]
    &&& v.id_vendor == le16(s, off + 8)
    &&& v.id_product == le16(s, off + 10)
    &&& v.bcd_device == le16(s, off + 12)
    &&& v.i_manufacturer == s[off + 14]
    &&& v.i_product == s[off + 15]
    &&& v.i_serial_number == s[off + 16]
    &&& v.b_num_configurations == s[off + 17]
}

impl UsbDeviceDescriptor {
    /// Size of the record in bytes.
    pub const SIZE: usize = 18;

    /// Decodes the record stored in `data` at `off`.
    pub fn read_from(data: &[u8], off: usize) -> (r: UsbDeviceDescriptor)
        requires
            off + 18 <= data@.len(),
        ensures
            usb_device_descriptor_at(r, data@, off as int),
    {
        let _n = data.len();
        UsbDeviceDescriptor {
            b_length: data[off],
            b_descriptor_type: data[off + 1],
            bcd_usb: read_u16_le(data, off + 2),
            b_device_class: data[off + 4],
            b_device_subclass: data[off + 5],
            b_device_protocol: data[off + 6],
            b_max_packet_size0: data[off + 7],
            id_vendor: read_u16_le(data, off + 8),
            id_product: read_u16_le(data, off + 10),
            bcd_device: read_u16_le(data, off + 12),
            i_manufacturer: data[off + 14],
            i_product: data[off + 15],
            i_serial_number: data[off + 16],
            b_num_configurations: data[off + 17],
        }
    }
}

impl UsbDeviceDescriptor {
    pub fn b_length(&self) -> (r: u8)
        ensures
            r == self.b_length,
    {
        self.b_length
    }

    pub fn b_descriptor_type(&self) -> (r: u8)
        ensures
            r == self.b_descriptor_type,
    {
        self.b_descriptor_type
    }

    pub fn bcd_usb(&self) -> (r: u16)
        ensures
            r == self.bcd_usb,
    {
        self.bcd_usb
    }

    pub fn b_device_class(&self) -> (r: u8)
        ensures
            r == self.b_device_class,
    {
        self.b_device_class
    }

    pub fn b_device_subclass(&self) -> (r: u8)
        ensures
            r == self.b_device_subclass,
    {
        self.b_device_subclass
    }

    pub fn b_device_protocol(&self) -> (r: u8)
        ensures
            r == self.b_device_protocol,
    {
        self.b_device_protocol
    }

    pub fn b_max_packet_size0(&self) -> (r: u8)
        ensures
            r == self.b_max_packet_size0,
    {
        self.b_max_packet_size0
    }

    pub fn id_vendor(&self) -> (r: u16)
        ensures
            r == self.id_vendor,
    {
        self.id_vendor
    }

    pub fn id_product(&self) -> (r: u16)
        ensures
            r == self.id_product,
    {
        self.id_product
    }

    pub fn bcd_device(&self) -> (r: u16)
        ensures
            r == self.bcd_device,
    {
        self.bcd_device
    }

    pub fn i_manufacturer(&self) -> (r: u8)
        ensures
            r == self.i_manufacturer,
    {
        self.i_manufacturer
    }

    pub fn i_product(&self) -> (r: u8)
        ensures
            r == self.i_product,
    {
        self.i_product
    }

    pub fn i_serial_number(&self) -> (r: u8)
        ensures
            r == self.i_serial_number,
    {
        self.i_serial_number
    }

    pub fn b_num_configurations(&self) -> (r: u8)
        ensures
            r == self.b_num_configurations,
    {
        self.b_num_configurations
    }

    /// The vendor and product IDs.
    pub fn usb_id(&self) -> (r: UsbId)
        ensures
            r.vendor == self.id_vendor,
            r.product == self.id_product,
    {
        UsbId { vendor: self.id_vendor, product: self.id_product }
    }

    /// Decodes the descriptor at the start of `data`; `None` where fewer
    /// than 18 bytes are given.
    pub fn parse(data: &[u8]) -> (r: Option<UsbDeviceDescriptor>)
        ensures
            r is Some <==> data@.len() >= 18,
            r matches Some(d) ==> usb_device_descriptor_at(d, data@, 0),
    {
        if data.len() < UsbDeviceDescriptor::SIZE {
            return None;
        }
        Some(UsbDeviceDescriptor::read_from(data, 0))
    }
}

/// Descriptor type codes.
pub struct DescriptorType;

impl DescriptorType {
    pub const DEVICE: u8 = 1;
    pub const CONFIGURATION: u8 = 2;
    pub const STRING: u8 = 3;
    pub const INTERFACE: u8 = 4;
    pub const ENDPOINT: u8 = 5;
    pub const HID: u8 = 0x21;
}

/// A configuration descriptor.
#[derive(Clone, Copy, Debug)]
pub struct ConfigurationDescriptor {
    pub b_length: u8,
    pub b_descriptor_type: u8,
    pub w_total_length: u16,
    pub b_num_interfaces: u8,
    pub b_configuration_value: u8,
    pub i_configuration: u8,
    pub bm_attributes: u8,
    pub b_max_power: u8,
}

/// `v` holds the 9-byte record stored in `s` at `off`.
pub open spec fn configuration_descriptor_at(v: ConfigurationDescriptor, s: Seq<u8>, off: int) -> bool {
    &&& 0 <= off && off + 9 <= s.len()
    &&& v.b_length == s[off]
    &&& v.b_descriptor_type == s[off + 1]
    &&& v.w_total_length == le16(s, off + 2)
    &&& v.b_num_interfaces == s[off + 4]
    &&& v.b_configuration_value == s[off + 5]
    &&& v.i_configuration == s[off + 6]
    &&& v.bm_attributes == s[off + 7]
    &&& v.b_max_power == s[off + 8]
}

impl ConfigurationDescriptor {
    /// Size of the record in bytes.
    pub const SIZE: usize = 9;

    /// Decodes the record stored in `data` at `off`.
    pub fn read_from(data: &[u8], off: usize) -> (r: ConfigurationDescriptor)
        requires
            off + 9 <= data@.len(),
        ensures
            configuration_descriptor_at(r, data@, off as int),
    {
        let _n = data.len();
        ConfigurationDescriptor {
            b_length: data[off],
            b_descriptor_type: data[off + 1],
            w_total_length: read_u16_le(data, off + 2),
            b_num_interfaces: data[off + 4],
            b_configuration_value: data[off + 5],
            i_configuration: data[off + 6],
            bm_attributes: data[off + 7],
            b_max_power: data[off + 8],
        }
    }
}

impl ConfigurationDescriptor {
    /// Decodes the descriptor at the start of `data`; `None` where fewer
    /// than 9 bytes are given.
    pub fn parse(data: &[u8]) -> (r: Option<Self>)
        ensures
            r is Some <==> data@.len() >= 9,
            r matches Some(d) ==> configuration_descriptor_at(d, data@, 0),
    {
        if data.len() < 9 {
            return None;
        }
        Some(ConfigurationDescriptor::read_from(data, 0))
    }
}

/// An interface descriptor.
#[derive(Clone, Copy, Debug)]
pub struct InterfaceDescriptor {
    pub b_length: u8,
    pub b_descriptor_type: u8,
    pub b_interface_number: u8,
    pub b_alternate_setting: u8,
    pub b_num_endpoints: u8,
    pub b_interface_class: u8,
    pub b_interface_sub_class: u8,
    pub b_interface_protocol: u8,
    pub i_interface: u8,
}

/// `v` holds the 9-byte record stored in `s` at `off`.
pub open spec fn interface_descriptor_at(v: InterfaceDescriptor, s: Seq<u8>, off: int) -> bool {
    &&& 0 <= off && off + 9 <= s.len()
    &&& v.b_length == s[off]
    &&& v.b_descriptor_type == s[off + 1]
    &&& v.b_interface_number == s[off + 2]
    &&& v.b_alternate_setting == s[off + 3]
    &&& v.b_num_endpoints == s[off + 4]
    &&& v.b_interface_class == s[off + 5]
    &&& v.b_interface_sub_class == s[off + 6]
    &&& v.b_interface_protocol == s[off + 7]
    &&& v.i_interface == s[off + 8]
}

impl InterfaceDescriptor {
    /// Size of the record in bytes.
    pub const SIZE: usize = 9;

    /// Decodes the record stored in `data` at `off`.
    pub fn read_from(data: &[u8], off: usize) -> (r: InterfaceDescriptor)
        requires
            off + 9 <= data@.len(),
        ensures
            interface_descriptor_at(r, data@, off as int),
    {
        let _n = data.len();
        InterfaceDescriptor {
            b_length: data[off],
            b_descriptor_type: data[off + 1],
            b_interface_number: data[off + 2],
            b_alternate_setting: data[off + 3],
            b_num_endpoints: data[off + 4],
            b_interface_class: data[off + 5],
            b_interface_sub_class: data[off + 6],
            b_interface_protocol: data[off + 7],
            i_interface: data[off + 8],
        }
    }
}

impl InterfaceDescriptor {
    /// Decodes the descriptor at the start of `data`; `None` where fewer
    /// than 9 bytes are given.
    pub fn parse(data: &[u8]) -> (r: Option<Self>)
        ensures
            r is Some <==> data@.len() >= 9,
            r matches Some(d) ==> interface_descriptor_at(d, data@, 0),
    {
        if data.len() < 9 {
            return None;
        }
        Some(InterfaceDescriptor::read_from(data, 0))
    }
}

/// An endpoint descriptor.
#[derive(Clone, Copy, Debug)]
pub struct EndpointDescriptor {
    pub b_length: u8,
    pub b_descriptor_type: u8,
    pub b_endpoint_address: u8,
    pub bm_attributes: u8,
    pub w_max_packet_size: u16,
    pub b_interval: u8,
}

/// `v` holds the 7-byte record stored in `s` at `off`.
pub open spec fn endpoint_descriptor_at(v: EndpointDescriptor, s: Seq<u8>, off: int) -> bool {
    &&& 0 <= off && off + 7 <= s.len()
    &&& v.b_length == s[off]
    &&& v.b_descriptor_type == s[off + 1]
    &&& v.b_endpoint_address == s[off + 2]
    &&& v.bm_attributes == s[off + 3]
    &&& v.w_max_packet_size == le16(s, off + 4)
    &&& v.b_interval == s[off + 6]
}

impl EndpointDescriptor {
    /// Size of the record in bytes.
    pub const SIZE: usize = 7;

    /// Decodes the record stored in `data` at `off`.
    pub fn read_from(data: &[u8], off: usize) -> (r: EndpointDescriptor)
        requires
            off + 7 <= data@.len(),
        ensures
            endpoint_descriptor_at(r, data@, off as int),
    {
        let _n = data.len();
        EndpointDescriptor {
            b_length: data[off],
            b_descriptor_type: data[off + 1],
            b_endpoint_address: data[off + 2],
            bm_attributes: data[off + 3],
            w_max_packet_size: read_u16_le(data, off + 4),
            b_interval: data[off + 6],
        }
    }
}

impl EndpointDescriptor {
    /// Decodes the descriptor at the start of `data`; `None` where fewer
    /// than 7 bytes are given.
    pub fn parse(data: &[u8]) -> (r: Option<Self>)
        ensures
            r is Some <==> data@.len() >= 7,
            r matches Some(d) ==> endpoint_descriptor_at(d, data@, 0),
    {
        if data.len() < 7 {
            return None;
        }
        Some(EndpointDescriptor::read_from(data, 0))
    }
}

/// An interface, its endpoints and the class specific descriptors that
/// follow it.
#[derive(Debug, Clone)]
pub struct UsbInterfaceTree {
    pub interface: InterfaceDescriptor,
    pub endpoints: Vec<EndpointDescriptor>,
    pub other_descriptors: Vec<Vec<u8>>,
}

/// A configuration, its interfaces and the descriptors that come before
/// its first interface.
#[derive(Debug, Clone)]
pub struct UsbConfigurationTree {
    pub configuration: ConfigurationDescriptor,
    pub interfaces: Vec<UsbInterfaceTree>,
    pub other_descriptors: Vec<Vec<u8>>,
}

/// An interface as values: its descriptor, its endpoints and its other
/// descriptors' bytes.
pub type InterfaceModel = (InterfaceDescriptor, Seq<EndpointDescriptor>, Seq<Seq<u8>>);

/// A configuration as values: its descriptor, its interfaces and its other
/// descriptors' bytes.
pub type ConfigurationModel = (ConfigurationDescriptor, Seq<InterfaceModel>, Seq<Seq<u8>>);

/// The configuration and the interface that a walk over the descriptors
/// has open.
pub type ParseState = (Option<ConfigurationModel>, Option<InterfaceModel>);

/// The bytes of each descriptor of `v`.
pub open spec fn bytes_seqs(v: Seq<Vec<u8>>) -> Seq<Seq<u8>> {
    v.map_values(|x: Vec<u8>| x@)
}

impl View for UsbInterfaceTree {
    type V = InterfaceModel;

    open spec fn view(&self) -> InterfaceModel {
        (self.interface, self.endpoints@, bytes_seqs(self.other_descriptors@))
    }
}

impl View for UsbConfigurationTree {
    type V = ConfigurationModel;

    open spec fn view(&self) -> ConfigurationModel {
        (
            self.configuration,
            self.interfaces@.map_values(|t: UsbInterfaceTree| t@),
            bytes_seqs(self.other_descriptors@),
        )
    }
}

/// The configuration descriptor held in `c`.
pub open spec fn config_desc_of(c: Seq<u8>) -> ConfigurationDescriptor {
    ConfigurationDescriptor {
        b_length: c[0],
        b_descriptor_type: c[1],
        w_total_length: le16(c, 2) as u16,
        b_num_interfaces: c[4],
        b_configuration_value: c[5],
        i_configuration: c[6],
        bm_attributes: c[7],
        b_max_power: c[8],
    }
}

/// The interface descriptor held in `c`.
pub open spec fn iface_desc_of(c: Seq<u8>) -> InterfaceDescriptor {
    InterfaceDescriptor {
        b_length: c[0],
        b_descriptor_type: c[1],
        b_interface_number: c[2],
        b_alternate_setting: c[3],
        b_num_endpoints: c[4],
        b_interface_class: c[5],
        b_interface_sub_class: c[6],
        b_interface_protocol: c[7],
        i_interface: c[8],
    }
}

/// The endpoint descriptor held in `c`.
pub open spec fn ep_desc_of(c: Seq<u8>) -> EndpointDescriptor {
    EndpointDescriptor {
        b_length: c[0],
        b_descriptor_type: c[1],
        b_endpoint_address: c[2],
        bm_attributes: c[3],
        w_max_packet_size: le16(c, 4) as u16,
        b_interval: c[6],
    }
}

/// What the descriptor `chunk`, of type `t`, does to the walk: a
/// configuration descriptor starts a configuration, an interface
/// descriptor closes the open interface into the configuration and opens
/// its own, an endpoint joins the open interface, and any other descriptor
/// is kept by the open interface, or else by the configuration. A
/// descriptor too short for its type changes nothing, except that an
/// interface descriptor still closes the open interface.
pub open spec fn parse_step(st: ParseState, t: u8, chunk: Seq<u8>) -> ParseState {
    if t == 2 {
        if chunk.len() >= 9 {
            (Some((config_desc_of(chunk), Seq::empty(), Seq::empty())), st.1)
        } else {
            st
        }
    } else if t == 4 {
        let cfg = match st.1 {
            Some(i) => match st.0 {
                Some(c) => Some((c.0, c.1.push(i), c.2)),
                None => None,
            },
            None => st.0,
        };
        (
            cfg,
            if chunk.len() >= 9 {
                Some((iface_desc_of(chunk), Seq::empty(), Seq::empty()))
            } else {
                None
            },
        )
    } else if t == 5 {
        match st.1 {
            Some(i) => if chunk.len() >= 7 {
                (st.0, Some((i.0, i.1.push(ep_desc_of(chunk)), i.2)))
            } else {
                st
            },
            None => st,
        }
    } else {
        match st.1 {
            Some(i) => (st.0, Some((i.0, i.1, i.2.push(chunk)))),
            None => match st.0 {
                Some(c) => (Some((c.0, c.1, c.2.push(chunk))), None),
                None => st,
            },
        }
    }
}

/// The walk over the descriptors from `off`: it stops at the end, at a
/// zero length or at a descriptor that runs past the end.
pub open spec fn parse_walk(data: Seq<u8>, off: int, st: ParseState) -> ParseState
    decreases data.len() - off,
{
    if off >= data.len() || off < 0 {
        st
    } else {
        let b = data[off] as int;
        if b == 0 || off + b > data.len() {
            st
        } else {
            parse_walk(data, off + b, parse_step(st, data[off + 1], data.subrange(off, off + b)))
        }
    }
}

/// The walk from `off` reads only bytes of `data`: every descriptor that
/// it reaches has its type byte inside the data.
pub open spec fn parse_walk_safe(data: Seq<u8>, off: int) -> bool
    decreases data.len() - off,
{
    if off >= data.len() || off < 0 {
        true
    } else {
        let b = data[off] as int;
        if b == 0 || off + b > data.len() {
            true
        } else {
            off + 1 < data.len() && parse_walk_safe(data, off + b)
        }
    }
}

/// The tree that the descriptors `data` unfold into: `None` for no bytes
/// or no configuration descriptor; the interface open at the end joins the
/// configuration.
pub open spec fn parse_tree(data: Seq<u8>) -> Option<ConfigurationModel> {
    if data.len() == 0 {
        None
    } else {
        let st = parse_walk(data, 0, (None, None));
        match st.0 {
            Some(c) => match st.1 {
                Some(i) => Some((c.0, c.1.push(i), c.2)),
                None => Some(c),
            },
            None => None,
        }
    }
}

/// The walk state that the parser's two open values stand for.
pub open spec fn state_of(c: Option<UsbConfigurationTree>, i: Option<UsbInterfaceTree>) -> ParseState {
    (
        match c {
            Some(t) => Some(t@),
            None => None,
        },
        match i {
            Some(t) => Some(t@),
            None => None,
        },
    )
}

/// `tree` with `iface` added as its last interface.
fn push_interface(tree: &mut UsbConfigurationTree, iface: UsbInterfaceTree)
    ensures
        final(tree)@ == (old(tree)@.0, old(tree)@.1.push(iface@), old(tree)@.2),
{
    let ghost f = |t: UsbInterfaceTree| t@;
    let ghost before = tree.interfaces@;
    tree.interfaces.push(iface);
    assert(tree.interfaces@.map_values(f) =~= before.map_values(f).push(iface@));
}

impl UsbConfigurationTree {
    /// Unfolds the bytes of a configuration descriptor and the descriptors
    /// that follow it into a tree.
    pub fn parse(data: &[u8]) -> (r: Option<Self>)
        requires
            parse_walk_safe(data@, 0),
        ensures
            (match r {
                Some(t) => Some(t@),
                None => None,
            }) == parse_tree(data@),
    {
        if data.len() == 0 {
            return None;
        }
        let mut config_tree: Option<UsbConfigurationTree> = None;
        let mut current_iface: Option<UsbInterfaceTree> = None;
        let mut offset: usize = 0;
        let n = data.len();
        while offset < n
            invariant
                n == data@.len(),
                offset <= n,
                parse_walk_safe(data@, offset as int),
                parse_walk(data@, 0, (None, None)) == parse_walk(
                    data@,
                    offset as int,
                    state_of(config_tree, current_iface),
                ),
            decreases n - offset,
        {
            let b_length = data[offset] as usize;
            if b_length == 0 || b_length > n - offset {
                offset = n;
            } else {
                let ghost st = state_of(config_tree, current_iface);
                let b_type = data[offset + 1];
                let chunk = vstd::slice::slice_subrange(data, offset, offset + b_length);
                if b_type == 0x02 {
                    match ConfigurationDescriptor::parse(chunk) {
                        Some(desc) => {
                            let t = UsbConfigurationTree {
                                configuration: desc,
                                interfaces: Vec::new(),
                                other_descriptors: Vec::new(),
                            };
                            assert(t@ =~= (config_desc_of(chunk@), Seq::empty(), Seq::empty()));
                            config_tree = Some(t);
                        },
                        None => {},
                    }
                } else if b_type == 0x04 {
                    let mut taken: Option<UsbInterfaceTree> = None;
                    std::mem::swap(&mut taken, &mut current_iface);
                    match taken {
                        Some(iface) => {
                            let mut tc: Option<UsbConfigurationTree> = None;
                            std::mem::swap(&mut tc, &mut config_tree);
                            match tc {
                                Some(mut tree) => {
                                    push_interface(&mut tree, iface);
                                    config_tree = Some(tree);
                                },
                                None => {},
                            }
                        },
                        None => {},
                    }
                    match InterfaceDescriptor::parse(chunk) {
                        Some(desc) => {
                            let i = UsbInterfaceTree {
                                interface: desc,
                                endpoints: Vec::new(),
                                other_descriptors: Vec::new(),
                            };
                            assert(i@ =~= (iface_desc_of(chunk@), Seq::empty(), Seq::empty()));
                            current_iface = Some(i);
                        },
                        None => {},
                    }
                } else if b_type == 0x05 {
                    let mut taken: Option<UsbInterfaceTree> = None;
                    std::mem::swap(&mut taken, &mut current_iface);
                    match taken {
                        Some(mut iface) => {
                            match EndpointDescriptor::parse(chunk) {
                                Some(desc) => {
                                    let ghost before = iface@;
                                    iface.endpoints.push(desc);
                                    assert(iface@ =~= (
                                        before.0,
                                        before.1.push(ep_desc_of(chunk@)),
                                        before.2,
                                    ));
                                },
                                None => {},
                            }
                            current_iface = Some(iface);
                        },
                        None => {},
                    }
                } else {
                    let bytes = vstd::slice::slice_to_vec(chunk);
                    let mut taken: Option<UsbInterfaceTree> = None;
                    std::mem::swap(&mut taken, &mut current_iface);
                    match taken {
                        Some(mut iface) => {
                            let ghost before = iface@;
                            iface.other_descriptors.push(bytes);
                            assert(bytes_seqs(iface.other_descriptors@) =~= before.2.push(
                                chunk@,
                            ));
                            current_iface = Some(iface);
                        },
                        None => {
                            let mut tc: Option<UsbConfigurationTree> = None;
                            std::mem::swap(&mut tc, &mut config_tree);
                            match tc {
                                Some(mut tree) => {
                                    let ghost before = tree@;
                                    tree.other_descriptors.push(bytes);
                                    assert(bytes_seqs(tree.other_descriptors@) =~= before.2.push(
                                        chunk@,
                                    ));
                                    config_tree = Some(tree);
                                },
                                None => {},
                            }
                        },
                    }
                }
                assert(chunk@ =~= data@.subrange(offset as int, offset + b_length));
                assert(state_of(config_tree, current_iface) == parse_step(
                    st,
                    b_type,
                    chunk@,
                ));
                offset = offset + b_length;
            }
        }
        match current_iface {
            Some(iface) => {
                let mut tc: Option<UsbConfigurationTree> = None;
                std::mem::swap(&mut tc, &mut config_tree);
                match tc {
                    Some(mut tree) => {
                        push_interface(&mut tree, iface);
                        config_tree = Some(tree);
                    },
                    None => {},
                }
            },
            None => {},
        }
        config_tree
    }
}

} // verus!
