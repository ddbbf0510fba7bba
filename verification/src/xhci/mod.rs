pub mod context;
pub mod endpoint_context;
pub mod ext_cap;
pub mod input_context;
pub mod portsc;
pub mod slot_context;
pub mod trb;
pub mod trb_ring;
pub mod port_state;
pub mod controller;
pub mod device;
pub mod configure;
