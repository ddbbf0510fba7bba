pub mod pci;
pub mod pci_bar;
pub mod pci_device;
pub mod pci_io;
pub mod pci_msi;
pub mod pci_quirks;
