//! Device adaptor interfaces: CSR access and ring-buffer head/tail/base
//! registers. Hardware and emulated devices implement these; the library
//! only fixes how the composite register operations are assembled.

use vstd::prelude::*;

verus! {

/// Error of a CSR access.
#[derive(Clone, Copy, Debug, PartialEq, Eq, Structural)]
pub struct DeviceError;

/// A trait for interacting with device hardware through CSR operations.
pub trait DeviceAdaptor {
    /// Reads from a CSR at the specified address.
    fn read_csr(&self, addr: usize) -> Result<u32, DeviceError>;

    /// Writes data to a Control and Status Register at the specified
    /// address.
    fn write_csr(&self, addr: usize, data: u32) -> Result<(), DeviceError>;
}

/// Trait for types that have ring buffer CSR addresses.
pub trait RingBufferCsrAddr {
    /// Memory address of the head pointer register.
    fn head_addr(&self) -> usize;

    /// Memory address of the tail pointer register.
    fn tail_addr(&self) -> usize;

    /// Memory address of the low 32 bits of the base address register.
    fn base_addr_low(&self) -> usize;

    /// Memory address of the high 32 bits of the base address register.
    fn base_addr_high(&self) -> usize;
}

/// Marker trait for ring buffers that transfer data from host to card.
pub trait ToCard {

}

/// Marker trait for ring buffers that transfer data from card to host.
pub trait ToHost {

}

/// An adaptor to read the tail pointer and write the head pointer, used
/// by a writer.
pub trait CsrWriterAdaptor {
    /// Write the head pointer value.
    fn write_head(&self, data: u32) -> Result<(), DeviceError>;

    /// Read the tail pointer value.
    fn read_tail(&self) -> Result<u32, DeviceError>;
}

/// An adaptor to read the head pointer and write the tail pointer, used
/// by a reader.
pub trait CsrReaderAdaptor {
    /// Write the tail pointer value.
    fn write_tail(&self, data: u32) -> Result<(), DeviceError>;

    /// Read the head pointer value.
    fn read_head(&self) -> Result<u32, DeviceError>;
}

/// An adaptor to set up the base address of the ring buffer.
pub trait CsrBaseAddrAdaptor {
    /// Read the base physical address of the ring buffer.
    fn read_base_addr(&self) -> Result<u64, DeviceError>;

    /// Write the base physical address of the ring buffer.
    fn write_base_addr(&self, phys_addr: u64) -> Result<(), DeviceError>;
}

impl<T: ToCard + DeviceAdaptor + RingBufferCsrAddr> CsrWriterAdaptor for T {
    fn write_head(&self, data: u32) -> Result<(), DeviceError> {
        self.write_csr(self.head_addr(), data)
    }

    fn read_tail(&self) -> Result<u32, DeviceError> {
        self.read_csr(self.tail_addr())
    }
}

impl<T: ToHost + DeviceAdaptor + RingBufferCsrAddr> CsrReaderAdaptor for T {
    fn write_tail(&self, data: u32) -> Result<(), DeviceError> {
        self.write_csr(self.tail_addr(), data)
    }

    fn read_head(&self) -> Result<u32, DeviceError> {
        self.read_csr(self.head_addr())
    }
}

impl<T: DeviceAdaptor + RingBufferCsrAddr> CsrBaseAddrAdaptor for T {
    fn read_base_addr(&self) -> Result<u64, DeviceError> {
        let lo = match self.read_csr(self.base_addr_low()) {
            Ok(v) => v,
            Err(e) => {
                return Err(e);
            },
        };
        let hi = match self.read_csr(self.base_addr_high()) {
            Ok(v) => v,
            Err(e) => {
                return Err(e);
            },
        };
        proof {
            assert((hi as u64) << 32u64 <= 0xFFFF_FFFF_0000_0000u64) by (bit_vector);
        }
        Ok(lo as u64 + ((hi as u64) << 32u64))
    }

    fn write_base_addr(&self, phys_addr: u64) -> Result<(), DeviceError> {
        proof {
            assert(phys_addr & 0xFFFF_FFFFu64 <= 0xFFFF_FFFFu64) by (bit_vector);
            assert(phys_addr >> 32u64 <= 0xFFFF_FFFFu64) by (bit_vector);
        }
        match self.write_csr(self.base_addr_low(), (phys_addr & 0xFFFF_FFFF) as u32) {
            Ok(()) => {},
            Err(e) => {
                return Err(e);
            },
        }
        self.write_csr(self.base_addr_high(), (phys_addr >> 32u64) as u32)
    }
}

/// Device for testing
#[derive(Debug, Clone, Copy)]
#[non_exhaustive]
pub struct TestDevice;

} // verus!
