use vstd::prelude::*;

verus! {

/// Number of byte locations that a 16-bit address can name.
pub const ADDRESS_SPACE: usize = 0x1_0000;

/// Whether `image` assigns a byte to every 16-bit address.
pub open spec fn spans_address_space(image: Seq<u8>) -> bool {
    image.len() == ADDRESS_SPACE
}

/// A simulated data space: one byte for every 16-bit address.
///
/// It stands for the memory-mapped registers of the device. Its view is the
/// sequence of its bytes, indexed by address.
pub struct RegisterFile {
    bytes: Vec<u8>,
}

impl View for RegisterFile {
    type V = Seq<u8>;

    closed spec fn view(&self) -> Seq<u8> {
        self.bytes@
    }
}

impl RegisterFile {
    #[verifier::type_invariant]
    spec fn wf(self) -> bool {
        spans_address_space(self.bytes@)
    }

    /// A data space in which every byte is zero.
    pub fn new() -> (regs: RegisterFile)
        ensures
            spans_address_space(regs@),
            regs@ == Seq::new(ADDRESS_SPACE as nat, |address: int| 0u8),
    {
        let mut bytes: Vec<u8> = Vec::new();
        while bytes.len() < ADDRESS_SPACE
            invariant
                bytes.len() <= ADDRESS_SPACE,
                forall|k: int| 0 <= k < bytes.len() ==> bytes[k] == 0,
            decreases ADDRESS_SPACE - bytes.len(),
        {
            bytes.push(0u8);
        }
        assert(bytes@ =~= Seq::new(ADDRESS_SPACE as nat, |address: int| 0u8));
        RegisterFile { bytes }
    }

    /// The byte at `address`.
    pub fn read(&self, address: u16) -> (value: u8)
        ensures
            spans_address_space(self@),
            value == self@[address as int],
    {
        proof {
            use_type_invariant(self);
        }
        self.bytes[address as usize]
    }

    /// Stores `value` at `address` and leaves every other byte as it was.
    pub fn write(&mut self, address: u16, value: u8)
        ensures
            spans_address_space(final(self)@),
            final(self)@ == old(self)@.update(address as int, value),
    {
        proof {
            use_type_invariant(&*self);
        }
        self.bytes[address as usize] = value;
    }
}

} // verus!
