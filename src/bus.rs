use vstd::prelude::*;

verus! {

/// Number of 32-bit words the bus holds.
pub const BUS_WORDS: usize = 0xffff;

/// First byte address that lies past the end of the bus.
pub const BUS_LIMIT: u32 = 0x3fffc;

/// A byte address whose word `addr / 4` lies on the bus.
pub open spec fn addr_ok(addr: u32) -> bool {
    addr < BUS_LIMIT
}

/// The index of the word that byte address `addr` falls in.
pub open spec fn word_index(addr: u32) -> int {
    addr as int / 4
}

/// A fixed-size store of 32-bit words, addressed by byte address.
#[derive(Copy, Clone)]
pub struct Bus {
    addr_space: [u32; 0xffff],
}

impl View for Bus {
    type V = Seq<u32>;

    closed spec fn view(&self) -> Seq<u32> {
        self.addr_space@
    }
}

/// Every bus holds exactly `BUS_WORDS` words.
pub broadcast proof fn lemma_bus_len(b: Bus)
    ensures
        #[trigger] b@.len() == BUS_WORDS,
{
}

impl Bus {
    /// A bus with every word zero.
    pub fn init() -> (b: Bus)
        ensures
            b@ == Seq::new(BUS_WORDS as nat, |i: int| 0u32),
    {
        let b = Bus { addr_space: [0u32; 0xffff] };
        assert(b@ =~= Seq::new(BUS_WORDS as nat, |i: int| 0u32));
        b
    }

    /// Stores `val` in the word at byte address `addr`.
    pub fn write(&mut self, addr: u32, val: u32)
        requires
            addr_ok(addr),
        ensures
            final(self)@ == old(self)@.update(word_index(addr), val),
    {
        let i: usize = (addr / 4) as usize;
        self.addr_space[i] = val;
    }

    /// The word at byte address `addr`.
    pub fn read(self, addr: u32) -> (r: u32)
        requires
            addr_ok(addr),
        ensures
            r == self@[word_index(addr)],
    {
        let i: usize = (addr / 4) as usize;
        self.addr_space[i]
    }
}

} // verus!
