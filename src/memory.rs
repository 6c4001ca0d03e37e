use vstd::prelude::*;

verus! {

/// Number of bytes of a 16-bit address space.
pub const MEMORY_SIZE: usize = 0x10000;

/// Byte memory addressed by words.
pub trait Memory: Sized {
    /// The bytes held, by address.
    spec fn cells(&self) -> Seq<u8>;

    fn write(&mut self, address: u16, data: u8)
        requires
            old(self).cells().len() == MEMORY_SIZE,
        ensures
            final(self).cells() == old(self).cells().update(address as int, data),
    ;

    fn read(&self, address: u16) -> (r: u8)
        requires
            self.cells().len() == MEMORY_SIZE,
        ensures
            r == self.cells()[address as int],
    ;
}

/// The memory after `data` is copied into `mem` from address `at` on,
/// wrapping past the last address; a later byte overwrites an earlier one.
pub open spec fn flashed(mem: Seq<u8>, data: Seq<u8>, at: u16) -> Seq<u8>
    decreases data.len(),
{
    if data.len() == 0 {
        mem
    } else {
        flashed(mem, data.drop_last(), at).update(
            (at + data.len() - 1) % (MEMORY_SIZE as int),
            data.last(),
        )
    }
}

/// 64 KiB of RAM: 8-bit data, 16-bit addresses.
#[derive(Debug)]
pub struct RamB8A16 {
    ram: Vec<u8>,
}

impl Default for RamB8A16 {
    fn default() -> (r: Self)
        ensures
            r.cells() == Seq::new(MEMORY_SIZE as nat, |i: int| 0u8),
    {
        Self::new()
    }
}

impl RamB8A16 {
    /// Zeroed memory.
    pub fn new() -> (r: Self)
        ensures
            r.cells() == Seq::new(MEMORY_SIZE as nat, |i: int| 0u8),
    {
        let ram = vec![0u8; MEMORY_SIZE];
        assert(ram@ =~= Seq::new(MEMORY_SIZE as nat, |i: int| 0u8));
        Self { ram }
    }

    /// Copies `data` into memory from `displacement` on, wrapping at the end.
    pub fn flash(&mut self, data: &[u8], displacement: u16)
        requires
            old(self).cells().len() == MEMORY_SIZE,
        ensures
            final(self).cells() == flashed(old(self).cells(), data@, displacement),
            final(self).cells().len() == MEMORY_SIZE,
    {
        let ghost start = self.cells();
        let mut i: usize = 0;
        while i < data.len()
            invariant
                i <= data@.len(),
                self.cells() == flashed(start, data@.take(i as int), displacement),
                self.cells().len() == MEMORY_SIZE,
            decreases data@.len() - i,
        {
            let at = ((displacement as usize + i % MEMORY_SIZE) % MEMORY_SIZE) as u16;
            assert((displacement + i as int) % (MEMORY_SIZE as int) == (displacement + i as int
                % (MEMORY_SIZE as int)) % (MEMORY_SIZE as int)) by (nonlinear_arith);
            self.write(at, data[i]);
            proof {
                assert(data@.take(i + 1).drop_last() =~= data@.take(i as int));
            }
            i = i + 1;
        }
        proof {
            assert(data@.take(i as int) =~= data@);
        }
    }
}

impl Memory for RamB8A16 {
    closed spec fn cells(&self) -> Seq<u8> {
        self.ram@
    }

    fn write(&mut self, address: u16, data: u8) {
        self.ram.set(address as usize, data);
    }

    fn read(&self, address: u16) -> (r: u8) {
        self.ram[address as usize]
    }
}

} // verus!
