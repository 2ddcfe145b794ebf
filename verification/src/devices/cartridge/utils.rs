//! The interface between the console and a cartridge.
use vstd::prelude::*;
use crate::devices::bus::BusPeekResult;

verus! {

/// A cartridge.
///
/// A cartridge sits on both buses: the processor reaches its program
/// memory, the picture processor its character memory and, through it, the
/// nametables.  Program addresses count from the first address that
/// cartridges answer on the processor's bus, `$4020`; character addresses
/// are those of the picture processor's bus, `$0000..=$3EFF`.
///
/// A cartridge is a plain value, and the functions whose names end in
/// `_spec` say what each access returns and leaves behind.  A read may
/// change the cartridge, as bank switching does; a peek may not.
pub trait ICartridge: Sized {
    /// The byte read from character memory or a nametable, and the
    /// cartridge after the read.
    spec fn read_chr_spec(self, addr: u16, last_bus_value: u8) -> (u8, Self);

    /// What can be had from character memory or a nametable without
    /// changing the cartridge.
    spec fn peek_chr_spec(self, addr: u16) -> BusPeekResult;

    /// The cartridge after a write to character memory or a nametable.
    spec fn write_chr_spec(self, addr: u16, value: u8) -> Self;

    /// The byte read from program memory, and the cartridge after the read.
    spec fn read_prg_spec(self, addr: u16, last_bus_value: u8) -> (u8, Self);

    /// What can be had from program memory without changing the cartridge.
    spec fn peek_prg_spec(self, addr: u16) -> BusPeekResult;

    /// The cartridge after a write to program memory.
    spec fn write_prg_spec(self, addr: u16, value: u8) -> Self;

    /// The character memory, for inspection.
    spec fn chr_spec(self) -> Seq<u8>;

    /// The memory behind the nametables, for inspection.
    spec fn nametables_spec(self) -> Seq<u8>;

    /// Reads from character memory or a nametable.  `last_bus_value` is what
    /// the read returns where the cartridge does not answer.
    fn read_chr(&mut self, addr: u16, last_bus_value: u8) -> (r: u8)
        ensures
            (r, *final(self)) == old(self).read_chr_spec(addr, last_bus_value),
    ;

    /// Reads from character memory or a nametable without side effects.
    fn peek_chr(&self, addr: u16) -> (r: BusPeekResult)
        ensures
            r == self.peek_chr_spec(addr),
    ;

    /// Writes to character memory or a nametable.
    fn write_chr(&mut self, addr: u16, value: u8)
        ensures
            *final(self) == old(self).write_chr_spec(addr, value),
    ;

    /// Reads from program memory.  `last_bus_value` is what the read returns
    /// where the cartridge does not answer.
    fn read_prg(&mut self, addr: u16, last_bus_value: u8) -> (r: u8)
        ensures
            (r, *final(self)) == old(self).read_prg_spec(addr, last_bus_value),
    ;

    /// Reads from program memory without side effects.
    fn peek_prg(&self, addr: u16) -> (r: BusPeekResult)
        ensures
            r == self.peek_prg_spec(addr),
    ;

    /// Writes to program memory.
    fn write_prg(&mut self, addr: u16, value: u8)
        ensures
            *final(self) == old(self).write_prg_spec(addr, value),
    ;

    /// The character memory.
    fn dump_chr(&self) -> (r: &[u8])
        ensures
            r@ == self.chr_spec(),
    ;

    /// The memory behind the nametables.
    fn dump_nametables(&self) -> (r: &[u8])
        ensures
            r@ == self.nametables_spec(),
    ;
}

/// An owner of a cartridge, such as the console.
pub trait WithCartridge {
    /// The kind of cartridge in the slot.
    type Cart: ICartridge;

    /// The cartridge that the owner holds.
    spec fn cart_spec(&self) -> Self::Cart;

    /// The cartridge.
    fn cart(&self) -> (cart: &Self::Cart)
        ensures
            *cart == self.cart_spec(),
    ;

    /// The cartridge, to be changed in place.
    fn cart_mut(&mut self) -> (cart: &mut Self::Cart)
        ensures
            *cart == old(self).cart_spec(),
            final(self).cart_spec() == *final(cart),
    ;
}

} // verus!
