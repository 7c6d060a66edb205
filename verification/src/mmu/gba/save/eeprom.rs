//! The serial EEPROM save device: a single-bit protocol driven by DMA.
//!
//! The host clocks address and data bits in through writes and clocks status
//! and data bits out through reads. The DMA transfer length tells the device
//! whether the host addresses it with 6 or 14 address bits.

use vstd::prelude::*;

verus! {

pub const MEM_SIZE: usize = 1024;

/// Protocol position of the serial state machine.
#[derive(Copy, Clone, PartialEq, Eq, Structural, Debug)]
pub enum State {
    Idle,
    ReadAddress,
    WriteData,
    ConfirmWrite,
    ConfirmRead,
    ReadData,
}

/// Mathematical state of the device.
pub struct EeView {
    pub mem: Seq<u64>,
    pub state: State,
    pub write: bool,
    pub addr: u16,
    pub bits: u8,
    pub data: u64,
}

impl EeView {
    pub open spec fn initial() -> EeView {
        EeView {
            mem: Seq::new(MEM_SIZE as nat, |i: int| 0u64),
            state: State::Idle,
            write: false,
            addr: 0,
            bits: 0,
            data: 0,
        }
    }

    /// The protocol-idle fields, with memory contents kept.
    pub open spec fn reset(self) -> EeView {
        EeView { state: State::Idle, write: false, addr: 0, bits: 0, data: 0, ..self }
    }
}

/// One serial bit written to the device. Returns the state after the write.
pub open spec fn sp_ee_write(e: EeView, val: u16, dma_len: u32) -> EeView {
    if dma_len == 0 {
        e
    } else {
        let b = (val & 1) as u16;
        match e.state {
            State::Idle => if b == 1 {
                EeView { state: State::ReadAddress, bits: 1, ..e }
            } else {
                e
            },
            State::ReadAddress => if e.bits < 2 {
                EeView { write: b == 0, bits: 2, ..e }
            } else {
                let naddr = ((e.addr << 1) | b) as u16;
                let nbits = vstd::wrapping::u8_specs::wrapping_add(e.bits, 1);
                if nbits == 16 && (dma_len == 17 || dma_len == 81) {
                    EeView {
                        addr: (naddr & 0x3ff) as u16,
                        bits: 0,
                        state: if e.write {
                            State::WriteData
                        } else {
                            State::ConfirmRead
                        },
                        ..e
                    }
                } else if nbits == 8 && (dma_len == 9 || dma_len == 73) {
                    EeView {
                        addr: naddr,
                        bits: 0,
                        state: if e.write {
                            State::WriteData
                        } else {
                            State::ConfirmRead
                        },
                        ..e
                    }
                } else {
                    EeView { addr: naddr, bits: nbits, ..e }
                }
            },
            State::WriteData => {
                let ndata = ((e.data << 1) | b as u64) as u64;
                let nbits = vstd::wrapping::u8_specs::wrapping_add(e.bits, 1);
                if nbits == 64 {
                    EeView { data: ndata, bits: nbits, state: State::ConfirmWrite, ..e }
                } else {
                    EeView { data: ndata, bits: nbits, ..e }
                }
            },
            State::ConfirmWrite => EeView {
                mem: e.mem.update((e.addr & 0x3ff) as int, e.data),
                ..e
            }.reset(),
            State::ConfirmRead => EeView {
                data: e.mem[(e.addr & 0x3ff) as int],
                bits: 0,
                state: State::ReadData,
                ..e
            },
            State::ReadData => e,
        }
    }
}

/// One serial bit read from the device: the state afterwards and the bit.
pub open spec fn sp_ee_read(e: EeView) -> (EeView, u16) {
    match e.state {
        State::ReadData => {
            let res: u16 = if e.bits < 4 {
                0u16
            } else {
                (((e.data >> ((67 - e.bits) as u64)) & 1) as u16)
            };
            let nbits = vstd::wrapping::u8_specs::wrapping_add(e.bits, 1);
            if nbits == 68 {
                (e.reset(), res)
            } else {
                (EeView { bits: nbits, ..e }, res)
            }
        },
        _ => (e, 1u16),
    }
}

/// The serial EEPROM device with its backing store.
pub struct Eeprom {
    mem: Vec<u64>,
    state: State,
    write: bool,
    addr: u16,
    bits: u8,
    data: u64,
}

impl Eeprom {
    pub closed spec fn view(&self) -> EeView {
        EeView {
            mem: self.mem@,
            state: self.state,
            write: self.write,
            addr: self.addr,
            bits: self.bits,
            data: self.data,
        }
    }

    pub open spec fn wf(&self) -> bool {
        &&& self@.mem.len() == MEM_SIZE
        &&& (self@.state is ReadData ==> self@.bits < 68)
    }

    pub fn new() -> (r: Eeprom)
        ensures
            r.wf(),
            r@ == EeView::initial(),
    {
        let v: Vec<u64> = vec![0u64; MEM_SIZE];
        proof {
            assert(v@ =~= Seq::new(MEM_SIZE as nat, |i: int| 0u64));
        }
        let r = Eeprom { mem: v, state: State::Idle, write: false, addr: 0, bits: 0, data: 0 };
        proof {
            assert(r@ =~= EeView::initial());
        }
        r
    }

    /// Loads a previously saved backing store.
    pub fn init(&mut self, data: Vec<u64>)
        requires
            old(self).wf(),
            data@.len() == MEM_SIZE,
        ensures
            final(self).wf(),
            final(self)@ == (EeView { mem: data@, ..old(self)@ }),
    {
        self.mem = data;
    }

    /// A copy of the backing store, for save states.
    pub fn contents(&self) -> (r: Vec<u64>)
        requires
            self.wf(),
        ensures
            r@ == self@.mem,
    {
        let mut v: Vec<u64> = Vec::new();
        let mut i: usize = 0;
        while i < self.mem.len()
            invariant
                i <= self.mem@.len(),
                v@.len() == i,
                forall|j: int| 0 <= j < i ==> v@[j] == self.mem@[j],
            decreases self.mem@.len() - i,
        {
            v.push(self.mem[i]);
            i = i + 1;
        }
        proof {
            assert(v@ =~= self@.mem);
        }
        v
    }

    fn reset(&mut self)
        ensures
            final(self)@ == old(self)@.reset(),
            final(self)@.mem == old(self)@.mem,
    {
        self.state = State::Idle;
        self.write = false;
        self.addr = 0;
        self.bits = 0;
        self.data = 0;
    }

    /// Clocks one written bit into the state machine. `dma_len` is the
    /// length of the DMA transfer performing the access; zero means the
    /// write did not come from DMA and is ignored.
    pub fn write(&mut self, val: u16, dma_len: u32)
        requires
            old(self).wf(),
        ensures
            final(self).wf(),
            final(self)@ == sp_ee_write(old(self)@, val, dma_len),
    {
        broadcast use crate::bit_util::lemma_and_mask_le_u16;

        if dma_len == 0 {
            return ;
        }
        let b: u16 = val & 1;
        match self.state {
            State::Idle => {
                if b == 1 {
                    self.state = State::ReadAddress;
                    self.bits = 1;
                }
            },
            State::ReadAddress => {
                if self.bits < 2 {
                    self.write = b == 0;
                    self.bits = 2;
                } else {
                    self.addr = (self.addr << 1) | b;
                    self.bits = self.bits.wrapping_add(1);
                    let done = if self.bits == 16 && (dma_len == 17 || dma_len == 81) {
                        self.addr = self.addr & 0x3ff;
                        true
                    } else if self.bits == 8 && (dma_len == 9 || dma_len == 73) {
                        true
                    } else {
                        false
                    };
                    if done {
                        self.bits = 0;
                        self.state = if self.write {
                            State::WriteData
                        } else {
                            State::ConfirmRead
                        };
                    }
                }
            },
            State::WriteData => {
                self.data = (self.data << 1) | (b as u64);
                self.bits = self.bits.wrapping_add(1);
                if self.bits == 64 {
                    self.state = State::ConfirmWrite;
                }
            },
            State::ConfirmWrite => {
                let idx: usize = (self.addr & 0x3ff) as usize;
                self.mem[idx] = self.data;
                self.reset();
            },
            State::ConfirmRead => {
                let idx: usize = (self.addr & 0x3ff) as usize;
                self.data = self.mem[idx];
                self.bits = 0;
                self.state = State::ReadData;
            },
            State::ReadData => {},
        }
    }

    /// Clocks one bit out of the state machine.
    pub fn read(&mut self) -> (r: u16)
        requires
            old(self).wf(),
        ensures
            final(self).wf(),
            (final(self)@, r) == sp_ee_read(old(self)@),
    {
        match self.state {
            State::ReadData => {
                let res: u16 = if self.bits < 4 {
                    0
                } else {
                    ((self.data >> ((67 - self.bits) as u64)) & 1) as u16
                };
                self.bits = self.bits.wrapping_add(1);
                if self.bits == 68 {
                    self.reset();
                }
                res
            },
            _ => 1,
        }
    }
}

} // verus!
