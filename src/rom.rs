use vstd::prelude::*;
use vstd::slice::{slice_subrange, slice_to_vec};
use crate::cartridge::{
    header_byte, header_error, image_start, is_headered, map_mode_of, parse_header, chipset_of,
    region_of, title_bytes, trimmed_end, utf8_text, RAM_SIZE_OFFSET, ROM_SIZE_OFFSET,
    MAP_MODE_OFFSET, CHIPSET_OFFSET, REGION_OFFSET, COPIER_HEADER_LEN,
};
pub use crate::cartridge::{ChipsetType, MapMode, Region, RomError};
use crate::cpu::bus::Bus;
use vstd::arithmetic::power2::pow2;

verus! {

/// Size of one LoROM chunk: the upper half of a bank.
pub const CHUNK: u32 = 0x8000;
/// The bank at which work RAM starts; the low mirror stops before it.
pub const WRAM_BANK: u32 = 0x7E;
/// The bank of the high mirror of chunk 0.
pub const HIGH_MIRROR: u32 = 0x80;

/// A cartridge image: its header and the bytes of the image proper.
pub struct ROM {
    pub headered: bool,
    pub game_title: String,
    pub fast_rom: bool,
    pub rom_mode: MapMode,
    pub chipset: ChipsetType,
    pub rom_size: u32,
    pub real_rom_size: u8,
    pub ram_size: u32,
    pub real_ram_size: u8,
    pub region: Region,
    pub data: Vec<u8>,
}

/// The index of the image byte that the 24-bit address `addr` mirrors
/// under LoROM: in the upper half of bank `b`, chunk `b` for `b < 0x7E`
/// and chunk `b - 0x80` for `b >= 0x80`.
pub open spec fn lorom_index(addr: int) -> Option<int> {
    let bank = addr / 0x10000;
    let offset = addr % 0x10000;
    if offset < 0x8000 || (0x7E <= bank && bank < 0x80) {
        None
    } else {
        let chunk = if bank >= 0x80 {
            bank - 0x80
        } else {
            bank
        };
        Some(chunk * 0x8000 + offset - 0x8000)
    }
}

/// `mem` after the image `data` is mapped into it under LoROM.
pub open spec fn lorom_mapped(mem: Seq<u8>, data: Seq<u8>, addr: int) -> u8 {
    match lorom_index(addr) {
        Some(i) => if i < data.len() {
            data[i]
        } else {
            mem[addr]
        },
        None => mem[addr],
    }
}

/// The lowest address of the low mirror of image byte `i`.
pub open spec fn low_mirror(i: int) -> int {
    (i / 0x8000) * 0x10000 + 0x8000 + i % 0x8000
}

/// The address of the high mirror of image byte `i`.
pub open spec fn high_mirror(i: int) -> int {
    (i / 0x8000 + 0x80) * 0x10000 + 0x8000 + i % 0x8000
}

proof fn lemma_mirrors(i: int, addr: int)
    requires
        0 <= i < 0x400000,
        0 <= addr < 0x100_0000,
    ensures
        lorom_index(high_mirror(i)) == Some(i),
        0 <= high_mirror(i) < 0x100_0000,
        i / 0x8000 < 0x7E ==> lorom_index(low_mirror(i)) == Some(i),
        0 <= low_mirror(i) < 0x100_0000,
        lorom_index(addr) == Some(i) ==> addr == high_mirror(i) || (i / 0x8000 < 0x7E && addr
            == low_mirror(i)),
{
    let c = i / 0x8000;
    let o = i % 0x8000;
    assert(0 <= c < 0x80 && 0 <= o < 0x8000 && i == c * 0x8000 + o);
    assert(high_mirror(i) / 0x10000 == c + 0x80 && high_mirror(i) % 0x10000 == 0x8000 + o);
    assert(low_mirror(i) / 0x10000 == c && low_mirror(i) % 0x10000 == 0x8000 + o);
    if lorom_index(addr) == Some(i) {
        let bank = addr / 0x10000;
        let offset = addr % 0x10000;
        let chunk = if bank >= 0x80 {
            bank - 0x80
        } else {
            bank
        };
        assert(addr == bank * 0x10000 + offset);
        assert(chunk * 0x8000 + (offset - 0x8000) == c * 0x8000 + o);
        assert(chunk == c && offset - 0x8000 == o) by (nonlinear_arith)
            requires
                chunk * 0x8000 + (offset - 0x8000) == c * 0x8000 + o,
                0 <= offset - 0x8000 < 0x8000,
                0 <= o < 0x8000,
        ;
    }
}

impl ROM {
    /// Reads a cartridge file: the header as `parse_header` does, and the
    /// image without its pre-header.
    pub fn from_bytes(file: Vec<u8>) -> (r: Result<ROM, RomError>)
        ensures
            match r {
                Ok(rom) => {
                    let hb = |o: usize| header_byte(file@, o as int);
                    &&& header_error(file@) is None
                    &&& rom.headered == is_headered(file@.len() as int)
                    &&& rom.game_title@ == trimmed_end(utf8_text(title_bytes(file@)).unwrap())
                    &&& rom.fast_rom == (hb(MAP_MODE_OFFSET) & 0x10 != 0)
                    &&& Some(rom.rom_mode) == map_mode_of(hb(MAP_MODE_OFFSET))
                    &&& Some(rom.chipset) == chipset_of(hb(CHIPSET_OFFSET))
                    &&& rom.real_rom_size == hb(ROM_SIZE_OFFSET)
                    &&& rom.rom_size == pow2(hb(ROM_SIZE_OFFSET) as nat)
                    &&& rom.real_ram_size == hb(RAM_SIZE_OFFSET)
                    &&& rom.ram_size == pow2(hb(RAM_SIZE_OFFSET) as nat)
                    &&& Some(rom.region) == region_of(hb(REGION_OFFSET))
                    &&& rom.data@ == file@.subrange(image_start(file@.len() as int), file@.len() as int)
                },
                Err(e) => header_error(file@) == Some(e),
            },
    {
        let header = parse_header(&file)?;
        let start: usize = if header.headered {
            COPIER_HEADER_LEN
        } else {
            0
        };
        let real_rom_size = file[start + ROM_SIZE_OFFSET];
        let real_ram_size = file[start + RAM_SIZE_OFFSET];
        let data = if header.headered {
            slice_to_vec(slice_subrange(file.as_slice(), start, file.len()))
        } else {
            proof {
                assert(file@.subrange(0, file@.len() as int) =~= file@);
            }
            file
        };
        Ok(ROM {
            headered: header.headered,
            game_title: header.game_title,
            fast_rom: header.fast_rom,
            rom_mode: header.rom_mode,
            chipset: header.chipset,
            rom_size: header.rom_size,
            real_rom_size,
            ram_size: header.ram_size,
            real_ram_size,
            region: header.region,
            data,
        })
    }

    /// Copies the image into `bus` under LoROM: chunk `b` of 32 KiB goes to
    /// the upper half of bank `b` (for `b < 0x7E`, below work RAM) and of
    /// bank `b + 0x80`. Bytes past the 128 chunks that fit are left out;
    /// every other address keeps its byte.
    pub fn map_to(&self, bus: Box<Bus>) -> (r: Box<Bus>)
        requires
            bus.wf(),
        ensures
            r.wf(),
            forall|a: int|
                0 <= a < 0x100_0000 ==> #[trigger] r@[a] == lorom_mapped(bus@, self.data@, a),
    {
        let mut bus = bus;
        let n: usize = if self.data.len() < 0x400000 {
            self.data.len()
        } else {
            0x400000
        };
        let ghost start = bus@;
        let mut i: usize = 0;
        while i < n
            invariant
                bus.wf(),
                n <= self.data@.len(),
                n <= 0x400000,
                i <= n,
                forall|a: int|
                    0 <= a < 0x100_0000 ==> #[trigger] bus@[a] == match lorom_index(a) {
                        Some(j) => if j < i {
                            self.data@[j]
                        } else {
                            start[a]
                        },
                        None => start[a],
                    },
            decreases n - i,
        {
            let chunk = (i as u32) / CHUNK;
            let offset = (i as u32) % CHUNK;
            let byte = self.data[i];
            let ghost before = bus@;
            if chunk < WRAM_BANK {
                bus.write_byte(chunk * 0x10000 + CHUNK + offset, byte);
            }
            bus.write_byte((chunk + HIGH_MIRROR) * 0x10000 + CHUNK + offset, byte);
            proof {
                assert forall|a: int| 0 <= a < 0x100_0000 implies #[trigger] bus@[a] == match lorom_index(a) {
                    Some(j) => if j < i + 1 {
                        self.data@[j]
                    } else {
                        start[a]
                    },
                    None => start[a],
                } by {
                    lemma_mirrors(i as int, a);
                    lemma_mirrors(i as int, high_mirror(i as int));
                    if i / 0x8000 < 0x7E {
                        lemma_mirrors(i as int, low_mirror(i as int));
                    }
                }
            }
            i = i + 1;
        }
        proof {
            assert forall|a: int| 0 <= a < 0x100_0000 implies #[trigger] bus@[a] == lorom_mapped(start, self.data@, a) by {
                if let Some(j) = lorom_index(a) {
                    if j >= n {
                        assert(j < 0x400000) by {
                            assert(a / 0x10000 < 0x100);
                        }
                    }
                }
            }
        }
        bus
    }
}

} // verus!
