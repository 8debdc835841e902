//! What the two pixel fetchers share: their states, the tile addressing modes
//! and the reading of one bit plane of a tile row.

pub mod background_or_window;
pub mod object;

use vstd::prelude::*;
use crate::pixel_fetcher::background_or_window::BackgroundOrWindowFetcher;
use crate::pixel_fetcher::object::ObjectFetcher;
use crate::ppu::PPU;

verus! {

#[derive(Clone, Copy, Debug, PartialEq, Eq, Structural)]
pub enum FetcherState {
    GetTileDelay,
    GetTile,
    GetTileDataLowDelay,
    GetTileDataLow,
    GetTileDataHighDelay,
    GetTileDataHigh,
    PushRow,
}

#[derive(Clone, Copy, Debug, PartialEq, Eq, Structural)]
pub struct FIFOItem {
    pub color: u8,
}

#[derive(Clone, Copy, Debug, PartialEq, Eq, Structural)]
pub enum FetchingFor {
    BackgroundOrWindowFIFO,
    ObjectFIFO,
}

#[derive(Clone, Copy, Debug, PartialEq, Eq, Structural)]
pub struct Fetcher {
    pub fetching_for: FetchingFor,
}

/// Background and window tiles are addressed in one of these two ways, chosen
/// by bit 4 of the LCD control register. Object tiles always use the first.
#[derive(Clone, Copy, Debug, PartialEq, Eq, Structural)]
pub enum TileAddressingMode {
    UnsignedFrom0x8000,
    SignedFrom0x9000,
}

/// The number of pixels in a tile row, and of entries a fetcher pushes at once.
pub const TILE_ROW_PIXELS: usize = 8;

/// The position of a tile among the 384 tiles of video RAM: the identifier
/// itself, or the identifier read as a signed offset from tile 256.
pub open spec fn spec_tile_index_in_palette(tile_id: u8, addressing_mode: TileAddressingMode) -> u16 {
    match addressing_mode {
        TileAddressingMode::UnsignedFrom0x8000 => tile_id as u16,
        TileAddressingMode::SignedFrom0x9000 => if tile_id < 128 {
            (256 + tile_id) as u16
        } else {
            tile_id as u16
        },
    }
}

/// Where in video RAM the bit plane of a tile's row lies.
pub open spec fn spec_tile_row_address(
    addressing_mode: TileAddressingMode,
    current_line: u8,
    tile_id: u8,
    bit_plane: bool,
) -> int {
    spec_tile_index_in_palette(tile_id, addressing_mode) * 16 + (current_line % 8) * 2 + (if bit_plane {
        1int
    } else {
        0int
    })
}

/// Bit `bit_position` of a bit-plane byte, moved to the place of its plane in
/// a two-bit color.
pub open spec fn spec_plane_bit(pixel_data: u8, bit_position: u8, bit_plane: bool) -> u8 {
    ((pixel_data >> bit_position) & 1) << (if bit_plane {
        1u8
    } else {
        0u8
    })
}

/// The colors of a tile row after one more bit plane is merged in. The most
/// significant bit of the plane belongs to the leftmost pixel.
pub open spec fn spec_read_tile_row(
    vram: Seq<u8>,
    addressing_mode: TileAddressingMode,
    current_line: u8,
    tile_id: u8,
    bit_plane: bool,
    tile_row_data: Seq<u8>,
) -> Seq<u8> {
    let pixel_data = vram[spec_tile_row_address(addressing_mode, current_line, tile_id, bit_plane)];
    Seq::new(
        8,
        |i: int| tile_row_data[i] | spec_plane_bit(pixel_data, (7 - i) as u8, bit_plane),
    )
}

/// Whether every color of a row or queue fits in two bits.
pub open spec fn spec_colors_fit(colors: Seq<u8>) -> bool {
    forall|i: int| 0 <= i < colors.len() ==> colors[i] < 4
}

pub fn tile_index_in_palette(tile_id: u8, addressing_mode: &TileAddressingMode) -> (index: u16)
    ensures
        index == spec_tile_index_in_palette(tile_id, *addressing_mode),
        index < 384,
{
    match addressing_mode {
        TileAddressingMode::UnsignedFrom0x8000 => tile_id as u16,
        TileAddressingMode::SignedFrom0x9000 => if tile_id < 128 {
            256 + (tile_id as u16)
        } else {
            tile_id as u16
        },
    }
}

proof fn lemma_plane_bit(old_color: u8, pixel_data: u8, bit_position: u8, bit_plane: bool)
    requires
        old_color < 4,
        bit_position < 8,
    ensures
        old_color | spec_plane_bit(pixel_data, bit_position, bit_plane) < 4,
{
    let plane: u8 = if bit_plane {
        1u8
    } else {
        0u8
    };
    assert(old_color | (((pixel_data >> bit_position) & 1) << plane) < 4) by (bit_vector)
        requires
            old_color < 4,
            plane <= 1,
    ;
}

impl Fetcher {
    pub open spec fn spec_new() -> Fetcher {
        Fetcher { fetching_for: FetchingFor::BackgroundOrWindowFIFO }
    }

    pub fn new() -> (fetcher: Self)
        ensures
            fetcher == Self::spec_new(),
    {
        Fetcher { fetching_for: FetchingFor::BackgroundOrWindowFIFO }
    }

    fn switch_to(&mut self, fetching_for: FetchingFor)
        ensures
            final(self).fetching_for == fetching_for,
    {
        self.fetching_for = fetching_for;
    }

    pub fn switch_to_object_fifo(&mut self)
        ensures
            final(self).fetching_for == FetchingFor::ObjectFIFO,
    {
        self.switch_to(FetchingFor::ObjectFIFO)
    }

    pub fn switch_to_background_or_window_fifo(&mut self)
        ensures
            final(self).fetching_for == FetchingFor::BackgroundOrWindowFIFO,
    {
        self.switch_to(FetchingFor::BackgroundOrWindowFIFO)
    }

    /// Lets the fetcher whose turn it is work for one dot.
    pub fn tick(
        &mut self,
        bgw_fetcher: &mut BackgroundOrWindowFetcher,
        obj_fetcher: &mut ObjectFetcher,
        ppu: &mut PPU,
    )
        requires
            old(bgw_fetcher)@.wf(),
            old(obj_fetcher)@.wf(),
            old(ppu)@.wf(),
            old(self).fetching_for == FetchingFor::BackgroundOrWindowFIFO ==> old(
                bgw_fetcher,
            )@.spec_can_tick(old(ppu)@),
        ensures
            *final(self) == *old(self),
            old(self).fetching_for == FetchingFor::BackgroundOrWindowFIFO ==> {
                &&& final(bgw_fetcher)@ == old(bgw_fetcher)@.spec_tick(old(ppu)@)
                &&& final(ppu)@ == old(bgw_fetcher)@.spec_tick_ppu(old(ppu)@)
                &&& final(obj_fetcher)@ == old(obj_fetcher)@
            },
            old(self).fetching_for == FetchingFor::ObjectFIFO ==> {
                &&& final(obj_fetcher)@ == old(obj_fetcher)@.spec_tick(old(ppu)@)
                &&& final(ppu)@ == old(ppu)@
                &&& final(bgw_fetcher)@ == old(bgw_fetcher)@
            },
            final(bgw_fetcher)@.wf(),
            final(obj_fetcher)@.wf(),
            final(ppu)@.wf(),
    {
        match self.fetching_for {
            FetchingFor::BackgroundOrWindowFIFO => {
                bgw_fetcher.tick(ppu);
            },
            FetchingFor::ObjectFIFO => {
                obj_fetcher.tick(ppu);
            },
        }
    }

    /// Merges one bit plane of a tile's row into the colors gathered so far.
    /// The address is computed within video RAM, not within the address space.
    pub fn read_tile_row(
        vram: &[u8; 0x2000],
        addressing_mode: &TileAddressingMode,
        current_line: u8,
        tile_id: u8,
        bit_plane: bool,
        tile_row_data: &mut [u8; 8],
    )
        ensures
            final(tile_row_data)@ == spec_read_tile_row(
                vram@,
                *addressing_mode,
                current_line,
                tile_id,
                bit_plane,
                old(tile_row_data)@,
            ),
            spec_colors_fit(old(tile_row_data)@) ==> spec_colors_fit(final(tile_row_data)@),
    {
        let tile_index_in_palette = tile_index_in_palette(tile_id, addressing_mode);
        let row_of_pixel_within_tile = current_line % 8;
        let address_in_vram_slice = (tile_index_in_palette as usize) * 16 + (
        row_of_pixel_within_tile as usize) * 2;
        let plane_offset: usize = if bit_plane {
            1
        } else {
            0
        };
        let plane_shift: u8 = if bit_plane {
            1
        } else {
            0
        };
        let pixel_data = vram[address_in_vram_slice + plane_offset];
        let mut bit_position: u8 = 0;
        while bit_position < 8
            invariant
                bit_position <= 8,
                plane_shift == (if bit_plane {
                    1u8
                } else {
                    0u8
                }),
                forall|i: int|
                    0 <= i < 8 - bit_position ==> tile_row_data@[i] == old(tile_row_data)@[i],
                forall|i: int|
                    8 - bit_position <= i < 8 ==> tile_row_data@[i] == old(tile_row_data)@[i]
                        | spec_plane_bit(pixel_data, (7 - i) as u8, bit_plane),
            decreases 8 - bit_position,
        {
            let index = (7 - bit_position) as usize;
            tile_row_data[index] = tile_row_data[index] | (((pixel_data >> bit_position) & 1)
                << plane_shift);
            bit_position = bit_position + 1;
        }
        assert(tile_row_data@ =~= spec_read_tile_row(
            vram@,
            *addressing_mode,
            current_line,
            tile_id,
            bit_plane,
            old(tile_row_data)@,
        ));
        proof {
            if spec_colors_fit(old(tile_row_data)@) {
                assert forall|i: int| 0 <= i < 8 implies tile_row_data@[i] < 4 by {
                    lemma_plane_bit(old(tile_row_data)@[i], pixel_data, (7 - i) as u8, bit_plane);
                }
            }
        }
    }
}

/// Whether every color of a row fits in two bits.
pub fn colors_fit(colors: &[u8; 8]) -> (fit: bool)
    ensures
        fit == spec_colors_fit(colors@),
{
    let mut i: usize = 0;
    while i < 8
        invariant
            i <= 8,
            forall|k: int| 0 <= k < i ==> colors@[k] < 4,
        decreases 8 - i,
    {
        if colors[i] >= 4 {
            return false;
        }
        i = i + 1;
    }
    true
}

} // verus!
