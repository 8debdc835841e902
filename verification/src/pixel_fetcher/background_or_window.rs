//! The fetcher that fills the background and window queue.

use vstd::prelude::*;
use std::collections::VecDeque;
use crate::pixel_fetcher::{spec_colors_fit, spec_read_tile_row, Fetcher, FetcherState, FIFOItem};
use crate::ppu::{
    LCDC_BACKGROUND_TILE_MAP_AREA_BIT, PPU, PPUView, TILE_MAP0_VRAM_OFFSET, TILE_MAP1_VRAM_OFFSET,
    TILE_MAP_HORIZONTAL_TILE_COUNT, TILE_MAP_TILE_TOTAL,
};
use crate::utils::{is_bit_set, spec_is_bit_set};

verus! {

pub struct BackgroundOrWindowFetcher {
    pub state: FetcherState,
    pub fifo: VecDeque<FIFOItem>,
    pub row_of_pixel_within_tile: u8,
    pub tile_id: u8,
    pub vram_tile_column: u8,
    pub tile_row_data: [u8; 8],
}

pub ghost struct BackgroundOrWindowFetcherView {
    pub state: FetcherState,
    pub fifo: Seq<FIFOItem>,
    pub row_of_pixel_within_tile: u8,
    pub tile_id: u8,
    pub vram_tile_column: u8,
    pub tile_row_data: Seq<u8>,
}

impl View for BackgroundOrWindowFetcher {
    type V = BackgroundOrWindowFetcherView;

    open spec fn view(&self) -> BackgroundOrWindowFetcherView {
        BackgroundOrWindowFetcherView {
            state: self.state,
            fifo: self.fifo@,
            row_of_pixel_within_tile: self.row_of_pixel_within_tile,
            tile_id: self.tile_id,
            vram_tile_column: self.vram_tile_column,
            tile_row_data: self.tile_row_data@,
        }
    }
}

/// The queue entries made of a fetched row, leftmost pixel first.
pub open spec fn spec_row_items(tile_row_data: Seq<u8>) -> Seq<FIFOItem> {
    Seq::new(8, |i: int| FIFOItem { color: tile_row_data[i] })
}

impl BackgroundOrWindowFetcherView {
    /// Every gathered and every queued color fits in two bits, and the queue
    /// holds at most one row.
    pub open spec fn wf(self) -> bool {
        &&& self.tile_row_data.len() == 8
        &&& spec_colors_fit(self.tile_row_data)
        &&& self.fifo.len() <= 8
        &&& forall|i: int| 0 <= i < self.fifo.len() ==> (#[trigger] self.fifo[i]).color < 4
    }

    pub open spec fn spec_new() -> BackgroundOrWindowFetcherView {
        BackgroundOrWindowFetcherView {
            state: FetcherState::GetTileDelay,
            fifo: Seq::empty(),
            row_of_pixel_within_tile: 0,
            tile_id: 0,
            vram_tile_column: 0,
            tile_row_data: Seq::new(8, |i: int| 0u8),
        }
    }

    /// The fetcher at the start of a line: empty queue, first column, first
    /// state. The tile identifier is the one thing kept.
    pub open spec fn spec_reset(self) -> BackgroundOrWindowFetcherView {
        BackgroundOrWindowFetcherView { tile_id: self.tile_id, ..Self::spec_new() }
    }

    /// The line of the background that the fetcher reads on the PPU's current
    /// scanline.
    pub open spec fn spec_background_line(ppu: PPUView) -> u8 {
        ppu.spec_read_ly().wrapping_add(ppu.scy)
    }

    /// Which of the 1024 entries of a tile map the fetcher reads next.
    pub open spec fn spec_tile_index_in_map(self, ppu: PPUView) -> int {
        (Self::spec_background_line(ppu) / 8) * TILE_MAP_HORIZONTAL_TILE_COUNT
            + self.vram_tile_column
    }

    /// Whether the background is read from the second tile map.
    pub open spec fn spec_uses_second_map(ppu: PPUView) -> bool {
        spec_is_bit_set(ppu.lcd_control, LCDC_BACKGROUND_TILE_MAP_AREA_BIT)
    }

    /// Whether the fetcher can work for a dot: the entry that it is about to
    /// read lies within the 1024 entries of a tile map, and the column that it
    /// is about to move on from is not the last that a byte can count.
    pub open spec fn spec_can_tick(self, ppu: PPUView) -> bool {
        &&& self.state == FetcherState::GetTile ==> self.spec_tile_index_in_map(ppu)
            < TILE_MAP_TILE_TOTAL
        &&& self.state == FetcherState::PushRow && self.fifo.len() == 0
            ==> self.vram_tile_column < u8::MAX
    }

    /// The fetcher after one dot. The queue is filled only when it is empty,
    /// and then with a whole row at once; until then the fetcher waits in its
    /// last state.
    pub open spec fn spec_tick(self, ppu: PPUView) -> BackgroundOrWindowFetcherView {
        match self.state {
            FetcherState::GetTileDelay => BackgroundOrWindowFetcherView {
                state: FetcherState::GetTile,
                ..self
            },
            FetcherState::GetTile => {
                let base = if Self::spec_uses_second_map(ppu) {
                    TILE_MAP1_VRAM_OFFSET
                } else {
                    TILE_MAP0_VRAM_OFFSET
                };
                BackgroundOrWindowFetcherView {
                    tile_id: ppu.vram[base + self.spec_tile_index_in_map(ppu)],
                    state: FetcherState::GetTileDataLowDelay,
                    ..self
                }
            },
            FetcherState::GetTileDataLowDelay => BackgroundOrWindowFetcherView {
                state: FetcherState::GetTileDataLow,
                ..self
            },
            FetcherState::GetTileDataLow => BackgroundOrWindowFetcherView {
                tile_row_data: spec_read_tile_row(
                    ppu.vram,
                    ppu.spec_get_addressing_mode(),
                    Self::spec_background_line(ppu),
                    self.tile_id,
                    false,
                    self.tile_row_data,
                ),
                state: FetcherState::GetTileDataHighDelay,
                ..self
            },
            FetcherState::GetTileDataHighDelay => BackgroundOrWindowFetcherView {
                state: FetcherState::GetTileDataHigh,
                ..self
            },
            FetcherState::GetTileDataHigh => BackgroundOrWindowFetcherView {
                tile_row_data: spec_read_tile_row(
                    ppu.vram,
                    ppu.spec_get_addressing_mode(),
                    Self::spec_background_line(ppu),
                    self.tile_id,
                    true,
                    self.tile_row_data,
                ),
                state: FetcherState::PushRow,
                ..self
            },
            FetcherState::PushRow => if self.fifo.len() == 0 {
                BackgroundOrWindowFetcherView {
                    fifo: spec_row_items(self.tile_row_data),
                    vram_tile_column: (self.vram_tile_column + 1) as u8,
                    tile_row_data: Seq::new(8, |i: int| 0u8),
                    state: FetcherState::GetTileDelay,
                    ..self
                }
            } else {
                self
            },
        }
    }

    /// The PPU after one dot of the fetcher: reading a tile identifier records
    /// the addressing mode in force for that entry, in the first list of
    /// modes when the second tile map is read and in the second list when the
    /// first is.
    pub open spec fn spec_tick_ppu(self, ppu: PPUView) -> PPUView {
        if self.state == FetcherState::GetTile {
            if Self::spec_uses_second_map(ppu) {
                PPUView {
                    tile_map0_last_addressing_modes: ppu.tile_map0_last_addressing_modes.update(
                        self.spec_tile_index_in_map(ppu),
                        ppu.spec_get_addressing_mode(),
                    ),
                    ..ppu
                }
            } else {
                PPUView {
                    tile_map1_last_addressing_modes: ppu.tile_map1_last_addressing_modes.update(
                        self.spec_tile_index_in_map(ppu),
                        ppu.spec_get_addressing_mode(),
                    ),
                    ..ppu
                }
            }
        } else {
            ppu
        }
    }
}

impl BackgroundOrWindowFetcher {
    pub fn new() -> (fetcher: Self)
        ensures
            fetcher@ == BackgroundOrWindowFetcherView::spec_new(),
            fetcher@.wf(),
    {
        let fetcher = BackgroundOrWindowFetcher {
            state: FetcherState::GetTileDelay,
            fifo: VecDeque::new(),
            row_of_pixel_within_tile: 0,
            tile_id: 0,
            vram_tile_column: 0,
            tile_row_data: [0u8;8],
        };
        assert(fetcher@.tile_row_data =~= Seq::new(8, |i: int| 0u8));
        fetcher
    }

    pub fn prepare_for_new_frame(&mut self)
        ensures
            final(self)@ == old(self)@.spec_reset(),
            final(self)@.wf(),
    {
        self.state = FetcherState::GetTileDelay;
        self.fifo.clear();
        self.row_of_pixel_within_tile = 0;
        self.vram_tile_column = 0;
        self.tile_row_data = [0u8;8];
        assert(self@.tile_row_data =~= Seq::new(8, |i: int| 0u8));
    }

    pub fn prepare_for_new_row(&mut self)
        ensures
            final(self)@ == old(self)@.spec_reset(),
            final(self)@.wf(),
    {
        self.state = FetcherState::GetTileDelay;
        self.fifo.clear();
        self.row_of_pixel_within_tile = 0;
        self.vram_tile_column = 0;
        self.tile_row_data = [0u8;8];
        assert(self@.tile_row_data =~= Seq::new(8, |i: int| 0u8));
    }

    /// Lets the fetcher work for one dot. From an empty queue a dot leaves
    /// either nothing queued or the whole gathered row of eight, from left to
    /// right, with the column one higher; a queue that holds pixels is left as
    /// it is, and so is the column.
    pub fn tick(&mut self, ppu: &mut PPU)
        requires
            old(self)@.wf(),
            old(ppu)@.wf(),
            old(self)@.spec_can_tick(old(ppu)@),
        ensures
            final(self)@ == old(self)@.spec_tick(old(ppu)@),
            final(ppu)@ == old(self)@.spec_tick_ppu(old(ppu)@),
            final(self)@.wf(),
            final(ppu)@.wf(),
            old(self)@.fifo.len() == 0 ==> {
                ||| {
                    &&& final(self)@.fifo.len() == 0
                    &&& final(self)@.vram_tile_column == old(self)@.vram_tile_column
                }
                ||| {
                    &&& final(self)@.fifo == spec_row_items(old(self)@.tile_row_data)
                    &&& final(self)@.fifo.len() == 8
                    &&& final(self)@.vram_tile_column == old(self)@.vram_tile_column + 1
                }
            },
            old(self)@.fifo.len() > 0 ==> {
                &&& final(self)@.fifo == old(self)@.fifo
                &&& final(self)@.vram_tile_column == old(self)@.vram_tile_column
            },
    {
        match self.state {
            FetcherState::GetTileDelay => self.state = FetcherState::GetTile,
            FetcherState::GetTile => {
                let vram_pixel_row = ppu.read_ly().wrapping_add(ppu.scy);
                let tile_index_in_its_tile_map = (vram_pixel_row as usize / 8)
                    * TILE_MAP_HORIZONTAL_TILE_COUNT + self.vram_tile_column as usize;
                let mode = ppu.get_addressing_mode();
                let row_vram_offset = if is_bit_set(
                    ppu.lcd_control,
                    LCDC_BACKGROUND_TILE_MAP_AREA_BIT,
                ) {
                    ppu.tile_map0_last_addressing_modes[tile_index_in_its_tile_map] = mode;
                    TILE_MAP1_VRAM_OFFSET
                } else {
                    ppu.tile_map1_last_addressing_modes[tile_index_in_its_tile_map] = mode;
                    TILE_MAP0_VRAM_OFFSET
                };
                self.tile_id = ppu.vram[row_vram_offset + tile_index_in_its_tile_map];
                self.state = FetcherState::GetTileDataLowDelay;
            },
            FetcherState::GetTileDataLowDelay => {
                self.state = FetcherState::GetTileDataLow;
            },
            FetcherState::GetTileDataLow => {
                let line = ppu.read_ly().wrapping_add(ppu.scy);
                let mode = ppu.get_addressing_mode();
                Fetcher::read_tile_row(
                    &ppu.vram,
                    &mode,
                    line,
                    self.tile_id,
                    false,
                    &mut self.tile_row_data,
                );
                self.state = FetcherState::GetTileDataHighDelay;
            },
            FetcherState::GetTileDataHighDelay => {
                self.state = FetcherState::GetTileDataHigh;
            },
            FetcherState::GetTileDataHigh => {
                let line = ppu.read_ly().wrapping_add(ppu.scy);
                let mode = ppu.get_addressing_mode();
                Fetcher::read_tile_row(
                    &ppu.vram,
                    &mode,
                    line,
                    self.tile_id,
                    true,
                    &mut self.tile_row_data,
                );
                self.state = FetcherState::PushRow;
            },
            FetcherState::PushRow => {
                if self.fifo.len() == 0 {
                    let mut i: usize = 0;
                    while i < 8
                        invariant
                            i <= 8,
                            self.fifo@.len() == i,
                            forall|k: int|
                                0 <= k < i ==> self.fifo@[k] == (FIFOItem {
                                    color: self.tile_row_data@[k],
                                }),
                            self.tile_row_data == old(self).tile_row_data,
                            self.state == old(self).state,
                            self.tile_id == old(self).tile_id,
                            self.vram_tile_column == old(self).vram_tile_column,
                            self.row_of_pixel_within_tile == old(self).row_of_pixel_within_tile,
                        decreases 8 - i,
                    {
                        let color = self.tile_row_data[i];
                        self.fifo.push_back(FIFOItem { color });
                        i = i + 1;
                    }
                    assert(self.fifo@ =~= spec_row_items(old(self)@.tile_row_data));
                    self.vram_tile_column = self.vram_tile_column + 1;
                    self.tile_row_data = [0u8;8];
                    self.state = FetcherState::GetTileDelay;
                    assert(self@.tile_row_data =~= Seq::new(8, |i: int| 0u8));
                }
            },
        }
    }
}

/// The queue goes from empty to exactly eight entries in one dot, the row
/// that was gathered from left to right, and is never filled in part; the
/// column goes up by one with each push and with nothing else; and while the
/// queue still holds pixels, a fetcher that has a row ready does not begin a
/// new fetch.
pub proof fn lemma_fetch_granularity(fetcher: BackgroundOrWindowFetcherView, ppu: PPUView)
    ensures
        fetcher.spec_tick(ppu).fifo == fetcher.fifo || (fetcher.fifo.len() == 0
            && fetcher.spec_tick(ppu).fifo.len() == 8),
        fetcher.state == FetcherState::PushRow && fetcher.fifo.len() > 0 ==> fetcher.spec_tick(ppu)
            == fetcher,
        fetcher.spec_tick(ppu).state == FetcherState::GetTileDelay ==> fetcher.state
            == FetcherState::PushRow && fetcher.fifo.len() == 0,
        fetcher.state == FetcherState::PushRow && fetcher.fifo.len() == 0 ==> fetcher.spec_tick(
            ppu,
        ).fifo == spec_row_items(fetcher.tile_row_data),
        fetcher.state == FetcherState::PushRow && fetcher.fifo.len() == 0
            && fetcher.vram_tile_column < u8::MAX ==> fetcher.spec_tick(ppu).vram_tile_column
            == fetcher.vram_tile_column + 1,
        !(fetcher.state == FetcherState::PushRow && fetcher.fifo.len() == 0) ==> fetcher.spec_tick(
            ppu,
        ).vram_tile_column == fetcher.vram_tile_column,
{
}

impl Clone for BackgroundOrWindowFetcher {
    fn clone(&self) -> (copy: Self)
        ensures
            copy@ == self@,
    {
        let mut fifo: VecDeque<FIFOItem> = VecDeque::new();
        let mut i: usize = 0;
        while i < self.fifo.len()
            invariant
                i <= self.fifo@.len(),
                fifo@ == self.fifo@.subrange(0, i as int),
            decreases self.fifo@.len() - i,
        {
            fifo.push_back(self.fifo[i]);
            assert(self.fifo@.subrange(0, i as int).push(self.fifo@[i as int])
                =~= self.fifo@.subrange(0, i + 1));
            i = i + 1;
        }
        assert(fifo@ =~= self.fifo@);
        BackgroundOrWindowFetcher {
            state: self.state,
            fifo,
            row_of_pixel_within_tile: self.row_of_pixel_within_tile,
            tile_id: self.tile_id,
            vram_tile_column: self.vram_tile_column,
            tile_row_data: self.tile_row_data,
        }
    }
}

impl BackgroundOrWindowFetcher {
    /// Whether the fetcher is in a state that a dot can start from.
    pub fn wf(&self) -> (wf: bool)
        ensures
            wf == self@.wf(),
    {
        if !crate::pixel_fetcher::colors_fit(&self.tile_row_data) || self.fifo.len() > 8 {
            return false;
        }
        let mut i: usize = 0;
        while i < self.fifo.len()
            invariant
                i <= self.fifo@.len(),
                forall|k: int| 0 <= k < i ==> (#[trigger] self.fifo@[k]).color < 4,
            decreases self.fifo@.len() - i,
        {
            if self.fifo[i].color >= 4 {
                return false;
            }
            i = i + 1;
        }
        true
    }
}


impl BackgroundOrWindowFetcher {
    /// Whether the fetcher can work for a dot.
    pub fn can_tick(&self, ppu: &PPU) -> (can: bool)
        ensures
            can == self@.spec_can_tick(ppu@),
    {
        match self.state {
            FetcherState::GetTile => {
                let vram_pixel_row = ppu.read_ly().wrapping_add(ppu.scy);
                (vram_pixel_row as usize / 8) * TILE_MAP_HORIZONTAL_TILE_COUNT
                    + (self.vram_tile_column as usize) < TILE_MAP_TILE_TOTAL
            },
            FetcherState::PushRow => self.fifo.len() != 0 || self.vram_tile_column < u8::MAX,
            _ => true,
        }
    }
}

} // verus!
