//! The fetcher that fills the object queue from the objects selected for the
//! current scanline.

use vstd::prelude::*;
use std::collections::VecDeque;
use crate::pixel_fetcher::{
    spec_colors_fit, spec_read_tile_row, Fetcher, FetcherState, TileAddressingMode,
};
use crate::ppu::{OBJECTS_PER_SCANLINE, PPU, PPUView};

verus! {

#[derive(Clone, Copy, Debug, PartialEq, Eq, Structural)]
pub struct Sprite {
    pub attributes: u8,
    pub tile_index: u8,
    pub x_screen_plus_8: u8,
    pub y_screen_plus_16: u8,
}

#[derive(Clone, Copy, Debug, PartialEq, Eq, Structural)]
pub enum ObjectPalette {
    ObjectPalette0,
    ObjectPalette1,
}

#[derive(Clone, Copy, Debug, PartialEq, Eq, Structural)]
pub struct ObjectFIFOItem {
    pub color: u8,
    pub palette: ObjectPalette,
}

pub struct ObjectFetcher {
    pub state: FetcherState,
    pub fifo: VecDeque<ObjectFIFOItem>,
    pub sprite: Option<Sprite>,
    pub pixel_index_in_row: u8,
    pub tile_row_data: [u8; 8],
    pub selected_objects: VecDeque<Sprite>,
}

pub ghost struct ObjectFetcherView {
    pub state: FetcherState,
    pub fifo: Seq<ObjectFIFOItem>,
    pub sprite: Option<Sprite>,
    pub pixel_index_in_row: u8,
    pub tile_row_data: Seq<u8>,
    pub selected_objects: Seq<Sprite>,
}

impl View for ObjectFetcher {
    type V = ObjectFetcherView;

    open spec fn view(&self) -> ObjectFetcherView {
        ObjectFetcherView {
            state: self.state,
            fifo: self.fifo@,
            sprite: self.sprite,
            pixel_index_in_row: self.pixel_index_in_row,
            tile_row_data: self.tile_row_data@,
            selected_objects: self.selected_objects@,
        }
    }
}

/// Whether two ranges of integers, each given by its first and last member,
/// have a member in common.
pub open spec fn spec_inclusive_ranges_overlap(first: (i16, i16), second: (i16, i16)) -> bool {
    &&& first.0 <= first.1
    &&& first.0 <= second.1
    &&& second.0 <= first.1
    &&& second.0 <= second.1
}

/// Whether a sprite covers one of the eight columns that start at `current_x`.
pub open spec fn spec_sprite_covers(sprite: Sprite, current_x: u8) -> bool {
    spec_inclusive_ranges_overlap(
        (current_x as i16, (current_x + 7) as i16),
        ((sprite.x_screen_plus_8 - 8) as i16, (sprite.x_screen_plus_8 - 1) as i16),
    )
}

/// The first sprite at or after position `from` that covers the columns at
/// `current_x`.
pub open spec fn spec_find_sprite(selected: Seq<Sprite>, current_x: u8, from: int) -> Option<Sprite>
    decreases selected.len() - from,
{
    if from < 0 || from >= selected.len() {
        None
    } else if spec_sprite_covers(selected[from], current_x) {
        Some(selected[from])
    } else {
        spec_find_sprite(selected, current_x, from + 1)
    }
}

/// The palette that bit 4 of a sprite's attributes selects; the first one when
/// there is no sprite.
pub open spec fn spec_palette_for_sprite(sprite: Option<Sprite>) -> ObjectPalette {
    match sprite {
        Some(sprite) => if (sprite.attributes >> 4) & 1 == 0 {
            ObjectPalette::ObjectPalette0
        } else {
            ObjectPalette::ObjectPalette1
        },
        None => ObjectPalette::ObjectPalette0,
    }
}

/// The object queue after a fetched row is merged into it: a queued pixel is
/// replaced only where it is transparent, and the queue is topped up to eight
/// entries from the row.
pub open spec fn spec_merge_row(
    fifo: Seq<ObjectFIFOItem>,
    tile_row_data: Seq<u8>,
    palette: ObjectPalette,
) -> Seq<ObjectFIFOItem> {
    Seq::new(
        if fifo.len() > 8 {
            fifo.len()
        } else {
            8
        },
        |i: int|
            if i < fifo.len() && (i >= 8 || fifo[i].color != 0) {
                fifo[i]
            } else {
                ObjectFIFOItem { color: tile_row_data[i], palette }
            },
    )
}

pub fn inclusive_ranges_overlap(first: (i16, i16), second: (i16, i16)) -> (overlap: bool)
    ensures
        overlap == spec_inclusive_ranges_overlap(first, second),
{
    first.0 <= first.1 && first.0 <= second.1 && second.0 <= first.1 && second.0 <= second.1
}

pub fn palette_for_sprite(sprite: Option<&Sprite>) -> (palette: ObjectPalette)
    ensures
        palette == spec_palette_for_sprite(
            match sprite {
                Some(sprite) => Some(*sprite),
                None => None,
            },
        ),
{
    match sprite {
        Some(sprite) => if (sprite.attributes >> 4) & 1 == 0 {
            ObjectPalette::ObjectPalette0
        } else {
            ObjectPalette::ObjectPalette1
        },
        None => ObjectPalette::ObjectPalette0,
    }
}

impl ObjectFetcherView {
    /// Every gathered and every queued color fits in two bits, the queue holds
    /// at most one row, and at most ten objects are selected.
    pub open spec fn wf(self) -> bool {
        &&& self.tile_row_data.len() == 8
        &&& spec_colors_fit(self.tile_row_data)
        &&& self.fifo.len() <= 8
        &&& forall|i: int| 0 <= i < self.fifo.len() ==> (#[trigger] self.fifo[i]).color < 4
        &&& self.selected_objects.len() <= OBJECTS_PER_SCANLINE
    }

    pub open spec fn spec_new() -> ObjectFetcherView {
        ObjectFetcherView {
            state: FetcherState::GetTileDelay,
            fifo: Seq::empty(),
            sprite: None,
            pixel_index_in_row: 0,
            tile_row_data: Seq::new(8, |i: int| 0u8),
            selected_objects: Seq::empty(),
        }
    }

    pub open spec fn spec_prepare_for_new_row(self) -> ObjectFetcherView {
        ObjectFetcherView {
            state: FetcherState::GetTileDelay,
            fifo: Seq::empty(),
            tile_row_data: Seq::new(8, |i: int| 0u8),
            pixel_index_in_row: 0,
            ..self
        }
    }

    pub open spec fn spec_prepare_for_new_frame(self) -> ObjectFetcherView {
        ObjectFetcherView {
            state: FetcherState::GetTileDelay,
            fifo: Seq::empty(),
            pixel_index_in_row: 0,
            ..self
        }
    }

    /// The row that a data state gathers: a bit plane of the chosen sprite's
    /// tile, or all zeros when no sprite was chosen.
    pub open spec fn spec_fetch_plane(self, ppu: PPUView, bit_plane: bool) -> Seq<u8> {
        match self.sprite {
            Some(sprite) => spec_read_tile_row(
                ppu.vram,
                TileAddressingMode::UnsignedFrom0x8000,
                ppu.spec_read_ly().wrapping_add(ppu.scy),
                sprite.tile_index,
                bit_plane,
                self.tile_row_data,
            ),
            None => Seq::new(8, |i: int| 0u8),
        }
    }

    /// The fetcher after one dot. A row is fetched for the eight columns
    /// that start at `pixel_index_in_row`, from the first selected object that
    /// covers one of them, and then merged into the queue. No dot moves
    /// `pixel_index_in_row`: it changes only where a line or a frame begins.
    pub open spec fn spec_tick(self, ppu: PPUView) -> ObjectFetcherView {
        match self.state {
            FetcherState::GetTileDelay => ObjectFetcherView { state: FetcherState::GetTile, ..self },
            FetcherState::GetTile => ObjectFetcherView {
                sprite: spec_find_sprite(self.selected_objects, self.pixel_index_in_row, 0),
                state: FetcherState::GetTileDataLowDelay,
                ..self
            },
            FetcherState::GetTileDataLowDelay => ObjectFetcherView {
                state: FetcherState::GetTileDataLow,
                ..self
            },
            FetcherState::GetTileDataLow => ObjectFetcherView {
                tile_row_data: self.spec_fetch_plane(ppu, false),
                state: FetcherState::GetTileDataHighDelay,
                ..self
            },
            FetcherState::GetTileDataHighDelay => ObjectFetcherView {
                state: FetcherState::GetTileDataHigh,
                ..self
            },
            FetcherState::GetTileDataHigh => ObjectFetcherView {
                tile_row_data: self.spec_fetch_plane(ppu, true),
                state: FetcherState::PushRow,
                ..self
            },
            FetcherState::PushRow => ObjectFetcherView {
                fifo: spec_merge_row(
                    self.fifo,
                    self.tile_row_data,
                    spec_palette_for_sprite(self.sprite),
                ),
                tile_row_data: Seq::new(8, |i: int| 0u8),
                state: FetcherState::GetTileDelay,
                ..self
            },
        }
    }
}

impl ObjectFetcher {
    pub fn new() -> (fetcher: Self)
        ensures
            fetcher@ == ObjectFetcherView::spec_new(),
            fetcher@.wf(),
    {
        let fetcher = ObjectFetcher {
            state: FetcherState::GetTileDelay,
            fifo: VecDeque::new(),
            sprite: None,
            pixel_index_in_row: 0,
            tile_row_data: [0u8;8],
            selected_objects: VecDeque::new(),
        };
        assert(fetcher@.tile_row_data =~= Seq::new(8, |i: int| 0u8));
        fetcher
    }

    pub fn prepare_for_new_row(&mut self)
        requires
            old(self)@.wf(),
        ensures
            final(self)@ == old(self)@.spec_prepare_for_new_row(),
            final(self)@.wf(),
    {
        self.state = FetcherState::GetTileDelay;
        self.fifo.clear();
        self.tile_row_data = [0u8;8];
        self.pixel_index_in_row = 0;
        assert(self@.tile_row_data =~= Seq::new(8, |i: int| 0u8));
    }

    pub fn prepare_for_new_frame(&mut self)
        requires
            old(self)@.wf(),
        ensures
            final(self)@ == old(self)@.spec_prepare_for_new_frame(),
            final(self)@.wf(),
    {
        self.state = FetcherState::GetTileDelay;
        self.fifo.clear();
        self.pixel_index_in_row = 0;
    }

    /// The first selected object that covers the columns being fetched.
    fn find_sprite(&self) -> (found: Option<Sprite>)
        ensures
            found == spec_find_sprite(self@.selected_objects, self.pixel_index_in_row, 0),
    {
        let current_x = self.pixel_index_in_row as i16;
        let mut i: usize = 0;
        while i < self.selected_objects.len()
            invariant
                i <= self.selected_objects@.len(),
                current_x == self.pixel_index_in_row,
                spec_find_sprite(self@.selected_objects, self.pixel_index_in_row, 0)
                    == spec_find_sprite(self@.selected_objects, self.pixel_index_in_row, i as int),
            decreases self.selected_objects@.len() - i,
        {
            let item = self.selected_objects[i];
            let item_x_screen = item.x_screen_plus_8 as i16 - 8;
            if inclusive_ranges_overlap(
                (current_x, current_x + 7),
                (item_x_screen, item_x_screen + 7),
            ) {
                return Some(item);
            }
            i = i + 1;
        }
        None
    }

    pub fn tick(&mut self, ppu: &mut PPU)
        requires
            old(self)@.wf(),
            old(ppu)@.wf(),
        ensures
            final(self)@ == old(self)@.spec_tick(old(ppu)@),
            final(ppu)@ == old(ppu)@,
            final(self)@.wf(),
    {
        match self.state {
            FetcherState::GetTileDelay => self.state = FetcherState::GetTile,
            FetcherState::GetTile => {
                self.sprite = self.find_sprite();
                self.state = FetcherState::GetTileDataLowDelay
            },
            FetcherState::GetTileDataLowDelay => self.state = FetcherState::GetTileDataLow,
            FetcherState::GetTileDataLow => {
                let line = ppu.read_ly().wrapping_add(ppu.scy);
                match self.sprite {
                    Some(sprite) => Fetcher::read_tile_row(
                        &ppu.vram,
                        &TileAddressingMode::UnsignedFrom0x8000,
                        line,
                        sprite.tile_index,
                        false,
                        &mut self.tile_row_data,
                    ),
                    None => {
                        self.tile_row_data = [0u8;8];
                        assert(self@.tile_row_data =~= Seq::new(8, |i: int| 0u8));
                    },
                }
                self.state = FetcherState::GetTileDataHighDelay
            },
            FetcherState::GetTileDataHighDelay => self.state = FetcherState::GetTileDataHigh,
            FetcherState::GetTileDataHigh => {
                let line = ppu.read_ly().wrapping_add(ppu.scy);
                match self.sprite {
                    Some(sprite) => Fetcher::read_tile_row(
                        &ppu.vram,
                        &TileAddressingMode::UnsignedFrom0x8000,
                        line,
                        sprite.tile_index,
                        true,
                        &mut self.tile_row_data,
                    ),
                    None => {
                        self.tile_row_data = [0u8;8];
                        assert(self@.tile_row_data =~= Seq::new(8, |i: int| 0u8));
                    },
                }
                self.state = FetcherState::PushRow
            },
            FetcherState::PushRow => {
                let palette = palette_for_sprite(self.sprite.as_ref());
                let mut merged: VecDeque<ObjectFIFOItem> = VecDeque::new();
                let mut i: usize = 0;
                while i < 8
                    invariant
                        i <= 8,
                        old(self)@.fifo.len() <= 8,
                        palette == spec_palette_for_sprite(old(self)@.sprite),
                        merged@.len() == i,
                        forall|k: int|
                            0 <= k < i ==> merged@[k] == spec_merge_row(
                                old(self)@.fifo,
                                old(self)@.tile_row_data,
                                palette,
                            )[k],
                        self.fifo@ =~= old(self)@.fifo.subrange(
                            if i < old(self)@.fifo.len() {
                                i as int
                            } else {
                                old(self)@.fifo.len() as int
                            },
                            old(self)@.fifo.len() as int,
                        ),
                        self.tile_row_data == old(self).tile_row_data,
                        self.state == old(self).state,
                        self.sprite == old(self).sprite,
                        self.pixel_index_in_row == old(self).pixel_index_in_row,
                        self.selected_objects == old(self).selected_objects,
                    decreases 8 - i,
                {
                    let fresh = ObjectFIFOItem { color: self.tile_row_data[i], palette };
                    match self.fifo.pop_front() {
                        Some(queued) => {
                            if queued.color == 0 {
                                merged.push_back(fresh);
                            } else {
                                merged.push_back(queued);
                            }
                        },
                        None => {
                            merged.push_back(fresh);
                        },
                    }
                    i = i + 1;
                }
                assert(merged@ =~= spec_merge_row(
                    old(self)@.fifo,
                    old(self)@.tile_row_data,
                    palette,
                ));
                self.fifo = merged;
                self.tile_row_data = [0u8;8];
                self.state = FetcherState::GetTileDelay;
                assert(self@.tile_row_data =~= Seq::new(8, |i: int| 0u8));
            },
        }
    }
}


impl Clone for ObjectFetcher {
    fn clone(&self) -> (copy: Self)
        ensures
            copy@ == self@,
    {
        let mut fifo: VecDeque<ObjectFIFOItem> = VecDeque::new();
        let mut i: usize = 0;
        while i < self.fifo.len()
            invariant
                i <= self.fifo@.len(),
                fifo@ == self.fifo@.subrange(0, i as int),
            decreases self.fifo@.len() - i,
        {
            fifo.push_back(self.fifo[i]);
            assert(self.fifo@.subrange(0, i as int).push(self.fifo@[i as int])
                =~= self.fifo@.subrange(0, i + 1));
            i = i + 1;
        }
        assert(fifo@ =~= self.fifo@);
        let mut selected_objects: VecDeque<Sprite> = VecDeque::new();
        let mut k: usize = 0;
        while k < self.selected_objects.len()
            invariant
                k <= self.selected_objects@.len(),
                selected_objects@ == self.selected_objects@.subrange(0, k as int),
            decreases self.selected_objects@.len() - k,
        {
            selected_objects.push_back(self.selected_objects[k]);
            assert(self.selected_objects@.subrange(0, k as int).push(
                self.selected_objects@[k as int],
            ) =~= self.selected_objects@.subrange(0, k + 1));
            k = k + 1;
        }
        assert(selected_objects@ =~= self.selected_objects@);
        ObjectFetcher {
            state: self.state,
            fifo,
            sprite: self.sprite,
            pixel_index_in_row: self.pixel_index_in_row,
            tile_row_data: self.tile_row_data,
            selected_objects,
        }
    }
}


impl ObjectFetcher {
    /// Whether the fetcher is in a state that a dot can start from.
    pub fn wf(&self) -> (wf: bool)
        ensures
            wf == self@.wf(),
    {
        if !crate::pixel_fetcher::colors_fit(&self.tile_row_data) || self.fifo.len() > 8
            || self.selected_objects.len() > OBJECTS_PER_SCANLINE {
            return false;
        }
        let mut i: usize = 0;
        while i < self.fifo.len()
            invariant
                i <= self.fifo@.len(),
                forall|k: int| 0 <= k < i ==> (#[trigger] self.fifo@[k]).color < 4,
            decreases self.fifo@.len() - i,
        {
            if self.fifo[i].color >= 4 {
                return false;
            }
            i = i + 1;
        }
        true
    }
}

} // verus!
