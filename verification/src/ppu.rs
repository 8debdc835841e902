//! The pixel processing unit: its registers and memories, the per-dot mode
//! state machine, and the rendering of the debug surfaces.

use vstd::prelude::*;
use std::collections::VecDeque;
use crate::cpu::interrupts::{Interrupts, STAT_INTERRUPT_BIT, VBLANK_INTERRUPT_BIT};
use crate::fault::Fault;
use crate::pixel_fetcher::background_or_window::{BackgroundOrWindowFetcher, BackgroundOrWindowFetcherView};
use crate::pixel_fetcher::object::{ObjectFetcher, ObjectFetcherView, ObjectFIFOItem, ObjectPalette, Sprite};
use crate::pixel_fetcher::{
    spec_tile_index_in_palette, tile_index_in_palette, Fetcher, FetchingFor, FIFOItem,
    TileAddressingMode,
};
use crate::utils::{
    is_bit_set, set_bit, spec_is_bit_set, spec_set_bit, spec_unset_bit, unset_bit,
};

verus! {

pub const TILE_MAP0_VRAM_OFFSET: usize = 0x1800;

pub const TILE_MAP1_VRAM_OFFSET: usize = 0x1C00;

pub const OAM_SIZE: usize = 0xA0;

pub const VRAM_SIZE: usize = 0x2000;

pub const WRAM_SIZE: usize = 0x1000;

pub const LCD_HORIZONTAL_PIXEL_COUNT: usize = 160;

pub const LCD_VERTICAL_PIXEL_COUNT: usize = 144;

pub const HORIZONTAL_PIXELS_PER_TILE: usize = 8;

pub const VERTICAL_PIXELS_PER_TILE: usize = 8;

pub const PIXELS_PER_TILE: usize = 64;

pub const TILE_PALETTE_HORIZONTAL_TILE_COUNT: usize = 16;

pub const TILE_PALETTE_VERTICAL_TILE_COUNT: usize = 24;

pub const TILE_PALETTE_HORIZONTAL_PIXELS: usize = 128;

pub const TILE_PALETTE_VERTICAL_PIXELS: usize = 192;

pub const TILE_PALETTE_PIXELS_TOTAL: usize = 24576;

pub const TILE_MAP_HORIZONTAL_TILE_COUNT: usize = 32;

pub const TILE_MAP_VERTICAL_TILE_COUNT: usize = 32;

pub const TILE_MAP_TILE_TOTAL: usize = 1024;

pub const TILE_MAP_HORIZONTAL_PIXELS: usize = 256;

pub const TILE_MAP_VERTICAL_PIXELS: usize = 256;

pub const TILE_MAP_PIXELS_TOTAL: usize = 65536;

/// Bytes per pixel of a rendered surface: red, green, blue, alpha.
pub const PIXEL_DATA_SIZE: usize = 4;

/// Bytes of the rendered screen.
pub const LCD_BYTES: usize = 92160;

/// Bytes of a rendered tile map.
pub const TILE_MAP_BYTES: usize = 262144;

/// Bytes of the rendered tile palette.
pub const TILE_PALETTE_BYTES: usize = 98304;

/// Dots in the object scan that opens a scanline.
pub const OAM_SCAN_DOTS: u16 = 80;

/// Dots in a scanline.
pub const SCANLINE_DOTS: u16 = 456;

/// The last scanline of the vertical blank.
pub const LAST_SCANLINE: u8 = 153;

/// The most objects shown on one scanline.
pub const OBJECTS_PER_SCANLINE: usize = 10;

pub const LCDC_BACKGROUND_TILE_MAP_AREA_BIT: u8 = 3;

pub const LCDC_BACKGROUND_AND_WINDOW_TILE_AREA_BIT: u8 = 4;

pub const LCDC_LCD_ENABLE_BIT: u8 = 7;

pub const LYC_EQUALS_LY_BIT: u8 = 2;

pub const MODE_0_INTERRUPT_SELECT_BIT: u8 = 3;

pub const MODE_1_INTERRUPT_SELECT_BIT: u8 = 4;

pub const MODE_2_INTERRUPT_SELECT_BIT: u8 = 5;

pub const LYC_EQUALS_LY_INTERRUPT_SELECT_BIT: u8 = 6;

#[derive(Clone, Copy, Debug, PartialEq, Eq, Structural)]
pub enum PPUState {
    OAMScan,
    DrawingPixels,
    HorizontalBlank,
    VerticalBlank,
}

pub struct PPU {
    pub drawn_pixels_on_current_row: u8,
    /// Makes the scanline register read as 144 whatever the scanline is.
    pub fix_ly_for_gb_doctor: bool,
    /// The STAT interrupt is requested on a rising edge of the STAT line, so
    /// the line's last value is kept.
    pub last_stat_line: u8,
    pub scanline_dots: u16,
    pub state: PPUState,
    pub background_palette_data: u8,
    pub cgb_background_palette_data: u8,
    pub cgb_background_palette_spec: u8,
    pub lcd_control: u8,
    pub lcd_status: u8,
    pub lcd_y_compare: u8,
    pub lcd_y_coord: u8,
    pub object_palette_data: u8,
    pub object_palette_spec: u8,
    pub object_palette_0: u8,
    pub object_palette_1: u8,
    pub scx: u8,
    pub scy: u8,
    pub vram_bank: u8,
    pub window_x7: u8,
    pub window_y: u8,
    pub object_attribute_memory: [u8; 0xA0],
    pub vram: [u8; 0x2000],
    pub wram_0: [u8; 0x1000],
    pub wram_1: [u8; 0x1000],
    pub lcd_pixels: Vec<u8>,
    pub tile_map0_pixels: Vec<u8>,
    pub tile_map1_pixels: Vec<u8>,
    pub tile_palette_pixels: Vec<u8>,
    pub frame_scxs: [u8; 144],
    pub frame_scxs_valid: [bool; 144],
    pub frame_scys_at_scanline_0: [u8; 160],
    pub frame_scys_first_scanline_valid: [bool; 160],
    pub tile_map0_last_addressing_modes: [TileAddressingMode; 1024],
    pub tile_map1_last_addressing_modes: [TileAddressingMode; 1024],
}

pub ghost struct PPUView {
    pub drawn_pixels_on_current_row: u8,
    pub fix_ly_for_gb_doctor: bool,
    pub last_stat_line: u8,
    pub scanline_dots: u16,
    pub state: PPUState,
    pub background_palette_data: u8,
    pub cgb_background_palette_data: u8,
    pub cgb_background_palette_spec: u8,
    pub lcd_control: u8,
    pub lcd_status: u8,
    pub lcd_y_compare: u8,
    pub lcd_y_coord: u8,
    pub object_palette_data: u8,
    pub object_palette_spec: u8,
    pub object_palette_0: u8,
    pub object_palette_1: u8,
    pub scx: u8,
    pub scy: u8,
    pub vram_bank: u8,
    pub window_x7: u8,
    pub window_y: u8,
    pub object_attribute_memory: Seq<u8>,
    pub vram: Seq<u8>,
    pub wram_0: Seq<u8>,
    pub wram_1: Seq<u8>,
    pub lcd_pixels: Seq<u8>,
    pub tile_map0_pixels: Seq<u8>,
    pub tile_map1_pixels: Seq<u8>,
    pub tile_palette_pixels: Seq<u8>,
    pub frame_scxs: Seq<u8>,
    pub frame_scxs_valid: Seq<bool>,
    pub frame_scys_at_scanline_0: Seq<u8>,
    pub frame_scys_first_scanline_valid: Seq<bool>,
    pub tile_map0_last_addressing_modes: Seq<TileAddressingMode>,
    pub tile_map1_last_addressing_modes: Seq<TileAddressingMode>,
}

impl View for PPU {
    type V = PPUView;

    open spec fn view(&self) -> PPUView {
        PPUView {
            drawn_pixels_on_current_row: self.drawn_pixels_on_current_row,
            fix_ly_for_gb_doctor: self.fix_ly_for_gb_doctor,
            last_stat_line: self.last_stat_line,
            scanline_dots: self.scanline_dots,
            state: self.state,
            background_palette_data: self.background_palette_data,
            cgb_background_palette_data: self.cgb_background_palette_data,
            cgb_background_palette_spec: self.cgb_background_palette_spec,
            lcd_control: self.lcd_control,
            lcd_status: self.lcd_status,
            lcd_y_compare: self.lcd_y_compare,
            lcd_y_coord: self.lcd_y_coord,
            object_palette_data: self.object_palette_data,
            object_palette_spec: self.object_palette_spec,
            object_palette_0: self.object_palette_0,
            object_palette_1: self.object_palette_1,
            scx: self.scx,
            scy: self.scy,
            vram_bank: self.vram_bank,
            window_x7: self.window_x7,
            window_y: self.window_y,
            object_attribute_memory: self.object_attribute_memory@,
            vram: self.vram@,
            wram_0: self.wram_0@,
            wram_1: self.wram_1@,
            lcd_pixels: self.lcd_pixels@,
            tile_map0_pixels: self.tile_map0_pixels@,
            tile_map1_pixels: self.tile_map1_pixels@,
            tile_palette_pixels: self.tile_palette_pixels@,
            frame_scxs: self.frame_scxs@,
            frame_scxs_valid: self.frame_scxs_valid@,
            frame_scys_at_scanline_0: self.frame_scys_at_scanline_0@,
            frame_scys_first_scanline_valid: self.frame_scys_first_scanline_valid@,
            tile_map0_last_addressing_modes: self.tile_map0_last_addressing_modes@,
            tile_map1_last_addressing_modes: self.tile_map1_last_addressing_modes@,
        }
    }
}

/// The gray of a two-bit shade, lightest first.
pub open spec fn spec_shade_gray(pixel_shade: u8) -> u8 {
    if pixel_shade == 0 {
        0xFF
    } else if pixel_shade == 1 {
        0xAA
    } else if pixel_shade == 2 {
        0x55
    } else {
        0
    }
}

/// The shade that a palette gives to a color: the color-th pair of bits of the
/// palette, counted from the least significant pair.
pub open spec fn spec_pixel_shade(pixel_code: u8, palette: u8) -> u8 {
    if pixel_code == 0 {
        palette & 0b11
    } else if pixel_code == 1 {
        (palette >> 2) & 0b11
    } else if pixel_code == 2 {
        (palette >> 4) & 0b11
    } else {
        (palette >> 6) & 0b11
    }
}

/// The four bytes of an opaque gray pixel for a color under a palette.
pub open spec fn spec_pixel_code_to_rgba(pixel_code: u8, palette: u8) -> Seq<u8> {
    let gray = spec_shade_gray(spec_pixel_shade(pixel_code, palette));
    seq![gray, gray, gray, 255u8]
}

/// Where the four bytes of screen pixel (x, y) start.
pub open spec fn spec_pixel_coordinates_in_rgba_slice(x: u8, y: u8) -> int {
    (y * LCD_HORIZONTAL_PIXEL_COUNT + x) * PIXEL_DATA_SIZE
}

/// `surface` with the four bytes at `from` replaced by `rgba`.
pub open spec fn spec_put_pixel(surface: Seq<u8>, from: int, rgba: Seq<u8>) -> Seq<u8> {
    surface.update(from, rgba[0]).update(from + 1, rgba[1]).update(from + 2, rgba[2]).update(
        from + 3,
        rgba[3],
    )
}

pub fn pixel_code_to_rgba(pixel_code: u8, palette: u8) -> (rgba: [u8; 4])
    requires
        pixel_code < 4,
    ensures
        rgba@ == spec_pixel_code_to_rgba(pixel_code, palette),
{
    let pixel_shade = if pixel_code == 0 {
        palette & 0b11
    } else if pixel_code == 1 {
        (palette >> 2) & 0b11
    } else if pixel_code == 2 {
        (palette >> 4) & 0b11
    } else {
        (palette >> 6) & 0b11
    };
    let gray: u8 = if pixel_shade == 0 {
        0xFF
    } else if pixel_shade == 1 {
        0xAA
    } else if pixel_shade == 2 {
        0x55
    } else {
        0
    };
    let rgba = [gray, gray, gray, 255u8];
    assert(rgba@ =~= spec_pixel_code_to_rgba(pixel_code, palette));
    rgba
}

/// Each pixel takes four bytes and each line 160 pixels.
pub fn pixel_coordinates_in_rgba_slice(x: u8, y: u8) -> (from: usize)
    ensures
        from == spec_pixel_coordinates_in_rgba_slice(x, y),
{
    ((y as usize) * LCD_HORIZONTAL_PIXEL_COUNT + (x as usize)) * PIXEL_DATA_SIZE
}

/// Writes one pixel into a rendered surface.
fn put_pixel(surface: &mut Vec<u8>, from: usize, rgba: &[u8; 4])
    requires
        from + 4 <= old(surface)@.len(),
    ensures
        final(surface)@ == spec_put_pixel(old(surface)@, from as int, rgba@),
        final(surface)@.len() == old(surface)@.len(),
{
    let length = surface.len();
    surface[from] = rgba[0];
    surface[from + 1] = rgba[1];
    surface[from + 2] = rgba[2];
    surface[from + 3] = rgba[3];
}

impl PPUView {
    /// The lengths of the rendered surfaces, and the bound on the pixels drawn
    /// on the current line while the line is still being drawn.
    pub open spec fn wf(self) -> bool {
        &&& self.lcd_pixels.len() == LCD_BYTES
        &&& self.tile_map0_pixels.len() == TILE_MAP_BYTES
        &&& self.tile_map1_pixels.len() == TILE_MAP_BYTES
        &&& self.tile_palette_pixels.len() == TILE_PALETTE_BYTES
        &&& self.object_attribute_memory.len() == OAM_SIZE
        &&& self.vram.len() == VRAM_SIZE
        &&& self.wram_0.len() == WRAM_SIZE
        &&& self.wram_1.len() == WRAM_SIZE
        &&& self.frame_scxs.len() == LCD_VERTICAL_PIXEL_COUNT
        &&& self.frame_scxs_valid.len() == LCD_VERTICAL_PIXEL_COUNT
        &&& self.frame_scys_at_scanline_0.len() == LCD_HORIZONTAL_PIXEL_COUNT
        &&& self.frame_scys_first_scanline_valid.len() == LCD_HORIZONTAL_PIXEL_COUNT
        &&& self.tile_map0_last_addressing_modes.len() == TILE_MAP_TILE_TOTAL
        &&& self.tile_map1_last_addressing_modes.len() == TILE_MAP_TILE_TOTAL
        &&& self.scanline_dots <= SCANLINE_DOTS
        &&& self.drawn_pixels_on_current_row <= LCD_HORIZONTAL_PIXEL_COUNT
        &&& (self.state == PPUState::OAMScan || self.state == PPUState::DrawingPixels)
            ==> self.drawn_pixels_on_current_row < LCD_HORIZONTAL_PIXEL_COUNT
    }

    /// A unit that has not run yet: every register and memory zero, but for
    /// the status register, which starts in the object scan.
    pub open spec fn spec_new(fix_ly: bool) -> PPUView {
        PPUView {
            drawn_pixels_on_current_row: 0,
            fix_ly_for_gb_doctor: fix_ly,
            last_stat_line: 0,
            scanline_dots: 0,
            state: PPUState::OAMScan,
            background_palette_data: 0,
            cgb_background_palette_data: 0,
            cgb_background_palette_spec: 0,
            lcd_control: 0,
            lcd_status: 2,
            lcd_y_compare: 0,
            lcd_y_coord: 0,
            object_palette_data: 0,
            object_palette_spec: 0,
            object_palette_0: 0,
            object_palette_1: 0,
            scx: 0,
            scy: 0,
            vram_bank: 0,
            window_x7: 0,
            window_y: 0,
            object_attribute_memory: Seq::new(OAM_SIZE as nat, |i: int| 0u8),
            vram: Seq::new(VRAM_SIZE as nat, |i: int| 0u8),
            wram_0: Seq::new(WRAM_SIZE as nat, |i: int| 0u8),
            wram_1: Seq::new(WRAM_SIZE as nat, |i: int| 0u8),
            lcd_pixels: Seq::new(LCD_BYTES as nat, |i: int| 0u8),
            tile_map0_pixels: Seq::new(TILE_MAP_BYTES as nat, |i: int| 0u8),
            tile_map1_pixels: Seq::new(TILE_MAP_BYTES as nat, |i: int| 0u8),
            tile_palette_pixels: Seq::new(TILE_PALETTE_BYTES as nat, |i: int| 0u8),
            frame_scxs: Seq::new(LCD_VERTICAL_PIXEL_COUNT as nat, |i: int| 0u8),
            frame_scxs_valid: Seq::new(LCD_VERTICAL_PIXEL_COUNT as nat, |i: int| true),
            frame_scys_at_scanline_0: Seq::new(LCD_HORIZONTAL_PIXEL_COUNT as nat, |i: int| 0u8),
            frame_scys_first_scanline_valid: Seq::new(
                LCD_HORIZONTAL_PIXEL_COUNT as nat,
                |i: int| true,
            ),
            tile_map0_last_addressing_modes: Seq::new(
                TILE_MAP_TILE_TOTAL as nat,
                |i: int| TileAddressingMode::UnsignedFrom0x8000,
            ),
            tile_map1_last_addressing_modes: Seq::new(
                TILE_MAP_TILE_TOTAL as nat,
                |i: int| TileAddressingMode::UnsignedFrom0x8000,
            ),
        }
    }

    pub open spec fn spec_get_addressing_mode(self) -> TileAddressingMode {
        if spec_is_bit_set(self.lcd_control, LCDC_BACKGROUND_AND_WINDOW_TILE_AREA_BIT) {
            TileAddressingMode::UnsignedFrom0x8000
        } else {
            TileAddressingMode::SignedFrom0x9000
        }
    }

    pub open spec fn spec_is_lcd_ppu_on(self) -> bool {
        spec_is_bit_set(self.lcd_control, LCDC_LCD_ENABLE_BIT)
    }

    /// What a read of the scanline register gives.
    pub open spec fn spec_read_ly(self) -> u8 {
        if self.fix_ly_for_gb_doctor {
            144
        } else {
            self.lcd_y_coord
        }
    }

    /// The unit after its scanline register moves to the next line: the
    /// coincidence bit of the status register follows the comparison with the
    /// compare register.
    pub open spec fn spec_increment_ly(self) -> PPUView {
        let ly = self.lcd_y_coord.wrapping_add(1);
        if ly == self.lcd_y_compare {
            PPUView {
                lcd_y_coord: ly,
                lcd_status: spec_set_bit(self.lcd_status, LYC_EQUALS_LY_BIT),
                ..self
            }
        } else {
            PPUView {
                lcd_y_coord: ly,
                lcd_status: spec_unset_bit(self.lcd_status, LYC_EQUALS_LY_BIT),
                ..self
            }
        }
    }

    /// Whether moving to the next line requests the STAT interrupt: the new
    /// line equals the compare register and that source is selected.
    pub open spec fn spec_increment_ly_requests(self) -> bool {
        &&& self.lcd_y_coord.wrapping_add(1) == self.lcd_y_compare
        &&& spec_is_bit_set(
            spec_set_bit(self.lcd_status, LYC_EQUALS_LY_BIT),
            LYC_EQUALS_LY_INTERRUPT_SELECT_BIT,
        )
    }

    /// The unit at the top of a new frame.
    pub open spec fn spec_prepare_for_new_frame(self) -> PPUView {
        PPUView {
            lcd_y_coord: 0,
            frame_scxs: Seq::new(LCD_VERTICAL_PIXEL_COUNT as nat, |i: int| 0u8),
            frame_scxs_valid: Seq::new(LCD_VERTICAL_PIXEL_COUNT as nat, |i: int| true),
            frame_scys_at_scanline_0: Seq::new(LCD_HORIZONTAL_PIXEL_COUNT as nat, |i: int| 0u8),
            frame_scys_first_scanline_valid: Seq::new(
                LCD_HORIZONTAL_PIXEL_COUNT as nat,
                |i: int| true,
            ),
            ..self
        }
    }

    /// The status register with the three mode selections set to mark `mode`.
    pub open spec fn spec_mark_mode(self, mode_0: bool, mode_1: bool, mode_2: bool) -> u8 {
        let with_0 = if mode_0 {
            spec_set_bit(self.lcd_status, MODE_0_INTERRUPT_SELECT_BIT)
        } else {
            spec_unset_bit(self.lcd_status, MODE_0_INTERRUPT_SELECT_BIT)
        };
        let with_1 = if mode_1 {
            spec_set_bit(with_0, MODE_1_INTERRUPT_SELECT_BIT)
        } else {
            spec_unset_bit(with_0, MODE_1_INTERRUPT_SELECT_BIT)
        };
        if mode_2 {
            spec_set_bit(with_1, MODE_2_INTERRUPT_SELECT_BIT)
        } else {
            spec_unset_bit(with_1, MODE_2_INTERRUPT_SELECT_BIT)
        }
    }
}

impl PPU {
    pub fn new(fix_ly: bool) -> (ppu: Self)
        ensures
            ppu@ == PPUView::spec_new(fix_ly),
            ppu@.wf(),
    {
        let ppu = PPU {
            drawn_pixels_on_current_row: 0,
            fix_ly_for_gb_doctor: fix_ly,
            last_stat_line: 0,
            scanline_dots: 0,
            state: PPUState::OAMScan,
            background_palette_data: 0,
            cgb_background_palette_spec: 0,
            cgb_background_palette_data: 0,
            lcd_control: 0,
            lcd_status: 2,
            lcd_y_compare: 0,
            lcd_y_coord: 0,
            object_palette_data: 0,
            object_palette_0: 0,
            object_palette_1: 0,
            object_palette_spec: 0,
            scx: 0,
            scy: 0,
            vram_bank: 0,
            window_x7: 0,
            window_y: 0,
            object_attribute_memory: [0u8;0xA0],
            vram: [0u8;0x2000],
            wram_0: [0u8;0x1000],
            wram_1: [0u8;0x1000],
            lcd_pixels: vec![0u8; LCD_BYTES],
            tile_map0_pixels: vec![0u8; TILE_MAP_BYTES],
            tile_map1_pixels: vec![0u8; TILE_MAP_BYTES],
            tile_palette_pixels: vec![0u8; TILE_PALETTE_BYTES],
            frame_scxs: [0u8;144],
            frame_scxs_valid: [true;144],
            frame_scys_at_scanline_0: [0u8;160],
            frame_scys_first_scanline_valid: [true;160],
            tile_map0_last_addressing_modes: [TileAddressingMode::UnsignedFrom0x8000;1024],
            tile_map1_last_addressing_modes: [TileAddressingMode::UnsignedFrom0x8000;1024],
        };
        proof {
            let fresh = PPUView::spec_new(fix_ly);
            assert(ppu@.object_attribute_memory =~= fresh.object_attribute_memory);
            assert(ppu@.vram =~= fresh.vram);
            assert(ppu@.wram_0 =~= fresh.wram_0);
            assert(ppu@.wram_1 =~= fresh.wram_1);
            assert(ppu@.lcd_pixels =~= fresh.lcd_pixels);
            assert(ppu@.tile_map0_pixels =~= fresh.tile_map0_pixels);
            assert(ppu@.tile_map1_pixels =~= fresh.tile_map1_pixels);
            assert(ppu@.tile_palette_pixels =~= fresh.tile_palette_pixels);
            assert(ppu@.frame_scxs =~= fresh.frame_scxs);
            assert(ppu@.frame_scxs_valid =~= fresh.frame_scxs_valid);
            assert(ppu@.frame_scys_at_scanline_0 =~= fresh.frame_scys_at_scanline_0);
            assert(ppu@.frame_scys_first_scanline_valid =~= fresh.frame_scys_first_scanline_valid);
            assert(ppu@.tile_map0_last_addressing_modes =~= fresh.tile_map0_last_addressing_modes);
            assert(ppu@.tile_map1_last_addressing_modes =~= fresh.tile_map1_last_addressing_modes);
        }
        ppu
    }

    pub fn get_addressing_mode(&self) -> (mode: TileAddressingMode)
        ensures
            mode == self@.spec_get_addressing_mode(),
    {
        if is_bit_set(self.lcd_control, LCDC_BACKGROUND_AND_WINDOW_TILE_AREA_BIT) {
            TileAddressingMode::UnsignedFrom0x8000
        } else {
            TileAddressingMode::SignedFrom0x9000
        }
    }

    pub fn is_lcd_ppu_on(&self) -> (on: bool)
        ensures
            on == self@.spec_is_lcd_ppu_on(),
    {
        is_bit_set(self.lcd_control, LCDC_LCD_ENABLE_BIT)
    }

    pub fn increment_ly(&mut self, interrupts: &mut Interrupts)
        ensures
            final(self)@ == old(self)@.spec_increment_ly(),
            *final(interrupts) == if old(self)@.spec_increment_ly_requests() {
                old(interrupts).spec_request(STAT_INTERRUPT_BIT)
            } else {
                *old(interrupts)
            },
    {
        self.lcd_y_coord = self.lcd_y_coord.wrapping_add(1);
        if self.lcd_y_coord == self.lcd_y_compare {
            set_bit(&mut self.lcd_status, LYC_EQUALS_LY_BIT);
            if is_bit_set(self.lcd_status, LYC_EQUALS_LY_INTERRUPT_SELECT_BIT) {
                interrupts.request_interrupt(STAT_INTERRUPT_BIT);
            }
        } else {
            unset_bit(&mut self.lcd_status, LYC_EQUALS_LY_BIT);
        }
    }

    pub fn read_ly(&self) -> (ly: u8)
        ensures
            ly == self@.spec_read_ly(),
    {
        if self.fix_ly_for_gb_doctor {
            144
        } else {
            self.lcd_y_coord
        }
    }

    pub fn read_vram(&self, address: u16) -> (byte: u8)
        requires
            address < VRAM_SIZE,
        ensures
            byte == self@.vram[address as int],
    {
        self.vram[address as usize]
    }

    pub fn read_wram_0(&self, address: u16) -> (byte: u8)
        requires
            address < WRAM_SIZE,
        ensures
            byte == self@.wram_0[address as int],
    {
        self.wram_0[address as usize]
    }

    pub fn read_wram_1(&self, address: u16) -> (byte: u8)
        requires
            address < WRAM_SIZE,
        ensures
            byte == self@.wram_1[address as int],
    {
        self.wram_1[address as usize]
    }

    pub fn read_lcdc(&self) -> (byte: u8)
        ensures
            byte == self@.lcd_control,
    {
        self.lcd_control
    }

    pub fn write_vram(&mut self, address: u16, value: u8)
        requires
            address < VRAM_SIZE,
        ensures
            final(self)@ == (PPUView { vram: old(self)@.vram.update(address as int, value), ..old(self)@ }),
    {
        self.vram[address as usize] = value;
    }

    pub fn write_wram_0(&mut self, address: u16, value: u8)
        requires
            address < WRAM_SIZE,
        ensures
            final(self)@ == (PPUView {
                wram_0: old(self)@.wram_0.update(address as int, value),
                ..old(self)@
            }),
    {
        self.wram_0[address as usize] = value;
    }

    pub fn write_wram_1(&mut self, address: u16, value: u8)
        requires
            address < WRAM_SIZE,
        ensures
            final(self)@ == (PPUView {
                wram_1: old(self)@.wram_1.update(address as int, value),
                ..old(self)@
            }),
    {
        self.wram_1[address as usize] = value;
    }

    pub fn write_lcdc(&mut self, value: u8)
        ensures
            final(self)@ == (PPUView { lcd_control: value, ..old(self)@ }),
    {
        self.lcd_control = value;
    }
}


/// The parts of a machine that a dot of the pixel pipeline can change.
pub ghost struct PixelPipeline {
    pub ppu: PPUView,
    pub bgw_fetcher: BackgroundOrWindowFetcherView,
    pub obj_fetcher: ObjectFetcherView,
    pub pixel_fetcher: Fetcher,
    pub interrupts: Interrupts,
}

/// The object described by entry `entry` of object attribute memory.
pub open spec fn spec_sprite_at(oam: Seq<u8>, entry: int) -> Sprite {
    Sprite {
        y_screen_plus_16: oam[entry * 4],
        x_screen_plus_8: oam[entry * 4 + 1],
        tile_index: oam[entry * 4 + 2],
        attributes: oam[entry * 4 + 3],
    }
}

/// Whether an object of eight lines whose top is at `y_screen_plus_16 - 16`
/// covers line `ly`.
pub open spec fn spec_object_on_line(y_screen_plus_16: u8, ly: u8) -> bool {
    y_screen_plus_16 - 16 <= ly <= y_screen_plus_16 - 16 + 7
}

/// The objects selected for line `ly` among the first `entries` entries of
/// object attribute memory: those that cover the line, in the order of their
/// entries, up to ten of them.
pub open spec fn spec_select_objects(oam: Seq<u8>, ly: u8, entries: nat) -> Seq<Sprite>
    decreases entries,
{
    if entries == 0 {
        Seq::empty()
    } else {
        let previous = spec_select_objects(oam, ly, (entries - 1) as nat);
        if previous.len() < OBJECTS_PER_SCANLINE && spec_object_on_line(
            oam[(entries - 1) * 4],
            ly,
        ) {
            previous.push(spec_sprite_at(oam, entries - 1))
        } else {
            previous
        }
    }
}

/// The number of entries of object attribute memory.
pub const OAM_ENTRIES: usize = 40;

/// Whether the background fetcher's column agrees with the line being drawn.
/// During the object scan the fetcher is at the first column with an empty
/// queue, and no pixel is drawn yet. During the drawing every column that was
/// pushed is eight pixels, each of them drawn or still queued.
pub open spec fn spec_columns_agree(ppu: PPUView, bgw_fetcher: BackgroundOrWindowFetcherView) -> bool {
    match ppu.state {
        PPUState::OAMScan => {
            &&& bgw_fetcher.vram_tile_column == 0
            &&& bgw_fetcher.fifo.len() == 0
            &&& ppu.drawn_pixels_on_current_row == 0
        },
        PPUState::DrawingPixels => 8 * bgw_fetcher.vram_tile_column
            == ppu.drawn_pixels_on_current_row + bgw_fetcher.fifo.len(),
        _ => true,
    }
}

/// Whether the background fetcher's column agrees with the line being drawn.
pub fn columns_agree(ppu: &PPU, bgw_fetcher: &BackgroundOrWindowFetcher) -> (agree: bool)
    ensures
        agree == spec_columns_agree(ppu@, bgw_fetcher@),
{
    match ppu.state {
        PPUState::OAMScan => bgw_fetcher.vram_tile_column == 0 && bgw_fetcher.fifo.len() == 0
            && ppu.drawn_pixels_on_current_row == 0,
        PPUState::DrawingPixels => {
            let queued = bgw_fetcher.fifo.len();
            queued <= 2040 && 8 * (bgw_fetcher.vram_tile_column as usize)
                == (ppu.drawn_pixels_on_current_row as usize) + queued
        },
        _ => true,
    }
}

impl PixelPipeline {
    pub open spec fn wf(self) -> bool {
        &&& self.ppu.wf()
        &&& self.bgw_fetcher.wf()
        &&& self.obj_fetcher.wf()
        &&& spec_columns_agree(self.ppu, self.bgw_fetcher)
    }

    /// The pipeline once a status line that rose from zero has requested the
    /// STAT interrupt. The line is rebuilt from bits 3 to 6 of the status
    /// register, and a request is made on its rising edge only.
    pub open spec fn spec_stat_edge(self) -> PixelPipeline {
        let stat_line = (self.ppu.lcd_status >> 3u8) & 0xF;
        PixelPipeline {
            ppu: PPUView { last_stat_line: stat_line, ..self.ppu },
            interrupts: if self.ppu.last_stat_line == 0 && stat_line != 0 {
                self.interrupts.spec_request(STAT_INTERRUPT_BIT)
            } else {
                self.interrupts
            },
            ..self
        }
    }

    /// The pipeline at the start of a scanline's object scan.
    pub open spec fn spec_switch_to_oam_scan(self) -> PixelPipeline {
        PixelPipeline {
            ppu: PPUView {
                drawn_pixels_on_current_row: 0,
                lcd_status: self.ppu.spec_mark_mode(false, false, true),
                state: PPUState::OAMScan,
                ..self.ppu
            },
            bgw_fetcher: self.bgw_fetcher.spec_reset(),
            obj_fetcher: self.obj_fetcher.spec_prepare_for_new_row(),
            ..self
        }
    }

    /// The pipeline at the end of the object scan: the line's horizontal
    /// scroll is recorded, up to ten objects that cover the line are selected,
    /// the object fetcher starts from the first column, and drawing begins.
    pub open spec fn spec_end_oam_scan(self) -> PixelPipeline {
        let ly = self.ppu.spec_read_ly();
        PixelPipeline {
            ppu: PPUView {
                frame_scxs: if ly < LCD_VERTICAL_PIXEL_COUNT {
                    self.ppu.frame_scxs.update(ly as int, self.ppu.scx)
                } else {
                    self.ppu.frame_scxs
                },
                state: PPUState::DrawingPixels,
                ..self.ppu
            },
            obj_fetcher: ObjectFetcherView {
                selected_objects: spec_select_objects(
                    self.ppu.object_attribute_memory,
                    ly,
                    OAM_ENTRIES as nat,
                ),
                pixel_index_in_row: 0,
                ..self.obj_fetcher
            },
            pixel_fetcher: Fetcher { fetching_for: FetchingFor::BackgroundOrWindowFIFO },
            ..self
        }
    }

    /// The fetcher that works on this dot: the object fetcher while its queue
    /// is empty and the background queue is not, else the background fetcher.
    pub open spec fn spec_fetching_for(self) -> FetchingFor {
        if self.obj_fetcher.fifo.len() == 0 && self.bgw_fetcher.fifo.len() != 0 {
            FetchingFor::ObjectFIFO
        } else {
            FetchingFor::BackgroundOrWindowFIFO
        }
    }

    /// The pipeline after the fetcher whose turn it is has worked for a dot.
    pub open spec fn spec_fetch(self) -> PixelPipeline {
        match self.spec_fetching_for() {
            FetchingFor::BackgroundOrWindowFIFO => PixelPipeline {
                ppu: self.bgw_fetcher.spec_tick_ppu(self.ppu),
                bgw_fetcher: self.bgw_fetcher.spec_tick(self.ppu),
                pixel_fetcher: Fetcher { fetching_for: FetchingFor::BackgroundOrWindowFIFO },
                ..self
            },
            FetchingFor::ObjectFIFO => PixelPipeline {
                obj_fetcher: self.obj_fetcher.spec_tick(self.ppu),
                pixel_fetcher: Fetcher { fetching_for: FetchingFor::ObjectFIFO },
                ..self
            },
        }
    }

    /// The color and the palette of the pixel shown where a background pixel
    /// and an object pixel meet: the object's, under the palette that its
    /// sprite selects, unless it is transparent.
    pub open spec fn spec_mix(self, bgw_pixel: FIFOItem, obj_pixel: ObjectFIFOItem) -> (u8, u8) {
        if obj_pixel.color == 0 {
            (bgw_pixel.color, self.ppu.background_palette_data)
        } else {
            (
                obj_pixel.color,
                match obj_pixel.palette {
                    ObjectPalette::ObjectPalette0 => self.ppu.object_palette_0,
                    ObjectPalette::ObjectPalette1 => self.ppu.object_palette_1,
                },
            )
        }
    }

    /// The pipeline after one pixel is taken from each queue and shown, or
    /// the fault of showing one outside the 144 visible lines. On the first
    /// scanline the vertical scroll is recorded for the pixel's column. The
    /// 160th pixel of a line ends the drawing.
    pub open spec fn spec_output_pixel(self) -> Result<PixelPipeline, Fault> {
        let x = self.ppu.drawn_pixels_on_current_row;
        let y = self.ppu.spec_read_ly();
        if y >= LCD_VERTICAL_PIXEL_COUNT {
            Err(Fault::PixelOutsideFrame { x, y })
        } else {
            let mixed = self.spec_mix(self.bgw_fetcher.fifo[0], self.obj_fetcher.fifo[0]);
            let drawn = (x + 1) as u8;
            let ends_line = drawn == LCD_HORIZONTAL_PIXEL_COUNT;
            Ok(
                PixelPipeline {
                    ppu: PPUView {
                        frame_scys_at_scanline_0: if y == 0 {
                            self.ppu.frame_scys_at_scanline_0.update(x as int, self.ppu.scy)
                        } else {
                            self.ppu.frame_scys_at_scanline_0
                        },
                        lcd_pixels: spec_put_pixel(
                            self.ppu.lcd_pixels,
                            spec_pixel_coordinates_in_rgba_slice(x, y),
                            spec_pixel_code_to_rgba(mixed.0, mixed.1),
                        ),
                        drawn_pixels_on_current_row: drawn,
                        lcd_status: if ends_line {
                            self.ppu.spec_mark_mode(true, false, false)
                        } else {
                            self.ppu.lcd_status
                        },
                        state: if ends_line {
                            PPUState::HorizontalBlank
                        } else {
                            self.ppu.state
                        },
                        ..self.ppu
                    },
                    bgw_fetcher: BackgroundOrWindowFetcherView {
                        fifo: self.bgw_fetcher.fifo.subrange(1, self.bgw_fetcher.fifo.len() as int),
                        ..self.bgw_fetcher
                    },
                    obj_fetcher: ObjectFetcherView {
                        fifo: self.obj_fetcher.fifo.subrange(1, self.obj_fetcher.fifo.len() as int),
                        ..self.obj_fetcher
                    },
                    ..self
                },
            )
        }
    }

    /// The pipeline after a dot of drawing: one fetcher works, and if both
    /// queues then hold a pixel, one pixel is shown.
    pub open spec fn spec_draw(self) -> Result<PixelPipeline, Fault> {
        let fetched = self.spec_fetch();
        if fetched.bgw_fetcher.fifo.len() != 0 && fetched.obj_fetcher.fifo.len() != 0 {
            fetched.spec_output_pixel()
        } else {
            Ok(fetched)
        }
    }

    /// The pipeline with the scanline register moved to the next line.
    pub open spec fn spec_next_line(self) -> PixelPipeline {
        PixelPipeline {
            ppu: self.ppu.spec_increment_ly(),
            interrupts: if self.ppu.spec_increment_ly_requests() {
                self.interrupts.spec_request(STAT_INTERRUPT_BIT)
            } else {
                self.interrupts
            },
            ..self
        }
    }

    /// The pipeline at the end of a horizontal blank: the next line begins,
    /// with an object scan, or with the vertical blank and its interrupt
    /// request if it is line 144.
    pub open spec fn spec_end_horizontal_blank(self) -> PixelPipeline {
        let next = (PixelPipeline {
            ppu: PPUView { scanline_dots: 0, ..self.ppu },
            ..self
        }).spec_next_line();
        if next.ppu.spec_read_ly() == LCD_VERTICAL_PIXEL_COUNT {
            PixelPipeline {
                ppu: PPUView {
                    lcd_status: next.ppu.spec_mark_mode(false, true, false),
                    state: PPUState::VerticalBlank,
                    ..next.ppu
                },
                interrupts: next.interrupts.spec_request(VBLANK_INTERRUPT_BIT),
                ..next
            }
        } else {
            next.spec_switch_to_oam_scan()
        }
    }

    /// The pipeline at the end of a line of the vertical blank: the next
    /// line begins, or, after line 153, a new frame at line 0.
    pub open spec fn spec_end_vertical_blank_line(self) -> PixelPipeline {
        let rewound = PixelPipeline { ppu: PPUView { scanline_dots: 0, ..self.ppu }, ..self };
        if rewound.ppu.spec_read_ly() == LAST_SCANLINE {
            (PixelPipeline {
                ppu: rewound.ppu.spec_prepare_for_new_frame(),
                bgw_fetcher: rewound.bgw_fetcher.spec_reset(),
                obj_fetcher: rewound.obj_fetcher.spec_prepare_for_new_frame(),
                ..rewound
            }).spec_switch_to_oam_scan()
        } else {
            rewound.spec_next_line()
        }
    }

    /// The pipeline after one dot, or the fault that stops it. While the LCD
    /// is off nothing changes. A scanline that reaches dot 456 outside the
    /// blanks has overrun.
    #[verifier::opaque]
    pub open spec fn spec_tick(self) -> Result<PixelPipeline, Fault> {
        if !self.ppu.spec_is_lcd_ppu_on() {
            Ok(self)
        } else if self.ppu.scanline_dots >= SCANLINE_DOTS {
            Err(Fault::ScanlineOverrun)
        } else {
            let dots = (self.ppu.scanline_dots + 1) as u16;
            let counted = PixelPipeline { ppu: PPUView { scanline_dots: dots, ..self.ppu }, ..self };
            let stepped = match self.ppu.state {
                PPUState::OAMScan => if dots == OAM_SCAN_DOTS {
                    Ok(counted.spec_end_oam_scan())
                } else {
                    Ok(counted)
                },
                PPUState::DrawingPixels => counted.spec_draw(),
                PPUState::HorizontalBlank => if dots == SCANLINE_DOTS {
                    Ok(counted.spec_end_horizontal_blank())
                } else {
                    Ok(counted)
                },
                PPUState::VerticalBlank => if dots == SCANLINE_DOTS {
                    Ok(counted.spec_end_vertical_blank_line())
                } else {
                    Ok(counted)
                },
            };
            match stepped {
                Ok(pipeline) => Ok(pipeline.spec_stat_edge()),
                Err(fault) => Err(fault),
            }
        }
    }

    /// The pipeline after `dots` dots, or the fault that stops it.
    pub open spec fn spec_ticks(self, dots: nat) -> Result<PixelPipeline, Fault>
        decreases dots,
    {
        if dots == 0 {
            Ok(self)
        } else {
            match self.spec_tick() {
                Ok(pipeline) => pipeline.spec_ticks((dots - 1) as nat),
                Err(fault) => Err(fault),
            }
        }
    }
}

/// While the LCD is off, no number of dots changes anything in the
/// pipeline: not the scanline, not the status register, not the dot counter.
pub proof fn lemma_lcd_off_is_idle(pipeline: PixelPipeline, dots: nat)
    requires
        !pipeline.ppu.spec_is_lcd_ppu_on(),
    ensures
        pipeline.spec_ticks(dots) == Ok::<PixelPipeline, Fault>(pipeline),
    decreases dots,
{
    reveal(PixelPipeline::spec_tick);
    if dots > 0 {
        lemma_lcd_off_is_idle(pipeline, (dots - 1) as nat);
    }
}

/// How a dot moves the scanline along while the LCD is on.
///
/// The object scan lasts until dot 80 and then gives way to the drawing, with
/// ten objects selected at most. A horizontal blank lasts until dot 456;
/// then the next line begins at dot 0, with an object scan, or, if it is line
/// 144, with the vertical blank, whose interrupt is requested. A line of the
/// vertical blank lasts until dot 456 too; then the next line begins, or,
/// after line 153, line 0 of a new frame.
pub proof fn lemma_scanline_timing(pipeline: PixelPipeline)
    requires
        pipeline.ppu.spec_is_lcd_ppu_on(),
        pipeline.ppu.scanline_dots < SCANLINE_DOTS,
        pipeline.ppu.state != PPUState::DrawingPixels,
    ensures
        pipeline.spec_tick() is Ok,
        ({
            let before = pipeline.ppu;
            let after = pipeline.spec_tick()->Ok_0;
            match before.state {
                PPUState::OAMScan => if before.scanline_dots + 1 == OAM_SCAN_DOTS {
                    &&& after.ppu.state == PPUState::DrawingPixels
                    &&& after.ppu.scanline_dots == OAM_SCAN_DOTS
                    &&& after.ppu.lcd_y_coord == before.lcd_y_coord
                    &&& after.obj_fetcher.selected_objects == spec_select_objects(
                        before.object_attribute_memory,
                        before.spec_read_ly(),
                        OAM_ENTRIES as nat,
                    )
                    &&& after.obj_fetcher.selected_objects.len() <= OBJECTS_PER_SCANLINE
                    &&& after.pixel_fetcher.fetching_for == FetchingFor::BackgroundOrWindowFIFO
                } else {
                    &&& after.ppu.state == PPUState::OAMScan
                    &&& after.ppu.scanline_dots == before.scanline_dots + 1
                    &&& after.ppu.lcd_y_coord == before.lcd_y_coord
                },
                PPUState::HorizontalBlank => if before.scanline_dots + 1 == SCANLINE_DOTS {
                    &&& after.ppu.scanline_dots == 0
                    &&& after.ppu.lcd_y_coord == before.lcd_y_coord.wrapping_add(1)
                    &&& after.ppu.state == if after.ppu.spec_read_ly()
                        == LCD_VERTICAL_PIXEL_COUNT {
                        PPUState::VerticalBlank
                    } else {
                        PPUState::OAMScan
                    }
                    &&& after.ppu.state == PPUState::VerticalBlank
                        ==> after.interrupts.interrupt_flag & (1u8 << VBLANK_INTERRUPT_BIT) != 0
                    &&& after.ppu.state == PPUState::OAMScan ==> {
                        &&& after.ppu.drawn_pixels_on_current_row == 0
                        &&& after.bgw_fetcher.fifo.len() == 0
                        &&& after.obj_fetcher.fifo.len() == 0
                    }
                } else {
                    &&& after.ppu.state == PPUState::HorizontalBlank
                    &&& after.ppu.scanline_dots == before.scanline_dots + 1
                    &&& after.ppu.lcd_y_coord == before.lcd_y_coord
                },
                PPUState::VerticalBlank => if before.scanline_dots + 1 == SCANLINE_DOTS {
                    &&& after.ppu.scanline_dots == 0
                    &&& if before.spec_read_ly() == LAST_SCANLINE {
                        &&& after.ppu.lcd_y_coord == 0
                        &&& after.ppu.state == PPUState::OAMScan
                        &&& after.ppu.drawn_pixels_on_current_row == 0
                    } else {
                        &&& after.ppu.lcd_y_coord == before.lcd_y_coord.wrapping_add(1)
                        &&& after.ppu.state == PPUState::VerticalBlank
                    }
                } else {
                    &&& after.ppu.state == PPUState::VerticalBlank
                    &&& after.ppu.scanline_dots == before.scanline_dots + 1
                    &&& after.ppu.lcd_y_coord == before.lcd_y_coord
                },
                PPUState::DrawingPixels => true,
            }
        }),
{
    reveal(PixelPipeline::spec_tick);
    lemma_select_at_most_ten(
        pipeline.ppu.object_attribute_memory,
        pipeline.ppu.spec_read_ly(),
        OAM_ENTRIES as nat,
    );
    if pipeline.ppu.state == PPUState::HorizontalBlank && pipeline.ppu.scanline_dots + 1
        == SCANLINE_DOTS {
        let counted = PixelPipeline {
            ppu: PPUView { scanline_dots: SCANLINE_DOTS, ..pipeline.ppu },
            ..pipeline
        };
        let ended = counted.spec_end_horizontal_blank();
        let next = (PixelPipeline {
            ppu: PPUView { scanline_dots: 0, ..counted.ppu },
            ..counted
        }).spec_next_line();
        if next.ppu.spec_read_ly() == LCD_VERTICAL_PIXEL_COUNT {
            crate::cpu::interrupts::lemma_request_and_acknowledge(
                next.interrupts,
                VBLANK_INTERRUPT_BIT,
                VBLANK_INTERRUPT_BIT,
            );
            crate::cpu::interrupts::lemma_request_and_acknowledge(
                ended.interrupts,
                STAT_INTERRUPT_BIT,
                VBLANK_INTERRUPT_BIT,
            );
        }
    }
}

/// No more than ten objects are ever selected for a line.
pub proof fn lemma_select_at_most_ten(oam: Seq<u8>, ly: u8, entries: nat)
    ensures
        spec_select_objects(oam, ly, entries).len() <= OBJECTS_PER_SCANLINE,
        spec_select_objects(oam, ly, entries).len() <= entries,
    decreases entries,
{
    if entries > 0 {
        lemma_select_at_most_ten(oam, ly, (entries - 1) as nat);
    }
}

impl PPU {
    pub fn prepare_for_new_frame(
        &mut self,
        bgw_fetcher: &mut BackgroundOrWindowFetcher,
        obj_fetcher: &mut ObjectFetcher,
    )
        requires
            old(self)@.wf(),
            old(obj_fetcher)@.wf(),
        ensures
            final(self)@ == old(self)@.spec_prepare_for_new_frame(),
            final(bgw_fetcher)@ == old(bgw_fetcher)@.spec_reset(),
            final(obj_fetcher)@ == old(obj_fetcher)@.spec_prepare_for_new_frame(),
            final(self)@.wf(),
            final(bgw_fetcher)@.wf(),
            final(obj_fetcher)@.wf(),
    {
        self.lcd_y_coord = 0;
        bgw_fetcher.prepare_for_new_frame();
        obj_fetcher.prepare_for_new_frame();
        self.frame_scxs = [0u8;144];
        self.frame_scxs_valid = [true;144];
        self.frame_scys_at_scanline_0 = [0u8;160];
        self.frame_scys_first_scanline_valid = [true;160];
        proof {
            let fresh = old(self)@.spec_prepare_for_new_frame();
            assert(self@.frame_scxs =~= fresh.frame_scxs);
            assert(self@.frame_scxs_valid =~= fresh.frame_scxs_valid);
            assert(self@.frame_scys_at_scanline_0 =~= fresh.frame_scys_at_scanline_0);
            assert(self@.frame_scys_first_scanline_valid =~= fresh.frame_scys_first_scanline_valid);
        }
    }

    /// Sets the three mode selections of the status register.
    fn mark_mode(&mut self, mode_0: bool, mode_1: bool, mode_2: bool)
        ensures
            final(self)@ == (PPUView {
                lcd_status: old(self)@.spec_mark_mode(mode_0, mode_1, mode_2),
                ..old(self)@
            }),
    {
        if mode_0 {
            set_bit(&mut self.lcd_status, MODE_0_INTERRUPT_SELECT_BIT);
        } else {
            unset_bit(&mut self.lcd_status, MODE_0_INTERRUPT_SELECT_BIT);
        }
        if mode_1 {
            set_bit(&mut self.lcd_status, MODE_1_INTERRUPT_SELECT_BIT);
        } else {
            unset_bit(&mut self.lcd_status, MODE_1_INTERRUPT_SELECT_BIT);
        }
        if mode_2 {
            set_bit(&mut self.lcd_status, MODE_2_INTERRUPT_SELECT_BIT);
        } else {
            unset_bit(&mut self.lcd_status, MODE_2_INTERRUPT_SELECT_BIT);
        }
    }

    fn switch_to_oam_scan(
        &mut self,
        bgw_fetcher: &mut BackgroundOrWindowFetcher,
        obj_fetcher: &mut ObjectFetcher,
    )
        requires
            old(self)@.wf(),
            old(obj_fetcher)@.wf(),
        ensures
            final(self)@ == (PPUView {
                drawn_pixels_on_current_row: 0,
                lcd_status: old(self)@.spec_mark_mode(false, false, true),
                state: PPUState::OAMScan,
                ..old(self)@
            }),
            final(bgw_fetcher)@ == old(bgw_fetcher)@.spec_reset(),
            final(obj_fetcher)@ == old(obj_fetcher)@.spec_prepare_for_new_row(),
            final(self)@.wf(),
            final(bgw_fetcher)@.wf(),
            final(obj_fetcher)@.wf(),
            spec_columns_agree(final(self)@, final(bgw_fetcher)@),
    {
        self.drawn_pixels_on_current_row = 0;
        bgw_fetcher.prepare_for_new_row();
        obj_fetcher.prepare_for_new_row();
        self.mark_mode(false, false, true);
        self.state = PPUState::OAMScan;
    }

    fn switch_to_drawing_pixels(&mut self, pixel_fetcher: &mut Fetcher)
        ensures
            final(self)@ == (PPUView { state: PPUState::DrawingPixels, ..old(self)@ }),
            final(pixel_fetcher).fetching_for == FetchingFor::BackgroundOrWindowFIFO,
    {
        pixel_fetcher.switch_to_background_or_window_fifo();
        self.state = PPUState::DrawingPixels;
    }

    fn switch_to_horizontal_blank(&mut self)
        ensures
            final(self)@ == (PPUView {
                lcd_status: old(self)@.spec_mark_mode(true, false, false),
                state: PPUState::HorizontalBlank,
                ..old(self)@
            }),
    {
        self.mark_mode(true, false, false);
        self.state = PPUState::HorizontalBlank;
    }

    fn switch_to_vertical_blank(&mut self, interrupts: &mut Interrupts)
        ensures
            final(self)@ == (PPUView {
                lcd_status: old(self)@.spec_mark_mode(false, true, false),
                state: PPUState::VerticalBlank,
                ..old(self)@
            }),
            *final(interrupts) == old(interrupts).spec_request(VBLANK_INTERRUPT_BIT),
    {
        self.mark_mode(false, true, false);
        interrupts.request_interrupt(VBLANK_INTERRUPT_BIT);
        self.state = PPUState::VerticalBlank
    }

    /// Selects the objects that cover line `ly`, up to ten, in the order of
    /// object attribute memory.
    fn select_objects(&self, ly: u8) -> (selected: VecDeque<Sprite>)
        ensures
            selected@ == spec_select_objects(
                self@.object_attribute_memory,
                ly,
                OAM_ENTRIES as nat,
            ),
            selected@.len() <= OBJECTS_PER_SCANLINE,
    {
        let mut selected_objects: VecDeque<Sprite> = VecDeque::new();
        let object_size: i16 = 8;
        let line = ly as i16;
        let mut entry: usize = 0;
        while entry < OAM_ENTRIES
            invariant
                entry <= OAM_ENTRIES,
                object_size == 8,
                line == ly,
                selected_objects@ == spec_select_objects(
                    self@.object_attribute_memory,
                    ly,
                    entry as nat,
                ),
                selected_objects@.len() <= OBJECTS_PER_SCANLINE,
            decreases OAM_ENTRIES - entry,
        {
            let object_offset = entry * 4;
            let y_screen_plus_16 = self.object_attribute_memory[object_offset];
            let object_min_y_on_screen = (y_screen_plus_16 as i16) - 16;
            let object_max_y_on_screen = object_min_y_on_screen + object_size - 1;
            if selected_objects.len() < OBJECTS_PER_SCANLINE && object_min_y_on_screen <= line
                && line <= object_max_y_on_screen {
                selected_objects.push_back(
                    Sprite {
                        x_screen_plus_8: self.object_attribute_memory[object_offset + 1],
                        y_screen_plus_16,
                        tile_index: self.object_attribute_memory[object_offset + 2],
                        attributes: self.object_attribute_memory[object_offset + 3],
                    },
                );
            }
            entry = entry + 1;
        }
        selected_objects
    }

    /// Ends the object scan.
    fn end_oam_scan(
        &mut self,
        bgw_fetcher: &mut BackgroundOrWindowFetcher,
        obj_fetcher: &mut ObjectFetcher,
        pixel_fetcher: &mut Fetcher,
        Ghost(interrupts): Ghost<Interrupts>,
    )
        requires
            old(self)@.wf(),
            old(bgw_fetcher)@.wf(),
            old(obj_fetcher)@.wf(),
            spec_columns_agree(old(self)@, old(bgw_fetcher)@),
            old(self).state == PPUState::OAMScan,
        ensures
            (PixelPipeline {
                ppu: final(self)@,
                bgw_fetcher: final(bgw_fetcher)@,
                obj_fetcher: final(obj_fetcher)@,
                pixel_fetcher: *final(pixel_fetcher),
                interrupts,
            }) == (PixelPipeline {
                ppu: old(self)@,
                bgw_fetcher: old(bgw_fetcher)@,
                obj_fetcher: old(obj_fetcher)@,
                pixel_fetcher: *old(pixel_fetcher),
                interrupts,
            }).spec_end_oam_scan(),
            final(self)@.wf(),
            final(bgw_fetcher)@.wf(),
            final(obj_fetcher)@.wf(),
            spec_columns_agree(final(self)@, final(bgw_fetcher)@),
    {
        let ly = self.read_ly();
        // At the start of each scanline, remember the horizontal scroll.
        if (ly as usize) < LCD_VERTICAL_PIXEL_COUNT {
            self.frame_scxs[ly as usize] = self.scx;
        }
        obj_fetcher.selected_objects = self.select_objects(ly);
        obj_fetcher.pixel_index_in_row = 0;
        self.switch_to_drawing_pixels(pixel_fetcher);
    }

    /// Takes one pixel from each queue and shows it.
    fn output_pixel(
        &mut self,
        bgw_fetcher: &mut BackgroundOrWindowFetcher,
        obj_fetcher: &mut ObjectFetcher,
        Ghost(pixel_fetcher): Ghost<Fetcher>,
        Ghost(interrupts): Ghost<Interrupts>,
    ) -> (shown: Result<(), Fault>)
        requires
            old(self)@.wf(),
            old(bgw_fetcher)@.wf(),
            old(obj_fetcher)@.wf(),
            spec_columns_agree(old(self)@, old(bgw_fetcher)@),
            old(self).state == PPUState::DrawingPixels,
            old(bgw_fetcher)@.fifo.len() != 0,
            old(obj_fetcher)@.fifo.len() != 0,
        ensures
            match (PixelPipeline {
                ppu: old(self)@,
                bgw_fetcher: old(bgw_fetcher)@,
                obj_fetcher: old(obj_fetcher)@,
                pixel_fetcher,
                interrupts,
            }).spec_output_pixel() {
                Ok(pipeline) => shown is Ok && pipeline == (PixelPipeline {
                    ppu: final(self)@,
                    bgw_fetcher: final(bgw_fetcher)@,
                    obj_fetcher: final(obj_fetcher)@,
                    pixel_fetcher,
                    interrupts,
                }),
                Err(fault) => shown == Err::<(), Fault>(fault),
            },
            shown is Ok ==> final(self)@.wf() && final(bgw_fetcher)@.wf() && final(obj_fetcher)@.wf()
                && spec_columns_agree(final(self)@, final(bgw_fetcher)@),
    {
        let pixel_x = self.drawn_pixels_on_current_row;
        let pixel_y = self.read_ly();
        if pixel_y as usize >= LCD_VERTICAL_PIXEL_COUNT {
            return Err(Fault::PixelOutsideFrame { x: pixel_x, y: pixel_y });
        }
        // During scanline 0, remember the vertical scroll of every pixel.
        if pixel_y == 0 {
            self.frame_scys_at_scanline_0[pixel_x as usize] = self.scy;
        }
        let bgw_pixel = match bgw_fetcher.fifo.pop_front() {
            Some(pixel) => pixel,
            None => FIFOItem { color: 0 },
        };
        let obj_pixel = match obj_fetcher.fifo.pop_front() {
            Some(pixel) => pixel,
            None => ObjectFIFOItem { color: 0, palette: ObjectPalette::ObjectPalette0 },
        };
        let from = pixel_coordinates_in_rgba_slice(pixel_x, pixel_y);
        let selected_pixel: u8;
        let palette: u8;
        if obj_pixel.color == 0 {
            selected_pixel = bgw_pixel.color;
            palette = self.background_palette_data;
        } else {
            selected_pixel = obj_pixel.color;
            palette = match obj_pixel.palette {
                ObjectPalette::ObjectPalette0 => self.object_palette_0,
                ObjectPalette::ObjectPalette1 => self.object_palette_1,
            };
        }
        let rgba = pixel_code_to_rgba(selected_pixel, palette);
        put_pixel(&mut self.lcd_pixels, from, &rgba);
        self.drawn_pixels_on_current_row = self.drawn_pixels_on_current_row + 1;
        if self.drawn_pixels_on_current_row as usize == LCD_HORIZONTAL_PIXEL_COUNT {
            self.switch_to_horizontal_blank()
        }
        Ok(())
    }

    /// One dot of drawing: the fetcher whose turn it is works, and if both
    /// queues then hold a pixel, one pixel is shown.
    fn draw(
        &mut self,
        bgw_fetcher: &mut BackgroundOrWindowFetcher,
        obj_fetcher: &mut ObjectFetcher,
        pixel_fetcher: &mut Fetcher,
        Ghost(interrupts): Ghost<Interrupts>,
    ) -> (drawn: Result<(), Fault>)
        requires
            old(self)@.wf(),
            old(bgw_fetcher)@.wf(),
            old(obj_fetcher)@.wf(),
            spec_columns_agree(old(self)@, old(bgw_fetcher)@),
            old(self).state == PPUState::DrawingPixels,
        ensures
            match (PixelPipeline {
                ppu: old(self)@,
                bgw_fetcher: old(bgw_fetcher)@,
                obj_fetcher: old(obj_fetcher)@,
                pixel_fetcher: *old(pixel_fetcher),
                interrupts,
            }).spec_draw() {
                Ok(pipeline) => drawn is Ok && pipeline == (PixelPipeline {
                    ppu: final(self)@,
                    bgw_fetcher: final(bgw_fetcher)@,
                    obj_fetcher: final(obj_fetcher)@,
                    pixel_fetcher: *final(pixel_fetcher),
                    interrupts,
                }),
                Err(fault) => drawn == Err::<(), Fault>(fault),
            },
            drawn is Ok ==> final(self)@.wf() && final(bgw_fetcher)@.wf() && final(obj_fetcher)@.wf()
                && spec_columns_agree(final(self)@, final(bgw_fetcher)@),
    {
        let bgw_fifo_len = bgw_fetcher.fifo.len();
        let obj_fifo_len = obj_fetcher.fifo.len();
        if obj_fifo_len == 0 && bgw_fifo_len != 0 {
            if pixel_fetcher.fetching_for == FetchingFor::BackgroundOrWindowFIFO {
                pixel_fetcher.switch_to_object_fifo();
            }
        } else {
            if pixel_fetcher.fetching_for == FetchingFor::ObjectFIFO {
                pixel_fetcher.switch_to_background_or_window_fifo();
            }
        }
        // A line has 160 pixels, so the fetcher is within its first 21 columns.
        assert(bgw_fetcher@.vram_tile_column <= 20);
        assert(bgw_fetcher@.spec_can_tick(self@)) by {
            assert(BackgroundOrWindowFetcherView::spec_background_line(self@) / 8 <= 31);
        }
        pixel_fetcher.tick(bgw_fetcher, obj_fetcher, self);
        if bgw_fetcher.fifo.len() != 0 && obj_fetcher.fifo.len() != 0 {
            self.output_pixel(bgw_fetcher, obj_fetcher, Ghost(*pixel_fetcher), Ghost(interrupts))?;
        }
        Ok(())
    }

    /// Requests the STAT interrupt if the status line has risen from zero.
    fn stat_edge(&mut self, interrupts: &mut Interrupts)
        ensures
            final(self)@ == (PPUView {
                last_stat_line: (old(self)@.lcd_status >> 3u8) & 0xF,
                ..old(self)@
            }),
            *final(interrupts) == if old(self)@.last_stat_line == 0 && (old(self)@.lcd_status
                >> 3u8) & 0xF != 0 {
                old(interrupts).spec_request(STAT_INTERRUPT_BIT)
            } else {
                *old(interrupts)
            },
    {
        let stat_line = (self.lcd_status >> 3u8) & 0xF;
        if self.last_stat_line == 0 && stat_line != 0 {
            interrupts.request_interrupt(STAT_INTERRUPT_BIT);
        }
        self.last_stat_line = stat_line;
    }

    /// Advances the unit, and the fetchers with it, by `dots` dots.
    pub fn ticks(
        &mut self,
        bgw_fetcher: &mut BackgroundOrWindowFetcher,
        interrupts: &mut Interrupts,
        obj_fetcher: &mut ObjectFetcher,
        pixel_fetcher: &mut Fetcher,
        dots: u8,
    ) -> (ticked: Result<(), Fault>)
        requires
            old(self)@.wf(),
            old(bgw_fetcher)@.wf(),
            old(obj_fetcher)@.wf(),
            spec_columns_agree(old(self)@, old(bgw_fetcher)@),
        ensures
            match (PixelPipeline {
                ppu: old(self)@,
                bgw_fetcher: old(bgw_fetcher)@,
                obj_fetcher: old(obj_fetcher)@,
                pixel_fetcher: *old(pixel_fetcher),
                interrupts: *old(interrupts),
            }).spec_ticks(dots as nat) {
                Ok(pipeline) => ticked is Ok && pipeline == (PixelPipeline {
                    ppu: final(self)@,
                    bgw_fetcher: final(bgw_fetcher)@,
                    obj_fetcher: final(obj_fetcher)@,
                    pixel_fetcher: *final(pixel_fetcher),
                    interrupts: *final(interrupts),
                }),
                Err(fault) => ticked == Err::<(), Fault>(fault),
            },
            ticked is Ok ==> final(self)@.wf() && final(bgw_fetcher)@.wf() && final(obj_fetcher)@.wf()
                && spec_columns_agree(final(self)@, final(bgw_fetcher)@),
    {
        let mut done: u8 = 0;
        while done < dots
            invariant
                done <= dots,
                self@.wf(),
                bgw_fetcher@.wf(),
                obj_fetcher@.wf(),
                spec_columns_agree(self@, bgw_fetcher@),
                (PixelPipeline {
                    ppu: self@,
                    bgw_fetcher: bgw_fetcher@,
                    obj_fetcher: obj_fetcher@,
                    pixel_fetcher: *pixel_fetcher,
                    interrupts: *interrupts,
                }).spec_ticks((dots - done) as nat) == (PixelPipeline {
                    ppu: old(self)@,
                    bgw_fetcher: old(bgw_fetcher)@,
                    obj_fetcher: old(obj_fetcher)@,
                    pixel_fetcher: *old(pixel_fetcher),
                    interrupts: *old(interrupts),
                }).spec_ticks(dots as nat),
            decreases dots - done,
        {
            self.tick(bgw_fetcher, obj_fetcher, interrupts, pixel_fetcher)?;
            done = done + 1;
        }
        Ok(())
    }

    /// Advances the unit, and the fetchers with it, by one dot.
    pub fn tick(
        &mut self,
        bgw_fetcher: &mut BackgroundOrWindowFetcher,
        obj_fetcher: &mut ObjectFetcher,
        interrupts: &mut Interrupts,
        pixel_fetcher: &mut Fetcher,
    ) -> (ticked: Result<(), Fault>)
        requires
            old(self)@.wf(),
            old(bgw_fetcher)@.wf(),
            old(obj_fetcher)@.wf(),
            spec_columns_agree(old(self)@, old(bgw_fetcher)@),
        ensures
            match (PixelPipeline {
                ppu: old(self)@,
                bgw_fetcher: old(bgw_fetcher)@,
                obj_fetcher: old(obj_fetcher)@,
                pixel_fetcher: *old(pixel_fetcher),
                interrupts: *old(interrupts),
            }).spec_tick() {
                Ok(pipeline) => ticked is Ok && pipeline == (PixelPipeline {
                    ppu: final(self)@,
                    bgw_fetcher: final(bgw_fetcher)@,
                    obj_fetcher: final(obj_fetcher)@,
                    pixel_fetcher: *final(pixel_fetcher),
                    interrupts: *final(interrupts),
                }),
                Err(fault) => ticked == Err::<(), Fault>(fault),
            },
            ticked is Ok ==> final(self)@.wf() && final(bgw_fetcher)@.wf() && final(obj_fetcher)@.wf()
                && spec_columns_agree(final(self)@, final(bgw_fetcher)@),
    {
        reveal(PixelPipeline::spec_tick);
        if !self.is_lcd_ppu_on() {
            return Ok(());
        }
        if self.scanline_dots >= SCANLINE_DOTS {
            return Err(Fault::ScanlineOverrun);
        }
        self.scanline_dots = self.scanline_dots + 1;
        match self.state {
            PPUState::OAMScan => {
                if self.scanline_dots == OAM_SCAN_DOTS {
                    self.end_oam_scan(bgw_fetcher, obj_fetcher, pixel_fetcher, Ghost(*interrupts));
                }
            },
            PPUState::DrawingPixels => {
                self.draw(bgw_fetcher, obj_fetcher, pixel_fetcher, Ghost(*interrupts))?;
            },
            PPUState::HorizontalBlank => {
                if self.scanline_dots == SCANLINE_DOTS {
                    self.scanline_dots = 0;
                    self.increment_ly(interrupts);
                    if self.read_ly() as usize == LCD_VERTICAL_PIXEL_COUNT {
                        self.switch_to_vertical_blank(interrupts)
                    } else {
                        self.switch_to_oam_scan(bgw_fetcher, obj_fetcher)
                    }
                }
            },
            PPUState::VerticalBlank => {
                if self.scanline_dots == SCANLINE_DOTS {
                    self.scanline_dots = 0;
                    if self.read_ly() == LAST_SCANLINE {
                        self.prepare_for_new_frame(bgw_fetcher, obj_fetcher);
                        self.switch_to_oam_scan(bgw_fetcher, obj_fetcher)
                    } else {
                        self.increment_ly(interrupts);
                    }
                }
            },
        }
        self.stat_edge(interrupts);
        Ok(())
    }
}


impl Clone for PPU {
    fn clone(&self) -> (copy: Self)
        ensures
            copy@ == self@,
    {
        PPU {
            drawn_pixels_on_current_row: self.drawn_pixels_on_current_row,
            fix_ly_for_gb_doctor: self.fix_ly_for_gb_doctor,
            last_stat_line: self.last_stat_line,
            scanline_dots: self.scanline_dots,
            state: self.state,
            background_palette_data: self.background_palette_data,
            cgb_background_palette_data: self.cgb_background_palette_data,
            cgb_background_palette_spec: self.cgb_background_palette_spec,
            lcd_control: self.lcd_control,
            lcd_status: self.lcd_status,
            lcd_y_compare: self.lcd_y_compare,
            lcd_y_coord: self.lcd_y_coord,
            object_palette_data: self.object_palette_data,
            object_palette_spec: self.object_palette_spec,
            object_palette_0: self.object_palette_0,
            object_palette_1: self.object_palette_1,
            scx: self.scx,
            scy: self.scy,
            vram_bank: self.vram_bank,
            window_x7: self.window_x7,
            window_y: self.window_y,
            object_attribute_memory: self.object_attribute_memory,
            vram: self.vram,
            wram_0: self.wram_0,
            wram_1: self.wram_1,
            lcd_pixels: self.lcd_pixels.clone(),
            tile_map0_pixels: self.tile_map0_pixels.clone(),
            tile_map1_pixels: self.tile_map1_pixels.clone(),
            tile_palette_pixels: self.tile_palette_pixels.clone(),
            frame_scxs: self.frame_scxs,
            frame_scxs_valid: self.frame_scxs_valid,
            frame_scys_at_scanline_0: self.frame_scys_at_scanline_0,
            frame_scys_first_scanline_valid: self.frame_scys_first_scanline_valid,
            tile_map0_last_addressing_modes: self.tile_map0_last_addressing_modes,
            tile_map1_last_addressing_modes: self.tile_map1_last_addressing_modes,
        }
    }
}


/// The color of pixel (x, y) of a tile: bit `7 - x` of the row's second byte
/// above the same bit of its first.
pub open spec fn spec_tile_pixel_code(vram: Seq<u8>, tile: int, x: int, y: int) -> u8 {
    let low_bits = vram[tile * 16 + y * 2];
    let high_bits = vram[tile * 16 + y * 2 + 1];
    (((high_bits >> ((7 - x) as u8)) & 1) << 1u8) | ((low_bits >> ((7 - x) as u8)) & 1)
}

/// Byte `i` of the rendered tile palette: the 384 tiles of video RAM, 16 to
/// a row, each pixel under the background palette.
pub open spec fn spec_tile_palette_byte(vram: Seq<u8>, palette: u8, i: int) -> u8 {
    let pixel = i / 4;
    let pixel_x = pixel % 128;
    let pixel_y = pixel / 128;
    let tile = (pixel_y / 8) * 16 + pixel_x / 8;
    spec_pixel_code_to_rgba(spec_tile_pixel_code(vram, tile, pixel_x % 8, pixel_y % 8), palette)[i
        % 4]
}

/// The rendered tile palette.
pub open spec fn spec_render_tile_palette(vram: Seq<u8>, palette: u8) -> Seq<u8> {
    Seq::new(TILE_PALETTE_BYTES as nat, |i: int| spec_tile_palette_byte(vram, palette, i))
}

/// The first tile that a tile map cannot show: the pixels of this tile and of
/// those after it would be read from beyond the end of the rendered palette.
pub const TILE_MAP_TILE_LIMIT: u16 = 368;

/// The tile that entry `entry` of a tile map names, under the addressing mode
/// recorded for that entry.
pub open spec fn spec_tile_at(
    vram: Seq<u8>,
    modes: Seq<TileAddressingMode>,
    tile_map_vram_offset: int,
    entry: int,
) -> u16 {
    spec_tile_index_in_palette(vram[tile_map_vram_offset + entry], modes[entry])
}

/// Whether a tile map names only tiles that it can show.
pub open spec fn spec_tile_map_fits(
    vram: Seq<u8>,
    modes: Seq<TileAddressingMode>,
    tile_map_vram_offset: int,
) -> bool {
    forall|entry: int|
        0 <= entry < TILE_MAP_TILE_TOTAL ==> #[trigger] spec_tile_at(
            vram,
            modes,
            tile_map_vram_offset,
            entry,
        ) < TILE_MAP_TILE_LIMIT
}

/// The byte of the rendered tile palette that byte `i` of a rendered tile map
/// is copied from. The tile that the map entry names, under the addressing
/// mode recorded for that entry, is looked up in the palette by its index
/// divided by 16 for the row of tiles and its index modulo 32 for the column:
/// where that column is 16 or more, the pixel comes from one pixel row below
/// the tile's own.
pub open spec fn spec_tile_map_source(
    vram: Seq<u8>,
    modes: Seq<TileAddressingMode>,
    tile_map_vram_offset: int,
    i: int,
) -> int {
    let pixel = i / 4;
    let pixel_x = pixel % 256;
    let pixel_y = pixel / 256;
    let entry = (pixel_y / 8) * 32 + pixel_x / 8;
    let tile = spec_tile_at(vram, modes, tile_map_vram_offset, entry);
    let source_x = (tile % 32) * 8 + pixel_x % 8;
    let source_y = (tile / 16) * 8 + pixel_y % 8;
    (source_y * 128 + source_x) * 4 + i % 4
}

/// A rendered tile map: 32 by 32 tiles taken from the rendered tile palette.
/// It is defined for a map that names only tiles that it can show.
pub open spec fn spec_render_tile_map(
    vram: Seq<u8>,
    tile_palette_pixels: Seq<u8>,
    modes: Seq<TileAddressingMode>,
    tile_map_vram_offset: int,
) -> Seq<u8> {
    Seq::new(
        TILE_MAP_BYTES as nat,
        |i: int| tile_palette_pixels[spec_tile_map_source(vram, modes, tile_map_vram_offset, i)],
    )
}

/// Where pixel (x, y) of a rendered tile map starts.
pub open spec fn spec_tile_map_pixel(x: int, y: int) -> int {
    (y * 256 + x) * 4
}

impl PPUView {
    /// A rendered tile map with the top and the bottom edge of the screen
    /// drawn for the first `columns` columns: the top in red, the bottom in
    /// yellow, each where the column's recorded vertical scroll puts it.
    pub open spec fn spec_mark_rows(self, surface: Seq<u8>, columns: nat) -> Seq<u8>
        decreases columns,
    {
        if columns == 0 {
            surface
        } else {
            let column = columns - 1;
            let before = self.spec_mark_rows(surface, column as nat);
            if self.frame_scys_first_scanline_valid[column] {
                let scy = self.frame_scys_at_scanline_0[column];
                spec_put_pixel(
                    spec_put_pixel(
                        before,
                        spec_tile_map_pixel((column + self.frame_scxs[0]) % 256, scy as int),
                        seq![255u8, 0u8, 0u8, 255u8],
                    ),
                    spec_tile_map_pixel(
                        (column + self.frame_scxs[LCD_VERTICAL_PIXEL_COUNT - 1]) % 256,
                        (scy + LCD_VERTICAL_PIXEL_COUNT) % 256,
                    ),
                    seq![255u8, 255u8, 0u8, 255u8],
                )
            } else {
                before
            }
        }
    }

    /// A rendered tile map with the left and the right edge of the screen
    /// drawn for the first `lines` lines: the left in green, the right in
    /// cyan, each where the line's recorded horizontal scroll puts it.
    pub open spec fn spec_mark_columns(self, surface: Seq<u8>, lines: nat) -> Seq<u8>
        decreases lines,
    {
        if lines == 0 {
            surface
        } else {
            let line = lines - 1;
            let before = self.spec_mark_columns(surface, line as nat);
            if self.frame_scxs_valid[line] {
                let scx = self.frame_scxs[line];
                spec_put_pixel(
                    spec_put_pixel(
                        before,
                        spec_tile_map_pixel(
                            scx as int,
                            (line + self.frame_scys_at_scanline_0[0]) % 256,
                        ),
                        seq![0u8, 255u8, 0u8, 255u8],
                    ),
                    spec_tile_map_pixel(
                        (scx + LCD_HORIZONTAL_PIXEL_COUNT) % 256,
                        (line + self.frame_scys_at_scanline_0[LCD_HORIZONTAL_PIXEL_COUNT - 1])
                            % 256,
                    ),
                    seq![0u8, 255u8, 255u8, 255u8],
                )
            } else {
                before
            }
        }
    }

    /// Whether the first tile map names only tiles that it can show.
    pub open spec fn spec_tile_map0_fits(self) -> bool {
        spec_tile_map_fits(
            self.vram,
            self.tile_map0_last_addressing_modes,
            TILE_MAP0_VRAM_OFFSET as int,
        )
    }

    /// Whether the second tile map names only tiles that it can show.
    pub open spec fn spec_tile_map1_fits(self) -> bool {
        spec_tile_map_fits(
            self.vram,
            self.tile_map1_last_addressing_modes,
            TILE_MAP1_VRAM_OFFSET as int,
        )
    }

    /// The unit with the tile palette rendered.
    pub open spec fn spec_with_tile_palette(self) -> PPUView {
        PPUView {
            tile_palette_pixels: spec_render_tile_palette(self.vram, self.background_palette_data),
            ..self
        }
    }

    /// The unit with the tile palette rendered, and the first tile map from
    /// it; or the fault of a map that names a tile that cannot be shown.
    pub open spec fn spec_render(self) -> Result<PPUView, Fault> {
        let with_palette = self.spec_with_tile_palette();
        if with_palette.spec_tile_map0_fits() {
            Ok(
                PPUView {
                    tile_map0_pixels: with_palette.spec_render_tile_map0(),
                    ..with_palette
                },
            )
        } else {
            Err(Fault::TileOutsidePalette)
        }
    }

    /// The first tile map as rendered from the tile palette as it stands,
    /// with the outline of the screen drawn over it.
    pub open spec fn spec_render_tile_map0(self) -> Seq<u8> {
        self.spec_mark_columns(
            self.spec_mark_rows(
                spec_render_tile_map(
                    self.vram,
                    self.tile_palette_pixels,
                    self.tile_map0_last_addressing_modes,
                    TILE_MAP0_VRAM_OFFSET as int,
                ),
                LCD_HORIZONTAL_PIXEL_COUNT as nat,
            ),
            LCD_VERTICAL_PIXEL_COUNT as nat,
        )
    }
}

proof fn lemma_pixel_code_fits(high_bits: u8, low_bits: u8, shift: u8)
    requires
        shift < 8,
    ensures
        (((high_bits >> shift) & 1) << 1u8) | ((low_bits >> shift) & 1) < 4,
{
    assert((((high_bits >> shift) & 1) << 1u8) | ((low_bits >> shift) & 1) < 4) by (bit_vector)
        requires
            shift < 8,
    ;
}

proof fn lemma_mark_keeps_length(ppu: PPUView, surface: Seq<u8>, count: nat)
    requires
        surface.len() == TILE_MAP_BYTES,
    ensures
        ppu.spec_mark_rows(surface, count).len() == surface.len(),
        ppu.spec_mark_columns(surface, count).len() == surface.len(),
    decreases count,
{
    if count > 0 {
        lemma_mark_keeps_length(ppu, surface, (count - 1) as nat);
    }
}

/// Renders a tile map from the rendered tile palette: the tiles are pixels
/// already, so each pixel is copied from its place in the palette. A map that
/// names a tile that cannot be shown is not rendered at all.
fn render_tile_map(
    vram: &[u8; 0x2000],
    tile_palette_pixels: &Vec<u8>,
    tile_map_pixels: &mut Vec<u8>,
    tile_map_vram_offset: usize,
    tile_map_last_addressing_modes: &[TileAddressingMode; 1024],
) -> (rendered: Result<(), Fault>)
    requires
        tile_palette_pixels@.len() == TILE_PALETTE_BYTES,
        old(tile_map_pixels)@.len() == TILE_MAP_BYTES,
        tile_map_vram_offset == TILE_MAP0_VRAM_OFFSET || tile_map_vram_offset
            == TILE_MAP1_VRAM_OFFSET,
    ensures
        if spec_tile_map_fits(
            vram@,
            tile_map_last_addressing_modes@,
            tile_map_vram_offset as int,
        ) {
            rendered is Ok && final(tile_map_pixels)@ == spec_render_tile_map(
                vram@,
                tile_palette_pixels@,
                tile_map_last_addressing_modes@,
                tile_map_vram_offset as int,
            )
        } else {
            rendered == Err::<(), Fault>(Fault::TileOutsidePalette) && final(tile_map_pixels)@
                == old(tile_map_pixels)@
        },
{
    let mut entry: usize = 0;
    while entry < TILE_MAP_TILE_TOTAL
        invariant
            entry <= TILE_MAP_TILE_TOTAL,
            tile_map_vram_offset == TILE_MAP0_VRAM_OFFSET || tile_map_vram_offset
                == TILE_MAP1_VRAM_OFFSET,
            forall|e: int|
                0 <= e < entry ==> #[trigger] spec_tile_at(
                    vram@,
                    tile_map_last_addressing_modes@,
                    tile_map_vram_offset as int,
                    e,
                ) < TILE_MAP_TILE_LIMIT,
        decreases TILE_MAP_TILE_TOTAL - entry,
    {
        let tile = tile_index_in_palette(
            vram[tile_map_vram_offset + entry],
            &tile_map_last_addressing_modes[entry],
        );
        if tile >= TILE_MAP_TILE_LIMIT {
            assert(spec_tile_at(
                vram@,
                tile_map_last_addressing_modes@,
                tile_map_vram_offset as int,
                entry as int,
            ) >= TILE_MAP_TILE_LIMIT);
            return Err(Fault::TileOutsidePalette);
        }
        entry = entry + 1;
    }
    let mut pixel: usize = 0;
    while pixel < TILE_MAP_PIXELS_TOTAL
        invariant
            pixel <= TILE_MAP_PIXELS_TOTAL,
            tile_palette_pixels@.len() == TILE_PALETTE_BYTES,
            tile_map_pixels@.len() == TILE_MAP_BYTES,
            tile_map_vram_offset == TILE_MAP0_VRAM_OFFSET || tile_map_vram_offset
                == TILE_MAP1_VRAM_OFFSET,
            spec_tile_map_fits(
                vram@,
                tile_map_last_addressing_modes@,
                tile_map_vram_offset as int,
            ),
            forall|i: int|
                0 <= i < pixel * 4 ==> tile_map_pixels@[i] == tile_palette_pixels@[spec_tile_map_source(
                    vram@,
                    tile_map_last_addressing_modes@,
                    tile_map_vram_offset as int,
                    i,
                )],
        decreases TILE_MAP_PIXELS_TOTAL - pixel,
    {
        let pixel_x = pixel % TILE_MAP_HORIZONTAL_PIXELS;
        let pixel_y = pixel / TILE_MAP_HORIZONTAL_PIXELS;
        let tile_index_in_tile_map = (pixel_y / VERTICAL_PIXELS_PER_TILE)
            * TILE_MAP_HORIZONTAL_TILE_COUNT + pixel_x / HORIZONTAL_PIXELS_PER_TILE;
        let tile_id = vram[tile_map_vram_offset + tile_index_in_tile_map];
        let addressing_mode = tile_map_last_addressing_modes[tile_index_in_tile_map];
        let tile = tile_index_in_palette(tile_id, &addressing_mode) as usize;
        assert(tile == spec_tile_at(
            vram@,
            tile_map_last_addressing_modes@,
            tile_map_vram_offset as int,
            tile_index_in_tile_map as int,
        ));
        assert(tile / 16 <= 22);
        let source_x = (tile % TILE_MAP_HORIZONTAL_TILE_COUNT) * HORIZONTAL_PIXELS_PER_TILE
            + pixel_x % HORIZONTAL_PIXELS_PER_TILE;
        let source_y = (tile / TILE_PALETTE_HORIZONTAL_TILE_COUNT) * VERTICAL_PIXELS_PER_TILE
            + pixel_y % VERTICAL_PIXELS_PER_TILE;
        let source = (source_y * TILE_PALETTE_HORIZONTAL_PIXELS + source_x) * PIXEL_DATA_SIZE;
        let from = pixel * PIXEL_DATA_SIZE;
        let rgba = [
            tile_palette_pixels[source],
            tile_palette_pixels[source + 1],
            tile_palette_pixels[source + 2],
            tile_palette_pixels[source + 3],
        ];
        put_pixel(tile_map_pixels, from, &rgba);
        assert forall|i: int| from <= i < from + 4 implies tile_map_pixels@[i]
            == tile_palette_pixels@[spec_tile_map_source(
            vram@,
            tile_map_last_addressing_modes@,
            tile_map_vram_offset as int,
            i,
        )] by {
            assert(i / 4 == pixel as int);
            assert(i % 4 == i - from);
        }
        pixel = pixel + 1;
    }
    assert(tile_map_pixels@ =~= spec_render_tile_map(
        vram@,
        tile_palette_pixels@,
        tile_map_last_addressing_modes@,
        tile_map_vram_offset as int,
    ));
    Ok(())
}

impl PPU {
    /// Renders the 384 tiles of video RAM, 16 to a row, under the
    /// background palette.
    pub fn render_tile_palette(&mut self)
        requires
            old(self)@.wf(),
        ensures
            final(self)@ == (PPUView {
                tile_palette_pixels: spec_render_tile_palette(
                    old(self)@.vram,
                    old(self)@.background_palette_data,
                ),
                ..old(self)@
            }),
            final(self)@.wf(),
    {
        let mut pixel: usize = 0;
        while pixel < TILE_PALETTE_PIXELS_TOTAL
            invariant
                pixel <= TILE_PALETTE_PIXELS_TOTAL,
                self@.tile_palette_pixels.len() == TILE_PALETTE_BYTES,
                self@ == (PPUView { tile_palette_pixels: self@.tile_palette_pixels, ..old(self)@ }),
                forall|i: int|
                    0 <= i < pixel * 4 ==> self@.tile_palette_pixels[i] == spec_tile_palette_byte(
                        self@.vram,
                        self@.background_palette_data,
                        i,
                    ),
            decreases TILE_PALETTE_PIXELS_TOTAL - pixel,
        {
            let pixel_x = pixel % TILE_PALETTE_HORIZONTAL_PIXELS;
            let pixel_y = pixel / TILE_PALETTE_HORIZONTAL_PIXELS;
            let tile = (pixel_y / VERTICAL_PIXELS_PER_TILE) * TILE_PALETTE_HORIZONTAL_TILE_COUNT
                + pixel_x / HORIZONTAL_PIXELS_PER_TILE;
            let row_data_from = tile * 16 + (pixel_y % VERTICAL_PIXELS_PER_TILE) * 2;
            let low_bits = self.vram[row_data_from];
            let high_bits = self.vram[row_data_from + 1];
            let shift = (7 - pixel_x % HORIZONTAL_PIXELS_PER_TILE) as u8;
            proof {
                lemma_pixel_code_fits(high_bits, low_bits, shift);
            }
            let pixel_code = (((high_bits >> shift) & 1) << 1u8) | ((low_bits >> shift) & 1);
            let pixel_rgba = pixel_code_to_rgba(pixel_code, self.background_palette_data);
            let from = pixel * PIXEL_DATA_SIZE;
            put_pixel(&mut self.tile_palette_pixels, from, &pixel_rgba);
            assert forall|i: int| from <= i < from + 4 implies self@.tile_palette_pixels[i]
                == spec_tile_palette_byte(self@.vram, self@.background_palette_data, i) by {
                assert(i / 4 == pixel as int);
                assert(i % 4 == i - from);
            }
            pixel = pixel + 1;
        }
        assert(self@.tile_palette_pixels =~= spec_render_tile_palette(
            old(self)@.vram,
            old(self)@.background_palette_data,
        ));
    }

    /// Renders the first tile map from the tile palette as it was last
    /// rendered, and draws the outline of the screen over it, where the scroll
    /// registers recorded during the frame put it. A map that names a tile
    /// that cannot be shown is a fault, and nothing is rendered.
    pub fn render_tile_map0(&mut self) -> (rendered: Result<(), Fault>)
        requires
            old(self)@.wf(),
        ensures
            if old(self)@.spec_tile_map0_fits() {
                rendered is Ok && final(self)@ == (PPUView {
                    tile_map0_pixels: old(self)@.spec_render_tile_map0(),
                    ..old(self)@
                })
            } else {
                rendered == Err::<(), Fault>(Fault::TileOutsidePalette) && final(self)@ == old(
                    self,
                )@
            },
            final(self)@.wf(),
    {
        render_tile_map(
            &self.vram,
            &self.tile_palette_pixels,
            &mut self.tile_map0_pixels,
            TILE_MAP0_VRAM_OFFSET,
            &self.tile_map0_last_addressing_modes,
        )?;
        let ghost rendered = self@.tile_map0_pixels;
        // The top and bottom lines of the screen.
        let scx_top = self.frame_scxs[0] as usize;
        let scx_bot = self.frame_scxs[LCD_VERTICAL_PIXEL_COUNT - 1] as usize;
        let mut y: usize = 0;
        while y < LCD_HORIZONTAL_PIXEL_COUNT
            invariant
                y <= LCD_HORIZONTAL_PIXEL_COUNT,
                scx_top == old(self)@.frame_scxs[0],
                scx_bot == old(self)@.frame_scxs[LCD_VERTICAL_PIXEL_COUNT - 1],
                rendered.len() == TILE_MAP_BYTES,
                self@ == (PPUView { tile_map0_pixels: self@.tile_map0_pixels, ..old(self)@ }),
                self@.tile_map0_pixels == old(self)@.spec_mark_rows(rendered, y as nat),
            decreases LCD_HORIZONTAL_PIXEL_COUNT - y,
        {
            proof {
                lemma_mark_keeps_length(old(self)@, rendered, y as nat);
            }
            if self.frame_scys_first_scanline_valid[y] {
                let scy = self.frame_scys_at_scanline_0[y] as usize;
                let pixel_index = scy * TILE_MAP_HORIZONTAL_PIXELS + ((y + scx_top)
                    % TILE_MAP_HORIZONTAL_PIXELS);
                put_pixel(&mut self.tile_map0_pixels, pixel_index * 4, &[255u8, 0u8, 0u8, 255u8]);
                let pixel_index = ((scy + LCD_VERTICAL_PIXEL_COUNT) % TILE_MAP_VERTICAL_PIXELS)
                    * TILE_MAP_HORIZONTAL_PIXELS + ((y + scx_bot) % TILE_MAP_HORIZONTAL_PIXELS);
                put_pixel(&mut self.tile_map0_pixels, pixel_index * 4, &[255u8, 255u8, 0u8, 255u8]);
            }
            y = y + 1;
        }
        let ghost rows = self@.tile_map0_pixels;
        proof {
            lemma_mark_keeps_length(old(self)@, rendered, LCD_HORIZONTAL_PIXEL_COUNT as nat);
        }
        // The left and right lines of the screen.
        let scy_left = self.frame_scys_at_scanline_0[0] as usize;
        let scy_right = self.frame_scys_at_scanline_0[LCD_HORIZONTAL_PIXEL_COUNT - 1] as usize;
        let mut x: usize = 0;
        while x < LCD_VERTICAL_PIXEL_COUNT
            invariant
                x <= LCD_VERTICAL_PIXEL_COUNT,
                scy_left == old(self)@.frame_scys_at_scanline_0[0],
                scy_right == old(self)@.frame_scys_at_scanline_0[LCD_HORIZONTAL_PIXEL_COUNT - 1],
                rows.len() == TILE_MAP_BYTES,
                self@ == (PPUView { tile_map0_pixels: self@.tile_map0_pixels, ..old(self)@ }),
                self@.tile_map0_pixels == old(self)@.spec_mark_columns(rows, x as nat),
            decreases LCD_VERTICAL_PIXEL_COUNT - x,
        {
            proof {
                lemma_mark_keeps_length(old(self)@, rows, x as nat);
            }
            if self.frame_scxs_valid[x] {
                let scx = self.frame_scxs[x] as usize;
                let pixel_index = ((x + scy_left) % TILE_MAP_VERTICAL_PIXELS)
                    * TILE_MAP_HORIZONTAL_PIXELS + scx;
                put_pixel(&mut self.tile_map0_pixels, pixel_index * 4, &[0u8, 255u8, 0u8, 255u8]);
                let pixel_index = ((x + scy_right) % TILE_MAP_VERTICAL_PIXELS)
                    * TILE_MAP_HORIZONTAL_PIXELS + ((scx + LCD_HORIZONTAL_PIXEL_COUNT)
                    % TILE_MAP_HORIZONTAL_PIXELS);
                put_pixel(&mut self.tile_map0_pixels, pixel_index * 4, &[0u8, 255u8, 255u8, 255u8]);
            }
            x = x + 1;
        }
        proof {
            lemma_mark_keeps_length(old(self)@, rows, LCD_VERTICAL_PIXEL_COUNT as nat);
        }
        Ok(())
    }

    /// Renders the second tile map from the tile palette as it was last
    /// rendered. A map that names a tile that cannot be shown is a fault, and
    /// nothing is rendered.
    pub fn render_tile_map1(&mut self) -> (rendered: Result<(), Fault>)
        requires
            old(self)@.wf(),
        ensures
            if old(self)@.spec_tile_map1_fits() {
                rendered is Ok && final(self)@ == (PPUView {
                    tile_map1_pixels: spec_render_tile_map(
                        old(self)@.vram,
                        old(self)@.tile_palette_pixels,
                        old(self)@.tile_map1_last_addressing_modes,
                        TILE_MAP1_VRAM_OFFSET as int,
                    ),
                    ..old(self)@
                })
            } else {
                rendered == Err::<(), Fault>(Fault::TileOutsidePalette) && final(self)@ == old(
                    self,
                )@
            },
            final(self)@.wf(),
    {
        render_tile_map(
            &self.vram,
            &self.tile_palette_pixels,
            &mut self.tile_map1_pixels,
            TILE_MAP1_VRAM_OFFSET,
            &self.tile_map1_last_addressing_modes,
        )
    }

    /// Renders the tile palette, and the first tile map from it. Where the
    /// map names a tile that cannot be shown, that is a fault, and the palette
    /// alone is rendered.
    pub fn render(&mut self) -> (rendered: Result<(), Fault>)
        requires
            old(self)@.wf(),
        ensures
            match old(self)@.spec_render() {
                Ok(view) => rendered is Ok && final(self)@ == view,
                Err(fault) => rendered == Err::<(), Fault>(fault) && final(self)@ == old(
                    self,
                )@.spec_with_tile_palette(),
            },
            final(self)@.wf(),
    {
        self.render_tile_palette();
        self.render_tile_map0()
    }
}


impl PPU {
    /// Whether the unit is in a state that a dot can start from.
    pub fn wf(&self) -> (wf: bool)
        ensures
            wf == self@.wf(),
    {
        self.lcd_pixels.len() == LCD_BYTES && self.tile_map0_pixels.len() == TILE_MAP_BYTES
            && self.tile_map1_pixels.len() == TILE_MAP_BYTES && self.tile_palette_pixels.len()
            == TILE_PALETTE_BYTES && self.scanline_dots <= SCANLINE_DOTS
            && self.drawn_pixels_on_current_row as usize <= LCD_HORIZONTAL_PIXEL_COUNT && (!(
        self.state == PPUState::OAMScan || self.state == PPUState::DrawingPixels)
            || (self.drawn_pixels_on_current_row as usize) < LCD_HORIZONTAL_PIXEL_COUNT)
    }
}

} // verus!
