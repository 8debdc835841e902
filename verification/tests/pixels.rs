use yokoiboy::application_state::ROMInformation;
use yokoiboy::fault::Fault;
use yokoiboy::machine::Machine;
use yokoiboy::pixel_fetcher::background_or_window::BackgroundOrWindowFetcher;
use yokoiboy::pixel_fetcher::object::{
    inclusive_ranges_overlap, palette_for_sprite, ObjectFetcher, ObjectPalette, Sprite,
};
use yokoiboy::pixel_fetcher::{tile_index_in_palette, Fetcher, FetchingFor, TileAddressingMode};
use yokoiboy::ppu::{pixel_code_to_rgba, pixel_coordinates_in_rgba_slice, PPU};

fn lcd_machine() -> Machine {
    let mut machine =
        Machine::new(Vec::new(), vec![0u8; 0x8000], ROMInformation::new(), false).unwrap();
    machine.dmg_boot_rom = 1;
    machine
}

fn tick(machine: &mut Machine, dots: u32) -> Result<(), Fault> {
    for _ in 0..dots {
        machine.ppu.tick(
            &mut machine.background_window_fetcher,
            &mut machine.object_fetcher,
            &mut machine.interrupts,
            &mut machine.pixel_fetcher,
        )?;
    }
    Ok(())
}

#[test]
fn palettes_map_colors_to_four_grays() {
    assert_eq!(pixel_code_to_rgba(0, 0xE4), [0xFF, 0xFF, 0xFF, 255]);
    assert_eq!(pixel_code_to_rgba(1, 0xE4), [0xAA, 0xAA, 0xAA, 255]);
    assert_eq!(pixel_code_to_rgba(2, 0xE4), [0x55, 0x55, 0x55, 255]);
    assert_eq!(pixel_code_to_rgba(3, 0xE4), [0x00, 0x00, 0x00, 255]);
    assert_eq!(pixel_code_to_rgba(0, 0x1B), [0x00, 0x00, 0x00, 255]);
    assert_eq!(pixel_coordinates_in_rgba_slice(0, 0), 0);
    assert_eq!(pixel_coordinates_in_rgba_slice(159, 143), 92156);
    assert_eq!(pixel_coordinates_in_rgba_slice(3, 2), (2 * 160 + 3) * 4);
}

#[test]
fn tiles_are_addressed_unsigned_or_signed() {
    assert_eq!(tile_index_in_palette(0x00, &TileAddressingMode::UnsignedFrom0x8000), 0);
    assert_eq!(tile_index_in_palette(0xFF, &TileAddressingMode::UnsignedFrom0x8000), 255);
    assert_eq!(tile_index_in_palette(0x00, &TileAddressingMode::SignedFrom0x9000), 256);
    assert_eq!(tile_index_in_palette(0x7F, &TileAddressingMode::SignedFrom0x9000), 383);
    assert_eq!(tile_index_in_palette(0x80, &TileAddressingMode::SignedFrom0x9000), 128);
    let mut ppu = PPU::new(false);
    assert_eq!(ppu.get_addressing_mode(), TileAddressingMode::SignedFrom0x9000);
    ppu.write_lcdc(0x10);
    assert_eq!(ppu.get_addressing_mode(), TileAddressingMode::UnsignedFrom0x8000);
    assert!(!ppu.is_lcd_ppu_on());
    ppu.write_lcdc(0x80);
    assert!(ppu.is_lcd_ppu_on());
    assert_eq!(ppu.read_lcdc(), 0x80);
}

#[test]
fn bit_planes_interleave_into_colors_leftmost_first() {
    let mut vram = [0u8; 0x2000];
    vram[16 * 2 + 6] = 0b1000_0001;
    vram[16 * 2 + 7] = 0b1100_0000;
    let mut row = [0u8; 8];
    let mode = TileAddressingMode::UnsignedFrom0x8000;
    Fetcher::read_tile_row(&vram, &mode, 3, 2, false, &mut row);
    assert_eq!(row, [1, 0, 0, 0, 0, 0, 0, 1]);
    Fetcher::read_tile_row(&vram, &mode, 3, 2, true, &mut row);
    assert_eq!(row, [3, 2, 0, 0, 0, 0, 0, 1]);
    let mut row = [0u8; 8];
    Fetcher::read_tile_row(&vram, &mode, 11, 2, false, &mut row);
    assert_eq!(row, [1, 0, 0, 0, 0, 0, 0, 1]);
}

#[test]
fn background_fetcher_walks_its_states_and_pushes_a_whole_row() {
    let mut ppu = PPU::new(false);
    ppu.write_lcdc(0x90);
    ppu.write_vram(0x1800, 0x01);
    ppu.write_vram(0x10, 0xFF);
    ppu.write_vram(0x11, 0x0F);
    let mut fetcher = BackgroundOrWindowFetcher::new();
    let mut lengths = Vec::new();
    for _ in 0..7 {
        fetcher.tick(&mut ppu);
        lengths.push(fetcher.fifo.len());
    }
    assert_eq!(lengths, vec![0, 0, 0, 0, 0, 0, 8]);
    let colors: Vec<u8> = fetcher.fifo.iter().map(|item| item.color).collect();
    assert_eq!(colors, vec![1, 1, 1, 1, 3, 3, 3, 3]);
    assert_eq!(fetcher.vram_tile_column, 1);
    // With pixels still queued the fetcher fetches the next row and then waits.
    for _ in 0..20 {
        fetcher.tick(&mut ppu);
    }
    assert_eq!(fetcher.fifo.len(), 8);
    assert_eq!(fetcher.vram_tile_column, 1);
    fetcher.fifo.clear();
    fetcher.tick(&mut ppu);
    assert_eq!(fetcher.fifo.len(), 8);
    assert_eq!(fetcher.vram_tile_column, 2);
    fetcher.prepare_for_new_row();
    assert_eq!((fetcher.fifo.len(), fetcher.vram_tile_column), (0, 0));
    fetcher.vram_tile_column = 3;
    fetcher.prepare_for_new_frame();
    assert_eq!(fetcher.vram_tile_column, 0);
}

#[test]
fn object_fetcher_picks_the_first_sprite_over_the_column() {
    assert!(inclusive_ranges_overlap((0, 7), (7, 14)));
    assert!(!inclusive_ranges_overlap((0, 7), (8, 15)));
    assert!(inclusive_ranges_overlap((-8, -1), (-1, 6)));
    let sprite = |x: u8, tile: u8, attributes: u8| Sprite {
        attributes,
        tile_index: tile,
        x_screen_plus_8: x,
        y_screen_plus_16: 16,
    };
    assert_eq!(palette_for_sprite(Some(&sprite(8, 0, 0x10))), ObjectPalette::ObjectPalette1);
    assert_eq!(palette_for_sprite(Some(&sprite(8, 0, 0xEF))), ObjectPalette::ObjectPalette0);
    assert_eq!(palette_for_sprite(None), ObjectPalette::ObjectPalette0);
    let mut ppu = PPU::new(false);
    ppu.write_vram(0x20, 0b1010_0000);
    let mut fetcher = ObjectFetcher::new();
    fetcher.selected_objects.push_back(sprite(40, 1, 0x00));
    fetcher.selected_objects.push_back(sprite(12, 2, 0x10));
    fetcher.selected_objects.push_back(sprite(8, 3, 0x00));
    for _ in 0..7 {
        fetcher.tick(&mut ppu);
    }
    assert_eq!(fetcher.fifo.len(), 8);
    let colors: Vec<u8> = fetcher.fifo.iter().map(|item| item.color).collect();
    assert_eq!(colors, vec![1, 0, 1, 0, 0, 0, 0, 0]);
    assert!(fetcher.fifo.iter().all(|item| item.palette == ObjectPalette::ObjectPalette1));
    // A second row merges into the transparent pixels only.
    ppu.write_vram(0x20, 0xFF);
    ppu.write_vram(0x21, 0xFF);
    for _ in 0..7 {
        fetcher.tick(&mut ppu);
    }
    let colors: Vec<u8> = fetcher.fifo.iter().map(|item| item.color).collect();
    assert_eq!(colors, vec![1, 3, 1, 3, 3, 3, 3, 3]);
    // No dot moves the fetcher along the line.
    assert_eq!(fetcher.pixel_index_in_row, 0);
    fetcher.prepare_for_new_row();
    assert_eq!((fetcher.fifo.len(), fetcher.pixel_index_in_row), (0, 0));
    fetcher.pixel_index_in_row = 24;
    fetcher.prepare_for_new_frame();
    assert_eq!(fetcher.pixel_index_in_row, 0);
}

#[test]
fn fetcher_turns_are_switched_by_name() {
    let mut fetcher = Fetcher::new();
    assert_eq!(fetcher.fetching_for, FetchingFor::BackgroundOrWindowFIFO);
    fetcher.switch_to_object_fifo();
    assert_eq!(fetcher.fetching_for, FetchingFor::ObjectFIFO);
    fetcher.switch_to_background_or_window_fifo();
    assert_eq!(fetcher.fetching_for, FetchingFor::BackgroundOrWindowFIFO);
    let mut machine = lcd_machine();
    machine.pixel_fetcher.switch_to_object_fifo();
    machine.pixel_fetcher.tick(
        &mut machine.background_window_fetcher,
        &mut machine.object_fetcher,
        &mut machine.ppu,
    );
    assert_eq!(machine.pixel_fetcher.fetching_for, FetchingFor::ObjectFIFO);
    assert_eq!(machine.background_window_fetcher.fifo.len(), 0);
}

#[test]
fn object_scan_selects_ten_sprites_at_most() {
    let mut machine = lcd_machine();
    for entry in 0..40u16 {
        machine.write_u8(0xFE00 + entry * 4, if entry % 2 == 0 { 16 } else { 100 }).unwrap();
        machine.write_u8(0xFE01 + entry * 4, entry as u8).unwrap();
    }
    machine.write_u8(0xFF40, 0x80).unwrap();
    machine.write_u8(0xFF43, 0x07).unwrap();
    tick(&mut machine, 79).unwrap();
    assert_eq!(machine.object_fetcher.selected_objects.len(), 0);
    tick(&mut machine, 1).unwrap();
    let selected: Vec<u8> =
        machine.object_fetcher.selected_objects.iter().map(|s| s.x_screen_plus_8).collect();
    assert_eq!(selected, vec![0, 2, 4, 6, 8, 10, 12, 14, 16, 18]);
    assert_eq!(machine.ppu.frame_scxs[0], 0x07);
}

#[test]
fn drawing_mixes_object_pixels_over_the_background() {
    let mut machine = lcd_machine();
    // Tile 1 is color 3 throughout; tile 0 is color 0.
    for offset in 0..16u16 {
        machine.write_u8(0x8010 + offset, 0xFF).unwrap();
    }
    // One sprite at the left edge of line 0, using tile 1 and the second palette.
    machine.write_u8(0xFE00, 16).unwrap();
    machine.write_u8(0xFE01, 8).unwrap();
    machine.write_u8(0xFE02, 1).unwrap();
    machine.write_u8(0xFE03, 0x10).unwrap();
    machine.write_u8(0xFF47, 0x00).unwrap();
    machine.write_u8(0xFF48, 0xFF).unwrap();
    machine.write_u8(0xFF49, 0x7F).unwrap();
    machine.write_u8(0xFF40, 0x90).unwrap();
    tick(&mut machine, 456).unwrap();
    assert_eq!(machine.ppu.read_ly(), 1);
    // The object's color 3 under palette 1 is shade 1; the background's color
    // 0 would be white. The object fetcher stays at the first eight columns,
    // so the object is fetched again for every row of eight pixels.
    assert_eq!(&machine.ppu.lcd_pixels[0..4], &[0xAA, 0xAA, 0xAA, 255]);
    assert_eq!(&machine.ppu.lcd_pixels[7 * 4..8 * 4], &[0xAA, 0xAA, 0xAA, 255]);
    assert_eq!(&machine.ppu.lcd_pixels[8 * 4..9 * 4], &[0xAA, 0xAA, 0xAA, 255]);
    assert_eq!(&machine.ppu.lcd_pixels[159 * 4..160 * 4], &[0xAA, 0xAA, 0xAA, 255]);
    assert_eq!(machine.object_fetcher.pixel_index_in_row, 0);
    assert_eq!(machine.ppu.drawn_pixels_on_current_row, 0);
}

#[test]
fn coincidence_and_status_line_request_stat_on_the_rising_edge() {
    let mut machine = lcd_machine();
    machine.write_u8(0xFF45, 2).unwrap();
    machine.write_u8(0xFF41, 0x40).unwrap();
    machine.write_u8(0xFF40, 0x80).unwrap();
    tick(&mut machine, 1).unwrap();
    // The status line is up from the first dot: one request, and no more.
    assert_eq!(machine.interrupts.interrupt_flag, 0x02);
    machine.interrupts.interrupt_flag = 0;
    tick(&mut machine, 455).unwrap();
    assert_eq!(machine.ppu.read_ly(), 1);
    assert_eq!(machine.interrupts.interrupt_flag, 0);
    assert_eq!(machine.ppu.lcd_status & 0x04, 0);
    tick(&mut machine, 456).unwrap();
    assert_eq!(machine.ppu.read_ly(), 2);
    assert_eq!(machine.ppu.lcd_status & 0x04, 0x04);
    assert_eq!(machine.interrupts.interrupt_flag, 0x02);
}

#[test]
fn a_fixed_scanline_register_cannot_be_drawn() {
    let mut machine =
        Machine::new(Vec::new(), vec![0u8; 0x8000], ROMInformation::new(), true).unwrap();
    machine.dmg_boot_rom = 1;
    assert_eq!(machine.read_u8(0xFF44), Ok(144));
    machine.write_u8(0xFF40, 0x80).unwrap();
    assert_eq!(tick(&mut machine, 456), Err(Fault::PixelOutsideFrame { x: 0, y: 144 }));
}

#[test]
fn work_ram_and_video_ram_are_read_back() {
    let mut ppu = PPU::new(false);
    ppu.write_vram(0x1FFF, 1);
    ppu.write_wram_0(0x0FFF, 2);
    ppu.write_wram_1(0x0000, 3);
    assert_eq!((ppu.read_vram(0x1FFF), ppu.read_wram_0(0x0FFF), ppu.read_wram_1(0)), (1, 2, 3));
    assert_eq!(ppu.read_vram(0), 0);
    let mut interrupts = yokoiboy::cpu::interrupts::Interrupts::new();
    ppu.lcd_y_compare = 1;
    ppu.lcd_status = 0x40;
    ppu.increment_ly(&mut interrupts);
    assert_eq!(ppu.read_ly(), 1);
    assert_eq!(ppu.lcd_status, 0x44);
    assert_eq!(interrupts.interrupt_flag, 0x02);
    ppu.increment_ly(&mut interrupts);
    assert_eq!(ppu.lcd_status, 0x40);
    let mut bgw = BackgroundOrWindowFetcher::new();
    let mut obj = ObjectFetcher::new();
    ppu.frame_scxs[3] = 9;
    ppu.prepare_for_new_frame(&mut bgw, &mut obj);
    assert_eq!((ppu.read_ly(), ppu.frame_scxs[3]), (0, 0));
}

#[test]
fn tile_palette_and_tile_maps_are_rendered_from_video_ram() {
    let mut ppu = PPU::new(false);
    ppu.background_palette_data = 0xE4;
    // Tile 17 (second row, second column of the palette): its first two rows
    // are all color 1.
    ppu.write_vram(17 * 16, 0xFF);
    ppu.write_vram(17 * 16 + 2, 0xFF);
    // Tile 1: pixel (7, 7) is color 2.
    ppu.write_vram(16 + 15, 0x01);
    ppu.render_tile_palette();
    let at = |x: usize, y: usize| (y * 128 + x) * 4;
    assert_eq!(&ppu.tile_palette_pixels[at(8, 8)..at(8, 8) + 4], &[0xAA, 0xAA, 0xAA, 255]);
    assert_eq!(&ppu.tile_palette_pixels[at(15, 8)..at(15, 8) + 4], &[0xAA, 0xAA, 0xAA, 255]);
    assert_eq!(&ppu.tile_palette_pixels[at(8, 9)..at(8, 9) + 4], &[0xAA, 0xAA, 0xAA, 255]);
    assert_eq!(&ppu.tile_palette_pixels[at(8, 10)..at(8, 10) + 4], &[0xFF, 0xFF, 0xFF, 255]);
    assert_eq!(&ppu.tile_palette_pixels[at(15, 7)..at(15, 7) + 4], &[0x55, 0x55, 0x55, 255]);
    // Map 1 shows tile 17 in its entry (2, 1) and tile 1 in its entry (3, 1).
    // Tile 17 is 17 modulo 32, past the 16 tiles of a palette row, so it is
    // read one pixel row low: its second row comes first. Tile 1 is read as
    // it lies.
    ppu.write_vram(0x1C00 + 32 + 2, 17);
    ppu.write_vram(0x1C00 + 32 + 3, 1);
    assert_eq!(ppu.render_tile_map1(), Ok(()));
    let map_at = |x: usize, y: usize| (y * 256 + x) * 4;
    assert_eq!(&ppu.tile_map1_pixels[map_at(16, 8)..map_at(16, 8) + 4], &[0xAA, 0xAA, 0xAA, 255]);
    assert_eq!(&ppu.tile_map1_pixels[map_at(16, 9)..map_at(16, 9) + 4], &[0xFF, 0xFF, 0xFF, 255]);
    assert_eq!(&ppu.tile_map1_pixels[map_at(31, 15)..map_at(31, 15) + 4], &[0x55, 0x55, 0x55, 255]);
    assert_eq!(&ppu.tile_map1_pixels[map_at(30, 15)..map_at(30, 15) + 4], &[0xFF, 0xFF, 0xFF, 255]);
    // Map 0 shows tile 1 in entry (0, 0), addressed signed: that is tile 257.
    ppu.write_vram(0x1800, 1);
    ppu.tile_map0_last_addressing_modes[0] = TileAddressingMode::SignedFrom0x9000;
    ppu.write_vram(257 * 16 + 2, 0x80);
    ppu.frame_scxs[0] = 1;
    ppu.frame_scys_at_scanline_0[0] = 1;
    assert_eq!(ppu.render(), Ok(()));
    // The tile's own pixel, where no outline passes.
    assert_eq!(&ppu.tile_map0_pixels[map_at(0, 1)..map_at(0, 1) + 4], &[0xAA, 0xAA, 0xAA, 255]);
    // Column 0 was scrolled down by one: its top lies at (1, 1), where the
    // left edge of line 0 passes too and is drawn later.
    assert_eq!(&ppu.tile_map0_pixels[map_at(1, 1)..map_at(1, 1) + 4], &[0, 255, 0, 255]);
    assert_eq!(&ppu.tile_map0_pixels[map_at(2, 0)..map_at(2, 0) + 4], &[255, 0, 0, 255]);
    assert_eq!(&ppu.tile_map0_pixels[map_at(0, 145)..map_at(0, 145) + 4], &[255, 255, 0, 255]);
    assert_eq!(&ppu.tile_map0_pixels[map_at(1, 144)..map_at(1, 144) + 4], &[255, 255, 0, 255]);
    assert_eq!(&ppu.tile_map0_pixels[map_at(0, 2)..map_at(0, 2) + 4], &[0, 255, 0, 255]);
    assert_eq!(&ppu.tile_map0_pixels[map_at(161, 0)..map_at(161, 0) + 4], &[0, 255, 255, 255]);
    assert_eq!(&ppu.tile_map0_pixels[map_at(160, 1)..map_at(160, 1) + 4], &[0, 255, 255, 255]);
    assert_eq!(&ppu.tile_map0_pixels[map_at(7, 7)..map_at(7, 7) + 4], &[0xFF, 0xFF, 0xFF, 255]);
}

#[test]
fn a_tile_map_that_names_a_tile_past_the_palette_is_not_rendered() {
    let mut ppu = PPU::new(false);
    ppu.render_tile_palette();
    // Entry 5 of map 0 names tile 0x70, addressed signed: that is tile 368.
    ppu.write_vram(0x1800 + 5, 0x70);
    assert_eq!(ppu.render_tile_map0(), Ok(()));
    ppu.tile_map0_last_addressing_modes[5] = TileAddressingMode::SignedFrom0x9000;
    // A pixel of entry 0 that no outline of the screen passes through.
    let inside = (5 * 256 + 5) * 4;
    ppu.tile_map0_pixels[inside] = 7;
    assert_eq!(ppu.render_tile_map0(), Err(Fault::TileOutsidePalette));
    assert_eq!(ppu.tile_map0_pixels[inside], 7);
    assert_eq!(ppu.render(), Err(Fault::TileOutsidePalette));
    assert_eq!(ppu.render_tile_map1(), Ok(()));
    ppu.write_vram(0x1800 + 5, 0x6F);
    assert_eq!(ppu.render(), Ok(()));
    assert_eq!(ppu.tile_map0_pixels[inside], 0xFF);
}

#[test]
fn the_background_fetcher_records_the_addressing_mode_of_each_entry() {
    // Signed addressing, first tile map.
    let mut ppu = PPU::new(false);
    ppu.write_lcdc(0x80);
    ppu.write_vram(0x1800 + 3, 0x21);
    let mut fetcher = BackgroundOrWindowFetcher::new();
    fetcher.vram_tile_column = 3;
    assert!(fetcher.can_tick(&ppu));
    fetcher.tick(&mut ppu);
    fetcher.tick(&mut ppu);
    assert_eq!(fetcher.tile_id, 0x21);
    assert_eq!(ppu.tile_map1_last_addressing_modes[3], TileAddressingMode::SignedFrom0x9000);
    assert_eq!(ppu.tile_map0_last_addressing_modes[3], TileAddressingMode::UnsignedFrom0x8000);
    // Signed addressing, second tile map, second row of tiles.
    let mut ppu = PPU::new(false);
    ppu.write_lcdc(0x88);
    ppu.scy = 8;
    ppu.write_vram(0x1C00 + 32 + 3, 0x22);
    let mut fetcher = BackgroundOrWindowFetcher::new();
    fetcher.vram_tile_column = 3;
    fetcher.tick(&mut ppu);
    fetcher.tick(&mut ppu);
    assert_eq!(fetcher.tile_id, 0x22);
    assert_eq!(ppu.tile_map0_last_addressing_modes[35], TileAddressingMode::SignedFrom0x9000);
    assert_eq!(ppu.tile_map1_last_addressing_modes[35], TileAddressingMode::UnsignedFrom0x8000);
}

#[test]
fn the_background_fetcher_counts_its_columns_on() {
    let mut ppu = PPU::new(false);
    ppu.scy = 16;
    ppu.write_vram(0x1800 + 2 * 32 + 32, 0x33);
    let mut fetcher = BackgroundOrWindowFetcher::new();
    fetcher.vram_tile_column = 31;
    for _ in 0..7 {
        assert!(fetcher.can_tick(&ppu));
        fetcher.tick(&mut ppu);
    }
    assert_eq!((fetcher.fifo.len(), fetcher.vram_tile_column), (8, 32));
    // Column 32 of a row of tiles is the first of the row below.
    fetcher.tick(&mut ppu);
    assert!(fetcher.can_tick(&ppu));
    fetcher.tick(&mut ppu);
    assert_eq!(fetcher.tile_id, 0x33);
    // In the last row of tiles there is no entry for it.
    ppu.scy = 0xF8;
    let mut last = BackgroundOrWindowFetcher::new();
    last.vram_tile_column = 32;
    last.tick(&mut ppu);
    assert!(!last.can_tick(&ppu));
    last.vram_tile_column = 31;
    assert!(last.can_tick(&ppu));
    // Nor can a byte count past 255.
    let mut full = BackgroundOrWindowFetcher::new();
    full.vram_tile_column = 255;
    ppu.scy = 0;
    for _ in 0..6 {
        assert!(full.can_tick(&ppu));
        full.tick(&mut ppu);
    }
    assert!(!full.can_tick(&ppu));
    full.fifo.push_back(yokoiboy::pixel_fetcher::FIFOItem { color: 0 });
    assert!(full.can_tick(&ppu));
}

#[test]
fn a_scanline_that_never_reaches_its_blank_overruns() {
    let mut machine = lcd_machine();
    machine.write_u8(0xFF40, 0x80).unwrap();
    // Past dot 80 the object scan has no way on.
    machine.ppu.scanline_dots = 100;
    assert_eq!(tick(&mut machine, 356), Ok(()));
    assert_eq!(machine.ppu.scanline_dots, 456);
    assert_eq!(tick(&mut machine, 1), Err(Fault::ScanlineOverrun));
}

#[test]
fn validity_is_checked_before_stepping() {
    let mut machine = lcd_machine();
    assert!(machine.wf());
    machine.ppu.scanline_dots = 457;
    assert!(!machine.wf());
    machine.ppu.scanline_dots = 0;
    machine.ppu.drawn_pixels_on_current_row = 160;
    assert!(!machine.wf());
    machine.ppu.drawn_pixels_on_current_row = 0;
    machine.ppu.lcd_pixels.pop();
    assert!(!machine.ppu.wf());
    machine.ppu.lcd_pixels.push(0);
    // During the object scan the background fetcher is at its first column.
    machine.background_window_fetcher.vram_tile_column = 1;
    assert!(machine.background_window_fetcher.wf());
    assert!(!yokoiboy::ppu::columns_agree(&machine.ppu, &machine.background_window_fetcher));
    assert!(!machine.wf());
    machine.background_window_fetcher.vram_tile_column = 0;
    assert!(yokoiboy::ppu::columns_agree(&machine.ppu, &machine.background_window_fetcher));
    machine.background_window_fetcher.tile_row_data[0] = 9;
    assert!(!machine.background_window_fetcher.wf());
    machine.background_window_fetcher.tile_row_data[0] = 0;
    machine.object_fetcher.tile_row_data[3] = 4;
    assert!(!machine.object_fetcher.wf());
    machine.object_fetcher.tile_row_data[3] = 3;
    assert!(machine.wf());
    assert!(yokoiboy::pixel_fetcher::colors_fit(&[0, 1, 2, 3, 0, 1, 2, 3]));
    assert!(!yokoiboy::pixel_fetcher::colors_fit(&[0, 1, 2, 3, 4, 1, 2, 3]));
}
