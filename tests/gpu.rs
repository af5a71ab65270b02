use gameboy::gpu::Gpu;

#[test]
fn one_frame_raises_one_vblank() {
    let mut g = Gpu::new();
    assert_eq!(g.clock.ly, 0);
    assert_eq!(g.mode(), 2);
    let chunks = [4u32, 8, 12, 16, 20, 24];
    let mut total = 0u32;
    let mut vblanks = 0;
    let mut k = 0;
    while total < 70224 {
        let n = chunks[k % chunks.len()].min(70224 - total);
        let mut f = 0u8;
        g.step(n, &mut f);
        if f & 0x01 != 0 {
            vblanks += 1;
        }
        total += n;
        k += 1;
    }
    assert_eq!(vblanks, 1);
    assert_eq!(g.clock.ly, 0);
    assert_eq!(g.mode(), 2);
    assert_eq!(g.rb(0xFF41) & 0x03, 2);
}

#[test]
fn stat_reports_one_mode() {
    let mut g = Gpu::new();
    let mut f = 0u8;
    let mut seen = [false; 4];
    for _ in 0..70224 / 4 {
        g.step(4, &mut f);
        let stat = g.rb(0xFF41);
        let mode = stat & 0x03;
        assert_eq!(mode, g.mode());
        assert_eq!(stat & 0x80, 0x80);
        seen[mode as usize] = true;
    }
    assert_eq!(seen, [true; 4]);
    // LCD off: LY and the mode read zero, nothing advances.
    g.wb(0xFF40, 0x11);
    g.step(1000, &mut f);
    assert_eq!(g.rb(0xFF44), 0);
    assert_eq!(g.mode(), 0);
}

#[test]
fn mode_timing_within_a_line() {
    let mut g = Gpu::new();
    let mut f = 0u8;
    g.step(79, &mut f);
    assert_eq!(g.mode(), 2);
    g.step(1, &mut f);
    assert_eq!(g.mode(), 3);
    g.step(172, &mut f);
    assert_eq!(g.mode(), 0);
    g.step(204, &mut f);
    assert_eq!(g.rb(0xFF44), 1);
    assert_eq!(g.mode(), 2);
}

#[test]
fn lyc_and_mode_interrupts() {
    let mut g = Gpu::new();
    g.wb(0xFF45, 2);
    g.wb(0xFF41, 0x40);
    let mut f = 0u8;
    g.step(456, &mut f);
    assert_eq!(f & 0x02, 0);
    g.step(456, &mut f);
    assert_eq!(f & 0x02, 0x02);
    assert_eq!(g.rb(0xFF41) & 0x04, 0x04);
    // H-Blank interrupt enable.
    let mut g = Gpu::new();
    g.wb(0xFF41, 0x08);
    let mut f = 0u8;
    g.step(251, &mut f);
    assert_eq!(f, 0);
    g.step(1, &mut f);
    assert_eq!(f, 0x02);
}

#[test]
fn background_tile_is_rendered() {
    let mut g = Gpu::new();
    // Tile 0, row 0: colour index 1 everywhere; BGP 0xFC maps 1 to black.
    g.wb_vram(0x8000, 0xFF);
    g.wb_vram(0x8001, 0x00);
    let mut f = 0u8;
    g.step(253, &mut f);
    assert_eq!(&g.image_data[0..4], &[0, 0, 0, 255]);
    assert_eq!(&g.image_data[4 * 159..4 * 160], &[0, 0, 0, 255]);
    g.step(456, &mut f);
    assert_eq!(&g.image_data[640..644], &[255, 255, 255, 255]);
}

#[test]
fn signed_tile_data_and_scroll() {
    let mut g = Gpu::new();
    // LCDC bit 4 clear: tile 0 lives at 0x9000.
    g.wb(0xFF40, 0x81);
    g.wb_vram(0x9000, 0x00);
    g.wb_vram(0x9001, 0xFF);
    g.wb(0xFF47, 0xE4);
    let mut f = 0u8;
    g.step(253, &mut f);
    // Colour index 2 maps to shade 2 under BGP 0xE4.
    assert_eq!(&g.image_data[0..4], &[96, 96, 96, 255]);
    assert_eq!(g.add_tilei(256, 0x80), 0x80);
    assert_eq!(g.add_tilei(256, 0x01), 257);
    assert_eq!(g.bgbase(), 0x1800);
}

#[test]
fn sprite_is_drawn_over_background() {
    let mut g = Gpu::new();
    g.wb(0xFF40, 0x93);
    g.wb(0xFF48, 0xE4);
    // Tile 1, row 0: only the leftmost pixel has colour 3.
    g.wb_vram(0x8010, 0x80);
    g.wb_vram(0x8011, 0x80);
    g.wb_oam(0xFE00, 16);
    g.wb_oam(0xFE01, 8);
    g.wb_oam(0xFE02, 1);
    g.wb_oam(0xFE03, 0x00);
    let mut f = 0u8;
    g.step(253, &mut f);
    assert_eq!(&g.image_data[0..4], &[0, 0, 0, 255]);
    assert_eq!(&g.image_data[4..8], &[255, 255, 255, 255]);
    // Flipped horizontally the opaque pixel moves to column 7.
    let mut g = Gpu::new();
    g.wb(0xFF40, 0x93);
    g.wb(0xFF48, 0xE4);
    g.wb_vram(0x8010, 0x80);
    g.wb_vram(0x8011, 0x80);
    g.wb_oam(0xFE00, 16);
    g.wb_oam(0xFE01, 8);
    g.wb_oam(0xFE02, 1);
    g.wb_oam(0xFE03, 0x20);
    g.step(253, &mut f);
    assert_eq!(&g.image_data[0..4], &[255, 255, 255, 255]);
    assert_eq!(&g.image_data[28..32], &[0, 0, 0, 255]);
}
