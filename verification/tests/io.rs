//! Memory-mapped PPU/APU I/O registers.

use oxidesfc_core::IoRegisters;

#[test]
fn test_new_registers_default() {
    let regs = IoRegisters::new();
    
    // All registers should be initialized to 0
    assert_eq!(regs.inidisp, 0x00);
    assert_eq!(regs.obsel, 0x00);
    assert_eq!(regs.bgmode, 0x00);
    assert_eq!(regs.oam_address(), 0);
    assert_eq!(regs.vram_address(), 0);
}

#[test]
fn test_write_inidisp() {
    let mut regs = IoRegisters::new();
    
    // Write display control with force blank and max brightness
    regs.write(0x00, 0x8F); // 1000 1111
    
    assert_eq!(regs.inidisp, 0x8F);
    assert!(regs.is_forced_blank());
    assert_eq!(regs.brightness(), 0x0F);
}

#[test]
fn test_write_bgmode() {
    let mut regs = IoRegisters::new();
    
    // Write BG mode 1
    regs.write(0x05, 0x01);
    
    assert_eq!(regs.bgmode, 0x01);
    assert_eq!(regs.bg_mode(), 1);
}

#[test]
fn test_oam_address() {
    let mut regs = IoRegisters::new();
    
    // Write OAM address low byte
    regs.write(0x02, 0x50);
    assert_eq!(regs.oam_address(), 0x50);
    
    // Write OAM address high byte (with bit 0 = 1 for 9-bit addressing)
    regs.write(0x03, 0x01);
    assert_eq!(regs.oam_address(), 0x150);
}

#[test]
fn test_vram_address() {
    let mut regs = IoRegisters::new();
    
    // Write VRAM address low byte
    regs.write(0x16, 0x00);
    regs.write(0x17, 0x00);
    assert_eq!(regs.vram_address(), 0x0000);
    
    // Write VRAM address
    regs.write(0x16, 0x20);
    regs.write(0x17, 0x03); // 0x0320 = 800
    assert_eq!(regs.vram_address(), 0x0320);
}

#[test]
fn test_cgram_address() {
    let mut regs = IoRegisters::new();
    
    // Write CGRAM address
    regs.write(0x1A, 0x10);
    
    assert_eq!(regs.cgadd, 0x10);
    assert_eq!(regs.cgram_address(), 0x10);
    
    // Write CGRAM data should auto-increment
    regs.write(0x1B, 0xFF);
    assert_eq!(regs.cgram_address(), 0x11);
}

#[test]
fn test_fine_scroll() {
    let mut regs = IoRegisters::new();
    
    // Write BG1 scroll (must write low byte first, then high byte)
    regs.write(0x0D, 0x50); // Low byte
    regs.write(0x0E, 0x01); // High byte
    assert_eq!(regs.bg1hoffs, 0x0150);
    
    // Write vertical scroll
    regs.write(0x0F, 0xA0); // Low byte
    regs.write(0x10, 0x02); // High byte
    assert_eq!(regs.bg1voffs, 0x02A0);
}

#[test]
fn test_screen_enable() {
    let mut regs = IoRegisters::new();
    
    // Write TM (main screen enable)
    regs.write(0x2C, 0x1F); // Enable BG1-BG4
    assert_eq!(regs.tm, 0x1F);
    
    // Write TS (sub screen enable)
    regs.write(0x2D, 0x0F);
    assert_eq!(regs.ts, 0x0F);
}

#[test]
fn test_apu_ports() {
    let mut regs = IoRegisters::new();
    
    // Write to APU ports
    regs.write(0x40, 0x12);
    regs.write(0x41, 0x34);
    regs.write(0x42, 0x56);
    regs.write(0x43, 0x78);
    
    assert_eq!(regs.apu_ports[0], 0x12);
    assert_eq!(regs.apu_ports[1], 0x34);
    assert_eq!(regs.apu_ports[2], 0x56);
    assert_eq!(regs.apu_ports[3], 0x78);
    
    // Read back
    assert_eq!(regs.read(0x40), 0x12);
    assert_eq!(regs.read(0x41), 0x34);
    assert_eq!(regs.read(0x42), 0x56);
    assert_eq!(regs.read(0x43), 0x78);
}

#[test]
fn test_window_settings() {
    let mut regs = IoRegisters::new();
    
    // Write window settings
    regs.write(0x21, 0xAA); // W12SEL
    regs.write(0x22, 0x55); // W34SEL
    regs.write(0x23, 0x10); // WH0
    regs.write(0x24, 0x20); // WH1
    regs.write(0x25, 0x30); // WH2
    regs.write(0x26, 0x40); // WH3
    regs.write(0x27, 0x01); // WMMODE
    
    assert_eq!(regs.w12sel, 0xAA);
    assert_eq!(regs.w34sel, 0x55);
    assert_eq!(regs.wh0, 0x10);
    assert_eq!(regs.wh1, 0x20);
    assert_eq!(regs.wh2, 0x30);
    assert_eq!(regs.wh3, 0x40);
    assert_eq!(regs.wmmode, 0x01);
}

#[test]
fn test_mirrored_window_settings() {
    let mut regs = IoRegisters::new();
    
    // Write to mirrored addresses
    regs.write(0x31, 0xBB); // W12SEL mirror
    assert_eq!(regs.w12sel_mirror, 0xBB);
    assert_eq!(regs.w12sel, 0xBB); // Should also update primary
    
    regs.write(0x32, 0xCC); // W34SEL mirror
    assert_eq!(regs.w34sel_mirror, 0xCC);
    assert_eq!(regs.w34sel, 0xCC);
}

#[test]
fn test_setini() {
    let mut regs = IoRegisters::new();
    
    // Write SETINI with various settings
    // Bit 0: Mode 7 extbg
    // Bit 2: Overscan
    // Bit 3-4: Interlace
    regs.write(0x30, 0x0D); // 0000 1101
    
    assert!(regs.mode7_extbg());
    assert!(regs.is_overscan());
    assert!(regs.is_interlaced());
}

#[test]
fn test_read_write_mirror() {
    let mut regs = IoRegisters::new();
    
    // Write to primary address
    regs.write(0x21, 0xFF);
    
    // Read from mirrored address should return same value
    assert_eq!(regs.read(0x31), 0xFF);
}

#[test]
fn test_reset() {
    let mut regs = IoRegisters::new();
    
    // Write some values
    regs.write(0x00, 0x8F);
    regs.write(0x05, 0x01);
    regs.write(0x40, 0xAB);
    
    // Reset
    regs.reset();
    
    // All values should be back to defaults
    assert_eq!(regs.inidisp, 0x00);
    assert_eq!(regs.bgmode, 0x00);
    assert_eq!(regs.apu_ports[0], 0x00);
}

#[test]
fn test_vram_increment_mode_0() {
    let mut regs = IoRegisters::new();
    regs.vmain = 0x00;
    assert_eq!(regs.vram_increment(), 1);
}

#[test]
fn test_vram_increment_mode_1() {
    let mut regs = IoRegisters::new();
    regs.vmain = 0x01;
    assert_eq!(regs.vram_increment(), 32);
}

#[test]
fn test_vram_increment_mode_2() {
    let mut regs = IoRegisters::new();
    regs.vmain = 0x02;
    assert_eq!(regs.vram_increment(), 128);
}

#[test]
fn test_vram_increment_mode_3() {
    let mut regs = IoRegisters::new();
    regs.vmain = 0x03;
    assert_eq!(regs.vram_increment(), 128);
}

#[test]
fn setini_overscan_and_interlace_bits_are_distinct() {
    let mut regs = IoRegisters::new();
    regs.write(0x30, 0x04);
    assert!(regs.is_overscan());
    assert!(!regs.is_interlaced());

    regs.write(0x30, 0x08);
    assert!(!regs.is_overscan());
    assert!(regs.is_interlaced());

    regs.write(0x30, 0x10);
    assert!(!regs.is_overscan());
    assert!(regs.is_interlaced());
}
