//! PPU dot/scanline/frame timing and memory access.

use oxidesfc_core::{Ppu, PpuMode};

#[test]
fn ppu_ppu_default_is_ntsc() {
    let ppu = Ppu::new();
    assert_eq!(ppu.mode(), PpuMode::Ntsc);
    assert_eq!(ppu.scanlines_per_frame(), 262);
}

#[test]
fn ppu_ppu_pal_mode() {
    let ppu = Ppu::new_pal();
    assert_eq!(ppu.mode(), PpuMode::Pal);
    assert_eq!(ppu.scanlines_per_frame(), 312);
}

#[test]
fn ppu_ppu_initial_state() {
    let ppu = Ppu::new();
    assert_eq!(ppu.scanline(), 0);
    assert_eq!(ppu.h_counter(), 0);
    assert_eq!(ppu.frame(), 0);
    assert!(!ppu.is_frame_ready());
}

#[test]
fn ppu_ppu_tick() {
    let mut ppu = Ppu::new();
    
    // Tick a few times
    ppu.tick();
    assert_eq!(ppu.h_counter(), 1);
    
    ppu.tick();
    assert_eq!(ppu.h_counter(), 2);
}

#[test]
fn ppu_ppu_scanline_wrap() {
    let mut ppu = Ppu::new();
    
    // Advance past end of scanline
    for _ in 0..Ppu::pixels_per_line() {
        ppu.tick();
    }
    
    assert_eq!(ppu.h_counter(), 0);
    assert_eq!(ppu.scanline(), 1);
}

#[test]
fn ppu_ppu_frame_complete() {
    let mut ppu = Ppu::new();
    
    // Advance to end of frame (262 scanlines * 341 dots)
    let pixels_per_frame = 262u32 * 341;
    
    for _ in 0..pixels_per_frame {
        ppu.tick();
    }
    
    assert_eq!(ppu.scanline(), 0);
    assert_eq!(ppu.h_counter(), 0);
    assert_eq!(ppu.frame(), 1);
    assert!(ppu.is_frame_ready());
}

#[test]
fn ppu_ppu_clear_frame_ready() {
    let mut ppu = Ppu::new();
    
    // Advance to end of frame
    for _ in 0..(262 * 341) {
        ppu.tick();
    }
    
    assert!(ppu.is_frame_ready());
    
    // Clear and verify
    ppu.clear_frame_ready();
    assert!(!ppu.is_frame_ready());
}

#[test]
fn ppu_ppu_vblank() {
    let mut ppu = Ppu::new();
    
    // Scanline 224 starts vblank for NTSC
    for _ in 0..(224 * 341) {
        ppu.tick();
    }
    
    assert!(ppu.in_vblank());
    assert_eq!(ppu.scanline(), 224);
}

#[test]
fn ppu_ppu_reset() {
    let mut ppu = Ppu::new();
    
    // Advance to some state
    for _ in 0..1000 {
        ppu.tick();
    }
    
    // Write something to memory
    ppu.vram().write(0x1000, 0xAB);
    
    // Reset
    ppu.reset();
    
    assert_eq!(ppu.scanline(), 0);
    assert_eq!(ppu.h_counter(), 0);
    assert_eq!(ppu.frame(), 0);
    assert!(!ppu.is_frame_ready());
}

#[test]
fn ppu_ppu_mode_switch() {
    let mut ppu = Ppu::new();
    
    // Switch to PAL
    ppu.set_pal();
    assert_eq!(ppu.mode(), PpuMode::Pal);
    assert_eq!(ppu.scanlines_per_frame(), 312);
    
    // Switch back to NTSC
    ppu.set_ntsc();
    assert_eq!(ppu.mode(), PpuMode::Ntsc);
    assert_eq!(ppu.scanlines_per_frame(), 262);
}

#[test]
fn ppu_ppu_vram_access() {
    let mut ppu = Ppu::new();
    
    ppu.vram().write(0x1234, 0xAB);
    assert_eq!(ppu.vram_ref().read(0x1234), 0xAB);
}

#[test]
fn ppu_ppu_cgram_access() {
    let mut ppu = Ppu::new();
    
    ppu.cgram().write(0x00, 0xAB);
    assert_eq!(ppu.cgram_ref().read(0x00), 0xAB);
}

#[test]
fn ppu_ppu_oam_access() {
    let mut ppu = Ppu::new();
    
    ppu.oam().write(0x00, 0xAB);
    assert_eq!(ppu.oam_ref().read(0x00), 0xAB);
}

#[test]
fn ppu_ppu_tick_n() {
    let mut ppu = Ppu::new();
    
    ppu.tick_n(100);
    assert_eq!(ppu.h_counter(), 100);
}

#[test]
fn ppu_ppu_constants() {
    assert_eq!(Ppu::pixels_per_line(), 341);
}
