//! Video RAM byte and word access.

use oxidesfc_core::Vram;

#[test]
fn vram_basic_read_write() {
    let mut vram = Vram::new();
    
    // Write and read a byte
    vram.write(0x1234, 0xAB);
    assert_eq!(vram.read(0x1234), 0xAB);
}

#[test]
fn vram_word_read_write() {
    let mut vram = Vram::new();
    
    // Write and read a word (16-bit)
    vram.write_word(0x1000, 0xABCD);
    assert_eq!(vram.read_word(0x1000), 0xABCD);
}

#[test]
fn vram_word_alignment() {
    let mut vram = Vram::new();
    
    // Write at odd address, read from even address
    vram.write_word(0x1001, 0xABCD);
    // Should be masked to 0x1000
    assert_eq!(vram.read_word(0x1000), 0xABCD);
}

#[test]
fn vram_boundary_addresses() {
    let mut vram = Vram::new();
    
    // First address
    vram.write(0x0000, 0x12);
    assert_eq!(vram.read(0x0000), 0x12);
    
    // Last address
    vram.write(0xFFFF, 0x34);
    assert_eq!(vram.read(0xFFFF), 0x34);
}

#[test]
fn vram_clear() {
    let mut vram = Vram::new();
    
    // Write some data
    vram.write(0x5000, 0xFF);
    assert_eq!(vram.read(0x5000), 0xFF);
    
    // Clear and verify
    vram.clear();
    assert_eq!(vram.read(0x5000), 0x00);
}

#[test]
fn vram_multiple_writes() {
    let mut vram = Vram::new();
    
    // Write multiple values
    for i in 0..256 {
        vram.write(i as u16, i as u8);
    }
    
    // Verify all values
    for i in 0..256 {
        assert_eq!(vram.read(i as u16), i as u8);
    }
}

#[test]
fn vram_slice_access() {
    let mut vram = Vram::new();
    
    // Write via slice
    vram.as_mut_slice()[0x100..0x110].copy_from_slice(&[1, 2, 3, 4, 5, 6, 7, 8, 9, 10, 11, 12, 13, 14, 15, 16]);
    
    // Read via slice
    let slice = vram.as_slice();
    assert_eq!(slice[0x100], 1);
    assert_eq!(slice[0x10F], 16);
}
