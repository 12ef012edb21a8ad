//! The memory bus: local storage, the video-RAM window, and the boundary
//! between them.

use gb_core::bus::MemoryBus;
use gb_core::gpu::Gpu;

#[test]
fn vram_window_round_trips_a_written_byte() {
    let mut bus = MemoryBus::new();
    bus.write_byte(0x8000, 0xAB);
    assert_eq!(bus.read_byte(0x8000), 0xAB);
}

#[test]
fn vram_writes_do_not_touch_the_neighbors_outside_the_window() {
    let mut bus = MemoryBus::new();
    bus.write_byte(0x8000, 0xAB);
    assert_eq!(bus.read_byte(0x7FFF), 0x00);
    assert_eq!(bus.read_byte(0xA000), 0x00);
}

#[test]
fn vram_window_forwards_to_the_device_at_the_right_offset() {
    let mut bus = MemoryBus::new();
    bus.write_byte(0x8000, 0x11);
    bus.write_byte(0x9FFF, 0x22);
    assert_eq!(bus.gpu.read_vram(0x0000), 0x11);
    assert_eq!(bus.gpu.read_vram(0x1FFF), 0x22);
}

#[test]
fn local_addresses_round_trip_without_touching_the_device() {
    let mut bus = MemoryBus::new();
    bus.write_byte(0x0000, 0x5A);
    bus.write_byte(0xFFFF, 0xA5);
    assert_eq!(bus.read_byte(0x0000), 0x5A);
    assert_eq!(bus.read_byte(0xFFFF), 0xA5);
    for offset in [0usize, 0x1FFF] {
        assert_eq!(bus.gpu.read_vram(offset), 0x00);
    }
}

#[test]
fn gpu_vram_accessors_round_trip() {
    let mut gpu = Gpu::new();
    gpu.write_vram(0x0123, 0x42);
    assert_eq!(gpu.read_vram(0x0123), 0x42);
    assert_eq!(gpu.read_vram(0x0122), 0x00);
}
