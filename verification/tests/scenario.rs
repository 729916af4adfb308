// What this layer contributes to drawing one triangle: the configurations from which the
// device, the memory block and the queue are made, and the numbers under which the draw is
// recorded.

use deko3d::{
    into_result, make_texture_handle, DeviceFlags, DeviceMaker, MemBlockFlags, MemBlockMaker,
    Primitive, QueueMaker, RasterizerState, DK_CMDMEM_ALIGNMENT, DK_MEMBLOCK_ALIGNMENT,
    DK_QUEUE_MIN_CMDMEM_SIZE, NO_TIMEOUT,
};

#[test]
fn configurations_for_a_first_triangle() {
    let device = DeviceMaker::new();
    assert_eq!(device.get_flags(), DeviceFlags::empty());

    let block = MemBlockMaker::new(64 * 1024);
    assert_eq!(block.size % DK_MEMBLOCK_ALIGNMENT, 0);
    assert_eq!(block.size % DK_CMDMEM_ALIGNMENT, 0);
    assert_eq!(block.get_flags(), MemBlockFlags::cpu_uncached().union(MemBlockFlags::gpu_cached()));

    let queue = QueueMaker::new();
    assert!(queue.get_command_memory_size() >= DK_QUEUE_MIN_CMDMEM_SIZE);
    assert!(queue.get_flush_threshold() < queue.get_command_memory_size());

    assert_eq!(Primitive::Triangles.to_raw(), 4);
    assert_eq!(RasterizerState::new().to_bits(), 0x751);
    assert_eq!(make_texture_handle(0, 0), 0);

    assert_eq!(NO_TIMEOUT, -1);
    assert_eq!(into_result(0), Ok(()));
}
