use ranim::utils::gpu::{
    WgpuVecBuffer, COPY_DST, COPY_SRC, INDEX, INDIRECT, INDIRECT_EXECUTION, KNOWN_USAGES, MAP_READ,
    MAP_WRITE, STORAGE, UNIFORM, UNRESTRICTED_INDEX_BUFFER, VERTEX,
};

#[test]
fn test() {}

#[test]
fn usage_bits_match_wgpu() {
    assert_eq!(MAP_READ, wgpu::BufferUsages::MAP_READ.bits());
    assert_eq!(MAP_WRITE, wgpu::BufferUsages::MAP_WRITE.bits());
    assert_eq!(COPY_SRC, wgpu::BufferUsages::COPY_SRC.bits());
    assert_eq!(COPY_DST, wgpu::BufferUsages::COPY_DST.bits());
    assert_eq!(INDEX, wgpu::BufferUsages::INDEX.bits());
    assert_eq!(VERTEX, wgpu::BufferUsages::VERTEX.bits());
    assert_eq!(UNIFORM, wgpu::BufferUsages::UNIFORM.bits());
    assert_eq!(STORAGE, wgpu::BufferUsages::STORAGE.bits());
    assert_eq!(INDIRECT, wgpu::BufferUsages::INDIRECT.bits());
    assert_eq!(KNOWN_USAGES, wgpu::BufferUsages::all().bits());
}

#[test]
fn downlevel_bits_match_wgpu() {
    assert_eq!(INDIRECT_EXECUTION, wgpu::DownlevelFlags::INDIRECT_EXECUTION.bits());
    assert_eq!(UNRESTRICTED_INDEX_BUFFER, wgpu::DownlevelFlags::UNRESTRICTED_INDEX_BUFFER.bits());
}

#[test]
fn new_vec_buffer_is_empty() {
    let usage = (wgpu::BufferUsages::COPY_DST | wgpu::BufferUsages::STORAGE).bits();
    let buffer: WgpuVecBuffer<u32> = WgpuVecBuffer::new(Some("points"), usage);
    assert_eq!(buffer.len(), 0);
    assert!(buffer.buffer().is_none());
    assert_eq!(buffer.read_size(), None);
}

use ranim::utils::gpu::{WgpuBuffer, WgpuContext, DEFAULT_MAX_BUFFER_SIZE};

/// A context on whatever adapter this machine offers, if any.
fn context() -> Option<WgpuContext> {
    let instance = wgpu::Instance::default();
    let adapter = pollster::block_on(instance.request_adapter(&wgpu::RequestAdapterOptions {
        power_preference: wgpu::PowerPreference::HighPerformance,
        ..Default::default()
    }))
    .ok()?;
    WgpuContext::from_adapter(instance, adapter).ok()
}

fn storage_usage() -> u32 {
    (wgpu::BufferUsages::COPY_DST | wgpu::BufferUsages::COPY_SRC | wgpu::BufferUsages::STORAGE)
        .bits()
}

#[test]
fn vec_buffer_reuses_a_buffer_of_the_same_size() {
    let Some(ctx) = context() else { return };
    let mut buffer = WgpuVecBuffer::new_init(&ctx, Some("points"), storage_usage(), &[1u32, 2, 3]);
    assert_eq!(buffer.len(), 3);
    assert_eq!(buffer.buffer().unwrap().size(), 12);
    assert!(!buffer.set(&ctx, &[4u32, 5, 6]));
    assert!(buffer.set(&ctx, &[7u32, 8]));
    assert_eq!(buffer.len(), 2);
    assert_eq!(buffer.read_size(), Some(8));
}

#[test]
fn vec_buffer_pads_unaligned_contents() {
    let Some(ctx) = context() else { return };
    let mut buffer = WgpuVecBuffer::new_init(&ctx, None, storage_usage(), &[1u16, 2, 3]);
    assert_eq!(buffer.buffer().unwrap().size(), 8);
    assert_eq!(buffer.read_size(), Some(6));
    assert!(buffer.set(&ctx, &[4u16, 5, 6]));
}

#[test]
fn vec_buffer_resize_allocates_only_on_change() {
    let Some(ctx) = context() else { return };
    let mut buffer: WgpuVecBuffer<u32> = WgpuVecBuffer::new(None, storage_usage());
    assert!(buffer.resize(&ctx, 4));
    assert_eq!(buffer.len(), 4);
    assert_eq!(buffer.buffer().unwrap().size(), 16);
    assert!(!buffer.resize(&ctx, 4));
    assert!(buffer.resize(&ctx, 1));
    assert_eq!(buffer.len(), 1);
}

#[test]
fn single_value_buffer_keeps_the_last_write() {
    let Some(ctx) = context() else { return };
    let mut buffer = WgpuBuffer::new_init(&ctx, Some("uniform"), storage_usage(), [1.0f32, 2.0]);
    assert_eq!(*buffer.get(), [1.0, 2.0]);
    assert_eq!(buffer.read_size(), 8);
    assert_eq!(buffer.as_ref().size(), 8);
    buffer.set(&ctx, [3.0, 4.0]);
    assert_eq!(*buffer.get(), [3.0, 4.0]);
}

/// Copies the first `size` bytes of `buffer` to the CPU.
fn read_back(ctx: &WgpuContext, buffer: &wgpu::Buffer, size: u64) -> Vec<u8> {
    let staging = ctx.device().create_buffer(&wgpu::BufferDescriptor {
        label: None,
        size,
        usage: wgpu::BufferUsages::MAP_READ | wgpu::BufferUsages::COPY_DST,
        mapped_at_creation: false,
    });
    let mut encoder = ctx
        .device()
        .create_command_encoder(&wgpu::CommandEncoderDescriptor { label: None });
    encoder.copy_buffer_to_buffer(buffer, 0, &staging, 0, size);
    ctx.queue().submit(Some(encoder.finish()));
    let slice = staging.slice(..);
    slice.map_async(wgpu::MapMode::Read, |result| result.unwrap());
    ctx.device().poll(wgpu::PollType::Wait).unwrap();
    let bytes = slice.get_mapped_range().to_vec();
    bytes
}

fn u32_bytes(values: &[u32]) -> Vec<u8> {
    values.iter().flat_map(|v| v.to_ne_bytes()).collect()
}

#[test]
fn vec_buffer_reads_back_what_was_written() {
    let Some(ctx) = context() else { return };
    let mut buffer = WgpuVecBuffer::new_init(&ctx, None, storage_usage(), &[1u32, 2, 3]);
    let raw = buffer.buffer().unwrap();
    assert_eq!(read_back(&ctx, raw, 12), u32_bytes(&[1, 2, 3]));
    assert!(!buffer.set(&ctx, &[9u32, 8, 7]));
    let raw = buffer.buffer().unwrap();
    assert_eq!(read_back(&ctx, raw, buffer.read_size().unwrap()), u32_bytes(&[9, 8, 7]));
}

#[test]
fn single_value_buffer_reads_back_what_was_written() {
    let Some(ctx) = context() else { return };
    let mut buffer = WgpuBuffer::new_init(&ctx, None, storage_usage(), [10u32, 20]);
    assert_eq!(read_back(&ctx, buffer.as_ref(), buffer.read_size()), u32_bytes(&[10, 20]));
    buffer.set(&ctx, [30u32, 40]);
    assert_eq!(read_back(&ctx, buffer.as_ref(), buffer.read_size()), u32_bytes(&[30, 40]));
}

#[test]
fn resize_into_padding_takes_the_new_length() {
    let Some(ctx) = context() else { return };
    let mut buffer = WgpuVecBuffer::new_init(&ctx, None, storage_usage(), &[1u8, 2, 3]);
    assert_eq!(buffer.buffer().unwrap().size(), 4);
    assert!(!buffer.resize(&ctx, 4));
    assert_eq!(buffer.len(), 4);
    assert_eq!(buffer.read_size(), Some(4));
}

#[test]
fn context_records_the_device_limits() {
    let Some(ctx) = context() else { return };
    assert_eq!(ctx.max_buffer_size(), ctx.device().limits().max_buffer_size);
    assert_eq!(ctx.max_buffer_size(), DEFAULT_MAX_BUFFER_SIZE);
    assert_eq!(
        ctx.downlevel_flags(),
        ctx.adapter().get_downlevel_capabilities().flags.bits()
    );
}

#[test]
fn default_buffer_limit_matches_wgpu() {
    assert_eq!(DEFAULT_MAX_BUFFER_SIZE, wgpu::Limits::default().max_buffer_size);
}
