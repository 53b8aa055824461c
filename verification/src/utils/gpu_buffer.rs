use vstd::prelude::*;

use crate::utils::gpu::{allows_copy_dst, bytes_for, init_buffer_size, WgpuContext};

verus! {

/// A GPU buffer for values of `T`, together with the label, size and usages
/// it was created with, the device that made it, and the values written into
/// it at offset 0.
pub struct GpuBuffer<T> {
    raw: wgpu::Buffer,
    size: u64,
    usage: u32,
    label: Option<&'static str>,
    device: Ghost<wgpu::Device>,
    writes: Ghost<Seq<Seq<T>>>,
}

impl<T> GpuBuffer<T> {
    /// The size of the buffer in bytes.
    pub closed spec fn size_spec(&self) -> u64 {
        self.size
    }

    /// The usage bits of the buffer.
    pub closed spec fn usage_spec(&self) -> u32 {
        self.usage
    }

    /// The label the buffer was created with.
    pub closed spec fn label_spec(&self) -> Option<&'static str> {
        self.label
    }

    /// The device that made the buffer.
    pub closed spec fn device_spec(&self) -> wgpu::Device {
        self.device@
    }

    /// The values whose bytes were placed at offset 0 of the buffer, in
    /// order: its initial contents where it was created with some, then each
    /// write.
    pub closed spec fn writes_spec(&self) -> Seq<Seq<T>> {
        self.writes@
    }

    /// The wgpu buffer that this record describes.
    pub closed spec fn raw_spec(&self) -> wgpu::Buffer {
        self.raw
    }

    /// `self` is `before` with one more write, of the bytes of `data`: the
    /// same buffer, label, size, usages and device.
    pub open spec fn wrote_once_after(self, before: GpuBuffer<T>, data: Seq<T>) -> bool {
        &&& self.raw_spec() == before.raw_spec()
        &&& self.size_spec() == before.size_spec()
        &&& self.usage_spec() == before.usage_spec()
        &&& self.label_spec() == before.label_spec()
        &&& self.device_spec() == before.device_spec()
        &&& self.writes_spec() == before.writes_spec().push(data)
    }

    /// `self` was just made by `device` with `label`, `usage`, `size` bytes and
    /// the bytes of `contents` as its initial contents.
    pub open spec fn created_with(
        self,
        device: wgpu::Device,
        label: Option<&'static str>,
        usage: u32,
        size: int,
        contents: Seq<T>,
    ) -> bool {
        &&& self.device_spec() == device
        &&& self.label_spec() == label
        &&& self.usage_spec() == usage
        &&& self.size_spec() == size
        &&& self.writes_spec() == seq![contents]
    }

    /// `self` was just made by `device` with `label`, `usage` and `size`
    /// zeroed bytes.
    pub open spec fn created_zeroed(
        self,
        device: wgpu::Device,
        label: Option<&'static str>,
        usage: u32,
        size: int,
    ) -> bool {
        &&& self.device_spec() == device
        &&& self.label_spec() == label
        &&& self.usage_spec() == usage
        &&& self.size_spec() == size
        &&& self.writes_spec().len() == 0
    }

    /// The size of the buffer in bytes.
    pub fn size(&self) -> (r: u64)
        ensures
            r == self.size_spec(),
    {
        self.size
    }

    /// The wgpu buffer itself.
    pub fn raw(&self) -> (r: &wgpu::Buffer)
        ensures
            *r == self.raw_spec(),
    {
        &self.raw
    }
}

/// Casts `contents` to bytes with `bytemuck::cast_slice`, calls
/// `DeviceExt::create_buffer_init` with them on the device of `ctx`, and
/// reads the size of the new buffer with `Buffer::size`. The contract claims
/// what the source of these shows: the size is `init_buffer_size` of the
/// bytes of the contents, the buffer has the label and usages it was asked
/// for, it was made by the device of `ctx`, and the bytes of `contents` are
/// its initial contents. The requirements are the checks that wgpu makes of
/// the size and the usages against the device's limits, features and
/// downlevel flags; a device that is lost or out of memory is not covered.
#[verifier::external_body]
pub(crate) fn create_buffer_init<T: bytemuck::Pod>(
    ctx: &WgpuContext,
    label: Option<&'static str>,
    contents: &[T],
    usage: u32,
) -> (r: GpuBuffer<T>)
    requires
        ctx.accepts_usage(usage),
        bytes_for::<T>(contents@.len() as int) <= isize::MAX,
        init_buffer_size(bytes_for::<T>(contents@.len() as int)) <= ctx.max_buffer_size_spec(),
    ensures
        r.size_spec() == init_buffer_size(bytes_for::<T>(contents@.len() as int)),
        r.usage_spec() == usage,
        r.label_spec() == label,
        r.device_spec() == ctx.device_spec(),
        r.writes_spec() == seq![contents@],
{
    let raw = wgpu::util::DeviceExt::create_buffer_init(
        ctx.device(),
        &wgpu::util::BufferInitDescriptor {
            label,
            contents: bytemuck::cast_slice(contents),
            usage: wgpu::BufferUsages::from_bits_retain(usage),
        },
    );
    let size = raw.size();
    let ghost initial = seq![contents@];
    GpuBuffer { raw, size, usage, label, device: Ghost(ctx.device_spec()), writes: Ghost(initial) }
}

/// Calls `Device::create_buffer` on the device of `ctx` for a buffer that is
/// not mapped at creation, and reads its size with `Buffer::size`. The
/// contract claims what the wgpu documentation states: the size is the one
/// asked for, the buffer has the label and usages it was asked for and was
/// made by the device of `ctx`, and nothing has been placed in it (wgpu
/// zero-initialises it).
/// The requirements are the checks that wgpu makes of the size
/// and the usages against the device's limits, features and downlevel flags;
/// a device that is lost or out of memory is not covered.
#[verifier::external_body]
pub(crate) fn create_buffer<T>(
    ctx: &WgpuContext,
    label: Option<&'static str>,
    size: u64,
    usage: u32,
) -> (r: GpuBuffer<T>)
    requires
        ctx.accepts_usage(usage),
        size <= ctx.max_buffer_size_spec(),
    ensures
        r.size_spec() == size,
        r.usage_spec() == usage,
        r.label_spec() == label,
        r.device_spec() == ctx.device_spec(),
        r.writes_spec().len() == 0,
{
    let raw = ctx.device().create_buffer(
        &wgpu::BufferDescriptor {
            label,
            size,
            usage: wgpu::BufferUsages::from_bits_retain(usage),
            mapped_at_creation: false,
        },
    );
    let size = raw.size();
    GpuBuffer { raw, size, usage, label, device: Ghost(ctx.device_spec()), writes: Ghost(Seq::empty()) }
}

/// Casts `data` to bytes with `bytemuck::cast_slice`, calls
/// `Queue::write_buffer_with` on the queue of `ctx` at offset 0 and copies the
/// bytes into the view it returns, so that they reach the buffer at the next
/// submission. The requirements are the checks that wgpu makes of the
/// arguments: a non-zero size that is a multiple of 4, that fits in the
/// buffer, which allows writes and was made by the same device. The contract
/// records the write in the buffer's log and claims that nothing else about
/// the buffer changes. A device that is lost or out of memory is not covered.
#[verifier::external_body]
pub(crate) fn write_values<T: bytemuck::Pod>(ctx: &WgpuContext, buffer: &mut GpuBuffer<T>, data: &[T])
    requires
        0 < bytes_for::<T>(data@.len() as int),
        bytes_for::<T>(data@.len() as int) % 4 == 0,
        bytes_for::<T>(data@.len() as int) <= old(buffer).size_spec(),
        allows_copy_dst(old(buffer).usage_spec()),
        old(buffer).device_spec() == ctx.device_spec(),
    ensures
        final(buffer).raw_spec() == old(buffer).raw_spec(),
        final(buffer).size_spec() == old(buffer).size_spec(),
        final(buffer).usage_spec() == old(buffer).usage_spec(),
        final(buffer).label_spec() == old(buffer).label_spec(),
        final(buffer).device_spec() == old(buffer).device_spec(),
        final(buffer).writes_spec() == old(buffer).writes_spec().push(data@),
{
    let bytes: &[u8] = bytemuck::cast_slice(data);
    let mut view = ctx.queue().write_buffer_with(
        &buffer.raw,
        0,
        wgpu::BufferSize::new(bytes.len() as u64).unwrap(),
    ).unwrap();
    view.copy_from_slice(bytes);
}

} // verus!
