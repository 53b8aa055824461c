use vstd::prelude::*;

pub use crate::utils::gpu_buffer::GpuBuffer;
use crate::utils::gpu_buffer::{create_buffer, create_buffer_init, write_values};

verus! {

/// A wgpu instance.
#[verifier::external_type_specification]
#[verifier::external_body]
pub struct ExInstance(wgpu::Instance);

/// A wgpu adapter.
#[verifier::external_type_specification]
#[verifier::external_body]
pub struct ExAdapter(wgpu::Adapter);

/// A wgpu device.
#[verifier::external_type_specification]
#[verifier::external_body]
pub struct ExDevice(wgpu::Device);

/// A wgpu queue.
#[verifier::external_type_specification]
#[verifier::external_body]
pub struct ExQueue(wgpu::Queue);

/// A wgpu buffer.
#[verifier::external_type_specification]
#[verifier::external_body]
pub struct ExBuffer(wgpu::Buffer);

/// The error that `Adapter::request_device` reports.
#[verifier::external_type_specification]
#[verifier::external_body]
pub struct ExRequestDeviceError(wgpu::RequestDeviceError);

/// The bit of `wgpu::BufferUsages::MAP_READ`.
pub const MAP_READ: u32 = 1;

/// The bit of `wgpu::BufferUsages::MAP_WRITE`.
pub const MAP_WRITE: u32 = 2;

/// The bit of `wgpu::BufferUsages::COPY_SRC`.
pub const COPY_SRC: u32 = 4;

/// The bit of `wgpu::BufferUsages::COPY_DST`: the buffer can be written to.
pub const COPY_DST: u32 = 8;

/// The bit of `wgpu::BufferUsages::INDEX`.
pub const INDEX: u32 = 16;

/// The bit of `wgpu::BufferUsages::VERTEX`.
pub const VERTEX: u32 = 32;

/// The bit of `wgpu::BufferUsages::UNIFORM`.
pub const UNIFORM: u32 = 64;

/// The bit of `wgpu::BufferUsages::STORAGE`.
pub const STORAGE: u32 = 128;

/// The bit of `wgpu::BufferUsages::INDIRECT`.
pub const INDIRECT: u32 = 256;

/// The bits of all the flags that `wgpu::BufferUsages` defines.
pub const KNOWN_USAGES: u32 = 0xfff;

/// The bit of `wgpu::DownlevelFlags::INDIRECT_EXECUTION`.
pub const INDIRECT_EXECUTION: u32 = 4;

/// The bit of `wgpu::DownlevelFlags::UNRESTRICTED_INDEX_BUFFER`.
pub const UNRESTRICTED_INDEX_BUFFER: u32 = 0x10000;

/// Whether the usage bits `usage` allow writes into the buffer.
pub open spec fn allows_copy_dst(usage: u32) -> bool {
    usage & COPY_DST == COPY_DST
}

/// Whether wgpu accepts `usage` on a device without the
/// `MAPPABLE_PRIMARY_BUFFERS` feature (which the devices of this library
/// never request): not empty, made of defined flags only, a readable map
/// only together with `COPY_DST` and a writable map only together with
/// `COPY_SRC`.
pub open spec fn is_valid_usage(usage: u32) -> bool {
    &&& usage != 0
    &&& usage & !KNOWN_USAGES == 0
    &&& usage & MAP_WRITE != 0 ==> usage & !(MAP_WRITE | COPY_SRC) == 0
    &&& usage & MAP_READ != 0 ==> usage & !(MAP_READ | COPY_DST) == 0
}

/// Whether a device whose downlevel flags are `downlevel` supports `usage`:
/// an index buffer that is also a vertex, uniform, indirect and storage
/// buffer (all four) needs unrestricted index buffers, and an indirect buffer
/// needs indirect execution.
pub open spec fn usage_supported(usage: u32, downlevel: u32) -> bool {
    &&& (usage & INDEX != 0 && usage & (VERTEX | UNIFORM | INDIRECT | STORAGE) == (VERTEX
        | UNIFORM | INDIRECT | STORAGE)) ==> downlevel & UNRESTRICTED_INDEX_BUFFER != 0
    &&& usage & INDIRECT != 0 ==> downlevel & INDIRECT_EXECUTION != 0
}

/// The size of the buffer that `DeviceExt::create_buffer_init` makes for
/// `n` bytes of contents: empty for no contents, otherwise `n` rounded up to
/// the copy alignment of 4 bytes, and at least 4.
pub open spec fn init_buffer_size(n: int) -> int {
    if n == 0 {
        0
    } else {
        let padded = (n + 3) / 4 * 4;
        if padded < 4 {
            4
        } else {
            padded
        }
    }
}

/// The largest buffer of the default limits, `wgpu::Limits::default()`:
/// 256 MiB.
pub const DEFAULT_MAX_BUFFER_SIZE: u64 = 268435456;

/// Calls `Adapter::request_device` with the default descriptor (no
/// features, default limits), waits for the answer with `pollster::block_on`,
/// and reads the granted device's `Device::limits().max_buffer_size`.
/// Whether a device is granted depends on the adapter, so that is not
/// claimed. The contract claims what the source shows of a granted device:
/// its limits are the requested defaults, whose largest buffer is 256 MiB.
#[verifier::external_body]
fn request_device(adapter: &wgpu::Adapter) -> (r: Result<
    (wgpu::Device, wgpu::Queue, u64),
    wgpu::RequestDeviceError,
>)
    ensures
        r matches Ok((_, _, max_buffer_size)) ==> max_buffer_size == DEFAULT_MAX_BUFFER_SIZE,
{
    match pollster::block_on(adapter.request_device(&wgpu::DeviceDescriptor::default())) {
        Ok((device, queue)) => {
            let max_buffer_size = device.limits().max_buffer_size;
            Ok((device, queue, max_buffer_size))
        },
        Err(e) => Err(e),
    }
}

/// Calls `Adapter::get_downlevel_capabilities` and picks the bits of its
/// flags, which the devices of the adapter share. They belong to the
/// adapter, so nothing is claimed of their value.
#[verifier::external_body]
fn adapter_downlevel_flags(adapter: &wgpu::Adapter) -> u32 {
    adapter.get_downlevel_capabilities().flags.bits()
}

/// The handles of the GPU that everything is rendered on, with the limits
/// of the device that decide which buffers it accepts.
pub struct WgpuContext {
    instance: wgpu::Instance,
    adapter: wgpu::Adapter,
    device: wgpu::Device,
    queue: wgpu::Queue,
    max_buffer_size: u64,
    downlevel: u32,
}

impl WgpuContext {
    /// The instance.
    pub closed spec fn instance_spec(&self) -> wgpu::Instance {
        self.instance
    }

    /// The adapter.
    pub closed spec fn adapter_spec(&self) -> wgpu::Adapter {
        self.adapter
    }

    /// The device that makes the buffers.
    pub closed spec fn device_spec(&self) -> wgpu::Device {
        self.device
    }

    /// The queue of that device.
    pub closed spec fn queue_spec(&self) -> wgpu::Queue {
        self.queue
    }

    /// The largest buffer the device accepts, in bytes.
    pub closed spec fn max_buffer_size_spec(&self) -> u64 {
        self.max_buffer_size
    }

    /// The bits of the downlevel flags of the device.
    pub closed spec fn downlevel_spec(&self) -> u32 {
        self.downlevel
    }

    /// Whether the device accepts buffers with the usage bits `usage`.
    pub open spec fn accepts_usage(&self, usage: u32) -> bool {
        is_valid_usage(usage) && usage_supported(usage, self.downlevel_spec())
    }

    /// A context made of the given handles and the limits that were read
    /// from them.
    fn from_parts(
        instance: wgpu::Instance,
        adapter: wgpu::Adapter,
        device: wgpu::Device,
        queue: wgpu::Queue,
        max_buffer_size: u64,
        downlevel: u32,
    ) -> (r: Self)
        ensures
            r.instance_spec() == instance,
            r.adapter_spec() == adapter,
            r.device_spec() == device,
            r.queue_spec() == queue,
            r.max_buffer_size_spec() == max_buffer_size,
            r.downlevel_spec() == downlevel,
    {
        WgpuContext { instance, adapter, device, queue, max_buffer_size, downlevel }
    }

    /// Requests a device and its queue from `adapter`, and records the
    /// device's buffer-size limit and the adapter's downlevel flags.
    pub fn from_adapter(instance: wgpu::Instance, adapter: wgpu::Adapter) -> (r: Result<
        Self,
        wgpu::RequestDeviceError,
    >)
        ensures
            r matches Ok(ctx) ==> {
                &&& ctx.instance_spec() == instance
                &&& ctx.adapter_spec() == adapter
                &&& ctx.max_buffer_size_spec() == DEFAULT_MAX_BUFFER_SIZE
            },
    {
        match request_device(&adapter) {
            Ok((device, queue, max_buffer_size)) => {
                let downlevel = adapter_downlevel_flags(&adapter);
                Ok(
                    Self::from_parts(instance, adapter, device, queue, max_buffer_size, downlevel),
                )
            },
            Err(e) => Err(e),
        }
    }

    /// The instance.
    pub fn instance(&self) -> (r: &wgpu::Instance)
        ensures
            *r == self.instance_spec(),
    {
        &self.instance
    }

    /// The adapter.
    pub fn adapter(&self) -> (r: &wgpu::Adapter)
        ensures
            *r == self.adapter_spec(),
    {
        &self.adapter
    }

    /// The device.
    pub fn device(&self) -> (r: &wgpu::Device)
        ensures
            *r == self.device_spec(),
    {
        &self.device
    }

    /// The queue.
    pub fn queue(&self) -> (r: &wgpu::Queue)
        ensures
            *r == self.queue_spec(),
    {
        &self.queue
    }

    /// The largest buffer the device accepts, in bytes.
    pub fn max_buffer_size(&self) -> (r: u64)
        ensures
            r == self.max_buffer_size_spec(),
    {
        self.max_buffer_size
    }

    /// The bits of the downlevel flags of the device.
    pub fn downlevel_flags(&self) -> (r: u32)
        ensures
            r == self.downlevel_spec(),
    {
        self.downlevel
    }
}

/// The number of bytes that `n` values of `T` take.
pub open spec fn bytes_for<T>(n: int) -> int {
    vstd::layout::size_of::<T>() * n
}

/// `core::slice::from_ref`: the slice of the one value behind the reference,
/// as std documents it.
pub assume_specification<Elem>[ core::slice::from_ref::<Elem> ](s: &Elem) -> (r: &[Elem])
    ensures
        r@ == seq![*s],
;

impl<T> GpuBuffer<T> {
    /// Makes a zeroed buffer of `size` bytes on the device of `ctx`.
    pub fn zeroed(ctx: &WgpuContext, label: Option<&'static str>, size: u64, usage: u32) -> (r:
        Self)
        requires
            ctx.accepts_usage(usage),
            size <= ctx.max_buffer_size_spec(),
        ensures
            r.created_zeroed(ctx.device_spec(), label, usage, size as int),
    {
        create_buffer(ctx, label, size, usage)
    }
}

impl<T: bytemuck::Pod> GpuBuffer<T> {
    /// Makes a buffer on the device of `ctx` that holds the bytes of
    /// `contents`.
    pub fn with_contents(
        ctx: &WgpuContext,
        label: Option<&'static str>,
        contents: &[T],
        usage: u32,
    ) -> (r: Self)
        requires
            ctx.accepts_usage(usage),
            bytes_for::<T>(contents@.len() as int) <= isize::MAX,
            init_buffer_size(bytes_for::<T>(contents@.len() as int))
                <= ctx.max_buffer_size_spec(),
        ensures
            r.created_with(
                ctx.device_spec(),
                label,
                usage,
                init_buffer_size(bytes_for::<T>(contents@.len() as int)),
                contents@,
            ),
    {
        create_buffer_init(ctx, label, contents, usage)
    }

    /// Writes the bytes of `data` at offset 0 of the buffer through the
    /// queue of `ctx`.
    pub fn write(&mut self, ctx: &WgpuContext, data: &[T])
        requires
            0 < bytes_for::<T>(data@.len() as int),
            bytes_for::<T>(data@.len() as int) % 4 == 0,
            bytes_for::<T>(data@.len() as int) <= old(self).size_spec(),
            allows_copy_dst(old(self).usage_spec()),
            old(self).device_spec() == ctx.device_spec(),
        ensures
            final(self).wrote_once_after(*old(self), data@),
    {
        write_values(ctx, self, data);
    }
}

/// A buffer on the GPU that holds one value of `T`, with a copy of that value
/// kept on the CPU.
pub struct WgpuBuffer<T> {
    label: Option<&'static str>,
    buffer: GpuBuffer<T>,
    usage: u32,
    inner: T,
}

impl<T> WgpuBuffer<T> {
    /// The buffer keeps its label and usages, which allow writes, and is as
    /// large as `create_buffer_init` makes it for the bytes of one value.
    pub closed spec fn wf(&self) -> bool {
        &&& self.buffer.usage_spec() == self.usage
        &&& self.buffer.label_spec() == self.label
        &&& allows_copy_dst(self.usage)
        &&& self.buffer.size_spec() == init_buffer_size(vstd::layout::size_of::<T>() as int)
    }

    /// The value that was last written.
    pub closed spec fn value(&self) -> T {
        self.inner
    }

    /// The label the buffer was created with.
    pub closed spec fn label_spec(&self) -> Option<&'static str> {
        self.label
    }

    /// The usage bits the buffer was created with.
    pub closed spec fn usage_spec(&self) -> u32 {
        self.usage
    }

    /// The record of the GPU buffer.
    pub closed spec fn buffer_spec(&self) -> GpuBuffer<T> {
        self.buffer
    }

    /// The size of the GPU buffer in bytes.
    pub open spec fn size_spec(&self) -> u64 {
        self.buffer_spec().size_spec()
    }

    /// The wgpu buffer that holds the value on the GPU.
    pub open spec fn raw_spec(&self) -> wgpu::Buffer {
        self.buffer_spec().raw_spec()
    }

    /// The value that was last written.
    pub fn get(&self) -> (r: &T)
        ensures
            *r == self.value(),
    {
        &self.inner
    }

    /// The GPU buffer.
    pub fn as_ref(&self) -> (r: &wgpu::Buffer)
        ensures
            *r == self.raw_spec(),
    {
        self.buffer.raw()
    }

    /// The number of bytes that a read of the whole buffer returns: those of
    /// one value of `T`.
    pub fn read_size(&self) -> (r: u64)
        ensures
            r == vstd::layout::size_of::<T>(),
    {
        vstd::layout::layout_for_type_is_valid::<T>();
        core::mem::size_of::<T>() as u64
    }
}

impl<T: bytemuck::Pod + core::fmt::Debug> WgpuBuffer<T> {
    /// Creates a GPU buffer on the device of `ctx` that holds `data`. The
    /// usages must allow writes.
    pub fn new_init(ctx: &WgpuContext, label: Option<&'static str>, usage: u32, data: T) -> (r:
        Self)
        requires
            allows_copy_dst(usage),
            ctx.accepts_usage(usage),
            init_buffer_size(vstd::layout::size_of::<T>() as int) <= ctx.max_buffer_size_spec(),
        ensures
            r.wf(),
            r.value() == data,
            r.label_spec() == label,
            r.usage_spec() == usage,
            allows_copy_dst(r.usage_spec()),
            r.buffer_spec().created_with(
                ctx.device_spec(),
                label,
                usage,
                init_buffer_size(vstd::layout::size_of::<T>() as int),
                seq![data],
            ),
    {
        vstd::layout::layout_for_type_is_valid::<T>();
        let contents = core::slice::from_ref(&data);
        assert(contents@.len() == 1);
        assert(bytes_for::<T>(1) == vstd::layout::size_of::<T>());
        let buffer = GpuBuffer::with_contents(ctx, label, contents, usage);
        Self { label, buffer, usage, inner: data }
    }

    /// Writes the bytes of `data` at offset 0 of the buffer, through the
    /// queue of `ctx`, and keeps `data` as the current value. wgpu only
    /// accepts writes of a non-zero multiple of 4 bytes, through the queue of
    /// the device that made the buffer.
    pub fn set(&mut self, ctx: &WgpuContext, data: T)
        requires
            vstd::layout::size_of::<T>() > 0,
            vstd::layout::size_of::<T>() % 4 == 0,
            old(self).wf(),
            old(self).buffer_spec().device_spec() == ctx.device_spec(),
        ensures
            final(self).wf(),
            final(self).value() == data,
            final(self).label_spec() == old(self).label_spec(),
            final(self).usage_spec() == old(self).usage_spec(),
            allows_copy_dst(final(self).usage_spec()),
            final(self).buffer_spec().wrote_once_after(old(self).buffer_spec(), seq![data]),
    {
        vstd::layout::layout_for_type_is_valid::<T>();
        let contents = core::slice::from_ref(&data);
        assert(contents@.len() == 1);
        assert(bytes_for::<T>(1) == vstd::layout::size_of::<T>());
        self.buffer.write(ctx, contents);
        self.inner = data;
    }
}

/// Whether a buffer of `current` bytes (none, where there is no buffer)
/// has to be replaced to hold exactly `bytes` bytes.
pub open spec fn needs_realloc(current: Option<u64>, bytes: int) -> bool {
    match current {
        Some(size) => size != bytes,
        None => true,
    }
}

/// A write of a positive multiple of four bytes makes a buffer of exactly
/// that size, so a second write of as many bytes reuses it.
pub proof fn lemma_aligned_set_reuses_buffer(bytes: int)
    requires
        0 < bytes <= isize::MAX,
        bytes % 4 == 0,
    ensures
        init_buffer_size(bytes) == bytes,
        !needs_realloc(Some(init_buffer_size(bytes) as u64), bytes),
{
    assert((bytes + 3) / 4 * 4 == bytes) by (nonlinear_arith)
        requires
            bytes > 0,
            bytes % 4 == 0,
    ;
}

/// A write whose byte count is not a multiple of four is padded, so every
/// later write of as many bytes allocates a new buffer again.
pub proof fn lemma_unaligned_set_always_reallocates(bytes: int)
    requires
        0 < bytes <= isize::MAX,
        bytes % 4 != 0,
    ensures
        init_buffer_size(bytes) > bytes,
        needs_realloc(Some(init_buffer_size(bytes) as u64), bytes),
{
    assert(bytes < (bytes + 3) / 4 * 4 <= bytes + 3) by (nonlinear_arith)
        requires
            bytes > 0,
            bytes % 4 != 0,
    ;
}

/// The padded size lies between the number of bytes and that number rounded
/// up to the next multiple of four.
pub proof fn lemma_init_buffer_size_bounds(bytes: int)
    requires
        0 <= bytes,
    ensures
        bytes <= init_buffer_size(bytes) <= bytes + 3,
        init_buffer_size(bytes) % 4 == 0,
{
    assert(bytes <= (bytes + 3) / 4 * 4 <= bytes + 3 && ((bytes + 3) / 4 * 4) % 4 == 0)
        by (nonlinear_arith)
        requires
            bytes >= 0,
    ;
}

/// A buffer that was created with the bytes of `data` as its contents holds
/// exactly them: they are the only values placed at offset 0, and the buffer
/// is as long as they are, with at most three bytes of padding, and none
/// where their length is a multiple of four.
pub proof fn lemma_created_buffer_holds_data<T>(b: GpuBuffer<T>, data: Seq<T>)
    requires
        b.size_spec() == init_buffer_size(bytes_for::<T>(data.len() as int)),
        b.writes_spec() == seq![data],
    ensures
        b.writes_spec().len() == 1,
        b.writes_spec().last() == data,
        bytes_for::<T>(data.len() as int) <= b.size_spec() <= bytes_for::<T>(data.len() as int)
            + 3,
        bytes_for::<T>(data.len() as int) % 4 == 0 ==> b.size_spec() == bytes_for::<T>(
            data.len() as int,
        ),
{
    lemma_init_buffer_size_bounds(bytes_for::<T>(data.len() as int));
    if bytes_for::<T>(data.len() as int) % 4 == 0 && bytes_for::<T>(data.len() as int) > 0 {
        assert((bytes_for::<T>(data.len() as int) + 3) / 4 * 4 == bytes_for::<T>(
            data.len() as int,
        )) by (nonlinear_arith)
            requires
                bytes_for::<T>(data.len() as int) % 4 == 0,
                bytes_for::<T>(data.len() as int) > 0,
        ;
    }
}

/// A write of `data` into a buffer of exactly their size leaves that buffer,
/// with its size, holding exactly them: they are the last values placed at
/// offset 0.
pub proof fn lemma_written_buffer_holds_data<T>(
    before: GpuBuffer<T>,
    after: GpuBuffer<T>,
    data: Seq<T>,
)
    requires
        before.size_spec() == bytes_for::<T>(data.len() as int),
        after.wrote_once_after(before, data),
    ensures
        after.raw_spec() == before.raw_spec(),
        after.writes_spec().len() > 0,
        after.writes_spec().last() == data,
        after.size_spec() == bytes_for::<T>(data.len() as int),
{
}

/// A GPU buffer that holds a slice of `T`, reallocated when the number of
/// bytes changes.
pub struct WgpuVecBuffer<T> {
    label: Option<&'static str>,
    buffer: Option<GpuBuffer<T>>,
    usage: u32,
    /// Keep match to the buffer size
    len: usize,
    _phantom: core::marker::PhantomData<T>,
}

impl<T> WgpuVecBuffer<T> {
    /// The usages allow writes, a buffer keeps them, and `len` matches the
    /// buffer size.
    #[verifier::type_invariant]
    spec fn wf(&self) -> bool {
        &&& allows_copy_dst(self.usage)
        &&& bytes_for::<T>(self.len as int) <= usize::MAX
        &&& self.buffer matches Some(b) ==> b.usage_spec() == self.usage && b.label_spec()
            == self.label
        &&& self.len_matches_buffer()
    }

    /// `len` keeps match to the buffer size: there is no buffer only while
    /// nothing is held, and a buffer is as large as the bytes of `len`
    /// values, padded as `create_buffer_init` pads them where it made the
    /// buffer.
    pub open spec fn len_matches_buffer(&self) -> bool {
        match self.buffer_spec() {
            None => self.len_spec() == 0,
            Some(b) => b.size_spec() == bytes_for::<T>(self.len_spec() as int) || b.size_spec()
                == init_buffer_size(bytes_for::<T>(self.len_spec() as int)),
        }
    }

    /// The number of values last written, or asked for by a resize.
    pub closed spec fn len_spec(&self) -> usize {
        self.len
    }

    /// The label the buffer was created with.
    pub closed spec fn label_spec(&self) -> Option<&'static str> {
        self.label
    }

    /// The usage bits of the buffer.
    pub closed spec fn usage_spec(&self) -> u32 {
        self.usage
    }

    /// The record of the GPU buffer, where there is one.
    pub closed spec fn buffer_spec(&self) -> Option<GpuBuffer<T>> {
        self.buffer
    }

    /// The size in bytes of the GPU buffer, where there is one.
    pub open spec fn buffer_size_spec(&self) -> Option<u64> {
        match self.buffer_spec() {
            Some(b) => Some(b.size_spec()),
            None => None,
        }
    }

    /// A length that matches the buffer leaves at most three bytes of
    /// padding: the buffer holds the bytes of `len` values and fewer than
    /// the bytes of one more, four-byte, word.
    pub proof fn lemma_len_match_bounds(b: Self)
        requires
            b.len_matches_buffer(),
        ensures
            b.buffer_spec() matches Some(g) ==> bytes_for::<T>(b.len_spec() as int)
                <= g.size_spec() <= bytes_for::<T>(b.len_spec() as int) + 3,
    {
        if let Some(g) = b.buffer_spec() {
            lemma_init_buffer_size_bounds(bytes_for::<T>(b.len_spec() as int));
        }
    }

    /// After `resize(ctx, len)` the buffer has exactly the bytes of `len`
    /// values, so a second `resize` to the same length allocates nothing and,
    /// by its contract, leaves the buffer and the length as they are.
    pub proof fn lemma_resize_is_idempotent(b: Self, len: usize)
        requires
            b.len_spec() == len,
            b.buffer_size_spec() == Some(bytes_for::<T>(len as int) as u64),
            0 <= bytes_for::<T>(len as int) <= u64::MAX,
        ensures
            !needs_realloc(b.buffer_size_spec(), bytes_for::<T>(len as int)),
    {
    }

    /// An empty buffer: nothing is allocated on the GPU until the first write.
    /// The usages must allow writes.
    pub fn new(label: Option<&'static str>, usage: u32) -> (r: Self)
        requires
            allows_copy_dst(usage),
        ensures
            r.len_spec() == 0,
            r.buffer_spec() is None,
            r.label_spec() == label,
            r.usage_spec() == usage,
            allows_copy_dst(r.usage_spec()),
            r.len_matches_buffer(),
    {
        Self { label, buffer: None, usage, len: 0, _phantom: core::marker::PhantomData }
    }

    /// The number of values in the buffer.
    pub fn len(&self) -> (r: usize)
        ensures
            r == self.len_spec(),
    {
        self.len
    }

    /// The GPU buffer, once one has been allocated.
    pub fn buffer(&self) -> (r: Option<&wgpu::Buffer>)
        ensures
            r is Some <==> self.buffer_spec() is Some,
            r matches Some(raw) ==> *raw == self.buffer_spec()->0.raw_spec(),
    {
        match &self.buffer {
            Some(b) => Some(b.raw()),
            None => None,
        }
    }

    /// The number of bytes that a read of the buffer returns: those of `len`
    /// values; nothing where no buffer is allocated.
    pub fn read_size(&self) -> (r: Option<u64>)
        ensures
            r == (match self.buffer_spec() {
                Some(_) => Some(bytes_for::<T>(self.len_spec() as int) as u64),
                None => None::<u64>,
            }),
    {
        proof {
            use_type_invariant(self);
        }
        match &self.buffer {
            Some(_) => {
                let size = core::mem::size_of::<T>() * self.len;
                Some(size as u64)
            },
            None => None,
        }
    }

    /// Makes the buffer hold exactly `len` values, allocating a new, zeroed
    /// one on the device of `ctx` unless the current one already has that
    /// many bytes, in which case it is kept as it is. Returns whether it
    /// allocated.
    pub fn resize(&mut self, ctx: &WgpuContext, len: usize) -> (r: bool)
        requires
            bytes_for::<T>(len as int) <= usize::MAX,
            needs_realloc(old(self).buffer_size_spec(), bytes_for::<T>(len as int)) ==> {
                &&& ctx.accepts_usage(old(self).usage_spec())
                &&& bytes_for::<T>(len as int) <= ctx.max_buffer_size_spec()
            },
        ensures
            r == needs_realloc(old(self).buffer_size_spec(), bytes_for::<T>(len as int)),
            final(self).len_spec() == len,
            final(self).buffer_size_spec() == Some(bytes_for::<T>(len as int) as u64),
            r ==> final(self).buffer_spec() is Some && final(self).buffer_spec()->0.created_zeroed(
                ctx.device_spec(),
                old(self).label_spec(),
                old(self).usage_spec(),
                bytes_for::<T>(len as int),
            ),
            !r ==> final(self).buffer_spec() == old(self).buffer_spec(),
            final(self).buffer_spec() is Some,
            final(self).buffer_spec()->0.size_spec() == bytes_for::<T>(len as int),
            r ==> final(self).buffer_spec()->0.device_spec() == ctx.device_spec(),
            r ==> final(self).buffer_spec()->0.writes_spec().len() == 0,
            final(self).label_spec() == old(self).label_spec(),
            final(self).usage_spec() == old(self).usage_spec(),
            allows_copy_dst(final(self).usage_spec()),
            final(self).len_matches_buffer(),
    {
        proof {
            use_type_invariant(&*self);
        }
        let size = (core::mem::size_of::<T>() * len) as u64;
        let realloc = match &self.buffer {
            Some(b) => b.size() != size,
            None => true,
        };
        if realloc {
            let buffer = GpuBuffer::zeroed(ctx, self.label, size, self.usage);
            *self = Self {
                label: self.label,
                buffer: Some(buffer),
                usage: self.usage,
                len,
                _phantom: core::marker::PhantomData,
            };
        } else {
            self.len = len;
        }
        realloc
    }
}

impl<T: Default + bytemuck::Pod + core::fmt::Debug> WgpuVecBuffer<T> {
    /// A buffer on the device of `ctx` that holds `data`. The usages must
    /// allow writes.
    pub fn new_init(ctx: &WgpuContext, label: Option<&'static str>, usage: u32, data: &[T]) -> (r:
        Self)
        requires
            allows_copy_dst(usage),
            ctx.accepts_usage(usage),
            bytes_for::<T>(data@.len() as int) <= isize::MAX,
            init_buffer_size(bytes_for::<T>(data@.len() as int)) <= ctx.max_buffer_size_spec(),
        ensures
            r.len_spec() == data@.len(),
            r.buffer_spec() is Some,
            r.buffer_spec()->0.created_with(
                ctx.device_spec(),
                label,
                usage,
                init_buffer_size(bytes_for::<T>(data@.len() as int)),
                data@,
            ),
            r.buffer_spec()->0.device_spec() == ctx.device_spec(),
            r.buffer_spec()->0.writes_spec() == seq![data@],
            r.buffer_spec()->0.size_spec() == init_buffer_size(bytes_for::<T>(data@.len() as int)),
            bytes_for::<T>(data@.len() as int) <= r.buffer_spec()->0.size_spec() <= bytes_for::<T>(
                data@.len() as int,
            ) + 3,
            r.label_spec() == label,
            r.usage_spec() == usage,
            allows_copy_dst(r.usage_spec()),
            r.len_matches_buffer(),
    {
        let mut buffer = Self::new(label, usage);
        buffer.set(ctx, data);
        buffer
    }

    /// Writes `data` into the buffer: a new buffer is created on the device
    /// of `ctx` with `data` as its contents unless the current one has
    /// exactly as many bytes as `data`, in which case `data` is written into
    /// it at offset 0 through the queue of `ctx`. Returns whether it
    /// allocated.
    pub fn set(&mut self, ctx: &WgpuContext, data: &[T]) -> (r: bool)
        requires
            bytes_for::<T>(data@.len() as int) <= isize::MAX,
            needs_realloc(old(self).buffer_size_spec(), bytes_for::<T>(data@.len() as int)) ==> {
                &&& ctx.accepts_usage(old(self).usage_spec())
                &&& init_buffer_size(bytes_for::<T>(data@.len() as int))
                    <= ctx.max_buffer_size_spec()
            },
            !needs_realloc(old(self).buffer_size_spec(), bytes_for::<T>(data@.len() as int)) ==> {
                &&& bytes_for::<T>(data@.len() as int) > 0
                &&& bytes_for::<T>(data@.len() as int) % 4 == 0
                &&& old(self).buffer_spec()->0.device_spec() == ctx.device_spec()
            },
        ensures
            r == needs_realloc(old(self).buffer_size_spec(), bytes_for::<T>(data@.len() as int)),
            final(self).len_spec() == data@.len(),
            r ==> final(self).buffer_spec() is Some && final(self).buffer_spec()->0.created_with(
                ctx.device_spec(),
                old(self).label_spec(),
                old(self).usage_spec(),
                init_buffer_size(bytes_for::<T>(data@.len() as int)),
                data@,
            ),
            !r ==> final(self).buffer_spec() is Some && final(self).buffer_spec()->0.wrote_once_after(
                old(self).buffer_spec()->0,
                data@,
            ),
            final(self).buffer_spec() is Some,
            final(self).buffer_spec()->0.device_spec() == ctx.device_spec(),
            final(self).buffer_spec()->0.writes_spec().len() > 0,
            final(self).buffer_spec()->0.writes_spec().last() == data@,
            r ==> final(self).buffer_spec()->0.writes_spec() == seq![data@],
            r ==> final(self).buffer_spec()->0.size_spec() == init_buffer_size(
                bytes_for::<T>(data@.len() as int),
            ),
            !r ==> final(self).buffer_spec()->0.size_spec() == bytes_for::<T>(data@.len() as int),
            bytes_for::<T>(data@.len() as int) <= final(self).buffer_spec()->0.size_spec()
                <= bytes_for::<T>(data@.len() as int) + 3,
            final(self).label_spec() == old(self).label_spec(),
            final(self).usage_spec() == old(self).usage_spec(),
            allows_copy_dst(final(self).usage_spec()),
            final(self).len_matches_buffer(),
    {
        proof {
            use_type_invariant(&*self);
        }
        let bytes = (core::mem::size_of::<T>() * data.len()) as u64;
        let realloc = match &self.buffer {
            Some(b) => b.size() != bytes,
            None => true,
        };
        if realloc {
            let buffer = GpuBuffer::with_contents(ctx, self.label, data, self.usage);
            proof {
                lemma_created_buffer_holds_data(buffer, data@);
            }
            *self = Self {
                label: self.label,
                buffer: Some(buffer),
                usage: self.usage,
                len: data.len(),
                _phantom: core::marker::PhantomData,
            };
        } else {
            let mut current = Self::new(self.label, self.usage);
            core::mem::swap(&mut current, self);
            proof {
                use_type_invariant(&current);
            }
            let Self { label, buffer, usage, len: _, _phantom } = current;
            if let Some(mut b) = buffer {
                let ghost before = b;
                b.write(ctx, data);
                proof {
                    lemma_written_buffer_holds_data(before, b, data@);
                }
                *self = Self { label, buffer: Some(b), usage, len: data.len(), _phantom };
            }
        }
        realloc
    }
}

} // verus!
