//! The launch descriptor: the geometry, the input buffers and the result buffer
//! of one kernel launch.
use core::marker::PhantomData;
use vstd::prelude::*;

verus! {

/// The address of a slice's first element.
/// Relies on `<[T]>::as_ptr`; where a slice lives is the allocator's choice, so
/// nothing is stated of the address.
#[verifier::external_body]
fn host_address<T>(s: &[T]) -> usize {
    s.as_ptr() as usize
}

/// The address of a mutable slice's first element, usable for writes.
/// Relies on `<[T]>::as_mut_ptr`; nothing is stated of the address.
#[verifier::external_body]
fn host_address_mut<T>(s: &mut [T]) -> usize {
    s.as_mut_ptr() as usize
}

/// The low 32 bits of a non-negative integer, as an `as u32` cast keeps them.
pub open spec fn low_u32(x: int) -> u32 {
    (x % 0x1_0000_0000) as u32
}

fn truncate_u32(x: usize) -> (r: u32)
    ensures
        r == low_u32(x as int),
{
    (x as u64 % 0x1_0000_0000u64) as u32
}

/// The block width a descriptor starts with: 32 threads, or fewer for a
/// shorter result buffer.
pub open spec fn default_block_x(n: usize) -> u32 {
    if n < 32 {
        n as u32
    } else {
        32
    }
}

/// The grid width for `n` tasks in blocks of `block_x` threads (zero when the
/// block is empty).
pub open spec fn grid_x_for(n: usize, block_x: u32) -> u32 {
    if block_x == 0 {
        0
    } else {
        low_u32(n as int / block_x as int)
    }
}

/// What a descriptor holds.
pub struct ParamView {
    /// (host address, byte length) of each input, in argument order.
    pub input: Seq<(usize, usize)>,
    /// Host address of the result buffer.
    pub result_addr: usize,
    /// Element count of the result buffer.
    pub result_len: usize,
    /// Byte length of the result buffer.
    pub result_bytes: usize,
    pub shared_mem: u32,
    pub block: (u32, u32, u32),
    pub grid: (u32, u32, u32),
    /// The number of tasks.
    pub len: usize,
}

/// A descriptor as `Param::new` makes it for a result buffer of `n` elements
/// and `bytes` bytes at `addr`.
pub open spec fn initial_view(addr: usize, n: usize, bytes: usize) -> ParamView {
    ParamView {
        input: Seq::empty(),
        result_addr: addr,
        result_len: n,
        result_bytes: bytes,
        shared_mem: 0,
        block: (default_block_x(n), 1, 1),
        grid: (grid_x_for(n, default_block_x(n)), 1, 1),
        len: n,
    }
}

/// `new` is `old` with one more input of `bytes` bytes at the end; an empty
/// input is recorded at address zero.
pub open spec fn appended(old: ParamView, new: ParamView, bytes: usize) -> bool {
    &&& new.input.len() == old.input.len() + 1
    &&& new == ParamView { input: old.input.push((new.input.last().0, bytes)), ..old }
    &&& bytes == 0 ==> new.input.last().0 == 0
}

/// Function parameters: packs the inputs and the result of one launch, and
/// fixes its geometry.
///
/// The descriptor borrows the result buffer and every input for `'a`, so none
/// of them can be touched until the launch that consumes it has completed.
pub struct Param<'a, R> {
    /// Host address and byte length of each input, in argument order.
    pub input: Vec<(usize, usize)>,
    /// Shared memory to request for the launch, in bytes.
    pub shared_mem: u32,
    result_addr: usize,
    result_len: usize,
    result_bytes: usize,
    block_size: (u32, u32, u32),
    grid_size: (u32, u32, u32),
    len: usize,
    borrows: PhantomData<&'a mut [R]>,
}

impl<'a, R> View for Param<'a, R> {
    type V = ParamView;

    closed spec fn view(&self) -> ParamView {
        ParamView {
            input: self.input@,
            result_addr: self.result_addr,
            result_len: self.result_len,
            result_bytes: self.result_bytes,
            shared_mem: self.shared_mem,
            block: self.block_size,
            grid: self.grid_size,
            len: self.len,
        }
    }
}

impl<'a, R> Param<'a, R> {
    /// Makes a descriptor from its result buffer, whose length is the number of
    /// tasks: blocks of `min(32, n)` threads and `n / min(32, n)` blocks.
    pub fn new(result: &'a mut [R]) -> (r: Self)
        requires
            vstd::layout::size_of::<R>() * old(result)@.len() <= usize::MAX,
        ensures
            r@ == initial_view(
                r@.result_addr,
                old(result)@.len() as usize,
                (vstd::layout::size_of::<R>() * old(result)@.len()) as usize,
            ),
    {
        let len = result.len();
        let bytes = core::mem::size_of::<R>() * len;
        let block_x: u32 = if len < 32 {
            len as u32
        } else {
            32
        };
        let grid_x: u32 = if block_x == 0 {
            0
        } else {
            truncate_u32(len / block_x as usize)
        };
        let result_addr = host_address_mut(result);
        Param {
            input: Vec::new(),
            shared_mem: 0,
            result_addr,
            result_len: len,
            result_bytes: bytes,
            block_size: (block_x, 1, 1),
            grid_size: (grid_x, 1, 1),
            len,
            borrows: PhantomData,
        }
    }

    /// Sets a one-dimensional block of `val` threads, and as many blocks as
    /// the task count fills.
    pub fn block_size(self, val: u32) -> (r: Self)
        requires
            val > 0,
        ensures
            r@ == (ParamView {
                block: (val, 1, 1),
                grid: (grid_x_for(self@.len, val), 1, 1),
                ..self@
            }),
    {
        let mut p = self;
        p.block_size = (val, 1, 1);
        p.grid_size = (truncate_u32(p.len / val as usize), 1, 1);
        p
    }

    /// Sets the block and grid shapes as given, and the task count to the
    /// threads along x. Nothing is checked against the buffers: the caller
    /// answers for a geometry that fits them.
    pub fn set_block_grid_size(self, block_size: (u32, u32, u32), grid_size: (u32, u32, u32)) -> (r: Self)
        requires
            block_size.0 * grid_size.0 <= usize::MAX,
        ensures
            r@ == (ParamView {
                block: block_size,
                grid: grid_size,
                len: (block_size.0 * grid_size.0) as usize,
                ..self@
            }),
    {
        let mut p = self;
        p.block_size = block_size;
        p.grid_size = grid_size;
        p.len = block_size.0 as usize * grid_size.0 as usize;
        p
    }

    /// Appends an input, panicking on none: an empty one is recorded all the
    /// same, at address zero.
    pub fn push<T>(self, item: &'a [T]) -> (r: Self)
        requires
            vstd::layout::size_of::<T>() * item@.len() <= usize::MAX,
        ensures
            appended(self@, r@, (vstd::layout::size_of::<T>() * item@.len()) as usize),
    {
        match self.checked_push(item) {
            Ok(p) => p,
            Err(p) => p,
        }
    }

    /// Sets the number of tasks, and the grid width that fills it with the
    /// current blocks.
    pub fn len(self, len: usize) -> (r: Self)
        requires
            self@.block.0 > 0,
        ensures
            r@ == (ParamView {
                len: len,
                grid: (low_u32(len as int) / self@.block.0, self@.grid.1, self@.grid.2),
                ..self@
            }),
    {
        let mut p = self;
        p.len = len;
        p.grid_size.0 = truncate_u32(len) / p.block_size.0;
        p
    }

    /// Appends an input. An empty one (no elements, or elements of no size)
    /// is recorded at address zero with length zero, and the descriptor comes
    /// back as an error so that the caller can tell.
    pub fn checked_push<T>(self, item: &'a [T]) -> (r: Result<Self, Self>)
        requires
            vstd::layout::size_of::<T>() * item@.len() <= usize::MAX,
        ensures
            ({
                let bytes = (vstd::layout::size_of::<T>() * item@.len()) as usize;
                match r {
                    Ok(p) => bytes > 0 && appended(self@, p@, bytes),
                    Err(p) => bytes == 0 && appended(self@, p@, bytes),
                }
            }),
    {
        let mut p = self;
        let size = core::mem::size_of::<T>() * item.len();
        if size != 0 {
            let addr = host_address(item);
            p.input.push((addr, size));
            Ok(p)
        } else {
            p.input.push((0, 0));
            Err(p)
        }
    }

    /// Sets the shared memory to request, in bytes.
    pub fn shared(self, size: u32) -> (r: Self)
        ensures
            r@ == (ParamView { shared_mem: size, ..self@ }),
    {
        let mut p = self;
        p.shared_mem = size;
        p
    }

    /// The block shape.
    pub fn block_shape(&self) -> (r: (u32, u32, u32))
        ensures
            r == self@.block,
    {
        self.block_size
    }

    /// The grid shape.
    pub fn grid_shape(&self) -> (r: (u32, u32, u32))
        ensures
            r == self@.grid,
    {
        self.grid_size
    }

    /// The number of tasks.
    pub fn task_count(&self) -> (r: usize)
        ensures
            r == self@.len,
    {
        self.len
    }
    /// Host address of the result buffer.
    pub fn result_address(&self) -> (r: usize)
        ensures
            r == self@.result_addr,
    {
        self.result_addr
    }

    /// Byte length of the result buffer.
    pub fn result_bytes(&self) -> (r: usize)
        ensures
            r == self@.result_bytes,
    {
        self.result_bytes
    }
    /// The inputs: host address and byte length of each, in argument order.
    pub fn inputs(&self) -> (r: &Vec<(usize, usize)>)
        ensures
            r@ == self@.input,
    {
        &self.input
    }

    /// The shared memory to request, in bytes.
    pub fn shared_bytes(&self) -> (r: u32)
        ensures
            r == self@.shared_mem,
    {
        self.shared_mem
    }
}

/// A new descriptor for a result buffer of `n > 0` elements has blocks of
/// `min(32, n)` threads and `n / min(32, n)` blocks (truncating), whenever that
/// block count fits in 32 bits.
pub proof fn default_geometry(addr: usize, n: usize, bytes: usize)
    requires
        n > 0,
        n as int / vstd::math::min(32, n as int) <= u32::MAX,
    ensures
        initial_view(addr, n, bytes).block == (vstd::math::min(32, n as int) as u32, 1u32, 1u32),
        initial_view(addr, n, bytes).grid.0 == n as int / vstd::math::min(32, n as int),
        initial_view(addr, n, bytes).len == n,
{
}

} // verus!
