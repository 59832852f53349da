//! The launch sequence: which driver operations a launch performs, in which
//! order, and the step function that hands them out one at a time and stops at
//! the first failure.
use core::marker::PhantomData;
use vstd::prelude::*;

use crate::error::{check, result_view, status_result, CUerror, CUresult, CUDA_ERROR_INVALID_VALUE};
use crate::host::{appended, Param, ParamView};

verus! {

/// One driver operation of a launch. Argument slots `0..k` hold the inputs in
/// order, slot `k` the result buffer; a slot that nothing was allocated for
/// holds a null device pointer.
#[derive(Clone, Copy, Debug, PartialEq, Eq)]
pub enum DriverOp {
    /// Allocate `bytes` of device memory for a slot.
    Alloc { slot: usize, bytes: usize },
    /// Copy `bytes` from host address `host` into a slot's device memory, on
    /// the default stream.
    Upload { slot: usize, host: usize, bytes: usize },
    /// Launch the kernel on the default stream, its arguments the device
    /// pointers of slots `0..args`, in order.
    Launch { grid: (u32, u32, u32), block: (u32, u32, u32), shared_mem: u32, args: usize },
    /// Copy `bytes` from a slot's device memory to host address `host`, on
    /// the default stream.
    Download { slot: usize, host: usize, bytes: usize },
}

/// Allocation and upload of the first `n` inputs; empty ones get neither.
pub open spec fn input_ops(input: Seq<(usize, usize)>, n: nat) -> Seq<DriverOp>
    decreases n,
{
    if n == 0 {
        Seq::empty()
    } else {
        let prev = input_ops(input, (n - 1) as nat);
        let (host, bytes) = input[n - 1];
        let slot = (n - 1) as usize;
        if bytes > 0 {
            prev + seq![DriverOp::Alloc { slot, bytes }, DriverOp::Upload { slot, host, bytes }]
        } else {
            prev
        }
    }
}

/// Every operation of a launch of `p`, in order: the result buffer is
/// allocated and its current contents uploaded, then each non-empty input;
/// the kernel runs with every input slot and then the result slot as its
/// arguments; the result comes back to the host.
pub open spec fn launch_ops(p: ParamView) -> Seq<DriverOp> {
    let k = p.input.len() as usize;
    seq![
        DriverOp::Alloc { slot: k, bytes: p.result_bytes },
        DriverOp::Upload { slot: k, host: p.result_addr, bytes: p.result_bytes },
    ] + input_ops(p.input, p.input.len()) + seq![
        DriverOp::Launch {
            grid: p.grid,
            block: p.block,
            shared_mem: p.shared_mem,
            args: (k + 1) as usize,
        },
        DriverOp::Download { slot: k, host: p.result_addr, bytes: p.result_bytes },
    ]
}

/// How a launch of `p` starts: refused with the empty-launch code when no
/// task is asked for, else with its operations.
pub open spec fn launch_start(p: ParamView) -> Result<Seq<DriverOp>, i32> {
    if p.len == 0 {
        Err(CUDA_ERROR_INVALID_VALUE)
    } else {
        Ok(launch_ops(p))
    }
}

/// Proof that a launch is under way. It holds the borrows of the descriptor's
/// buffers, which the device may still read or write until `finish`.
pub struct PendingResult<'c> {
    borrows: PhantomData<&'c mut ()>,
}

impl<'c> PendingResult<'c> {
    /// Ends the launch with the status of draining the default stream, and
    /// gives the buffers back.
    pub fn finish(self, status: i32) -> (r: CUresult)
        ensures
            result_view(r) == status_result(status),
    {
        check(status)
    }
}

/// What a launch run holds.
pub struct LaunchRunView {
    pub ops: Seq<DriverOp>,
    /// How many operations were handed out.
    pub next: nat,
    pub finished: bool,
}

/// A launch in progress.
pub struct LaunchRun<'a> {
    ops: Vec<DriverOp>,
    next: usize,
    finished: bool,
    borrows: PhantomData<&'a mut ()>,
}

/// The next step of a launch.
pub enum LaunchStep<'a> {
    /// Perform this operation and report its status.
    Perform(DriverOp),
    /// The launch is over: every operation was queued, or one failed.
    Finished(Result<PendingResult<'a>, CUerror>),
}

impl<'a> View for LaunchRun<'a> {
    type V = LaunchRunView;

    closed spec fn view(&self) -> LaunchRunView {
        LaunchRunView { ops: self.ops@, next: self.next as nat, finished: self.finished }
    }
}

impl<'a> LaunchRun<'a> {
    /// Whether the operations handed out are within the plan.
    pub closed spec fn wf(&self) -> bool {
        self.next <= self.ops.len()
    }

    /// Starts a launch of `param`, which it consumes: refused when no task is
    /// asked for, with nothing done on the device.
    pub fn new<R>(param: Param<'a, R>) -> (r: Result<LaunchRun<'a>, CUerror>)
        requires
            param@.input.len() < usize::MAX,
        ensures
            match r {
                Ok(run) => launch_start(param@) == Ok::<Seq<DriverOp>, i32>(run@.ops) && run@.next == 0
                    && !run@.finished && run.wf(),
                Err(e) => launch_start(param@) == Err::<Seq<DriverOp>, i32>(e@) && e.wf(),
            },
    {
        if param.task_count() == 0 {
            return Err(CUerror::empty_launch());
        }
        let input = param.inputs();
        let k = input.len();
        let host = param.result_address();
        let bytes = param.result_bytes();
        let mut ops: Vec<DriverOp> = Vec::new();
        ops.push(DriverOp::Alloc { slot: k, bytes });
        ops.push(DriverOp::Upload { slot: k, host, bytes });
        let ghost head = ops@;
        let mut i: usize = 0;
        while i < k
            invariant
                i <= k,
                k == param@.input.len(),
                input@ == param@.input,
                ops@ == head + input_ops(param@.input, i as nat),
            decreases k - i,
        {
            let (h, b) = input[i];
            if b > 0 {
                ops.push(DriverOp::Alloc { slot: i, bytes: b });
                ops.push(DriverOp::Upload { slot: i, host: h, bytes: b });
            }
            i = i + 1;
        }
        ops.push(
            DriverOp::Launch {
                grid: param.grid_shape(),
                block: param.block_shape(),
                shared_mem: param.shared_bytes(),
                args: k + 1,
            },
        );
        ops.push(DriverOp::Download { slot: k, host, bytes });
        assert(ops@ =~= launch_ops(param@));
        Ok(LaunchRun { ops, next: 0, finished: false, borrows: PhantomData })
    }

    /// Takes the status of the operation handed out last (zero before the
    /// first) and says what comes next: the first failure ends the launch with
    /// its code, and once every operation has succeeded the launch is pending.
    pub fn advance(&mut self, status: i32) -> (r: LaunchStep<'a>)
        requires
            old(self).wf(),
            !old(self)@.finished,
        ensures
            final(self).wf(),
            final(self)@.ops == old(self)@.ops,
            status != 0 ==> final(self)@.finished && final(self)@.next == old(self)@.next
                && (r matches LaunchStep::Finished(Err(e)) && e@ == status && e.wf()),
            status == 0 && old(self)@.next < old(self)@.ops.len() ==> !final(self)@.finished
                && final(self)@.next == old(self)@.next + 1
                && r == LaunchStep::<'a>::Perform(old(self)@.ops[old(self)@.next as int]),
            status == 0 && old(self)@.next == old(self)@.ops.len() ==> final(self)@.finished
                && final(self)@.next == old(self)@.next && (r matches LaunchStep::Finished(Ok(_))),
    {
        if status != 0 {
            self.finished = true;
            match check(status) {
                Err(e) => LaunchStep::Finished(Err(e)),
                Ok(()) => LaunchStep::Finished(Ok(PendingResult { borrows: PhantomData })),
            }
        } else if self.next < self.ops.len() {
            let op = self.ops[self.next];
            self.next = self.next + 1;
            LaunchStep::Perform(op)
        } else {
            self.finished = true;
            LaunchStep::Finished(Ok(PendingResult { borrows: PhantomData }))
        }
    }
}

/// A launch of a descriptor that asks for no task is refused with the
/// empty-launch code before any driver operation.
pub proof fn empty_launch_refused(p: ParamView)
    requires
        p.len == 0,
    ensures
        launch_start(p) == Err::<Seq<DriverOp>, i32>(CUDA_ERROR_INVALID_VALUE),
{
}

proof fn input_ops_agree(a: Seq<(usize, usize)>, b: Seq<(usize, usize)>, n: nat)
    requires
        n <= a.len(),
        n <= b.len(),
        forall|i: int| 0 <= i < n ==> a[i] == b[i],
    ensures
        input_ops(a, n) == input_ops(b, n),
    decreases n,
{
    if n > 0 {
        input_ops_agree(a, b, (n - 1) as nat);
    }
}

/// An empty input leaves the descriptor as it was but for one more entry, at
/// address zero with length zero: a launch allocates and uploads nothing for
/// it, and passes a null pointer in its argument slot.
pub proof fn empty_input_unused(old: ParamView, new: ParamView)
    requires
        appended(old, new, 0),
    ensures
        new == (ParamView { input: old.input.push((0usize, 0usize)), ..old }),
        input_ops(new.input, new.input.len()) == input_ops(old.input, old.input.len()),
{
    input_ops_agree(new.input, old.input, old.input.len());
}

/// A launch moves the result buffer both ways: its current contents reach the
/// device before the kernel runs, the kernel gets it as its last argument, and
/// it comes back to the same host buffer after the kernel.
pub proof fn result_round_trip(p: ParamView)
    requires
        p.input.len() < usize::MAX,
    ensures
        ({
            let ops = launch_ops(p);
            let k = p.input.len() as usize;
            &&& ops[1] == DriverOp::Upload { slot: k, host: p.result_addr, bytes: p.result_bytes }
            &&& ops[ops.len() - 2] == DriverOp::Launch {
                grid: p.grid,
                block: p.block,
                shared_mem: p.shared_mem,
                args: (k + 1) as usize,
            }
            &&& ops.last() == DriverOp::Download { slot: k, host: p.result_addr, bytes: p.result_bytes }
        }),
{
}

} // verus!
