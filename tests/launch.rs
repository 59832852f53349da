use cuda_min::{DriverOp, LaunchRun, LaunchStep, Param};

/// A device that keeps its memory in host vectors and runs the kernel
/// `output[i] = a[i] + b[i] + offset[0]` over `i32` values.
struct FakeDevice {
    /// Host buffers it can read, by address.
    host: Vec<(usize, Vec<u8>)>,
    slots: Vec<Option<Vec<u8>>>,
    downloads: Vec<(usize, Vec<u8>)>,
    calls: usize,
}

fn bytes_of(v: &[i32]) -> Vec<u8> {
    v.iter().flat_map(|x| x.to_ne_bytes()).collect()
}

fn ints_of(b: &[u8]) -> Vec<i32> {
    b.chunks(4).map(|c| i32::from_ne_bytes([c[0], c[1], c[2], c[3]])).collect()
}

impl FakeDevice {
    fn perform(&mut self, op: DriverOp) -> i32 {
        self.calls += 1;
        match op {
            DriverOp::Alloc { slot, bytes } => {
                if self.slots.len() <= slot {
                    self.slots.resize(slot + 1, None);
                }
                self.slots[slot] = Some(vec![0; bytes]);
            }
            DriverOp::Upload { slot, host, bytes } => {
                let src = &self.host.iter().find(|(a, _)| *a == host).unwrap().1;
                self.slots[slot].as_mut().unwrap().copy_from_slice(&src[..bytes]);
            }
            DriverOp::Launch { grid, block, args, .. } => {
                assert_eq!(args, 4);
                let a = ints_of(self.slots[0].as_ref().unwrap());
                let b = ints_of(self.slots[1].as_ref().unwrap());
                let off = ints_of(self.slots[2].as_ref().unwrap())[0];
                let mut out = ints_of(self.slots[3].as_ref().unwrap());
                for i in 0..(grid.0 * block.0) as usize {
                    out[i] = a[i] + b[i] + off;
                }
                self.slots[3] = Some(bytes_of(&out));
            }
            DriverOp::Download { slot, host, bytes } => {
                let data = self.slots[slot].as_ref().unwrap()[..bytes].to_vec();
                self.downloads.push((host, data));
            }
        }
        0
    }
}

#[test]
fn vector_add_round_trip() {
    const N: usize = 1024;
    let a: Vec<i32> = (0..N as i32).collect();
    let b: Vec<i32> = (0..N as i32).map(|x| x + 2).collect();
    let offset = vec![1i32];
    let mut ret = vec![0i32; N];
    let ret_addr = ret.as_ptr() as usize;
    let mut dev = FakeDevice {
        host: vec![
            (a.as_ptr() as usize, bytes_of(&a)),
            (b.as_ptr() as usize, bytes_of(&b)),
            (offset.as_ptr() as usize, bytes_of(&offset)),
            (ret_addr, bytes_of(&ret)),
        ],
        slots: Vec::new(),
        downloads: Vec::new(),
        calls: 0,
    };
    let param = Param::new(&mut ret).block_size(1024).push(&a).push(&b).push(&offset);
    let mut run = match LaunchRun::new(param) {
        Ok(r) => r,
        Err(e) => panic!("{}", e.describe()),
    };
    let mut status = 0;
    let pending = loop {
        match run.advance(status) {
            LaunchStep::Perform(op) => status = dev.perform(op),
            LaunchStep::Finished(r) => break r.unwrap(),
        }
    };
    assert!(pending.finish(0).is_ok());
    assert_eq!(dev.downloads.len(), 1);
    let (host, data) = dev.downloads.pop().unwrap();
    assert_eq!(host, ret_addr);
    ret.copy_from_slice(&ints_of(&data));
    for (i, v) in ret.iter().enumerate() {
        assert_eq!(*v, 2 * i as i32 + 3);
    }
    assert_eq!(dev.calls, 10);
}

#[test]
fn launch_order_of_operations() {
    let a = vec![1u32; 4];
    let empty: Vec<u32> = Vec::new();
    let mut ret = vec![0u32; 4];
    let ra = ret.as_ptr() as usize;
    let aa = a.as_ptr() as usize;
    let p = Param::new(&mut ret).push(&a).push(&empty).shared(64);
    let mut run = LaunchRun::new(p).ok().unwrap();
    let mut ops = Vec::new();
    loop {
        match run.advance(0) {
            LaunchStep::Perform(op) => ops.push(op),
            LaunchStep::Finished(r) => {
                assert!(r.is_ok());
                break;
            }
        }
    }
    assert_eq!(
        ops,
        vec![
            DriverOp::Alloc { slot: 2, bytes: 16 },
            DriverOp::Upload { slot: 2, host: ra, bytes: 16 },
            DriverOp::Alloc { slot: 0, bytes: 16 },
            DriverOp::Upload { slot: 0, host: aa, bytes: 16 },
            DriverOp::Launch { grid: (1, 1, 1), block: (4, 1, 1), shared_mem: 64, args: 3 },
            DriverOp::Download { slot: 2, host: ra, bytes: 16 },
        ]
    );
}

#[test]
fn empty_launch_is_refused_without_device_calls() {
    let mut ret: Vec<f32> = Vec::new();
    let p = Param::new(&mut ret);
    match LaunchRun::new(p) {
        Ok(_) => panic!("empty launch accepted"),
        Err(e) => assert_eq!(e.code(), 1),
    }
}

#[test]
fn empty_launch_is_refused_even_with_inputs() {
    let a = vec![3u8; 16];
    let mut ret: Vec<u8> = Vec::new();
    let p = Param::new(&mut ret).push(&a);
    assert_eq!(LaunchRun::new(p).err().map(|e| e.code()), Some(1));
}

#[test]
fn first_failure_ends_the_launch() {
    let a = vec![1u32; 4];
    let mut ret = vec![0u32; 4];
    let p = Param::new(&mut ret).push(&a);
    let mut run = LaunchRun::new(p).ok().unwrap();
    assert!(matches!(run.advance(0), LaunchStep::Perform(DriverOp::Alloc { .. })));
    assert!(matches!(run.advance(0), LaunchStep::Perform(DriverOp::Upload { .. })));
    assert!(matches!(run.advance(0), LaunchStep::Perform(DriverOp::Alloc { slot: 0, .. })));
    match run.advance(2) {
        LaunchStep::Finished(Err(e)) => assert_eq!(e.code(), 2),
        _ => panic!("launch went on after a failure"),
    }
}

#[test]
fn pending_result_reports_stream_status() {
    let mut ret = vec![0u32; 4];
    let p = Param::new(&mut ret);
    let mut run = LaunchRun::new(p).ok().unwrap();
    let pending = loop {
        match run.advance(0) {
            LaunchStep::Perform(_) => {}
            LaunchStep::Finished(r) => break r.unwrap(),
        }
    };
    assert_eq!(pending.finish(700).err().map(|e| e.code()), Some(700));
}
