use cuda_min::{DriverOp, LaunchRun, Param};

#[test]
fn new_derives_default_geometry() {
    let mut ret = vec![0u32; 100];
    let p = Param::new(&mut ret);
    assert_eq!(p.block_shape(), (32, 1, 1));
    assert_eq!(p.grid_shape(), (3, 1, 1));
    assert_eq!(p.task_count(), 100);
    assert_eq!(p.result_bytes(), 400);
    assert_eq!(p.shared_bytes(), 0);
    assert!(p.inputs().is_empty());
}

#[test]
fn new_on_short_buffer_uses_one_block() {
    let mut ret = vec![0u8; 5];
    let p = Param::new(&mut ret);
    assert_eq!(p.block_shape(), (5, 1, 1));
    assert_eq!(p.grid_shape(), (1, 1, 1));
}

#[test]
fn new_truncates_grid_on_partial_block() {
    let mut ret = vec![0u64; 70];
    let p = Param::new(&mut ret);
    assert_eq!(p.block_shape(), (32, 1, 1));
    assert_eq!(p.grid_shape(), (2, 1, 1));
    assert_eq!(p.result_bytes(), 560);
}

#[test]
fn new_on_empty_buffer_has_no_tasks() {
    let mut ret: Vec<i32> = Vec::new();
    let p = Param::new(&mut ret);
    assert_eq!(p.block_shape(), (0, 1, 1));
    assert_eq!(p.grid_shape(), (0, 1, 1));
    assert_eq!(p.task_count(), 0);
}

#[test]
fn block_size_recomputes_grid() {
    let mut ret = vec![0usize; 1048576];
    let p = Param::new(&mut ret).block_size(1024);
    assert_eq!(p.block_shape(), (1024, 1, 1));
    assert_eq!(p.grid_shape(), (1024, 1, 1));
}

#[test]
fn block_size_truncates_grid() {
    let mut ret = vec![0i32; 10310];
    let p = Param::new(&mut ret).block_size(1024);
    assert_eq!(p.grid_shape(), (10, 1, 1));
}

#[test]
fn len_overrides_task_count() {
    let mut ret = vec![[0i32; 4096]; 4];
    let p = Param::new(&mut ret).block_size(1024).len(4096);
    assert_eq!(p.task_count(), 4096);
    assert_eq!(p.grid_shape(), (4, 1, 1));
    assert_eq!(p.block_shape(), (1024, 1, 1));
}

#[test]
fn set_block_grid_size_bypasses_derivation() {
    let mut ret = vec![[0u8; 9]; 1];
    let p = Param::new(&mut ret).block_size(1).set_block_grid_size((3, 3, 1), (1, 1, 1));
    assert_eq!(p.block_shape(), (3, 3, 1));
    assert_eq!(p.grid_shape(), (1, 1, 1));
    assert_eq!(p.task_count(), 3);
}

#[test]
fn geometry_override_reaches_launch() {
    let mut ret = vec![0u8; 9];
    let p = Param::new(&mut ret).set_block_grid_size((3, 3, 1), (1, 1, 1));
    let run = LaunchRun::new(p);
    let mut run = match run {
        Ok(r) => r,
        Err(e) => panic!("launch refused: {}", e.describe()),
    };
    let mut launched = None;
    loop {
        match run.advance(0) {
            cuda_min::LaunchStep::Perform(DriverOp::Launch { grid, block, shared_mem, args }) => {
                launched = Some((grid, block, shared_mem, args));
            }
            cuda_min::LaunchStep::Perform(_) => {}
            cuda_min::LaunchStep::Finished(r) => {
                assert!(r.is_ok());
                break;
            }
        }
    }
    assert_eq!(launched, Some(((1, 1, 1), (3, 3, 1), 0, 1)));
}

#[test]
fn push_records_address_and_bytes() {
    let a = vec![1i32, 2, 3];
    let b = vec![7u64; 2];
    let mut ret = vec![0i32; 3];
    let p = Param::new(&mut ret).push(&a).push(&b);
    assert_eq!(p.inputs().len(), 2);
    assert_eq!(p.inputs()[0], (a.as_ptr() as usize, 12));
    assert_eq!(p.inputs()[1], (b.as_ptr() as usize, 16));
    assert_ne!(p.inputs()[0].0, 0);
}

#[test]
fn checked_push_accepts_non_empty_input() {
    let a = vec![1i16; 4];
    let mut ret = vec![0i16; 4];
    let r = Param::new(&mut ret).checked_push(&a);
    match r {
        Ok(p) => assert_eq!(p.inputs()[0], (a.as_ptr() as usize, 8)),
        Err(_) => panic!("non-empty input refused"),
    }
}

#[test]
fn checked_push_reports_empty_input() {
    let a: Vec<i32> = vec![5; 3];
    let empty: Vec<i32> = Vec::new();
    let mut ret = vec![0i32; 64];
    let p = Param::new(&mut ret).push(&a).shared(128);
    let before_inputs = p.inputs().clone();
    let r = p.checked_push(&empty);
    let p = match r {
        Ok(_) => panic!("empty input accepted"),
        Err(p) => p,
    };
    assert_eq!(p.inputs().len(), 2);
    assert_eq!(p.inputs()[0], before_inputs[0]);
    assert_eq!(p.inputs()[1], (0, 0));
    assert_eq!(p.block_shape(), (32, 1, 1));
    assert_eq!(p.grid_shape(), (2, 1, 1));
    assert_eq!(p.task_count(), 64);
    assert_eq!(p.shared_bytes(), 128);
}

#[test]
fn checked_push_of_zero_sized_elements_is_empty() {
    let units = vec![(); 10];
    let mut ret = vec![0u8; 8];
    assert!(Param::new(&mut ret).checked_push(&units).is_err());
}

#[test]
fn shared_sets_shared_memory() {
    let mut ret = vec![0i32; 1024];
    let p = Param::new(&mut ret).shared(1024);
    assert_eq!(p.shared_bytes(), 1024);
    assert_eq!(p.shared_mem, 1024);
}
