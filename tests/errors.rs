use cuda_min::{check, get_name_desc, CUerror};

#[test]
fn zero_is_success() {
    assert!(check(0).is_ok());
    assert!(CUerror::new(0).is_none());
}

#[test]
fn non_zero_is_failure() {
    assert_eq!(check(5).err().map(|e| e.code()), Some(5));
    assert_eq!(CUerror::new(-3).map(|e| e.code()), Some(-3));
}

#[test]
fn name_desc_lookup() {
    assert_eq!(get_name_desc(218), ("CUDA_ERROR_INVALID_PTX", "a PTX JIT compilation failed"));
    assert_eq!(get_name_desc(500), ("CUDA_ERROR_NOT_FOUND", "named symbol not found"));
    assert_eq!(get_name_desc(12345), ("unrecognized error code", ""));
    assert_eq!(get_name_desc(102).1, "device doesn't have valid Grid license");
}

#[test]
fn render_invalid_ptx_with_hint() {
    let e = CUerror::new(218).unwrap();
    assert_eq!(
        e.describe(),
        "CUDA error: \"CUDA_ERROR_INVALID_PTX\" (218): \"a PTX JIT compilation failed\"  (executing `ptxas -arch sm_{your gpu sm version} your_ptx_code.ptx` might be helpful)"
    );
}

#[test]
fn render_invalid_image_with_hint() {
    let m = CUerror::new(200).unwrap().describe();
    assert!(m.starts_with("CUDA error: \"CUDA_ERROR_INVALID_IMAGE\" (200): \"device kernel image is invalid\""));
    assert!(m.ends_with("might be helpful)"));
}

#[test]
fn render_other_codes_without_hint() {
    assert_eq!(
        CUerror::new(2).unwrap().describe(),
        "CUDA error: \"CUDA_ERROR_OUT_OF_MEMORY\" (2): \"out of memory\""
    );
    assert_eq!(
        CUerror::new(-7).unwrap().describe(),
        "CUDA error: \"unrecognized error code\" (-7): \"\""
    );
}

#[test]
fn name_desc_through_error_type() {
    assert_eq!(CUerror::get_name_desc(1), ("CUDA_ERROR_INVALID_VALUE", "invalid argument"));
    assert_eq!(CUerror::get_name_desc(0), ("CUDA_SUCCESS", "no error"));
}

#[test]
fn named_errors() {
    assert_eq!(CUerror::empty_launch().code(), 1);
    assert_eq!(CUerror::encoding().code(), 218);
}
