use ocr_cli::backend::{backend_from_lowercase, lookup_backend, parse_backend, Backend};

#[test]
fn test_parse_backend_cpu() {
    assert!(matches!(parse_backend("cpu"), Backend::CPU));
    assert!(matches!(parse_backend("CPU"), Backend::CPU));
}

#[test]
fn test_parse_backend_metal() {
    assert!(matches!(parse_backend("metal"), Backend::Metal));
}

#[test]
fn test_parse_backend_opencl() {
    assert!(matches!(parse_backend("opencl"), Backend::OpenCL));
}

#[test]
fn test_parse_backend_opengl() {
    assert!(matches!(parse_backend("opengl"), Backend::OpenGL));
}

#[test]
fn test_parse_backend_vulkan() {
    assert!(matches!(parse_backend("vulkan"), Backend::Vulkan));
}

#[test]
fn test_parse_backend_cuda() {
    assert!(matches!(parse_backend("cuda"), Backend::CUDA));
}

#[test]
fn test_parse_backend_unknown_fallback() {
    assert!(matches!(parse_backend("nonsense"), Backend::CPU));
    assert!(matches!(parse_backend(""), Backend::CPU));
}

#[test]
fn backend_names_ignore_case() {
    assert_eq!(parse_backend("VuLkAn"), Backend::Vulkan);
    assert_eq!(parse_backend("OpenGL"), Backend::OpenGL);
    assert_eq!(parse_backend("Cuda"), parse_backend("cUDA"));
    assert_eq!(lookup_backend("METAL"), Some(Backend::Metal));
}

#[test]
fn backend_lookup_reports_unknown_names() {
    assert_eq!(lookup_backend("tpu"), None);
    assert_eq!(lookup_backend(" cpu"), None);
    assert_eq!(backend_from_lowercase("CPU"), None);
    assert_eq!(backend_from_lowercase("cpu"), Some(Backend::CPU));
    assert_eq!(backend_from_lowercase("opencl"), Some(Backend::OpenCL));
}
