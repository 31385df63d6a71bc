use layers::geometry::Size2D;
use layers::geometry::SurfaceGeometry;
use layers::surface::NativeCompositingGraphicsContext;
use layers::surface::NativeGraphicsMetadata;
use layers::surface::NativePaintingGraphicsContext;
use layers::surface::NativeSurface;
use layers::surface::SurfaceError;

fn painting_context() -> NativePaintingGraphicsContext {
    let metadata = NativeGraphicsMetadata { display: 0x1000 };
    NativePaintingGraphicsContext::from_metadata(&metadata)
}

#[test]
fn from_metadata_copies_display() {
    let metadata = NativeGraphicsMetadata { display: 77 };
    let context = NativePaintingGraphicsContext::from_metadata(&metadata);
    assert_eq!(context.display, 77);
}

#[test]
fn compositing_context_snapshots_given_handles() {
    let context = NativeCompositingGraphicsContext::new(11, 22, 33);
    assert_eq!(context.display, 11);
    assert_eq!(context.context, 22);
    assert_eq!(context.surface, 33);
}

#[test]
fn new_then_destroy_is_clean() {
    let ctx = painting_context();
    let mut surface = NativeSurface::new(&ctx, Size2D::new(64, 64), 256, 9).unwrap();
    assert!(!surface.leaks_on_drop());
    let released = surface.destroy(&ctx);
    assert_eq!(released, Some(9));
    assert_eq!(surface.get_id(), 0);
    assert!(!surface.leaks_on_drop());
}

#[test]
fn destroy_twice_is_destroy_once() {
    let ctx = painting_context();
    let mut surface = NativeSurface::new(&ctx, Size2D::new(64, 64), 256, 9).unwrap();
    let first = surface.destroy(&ctx);
    assert_eq!(first, Some(9));
    let second = surface.destroy(&ctx);
    assert_eq!(second, None);
    assert_eq!(surface.get_id(), 0);
    assert!(!surface.leaks_on_drop());
}

#[test]
fn from_handle_is_leak_flagged_until_marked() {
    let surface = NativeSurface::from_image_khr(42);
    assert!(surface.leaks_on_drop());

    let mut marked = NativeSurface::from_image_khr(42);
    marked.mark_wont_leak();
    assert!(!marked.leaks_on_drop());
    assert_eq!(marked.get_id(), 42);
}

#[test]
fn mark_will_leak_sets_the_flag_back() {
    let ctx = painting_context();
    let mut surface = NativeSurface::new(&ctx, Size2D::new(8, 8), 8, 5).unwrap();
    assert!(!surface.leaks_on_drop());
    surface.mark_will_leak();
    assert!(surface.leaks_on_drop());
    surface.mark_wont_leak();
    assert!(!surface.leaks_on_drop());
}

#[test]
fn get_id_is_nonzero_when_allocated_and_zero_when_absent() {
    let ctx = painting_context();
    let surface = NativeSurface::new(&ctx, Size2D::new(64, 64), 256, 9).unwrap();
    assert_ne!(surface.get_id(), 0);
    assert_eq!(surface.get_id(), 9);

    let absent = NativeSurface::from_image_khr(0);
    assert_eq!(absent.get_id(), 0);
}

#[test]
fn id_round_trip_reaches_the_same_buffer() {
    let ctx = painting_context();
    let surface = NativeSurface::new(&ctx, Size2D::new(64, 64), 256, 9).unwrap();
    let id = surface.get_id();

    let received = NativeSurface::from_image_khr(id);
    assert_eq!(received.get_id(), id);
    assert!(received.leaks_on_drop());

    let compositing = NativeCompositingGraphicsContext::new(1, 2, 3);
    let bound_here = surface.bind_to_texture(&compositing, Size2D::new(64, 64));
    let bound_there = received.bind_to_texture(&compositing, Size2D::new(64, 64));
    assert_eq!(bound_here, Ok(9));
    assert_eq!(bound_there, Ok(9));
}

#[test]
fn scenario_upload_transport_and_bind() {
    let ctx = painting_context();
    // 64 x 64 pixels, 4 bytes per pixel: 256 bytes of stride, 16 KB in all.
    let mut surface = NativeSurface::new(&ctx, Size2D::new(64, 64), 256, 12).unwrap();
    let pixels: Vec<u8> = vec![0xAB; 16384];
    assert_eq!(surface.upload(&ctx, &pixels), Ok(()));

    let id = surface.get_id();
    surface.mark_wont_leak();

    let mut received = NativeSurface::from_image_khr(id);
    let compositing = NativeCompositingGraphicsContext::new(1, 2, 3);
    assert_eq!(received.bind_to_texture(&compositing, Size2D::new(64, 64)), Ok(12));

    let released = received.destroy(&ctx);
    assert_eq!(released, Some(12));
    assert!(!received.leaks_on_drop());
}

#[test]
fn bind_with_no_handle_is_an_explicit_error() {
    let wrapped_null = NativeSurface::from_image_khr(0);
    let compositing = NativeCompositingGraphicsContext::new(1, 2, 3);
    let bound = wrapped_null.bind_to_texture(&compositing, Size2D::new(64, 64));
    assert_eq!(bound, Err(SurfaceError::NoNativeHandle));
}

#[test]
fn new_rejects_meaningless_geometry() {
    let ctx = painting_context();
    let zero_width = NativeSurface::new(&ctx, Size2D::new(0, 64), 256, 9);
    assert_eq!(zero_width, Err(SurfaceError::InvalidGeometry));
    let zero_height = NativeSurface::new(&ctx, Size2D::new(64, 0), 256, 9);
    assert_eq!(zero_height, Err(SurfaceError::InvalidGeometry));
    let narrow_stride = NativeSurface::new(&ctx, Size2D::new(64, 64), 63, 9);
    assert_eq!(narrow_stride, Err(SurfaceError::InvalidGeometry));
    let negative = NativeSurface::new(&ctx, Size2D::new(-1, 64), 256, 9);
    assert_eq!(negative, Err(SurfaceError::InvalidGeometry));
}

#[test]
fn new_surfaces_a_failed_allocation() {
    let ctx = painting_context();
    let failed = NativeSurface::new(&ctx, Size2D::new(64, 64), 256, 0);
    assert_eq!(failed, Err(SurfaceError::AllocationFailed));
}

#[test]
fn upload_checks_the_buffer_shape() {
    let ctx = painting_context();
    let surface = NativeSurface::new(&ctx, Size2D::new(64, 64), 256, 9).unwrap();

    let short: Vec<u8> = vec![0; 16383];
    assert_eq!(surface.upload(&ctx, &short), Err(SurfaceError::WrongDataLength));
    let long: Vec<u8> = vec![0; 16385];
    assert_eq!(surface.upload(&ctx, &long), Err(SurfaceError::WrongDataLength));
    let exact: Vec<u8> = vec![0; 16384];
    assert_eq!(surface.upload(&ctx, &exact), Ok(()));
}

#[test]
fn upload_into_a_wrapped_handle_is_an_explicit_error() {
    let ctx = painting_context();
    let wrapped = NativeSurface::from_image_khr(42);
    let data: Vec<u8> = vec![0; 16384];
    assert_eq!(wrapped.upload(&ctx, &data), Err(SurfaceError::UnknownGeometry));
}

#[test]
fn upload_after_destroy_is_an_explicit_error() {
    let ctx = painting_context();
    let mut surface = NativeSurface::new(&ctx, Size2D::new(64, 64), 256, 9).unwrap();
    surface.destroy(&ctx);
    let data: Vec<u8> = vec![0; 16384];
    assert_eq!(surface.upload(&ctx, &data), Err(SurfaceError::NoNativeHandle));
}

#[test]
fn byte_len_is_stride_times_height() {
    let geometry = SurfaceGeometry { size: Size2D::new(64, 64), stride: 256 };
    assert!(geometry.valid());
    assert_eq!(geometry.byte_len(), 16384);

    let tight = SurfaceGeometry { size: Size2D::new(3, 2), stride: 3 };
    assert!(tight.valid());
    assert_eq!(tight.byte_len(), 6);
}

#[test]
fn config_request_asks_for_eight_bit_rgba() {
    let request = layers::config::rgba8_config_request();
    assert_eq!(
        request,
        vec![0x3024, 8, 0x3023, 8, 0x3022, 8, 0x3021, 8, 0x3038]
    );
}
