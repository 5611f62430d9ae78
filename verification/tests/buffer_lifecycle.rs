//! The element buffer lifecycle, exercised against the recording context:
//! creation, fills that fully replace the contents, counts, and exactly
//! one deletion per created handle.

use three_d_core::context::RecordingContext;
use three_d_core::element_buffer::ElementBuffer;
use three_d_core::error::CoreError;

#[test]
fn new_buffer_is_empty() {
    let mut ctx = RecordingContext::new();
    let buffer = ElementBuffer::<u8>::new(&mut ctx).unwrap();
    assert_eq!(buffer.count(), 0);
    assert_eq!(buffer.triangle_count(), 0);
    assert_eq!(ctx.upload_count(), 0);
    buffer.destroy(&mut ctx);
}

#[test]
fn two_triangles_sharing_an_edge() {
    let mut ctx = RecordingContext::new();
    let data: Vec<u8> = vec![0, 1, 2, 0, 2, 3];
    let buffer = ElementBuffer::<u8>::new_with_data(&mut ctx, &data).unwrap();
    assert_eq!(buffer.count(), 6);
    assert_eq!(buffer.triangle_count(), 2);
    assert_eq!(ctx.upload_count(), 1);
    assert_eq!(ctx.upload_payload(0).as_slice(), &[0u8, 1, 2, 0, 2, 3]);
    buffer.destroy(&mut ctx);
}

#[test]
fn empty_data_skips_the_upload() {
    let mut ctx = RecordingContext::new();
    let data: Vec<u16> = Vec::new();
    let buffer = ElementBuffer::<u16>::new_with_data(&mut ctx, &data).unwrap();
    assert_eq!(buffer.count(), 0);
    assert_eq!(ctx.upload_count(), 0);
    buffer.destroy(&mut ctx);
}

#[test]
fn second_fill_fully_replaces_the_first() {
    let mut ctx = RecordingContext::new();
    let mut buffer = ElementBuffer::<u16>::new(&mut ctx).unwrap();
    let first: Vec<u16> = vec![9, 9, 9];
    let second: Vec<u16> = vec![4, 5, 6, 7, 8, 9];
    buffer.fill(&mut ctx, &first).unwrap();
    assert_eq!(buffer.count(), 3);
    buffer.fill(&mut ctx, &second).unwrap();
    assert_eq!(buffer.count(), 6);
    assert_eq!(buffer.triangle_count(), 2);
    assert_eq!(ctx.upload_count(), 2);
    assert_eq!(
        ctx.upload_payload(1).as_slice(),
        &[4u8, 0, 5, 0, 6, 0, 7, 0, 8, 0, 9, 0]
    );
    buffer.destroy(&mut ctx);
}

#[test]
fn seventy_thousand_indices_with_two_byte_encoding() {
    let mut ctx = RecordingContext::new();
    let data: Vec<u16> = (0..70000u32).map(|i| (i % 65536) as u16).collect();
    let buffer = ElementBuffer::<u16>::new_with_data(&mut ctx, &data).unwrap();
    assert_eq!(buffer.count(), 70000);
    assert_eq!(buffer.triangle_count(), 70000 / 3);
    assert_eq!(ctx.upload_payload(0).len(), 140000);
    buffer.destroy(&mut ctx);
}

#[test]
fn create_and_destroy_issue_exactly_one_delete_each() {
    let mut ctx = RecordingContext::new();
    let rounds = 10usize;
    for _ in 0..rounds {
        let buffer = ElementBuffer::<u32>::new(&mut ctx).unwrap();
        buffer.destroy(&mut ctx);
    }
    assert_eq!(ctx.delete_count(), rounds);
    for i in 0..rounds {
        // Handles are numbered in creation order, and each is deleted once.
        assert_eq!(ctx.deleted_handle(i), i as u32);
        assert!(!ctx.is_live(i as u32));
    }
    assert_eq!(ctx.upload_count(), 0);
}

#[test]
fn fill_leaves_the_binding_point_clear() {
    let mut ctx = RecordingContext::new();
    let mut buffer = ElementBuffer::<u8>::new(&mut ctx).unwrap();
    let data: Vec<u8> = vec![0, 1, 2];
    buffer.fill(&mut ctx, &data).unwrap();
    // The upload went to this buffer, yet nothing stays bound afterwards.
    assert_eq!(ctx.bound_buffer(), None);
    let handle = ctx.upload_target(0);
    buffer.bind(&mut ctx);
    assert_eq!(ctx.bound_buffer(), Some(handle));
    buffer.destroy(&mut ctx);
    // Deleting the bound buffer clears the binding point again.
    assert_eq!(ctx.bound_buffer(), None);
}

#[test]
fn refused_allocation_surfaces_a_creation_error() {
    let mut ctx = RecordingContext::new();
    ctx.refuse_allocations();
    let r = ElementBuffer::<u8>::new(&mut ctx);
    assert!(matches!(r, Err(CoreError::BufferCreation(_))));
    assert_eq!(ctx.delete_count(), 0);
}

#[test]
fn accumulated_error_is_surfaced_by_fill() {
    let mut ctx = RecordingContext::new();
    let mut buffer = ElementBuffer::<u8>::new(&mut ctx).unwrap();
    ctx.inject_error("out of memory".to_string());
    let data: Vec<u8> = vec![0, 1, 2];
    let r = buffer.fill(&mut ctx, &data);
    assert!(matches!(r, Err(CoreError::ContextError(_))));
    // The count reflects the fill even though the check failed afterwards.
    assert_eq!(buffer.count(), 3);
    buffer.destroy(&mut ctx);
}

#[test]
fn failed_fill_during_creation_releases_the_buffer() {
    let mut ctx = RecordingContext::new();
    ctx.inject_error("invalid enum".to_string());
    let data: Vec<u8> = vec![0, 1, 2];
    let r = ElementBuffer::<u8>::new_with_data(&mut ctx, &data);
    assert!(matches!(r, Err(CoreError::ContextError(_))));
    // The half-built buffer was deleted on the error path: nothing leaks.
    assert_eq!(ctx.delete_count(), 1);
    assert!(!ctx.is_live(ctx.deleted_handle(0)));
}

#[test]
fn error_messages_are_passed_through() {
    let mut ctx = RecordingContext::new();
    let mut buffer = ElementBuffer::<u8>::new(&mut ctx).unwrap();
    ctx.inject_error("backend says no".to_string());
    let data: Vec<u8> = vec![1, 2, 3];
    match buffer.fill(&mut ctx, &data) {
        Err(e) => assert_eq!(e.message(), "backend says no"),
        Ok(()) => panic!("the injected error was not surfaced"),
    }
    buffer.destroy(&mut ctx);
}
