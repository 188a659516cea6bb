use web_rwkv_tensor::num::{decode, encode};
use web_rwkv_tensor::{
    Context, ReadBack, ReadWrite, Shape, TensorCpu, TensorError, TensorGpu, TensorSlice,
};

#[test]
fn shape_len_and_empty() {
    let s = Shape::new(4, 4, 4);
    assert_eq!(s.len(), 64);
    assert!(!s.is_empty());
    let e = Shape::new(0, 2, 3);
    assert_eq!(e.len(), 0);
    assert!(e.is_empty());
}

#[test]
fn shape_index_row_major() {
    let s = Shape::new(4, 4, 4);
    assert_eq!(s.shape_index(Shape::new(0, 0, 0)), 0);
    assert_eq!(s.shape_index(Shape::new(1, 0, 0)), 1);
    assert_eq!(s.shape_index(Shape::new(0, 1, 0)), 4);
    assert_eq!(s.shape_index(Shape::new(0, 0, 1)), 16);
    assert_eq!(s.shape_index(Shape::new(1, 2, 3)), 57);
}

#[test]
fn shape_fixed_width_encoding() {
    let s = Shape::new(2, 3, 4);
    assert_eq!(s.to_u32_slice(), [2, 3, 4, 1]);
}

#[test]
fn from_data_size_mismatch() {
    let mut context = Context::new(0);
    let shape = Shape::new(2, 2, 1);
    let r: Result<TensorCpu<u32, ReadWrite>, TensorError> =
        TensorCpu::from_data(&mut context, shape, vec![1, 2, 3]);
    assert_eq!(r.err(), Some(TensorError::Size(4, 3)));
}

#[test]
fn from_data_round_trip() {
    let mut context = Context::new(0);
    let shape = Shape::new(2, 2, 1);
    let data = vec![1u32, 2, 3, 4];
    let t: TensorCpu<u32, ReadWrite> =
        TensorCpu::from_data(&mut context, shape, data.clone()).unwrap();
    assert_eq!(t.shape(), shape);
    assert_eq!(t.len(), 4);
    assert_eq!(t.size(), 16);
    assert_eq!(t.into_vec(), data);
}

#[test]
fn from_slice_copies() {
    let mut context = Context::new(0);
    let shape = Shape::new(2, 1, 1);
    let backing = [5u8, 6];
    let t: TensorCpu<u8, ReadWrite> =
        TensorCpu::from_slice(&mut context, shape, &backing).unwrap();
    assert_eq!(t.data(), &vec![5u8, 6]);
}

#[test]
fn init_is_zero_filled() {
    let mut context = Context::new(0);
    let shape = Shape::new(2, 3, 1);
    let t: TensorCpu<u32, ReadWrite> = TensorCpu::init(&mut context, shape);
    assert_eq!(t.into_vec(), vec![0u32; 6]);
}

#[test]
fn zeros_and_ones() {
    let mut context = Context::new(0);
    let shape = Shape::new(3, 2, 1);
    let z: TensorCpu<u8, ReadWrite> = context.zeros(shape);
    assert_eq!(z.into_vec(), vec![0u8; 6]);
    let o: TensorCpu<u8, ReadWrite> = context.ones(shape);
    assert_eq!(o.into_vec(), vec![1u8; 6]);
    let i: TensorCpu<u32, ReadWrite> = context.init_tensor(shape);
    assert_eq!(i.into_vec(), vec![0u32; 6]);
    let d: TensorCpu<u32, ReadWrite> = context
        .tensor_from_data(shape, vec![9u32; 6])
        .unwrap();
    assert_eq!(d.into_vec(), vec![9u32; 6]);
    let s: TensorCpu<u32, ReadWrite> = context
        .tensor_from_slice(shape, &[7u32; 6])
        .unwrap();
    assert_eq!(s.into_vec(), vec![7u32; 6]);
}

fn counted_cube(context: &mut Context) -> TensorCpu<u32, ReadWrite> {
    let shape = Shape::new(4, 4, 4);
    let data: Vec<u32> = (0u32..64).collect();
    TensorCpu::from_data(context, shape, data).unwrap()
}

#[test]
fn host_slice_partial_outer_succeeds() {
    let mut context = Context::new(0);
    let t = counted_cube(&mut context);
    let s = t
        .into_slice(
            &mut context,
            TensorSlice::Full,
            TensorSlice::Full,
            TensorSlice::Span(0, 2),
        )
        .unwrap();
    assert_eq!(s.shape(), Shape::new(4, 4, 2));
    let expected: Vec<u32> = (0u32..32).collect();
    assert_eq!(s.into_vec(), expected);
}

#[test]
fn host_slice_interior_run_selects_right_elements() {
    let mut context = Context::new(0);
    let t = counted_cube(&mut context);
    let s = t
        .into_slice(
            &mut context,
            TensorSlice::Full,
            TensorSlice::Full,
            TensorSlice::Span(1, 3),
        )
        .unwrap();
    assert_eq!(s.shape(), Shape::new(4, 4, 2));
    let expected: Vec<u32> = (16u32..48).collect();
    assert_eq!(s.into_vec(), expected);
}

#[test]
fn host_slice_partial_inner_fails() {
    let mut context = Context::new(0);
    let t = counted_cube(&mut context);
    let r = t.into_slice(
        &mut context,
        TensorSlice::Span(0, 2),
        TensorSlice::Full,
        TensorSlice::Full,
    );
    assert_eq!(r.err(), Some(TensorError::SliceNotContiguous));
}

#[test]
fn host_slice_partial_middle_fails() {
    let mut context = Context::new(0);
    let t = counted_cube(&mut context);
    let r = t.into_slice(
        &mut context,
        TensorSlice::Full,
        TensorSlice::Span(1, 2),
        TensorSlice::Full,
    );
    assert_eq!(r.err(), Some(TensorError::SliceNotContiguous));
}

#[test]
fn slice_out_of_range_reports_bounds() {
    let mut context = Context::new(0);
    let t = counted_cube(&mut context);
    let r = t.into_slice(
        &mut context,
        TensorSlice::Span(2, 6),
        TensorSlice::Full,
        TensorSlice::Full,
    );
    assert_eq!(
        r.err(),
        Some(TensorError::SliceOutOfRange { dim: 4, start: 2, end: 6 })
    );
}

#[test]
fn slice_reversed_span_is_out_of_range() {
    let mut context = Context::new(0);
    let t = counted_cube(&mut context);
    let r = t.into_slice(
        &mut context,
        TensorSlice::Full,
        TensorSlice::Span(3, 1),
        TensorSlice::Full,
    );
    assert_eq!(
        r.err(),
        Some(TensorError::SliceOutOfRange { dim: 4, start: 3, end: 1 })
    );
}

#[test]
fn gpu_init_allocates_exact_byte_size() {
    let mut context = Context::new(0);
    let shape = Shape::new(2, 2, 2);
    let t: TensorGpu<u32, ReadWrite> = TensorGpu::init(&mut context, shape);
    assert_eq!(t.data().buffer.size(), 32);
    assert_eq!(t.data().offset, 0);
    assert_eq!(t.size(), 32);
    let b = t.binding();
    assert_eq!(b.offset, 0);
    assert_eq!(b.size, 32);
    assert_eq!(b.buffer, t.data().buffer);
    let sb = t.shape_binding();
    assert_eq!(sb.offset, 0);
    assert_eq!(sb.size, 16);
    assert_eq!(sb.buffer, t.data().shape_buffer);
}

#[test]
fn readback_of_fresh_buffer_is_zero() {
    let mut context = Context::new(0);
    let shape = Shape::new(2, 2, 2);
    let t: TensorGpu<u32, ReadBack> = TensorGpu::init(&mut context, shape);
    // A freshly allocated device buffer reads back as zeroes; decoding that
    // byte run must give zero elements.
    let bytes = vec![0u8; t.size()];
    let host = TensorCpu::from_readback(&mut context, &t, bytes).unwrap();
    assert_eq!(host.into_vec(), vec![0u32; 8]);
}

#[test]
fn readback_size_mismatch() {
    let mut context = Context::new(0);
    let shape = Shape::new(2, 2, 2);
    let t: TensorGpu<u32, ReadBack> = TensorGpu::init(&mut context, shape);
    let r = TensorCpu::from_readback(&mut context, &t, vec![0u8; 31]);
    assert_eq!(r.err(), Some(TensorError::Size(32, 31)));
}

#[test]
fn from_other_boundary() {
    let mut context = Context::new(0);
    let base: TensorGpu<u8, ReadWrite> = TensorGpu::init(&mut context, Shape::new(64, 1, 1));
    // One byte short of the capacity succeeds ...
    let inside = TensorGpu::from_other(&mut context, base.clone(), Shape::new(63, 1, 1), 0);
    let inside = inside.unwrap();
    assert_eq!(inside.shape(), Shape::new(63, 1, 1));
    assert_eq!(inside.data().offset, 0);
    assert_eq!(inside.data().buffer, base.data().buffer);
    // ... while exactly reaching it is rejected as an overflow.
    let boundary = TensorGpu::from_other(&mut context, base, Shape::new(64, 1, 1), 0);
    assert_eq!(
        boundary.err(),
        Some(TensorError::Overflow { buffer: 64, offset: 0, size: 64 })
    );
}

#[test]
fn gpu_slice_derives_offset() {
    let mut context = Context::new(0);
    let base: TensorGpu<u32, ReadWrite> = TensorGpu::init(&mut context, Shape::new(4, 4, 4));
    let view = base
        .clone()
        .into_slice(
            &mut context,
            TensorSlice::Full,
            TensorSlice::Full,
            TensorSlice::Span(1, 3),
        )
        .unwrap();
    assert_eq!(view.shape(), Shape::new(4, 4, 2));
    assert_eq!(view.data().offset, 64);
    assert_eq!(view.data().buffer, base.data().buffer);
    // The trailing slice reaches the capacity exactly and is rejected by
    // the strict boundary check.
    let tail = base.into_slice(
        &mut context,
        TensorSlice::Full,
        TensorSlice::Full,
        TensorSlice::Span(2, 4),
    );
    assert_eq!(
        tail.err(),
        Some(TensorError::Overflow { buffer: 256, offset: 128, size: 128 })
    );
}

#[test]
fn shape_cache_shares_within_a_session() {
    let mut context = Context::new(0);
    let shape = Shape::new(4, 4, 4);
    let a: TensorGpu<u32, ReadWrite> = TensorGpu::init(&mut context, shape);
    let b: TensorGpu<u32, ReadWrite> = TensorGpu::init(&mut context, shape);
    assert_eq!(a.data().shape_buffer, b.data().shape_buffer);
    let c: TensorGpu<u32, ReadWrite> = TensorGpu::init(&mut context, Shape::new(2, 2, 2));
    assert_ne!(a.data().shape_buffer, c.data().shape_buffer);
}

#[test]
fn ids_never_collide_across_sessions() {
    let mut first = Context::new(1);
    let mut second = Context::new(2);
    let shape = Shape::new(2, 1, 1);
    let a: TensorCpu<u32, ReadWrite> = first.zeros(shape);
    let b: TensorCpu<u32, ReadWrite> = second.zeros(shape);
    // Both are the first tensors of their sessions, yet their identities
    // differ: an identity names its issuing session.
    assert_eq!(a.id().index(), b.id().index());
    assert_ne!(a.id(), b.id());
    assert_eq!(a.id().session(), 1);
    assert_eq!(b.id().session(), 2);
}

#[test]
fn shape_cache_never_crosses_sessions() {
    let mut first = Context::new(1);
    let mut second = Context::new(2);
    let shape = Shape::new(4, 4, 4);
    let a: TensorGpu<u32, ReadWrite> = TensorGpu::init(&mut first, shape);
    let b: TensorGpu<u32, ReadWrite> = TensorGpu::init(&mut second, shape);
    assert_ne!(a.data().shape_buffer, b.data().shape_buffer);
}

#[test]
fn tensor_ids_strictly_increase() {
    let mut context = Context::new(0);
    let shape = Shape::new(2, 2, 1);
    let mut seen: Vec<u64> = Vec::new();
    let a: TensorCpu<u32, ReadWrite> = context.zeros(shape);
    seen.push(a.id().index());
    let b: TensorGpu<u32, ReadWrite> = TensorGpu::init(&mut context, shape);
    seen.push(b.id().index());
    let c = a
        .into_slice(
            &mut context,
            TensorSlice::Full,
            TensorSlice::Full,
            TensorSlice::Span(0, 1),
        )
        .unwrap();
    seen.push(c.id().index());
    let d: TensorCpu<u32, ReadWrite> =
        TensorCpu::from_data(&mut context, shape, vec![1, 2, 3, 4]).unwrap();
    seen.push(d.id().index());
    for w in seen.windows(2) {
        assert!(w[0] < w[1]);
    }
}

#[test]
fn upload_download_round_trip() {
    let mut context = Context::new(0);
    let shape = Shape::new(2, 2, 1);
    let data = vec![0x01020304u32, 5, 6, 0xFFFF_FFFF];
    let cpu: TensorCpu<u32, ReadBack> =
        TensorCpu::from_data(&mut context, shape, data.clone()).unwrap();
    let (gpu, bytes) = TensorGpu::from_cpu(&mut context, &cpu).unwrap();
    assert_eq!(bytes.len(), 16);
    assert_eq!(gpu.data().buffer.size(), 16);
    // The device copies the uploaded bytes back unchanged on download.
    let down = TensorCpu::from_readback(&mut context, &gpu, bytes).unwrap();
    assert_eq!(down.shape(), shape);
    assert_eq!(down.into_vec(), data);
}

#[test]
fn upload_encodes_little_endian() {
    let mut context = Context::new(0);
    let shape = Shape::new(1, 1, 1);
    let cpu: TensorCpu<u32, ReadWrite> =
        TensorCpu::from_data(&mut context, shape, vec![0x01020304]).unwrap();
    let (_, bytes) = TensorGpu::from_cpu(&mut context, &cpu).unwrap();
    assert_eq!(bytes, vec![0x04, 0x03, 0x02, 0x01]);
}

#[test]
fn gpu_from_data_checks_size() {
    let mut context = Context::new(0);
    let shape = Shape::new(2, 2, 1);
    let r = TensorGpu::<u32, ReadWrite>::from_data(&mut context, shape, vec![1, 2, 3]);
    assert_eq!(r.err(), Some(TensorError::Size(4, 3)));
    let ok = TensorGpu::<u32, ReadWrite>::from_slice(&mut context, shape, &[1, 2, 3, 4]).unwrap();
    assert_eq!(ok.1.len(), 16);
}

#[test]
fn device_mismatch_is_rejected() {
    let mut first = Context::new(1);
    let mut second = Context::new(2);
    let shape = Shape::new(2, 2, 1);
    let cpu: TensorCpu<u32, ReadWrite> = first.zeros(shape);
    let r = TensorGpu::from_cpu(&mut second, &cpu);
    assert_eq!(r.err(), Some(TensorError::DeviceError));
    let s = cpu.into_slice(
        &mut second,
        TensorSlice::Full,
        TensorSlice::Full,
        TensorSlice::Full,
    );
    assert_eq!(s.err(), Some(TensorError::DeviceError));
}

#[test]
fn codec_round_trips() {
    let data = vec![0u32, 1, 0xDEAD_BEEF, u32::MAX];
    let bytes = encode(&data);
    assert_eq!(bytes.len(), 16);
    assert_eq!(decode::<u32>(&bytes), data);
    let small = vec![9u8, 8, 7];
    assert_eq!(decode::<u8>(&encode(&small)), small);
}

#[test]
fn codec_u16_little_endian() {
    let data = vec![0x0102u16, 0xFFFE];
    let bytes = encode(&data);
    assert_eq!(bytes, vec![0x02, 0x01, 0xFE, 0xFF]);
    assert_eq!(decode::<u16>(&bytes), data);
}

#[test]
fn byte_offset_of_index() {
    assert_eq!(TensorCpu::<u32, ReadWrite>::offset(3), 12);
    assert_eq!(TensorGpu::<u8, ReadWrite>::offset(3), 3);
}

#[test]
fn clone_preserves_identity() {
    let mut context = Context::new(0);
    let shape = Shape::new(2, 1, 1);
    let t: TensorCpu<u32, ReadWrite> =
        TensorCpu::from_data(&mut context, shape, vec![1, 2]).unwrap();
    let c = t.clone();
    assert_eq!(c.id(), t.id());
    assert_eq!(c.data(), t.data());
}
