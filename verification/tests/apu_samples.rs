use graycart::apu::sample_buffer::{
    SampleBuffer, HOST_SAMPLE_RATE, SAMPLE_BUFFER_CAP, SAMPLE_BUFFER_DROP,
};

#[test]
fn host_rate_and_cap_are_one_second() {
    assert_eq!(HOST_SAMPLE_RATE, 48_000);
    assert_eq!(SAMPLE_BUFFER_CAP, 48_000);
    assert_eq!(SAMPLE_BUFFER_DROP, SAMPLE_BUFFER_CAP / 4);
}

#[test]
fn push_and_drain_keep_order() {
    let mut b: SampleBuffer<u32> = SampleBuffer::new();
    assert!(b.is_empty());
    b.push(1);
    b.push(2);
    b.push(3);
    assert_eq!(b.len(), 3);
    assert_eq!(b.drain(), vec![1, 2, 3]);
    assert!(b.is_empty());
    assert_eq!(b.drain(), Vec::<u32>::new());
}

#[test]
fn full_buffer_drops_oldest_quarter() {
    let mut b: SampleBuffer<u32> = SampleBuffer::new();
    for i in 0..SAMPLE_BUFFER_CAP as u32 {
        b.push(i);
    }
    assert_eq!(b.len(), SAMPLE_BUFFER_CAP);
    b.push(999_999);
    assert_eq!(b.len(), SAMPLE_BUFFER_CAP - SAMPLE_BUFFER_DROP + 1);
    let out = b.drain();
    assert_eq!(out[0], SAMPLE_BUFFER_DROP as u32);
    assert_eq!(*out.last().unwrap(), 999_999);
}
