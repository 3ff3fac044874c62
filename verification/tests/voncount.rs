use voncount::ByteSink;
use voncount::ByteSource;
use voncount::Counter;
use voncount::FailingStream;
use voncount::MemReader;
use voncount::ReadCounter;
use voncount::StreamError;
use voncount::WriteCounter;

#[test]
fn read() {
    let data = vec![1u8, 2u8, 3u8];
    let mut r = ReadCounter::from(MemReader::new(data.clone()));

    for (i, v) in data.iter().enumerate() {
        let mut b = vec![0u8];

        assert_eq!(r.read(&mut b).unwrap(), 1);
        assert_eq!(r.count(), i + 1);
        assert_eq!(b[0], *v);
    }
}

#[test]
fn write() {
    let data = vec![1u8, 2u8, 3u8];
    let mut w = WriteCounter::from(Vec::<u8>::new());

    for (i, v) in data.iter().enumerate() {
        assert_eq!(w.write(&vec![*v]).unwrap(), 1);
        assert_eq!(w.count(), i + 1);
    }

    let b = w.into_inner();
    assert_eq!(&b[..], &data[..]);
}

#[test]
fn fresh_read_counter_counts_zero() {
    let r = ReadCounter::from(MemReader::new(vec![9u8, 9u8]));
    assert_eq!(r.count(), 0);
}

#[test]
fn fresh_write_counter_counts_zero() {
    let w = WriteCounter::from(Vec::<u8>::new());
    assert_eq!(w.count(), 0);
}

#[test]
fn read_counts_accumulate() {
    let mut r = ReadCounter::from(MemReader::new(vec![5u8, 6u8, 7u8, 8u8, 9u8]));

    let mut two = vec![0u8, 0u8];
    assert_eq!(r.read(&mut two).unwrap(), 2);
    assert_eq!(r.count(), 2);

    let mut one = vec![0u8];
    assert_eq!(r.read(&mut one).unwrap(), 1);
    assert_eq!(r.count(), 3);

    let mut rest = vec![0u8, 0u8, 0u8, 0u8];
    assert_eq!(r.read(&mut rest).unwrap(), 2);
    assert_eq!(r.count(), 5);
}

#[test]
fn write_counts_accumulate() {
    let mut w = WriteCounter::from(Vec::<u8>::new());

    assert_eq!(w.write(&vec![1u8, 2u8, 3u8]).unwrap(), 3);
    assert_eq!(w.count(), 3);
    assert_eq!(w.write(&vec![4u8, 5u8]).unwrap(), 2);
    assert_eq!(w.count(), 5);

    let sink = w.into_inner();
    assert_eq!(sink, vec![1u8, 2u8, 3u8, 4u8, 5u8]);
}

#[test]
fn read_passes_bytes_through_unaltered() {
    let data = vec![10u8, 20u8, 30u8, 40u8];
    let mut r = ReadCounter::from(MemReader::new(data.clone()));

    let mut buf = vec![0u8; 6];
    assert_eq!(r.read(&mut buf).unwrap(), 4);
    assert_eq!(r.count(), 4);
    assert_eq!(&buf[..4], &data[..]);
    assert_eq!(&buf[4..], &[0u8, 0u8]);
}

#[test]
fn read_exhausted_returns_zero_and_keeps_count() {
    let mut r = ReadCounter::from(MemReader::new(vec![1u8]));

    let mut buf = vec![0u8, 0u8];
    assert_eq!(r.read(&mut buf).unwrap(), 1);
    assert_eq!(r.count(), 1);

    assert_eq!(r.read(&mut buf).unwrap(), 0);
    assert_eq!(r.count(), 1);
}

#[test]
fn read_empty_source_returns_zero() {
    let mut r = ReadCounter::from(MemReader::new(Vec::new()));

    let mut buf = vec![0u8, 0u8];
    assert_eq!(r.read(&mut buf).unwrap(), 0);
    assert_eq!(r.count(), 0);
}

#[test]
fn failed_read_leaves_count_and_buffer() {
    let mut r = ReadCounter::from(FailingStream);

    let mut buf = vec![42u8];
    assert_eq!(r.read(&mut buf).unwrap_err(), StreamError);
    assert_eq!(r.count(), 0);
    assert_eq!(buf, vec![42u8]);
}

#[test]
fn failed_write_leaves_count() {
    let mut w = WriteCounter::from(FailingStream);

    assert_eq!(w.write(&vec![1u8, 2u8]).unwrap_err(), StreamError);
    assert_eq!(w.count(), 0);
}

#[test]
fn failed_flush_leaves_count() {
    let mut w = WriteCounter::from(FailingStream);

    assert_eq!(w.flush().unwrap_err(), StreamError);
    assert_eq!(w.count(), 0);
}

#[test]
fn flush_delegates_without_counting() {
    let mut w = WriteCounter::from(Vec::<u8>::new());

    assert_eq!(w.write(&vec![7u8, 8u8]).unwrap(), 2);
    assert!(w.flush().is_ok());
    assert_eq!(w.count(), 2);
    assert_eq!(w.into_inner(), vec![7u8, 8u8]);
}

#[test]
fn read_counters_stack() {
    let inner = ReadCounter::from(MemReader::new(vec![1u8, 2u8, 3u8]));
    let mut outer = ReadCounter::from(inner);

    let mut buf = vec![0u8, 0u8];
    assert_eq!(outer.read(&mut buf).unwrap(), 2);
    assert_eq!(outer.count(), 2);
    assert_eq!(&buf[..], &[1u8, 2u8]);

    let inner = outer.into_inner();
    assert_eq!(inner.count(), 2);
}

#[test]
fn write_counters_stack() {
    let inner = WriteCounter::from(Vec::<u8>::new());
    let mut outer = WriteCounter::from(inner);

    assert_eq!(outer.write(&vec![4u8, 5u8, 6u8]).unwrap(), 3);
    assert_eq!(outer.count(), 3);

    let inner = outer.into_inner();
    assert_eq!(inner.count(), 3);
    assert_eq!(inner.into_inner(), vec![4u8, 5u8, 6u8]);
}

#[test]
fn write_empty_buffer_counts_nothing() {
    let mut w = WriteCounter::from(Vec::<u8>::new());

    assert_eq!(w.write(&Vec::new()).unwrap(), 0);
    assert_eq!(w.count(), 0);
    assert!(w.into_inner().is_empty());
}
