use std::io::Cursor;

use librespot_player::subfile::{logical_position, translate_seek, SeekSpec, Subfile};

/// A stream whose every operation faults, to drive the error paths.
struct FailingStream;

impl std::io::Read for FailingStream {
    fn read(&mut self, _buf: &mut [u8]) -> std::io::Result<usize> {
        Err(std::io::Error::new(std::io::ErrorKind::Other, "broken"))
    }
}

impl std::io::Seek for FailingStream {
    fn seek(&mut self, _pos: std::io::SeekFrom) -> std::io::Result<u64> {
        Err(std::io::Error::new(std::io::ErrorKind::Other, "broken"))
    }
}

/// A stream that seeks but never reads, to reach a read fault after a
/// successful construction.
struct ReadlessStream;

impl std::io::Read for ReadlessStream {
    fn read(&mut self, _buf: &mut [u8]) -> std::io::Result<usize> {
        Err(std::io::Error::new(std::io::ErrorKind::Other, "no data"))
    }
}

impl std::io::Seek for ReadlessStream {
    fn seek(&mut self, pos: std::io::SeekFrom) -> std::io::Result<u64> {
        match pos {
            std::io::SeekFrom::Start(p) => Ok(p),
            _ => Ok(0),
        }
    }
}

fn numbered_buffer(len: usize) -> Vec<u8> {
    (0..len).map(|i| (i % 256) as u8).collect()
}

fn read_exact_chunk<T: std::io::Read + std::io::Seek>(
    sub: &mut Subfile<T>,
    len: usize,
) -> Vec<u8> {
    let mut buf = vec![0u8; len];
    let n = sub.read(&mut buf).expect("read failed");
    buf.truncate(n);
    buf
}

#[test]
fn zero_offset_reads_from_the_start() {
    let data = numbered_buffer(32);
    let mut sub = Subfile::new(Cursor::new(data.clone()), 0).expect("construction failed");
    let got = read_exact_chunk(&mut sub, 8);
    assert_eq!(got, data[0..8].to_vec());
}

#[test]
fn absolute_seek_reads_offset_shifted_bytes() {
    let data = numbered_buffer(64);
    let mut sub = Subfile::new(Cursor::new(data.clone()), 7).expect("construction failed");
    let reported = sub.seek(SeekSpec::Start(3)).expect("seek failed");
    assert_eq!(reported, 3);
    let got = read_exact_chunk(&mut sub, 4);
    assert_eq!(got, data[10..14].to_vec());
}

#[test]
fn seek_to_logical_zero_after_construction_is_noop() {
    let data = numbered_buffer(32);
    let mut sub = Subfile::new(Cursor::new(data.clone()), 5).expect("construction failed");
    let reported = sub.seek(SeekSpec::Start(0)).expect("seek failed");
    assert_eq!(reported, 0);
    let got = read_exact_chunk(&mut sub, 4);
    assert_eq!(got, data[5..9].to_vec());
}

#[test]
fn relative_seek_moves_by_exactly_the_displacement() {
    let data = numbered_buffer(64);
    let mut sub = Subfile::new(Cursor::new(data.clone()), 10).expect("construction failed");
    let reported = sub.seek(SeekSpec::Current(5)).expect("seek failed");
    assert_eq!(reported, 5);
    let got = read_exact_chunk(&mut sub, 4);
    assert_eq!(got, data[15..19].to_vec());
}

#[test]
fn seek_before_the_header_reports_zero() {
    let data = numbered_buffer(64);
    let mut sub = Subfile::new(Cursor::new(data), 10).expect("construction failed");
    let reported = sub.seek(SeekSpec::Current(-7)).expect("seek failed");
    assert_eq!(reported, 0);
}

#[test]
fn seek_from_end_reports_logical_position() {
    let data = numbered_buffer(20);
    let mut sub = Subfile::new(Cursor::new(data.clone()), 5).expect("construction failed");
    let reported = sub.seek(SeekSpec::End(-3)).expect("seek failed");
    assert_eq!(reported, 12);
    let got = read_exact_chunk(&mut sub, 3);
    assert_eq!(got, data[17..20].to_vec());
}

#[test]
fn thousand_byte_scenario_with_real_header_size() {
    let data = numbered_buffer(1000);
    let mut sub = Subfile::new(Cursor::new(data.clone()), 167).expect("construction failed");
    let reported = sub.seek(SeekSpec::Start(10)).expect("seek failed");
    assert_eq!(reported, 10);
    let got = read_exact_chunk(&mut sub, 5);
    assert_eq!(got, data[177..182].to_vec());
}

#[test]
fn read_at_end_of_stream_returns_zero() {
    let data = numbered_buffer(10);
    let mut sub = Subfile::new(Cursor::new(data), 10).expect("construction failed");
    let mut buf = vec![0u8; 4];
    let n = sub.read(&mut buf).expect("read failed");
    assert_eq!(n, 0);
}

#[test]
fn construction_fails_when_the_first_seek_fails() {
    assert!(Subfile::new(FailingStream, 167).is_err());
}

#[test]
fn read_fault_passes_through() {
    let mut sub = Subfile::new(ReadlessStream, 3).expect("construction failed");
    let err = sub.read(&mut vec![0u8; 2]).expect_err("read should fault");
    assert_eq!(err.inner.kind(), std::io::ErrorKind::Other);
}

#[test]
fn translate_seek_shifts_only_absolute_requests() {
    assert_eq!(translate_seek(SeekSpec::Start(10), 167), SeekSpec::Start(177));
    assert_eq!(translate_seek(SeekSpec::Start(0), 42), SeekSpec::Start(42));
    assert_eq!(
        translate_seek(SeekSpec::Current(5), 167),
        SeekSpec::Current(5)
    );
    assert_eq!(
        translate_seek(SeekSpec::Current(-5), 167),
        SeekSpec::Current(-5)
    );
    assert_eq!(translate_seek(SeekSpec::End(-3), 167), SeekSpec::End(-3));
}

#[test]
fn logical_position_never_underflows() {
    assert_eq!(logical_position(177, 167), 10);
    assert_eq!(logical_position(167, 167), 0);
    assert_eq!(logical_position(3, 167), 0);
    assert_eq!(logical_position(0, 0), 0);
    assert_eq!(logical_position(5, 0), 5);
}
