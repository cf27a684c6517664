use cryogen::{Error, Source, StreamRead};

/// A stream over an in-memory byte buffer, standing in for an open file.
struct MemReader {
    data: Vec<u8>,
    pos: usize,
}

impl MemReader {
    fn new(data: &[u8]) -> MemReader {
        MemReader {
            data: data.to_vec(),
            pos: 0,
        }
    }
}

impl StreamRead for MemReader {
    fn read_bytes(&mut self, buf: &mut Vec<u8>) -> Result<usize, String> {
        let n = std::cmp::min(buf.len(), self.data.len() - self.pos);
        for i in 0..n {
            buf[i] = self.data[self.pos + i];
        }
        self.pos += n;
        Ok(n)
    }

    fn read_all(&mut self) -> Result<String, String> {
        let rest = &self.data[self.pos..];
        self.pos = self.data.len();
        String::from_utf8(rest.to_vec()).map_err(|e| e.to_string())
    }
}

/// A stream that always fails.
struct BrokenReader;

impl StreamRead for BrokenReader {
    fn read_bytes(&mut self, _buf: &mut Vec<u8>) -> Result<usize, String> {
        Err("broken pipe".to_string())
    }

    fn read_all(&mut self) -> Result<String, String> {
        Err("broken pipe".to_string())
    }
}

#[test]
fn test_raw_consume_returns_the_literal() {
    let src: Source<MemReader> = Source::Raw("hello world", 0);
    assert_eq!(src.consume().unwrap(), "hello world");
}

#[test]
fn test_raw_consume_ignores_the_cursor() {
    let src: Source<MemReader> = Source::Raw("hello", 3);
    assert_eq!(src.consume().unwrap(), "hello");
}

#[test]
fn test_raw_incremental_reads_reconstruct_small_buffer() {
    let mut src: Source<MemReader> = Source::Raw("abcdef", 0);
    let mut out: Vec<u8> = Vec::new();
    let mut buf = vec![0u8; 2];
    loop {
        let n = src.read(&mut buf).unwrap();
        if n == 0 {
            break;
        }
        out.extend_from_slice(&buf[..n]);
    }
    assert_eq!(out, b"abcdef");
}

#[test]
fn test_raw_incremental_read_large_buffer() {
    let mut src: Source<MemReader> = Source::Raw("abc", 0);
    let mut buf = vec![0u8; 16];
    let n = src.read(&mut buf).unwrap();
    assert_eq!(n, 3);
    assert_eq!(&buf[..3], b"abc");
    assert_eq!(src.read(&mut buf).unwrap(), 0);
}

#[test]
fn test_raw_incremental_read_empty_buffer() {
    let mut src: Source<MemReader> = Source::Raw("abc", 0);
    let mut buf: Vec<u8> = Vec::new();
    assert_eq!(src.read(&mut buf).unwrap(), 0);
    let mut big = vec![0u8; 8];
    assert_eq!(src.read(&mut big).unwrap(), 3);
}

#[test]
fn test_raw_read_to_end_chunked() {
    for chunk in [1usize, 2, 3, 7, 64] {
        let mut src: Source<MemReader> = Source::Raw("incremental", 0);
        let out = src.read_to_end(chunk).unwrap();
        assert_eq!(out, b"incremental");
    }
}

#[test]
fn test_raw_read_to_end_respects_cursor() {
    let mut src: Source<MemReader> = Source::Raw("abcdef", 2);
    let out = src.read_to_end(4).unwrap();
    assert_eq!(out, b"cdef");
}

#[test]
fn test_file_consume_drains_the_stream() {
    let src = Source::File(MemReader::new(b"from a file"));
    assert_eq!(src.consume().unwrap(), "from a file");
}

#[test]
fn test_file_read_forwards_to_the_stream() {
    let mut src = Source::File(MemReader::new(b"xyz"));
    let mut buf = vec![0u8; 2];
    assert_eq!(src.read(&mut buf).unwrap(), 2);
    assert_eq!(&buf[..], b"xy");
    assert_eq!(src.read(&mut buf).unwrap(), 1);
    assert_eq!(buf[0], b'z');
    assert_eq!(src.read(&mut buf).unwrap(), 0);
}

#[test]
fn test_file_errors_become_io_errors() {
    let src = Source::File(BrokenReader);
    match src.consume() {
        Err(Error::IoError(msg)) => assert_eq!(msg, "broken pipe"),
        _ => panic!("expected an I/O error"),
    }
    let mut src2 = Source::File(BrokenReader);
    let mut buf = vec![0u8; 4];
    assert!(matches!(src2.read(&mut buf), Err(Error::IoError(_))));
}
