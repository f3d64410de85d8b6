use std::io::{self, Cursor, Read, Seek, Write};

use gpgme::callbacks::{seek_callback, seek_request, transfer_callback, CallbackWrapper, Reply};
use gpgme::data::{bytes_moved, position_reached, Data, SeekFrom};
use gpgme::error::Error;

/// Stands where the engine stands for a callback-backed data object: it
/// calls the stream object as the callbacks do, keeps the error number that
/// a failing callback names, and hands the returned value to the stream
/// facade.
struct Loopback<S> {
    ctx: CallbackWrapper<S>,
    errno: libc::c_int,
}

impl<S> Loopback<S> {
    fn new(ctx: CallbackWrapper<S>) -> Self {
        Loopback { ctx, errno: 0 }
    }

    fn keep(&mut self, errno: Option<libc::c_int>) {
        if let Some(errno) = errno {
            self.errno = errno;
        }
    }

    fn last_error(&self) -> Error {
        Error::new(gpg_error::Error::from_errno(self.errno).raw())
    }
}

impl<S: Read> Loopback<S> {
    fn read(&mut self, buf: &mut [u8]) -> Result<usize, Error> {
        assert!(self.ctx.cbs().read);
        let reply = transfer_callback(self.ctx.inner_mut().read(buf));
        self.keep(reply.errno);
        bytes_moved(reply.value).ok_or(self.last_error())
    }

    fn read_all(&mut self) -> Vec<u8> {
        let mut out = Vec::new();
        let mut buf = [0u8; 4];
        loop {
            match self.read(&mut buf) {
                Ok(0) => return out,
                Ok(n) => out.extend_from_slice(&buf[..n]),
                Err(e) => panic!("read failed: {:?}", e),
            }
        }
    }
}

impl<S: Write> Loopback<S> {
    fn write(&mut self, buf: &[u8]) -> Result<usize, Error> {
        assert!(self.ctx.cbs().write);
        let reply = transfer_callback(self.ctx.inner_mut().write(buf));
        self.keep(reply.errno);
        bytes_moved(reply.value).ok_or(self.last_error())
    }
}

impl<S: Seek> Loopback<S> {
    fn seek_native(&mut self, offset: libc::off_t, whence: libc::c_int) -> Result<u64, Error> {
        assert!(self.ctx.cbs().seek);
        let reply: Reply<libc::off_t> = match seek_request(offset, whence) {
            Ok(SeekFrom::Start(n)) => seek_callback(self.ctx.inner_mut().seek(io::SeekFrom::Start(n))),
            Ok(SeekFrom::End(n)) => seek_callback(self.ctx.inner_mut().seek(io::SeekFrom::End(n))),
            Ok(SeekFrom::Current(n)) => {
                seek_callback(self.ctx.inner_mut().seek(io::SeekFrom::Current(n)))
            }
            Err(reply) => reply,
        };
        self.keep(reply.errno);
        position_reached(reply.value).ok_or(self.last_error())
    }

    fn seek(&mut self, pos: SeekFrom) -> Result<u64, Error> {
        let (offset, whence) = pos.to_native();
        self.seek_native(offset, whence)
    }
}

struct Broken;

impl Read for Broken {
    fn read(&mut self, _: &mut [u8]) -> io::Result<usize> {
        Err(io::Error::new(io::ErrorKind::Other, "the reader always fails"))
    }
}

#[test]
fn reading_yields_the_bytes_and_then_the_end() {
    let mut data = Loopback::new(Data::from_reader(Cursor::new(b"hello".to_vec())));
    let mut buf = [0u8; 5];
    assert_eq!(data.read(&mut buf), Ok(5));
    assert_eq!(&buf, b"hello");
    assert_eq!(data.read(&mut buf), Ok(0));
    assert_eq!(data.errno, 0);
}

#[test]
fn short_reads_report_the_bytes_filled() {
    let mut data = Loopback::new(Data::from_reader(Cursor::new(b"hey".to_vec())));
    let mut buf = [0u8; 8];
    assert_eq!(data.read(&mut buf), Ok(3));
    assert_eq!(&buf[..3], b"hey");
    assert_eq!(data.read(&mut buf), Ok(0));
}

#[test]
fn written_bytes_read_back_after_a_seek_to_the_start() {
    let mut data = Loopback::new(Data::from_seekable_stream(Cursor::new(Vec::new())));
    assert_eq!(data.write(b"abc"), Ok(3));
    assert_eq!(data.seek(SeekFrom::Start(0)), Ok(0));
    let mut buf = [0u8; 3];
    assert_eq!(data.read(&mut buf), Ok(3));
    assert_eq!(&buf, b"abc");
}

#[test]
fn chunks_read_back_in_order() {
    let chunks: [&[u8]; 4] = [b"alpha", b"", b"beta-gamma", b"!"];
    let mut data = Loopback::new(Data::from_seekable_stream(Cursor::new(Vec::new())));
    let mut expected = Vec::new();
    for chunk in chunks {
        assert_eq!(data.write(chunk), Ok(chunk.len()));
        expected.extend_from_slice(chunk);
    }
    assert_eq!(data.seek(SeekFrom::Start(0)), Ok(0));
    assert_eq!(data.read_all(), expected);
}

#[test]
fn seeks_return_the_absolute_position() {
    let mut data = Loopback::new(Data::from_seekable_stream(Cursor::new(Vec::new())));
    assert_eq!(data.write(b"0123456789"), Ok(10));
    assert_eq!(data.seek(SeekFrom::Start(0)), Ok(0));
    assert_eq!(data.read_all(), b"0123456789");
    assert_eq!(data.seek(SeekFrom::End(0)), Ok(10));
    assert_eq!(data.read_all(), b"");
    assert_eq!(data.seek(SeekFrom::Start(4)), Ok(4));
    assert_eq!(data.read_all(), b"456789");
    assert_eq!(data.seek(SeekFrom::End(-3)), Ok(7));
    assert_eq!(data.seek(SeekFrom::Current(-2)), Ok(5));
    assert_eq!(data.read_all(), b"56789");
}

#[test]
fn a_seek_before_the_start_fails_with_invalid_argument() {
    let mut data = Loopback::new(Data::from_seekable_reader(Cursor::new(b"abc".to_vec())));
    let err = data.seek(SeekFrom::Current(-1)).unwrap_err();
    assert_eq!(data.errno, libc::EINVAL);
    assert_eq!(err.raw(), gpg_error::Error::EINVAL.raw());
}

#[test]
fn an_unknown_origin_fails_without_a_call_on_the_stream() {
    let mut data = Loopback::new(Data::from_seekable_reader(Cursor::new(b"abc".to_vec())));
    let mut buf = [0u8; 1];
    assert_eq!(data.read(&mut buf), Ok(1));
    let err = data.seek_native(0, 7).unwrap_err();
    assert_eq!(data.errno, libc::EINVAL);
    assert_eq!(err.raw(), gpg_error::Error::EINVAL.raw());
    assert_eq!(data.ctx.inner_mut().position(), 1);
}

#[test]
fn a_failing_reader_surfaces_a_translated_error() {
    let mut data = Loopback::new(Data::from_reader(Broken));
    let mut buf = [0u8; 16];
    let err = data.read(&mut buf).unwrap_err();
    assert_ne!(data.errno, 0);
    assert_eq!(data.errno, libc::EIO);
    assert_eq!(err.raw(), gpg_error::Error::EIO.raw());
    assert_ne!(err.raw(), 0);
}

#[test]
fn a_writer_that_is_full_reports_the_failure() {
    let mut backing = [0u8; 2];
    let mut data = Loopback::new(Data::from_writer(Cursor::new(&mut backing[..])));
    assert_eq!(data.write(b"ab"), Ok(2));
    assert_eq!(data.write(b"c"), Ok(0));
}

#[test]
fn bytes_read_from_a_borrowed_buffer_stay_as_read() {
    let mut backing = b"borrowed".to_vec();
    let mut first = [0u8; 4];
    {
        let mut data = Loopback::new(Data::from_reader(Cursor::new(&backing[..])));
        assert_eq!(data.read(&mut first), Ok(4));
    }
    backing[0] = b'B';
    backing.clear();
    assert_eq!(&first, b"borr");
}

#[test]
fn bytes_written_from_a_buffer_are_copied_at_the_write() {
    let mut source = b"abc".to_vec();
    let mut data = Loopback::new(Data::from_seekable_stream(Cursor::new(Vec::new())));
    assert_eq!(data.write(&source), Ok(3));
    source[0] = b'x';
    drop(source);
    assert_eq!(data.seek(SeekFrom::Start(0)), Ok(0));
    assert_eq!(data.read_all(), b"abc");
}
