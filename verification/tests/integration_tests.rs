use std::io::{Cursor, Read, Write};

use tcpperf::download::DownloadAction;
use tcpperf::pattern::fill_pattern;
use tcpperf::upload::UploadAction;
use tcpperf::{Mode, TcpPerf, TcpPerfError, BUF_SIZE};

// In-memory stream with optional simulated failures after a number of bytes.
struct MockTcpStream {
    reader: Cursor<Vec<u8>>,
    writer: Cursor<Vec<u8>>,
    fail_read_after: Option<usize>,
    fail_write_after: Option<usize>,
    read_count: usize,
    write_count: usize,
}

impl MockTcpStream {
    fn new(read_data: Vec<u8>) -> Self {
        MockTcpStream {
            reader: Cursor::new(read_data),
            writer: Cursor::new(Vec::new()),
            fail_read_after: None,
            fail_write_after: None,
            read_count: 0,
            write_count: 0,
        }
    }

    fn fail_read_after(mut self, bytes: usize) -> Self {
        self.fail_read_after = Some(bytes);
        self
    }

    fn fail_write_after(mut self, bytes: usize) -> Self {
        self.fail_write_after = Some(bytes);
        self
    }
}

impl Read for MockTcpStream {
    fn read(&mut self, buf: &mut [u8]) -> std::io::Result<usize> {
        if let Some(fail_after) = self.fail_read_after {
            if self.read_count >= fail_after {
                return Err(std::io::Error::new(std::io::ErrorKind::Other, "simulated read error"));
            }
        }
        if buf.is_empty() {
            return Ok(0);
        }
        let n = self.reader.read(buf)?;
        self.read_count += n;
        Ok(n)
    }
}

impl Write for MockTcpStream {
    fn write(&mut self, buf: &[u8]) -> std::io::Result<usize> {
        if let Some(fail_after) = self.fail_write_after {
            if self.write_count >= fail_after {
                return Err(std::io::Error::new(std::io::ErrorKind::Other, "simulated write error"));
            }
        }
        let n = self.writer.write(buf)?;
        self.write_count += n;
        Ok(n)
    }

    fn flush(&mut self) -> std::io::Result<()> {
        Ok(())
    }
}

// Performs the writes an upload asks for, as the application does on a socket.
fn upload<S: Write>(tester: TcpPerf, stream: &mut S) -> Result<(), TcpPerfError> {
    let buf = fill_pattern(tester.buf_size);
    let mut up = tester.upload();
    loop {
        match up.next_action() {
            UploadAction::SendHeader(h) => up.on_write(stream.write_all(&h))?,
            UploadAction::SendChunk(n) => up.on_write(stream.write_all(&buf[..n]))?,
            UploadAction::Done => return Ok(()),
        }
    }
}

// Performs the reads a download asks for, as the application does on a socket.
fn download<S: Read>(tester: &mut TcpPerf, stream: &mut S) -> Result<u64, TcpPerfError> {
    let mut header = [0u8; 8];
    stream.read_exact(&mut header)?;
    let mut dl = tester.download(header);
    let mut buf = vec![0u8; tester.buf_size];
    loop {
        match dl.next_action() {
            DownloadAction::Read(n) => {
                let outcome = stream.read(&mut buf[..n]);
                dl.on_read(outcome)?;
            }
            DownloadAction::Done(total) => return Ok(total),
        }
    }
}

fn counting_payload(sample_size: u64) -> Vec<u8> {
    let mut data = Vec::new();
    data.extend_from_slice(&sample_size.to_le_bytes());
    let mut current_byte: u8 = 1;
    for _ in 0..sample_size {
        data.push(current_byte);
        current_byte = current_byte.wrapping_add(1);
        if current_byte == 0 {
            current_byte = 1;
        }
    }
    data
}

fn check_upload_pattern(written_data: &[u8], sample_size: u64) {
    let (size_bytes, data_bytes) = written_data.split_at(8);
    let written_sample_size = u64::from_le_bytes(size_bytes.try_into().unwrap());
    assert_eq!(written_sample_size, sample_size);
    assert_eq!(data_bytes.len() as u64, sample_size);
    for i in 0..data_bytes.len() {
        let local_idx = i % BUF_SIZE;
        let expected_byte = ((local_idx + 1) % u8::MAX as usize) as u8;
        assert_eq!(data_bytes[i], expected_byte, "Byte mismatch at global index {}, local_idx {}", i, local_idx);
    }
}

#[test]
fn test_upload_client() {
    let sample_size: u64 = 1024 * 10;
    let mut mock_stream = MockTcpStream::new(vec![]);
    let tester = TcpPerf { mode: Mode::Client, sample_size, buf_size: BUF_SIZE };
    let result = upload(tester, &mut mock_stream);
    assert!(result.is_ok());
    check_upload_pattern(mock_stream.writer.get_ref(), sample_size);
}

#[test]
fn test_upload_server() {
    let sample_size: u64 = 1024 * 5;
    let mut mock_stream = MockTcpStream::new(vec![]);
    let tester = TcpPerf { mode: Mode::Server, sample_size, buf_size: BUF_SIZE };
    let result = upload(tester, &mut mock_stream);
    assert!(result.is_ok());
    check_upload_pattern(mock_stream.writer.get_ref(), sample_size);
}

#[test]
fn test_download_client() {
    let sample_size: u64 = 1024 * 7;
    let mut mock_stream = MockTcpStream::new(counting_payload(sample_size));
    let mut tester = TcpPerf { mode: Mode::Client, sample_size: 0, buf_size: BUF_SIZE };
    let result = download(&mut tester, &mut mock_stream);
    assert!(result.is_ok());
    let bytes_downloaded = result.unwrap();
    assert_eq!(bytes_downloaded, sample_size);
    assert!(mock_stream.writer.get_ref().is_empty());
}

#[test]
fn test_download_server() {
    let sample_size: u64 = 1024 * 6;
    let mut mock_stream = MockTcpStream::new(counting_payload(sample_size));
    let mut tester = TcpPerf { mode: Mode::Server, sample_size: 0, buf_size: BUF_SIZE };
    let result = download(&mut tester, &mut mock_stream);
    assert!(result.is_ok());
    let bytes_downloaded = result.unwrap();
    assert_eq!(bytes_downloaded, sample_size);
    assert!(mock_stream.writer.get_ref().is_empty());
    assert_eq!(tester.sample_size, sample_size);
}

#[test]
fn test_upload_client_zero_sample_size() {
    let sample_size: u64 = 0;
    let mut mock_stream = MockTcpStream::new(vec![]);
    let tester = TcpPerf { mode: Mode::Client, sample_size, buf_size: BUF_SIZE };
    let result = upload(tester, &mut mock_stream);
    assert!(result.is_ok());
    let written_data = mock_stream.writer.get_ref();
    assert_eq!(written_data.len(), 8);
    let written_sample_size = u64::from_le_bytes(written_data.as_slice().try_into().unwrap());
    assert_eq!(written_sample_size, sample_size);
}

#[test]
fn test_upload_server_zero_sample_size() {
    let sample_size: u64 = 0;
    let mut mock_stream = MockTcpStream::new(vec![]);
    let tester = TcpPerf { mode: Mode::Server, sample_size, buf_size: BUF_SIZE };
    let result = upload(tester, &mut mock_stream);
    assert!(result.is_ok());
    let written_data = mock_stream.writer.get_ref();
    assert_eq!(written_data.len(), 8);
    let written_sample_size = u64::from_le_bytes(written_data.as_slice().try_into().unwrap());
    assert_eq!(written_sample_size, sample_size);
}

#[test]
fn test_download_client_zero_sample_size() {
    let sample_size: u64 = 0;
    let mut mock_stream = MockTcpStream::new(sample_size.to_le_bytes().to_vec());
    let mut tester = TcpPerf { mode: Mode::Client, sample_size: 123, buf_size: BUF_SIZE };
    let result = download(&mut tester, &mut mock_stream);
    assert!(result.is_ok());
    let bytes_downloaded = result.unwrap();
    assert_eq!(bytes_downloaded, sample_size);
    assert!(mock_stream.writer.get_ref().is_empty());
}

#[test]
fn test_download_server_zero_sample_size() {
    let sample_size: u64 = 0;
    let mut mock_stream = MockTcpStream::new(sample_size.to_le_bytes().to_vec());
    let mut tester = TcpPerf { mode: Mode::Server, sample_size: 456, buf_size: BUF_SIZE };
    let result = download(&mut tester, &mut mock_stream);
    assert!(result.is_ok());
    let bytes_downloaded = result.unwrap();
    assert_eq!(bytes_downloaded, sample_size);
    assert!(mock_stream.writer.get_ref().is_empty());
    assert_eq!(tester.sample_size, sample_size);
}

#[test]
fn test_upload_client_write_error() {
    let sample_size: u64 = 1024 * 10;
    let mut mock_stream = MockTcpStream::new(vec![]).fail_write_after(1000 - 8);
    let tester = TcpPerf { mode: Mode::Client, sample_size, buf_size: BUF_SIZE };
    let result = upload(tester, &mut mock_stream);
    assert!(result.is_err());
}

#[test]
fn test_upload_client_write_error_on_size() {
    let sample_size: u64 = 1024 * 10;
    let mut mock_stream = MockTcpStream::new(vec![]).fail_write_after(0);
    let tester = TcpPerf { mode: Mode::Client, sample_size, buf_size: BUF_SIZE };
    let result = upload(tester, &mut mock_stream);
    assert!(result.is_err());
}

#[test]
fn test_download_client_read_error_on_size() {
    let mut mock_stream = MockTcpStream::new(vec![1, 2, 3]).fail_read_after(0);
    let mut tester = TcpPerf { mode: Mode::Client, sample_size: 0, buf_size: BUF_SIZE };
    let result = download(&mut tester, &mut mock_stream);
    assert!(result.is_err());
}

#[test]
fn test_download_client_read_error_on_data() {
    let sample_size: u64 = 1024 * 10;
    let mut server_sent_data = Vec::new();
    server_sent_data.extend_from_slice(&sample_size.to_le_bytes());
    server_sent_data.extend_from_slice(&[1, 2, 3, 4, 5]);
    let mut mock_stream = MockTcpStream::new(server_sent_data).fail_read_after(0);
    let mut tester = TcpPerf { mode: Mode::Client, sample_size: 0, buf_size: BUF_SIZE };
    let result = download(&mut tester, &mut mock_stream);
    assert!(result.is_err());
}

#[test]
fn test_upload_server_write_error() {
    let sample_size: u64 = 1024 * 8;
    let mut mock_stream = MockTcpStream::new(vec![]).fail_write_after(500 - 8);
    let tester = TcpPerf { mode: Mode::Server, sample_size, buf_size: BUF_SIZE };
    let result = upload(tester, &mut mock_stream);
    assert!(result.is_err());
}

#[test]
fn test_upload_server_write_error_on_size() {
    let sample_size: u64 = 1024 * 8;
    let mut mock_stream = MockTcpStream::new(vec![]).fail_write_after(0);
    let tester = TcpPerf { mode: Mode::Server, sample_size, buf_size: BUF_SIZE };
    let result = upload(tester, &mut mock_stream);
    assert!(result.is_err());
}

#[test]
fn test_download_server_read_error_on_size() {
    let mut mock_stream = MockTcpStream::new(vec![1, 2, 3]).fail_read_after(0);
    let mut tester = TcpPerf { mode: Mode::Server, sample_size: 0, buf_size: BUF_SIZE };
    let result = download(&mut tester, &mut mock_stream);
    assert!(result.is_err());
}

#[test]
fn test_download_server_read_error_on_data() {
    let sample_size: u64 = 1024 * 9;
    let mut client_sent_data = Vec::new();
    client_sent_data.extend_from_slice(&sample_size.to_le_bytes());
    client_sent_data.extend_from_slice(&[1, 2, 3, 4, 5]);
    let mut mock_stream = MockTcpStream::new(client_sent_data).fail_read_after(0);
    let mut tester = TcpPerf { mode: Mode::Server, sample_size: 0, buf_size: BUF_SIZE };
    let result = download(&mut tester, &mut mock_stream);
    assert!(result.is_err());
}
