use byteio::chunk::Chunked;
use byteio::relay::TextSink;
use byteio::Cursor;
use byteio::EndOfFile;
use byteio::OutOfBounds;
use byteio::Read;
use byteio::Seek;
use byteio::SeekFrom;
use byteio::Write;

fn fill_exactly<R: Read>(source: &mut R, buf: &mut [u8]) -> Result<(), EndOfFile>
where
    EndOfFile: From<R::Error>,
{
    source.read_all(buf)
}

fn drain_exactly<W: Write>(sink: &mut W, buf: &[u8]) -> Result<(), EndOfFile>
where
    EndOfFile: From<W::Error>,
{
    sink.write_all(buf)
}

#[test]
fn partial_fill_accumulates_chunks() {
    let data = [1u8, 2, 3, 4, 5];
    let mut source = Chunked::new(&data, 2);
    let mut buf = [0u8; 5];
    let r: Result<(), EndOfFile> = source.read_all(&mut buf);
    assert_eq!(r, Ok(()));
    assert_eq!(buf, [1, 2, 3, 4, 5]);
}

#[test]
fn partial_fill_fails_when_source_is_short() {
    let data = [1u8, 2, 3];
    let mut source = Chunked::new(&data, 2);
    let mut buf = [0u8; 4];
    let r: Result<(), EndOfFile> = source.read_all(&mut buf);
    assert_eq!(r, Err(EndOfFile));
    assert_eq!(buf, [1, 2, 3, 0]);
    assert_eq!(source.read(&mut buf), Ok(0));
}

#[test]
fn chunked_read_caps_each_transfer() {
    let data = [7u8, 8, 9];
    let mut source = Chunked::new(&data, 2);
    let mut buf = [0u8; 3];
    assert_eq!(source.read(&mut buf), Ok(2));
    assert_eq!(&buf[..2], &[7, 8]);
    assert_eq!(source.read(&mut buf), Ok(1));
    assert_eq!(buf[0], 9);
    assert_eq!(source.read(&mut buf), Ok(0));
}

#[test]
fn chunked_zero_cap_still_makes_progress() {
    let data = [1u8, 2];
    let mut source = Chunked::new(&data, 0);
    let mut buf = [0u8; 2];
    assert_eq!(source.read(&mut buf), Ok(1));
    assert_eq!(buf[0], 1);
    let mut rest = [0u8; 1];
    let r: Result<(), EndOfFile> = source.read_all(&mut rest);
    assert_eq!(r, Ok(()));
    assert_eq!(rest[0], 2);
}

#[test]
fn slice_read_transfers_min_and_shrinks() {
    let data = [1u8, 2, 3, 4, 5];
    let mut source: &[u8] = &data;
    let mut buf = [0u8; 3];
    assert_eq!(source.read(&mut buf), Ok(3));
    assert_eq!(buf, [1, 2, 3]);
    assert_eq!(source.read(&mut buf), Ok(2));
    assert_eq!(&buf[..2], &[4, 5]);
    assert_eq!(source.read(&mut buf), Ok(0));
}

#[test]
fn slice_read_all_failure_consumes_nothing() {
    let data = [1u8, 2, 3];
    let mut source: &[u8] = &data;
    let mut big = [0u8; 5];
    let r: Result<(), EndOfFile> = source.read_all(&mut big);
    assert_eq!(r, Err(EndOfFile));
    assert_eq!(big, [0u8; 5]);
    let mut buf = [0u8; 3];
    let r: Result<(), EndOfFile> = source.read_all(&mut buf);
    assert_eq!(r, Ok(()));
    assert_eq!(buf, [1, 2, 3]);
}

#[test]
fn slice_write_all_failure_writes_nothing() {
    let mut region = [9u8; 3];
    let mut window: &mut [u8] = &mut region;
    let r: Result<(), EndOfFile> = window.write_all(&[1, 2, 3, 4]);
    assert_eq!(r, Err(EndOfFile));
    assert_eq!(window.len(), 3);
    assert_eq!(region, [9, 9, 9]);
}

#[test]
fn slice_write_partial_transfer() {
    let mut region = [0u8; 2];
    let mut window: &mut [u8] = &mut region;
    assert_eq!(window.write(&[5, 6, 7, 8]), Ok(2));
    assert_eq!(window.write(&[9]), Ok(0));
    assert_eq!(region, [5, 6]);
}

#[test]
fn round_trip_any_length_up_to_capacity() {
    let data = [10u8, 20, 30, 40, 50, 60, 70, 80];
    for len in 0..=data.len() {
        let mut region = [0u8; 8];
        let mut window: &mut [u8] = &mut region;
        let w: Result<(), EndOfFile> = window.write_all(&data[..len]);
        assert_eq!(w, Ok(()));
        let mut view: &[u8] = &region;
        let mut back = vec![0u8; len];
        let r: Result<(), EndOfFile> = view.read_all(&mut back);
        assert_eq!(r, Ok(()));
        assert_eq!(&back[..], &data[..len]);
    }
}

#[test]
fn infallible_backends_run_generic_algorithms() {
    let data = [1u8, 2, 3, 4];
    let mut source: &[u8] = &data;
    let mut buf = [0u8; 4];
    assert_eq!(fill_exactly(&mut source, &mut buf), Ok(()));
    assert_eq!(buf, data);

    let mut chunked = Chunked::new(&data, 1);
    let mut buf = [0u8; 4];
    assert_eq!(fill_exactly(&mut chunked, &mut buf), Ok(()));
    assert_eq!(buf, data);

    let mut region = [0u8; 4];
    let mut window: &mut [u8] = &mut region;
    assert_eq!(drain_exactly(&mut window, &data), Ok(()));
    assert_eq!(region, data);
}

#[test]
fn borrowed_handle_forwards_operations() {
    let data = [4u8, 5, 6];
    let mut source: &[u8] = &data;
    let mut buf = [0u8; 3];
    {
        let mut handle = &mut source;
        assert_eq!(fill_exactly(&mut handle, &mut buf), Ok(()));
    }
    assert_eq!(buf, [4, 5, 6]);
    assert_eq!(source.len(), 0);

    let region = [1u8, 2, 3];
    let mut cursor = Cursor::new(&region[..]);
    {
        let mut handle = &mut cursor;
        assert_eq!(handle.seek(SeekFrom::End(0)), Ok(3));
        assert_eq!(handle.tell(), Ok(3));
    }
    assert_eq!(cursor.tell(), Ok(3));
}

#[test]
fn seek_clamping() {
    let region = [0u8; 5];
    let mut cursor = Cursor::new(&region[..]);
    assert_eq!(cursor.seek(SeekFrom::End(0)), Ok(5));
    assert_eq!(cursor.seek(SeekFrom::Start(0)), Ok(0));
    assert_eq!(cursor.seek(SeekFrom::Current(9)), Ok(5));
    assert_eq!(cursor.seek(SeekFrom::Start(2)), Ok(2));
    assert_eq!(cursor.seek(SeekFrom::Current(-3)), Err(OutOfBounds));
    assert_eq!(cursor.tell(), Ok(2));
}

#[test]
fn seek_start_past_end_saturates() {
    let region = [0u8; 5];
    let mut cursor = Cursor::new(&region[..]);
    assert_eq!(cursor.seek(SeekFrom::Start(100)), Ok(5));
    assert_eq!(cursor.seek(SeekFrom::Start(u64::MAX)), Ok(5));
}

#[test]
fn seek_end_negative_offset() {
    let region = [1u8, 2, 3, 4, 5];
    let mut cursor = Cursor::new(&region[..]);
    assert_eq!(cursor.seek(SeekFrom::End(-2)), Ok(3));
    let mut buf = [0u8; 1];
    assert_eq!(cursor.read(&mut buf), Ok(1));
    assert_eq!(buf[0], 4);
    assert_eq!(cursor.seek(SeekFrom::End(-6)), Err(OutOfBounds));
}

#[test]
fn tell_reports_position_without_moving() {
    let region = [0u8; 4];
    let mut cursor = Cursor::new(&region[..]);
    assert_eq!(cursor.tell(), Ok(0));
    assert_eq!(cursor.seek(SeekFrom::Start(3)), Ok(3));
    assert_eq!(cursor.tell(), Ok(3));
    assert_eq!(cursor.tell(), Ok(3));
}

#[test]
fn cursor_scenario() {
    let region = [1u8, 2, 3, 4, 5];
    let mut cursor = Cursor::new(&region[..]);
    assert_eq!(cursor.seek(SeekFrom::Start(2)), Ok(2));
    let mut two = [0u8; 2];
    assert_eq!(cursor.read(&mut two), Ok(2));
    assert_eq!(two, [3, 4]);
    assert_eq!(cursor.tell(), Ok(4));
    let mut three = [0u8; 3];
    assert_eq!(cursor.read(&mut three), Ok(1));
    assert_eq!(three[0], 5);
    assert_eq!(cursor.tell(), Ok(5));
    let mut one = [0u8; 1];
    let r: Result<(), EndOfFile> = cursor.read_all(&mut one);
    assert_eq!(r, Err(EndOfFile));
    assert_eq!(one, [0]);
    assert_eq!(cursor.tell(), Ok(5));
}

#[test]
fn cursor_fill_failure_drains_region_and_rests_at_end() {
    let region = [1u8, 2, 3];
    let mut cursor = Cursor::new(&region[..]);
    let mut buf = [0u8; 5];
    let r: Result<(), EndOfFile> = cursor.read_all(&mut buf);
    assert_eq!(r, Err(EndOfFile));
    assert_eq!(buf, [1, 2, 3, 0, 0]);
    assert_eq!(cursor.tell(), Ok(3));
}

#[test]
fn text_sink_drains_fragments_in_order() {
    let mut region = [0u8; 4];
    let mut window: &mut [u8] = &mut region;
    let mut sink: TextSink<'_, _, EndOfFile> = TextSink::new(&mut window);
    assert!(sink.accept(b"ab"));
    assert!(sink.accept(b"cd"));
    assert_eq!(sink.finish(), Ok(()));
    assert_eq!(&region, b"abcd");
}

#[test]
fn text_sink_reports_real_sink_error() {
    let mut region = [0u8; 3];
    let mut window: &mut [u8] = &mut region;
    let mut sink: TextSink<'_, _, EndOfFile> = TextSink::new(&mut window);
    assert!(sink.accept(b"ab"));
    assert!(!sink.accept(b"cd"));
    assert_eq!(sink.finish(), Err(EndOfFile));
}

#[test]
fn text_sink_keeps_the_first_error() {
    let mut region = [0u8; 3];
    let mut window: &mut [u8] = &mut region;
    let mut sink: TextSink<'_, _, EndOfFile> = TextSink::new(&mut window);
    assert!(!sink.accept(b"abcd"));
    assert!(sink.accept(b"xyz"));
    assert!(!sink.accept(b"q"));
    assert_eq!(sink.finish(), Err(EndOfFile));
    assert_eq!(&region, b"xyz");
}

#[test]
fn empty_buffers_transfer_nothing() {
    let data = [1u8, 2];
    let mut source: &[u8] = &data;
    let mut empty = [0u8; 0];
    assert_eq!(source.read(&mut empty), Ok(0));
    let r: Result<(), EndOfFile> = source.read_all(&mut empty);
    assert_eq!(r, Ok(()));
    assert_eq!(source.len(), 2);

    let mut region = [0u8; 0];
    let mut window: &mut [u8] = &mut region;
    assert_eq!(window.write(&[]), Ok(0));
    let r: Result<(), EndOfFile> = window.write_all(&[]);
    assert_eq!(r, Ok(()));
}

#[test]
fn error_values_compare_equal() {
    assert_eq!(EndOfFile, EndOfFile);
    assert_eq!(OutOfBounds, OutOfBounds);
    let e: EndOfFile = EndOfFile;
    let copied = e;
    assert_eq!(e, copied);
}
