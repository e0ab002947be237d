use compress_sink::{get_writer, Algs, Sink, DEFAULT_LEVEL, WRITE_BUF_CAPACITY};

fn write_and_finish(mut sink: Sink, chunks: &[&[u8]]) -> Vec<u8> {
    for chunk in chunks {
        sink.write_all(chunk).expect("write failed");
    }
    sink.get_buf().expect("finish failed")
}

fn gunzip(stream: &[u8]) -> Vec<u8> {
    let mut decoder = flate2::read::GzDecoder::new(stream);
    let mut out = Vec::new();
    std::io::Read::read_to_end(&mut decoder, &mut out).expect("not a valid gzip stream");
    out
}

fn unzlib(stream: &[u8]) -> Vec<u8> {
    let mut decoder = flate2::read::ZlibDecoder::new(stream);
    let mut out = Vec::new();
    std::io::Read::read_to_end(&mut decoder, &mut out).expect("not a valid zlib stream");
    out
}

fn patterned(len: usize) -> Vec<u8> {
    let mut out = Vec::with_capacity(len);
    for i in 0..len {
        out.push((i % 251) as u8);
    }
    out
}

#[test]
fn raw_empty_finish_is_empty() {
    let sink = get_writer(None);
    let out = sink.get_buf().expect("raw finish cannot fail");
    assert_eq!(out, Vec::<u8>::new());
}

#[test]
fn raw_copies_writes_verbatim_in_order() {
    let sink = get_writer(None);
    let out = write_and_finish(sink, &[b"hello ", b"world", b"", b"!"]);
    assert_eq!(out, b"hello world!".to_vec());
}

#[test]
fn raw_explicit_selector_ignores_level() {
    let sink = get_writer(Some((Algs::Raw, Some(9))));
    let out = write_and_finish(sink, &[b"abc"]);
    assert_eq!(out, b"abc".to_vec());
}

#[test]
fn gzip_hello_world_default_level() {
    let sink = get_writer(Some((Algs::Gzip, None)));
    let out = write_and_finish(sink, &[b"hello world"]);
    assert!(!out.is_empty());
    assert_ne!(out, b"hello world".to_vec());
    assert_eq!(gunzip(&out), b"hello world".to_vec());
}

#[test]
fn gzip_zero_writes_decode_to_empty() {
    let sink = get_writer(Some((Algs::Gzip, None)));
    let out = sink.get_buf().expect("finish failed");
    assert!(!out.is_empty());
    assert_eq!(gunzip(&out), Vec::<u8>::new());
}

#[test]
fn zlib_zero_writes_decode_to_empty() {
    let sink = get_writer(Some((Algs::Zlib, None)));
    let out = sink.get_buf().expect("finish failed");
    assert!(!out.is_empty());
    assert_eq!(unzlib(&out), Vec::<u8>::new());
}

#[test]
fn gzip_write_below_capacity_is_flushed_on_finish() {
    let data = patterned(100);
    assert!(data.len() < WRITE_BUF_CAPACITY);
    let sink = get_writer(Some((Algs::Gzip, None)));
    let out = write_and_finish(sink, &[&data]);
    assert_eq!(gunzip(&out), data);
}

#[test]
fn zlib_write_below_capacity_is_flushed_on_finish() {
    let data = patterned(WRITE_BUF_CAPACITY - 1);
    let sink = get_writer(Some((Algs::Zlib, None)));
    let out = write_and_finish(sink, &[&data]);
    assert_eq!(unzlib(&out), data);
}

#[test]
fn gzip_writes_spanning_capacity_multiples_keep_order() {
    let data = patterned(3 * WRITE_BUF_CAPACITY + 17);
    let sink = get_writer(Some((Algs::Gzip, Some(1))));
    let chunks: Vec<&[u8]> = data.chunks(WRITE_BUF_CAPACITY / 3 + 11).collect();
    let out = write_and_finish(sink, &chunks);
    assert_eq!(gunzip(&out), data);
}

#[test]
fn zlib_writes_spanning_capacity_multiples_keep_order() {
    let data = patterned(2 * WRITE_BUF_CAPACITY);
    let sink = get_writer(Some((Algs::Zlib, Some(9))));
    let chunks: Vec<&[u8]> = data.chunks(WRITE_BUF_CAPACITY).collect();
    let out = write_and_finish(sink, &chunks);
    assert_eq!(unzlib(&out), data);
}

#[test]
fn gzip_round_trips_at_every_standard_level() {
    let data = patterned(5000);
    for level in 0u32..=9u32 {
        let sink = get_writer(Some((Algs::Gzip, Some(level))));
        let out = write_and_finish(sink, &[&data]);
        assert_eq!(gunzip(&out), data, "level {level}");
    }
}

#[test]
fn zlib_round_trips_at_every_standard_level() {
    let data = patterned(5000);
    for level in 0u32..=9u32 {
        let sink = get_writer(Some((Algs::Zlib, Some(level))));
        let out = write_and_finish(sink, &[&data]);
        assert_eq!(unzlib(&out), data, "level {level}");
    }
}

#[test]
fn gzip_omitted_level_decodes_like_default_level() {
    let data = patterned(4096);
    let omitted = write_and_finish(get_writer(Some((Algs::Gzip, None))), &[&data]);
    let explicit = write_and_finish(get_writer(Some((Algs::Gzip, Some(DEFAULT_LEVEL)))), &[&data]);
    assert_eq!(gunzip(&omitted), gunzip(&explicit));
    assert_eq!(gunzip(&omitted), data);
}

#[test]
fn zlib_omitted_level_decodes_like_default_level() {
    let data = patterned(4096);
    let omitted = write_and_finish(get_writer(Some((Algs::Zlib, None))), &[&data]);
    let explicit = write_and_finish(get_writer(Some((Algs::Zlib, Some(DEFAULT_LEVEL)))), &[&data]);
    assert_eq!(unzlib(&omitted), unzlib(&explicit));
    assert_eq!(unzlib(&omitted), data);
}

#[test]
fn default_level_constant_matches_flate2_default() {
    assert_eq!(DEFAULT_LEVEL, flate2::Compression::default().level());
}

#[test]
fn gzip_write_of_exactly_the_capacity_flushes_and_round_trips() {
    let data = patterned(WRITE_BUF_CAPACITY);
    let sink = get_writer(Some((Algs::Gzip, None)));
    let out = write_and_finish(sink, &[&data]);
    assert_eq!(gunzip(&out), data);
}
