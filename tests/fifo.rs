use i2c_sensors::bmp388::fifo::{
    classify_fifo_header, decode_fifo_frame, fifo_frame_shape, header_only_outcome, FifoData,
    FifoDrain, FifoFrameReader, FifoFrameShape, FifoHeaderAction, FifoRead, FifoStep,
};
use i2c_sensors::error::SensorError;

#[test]
fn pressure_only_frame_without_sensor_time() {
    let header = 0x44u8;
    assert_eq!(classify_fifo_header(header), FifoHeaderAction::ReadLengthThenBlock);
    let shape = fifo_frame_shape(header, false, 4);
    assert_eq!(shape.block_len(), 4);
    let block = [header, 0x12, 0x34, 0x56];
    let frame = decode_fifo_frame(shape, &block, 4);
    assert_eq!(frame.pressure_raw, Some(0x563412));
    assert_eq!(frame.temperature_raw, None);
    assert_eq!(frame.sensor_time, None);
    assert!(!frame.config_change);
}

#[test]
fn config_change_frame_discards_one_word() {
    let header = 0x88u8;
    assert_eq!(classify_fifo_header(header), FifoHeaderAction::DiscardThenConfigChange);
    let frame = header_only_outcome(header).unwrap();
    assert_eq!(
        frame,
        FifoData { pressure_raw: None, temperature_raw: None, sensor_time: None, config_change: true }
    );
}

#[test]
fn config_error_frame_fails() {
    assert_eq!(classify_fifo_header(0x84), FifoHeaderAction::DiscardThenFail);
    assert_eq!(header_only_outcome(0x84), Err(SensorError::FifoConfigError));
    // the error flag wins over the change flag
    assert_eq!(classify_fifo_header(0x8c), FifoHeaderAction::DiscardThenFail);
}

#[test]
fn unknown_headers_are_rejected() {
    assert_eq!(classify_fifo_header(0x80), FifoHeaderAction::Reject);
    assert_eq!(header_only_outcome(0x80), Err(SensorError::UnknownFifoHeader(0x80)));
    assert_eq!(classify_fifo_header(0x00), FifoHeaderAction::Reject);
    assert_eq!(header_only_outcome(0x00), Err(SensorError::UnknownFifoHeader(0x00)));
}

#[test]
fn empty_sensor_frame() {
    assert_eq!(classify_fifo_header(0x40), FifoHeaderAction::DiscardThenEmpty);
    assert_eq!(
        header_only_outcome(0x40),
        Ok(FifoData { pressure_raw: None, temperature_raw: None, sensor_time: None, config_change: false })
    );
}

#[test]
fn frame_shapes_and_block_lengths() {
    assert_eq!(fifo_frame_shape(0x50, false, 0).block_len(), 4);
    assert_eq!(fifo_frame_shape(0x54, false, 0).block_len(), 7);
    // sensor time trails only when enabled and the queue holds exactly frame and time
    let s = fifo_frame_shape(0x44, true, 8);
    assert_eq!(s, FifoFrameShape { pressure: true, temperature: false, sensor_time: true });
    assert_eq!(s.block_len(), 8);
    assert!(!fifo_frame_shape(0x44, true, 4).sensor_time);
    assert!(!fifo_frame_shape(0x44, false, 8).sensor_time);
    assert_eq!(fifo_frame_shape(0x54, true, 11).block_len(), 11);
    assert_eq!(fifo_frame_shape(0x50, true, 8).block_len(), 8);
}

#[test]
fn pressure_temperature_frame_with_sensor_time() {
    let shape = fifo_frame_shape(0x54, true, 11);
    let block = [0x54u8, 0x01, 0x02, 0x03, 0x04, 0x05, 0x06, 0xa0, 0x07, 0x08, 0x09];
    let frame = decode_fifo_frame(shape, &block, 11);
    assert_eq!(frame.temperature_raw, Some(0x030201));
    assert_eq!(frame.pressure_raw, Some(0x060504));
    assert_eq!(frame.sensor_time, Some(0x090807));
}

#[test]
fn short_reads_leave_fields_absent() {
    let shape = fifo_frame_shape(0x54, true, 11);
    let block = [0x54u8, 0x01, 0x02, 0x03, 0x04, 0x05, 0x06, 0xa0, 0x07, 0x08, 0x09];
    let frame = decode_fifo_frame(shape, &block, 7);
    assert_eq!(frame.temperature_raw, Some(0x030201));
    assert_eq!(frame.pressure_raw, Some(0x060504));
    assert_eq!(frame.sensor_time, None);
    let frame = decode_fifo_frame(shape, &block, 5);
    assert_eq!(frame.temperature_raw, Some(0x030201));
    assert_eq!(frame.pressure_raw, None);
    let shape = fifo_frame_shape(0x54, false, 0);
    let frame = decode_fifo_frame(shape, &block[..7], 6);
    assert_eq!(frame.temperature_raw, Some(0x030201));
    assert_eq!(frame.pressure_raw, None);
    let shape = fifo_frame_shape(0x50, false, 0);
    let frame = decode_fifo_frame(shape, &[0x50, 1, 2, 3], 3);
    assert_eq!(frame.temperature_raw, None);
}

#[test]
fn whole_block_yields_samples_whatever_its_first_byte() {
    let shape = fifo_frame_shape(0x44, false, 0);
    let frame = decode_fifo_frame(shape, &[0x00, 1, 2, 3], 4);
    assert_eq!(frame.pressure_raw, Some(0x030201));
    let shape = fifo_frame_shape(0x50, true, 8);
    let frame = decode_fifo_frame(shape, &[0x00, 1, 2, 3, 0x00, 4, 5, 6], 8);
    assert_eq!(frame.temperature_raw, Some(0x030201));
    assert_eq!(frame.sensor_time, Some(0x060504));
}

#[test]
fn drain_ends_after_the_frame_followed_by_an_empty_queue() {
    let lengths = [7u16, 14, 3, 0, 9];
    let mut drain = FifoDrain::new();
    let mut reads = 0;
    for len in lengths {
        if !drain.wants_frame() {
            break;
        }
        reads += 1;
        drain.frame_read(len);
    }
    assert_eq!(reads, 4);
    assert_eq!(drain.frames_read, 4);
    assert!(drain.finished);
}

#[test]
fn drain_counter_does_not_wrap() {
    let mut drain = FifoDrain { frames_read: u64::MAX, finished: false };
    drain.frame_read(0);
    assert_eq!(drain.frames_read, u64::MAX);
    assert!(drain.finished);
}

#[test]
fn drain_of_a_single_frame() {
    let mut drain = FifoDrain::new();
    assert!(drain.wants_frame());
    drain.frame_read(0);
    assert!(!drain.wants_frame());
    assert_eq!(drain.frames_read, 1);
}

#[test]
fn reader_pressure_only_frame_issues_one_four_byte_block_read() {
    let mut r = FifoFrameReader::new(false);
    assert_eq!(r.request(), FifoStep::Read(FifoRead::Header));
    r.header_read(0x44);
    assert_eq!(r.request(), FifoStep::Read(FifoRead::QueueLength));
    r.length_read(8);
    assert_eq!(r.request(), FifoStep::Read(FifoRead::Block(4)));
    r.block_read(&[0x44, 0xf2, 0x7e, 0x01], 4);
    assert_eq!(
        r.request(),
        FifoStep::Complete(Ok(FifoData {
            pressure_raw: Some(0x017ef2),
            temperature_raw: None,
            sensor_time: None,
            config_change: false,
        }))
    );
}

#[test]
fn reader_config_change_frame_discards_exactly_one_word() {
    let mut r = FifoFrameReader::new(true);
    r.header_read(0x88);
    assert_eq!(r.request(), FifoStep::Read(FifoRead::DiscardWord));
    r.word_read();
    assert_eq!(
        r.request(),
        FifoStep::Complete(Ok(FifoData {
            pressure_raw: None,
            temperature_raw: None,
            sensor_time: None,
            config_change: true,
        }))
    );
    // nothing more is read, whatever is handed in
    r.word_read();
    r.length_read(4);
    r.header_read(0x44);
    assert!(matches!(r.request(), FifoStep::Complete(Ok(f)) if f.config_change));
}

#[test]
fn reader_config_error_and_unknown_header() {
    let mut r = FifoFrameReader::new(false);
    r.header_read(0x84);
    assert_eq!(r.request(), FifoStep::Read(FifoRead::DiscardWord));
    r.word_read();
    assert_eq!(r.request(), FifoStep::Complete(Err(SensorError::FifoConfigError)));
    let mut r = FifoFrameReader::new(false);
    r.header_read(0x01);
    assert_eq!(r.request(), FifoStep::Complete(Err(SensorError::UnknownFifoHeader(0x01))));
}

#[test]
fn reader_temperature_frame_with_sensor_time() {
    let mut r = FifoFrameReader::new(true);
    r.header_read(0x50);
    r.length_read(8);
    assert_eq!(r.request(), FifoStep::Read(FifoRead::Block(8)));
    r.block_read(&[0x50, 0x00, 0x80, 0x7f, 0xa0, 0x10, 0x00, 0x00], 8);
    assert_eq!(
        r.request(),
        FifoStep::Complete(Ok(FifoData {
            pressure_raw: None,
            temperature_raw: Some(0x7f8000),
            sensor_time: Some(0x10),
            config_change: false,
        }))
    );
}

#[test]
fn reader_pressure_only_frame_ignores_block_first_byte() {
    let mut r = FifoFrameReader::new(false);
    r.header_read(0x44);
    r.length_read(4);
    assert_eq!(r.request(), FifoStep::Read(FifoRead::Block(4)));
    r.block_read(&[0x00, 0x01, 0x02, 0x03], 4);
    assert_eq!(
        r.request(),
        FifoStep::Complete(Ok(FifoData {
            pressure_raw: Some(0x030201),
            temperature_raw: None,
            sensor_time: None,
            config_change: false,
        }))
    );
}
