use audiopipe::buffer::StreamingBuffer;
use audiopipe::error::PlaybackError;
use audiopipe::sink::{AudioSink, SampleFormat};

fn float_sink() -> AudioSink<f32> {
    match AudioSink::new(SampleFormat::F32, 0.0) {
        Ok(sink) => sink,
        Err(error) => panic!("32-bit floats are supported: {:?}", error),
    }
}

#[test]
fn underrun_fills_the_block_with_silence() {
    let sink = float_sink();
    let mut buffer: StreamingBuffer<f32> = StreamingBuffer::new();
    let mut block = [0.5_f32; 8];
    sink.fill(&mut block, &mut buffer);
    assert_eq!(block, [0.0; 8]);
    assert!(buffer.is_empty());
    let mut again = [-1.0_f32; 3];
    sink.fill(&mut again, &mut buffer);
    assert_eq!(again, [0.0; 3]);
    assert!(buffer.is_empty());
}

#[test]
fn block_takes_samples_in_order() {
    let sink = float_sink();
    let mut buffer: StreamingBuffer<f32> = StreamingBuffer::new();
    buffer.push_all(&[0.1, 0.2, 0.3, 0.4, 0.5]);
    let mut block = [9.0_f32; 3];
    sink.fill(&mut block, &mut buffer);
    assert_eq!(block, [0.1, 0.2, 0.3]);
    assert_eq!(buffer.len(), 2);
    assert_eq!(buffer.pop_front(), Some(0.4));
    assert_eq!(buffer.pop_front(), Some(0.5));
}

#[test]
fn last_block_is_padded_with_silence() {
    let sink = float_sink();
    let mut buffer: StreamingBuffer<f32> = StreamingBuffer::new();
    buffer.push_all(&[0.1, 0.2]);
    let mut block = [9.0_f32; 5];
    sink.fill(&mut block, &mut buffer);
    assert_eq!(block, [0.1, 0.2, 0.0, 0.0, 0.0]);
    assert!(buffer.is_empty());
}

#[test]
fn block_of_exactly_the_rest_empties_the_buffer() {
    let sink = float_sink();
    let mut buffer: StreamingBuffer<f32> = StreamingBuffer::new();
    buffer.push_all(&[1.0, -1.0]);
    let mut block = [9.0_f32; 2];
    sink.fill(&mut block, &mut buffer);
    assert_eq!(block, [1.0, -1.0]);
    assert!(buffer.is_empty());
}

#[test]
fn empty_block_takes_nothing() {
    let sink = float_sink();
    let mut buffer: StreamingBuffer<f32> = StreamingBuffer::new();
    buffer.push_all(&[0.1, 0.2]);
    let mut block: [f32; 0] = [];
    sink.fill(&mut block, &mut buffer);
    assert_eq!(buffer.len(), 2);
}

#[test]
fn consecutive_blocks_continue_where_the_last_stopped() {
    let sink = float_sink();
    let mut buffer: StreamingBuffer<f32> = StreamingBuffer::new();
    let samples: Vec<f32> = (0..10).map(|i| i as f32 / 10.0).collect();
    buffer.push_all(&samples);
    let mut heard = Vec::new();
    for _ in 0..4 {
        let mut block = [7.0_f32; 4];
        sink.fill(&mut block, &mut buffer);
        heard.extend_from_slice(&block);
    }
    let mut expected = samples.clone();
    expected.extend_from_slice(&[0.0; 6]);
    assert_eq!(heard, expected);
}

#[test]
fn silence_is_the_value_the_sink_was_given() {
    let sink: AudioSink<u8> = match AudioSink::new(SampleFormat::F32, 128) {
        Ok(sink) => sink,
        Err(error) => panic!("{:?}", error),
    };
    let mut buffer: StreamingBuffer<u8> = StreamingBuffer::new();
    buffer.push_all(&[1]);
    let mut block = [0_u8; 3];
    sink.fill(&mut block, &mut buffer);
    assert_eq!(block, [1, 128, 128]);
}

#[test]
fn only_float32_is_supported() {
    let others = [
        SampleFormat::I8,
        SampleFormat::I16,
        SampleFormat::I32,
        SampleFormat::I64,
        SampleFormat::U8,
        SampleFormat::U16,
        SampleFormat::U32,
        SampleFormat::U64,
        SampleFormat::F64,
        SampleFormat::Unknown,
    ];
    for format in others {
        let sink: Result<AudioSink<f32>, PlaybackError> = AudioSink::new(format, 0.0);
        assert_eq!(sink.err(), Some(PlaybackError::Configuration));
    }
    let sink: Result<AudioSink<f32>, PlaybackError> = AudioSink::new(SampleFormat::F32, 0.0);
    assert!(sink.is_ok());
}
