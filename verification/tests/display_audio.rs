use little_synth::audio::{init_audio, BLOCK_SIZE, SAMPLE_RATE_HZ};
use little_synth::display::{Display, DummyDisplay, PixelFormat, Rect};
use little_synth::sai_simple::{self, SimpleSai};

#[test]
fn dummy_display_reports_size_and_format() {
    let mut d = DummyDisplay::new(320, 240);
    assert_eq!(d.size(), (320, 240));
    assert_eq!(d.format(), PixelFormat::Rgb565);
    d.clear(0xFFFF);
    d.flush();
    assert_eq!(d.size(), (320, 240));
}

struct RecordingDisplay {
    flushed: Vec<Rect>,
}

impl Display for RecordingDisplay {
    fn dims(&self) -> (u16, u16) {
        unreachable!()
    }
    fn flushed(&self) -> vstd::seq::Seq<Rect> {
        unreachable!()
    }
    fn size(&self) -> (u16, u16) {
        (128, 64)
    }
    fn format(&self) -> PixelFormat {
        PixelFormat::Monochrome
    }
    fn clear(&mut self, _color: u32) {}
    fn flush_rect(&mut self, rect: Rect) {
        self.flushed.push(rect);
    }
}

#[test]
fn flush_covers_whole_display() {
    let mut d = RecordingDisplay { flushed: vec![] };
    d.flush();
    assert_eq!(d.flushed, vec![Rect { x: 0, y: 0, w: 128, h: 64 }]);
    assert_eq!(Rect::default(), Rect { x: 0, y: 0, w: 0, h: 0 });
}

#[test]
fn audio_parameters() {
    init_audio();
    assert_eq!(SAMPLE_RATE_HZ, 48_000);
    assert_eq!(BLOCK_SIZE, 128);
    assert_eq!(sai_simple::SAMPLE_RATE, 48_000);
    assert_eq!(sai_simple::BLOCK_SIZE, 128);
    assert!(SimpleSai::new().is_ok());
}

use little_synth::pcm5122::{init_register_writes, volume_register_writes, PCM5122_I2C_ADDR};
use little_synth::sai_driver::{check_block_len, next_buffer, previous_buffer, BUFFER_SIZE_SAMPLES, NUM_BUFFERS};

#[test]
fn pcm5122_register_programme() {
    assert_eq!(PCM5122_I2C_ADDR, 0x4D);
    assert_eq!(
        init_register_writes(),
        [(0x02, 0x11), (0x03, 0x00), (0x04, 0x00), (0x0D, 0x10), (0x25, 0x08), (0x02, 0x00)]
    );
    assert_eq!(volume_register_writes(200, 17), [(0x3D, 200), (0x3E, 17)]);
}

#[test]
fn sai_double_buffer_alternates() {
    assert_eq!(NUM_BUFFERS, 2);
    assert_eq!(BUFFER_SIZE_SAMPLES, 256);
    assert_eq!(next_buffer(0), 1);
    assert_eq!(next_buffer(1), 0);
    assert_eq!(previous_buffer(0), 1);
    assert_eq!(previous_buffer(1), 0);
    for i in 0..NUM_BUFFERS {
        assert_eq!(previous_buffer(next_buffer(i)), i);
    }
}

#[test]
fn sai_block_length_check() {
    assert_eq!(check_block_len(256), Ok(()));
    assert_eq!(check_block_len(255), Err("Invalid buffer size"));
    assert_eq!(check_block_len(0), Err("Invalid buffer size"));
    assert_eq!(check_block_len(128), Err("Invalid buffer size"));
}

use little_synth::sai_simple::{fifo_wait_step, FifoWait, FIFO_WAIT_POLLS};

#[test]
fn fifo_wait_steps() {
    assert_eq!(FIFO_WAIT_POLLS, 10000);
    assert_eq!(fifo_wait_step(10000, true), FifoWait::Send);
    assert_eq!(fifo_wait_step(10000, false), FifoWait::Wait { remaining: 9999 });
    assert_eq!(fifo_wait_step(1, false), FifoWait::Wait { remaining: 0 });
    // With no poll left the wait times out even if the FIFO has just become ready.
    assert_eq!(fifo_wait_step(0, true), FifoWait::TimedOut);
    assert_eq!(fifo_wait_step(0, false), FifoWait::TimedOut);
}

#[test]
fn fifo_wait_runs_out_after_all_polls() {
    let mut remaining = 3;
    let mut polls = 0;
    let outcome = loop {
        polls += 1;
        match fifo_wait_step(remaining, false) {
            FifoWait::Wait { remaining: r } => remaining = r,
            other => break other,
        }
    };
    assert_eq!(outcome, FifoWait::TimedOut);
    assert_eq!(polls, 4);
}
