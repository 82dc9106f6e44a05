use plotter_motion::buf_writer::BufWriter;
use plotter_motion::opto::{DecodedDir, OptoDecoder, OptoGpio};
use plotter_motion::pen::PenPosition;
use plotter_motion::speed_profile::SpeedVector;

#[test]
fn writer_appends_bytes_until_nearly_full() {
    let mut bw = BufWriter::new(vec![0u8; 8]);
    assert_eq!(bw.get_bytes(), b"");
    assert!(bw.write_str("abc").is_ok());
    assert_eq!(bw.get_bytes(), b"abc");
    // 3 + 5 + 1 > 8: refused, buffer untouched
    assert!(bw.write_str("defgh").is_err());
    assert_eq!(bw.get_bytes(), b"abc");
    assert!(bw.write_str("def").is_ok());
    assert_eq!(bw.get_bytes(), b"abcdef");
    // one spare byte must remain
    assert!(bw.write_str("g").is_err());
}

#[test]
fn writer_truncates_each_char_to_one_byte() {
    // a two-byte UTF-8 character advances the index by one and
    // stores the low byte of its scalar value, as the original did
    let s = String::from_utf8(vec![0x61, 0xC3, 0xA9]).unwrap();  // "a" then U+00E9
    let mut bw = BufWriter::new(vec![0u8; 8]);
    assert!(bw.write_str(&s).is_ok());
    assert_eq!(bw.get_bytes(), &[0x61u8, 0xE9]);
    // the error guard still counts bytes: 2 + 3 + 1 > 5
    let mut small = BufWriter::new(vec![0u8; 5]);
    assert!(small.write_str("ab").is_ok());
    assert!(small.write_str(&s).is_err());
    assert_eq!(small.get_bytes(), b"ab");
}

#[test]
fn writer_clear_and_reinit_rewind() {
    let mut bw = BufWriter::new(vec![0u8; 8]);
    bw.write_str("hi").unwrap();
    bw.clear_buf();
    assert_eq!(bw.get_bytes(), b"");
    bw.write_str("ho").unwrap();
    assert_eq!(bw.get_bytes(), b"ho");
    bw.re_init_buf(vec![0u8; 4]);
    assert_eq!(bw.get_bytes(), b"");
    bw.write_str("x").unwrap();
    assert_eq!(bw.get_bytes(), b"x");
}

struct FakePins {
    a: bool,
    b: bool,
}

impl OptoGpio for FakePins {
    fn spec_a(&self) -> bool {
        self.a
    }

    fn spec_b(&self) -> bool {
        self.b
    }

    fn opto_a_state(&self) -> bool {
        self.a
    }

    fn opto_b_state(&self) -> bool {
        self.b
    }
}

#[test]
fn decoder_counts_edges_by_channel_phase() {
    let mut d = OptoDecoder::new(FakePins { a: true, b: true });
    assert_eq!(d.pos(), 0);
    assert!(matches!(d.dir(), DecodedDir::Stationary));
    // equal channel states step the position up
    d.isr();
    d.isr();
    assert_eq!(d.pos(), 2);
    assert!(matches!(d.dir(), DecodedDir::Positive));
    // differing channel states step it down
    d.pins.b = false;
    d.isr();
    assert_eq!(d.pos(), 1);
    assert!(matches!(d.dir(), DecodedDir::Negative));
}

#[test]
fn decoder_direction_decays_to_stationary() {
    let mut d = OptoDecoder::new(FakePins { a: true, b: true });
    d.isr();
    assert!(matches!(d.dir(), DecodedDir::Positive));
    d.tick(50_000);
    assert!(matches!(d.dir(), DecodedDir::Positive));
    d.tick(50_001);
    assert!(matches!(d.dir(), DecodedDir::Stationary));
    assert_eq!(d.pass_by_duration(), 0);
    assert_eq!(d.pos(), 1);
}

#[test]
fn decoder_position_can_be_rebased() {
    let mut d = OptoDecoder::new(FakePins { a: false, b: false });
    d.isr();
    d.calibrate_pos(100);
    assert_eq!(d.pos(), 100);
}

#[test]
fn speed_vector_holds_its_point() {
    let v = SpeedVector::new(-40, 55);
    assert_eq!(v.pos(), -40);
    assert_eq!(v.speed(), 55);
}

#[test]
fn pen_position_angle() {
    assert_eq!(PenPosition::Default.angle(), 60);
    assert_eq!(PenPosition::Angle(120).angle(), 120);
}
