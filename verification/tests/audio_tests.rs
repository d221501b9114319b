use whisp_rs::audio::AudioCapture;

#[test]
fn capture_settings() {
    let a = AudioCapture::new(16000, 1);
    assert_eq!(a.sample_rate(), 16000);
    assert_eq!(a.channels(), 1);
    assert_eq!(a.program(), "arecord");
}

#[test]
fn arecord_arguments() {
    let a = AudioCapture::new(16000, 1);
    assert_eq!(
        a.arecord_args(),
        vec!["-f", "S16_LE", "-r", "16000", "-c", "1", "-t", "raw", "-"]
    );
    let b = AudioCapture::new(48000, 2);
    assert_eq!(b.arecord_args()[3], "48000");
    assert_eq!(b.arecord_args()[5], "2");
}

#[test]
fn arecord_arguments_extremes() {
    let a = AudioCapture::new(u32::MAX, u16::MAX);
    assert_eq!(a.arecord_args()[3], u32::MAX.to_string());
    assert_eq!(a.arecord_args()[5], u16::MAX.to_string());
    let z = AudioCapture::new(0, 0);
    assert_eq!(z.arecord_args()[3], "0");
}
