use egui_screensaver_matrix::gl_util::{fallback_format, PingPong, TargetFormat};

#[test]
fn half_float_falls_back_to_rgba8_once() {
    assert_eq!(fallback_format(TargetFormat::Rgba16F), Some(TargetFormat::Rgba8));
    assert_eq!(fallback_format(TargetFormat::Rgba8), None);
}

#[test]
fn ping_pong_writes_first_buffer_first() {
    let pair = PingPong::new("a", "b");
    assert_eq!(*pair.write(), "a");
    assert_eq!(*pair.read(), "b");
}

#[test]
fn ping_pong_swap_exchanges_roles() {
    let mut pair = PingPong::new(1, 2);
    pair.swap();
    assert_eq!(*pair.write(), 2);
    assert_eq!(*pair.read(), 1);
    pair.swap();
    assert_eq!(*pair.write(), 1);
    assert_eq!(*pair.read(), 2);
}

#[test]
fn ping_pong_buffers_keep_roles() {
    let mut pair = PingPong::new(10, 20);
    pair.swap();
    {
        let (a, b) = pair.buffers_mut();
        *a += 1;
        *b += 1;
    }
    assert_eq!(pair.buffers(), (&11, &21));
    assert_eq!(*pair.write(), 21);
    assert_eq!(*pair.read(), 11);
}
