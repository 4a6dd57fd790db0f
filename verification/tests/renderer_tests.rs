use framepipe::rat::Rat;
use framepipe::renderer::Renderer;

fn frame_buffer(width: u32, height: u32, tag: u8) -> Vec<u8> {
    let len = (width as usize) * (height as usize) * 4;
    let mut buf = vec![0u8; len];
    buf[0] = tag;
    buf
}

#[test]
fn total_frame_count_is_exact_product() {
    let r = Renderer::new(15, 60, 1800, 1000);
    assert_eq!(r.total_frame_count(), 900);
    let r = Renderer::new(2, 10, 4, 4);
    assert_eq!(r.total_frame_count(), 20);
    let r = Renderer::new(1, 1, 1, 1);
    assert_eq!(r.total_frame_count(), 1);
}

#[test]
fn frame_size_is_kept() {
    let r = Renderer::new(1, 2, 640, 480);
    assert_eq!(r.get_frame_size(), (640, 480));
}

#[test]
fn clock_is_strictly_increasing_over_the_grid() {
    let mut r = Renderer::new(2, 10, 2, 2);
    let n = r.total_frame_count();
    assert_eq!(n, 20);
    let mut prev: Option<Rat> = None;
    let mut k: u64 = 0;
    while let Some(frame) = r.get_frame() {
        let t = r.t();
        // t() is exactly frame_counter / total_frame_count
        assert_eq!(t.num, k);
        assert_eq!(t.den, n);
        if let Some(p) = prev {
            assert!(p.lt(t));
        }
        prev = Some(t);
        let buf = frame_buffer(2, 2, k as u8);
        r.submit(frame, &buf);
        k += 1;
    }
    // the (N + 1)-th request produces nothing
    assert_eq!(k, 20);
    assert!(r.get_frame().is_none());
    assert_eq!(r.frame_count(), 20);
    // the clock reaches exactly one only after the last frame is submitted
    assert!(r.t().eq_rat(Rat::new(1, 1)));
}

#[test]
fn duration_parameter_is_exact() {
    let r = Renderer::new(15, 60, 4, 4);
    let one_second = Rat::new(1, 1);
    let p = r.get_duration_parameter(one_second);
    assert_eq!(p.num, 60);
    assert_eq!(p.den, 900);
    assert!(p.eq_rat(Rat::new(1, 15)));

    let half_second = Rat::new(1, 2);
    let q = r.get_duration_parameter(half_second);
    assert_eq!(q.num, 60);
    assert_eq!(q.den, 1800);
    assert!(q.eq_rat(Rat::new(1, 30)));
}

#[test]
fn duration_parameter_round_trips() {
    let r = Renderer::new(15, 60, 4, 4);
    let n: u128 = r.total_frame_count() as u128;
    let fps: u128 = 60;
    for (sn, sd) in [(1u128, 1u128), (4, 1), (12, 1), (15, 1), (7, 2), (0, 1)] {
        let p = r.get_duration_parameter(Rat::new(sn as u64, sd as u64));
        // p * total_frame_count / fps == seconds, cross-multiplied
        assert_eq!((p.num as u128) * n * sd, sn * ((p.den as u128) * fps));
    }
}

#[test]
fn pipeline_submits_every_frame_in_order() {
    let mut r = Renderer::new(2, 10, 2, 2);
    let mut sent: Vec<Vec<u8>> = Vec::new();
    let mut k: u8 = 0;
    while let Some(frame) = r.get_frame() {
        assert_eq!(frame.index(), k as u64);
        // exactly one frame is in flight until it is submitted
        assert!(r.frame_live);
        let buf = frame_buffer(2, 2, k);
        let copy = r.submit(frame, &buf);
        assert!(!r.frame_live);
        assert_eq!(copy, buf);
        sent.push(copy);
        k += 1;
        assert_eq!(r.frame_count(), k as u64);
    }
    // exactly 20 distinct buffers, in submission order
    assert_eq!(sent.len(), 20);
    for (i, buf) in sent.iter().enumerate() {
        assert_eq!(buf.len(), 16);
        assert_eq!(buf[0], i as u8);
        for other in sent.iter().skip(i + 1) {
            assert_ne!(buf, other);
        }
    }
    // the render succeeds exactly when the encoder exited successfully
    assert!(r.finish(true));
    // after finish the clock stays exhausted: no further frame is issued
    assert!(r.get_frame().is_none());

    let mut r2 = Renderer::new(1, 1, 1, 1);
    let frame = r2.get_frame().unwrap();
    let buf = frame_buffer(1, 1, 9);
    r2.submit(frame, &buf);
    assert!(!r2.finish(false));
}
