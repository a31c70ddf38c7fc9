use lib::indicators::math::decay::LagStream;
use lib::indicators::math::Lag;
use lib::window::LagWindow;

#[test]
fn window_returns_sample_from_period_ago() {
    let mut w: LagWindow<i32> = LagWindow::new(3);
    assert_eq!(w.push(1), None);
    assert_eq!(w.push(2), None);
    assert_eq!(w.push(3), None);
    assert_eq!(w.push(4), Some(1));
    assert_eq!(w.push(5), Some(2));
    assert_eq!(w.push(6), Some(3));
    assert_eq!(w.push(7), Some(4));
}

#[test]
fn window_of_one_returns_previous() {
    let mut w: LagWindow<char> = LagWindow::new(1);
    assert_eq!(w.push('a'), None);
    assert_eq!(w.push('b'), Some('a'));
    assert_eq!(w.push('c'), Some('b'));
}

#[test]
fn lag_batch_drops_trailing_samples() {
    let input = [1.0f64, 2.0, 3.0, 4.0, 5.0];
    assert_eq!(Lag.run(&input, 2), vec![1.0, 2.0, 3.0]);
    assert_eq!(Lag.run(&input, 0), input.to_vec());
    assert_eq!(Lag.run(&input, 5), Vec::<f64>::new());
    assert_eq!(Lag.run(&input, 9), Vec::<f64>::new());
}

#[test]
fn lag_stream_matches_batch_in_chunks() {
    let input: Vec<f64> = (0..20).map(|i| i as f64 * 1.5).collect();
    for period in 0..6usize {
        let batch = Lag.run(&input, period);
        for chunk in 1..7usize {
            let mut stream: LagStream<f64> = Lag.create_stream(period);
            let mut streamed = Vec::new();
            for part in input.chunks(chunk) {
                streamed.extend(stream.feed(part));
            }
            assert_eq!(streamed, batch);
            assert_eq!(stream.progress(), input.len());
        }
    }
}

#[test]
fn lag_stream_metadata() {
    let stream: LagStream<u8> = LagStream::new(2);
    assert_eq!(stream.metadata().name, "lag");
    assert_eq!(stream.progress(), 0);
}
