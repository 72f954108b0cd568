use goertzel::{SampleWindow, WindowCountMismatch};

#[test]
fn whole_window_in_one_chunk_finishes() {
    let w = SampleWindow::new(256).add(256);
    assert_eq!(w.count(), 256);
    assert_eq!(w.window_size(), 256);
    assert_eq!(w.finish(), Ok(()));
}

#[test]
fn two_halves_finish_like_one_chunk() {
    let split = SampleWindow::new(256).add(128).add(128);
    let whole = SampleWindow::new(256).add(256);
    assert_eq!(split.count(), whole.count());
    assert_eq!(split.finish(), whole.finish());
    assert_eq!(split.finish(), Ok(()));
}

#[test]
fn one_sample_at_a_time_and_empty_chunks() {
    let mut w = SampleWindow::new(8000);
    for _ in 0..8000 {
        w = w.add(0).add(1);
    }
    assert_eq!(w.count(), 8000);
    assert_eq!(w.finish(), Ok(()));
}

#[test]
fn fresh_window_is_empty() {
    let w = SampleWindow::new(256);
    assert_eq!(w.count(), 0);
    assert_eq!(w.window_size(), 256);
}

#[test]
fn underfilled_window_is_refused() {
    let w = SampleWindow::new(256).add(128);
    assert_eq!(
        w.finish(),
        Err(WindowCountMismatch::Underfilled { expected: 256, actual: 128 })
    );
}

#[test]
fn overfilled_window_is_refused() {
    let w = SampleWindow::new(256).add(128).add(129);
    assert_eq!(
        w.finish(),
        Err(WindowCountMismatch::Overfilled { expected: 256, actual: 257 })
    );
}

#[test]
fn empty_window_finishes_without_samples() {
    assert_eq!(SampleWindow::new(0).finish(), Ok(()));
    assert_eq!(
        SampleWindow::new(0).add(1).finish(),
        Err(WindowCountMismatch::Overfilled { expected: 0, actual: 1 })
    );
}

#[test]
fn largest_count_fits() {
    let w = SampleWindow::new(usize::MAX).add(usize::MAX - 1).add(1);
    assert_eq!(w.count(), usize::MAX);
    assert_eq!(w.finish(), Ok(()));
}
