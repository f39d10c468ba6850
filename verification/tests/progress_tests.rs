use album_sync::progress::TransferProgress;

#[test]
fn a_fresh_counter_starts_at_zero() {
    let p = TransferProgress::new(10);
    assert_eq!(p.completed, 0);
    assert_eq!(p.total, 10);
}

#[test]
fn advance_counts_one_item_at_a_time() {
    let mut p = TransferProgress::new(3);
    p.advance();
    assert_eq!(p.completed, 1);
    p.advance();
    p.advance();
    assert_eq!(p.completed, 3);
    assert_eq!(p.total, 3);
}

#[test]
fn the_progress_line_shows_the_counts() {
    let mut p = TransferProgress::new(10);
    p.advance();
    p.advance();
    p.advance();
    assert_eq!(p.message("uploaded"), "uploaded 3 / 10 files");
    assert_eq!(p.message("Downloaded"), "Downloaded 3 / 10 files");
}
