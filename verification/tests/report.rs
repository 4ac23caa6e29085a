use dfree::report::disk_line;

#[test]
fn gigabyte_disk_line() {
    // The end-to-end shape for one enumerated disk record.
    let line = disk_line("/", 500_000_000_000, 120_000_000_000);
    assert_eq!(line, "/ total:500.0 GB free: 120.0 GB");
}

#[test]
fn line_keeps_exact_punctuation() {
    // No space after "total:", one space after "free:".
    let line = disk_line("/home", 4_200, 42);
    assert_eq!(line, "/home total:4.2 KB free: 42 B");
}

#[test]
fn free_may_exceed_total() {
    // The line builder validates nothing: it renders what it is given.
    let line = disk_line("/tmp", 1000, 4_200_000);
    assert_eq!(line, "/tmp total:1000 B free: 4.2 MB");
}
