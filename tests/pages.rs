use stramoot::pages::PageCursor;

/// Pages through a source whose responses report `reports[i]` pages, and
/// returns the pages requested and those kept.
fn run_cursor(reports: &[u16]) -> (Vec<u16>, Vec<u16>) {
    let mut cursor = PageCursor::new();
    let mut requested = Vec::new();
    let mut kept = Vec::new();
    let mut i = 0;
    while let Some(page) = cursor.next_page() {
        requested.push(page);
        let keep = cursor.on_page(reports[i]);
        if keep {
            kept.push(page);
        }
        i += 1;
    }
    (requested, kept)
}

#[test]
fn cursor_reads_exactly_the_reported_pages() {
    let (requested, kept) = run_cursor(&[3, 3, 3]);
    assert_eq!(requested, vec![0, 1, 2]);
    assert_eq!(kept, vec![0, 1, 2]);
}

#[test]
fn cursor_ignores_totals_after_the_first_page() {
    let (requested, kept) = run_cursor(&[2, 9, 9, 9]);
    assert_eq!(requested, vec![0, 1]);
    assert_eq!(kept, vec![0, 1]);
    let (requested, kept) = run_cursor(&[3, 1, 0, 7]);
    assert_eq!(requested, vec![0, 1, 2]);
    assert_eq!(kept, vec![0, 1, 2]);
}

#[test]
fn cursor_with_zero_total_yields_no_page() {
    let (requested, kept) = run_cursor(&[0, 5]);
    assert_eq!(requested, vec![0]);
    assert!(kept.is_empty());
}

#[test]
fn cursor_single_page() {
    let (requested, kept) = run_cursor(&[1]);
    assert_eq!(requested, vec![0]);
    assert_eq!(kept, vec![0]);
}

#[test]
fn cursor_stops_after_error() {
    let mut cursor = PageCursor::new();
    assert_eq!(cursor.next_page(), Some(0));
    assert!(cursor.on_page(4));
    assert_eq!(cursor.next_page(), Some(1));
    cursor.on_error();
    assert_eq!(cursor.next_page(), None);
    assert_eq!(cursor.position(), 1);
}

#[test]
fn cursor_handles_the_largest_total() {
    let mut cursor = PageCursor::new();
    let mut count: u32 = 0;
    while let Some(page) = cursor.next_page() {
        assert_eq!(page as u32, count);
        assert!(cursor.on_page(u16::MAX));
        count += 1;
    }
    assert_eq!(count, u16::MAX as u32);
}
