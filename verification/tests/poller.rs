use collector::collector::board::collect_list;
use collector::collector::board::PageMeta;
use collector::collector::scheduler::collect_metas;
use collector::collector::scheduler::poll;
use collector::collector::scheduler::start_after;

fn meta(id: u64) -> PageMeta {
    PageMeta { id, title: format!("t{}", id), has_image: false }
}

fn ids(metas: &[PageMeta]) -> Vec<u64> {
    metas.iter().map(|m| m.id).collect()
}

fn board(numbers: &[u64]) -> String {
    let mut html = String::from("<div class=\"listwrap2\"><table><tbody>");
    for n in numbers {
        html.push_str(&format!(
            "<tr class=\"ub-content us-post\"><td class=\"gall_num\">{}</td>\
             <td class=\"gall_tit ub-word\"><a>post {}</a></td></tr>",
            n, n
        ));
    }
    html.push_str("</tbody></table></div>");
    html
}

#[test]
fn page_5_7_9_with_cursor_5_gives_7_9_and_cursor_9() {
    let mut cursor = 5;
    let fresh = collect_metas(&mut cursor, vec![meta(5), meta(7), meta(9)]);
    assert_eq!(ids(&fresh), vec![7, 9]);
    assert_eq!(cursor, 9);
}

#[test]
fn items_that_share_the_page_with_the_maximum_are_kept() {
    let mut cursor = 0;
    let fresh = collect_metas(&mut cursor, vec![meta(9), meta(3), meta(7)]);
    assert_eq!(ids(&fresh), vec![9, 3, 7]);
    assert_eq!(cursor, 9);
}

#[test]
fn cursor_never_moves_back() {
    let mut cursor = 20;
    let fresh = collect_metas(&mut cursor, vec![meta(5), meta(7)]);
    assert!(fresh.is_empty());
    assert_eq!(cursor, 20);
    let fresh = collect_metas(&mut cursor, Vec::new());
    assert!(fresh.is_empty());
    assert_eq!(cursor, 20);
}

#[test]
fn cursor_starts_at_the_stored_maximum_or_zero() {
    assert_eq!(start_after(Some(17)), 17);
    assert_eq!(start_after(None), 0);
}

#[test]
fn board_is_the_listing_line_by_line() {
    let metas = collect_list(&board(&[4, 6])).unwrap();
    assert_eq!(ids(&metas), vec![4, 6]);
    assert_eq!(metas[0].title, "post 4");
    assert!(!metas[0].has_image);
}

#[test]
fn poll_reads_the_page_and_advances() {
    let mut cursor = 5;
    let fresh = poll(&mut cursor, Some(&board(&[5, 7, 9])));
    assert_eq!(ids(&fresh), vec![7, 9]);
    assert_eq!(cursor, 9);
    let fresh = poll(&mut cursor, Some(&board(&[5, 7, 9])));
    assert!(fresh.is_empty());
    assert_eq!(cursor, 9);
}

#[test]
fn failed_poll_is_skipped_and_leaves_the_cursor() {
    let mut cursor = 5;
    assert!(poll(&mut cursor, None).is_empty());
    assert_eq!(cursor, 5);
    let bad = board(&[6]).replace(">6<", ">six<");
    assert!(poll(&mut cursor, Some(&bad)).is_empty());
    assert_eq!(cursor, 5);
}
