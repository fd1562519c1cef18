use collector::article::article::collect_attach_src;
use collector::article::article::get_article;
use collector::article::article::get_article_at;
use collector::article::article::page_from;
use collector::article::article::page_url;
use collector::article::article::parse_page;
use collector::article::article::ArticleError;
use collector::article::article::ArticleResult;
use collector::article::list::collect_list;
use collector::article::list::header_from;
use collector::article::list::headers_from;
use collector::article::list::ListError;

fn detail(created: bool, author: bool, subject: bool, content: bool) -> String {
    let mut html = String::from("<html><body><div id=\"container\"><header><div class=\"gallview_head\">");
    if subject {
        html.push_str("<span class=\"title_subject\">A subject</span>");
    }
    if created {
        html.push_str("<span class=\"gall_date\">2024.01.02 03:04:05</span>");
    }
    if author {
        html.push_str("<span class=\"nickname\"><em>someone</em></span>");
    }
    html.push_str("</div></header><div class=\"writing_view_box\">");
    if content {
        html.push_str(
            "<div class=\"write_div\">first\n\tline<p>second <b>line</b></p>\
             <img src=\"http://img/1.png\"><img alt=\"no source\"><img src=\"http://img/2.gif\"></div>\
             <div class=\"write_div\">other<img src=\"http://img/3.png\"></div>",
        );
    }
    html.push_str("</div></div><img src=\"http://img/outside.png\"></body></html>");
    html
}

fn listing() -> String {
    String::from(
        "<html><body><div class=\"listwrap2\"><table><tbody>\
         <tr class=\"ub-content us-post\"><td class=\"gall_num\">5</td>\
         <td class=\"gall_tit ub-word\"><a href=\"/5\">five</a></td></tr>\
         <tr class=\"ub-content us-post\"><td class=\"gall_num\">7</td>\
         <td class=\"gall_tit ub-word\"><a href=\"/7\"><em class=\"icon_img icon_pic\"></em>se\n\tven</a></td></tr>\
         <tr class=\"ub-content\"><td class=\"gall_num\">8</td>\
         <td class=\"gall_tit ub-word\"><a href=\"/8\">not a post</a></td></tr>\
         <tr class=\"ub-content us-post\"><td class=\"gall_num\">100</td></tr>\
         <tr class=\"ub-content us-post\"><td class=\"gall_tit ub-word\"><a href=\"/x\">no number</a></td></tr>\
         <tr class=\"ub-content us-post\"><td class=\"gall_num\">9</td>\
         <td class=\"gall_tit ub-word\"><a href=\"/9\">nine</a></td></tr>\
         </tbody></table></div></body></html>",
    )
}

#[test]
fn page_is_read_from_its_four_fields() {
    let page = parse_page(&detail(true, true, true, true)).unwrap();
    assert_eq!(page.author, "someone");
    assert_eq!(page.subject, "A subject");
    assert_eq!(page.content, "firstlinesecond line");
    assert_eq!(page.attach_src, vec!["http://img/1.png".to_string(), "http://img/2.gif".to_string()]);
}

#[test]
fn missing_fields_are_reported_in_order() {
    assert_eq!(parse_page(&detail(false, false, false, false)).err(), Some(ArticleError::MissingCreated));
    assert_eq!(parse_page(&detail(true, false, false, false)).err(), Some(ArticleError::MissingAuthor));
    assert_eq!(parse_page(&detail(true, true, false, false)).err(), Some(ArticleError::MissingSubject));
    assert_eq!(parse_page(&detail(true, true, true, false)).err(), Some(ArticleError::MissingContent));
    assert_eq!(parse_page("").err(), Some(ArticleError::MissingCreated));
}

#[test]
fn page_from_wants_four_fields_and_image_groups() {
    let full = vec![Some("d".to_string()), Some("a".to_string()), Some("s".to_string()), Some("c\n".to_string())];
    let images = Some(vec![vec![Some("u".to_string()), None]]);
    let page = page_from(&full, &images).unwrap();
    assert_eq!(page.author, "a");
    assert_eq!(page.subject, "s");
    assert_eq!(page.content, "c");
    assert_eq!(page.attach_src, vec!["u".to_string()]);
    assert_eq!(page_from(&full, &None).err(), Some(ArticleError::Selector));
    assert_eq!(page_from(&full[..3].to_vec(), &images).err(), Some(ArticleError::Selector));
    assert!(page_from(&full, &Some(Vec::new())).unwrap().attach_src.is_empty());
}

#[test]
fn images_without_address_are_passed_over() {
    let values = vec![None, Some("a".to_string()), None, Some("b".to_string())];
    assert_eq!(collect_attach_src(&values), vec!["a".to_string(), "b".to_string()]);
    assert!(collect_attach_src(&Vec::new()).is_empty());
}

#[test]
fn not_found_is_a_deleted_article_whatever_the_body() {
    for body in ["", "garbage", &detail(true, true, true, true)] {
        match get_article_at(3, 404, body, "u".to_string(), 11) {
            Ok(ArticleResult::DeletedArticle) => {}
            other => panic!("unexpected {:?}", other),
        }
    }
}

#[test]
fn empty_body_is_an_error_unless_not_found() {
    assert_eq!(get_article_at(3, 200, "", "u".to_string(), 11).err(), Some(ArticleError::EmptyBody));
}

#[test]
fn article_carries_number_time_and_address() {
    match get_article_at(42, 200, &detail(true, true, true, true), "http://page".to_string(), 1234) {
        Ok(ArticleResult::Article(a)) => {
            assert_eq!(a.id, 42);
            assert_eq!(a.timestamp, 1234);
            assert_eq!(a.url, "http://page");
            assert_eq!(a.author, "someone");
            assert_eq!(a.attach_src.len(), 2);
        }
        other => panic!("unexpected {:?}", other),
    }
}

#[test]
fn article_read_now_is_stamped_with_a_recent_time() {
    match get_article(42, 200, &detail(true, true, true, true), "u".to_string()) {
        Ok(ArticleResult::Article(a)) => assert!(a.timestamp > 1_600_000_000_000_000),
        other => panic!("unexpected {:?}", other),
    }
}

#[test]
fn page_url_holds_the_number() {
    assert_eq!(page_url(123), "https://gall.dcinside.com/board/view/?id=baseball_new13&no=123&page=1");
    assert_eq!(page_url(0), "https://gall.dcinside.com/board/view/?id=baseball_new13&no=0&page=1");
}

#[test]
fn listing_keeps_the_posts_with_title_and_number() {
    let headers = collect_list(&listing()).unwrap();
    assert_eq!(headers.len(), 3);
    assert_eq!((headers[0].id, headers[0].title.as_str(), headers[0].has_image), (5, "five", false));
    assert_eq!((headers[1].id, headers[1].title.as_str(), headers[1].has_image), (7, "seven", true));
    assert_eq!((headers[2].id, headers[2].title.as_str(), headers[2].has_image), (9, "nine", false));
}

#[test]
fn empty_document_lists_nothing() {
    assert!(collect_list("").unwrap().is_empty());
}

#[test]
fn one_bad_number_fails_the_listing() {
    let html = listing().replace(">7<", ">seven<");
    assert_eq!(collect_list(&html).err(), Some(ListError::Number));
}

#[test]
fn header_from_reads_three_cells() {
    let row = vec![Some("t\tt".to_string()), Some("12".to_string()), None];
    let h = header_from(&row).unwrap().unwrap();
    assert_eq!((h.id, h.title.as_str(), h.has_image), (12, "tt", false));
    let row = vec![Some("t".to_string()), Some("12".to_string()), Some(String::new())];
    assert!(header_from(&row).unwrap().unwrap().has_image);
    assert!(header_from(&vec![None, Some("x".to_string()), None]).unwrap().is_none());
    assert!(header_from(&vec![Some("t".to_string()), None, None]).unwrap().is_none());
    assert_eq!(header_from(&vec![Some("t".to_string()), Some("-1".to_string()), None]).err(), Some(ListError::Number));
    assert_eq!(header_from(&vec![Some("t".to_string())]).err(), Some(ListError::Selector));
}

#[test]
fn headers_from_skips_and_fails_as_header_from_does() {
    let rows = vec![
        vec![Some("a".to_string()), Some("1".to_string()), None],
        vec![None, Some("bad".to_string()), None],
        vec![Some("b".to_string()), Some("2".to_string()), Some(String::new())],
    ];
    let headers = headers_from(&rows).unwrap();
    assert_eq!(headers.len(), 2);
    assert_eq!(headers[1].id, 2);
    let mut bad = rows;
    bad.push(vec![Some("c".to_string()), Some("x".to_string()), None]);
    assert_eq!(headers_from(&bad).err(), Some(ListError::Number));
}

#[test]
fn errors_say_which_field_and_which_article() {
    assert_eq!(ArticleError::MissingCreated.message(7), "not found created_el id: 7");
    assert_eq!(ArticleError::MissingAuthor.message(70), "not found author_el id: 70");
    assert_eq!(ArticleError::MissingSubject.message(0), "not found subject_el id: 0");
    assert_eq!(ArticleError::MissingContent.message(u64::MAX), format!("not found content_el id: {}", u64::MAX));
    assert_eq!(ArticleError::EmptyBody.message(1), "empty response body");
    assert_eq!(ArticleError::Selector.message(1), "selector refused");
}

#[test]
fn article_converts_into_its_result() {
    let a = collector::article::article::Article {
        id: 1,
        timestamp: 2,
        author: String::new(),
        subject: String::new(),
        content: String::new(),
        url: String::new(),
        attach_src: Vec::new(),
    };
    assert!(matches!(ArticleResult::from(a), ArticleResult::Article(_)));
}
