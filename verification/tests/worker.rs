use collector::collector::article::collect_article;
use collector::collector::article::collect_article_at;
use collector::collector::article::is_article_deleted;
use collector::collector::article::is_article_deleted_at;
use collector::collector::article::Article;
use collector::collector::article::CollectArticleResult;
use collector::collector::article::Collected;
use collector::collector::article::DeletedArticle;
use collector::collector::board::PageMeta;
use collector::article::article::ArticleError;

fn meta(id: u64) -> PageMeta {
    PageMeta { id, title: String::from("t"), has_image: true }
}

fn page(images: &[&str]) -> String {
    let mut html = String::from(
        "<div id=\"container\"><header><div class=\"gallview_head\">\
         <span class=\"title_subject\">subject</span></div>\
         <span class=\"gall_date\">now</span><span class=\"nickname\"><em>author</em></span></header>\
         <div class=\"writing_view_box\"><div class=\"write_div\">body",
    );
    for src in images {
        html.push_str(&format!("<img src=\"{}\">", src));
    }
    html.push_str("</div></div></div>");
    html
}

fn article(id: u64) -> Article {
    Article {
        id,
        timestamp: 1,
        author: String::from("a"),
        subject: String::from("s"),
        content: String::from("c"),
        attach: Vec::new(),
    }
}

#[test]
fn not_found_is_a_tombstone_whatever_the_body() {
    for body in ["", "<html>anything</html>", &page(&["http://i/1.png"])] {
        match collect_article_at(meta(8), 404, body, "ref", 77) {
            Ok(Collected::Ready(CollectArticleResult::DeletedArticle(d))) => {
                assert_eq!((d.id, d.timestamp), (8, 77));
            }
            _ => panic!("a missing page is a tombstone"),
        }
    }
}

#[test]
fn tombstone_made_now_carries_a_recent_time() {
    match collect_article(meta(8), 404, "", "ref") {
        Ok(Collected::Ready(CollectArticleResult::DeletedArticle(d))) => {
            assert_eq!(d.id, 8);
            assert!(d.timestamp > 1_600_000_000_000_000);
        }
        _ => panic!("a missing page is a tombstone"),
    }
}

#[test]
fn page_without_required_field_is_a_structural_failure() {
    assert_eq!(collect_article_at(meta(8), 200, "<p>nothing</p>", "ref", 1).err(), Some(ArticleError::MissingCreated));
    assert_eq!(collect_article_at(meta(8), 500, "", "ref", 1).err(), Some(ArticleError::MissingCreated));
}

#[test]
fn page_without_images_is_complete_at_once() {
    match collect_article_at(meta(8), 200, &page(&[]), "ref", 55) {
        Ok(Collected::Ready(CollectArticleResult::Article(a))) => {
            assert_eq!((a.id, a.timestamp), (8, 55));
            assert_eq!(a.author, "author");
            assert_eq!(a.subject, "subject");
            assert_eq!(a.content, "body");
            assert!(a.attach.is_empty());
        }
        _ => panic!("no attachment is left to fetch"),
    }
}

#[test]
fn two_attachments_stored_complete_the_record() {
    let draft = match collect_article_at(meta(8), 200, &page(&["http://i/1.png", "http://i/2.png"]), "ref", 55) {
        Ok(Collected::Fetch(draft)) => draft,
        _ => panic!("two attachments are to be fetched"),
    };
    assert_eq!(draft.pending(), "http://i/1.png");
    assert_eq!(draft.referer(), "ref");
    let draft = match draft.advance_at(Some("/data/a.png".to_string()), 60) {
        Collected::Fetch(draft) => draft,
        _ => panic!("one attachment is left"),
    };
    assert_eq!(draft.pending(), "http://i/2.png");
    match draft.advance_at(Some("/data/b.png".to_string()), 70) {
        Collected::Ready(CollectArticleResult::Article(a)) => {
            assert_eq!((a.id, a.timestamp), (8, 70));
            assert_eq!(a.attach.len(), 2);
            assert_eq!(a.attach[0].origin_src, "http://i/1.png");
            assert_eq!(a.attach[0].copied_path, "/data/a.png");
            assert_eq!(a.attach[1].origin_src, "http://i/2.png");
            assert_eq!(a.attach[1].copied_path, "/data/b.png");
        }
        _ => panic!("both attachments are stored"),
    }
}

#[test]
fn second_of_two_attachments_failing_gives_no_record() {
    let draft = match collect_article(meta(8), 200, &page(&["http://i/1.png", "http://i/2.png"]), "ref") {
        Ok(Collected::Fetch(draft)) => draft,
        _ => panic!("two attachments are to be fetched"),
    };
    let draft = match draft.advance(Some("/data/a.png".to_string())) {
        Collected::Fetch(draft) => draft,
        _ => panic!("one attachment is left"),
    };
    match draft.advance(None) {
        Collected::Abandoned(id, src) => {
            assert_eq!(id, 8);
            assert_eq!(src, "http://i/2.png");
        }
        _ => panic!("a failed download abandons the record"),
    }
}

#[test]
fn first_attachment_failing_gives_no_record() {
    let draft = match collect_article_at(meta(8), 200, &page(&["http://i/1.png"]), "ref", 1) {
        Ok(Collected::Fetch(draft)) => draft,
        _ => panic!("one attachment is to be fetched"),
    };
    assert!(matches!(draft.advance_at(None, 2), Collected::Abandoned(8, _)));
}

#[test]
fn probe_tells_deleted_from_standing() {
    match is_article_deleted_at(article(3), 404, 9) {
        CollectArticleResult::DeletedArticle(DeletedArticle { id, timestamp }) => assert_eq!((id, timestamp), (3, 9)),
        _ => panic!("a missing page is a tombstone"),
    }
    for status in [200u16, 301, 403, 500] {
        match is_article_deleted_at(article(3), status, 9) {
            CollectArticleResult::Article(a) => assert_eq!((a.id, a.timestamp), (3, 1)),
            _ => panic!("any other answer leaves the article"),
        }
    }
    assert!(matches!(is_article_deleted(article(3), 404), CollectArticleResult::DeletedArticle(_)));
    assert!(matches!(is_article_deleted(article(3), 200), CollectArticleResult::Article(_)));
}

#[test]
fn results_convert_from_their_parts() {
    assert!(matches!(CollectArticleResult::from(article(1)), CollectArticleResult::Article(_)));
    assert!(matches!(
        CollectArticleResult::from(DeletedArticle { id: 1, timestamp: 2 }),
        CollectArticleResult::DeletedArticle(_)
    ));
}
