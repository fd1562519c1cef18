use collector::article::attach::ArticleFile;
use collector::collector::article::Article;
use collector::collector::article::Attach;
use collector::collector::entity::articles_from;
use collector::collector::entity::get_last_id;
use collector::collector::entity::get_monitor_target;
use collector::collector::entity::insert;
use collector::collector::entity::NoRow;
use collector::collector::entity::TABLE_NAME;
use collector::entity::Entity;

fn article(id: u64, attach: &[(&str, &str)]) -> Article {
    Article {
        id,
        timestamp: 10 + id as i64,
        author: format!("author{}", id),
        subject: format!("subject{}", id),
        content: format!("content{}", id),
        attach: attach
            .iter()
            .map(|(s, p)| Attach { origin_src: s.to_string(), copied_path: p.to_string() })
            .collect(),
    }
}

#[test]
fn article_becomes_a_row_with_parallel_attachment_lists() {
    let row = collector::collector::entity::Article::from_with(article(3, &[("u1", "/f/a"), ("u2", "/f/b")]), 99);
    assert_eq!((row.uid, row.id, row.timestamp), (99, 3, 13));
    assert_eq!(row.author, "author3");
    assert_eq!(row.subject, "subject3");
    assert_eq!(row.content, "content3");
    assert_eq!(row.attach_origin_src, vec!["u1", "u2"]);
    assert_eq!(row.attach_copied_path, vec!["/f/a", "/f/b"]);
    assert_eq!(collector::collector::entity::Article::table_name(), "article");
    assert_eq!(TABLE_NAME, "article");
}

#[test]
fn row_becomes_the_article_again() {
    let row = collector::collector::entity::Article::from(article(3, &[("u1", "/f/a"), ("u2", "/f/b")]));
    let back = row.into();
    assert_eq!((back.id, back.timestamp), (3, 13));
    assert_eq!(back.author, "author3");
    assert_eq!(back.attach.len(), 2);
    assert_eq!((back.attach[1].origin_src.as_str(), back.attach[1].copied_path.as_str()), ("u2", "/f/b"));
}

#[test]
fn uneven_attachment_lists_pair_as_far_as_both_go() {
    let mut row = collector::collector::entity::Article::from_with(article(3, &[("u1", "/f/a")]), 1);
    row.attach_origin_src.push("u2".to_string());
    let back = row.into();
    assert_eq!(back.attach.len(), 1);
}

#[test]
fn rows_are_made_one_for_one_with_fresh_identifiers() {
    let rows = insert(vec![article(1, &[]), article(2, &[("u", "p")])]);
    assert_eq!(rows.len(), 2);
    assert_eq!((rows[0].id, rows[1].id), (1, 2));
    assert_ne!(rows[0].uid, rows[1].uid);
    let back = articles_from(rows);
    assert_eq!(back.len(), 2);
    assert_eq!(back[1].attach[0].origin_src, "u");
}

#[test]
fn last_id_wants_a_row() {
    assert_eq!(get_last_id(Some(8)), Ok(8));
    assert_eq!(get_last_id(None), Err(NoRow));
}

#[test]
fn monitor_bound_lies_two_hours_back() {
    let now = 1_700_000_000_123_456i64;
    assert_eq!(get_monitor_target(now).as_deref(), Some("2023-11-14T20:13:20.123456"));
    assert_eq!(get_monitor_target(7_200_000_000).as_deref(), Some("1970-01-01T00:00:00.000000"));
    assert_eq!(get_monitor_target(i64::MIN), None);
    assert_eq!(get_monitor_target(i64::MIN + 7_200_000_000), None);
}

#[test]
fn article_with_files_becomes_a_row() {
    let a = collector::article::article::Article {
        id: 4,
        timestamp: 5,
        author: "a".to_string(),
        subject: "s".to_string(),
        content: "c".to_string(),
        url: "u".to_string(),
        attach_src: vec!["x".to_string()],
    };
    let files = vec![ArticleFile { origin_src: "x".to_string(), copied_path: "/p".to_string() }];
    let row = collector::create_article::entity::Article::from_with((a, files), 6);
    assert_eq!((row.uid, row.id, row.timestamp), (6, 4, 5));
    assert_eq!(row.attach_origin_src, vec!["x"]);
    assert_eq!(row.attach_copied_path, vec!["/p"]);
    assert_eq!(collector::create_article::entity::Article::table_name(), "logs");
}
