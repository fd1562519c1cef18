use collector::collector::article::Article;
use collector::collector::delete::collect_delete;
use collector::collector::delete::collect_delete_at;
use collector::collector::delete::recent_ids;
use collector::collector::delete::holds;
use collector::collector::delete::monitor_targets;
use collector::collector::delete::DeleteStep;
use collector::collector::delete_entity::insert;
use collector::collector::delete_entity::Delete;
use collector::collector::delete_entity::TABLE_NAME;
use collector::collector::article::DeletedArticle;
use collector::entity::Entity;

fn article(id: u64) -> Article {
    Article {
        id,
        timestamp: 0,
        author: String::new(),
        subject: String::new(),
        content: String::new(),
        attach: Vec::new(),
    }
}

fn articles(ids: &[u64]) -> Vec<Article> {
    ids.iter().map(|id| article(*id)).collect()
}

fn run(candidates: &[u64], deleted: &[u64], statuses: &[Option<u16>]) -> (Vec<u64>, DeleteStep) {
    let mut probed = Vec::new();
    let mut step = collect_delete_at(&articles(candidates), &deleted.to_vec(), 1000);
    let mut answers = statuses.iter();
    loop {
        let pass = match step {
            DeleteStep::Probe(pass) => pass,
            other => return (probed, other),
        };
        probed.push(pass.pending());
        let status = match answers.next() {
            Some(s) => *s,
            None => return (probed, DeleteStep::Probe(pass)),
        };
        step = pass.advance_at(status, 100 + probed.len() as i64);
    }
}

#[test]
fn targets_leave_out_deleted_and_repeated_numbers() {
    let targets = monitor_targets(&vec![4, 5, 4, 6, 5, 7], &vec![6, 1]);
    assert_eq!(targets, vec![4, 5, 7]);
    assert!(monitor_targets(&Vec::new(), &vec![1]).is_empty());
}

#[test]
fn holds_tells_membership() {
    assert!(holds(&vec![1, 2, 3], 2));
    assert!(!holds(&vec![1, 2, 3], 4));
    assert!(!holds(&Vec::new(), 0));
}

#[test]
fn missing_articles_are_collected_in_order() {
    let (probed, end) = run(&[4, 5, 6], &[], &[Some(404), Some(200), Some(404)]);
    assert_eq!(probed, vec![4, 5, 6]);
    match end {
        DeleteStep::Insert(found) => {
            assert_eq!(found.len(), 2);
            assert_eq!((found[0].id, found[0].timestamp), (4, 101));
            assert_eq!((found[1].id, found[1].timestamp), (6, 103));
        }
        _ => panic!("two articles are missing"),
    }
}

#[test]
fn nothing_missing_inserts_nothing() {
    let (_, end) = run(&[4, 5], &[], &[Some(200), Some(500)]);
    assert!(matches!(end, DeleteStep::Nothing));
    let (probed, end) = run(&[], &[], &[]);
    assert!(probed.is_empty());
    assert!(matches!(end, DeleteStep::Nothing));
}

#[test]
fn failed_probe_skips_the_pass() {
    let (probed, end) = run(&[4, 5, 6], &[], &[Some(404), None, Some(404)]);
    assert_eq!(probed, vec![4, 5]);
    assert!(matches!(end, DeleteStep::Skipped));
}

#[test]
fn no_second_tombstone_for_a_deleted_or_repeated_article() {
    let (probed, end) = run(&[4, 4, 5, 4], &[5], &[Some(404), Some(404), Some(404)]);
    assert_eq!(probed, vec![4]);
    match end {
        DeleteStep::Insert(found) => {
            assert_eq!(found.len(), 1);
            assert_eq!(found[0].id, 4);
        }
        _ => panic!("one article is missing"),
    }
    let (probed, end) = run(&[5], &[5], &[Some(404)]);
    assert!(probed.is_empty());
    assert!(matches!(end, DeleteStep::Nothing));
}

#[test]
fn articles_older_than_the_window_are_not_looked_at() {
    let two_hours: i64 = 7_200_000_000;
    let now: i64 = 1_700_000_000_000_000;
    let mut candidates = articles(&[1, 2, 3, 4]);
    candidates[0].timestamp = now - two_hours - 1;
    candidates[1].timestamp = now - two_hours;
    candidates[2].timestamp = now - two_hours + 1;
    candidates[3].timestamp = now;
    assert_eq!(recent_ids(&candidates, Some(now - two_hours)), vec![3, 4]);
    assert_eq!(recent_ids(&candidates, None), vec![1, 2, 3, 4]);
    let pass = match collect_delete_at(&candidates, &Vec::new(), now) {
        DeleteStep::Probe(pass) => pass,
        _ => panic!("two targets are to be probed"),
    };
    assert_eq!(pass.pending(), 3);
    assert!(matches!(collect_delete(&candidates, &Vec::new()), DeleteStep::Nothing));
}

#[test]
fn pass_stamps_with_the_current_time() {
    let mut fresh = articles(&[4]);
    fresh[0].timestamp = i64::MAX;
    let pass = match collect_delete(&fresh, &Vec::new()) {
        DeleteStep::Probe(pass) => pass,
        _ => panic!("one target is to be probed"),
    };
    match pass.advance(Some(404)) {
        DeleteStep::Insert(found) => assert!(found[0].timestamp > 1_600_000_000_000_000),
        _ => panic!("the article is missing"),
    }
}

#[test]
fn notices_become_rows_one_for_one() {
    let rows = insert(vec![
        DeletedArticle { id: 4, timestamp: 10 },
        DeletedArticle { id: 6, timestamp: 20 },
    ]);
    assert_eq!(rows.len(), 2);
    assert_eq!((rows[0].id, rows[0].timestamp), (4, 10));
    assert_eq!((rows[1].id, rows[1].timestamp), (6, 20));
    assert_ne!(rows[0].uid, rows[1].uid);
    let row = Delete::from_with(DeletedArticle { id: 1, timestamp: 2 }, 3);
    assert_eq!(row, Delete { uid: 3, id: 1, timestamp: 2 });
    assert_eq!(Delete::from(DeletedArticle { id: 1, timestamp: 2 }).id, 1);
    assert_eq!(Delete::table_name(), "article_deleted");
    assert_eq!(TABLE_NAME, "article_deleted");
}
