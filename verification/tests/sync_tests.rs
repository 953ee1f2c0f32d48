use activity_relay::activity::{Activity, Media, User};
use activity_relay::sync::SyncCycle;

fn act(id: u32, created_at: i64) -> Activity {
    Activity {
        id,
        status: String::from("completed"),
        progress: None,
        created_at,
        user: User { name: Some(String::from("alice")), avatar: None },
        media: Media {
            title: String::from("Some Show"),
            site_url: String::from("https://feed.example/show"),
            cover_image: None,
            banner_image: None,
        },
    }
}

#[test]
fn publishes_oldest_first_and_commits_newest() {
    // fetch order is newest-first: ids 5, 4, 3 with matching timestamps
    let batch = vec![act(5, 50), act(4, 40), act(3, 30)];
    let mut cycle = SyncCycle::new(batch);
    let mut published: Vec<u32> = Vec::new();
    while cycle.in_progress() {
        let next = cycle.next_to_publish().expect("cycle said in progress");
        published.push(next.id);
        cycle.record_published();
    }
    assert_eq!(published, vec![3, 4, 5]);
    assert_eq!(cycle.commit_timestamp(), Some(50));
}

#[test]
fn empty_fetch_is_noop() {
    let cycle = SyncCycle::new(Vec::new());
    assert!(!cycle.in_progress());
    assert!(cycle.next_to_publish().is_none());
    assert_eq!(cycle.commit_timestamp(), None);
}

#[test]
fn failure_mid_batch_stops_the_cycle() {
    let batch = vec![act(5, 50), act(4, 40), act(3, 30)];
    let mut cycle = SyncCycle::new(batch);

    // activity 3 publishes fine
    assert_eq!(cycle.next_to_publish().unwrap().id, 3);
    cycle.record_published();

    // activity 4 is attempted and its publish fails
    assert_eq!(cycle.next_to_publish().unwrap().id, 4);
    cycle.record_failure();

    // activity 5 is never attempted, and no watermark write happens
    assert!(cycle.next_to_publish().is_none());
    assert!(!cycle.in_progress());
    assert_eq!(cycle.commit_timestamp(), None);
}

#[test]
fn no_commit_while_batch_is_unfinished() {
    let batch = vec![act(2, 20), act(1, 10)];
    let mut cycle = SyncCycle::new(batch);
    assert_eq!(cycle.commit_timestamp(), None);
    cycle.record_published();
    assert_eq!(cycle.commit_timestamp(), None);
    cycle.record_published();
    assert_eq!(cycle.commit_timestamp(), Some(20));
}

#[test]
fn single_activity_batch() {
    let mut cycle = SyncCycle::new(vec![act(9, 90)]);
    assert_eq!(cycle.next_to_publish().unwrap().id, 9);
    cycle.record_published();
    assert!(cycle.next_to_publish().is_none());
    assert_eq!(cycle.commit_timestamp(), Some(90));
}
