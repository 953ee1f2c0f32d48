use activity_relay::activity::{Activity, CoverImage, Media, User};
use activity_relay::formatter::format_discord_message;
use activity_relay::message::Embed;

fn sample_activity() -> Activity {
    Activity {
        id: 7,
        status: String::from("completed"),
        progress: None,
        created_at: 0,
        user: User {
            name: Some(String::from("alice")),
            avatar: Some(String::from("https://img.example/alice.png")),
        },
        media: Media {
            title: String::from("Some Show"),
            site_url: String::from("https://feed.example/show/7"),
            cover_image: Some(CoverImage {
                color: Some(String::from("#02aabb")),
                url: String::from("https://img.example/cover.png"),
            }),
            banner_image: Some(String::from("https://img.example/banner.png")),
        },
    }
}

fn only_embed(activity: &Activity) -> Embed {
    let message = format_discord_message(activity);
    let embeds = message.embeds.expect("one embed expected");
    assert_eq!(embeds.len(), 1);
    embeds.into_iter().next().unwrap()
}

#[test]
fn completed_status_description() {
    let embed = only_embed(&sample_activity());
    assert_eq!(
        embed.description.as_deref(),
        Some("completed [Some Show](https://feed.example/show/7)")
    );
}

#[test]
fn plans_to_watch_description() {
    let mut activity = sample_activity();
    activity.status = String::from("plans to watch");
    let embed = only_embed(&activity);
    assert_eq!(
        embed.description.as_deref(),
        Some("plans to watch [Some Show](https://feed.example/show/7)")
    );
}

#[test]
fn plans_to_read_description() {
    let mut activity = sample_activity();
    activity.status = String::from("plans to read");
    let embed = only_embed(&activity);
    assert_eq!(
        embed.description.as_deref(),
        Some("plans to read [Some Show](https://feed.example/show/7)")
    );
}

#[test]
fn fallback_description_with_progress() {
    let mut activity = sample_activity();
    activity.status = String::from("watched episode");
    activity.progress = Some(String::from("5"));
    let embed = only_embed(&activity);
    assert_eq!(
        embed.description.as_deref(),
        Some("watched episode 5 of [Some Show](https://feed.example/show/7)")
    );
}

#[test]
fn fallback_description_without_progress() {
    let mut activity = sample_activity();
    activity.status = String::from("read chapter");
    activity.progress = None;
    let embed = only_embed(&activity);
    assert_eq!(
        embed.description.as_deref(),
        Some("read chapter ? of [Some Show](https://feed.example/show/7)")
    );
}

#[test]
fn color_parsed_from_hex_string() {
    let embed = only_embed(&sample_activity());
    assert_eq!(embed.color, Some(0x02aabb));
}

#[test]
fn color_parsed_without_hash() {
    let mut activity = sample_activity();
    activity.media.cover_image.as_mut().unwrap().color = Some(String::from("ffcc00"));
    let embed = only_embed(&activity);
    assert_eq!(embed.color, Some(0xffcc00));
}

#[test]
fn unparseable_color_omitted() {
    let mut activity = sample_activity();
    activity.media.cover_image.as_mut().unwrap().color = Some(String::from("#zzz"));
    let embed = only_embed(&activity);
    assert_eq!(embed.color, None);
}

#[test]
fn too_wide_color_omitted() {
    let mut activity = sample_activity();
    activity.media.cover_image.as_mut().unwrap().color = Some(String::from("#1000000"));
    let embed = only_embed(&activity);
    assert_eq!(embed.color, None);
}

#[test]
fn missing_cover_leaves_color_absent() {
    let mut activity = sample_activity();
    activity.media.cover_image = None;
    let embed = only_embed(&activity);
    assert_eq!(embed.color, None);
}

#[test]
fn banner_becomes_large_image() {
    let embed = only_embed(&sample_activity());
    assert_eq!(
        embed.image.map(|i| i.url).as_deref(),
        Some("https://img.example/banner.png")
    );
}

#[test]
fn missing_banner_leaves_image_absent() {
    let mut activity = sample_activity();
    activity.media.banner_image = None;
    let embed = only_embed(&activity);
    assert!(embed.image.is_none());
}

#[test]
fn author_defaults_to_question_mark() {
    let mut activity = sample_activity();
    activity.user.name = None;
    let message = format_discord_message(&activity);
    assert_eq!(message.username, None);
    let embed = message.embeds.unwrap().into_iter().next().unwrap();
    assert_eq!(embed.author.unwrap().name, "?");
}

#[test]
fn actor_identity_mirrored() {
    let message = format_discord_message(&sample_activity());
    assert_eq!(message.content, None);
    assert_eq!(message.username.as_deref(), Some("alice"));
    assert_eq!(
        message.avatar_url.as_deref(),
        Some("https://img.example/alice.png")
    );
    let embed = message.embeds.unwrap().into_iter().next().unwrap();
    let author = embed.author.unwrap();
    assert_eq!(author.name, "alice");
    assert_eq!(
        author.icon_url.as_deref(),
        Some("https://img.example/alice.png")
    );
}

#[test]
fn embed_static_fields() {
    let embed = only_embed(&sample_activity());
    assert_eq!(embed.embed_type, "rich");
    assert_eq!(embed.title.as_deref(), Some("Some Show"));
    assert_eq!(embed.url.as_deref(), Some("https://feed.example/show/7"));
    assert_eq!(embed.thumbnail, None);
}

#[test]
fn timestamp_rendered_as_rfc3339() {
    let embed = only_embed(&sample_activity());
    assert_eq!(embed.timestamp.as_deref(), Some("1970-01-01T00:00:00+00:00"));
}

#[test]
fn later_timestamp_rendered_as_rfc3339() {
    let mut activity = sample_activity();
    activity.created_at = 1431648000;
    let embed = only_embed(&activity);
    assert_eq!(embed.timestamp.as_deref(), Some("2015-05-15T00:00:00+00:00"));
}

#[test]
fn timestamp_present_at_the_range_edges() {
    // the last second chrono can render as a date
    let mut activity = sample_activity();
    activity.created_at = 8_210_266_876_799;
    assert!(only_embed(&activity).timestamp.is_some());
    activity.created_at = 8_210_266_876_800;
    assert!(only_embed(&activity).timestamp.is_none());

    // the first second chrono can render as a date
    activity.created_at = -8_334_601_228_800;
    assert!(only_embed(&activity).timestamp.is_some());
    activity.created_at = -8_334_601_228_801;
    assert!(only_embed(&activity).timestamp.is_none());
}

#[test]
fn out_of_range_timestamp_omitted() {
    let mut activity = sample_activity();
    activity.created_at = i64::MAX;
    let embed = only_embed(&activity);
    assert_eq!(embed.timestamp, None);
}

#[test]
fn formatting_twice_is_identical() {
    let activity = sample_activity();
    let first = format_discord_message(&activity);
    let second = format_discord_message(&activity);
    assert_eq!(first, second);
}
