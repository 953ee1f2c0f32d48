//! The feed-side data model: one activity record as fetched from the remote
//! feed, together with the actor and subject it embeds. Every field that the
//! upstream feed may omit is an explicit `Option`; all defaulting happens in
//! the formatter, never here.
use vstd::prelude::*;

verus! {

/// The actor that produced an activity: a display name and an optional
/// avatar image reference, either of which the feed may omit.
#[derive(Clone, Debug)]
pub struct User {
    pub name: Option<String>,
    pub avatar: Option<String>,
}

/// The mathematical value of a [`User`].
#[verifier::ext_equal]
pub struct UserView {
    pub name: Option<Seq<char>>,
    pub avatar: Option<Seq<char>>,
}

impl View for User {
    type V = UserView;

    open spec fn view(&self) -> UserView {
        UserView { name: self.name.deep_view(), avatar: self.avatar.deep_view() }
    }
}

impl DeepView for User {
    type V = UserView;

    open spec fn deep_view(&self) -> UserView {
        self.view()
    }
}

/// A subject's cover image: its URL and an optional accent color given as a
/// hex string (usually `#rrggbb`, but the feed makes no promise of that).
#[derive(Clone, Debug)]
pub struct CoverImage {
    pub color: Option<String>,
    pub url: String,
}

/// The mathematical value of a [`CoverImage`].
#[verifier::ext_equal]
pub struct CoverImageView {
    pub color: Option<Seq<char>>,
    pub url: Seq<char>,
}

impl View for CoverImage {
    type V = CoverImageView;

    open spec fn view(&self) -> CoverImageView {
        CoverImageView { color: self.color.deep_view(), url: self.url@ }
    }
}

impl DeepView for CoverImage {
    type V = CoverImageView;

    open spec fn deep_view(&self) -> CoverImageView {
        self.view()
    }
}

/// The subject of an activity: a title, its canonical URL, and optional
/// cover and banner images.
#[derive(Clone, Debug)]
pub struct Media {
    pub title: String,
    pub site_url: String,
    pub cover_image: Option<CoverImage>,
    pub banner_image: Option<String>,
}

/// The mathematical value of a [`Media`].
#[verifier::ext_equal]
pub struct MediaView {
    pub title: Seq<char>,
    pub site_url: Seq<char>,
    pub cover_image: Option<CoverImageView>,
    pub banner_image: Option<Seq<char>>,
}

impl View for Media {
    type V = MediaView;

    open spec fn view(&self) -> MediaView {
        MediaView {
            title: self.title@,
            site_url: self.site_url@,
            cover_image: self.cover_image.deep_view(),
            banner_image: self.banner_image.deep_view(),
        }
    }
}

impl DeepView for Media {
    type V = MediaView;

    open spec fn deep_view(&self) -> MediaView {
        self.view()
    }
}

/// One feed event: an actor changed their status against a subject. The
/// status is free text ("completed", "plans to watch", a generic progress
/// update, ...); `created_at` is seconds since the Unix epoch. Immutable
/// once fetched.
#[derive(Clone, Debug)]
pub struct Activity {
    pub id: u32,
    pub status: String,
    pub progress: Option<String>,
    pub created_at: i64,
    pub user: User,
    pub media: Media,
}

/// The mathematical value of an [`Activity`].
#[verifier::ext_equal]
pub struct ActivityView {
    pub id: u32,
    pub status: Seq<char>,
    pub progress: Option<Seq<char>>,
    pub created_at: i64,
    pub user: UserView,
    pub media: MediaView,
}

impl View for Activity {
    type V = ActivityView;

    open spec fn view(&self) -> ActivityView {
        ActivityView {
            id: self.id,
            status: self.status@,
            progress: self.progress.deep_view(),
            created_at: self.created_at,
            user: self.user@,
            media: self.media@,
        }
    }
}

impl DeepView for Activity {
    type V = ActivityView;

    open spec fn deep_view(&self) -> ActivityView {
        self.view()
    }
}

} // verus!
