//! The sink-side data model: the outbound message built from one activity.
//! Derived, never persisted; every optional field that is absent is omitted
//! from the delivered document rather than sent as null (the delivery layer
//! honours the `Option`s below).
use vstd::prelude::*;

verus! {

/// A large image attached to an embed.
#[derive(Clone, Debug, PartialEq)]
pub struct Image {
    pub url: String,
}

/// The mathematical value of an [`Image`].
#[verifier::ext_equal]
pub struct ImageView {
    pub url: Seq<char>,
}

impl View for Image {
    type V = ImageView;

    open spec fn view(&self) -> ImageView {
        ImageView { url: self.url@ }
    }
}

impl DeepView for Image {
    type V = ImageView;

    open spec fn deep_view(&self) -> ImageView {
        self.view()
    }
}

/// The author block of an embed: a display name and an optional icon.
#[derive(Clone, Debug, PartialEq)]
pub struct Author {
    pub name: String,
    pub icon_url: Option<String>,
}

/// The mathematical value of an [`Author`].
#[verifier::ext_equal]
pub struct AuthorView {
    pub name: Seq<char>,
    pub icon_url: Option<Seq<char>>,
}

impl View for Author {
    type V = AuthorView;

    open spec fn view(&self) -> AuthorView {
        AuthorView { name: self.name@, icon_url: self.icon_url.deep_view() }
    }
}

impl DeepView for Author {
    type V = AuthorView;

    open spec fn deep_view(&self) -> AuthorView {
        self.view()
    }
}

/// One rich attachment of an outbound message. The accent color is a 24-bit
/// integer, absent when the source color string was unparseable; the
/// timestamp is an RFC 3339 string, absent when the activity's creation time
/// was out of the representable range.
#[derive(Clone, Debug, PartialEq)]
pub struct Embed {
    pub title: Option<String>,
    pub description: Option<String>,
    pub image: Option<Image>,
    pub author: Option<Author>,
    pub thumbnail: Option<String>,
    pub color: Option<u32>,
    pub url: Option<String>,
    pub embed_type: String,
    pub timestamp: Option<String>,
}

/// The mathematical value of an [`Embed`].
#[verifier::ext_equal]
pub struct EmbedView {
    pub title: Option<Seq<char>>,
    pub description: Option<Seq<char>>,
    pub image: Option<ImageView>,
    pub author: Option<AuthorView>,
    pub thumbnail: Option<Seq<char>>,
    pub color: Option<u32>,
    pub url: Option<Seq<char>>,
    pub embed_type: Seq<char>,
    pub timestamp: Option<Seq<char>>,
}

impl View for Embed {
    type V = EmbedView;

    open spec fn view(&self) -> EmbedView {
        EmbedView {
            title: self.title.deep_view(),
            description: self.description.deep_view(),
            image: self.image.deep_view(),
            author: self.author.deep_view(),
            thumbnail: self.thumbnail.deep_view(),
            color: self.color,
            url: self.url.deep_view(),
            embed_type: self.embed_type@,
            timestamp: self.timestamp.deep_view(),
        }
    }
}

impl DeepView for Embed {
    type V = EmbedView;

    open spec fn deep_view(&self) -> EmbedView {
        self.view()
    }
}

/// One outbound message: optional body text, optional display-name and
/// avatar overrides, and a list of rich attachments.
#[derive(Clone, Debug, PartialEq)]
pub struct WebhookMessage {
    pub content: Option<String>,
    pub username: Option<String>,
    pub avatar_url: Option<String>,
    pub embeds: Option<Vec<Embed>>,
}

/// The mathematical value of a [`WebhookMessage`].
#[verifier::ext_equal]
pub struct WebhookMessageView {
    pub content: Option<Seq<char>>,
    pub username: Option<Seq<char>>,
    pub avatar_url: Option<Seq<char>>,
    pub embeds: Option<Seq<EmbedView>>,
}

impl View for WebhookMessage {
    type V = WebhookMessageView;

    open spec fn view(&self) -> WebhookMessageView {
        WebhookMessageView {
            content: self.content.deep_view(),
            username: self.username.deep_view(),
            avatar_url: self.avatar_url.deep_view(),
            embeds: self.embeds.deep_view(),
        }
    }
}

impl DeepView for WebhookMessage {
    type V = WebhookMessageView;

    open spec fn deep_view(&self) -> WebhookMessageView {
        self.view()
    }
}

} // verus!
