//! The message formatter: one activity in, one outbound message out. Pure
//! and deterministic; unparseable sub-fields degrade to omitted optional
//! fields, never to an error. `spec_format` is the mathematical statement of
//! what the formatter builds, and `format_discord_message` is proved to
//! return exactly that.
use vstd::prelude::*;

use crate::activity::{Activity, ActivityView, CoverImageView};
use crate::hex::{parse_hex_color, spec_parse_hex_color};
use crate::message::{
    Author, AuthorView, Embed, EmbedView, Image, ImageView, WebhookMessage, WebhookMessageView,
};
use crate::timefmt::{rfc3339_from_timestamp, rfc3339_of, rfc3339_representable};
use vstd::string::StringExecFns;

verus! {

/// The progress label of the fallback description: the activity's progress
/// text, or a literal question mark when the feed sent none.
pub open spec fn spec_progress_label(progress: Option<Seq<char>>) -> Seq<char> {
    match progress {
        Some(p) => p,
        None => "?"@,
    }
}

/// The author block's display name: the actor's name, or a literal question
/// mark when the feed sent none.
pub open spec fn spec_author_name(name: Option<Seq<char>>) -> Seq<char> {
    match name {
        Some(n) => n,
        None => "?"@,
    }
}

/// The description text of the one embed. The recognized statuses get a
/// fixed phrasing; every other status falls into the last branch, which is
/// the default and not an error path.
pub open spec fn spec_description(a: ActivityView) -> Seq<char> {
    if a.status == "completed"@ {
        "completed ["@ + a.media.title + "]("@ + a.media.site_url + ")"@
    } else if a.status == "plans to watch"@ {
        "plans to watch ["@ + a.media.title + "]("@ + a.media.site_url + ")"@
    } else if a.status == "plans to read"@ {
        "plans to read ["@ + a.media.title + "]("@ + a.media.site_url + ")"@
    } else {
        a.status + " "@ + spec_progress_label(a.progress) + " of ["@ + a.media.title + "]("@
            + a.media.site_url + ")"@
    }
}

/// The accent color: present exactly when the subject has a cover image
/// whose color string parses as a 24-bit base-16 integer.
pub open spec fn spec_color(cover: Option<CoverImageView>) -> Option<u32> {
    match cover {
        Some(ci) => match ci.color {
            Some(c) => spec_parse_hex_color(c),
            None => None,
        },
        None => None,
    }
}

/// The embed timestamp: the RFC 3339 text of the creation time, or absent
/// when that time is out of the representable range.
pub open spec fn spec_timestamp(secs: i64) -> Option<Seq<char>> {
    if rfc3339_representable(secs) {
        Some(rfc3339_of(secs as int))
    } else {
        None
    }
}

/// The one rich attachment built from an activity.
pub open spec fn spec_embed(a: ActivityView) -> EmbedView {
    EmbedView {
        title: Some(a.media.title),
        description: Some(spec_description(a)),
        image: match a.media.banner_image {
            Some(u) => Some(ImageView { url: u }),
            None => None,
        },
        author: Some(AuthorView { name: spec_author_name(a.user.name), icon_url: a.user.avatar }),
        thumbnail: None,
        color: spec_color(a.media.cover_image),
        url: Some(a.media.site_url),
        embed_type: "rich"@,
        timestamp: spec_timestamp(a.created_at),
    }
}

/// The whole outbound message built from an activity: no body text, the
/// actor's name and avatar as overrides, and exactly one embed.
pub open spec fn spec_format(a: ActivityView) -> WebhookMessageView {
    WebhookMessageView {
        content: None,
        username: a.user.name,
        avatar_url: a.user.avatar,
        embeds: Some(seq![spec_embed(a)]),
    }
}

/// Whether a status string equals a recognized phrasing.
fn status_is(status: &String, phrasing: &str) -> (r: bool)
    ensures
        r == (status@ == phrasing@),
{
    *status == phrasing.to_owned()
}

/// A copy of an optional string, value for value.
fn clone_opt_string(s: &Option<String>) -> (r: Option<String>)
    ensures
        r == *s,
{
    match s {
        Some(x) => Some(x.clone()),
        None => None,
    }
}

/// Builds the description text of the embed.
fn build_description(activity: &Activity) -> (d: String)
    ensures
        d@ == spec_description(activity@),
{
    let mut d = String::new();
    if status_is(&activity.status, "completed") {
        d.append("completed [");
        d.append(activity.media.title.as_str());
        d.append("](");
        d.append(activity.media.site_url.as_str());
        d.append(")");
    } else if status_is(&activity.status, "plans to watch") {
        d.append("plans to watch [");
        d.append(activity.media.title.as_str());
        d.append("](");
        d.append(activity.media.site_url.as_str());
        d.append(")");
    } else if status_is(&activity.status, "plans to read") {
        d.append("plans to read [");
        d.append(activity.media.title.as_str());
        d.append("](");
        d.append(activity.media.site_url.as_str());
        d.append(")");
    } else {
        d.append(activity.status.as_str());
        d.append(" ");
        match &activity.progress {
            Some(p) => d.append(p.as_str()),
            None => d.append("?"),
        }
        d.append(" of [");
        d.append(activity.media.title.as_str());
        d.append("](");
        d.append(activity.media.site_url.as_str());
        d.append(")");
    }
    proof {
        assert(d@ =~= spec_description(activity@));
    }
    d
}

/// Maps one activity to the outbound message that relays it. Pure: the
/// result is exactly `spec_format` of the activity's value, so two calls on
/// equal activities return equal messages.
pub fn format_discord_message(activity: &Activity) -> (m: WebhookMessage)
    ensures
        m@ == spec_format(activity@),
{
    let description = build_description(activity);
    let timestamp = rfc3339_from_timestamp(activity.created_at);
    let author_name = match &activity.user.name {
        Some(n) => n.clone(),
        None => "?".to_owned(),
    };
    let color = match &activity.media.cover_image {
        Some(ci) => match &ci.color {
            Some(c) => parse_hex_color(c.as_str()),
            None => None,
        },
        None => None,
    };
    let image = match &activity.media.banner_image {
        Some(u) => Some(Image { url: u.clone() }),
        None => None,
    };
    let embed = Embed {
        title: Some(activity.media.title.clone()),
        description: Some(description),
        image,
        author: Some(
            Author { name: author_name, icon_url: clone_opt_string(&activity.user.avatar) },
        ),
        thumbnail: None,
        color,
        url: Some(activity.media.site_url.clone()),
        embed_type: "rich".to_owned(),
        timestamp,
    };
    let mut embeds: Vec<Embed> = Vec::new();
    embeds.push(embed);
    let m = WebhookMessage {
        content: None,
        username: clone_opt_string(&activity.user.name),
        avatar_url: clone_opt_string(&activity.user.avatar),
        embeds: Some(embeds),
    };
    proof {
        assert(m@.embeds matches Some(es) && es =~= seq![spec_embed(activity@)]);
        assert(m@ =~~= spec_format(activity@));
    }
    m
}

/// Law: an activity with status "completed" is described as
/// `completed [<title>](<url>)`, exactly.
pub proof fn lemma_completed_description(a: ActivityView)
    requires
        a.status == "completed"@,
    ensures
        spec_format(a).embeds matches Some(es) && es.len() == 1 && es[0].description == Some(
            "completed ["@ + a.media.title + "]("@ + a.media.site_url + ")"@,
        ),
{
}

/// Law: an activity with an unrecognized status and no progress label is
/// described by the fallback phrasing: the description ends with
/// `of [<title>](<url>)` and carries a question mark as the placeholder.
pub proof fn lemma_fallback_description(a: ActivityView)
    requires
        a.status != "completed"@,
        a.status != "plans to watch"@,
        a.status != "plans to read"@,
        a.progress is None,
    ensures
        spec_format(a).embeds matches Some(es) && es.len() == 1 && (es[0].description matches Some(
            d,
        ) && {
            let tail = "of ["@ + a.media.title + "]("@ + a.media.site_url + ")"@;
            &&& d.len() > tail.len()
            &&& d.skip(d.len() - tail.len()) == tail
            &&& d.contains('?')
        }),
{
    reveal_strlit(" ");
    reveal_strlit("?");
    reveal_strlit(" of [");
    reveal_strlit("of [");
    let d = spec_description(a);
    let tail = "of ["@ + a.media.title + "]("@ + a.media.site_url + ")"@;
    assert(" of ["@ =~= " "@ + "of ["@);
    assert(d[a.status.len() as int + 1] == '?');
    assert(d.contains('?'));
    assert(d.skip(d.len() - tail.len()) =~= tail);
}

/// Law: a cover-image color string that fails base-16 parsing leaves the
/// embed's color absent; nothing else of the message is affected and no
/// error arises.
pub proof fn lemma_unparseable_color_omitted(a: ActivityView)
    requires
        a.media.cover_image matches Some(ci) && (ci.color matches Some(c)
            && spec_parse_hex_color(c) is None),
    ensures
        spec_format(a).embeds matches Some(es) && es.len() == 1 && es[0].color is None,
{
}

/// Law: formatting is deterministic, so formatting the same activity value
/// twice yields identical output.
pub proof fn lemma_format_idempotent(a1: ActivityView, a2: ActivityView)
    requires
        a1 == a2,
    ensures
        spec_format(a1) == spec_format(a2),
{
}

} // verus!
