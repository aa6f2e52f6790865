//! The content feed and the preview that the relay shows of it.

use crate::message::{outbound, Outbound, OutboundView};
use vstd::prelude::*;
use vstd::string::*;

verus! {

/// The line that opens a preview.
pub const INTRO: &'static str = "Here are 3 the latest:";

/// The address under which every post of the feed is found by its slug.
pub const LINK_BASE: &'static str = "https://killerrabb.it";

/// One item of the content feed. It is fetched anew for every preview and
/// never kept.
#[derive(Debug, Clone, PartialEq, Eq)]
pub struct ExternalPost {
    /// The title to show.
    pub title: String,
    /// The identifier that the post's deep link is built from.
    pub slug: String,
}

/// An [`ExternalPost`] as the contracts see it.
pub struct ExternalPostView {
    pub title: Seq<char>,
    pub slug: Seq<char>,
}

impl View for ExternalPost {
    type V = ExternalPostView;

    open spec fn view(&self) -> ExternalPostView {
        ExternalPostView { title: self.title@, slug: self.slug@ }
    }
}

impl DeepView for ExternalPost {
    type V = ExternalPostView;

    open spec fn deep_view(&self) -> ExternalPostView {
        self@
    }
}

/// The deep link of a post: the base address, a slash, the slug.
pub open spec fn deep_link(slug: Seq<char>) -> Seq<char> {
    LINK_BASE@ + "/"@ + slug
}

/// The line that shows a post: its title, a blank, its deep link.
pub open spec fn post_line(post: ExternalPostView) -> Seq<char> {
    post.title + " "@ + deep_link(post.slug)
}

/// The messages of a preview for `chat`: the intro, then one line for each
/// post, in feed order.
pub open spec fn preview_of(chat: i64, posts: Seq<ExternalPostView>) -> Seq<OutboundView> {
    seq![outbound(chat, INTRO@)] + posts.map_values(
        |post: ExternalPostView| outbound(chat, post_line(post)),
    )
}

/// Writes the line that shows `post`.
pub fn format_post(post: &ExternalPost) -> (line: String)
    ensures
        line@ == post_line(post@),
{
    let mut line = post.title.clone();
    line.append(" ");
    line.append(LINK_BASE);
    line.append("/");
    line.append(post.slug.as_str());
    line
}

/// Plans the preview of `posts` for `chat`: the intro and one line for each
/// post in feed order, all for that one chat.
pub fn preview(chat: i64, posts: &Vec<ExternalPost>) -> (plan: Vec<Outbound>)
    ensures
        plan.deep_view() == preview_of(chat, posts.deep_view()),
{
    let mut plan: Vec<Outbound> = Vec::new();
    plan.push(Outbound::to(chat, INTRO));
    let mut i: usize = 0;
    while i < posts.len()
        invariant
            0 <= i <= posts.len(),
            plan.len() == i + 1,
            plan@[0]@ == outbound(chat, INTRO@),
            forall|j: int|
                0 <= j < i ==> (#[trigger] plan@[j + 1])@ == outbound(
                    chat,
                    post_line(posts@[j]@),
                ),
        decreases posts.len() - i,
    {
        let text = format_post(&posts[i]);
        plan.push(Outbound { chat, text });
        i = i + 1;
    }
    proof {
        let shown = plan.deep_view();
        let wanted = preview_of(chat, posts.deep_view());
        assert forall|k: int| 0 <= k < shown.len() implies shown[k] == wanted[k] by {
            if k > 0 {
                assert(plan@[(k - 1) + 1]@ == outbound(chat, post_line(posts@[k - 1]@)));
            }
        }
    }
    plan
}

} // verus!
