//! Fetching the preview of a link, one request at a time.

use vstd::prelude::*;

use crate::chat::types::LinkPreview;
use crate::json::json_text;
use crate::preview::{
    bluesky_api, bluesky_post, bsky_api_url, can_cut, html_metas, html_title, image_address,
    is_private, is_youtube, joined_url, lossy_text, lossy_utf8, mastodon_api, mastodon_oembed_url,
    mastodon_preview, may_be_mastodon, opt_view, page_description, page_image, page_title,
    post_author, post_body, post_card, post_images, post_in_url, post_title_text,
    preview_parse_meta, public_links, read_bsky_post, read_embed, read_url, shows_post, url_parts,
    video_card, youtube_api, youtube_oembed_url, youtube_preview,
};
use crate::text::{copy_text, texts};

verus! {

/// The largest page that is read.
pub const PREVIEW_MAX_PAGE_BYTES: usize = 2_000_000;

/// Who is being asked.
pub enum Stage {
    Youtube,
    Mastodon { host: String },
    Page,
    Bluesky { handle: String },
    Pictures,
}

pub struct PreviewJob {
    pub url: String,
    pub stage: Stage,
    pub title: Option<String>,
    pub description: Option<String>,
    /// Pictures that were not tried yet, in order.
    pub waiting: Vec<String>,
    /// Pictures that can be shown.
    pub images: Vec<String>,
}

/// What a job needs next.
pub enum Need {
    /// The text behind an address.
    Text(String),
    /// The bytes behind an address.
    Page(String),
    /// A picture in the cache.
    Picture(String),
    Done(LinkPreview),
}

/// What came back.
pub enum Got {
    Text { success: bool, text: Option<String> },
    Page(Vec<u8>),
    Picture(bool),
    Nothing,
}

/// Asks for a text.
pub open spec fn asks_text(need: Need, at: Seq<char>) -> bool {
    need matches Need::Text(u) && u@ == at
}

/// The next one to ask is the host itself, as a Mastodon host where it may be one.
pub open spec fn asks_host(url: Seq<char>, stage: Stage, need: Need) -> bool {
    match url_parts(url) {
        Some((host, path)) => if may_be_mastodon(host) {
            &&& stage matches Stage::Mastodon { host: h }
            &&& h@ == host
            &&& asks_text(need, mastodon_api(host, url))
        } else {
            asks_page(url, stage, need)
        },
        None => asks_page(url, stage, need),
    }
}

pub open spec fn asks_page(url: Seq<char>, stage: Stage, need: Need) -> bool {
    &&& stage is Page
    &&& need matches Need::Page(u)
    &&& u@ == url
}

/// A fresh job: a post on Bluesky is asked for at its interface, a video at YouTube, and anything
/// else at its host.
pub open spec fn begins(url: String, job: PreviewJob, need: Need) -> bool {
    &&& job.url == url
    &&& job.title is None && job.description is None
    &&& job.waiting@.len() == 0 && job.images@.len() == 0
    &&& match bluesky_post(url_parts(url@)) {
        Some((handle, key)) => {
            &&& job.stage matches Stage::Bluesky { handle: h }
            &&& h@ == handle
            &&& asks_text(need, bluesky_api(handle, key))
        },
        None => if is_youtube(url@) {
            job.stage is Youtube && asks_text(need, youtube_api(url@))
        } else {
            asks_host(url@, job.stage, need)
        },
    }
}

/// The pictures come next, or the job is done.
pub open spec fn goes_on(job: PreviewJob, need: Need) -> bool {
    &&& job.stage is Pictures
    &&& if job.waiting@.len() > 0 {
        need matches Need::Picture(u) && u@ == job.waiting@[0]@
    } else {
        &&& need matches Need::Done(p)
        &&& p.url == job.url
        &&& p.title == job.title
        &&& p.description == job.description
        &&& texts(p.images@) == texts(job.images@)
    }
}

/// The text of a successful answer.
pub open spec fn good_text(got: Got) -> Option<Seq<char>> {
    match got {
        Got::Text { success, text } => if success {
            opt_view(text)
        } else {
            None
        },
        _ => None,
    }
}

/// The text of any answer.
pub open spec fn any_text(got: Got) -> Option<Seq<char>> {
    match got {
        Got::Text { success, text } => opt_view(text),
        _ => None,
    }
}

/// What YouTube says of a video.
pub open spec fn youtube_card(got: Got) -> Option<(Seq<char>, Seq<char>, Seq<char>)> {
    match good_text(got) {
        Some(t) => video_card(
            json_text(t, "/title"@),
            json_text(t, "/author_name"@),
            json_text(t, "/thumbnail_url"@),
        ),
        None => None,
    }
}

/// What a host says of a post.
pub open spec fn mastodon_card(got: Got, host: Seq<char>) -> Option<
    (Seq<char>, Seq<char>, Seq<char>),
> {
    match good_text(got) {
        Some(t) => post_card(
            json_text(t, "/title"@),
            json_text(t, "/author_name"@),
            json_text(t, "/thumbnail_url"@),
            host,
        ),
        None => None,
    }
}

/// The job has a title, a description and one picture to try.
pub open spec fn has_card(
    job: PreviewJob,
    card: (Seq<char>, Seq<char>, Seq<char>),
) -> bool {
    &&& opt_view(job.title) == Some(card.0)
    &&& opt_view(job.description) == Some(card.1)
    &&& texts(job.waiting@) == seq![card.2]
}

/// What a page that is not too large says of itself.
pub open spec fn has_page(pre: PreviewJob, got: Got, post: PreviewJob) -> bool {
    match got {
        Got::Page(bytes) => if bytes@.len() <= 2_000_000 {
            let html = lossy_utf8(bytes@);
            let metas = html_metas(html);
            &&& opt_view(post.title) == page_title(metas, html_title(html))
            &&& opt_view(post.description) == page_description(metas)
            &&& texts(post.waiting@) == match page_image(metas) {
                Some(r) => match image_address(r, joined_url(pre.url@, r)) {
                    Some(u) => seq![u],
                    None => Seq::empty(),
                },
                None => Seq::empty(),
            }
        } else {
            has_nothing(post)
        },
        _ => has_nothing(post),
    }
}

pub open spec fn has_nothing(job: PreviewJob) -> bool {
    job.title is None && job.description is None && job.waiting@.len() == 0
}

/// What Bluesky says of a post.
pub open spec fn has_post(handle: Seq<char>, got: Got, post: PreviewJob) -> bool {
    match any_text(got) {
        Some(t) => if shows_post(t) && can_cut(post_body(t)) {
            &&& opt_view(post.title) == Some(
                post_title_text(post_author(t, handle), post_body(t)),
            )
            &&& post.description is None
            &&& texts(post.waiting@) == public_links(post_images(t))
        } else {
            has_nothing(post)
        },
        None => has_nothing(post),
    }
}

/// One step of a job.
pub open spec fn job_step(pre: PreviewJob, got: Got, post: PreviewJob, need: Need) -> bool {
    &&& post.url == pre.url
    &&& match pre.stage {
        Stage::Youtube => {
            &&& post.images == pre.images
            &&& match youtube_card(got) {
                Some(card) => has_card(post, card) && goes_on(post, need),
                None => {
                    &&& post.title == pre.title
                    &&& post.description == pre.description
                    &&& post.waiting == pre.waiting
                    &&& asks_host(pre.url@, post.stage, need)
                },
            }
        },
        Stage::Mastodon { host } => {
            &&& post.images == pre.images
            &&& match mastodon_card(got, host@) {
                Some(card) => has_card(post, card) && goes_on(post, need),
                None => {
                    &&& post.title == pre.title
                    &&& post.description == pre.description
                    &&& post.waiting == pre.waiting
                    &&& asks_page(pre.url@, post.stage, need)
                },
            }
        },
        Stage::Page => {
            &&& post.images == pre.images
            &&& has_page(pre, got, post)
            &&& goes_on(post, need)
        },
        Stage::Bluesky { handle } => {
            &&& post.images == pre.images
            &&& has_post(handle@, got, post)
            &&& goes_on(post, need)
        },
        Stage::Pictures => {
            let tried = texts(pre.waiting@);
            let kept = got matches Got::Picture(ok) && ok;
            &&& post.title == pre.title
            &&& post.description == pre.description
            &&& if tried.len() > 0 {
                &&& texts(post.waiting@) == tried.drop_first()
                &&& texts(post.images@) == if kept {
                    texts(pre.images@).push(tried[0])
                } else {
                    texts(pre.images@)
                }
            } else {
                post.waiting == pre.waiting && post.images == pre.images
            }
            &&& goes_on(post, need)
        },
    }
}

fn ask_host(url: &str) -> (r: (Stage, Need))
    ensures
        asks_host(url@, r.0, r.1),
{
    match mastodon_oembed_url(read_url(url), url) {
        Some((host, at)) => (Stage::Mastodon { host }, Need::Text(at)),
        None => (Stage::Page, Need::Page(copy_text(url))),
    }
}

fn copy_texts(v: &Vec<String>) -> (r: Vec<String>)
    ensures
        texts(r@) == texts(v@),
{
    let mut r: Vec<String> = Vec::new();
    let mut i: usize = 0;
    while i < v.len()
        invariant
            i <= v.len(),
            r.len() == i,
            forall|k: int| 0 <= k < i ==> (#[trigger] r@[k])@ == v@[k]@,
        decreases v.len() - i,
    {
        r.push(v[i].clone());
        i += 1;
    }
    proof {
        assert(texts(r@) =~= texts(v@));
    }
    r
}

fn one_text(s: String) -> (r: Vec<String>)
    ensures
        texts(r@) == seq![s@],
{
    let mut r: Vec<String> = Vec::new();
    r.push(s);
    proof {
        assert(texts(r@) =~= seq![s@]);
    }
    r
}

fn copy_optional(s: &Option<String>) -> (r: Option<String>)
    ensures
        r == *s,
{
    match s {
        Some(t) => Some(t.clone()),
        None => None,
    }
}

impl PreviewJob {
    /// Starts on a link.
    pub fn begin(url: String) -> (r: (PreviewJob, Need))
        ensures
            begins(url, r.0, r.1),
    {
        let (stage, need) = match post_in_url(read_url(url.as_str())) {
            Some((handle, key)) => {
                let at = bsky_api_url(handle.as_str(), key.as_str());
                (Stage::Bluesky { handle }, Need::Text(at))
            },
            None => match youtube_oembed_url(url.as_str()) {
                Some(at) => (Stage::Youtube, Need::Text(at)),
                None => ask_host(url.as_str()),
            },
        };
        (
            PreviewJob {
                url,
                stage,
                title: None,
                description: None,
                waiting: Vec::new(),
                images: Vec::new(),
            },
            need,
        )
    }

    fn go_on(&mut self) -> (need: Need)
        ensures
            *final(self) == (PreviewJob { stage: final(self).stage, ..*old(self) }),
            goes_on(*final(self), need),
    {
        self.stage = Stage::Pictures;
        if self.waiting.len() > 0 {
            Need::Picture(self.waiting[0].clone())
        } else {
            Need::Done(
                LinkPreview {
                    url: self.url.clone(),
                    title: copy_optional(&self.title),
                    description: copy_optional(&self.description),
                    images: copy_texts(&self.images),
                },
            )
        }
    }

    fn take_card(&mut self, card: (String, String, String)) -> (need: Need)
        ensures
            final(self).url == old(self).url,
            final(self).images == old(self).images,
            has_card(*final(self), (card.0@, card.1@, card.2@)),
            goes_on(*final(self), need),
    {
        let (title, line, picture) = card;
        self.title = Some(title);
        self.description = Some(line);
        self.waiting = one_text(picture);
        self.go_on()
    }

    fn take_page(&mut self, got: Got) -> (need: Need)
        ensures
            final(self).url == old(self).url,
            final(self).images == old(self).images,
            has_page(*old(self), got, *final(self)),
            goes_on(*final(self), need),
    {
        self.title = None;
        self.description = None;
        self.waiting = Vec::new();
        match got {
            Got::Page(bytes) => {
                if bytes.len() <= PREVIEW_MAX_PAGE_BYTES {
                    let html = lossy_text(&bytes);
                    let (title, description, picture) = preview_parse_meta(
                        self.url.as_str(),
                        html.as_str(),
                    );
                    self.title = title;
                    self.description = description;
                    match picture {
                        Some(u) => {
                            self.waiting = one_text(u);
                        },
                        None => {},
                    }
                    proof {
                        if picture is None {
                            assert(texts(self.waiting@) =~= Seq::empty());
                        }
                    }
                }
            },
            _ => {},
        }
        self.go_on()
    }

    fn take_post(&mut self, handle: &str, got: Got) -> (need: Need)
        ensures
            final(self).url == old(self).url,
            final(self).images == old(self).images,
            has_post(handle@, got, *final(self)),
            goes_on(*final(self), need),
    {
        self.title = None;
        self.description = None;
        self.waiting = Vec::new();
        match got {
            Got::Text { success: _, text: Some(t) } => {
                match read_bsky_post(t.as_str(), handle) {
                    Some((title, images)) => {
                        self.title = Some(title);
                        self.waiting = images;
                    },
                    None => {},
                }
            },
            _ => {},
        }
        self.go_on()
    }

    fn take_picture(&mut self, ok: bool) -> (need: Need)
        ensures
            final(self).url == old(self).url,
            final(self).title == old(self).title,
            final(self).description == old(self).description,
            ({
                let tried = texts(old(self).waiting@);
                if tried.len() > 0 {
                    &&& texts(final(self).waiting@) == tried.drop_first()
                    &&& texts(final(self).images@) == if ok {
                        texts(old(self).images@).push(tried[0])
                    } else {
                        texts(old(self).images@)
                    }
                } else {
                    final(self).waiting == old(self).waiting && final(self).images == old(
                        self,
                    ).images
                }
            }),
            goes_on(*final(self), need),
    {
        let ghost tried = texts(self.waiting@);
        let ghost held = self.images@;
        if self.waiting.len() > 0 {
            let u = self.waiting.remove(0);
            proof {
                assert(texts(self.waiting@) =~= tried.drop_first());
            }
            if ok {
                self.images.push(u);
                proof {
                    assert(texts(self.images@) =~= texts(held).push(tried[0]));
                }
            }
        }
        self.go_on()
    }

    /// Goes on with what came back.
    pub fn resume(&mut self, got: Got) -> (need: Need)
        ensures
            job_step(*old(self), got, *final(self), need),
    {
        let mut stage = Stage::Pictures;
        std::mem::swap(&mut stage, &mut self.stage);
        match stage {
            Stage::Youtube => {
                let card = match got {
                    Got::Text { success: true, text: Some(t) } => youtube_preview(
                        read_embed(t.as_str()),
                    ),
                    _ => None,
                };
                match card {
                    Some(c) => self.take_card(c),
                    None => {
                        let (next, need) = ask_host(self.url.as_str());
                        self.stage = next;
                        need
                    },
                }
            },
            Stage::Mastodon { host } => {
                let card = match got {
                    Got::Text { success: true, text: Some(t) } => mastodon_preview(
                        read_embed(t.as_str()),
                        host.as_str(),
                    ),
                    _ => None,
                };
                match card {
                    Some(c) => self.take_card(c),
                    None => {
                        self.stage = Stage::Page;
                        Need::Page(self.url.clone())
                    },
                }
            },
            Stage::Page => self.take_page(got),
            Stage::Bluesky { handle } => self.take_post(handle.as_str(), got),
            Stage::Pictures => {
                let ok = match got {
                    Got::Picture(b) => b,
                    _ => false,
                };
                self.take_picture(ok)
            },
        }
    }
}

/// Every picture that waits lies on another machine; Mastodon hosts may name none at all.
pub open spec fn waits_for_public(job: PreviewJob) -> bool {
    forall|i: int|
        0 <= i < job.waiting@.len() ==> (#[trigger] texts(job.waiting@)[i]).len() == 0
            || !is_private(texts(job.waiting@)[i])
}

proof fn lemma_public_links(s: Seq<Seq<char>>, i: int)
    requires
        0 <= i < public_links(s).len(),
    ensures
        !is_private(public_links(s)[i]),
    decreases s.len(),
{
    if s.len() > 0 {
        let rest = public_links(s.drop_last());
        if i < rest.len() {
            lemma_public_links(s.drop_last(), i);
        }
    }
}

/// A job never asks for a picture on this machine or network, whatever the pages that it reads say.
pub proof fn private_pictures_are_never_asked_for(
    pre: PreviewJob,
    got: Got,
    post: PreviewJob,
    need: Need,
)
    requires
        waits_for_public(pre),
        job_step(pre, got, post, need),
    ensures
        waits_for_public(post),
        need matches Need::Picture(u) ==> u@.len() == 0 || !is_private(u@),
{
    let ws = texts(post.waiting@);
    assert(ws.len() == post.waiting@.len());
    assert(texts(pre.waiting@).len() == pre.waiting@.len());
    assert forall|i: int| 0 <= i < post.waiting@.len() implies (#[trigger] ws[i]).len() == 0
        || !is_private(ws[i]) by {
        match pre.stage {
            Stage::Bluesky { .. } => {
                match any_text(got) {
                    Some(t) => {
                        if shows_post(t) && can_cut(post_body(t)) {
                            lemma_public_links(post_images(t), i);
                        }
                    },
                    None => {},
                }
            },
            Stage::Pictures => {
                let tried = texts(pre.waiting@);
                if tried.len() > 0 {
                    assert(ws[i] == tried[i + 1]);
                } else {
                    assert(tried[i] == ws[i]);
                }
            },
            Stage::Page => {
                match got {
                    Got::Page(bytes) => {
                        if bytes@.len() <= 2_000_000 {
                            let metas = html_metas(lossy_utf8(bytes@));
                            match page_image(metas) {
                                Some(r) => {
                                    match image_address(r, joined_url(pre.url@, r)) {
                                        Some(u) => {
                                            assert(ws == seq![u]);
                                        },
                                        None => {},
                                    }
                                },
                                None => {},
                            }
                        }
                    },
                    _ => {},
                }
            },
            Stage::Youtube => {
                match youtube_card(got) {
                    Some(card) => {
                        assert(ws == seq![card.2]);
                    },
                    None => {
                        assert(ws[i] == texts(pre.waiting@)[i]);
                    },
                }
            },
            Stage::Mastodon { host } => {
                match mastodon_card(got, host@) {
                    Some(card) => {
                        assert(ws == seq![card.2]);
                    },
                    None => {
                        assert(ws[i] == texts(pre.waiting@)[i]);
                    },
                }
            },
        }
    }
    if post.waiting@.len() > 0 {
        assert(ws[0] == post.waiting@[0]@);
    }
}

/// A fresh job waits for no picture.
pub proof fn fresh_jobs_wait_for_nothing(url: String, job: PreviewJob, need: Need)
    requires
        begins(url, job, need),
    ensures
        waits_for_public(job),
        !(need is Picture),
{
}

/// A job comes to an end: every step behind the pages takes one picture off the list.
pub proof fn pictures_run_out(pre: PreviewJob, got: Got, post: PreviewJob, need: Need)
    requires
        pre.stage is Pictures,
        job_step(pre, got, post, need),
    ensures
        pre.waiting@.len() > 0 ==> post.waiting@.len() == pre.waiting@.len() - 1,
        pre.waiting@.len() == 0 ==> need is Done,
{
    assert(texts(pre.waiting@).len() == pre.waiting@.len());
    assert(texts(post.waiting@).len() == post.waiting@.len());
}

/// Who is asked first about a link: Bluesky about one of its posts, YouTube about one of its videos,
/// and about anything else the host itself. A fresh job has found nothing yet.
pub proof fn jobs_begin_at_the_right_place(url: String, job: PreviewJob, need: Need)
    requires
        begins(url, job, need),
    ensures
        bluesky_post(url_parts(url@)) matches Some((handle, key)) ==> job.stage is Bluesky && (
        need matches Need::Text(u) && u@ == bluesky_api(handle, key)),
        bluesky_post(url_parts(url@)) is None && is_youtube(url@) ==> job.stage is Youtube && (
        need matches Need::Text(u) && u@ == youtube_api(url@)),
        bluesky_post(url_parts(url@)) is None && !is_youtube(url@) && url_parts(url@) is None
            ==> job.stage is Page && (need matches Need::Page(u) && u@ == url@),
        bluesky_post(url_parts(url@)) is None && !is_youtube(url@) ==> (url_parts(url@) matches Some(
            (host, path),
        ) ==> (may_be_mastodon(host) ==> job.stage is Mastodon && (need matches Need::Text(u) && u@
            == mastodon_api(host, url@))) && (!may_be_mastodon(host) ==> job.stage is Page && (
        need matches Need::Page(u) && u@ == url@))),
        job.title is None && job.description is None,
        job.images@.len() == 0,
{
}

/// A video that YouTube describes is shown with its title and who made it, and its picture is tried;
/// a video that it does not describe is looked up at its host.
pub proof fn videos_are_looked_up(pre: PreviewJob, text: String, post: PreviewJob, need: Need)
    requires
        pre.stage is Youtube,
        job_step(pre, Got::Text { success: true, text: Some(text) }, post, need),
    ensures
        json_text(text@, "/title"@) matches Some(t) ==> (json_text(text@, "/thumbnail_url"@) matches Some(
            i,
        ) ==> (!is_private(i) ==> opt_view(post.title) == Some(t) && post.description is Some
            && post.stage is Pictures && (need matches Need::Picture(u) && u@ == i))),
        json_text(text@, "/title"@) is None ==> !(post.stage is Pictures) && post.title == pre.title,
{
    let t = json_text(text@, "/title"@);
    let i = json_text(text@, "/thumbnail_url"@);
    if t is Some && i is Some && !is_private(i->0) {
        assert(texts(post.waiting@) == seq![i->0]);
        assert(texts(post.waiting@)[0] == post.waiting@[0]@);
    }
}

/// A post that its host describes is shown with its title, and its picture is tried; else the page
/// itself is read.
pub proof fn posts_are_looked_up(
    pre: PreviewJob,
    host: String,
    success: bool,
    text: String,
    post: PreviewJob,
    need: Need,
)
    requires
        pre.stage == (Stage::Mastodon { host }),
        job_step(pre, Got::Text { success, text: Some(text) }, post, need),
    ensures
        success ==> (json_text(text@, "/title"@) matches Some(t) ==> (json_text(
            text@,
            "/thumbnail_url"@,
        ) is None ==> opt_view(post.title) == Some(t) && post.stage is Pictures)),
        !success || json_text(text@, "/title"@) is None ==> post.stage is Page && (need matches Need::Page(
            u,
        ) && u@ == pre.url@),
{
}

/// A page that is not too large is shown with what it says of itself.
pub proof fn pages_are_read(pre: PreviewJob, bytes: Vec<u8>, post: PreviewJob, need: Need)
    requires
        pre.stage is Page,
        job_step(pre, Got::Page(bytes), post, need),
    ensures
        bytes@.len() <= 2_000_000 ==> opt_view(post.title) == page_title(
            html_metas(lossy_utf8(bytes@)),
            html_title(lossy_utf8(bytes@)),
        ) && opt_view(post.description) == page_description(html_metas(lossy_utf8(bytes@))),
        bytes@.len() > 2_000_000 ==> post.title is None && post.description is None,
        post.stage is Pictures,
{
}

/// Pictures are tried one by one in order; one that is there is shown, and one that is not is passed
/// over. When none is left the preview is done, with all that was found.
pub proof fn pictures_are_tried_in_order(pre: PreviewJob, there: bool, post: PreviewJob, need: Need)
    requires
        pre.stage is Pictures,
        pre.waiting@.len() > 0,
        job_step(pre, Got::Picture(there), post, need),
    ensures
        post.waiting@.len() == pre.waiting@.len() - 1,
        there ==> post.images@.len() == pre.images@.len() + 1 && post.images@.last()@
            == pre.waiting@[0]@,
        !there ==> texts(post.images@) == texts(pre.images@),
        post.title == pre.title && post.description == pre.description,
        pre.waiting@.len() > 1 ==> (need matches Need::Picture(u) && u@ == pre.waiting@[1]@),
        pre.waiting@.len() == 1 ==> (need matches Need::Done(p) && p.url == pre.url && p.title
            == pre.title && p.description == pre.description && texts(p.images@) == texts(
            post.images@,
        )),
{
    let tried = texts(pre.waiting@);
    assert(texts(post.waiting@).len() == post.waiting@.len());
    assert(texts(post.images@).len() == post.images@.len());
    assert(texts(pre.images@).len() == pre.images@.len());
    if there {
        assert(texts(post.images@).last() == tried[0]);
        assert(texts(post.images@).last() == post.images@.last()@);
    }
    if pre.waiting@.len() > 1 {
        assert(texts(post.waiting@)[0] == tried[1]);
        assert(texts(post.waiting@)[0] == post.waiting@[0]@);
    }
}

/// The picture that a page names is tried next; a page that names none is done.
pub proof fn pictures_of_pages_are_tried(pre: PreviewJob, bytes: Vec<u8>, post: PreviewJob, need: Need)
    requires
        pre.stage is Page,
        bytes@.len() <= 2_000_000,
        job_step(pre, Got::Page(bytes), post, need),
    ensures
        page_image(html_metas(lossy_utf8(bytes@))) is None ==> (need matches Need::Done(p) && p.url
            == pre.url && p.title == post.title && p.description == post.description),
        page_image(html_metas(lossy_utf8(bytes@))) matches Some(r) ==> (image_address(
            r,
            joined_url(pre.url@, r),
        ) matches Some(u) ==> (need matches Need::Picture(at) && at@ == u)),
{
    assert(texts(post.waiting@).len() == post.waiting@.len());
    if post.waiting@.len() > 0 {
        assert(texts(post.waiting@)[0] == post.waiting@[0]@);
    }
}

/// A post of Bluesky is shown under its author, and its public pictures are tried; an answer that shows
/// no post leaves nothing to show.
pub proof fn bluesky_posts_are_looked_up(
    pre: PreviewJob,
    handle: String,
    success: bool,
    text: String,
    post: PreviewJob,
    need: Need,
)
    requires
        pre.stage == (Stage::Bluesky { handle }),
        job_step(pre, Got::Text { success, text: Some(text) }, post, need),
        can_cut(post_body(text@)),
    ensures
        shows_post(text@) ==> opt_view(post.title) == Some(
            post_title_text(post_author(text@, handle@), post_body(text@)),
        ),
        shows_post(text@) && public_links(post_images(text@)).len() > 0 ==> (need matches Need::Picture(u)
            && u@ == public_links(post_images(text@))[0]),
        shows_post(text@) && public_links(post_images(text@)).len() == 0 ==> need is Done,
        !shows_post(text@) ==> post.title is None && need is Done,
{
    assert(texts(post.waiting@).len() == post.waiting@.len());
    if post.waiting@.len() > 0 {
        assert(texts(post.waiting@)[0] == post.waiting@[0]@);
    }
}

} // verus!
