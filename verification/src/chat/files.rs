//! Attachments: sending, receiving and opening files, and the previews of links.

use vstd::prelude::*;

use crate::assoc::Assoc;
use crate::cache::{cache_path_for, joined_path};
use crate::chat::action::{no_actions, one_action, Action, Api, P2pCommand, SentFile};
use crate::chat::conv::auto_fetches;
use crate::chat::lists::{find_msg, has_msg, msg_index};
use crate::chat::msg::FileMsg;
use crate::chat::state::{same_id, self_id, with_error, AppState, Chats, Files};
use crate::chat::types::{ApiMsg, Attachment, DownloadedFile, LinkPreview, OwnFile};
use crate::data_url::{data_url_bytes, data_url_content};
use crate::number::{decimal, u64_text};
use crate::p2p::{P2pEvent, ServingFile};
use crate::text::{
    concat3, contains_text, copy_text, has_prefix, or_empty, starts_with, text_contains,
    text_or_empty, trim, trim_text,
};

verus! {

/// The small pictures to make: of every attachment that comes with one and has none yet.
pub open spec fn thumb_actions(msgs: Seq<ApiMsg>, known: Map<Seq<char>, Vec<u8>>) -> Seq<Action>
    decreases msgs.len(),
{
    if msgs.len() == 0 {
        Seq::empty()
    } else {
        let rest = thumb_actions(msgs.drop_last(), known);
        let m = msgs.last();
        match (m.file_id, m.thumbnail_data) {
            (Some(f), Some(url)) => if known.contains_key(f@) {
                rest
            } else {
                rest.push(Action::MakeThumb { file_id: f, url })
            },
            _ => rest,
        }
    }
}

/// Whether a media type is that of an image.
pub open spec fn is_image_mime(mime: Seq<char>) -> bool {
    has_prefix(mime, "image/"@)
}

/// What is sent of an attachment: everything but the bytes.
pub open spec fn describes(file: SentFile, att: Attachment) -> bool {
    &&& file.mime == att.mime
    &&& file.name == att.name
    &&& file.file_id == att.file_id
    &&& file.file_size == att.file_size
    &&& file.thumbnail == att.thumbnail
}

/// What is held ready of an attachment for those who fetch it.
pub open spec fn serves(file: ServingFile, att: Attachment) -> bool {
    &&& file.file_id == att.file_id
    &&& file.mime == att.mime
    &&& file.name == att.name
    &&& file.size == att.file_size
    &&& file.bytes@ == att.bytes@
}

/// An attachment that goes out is remembered as the user's own file and as a downloaded one.
pub open spec fn remembered(pre: Files, att: Attachment, post: Files) -> bool {
    let id = att.file_id@;
    &&& post == (Files {
        pending_attachment: None,
        own_files: post.own_files,
        own_full: post.own_full,
        downloaded: post.downloaded,
        ..pre
    })
    &&& post.own_files@ == pre.own_files@.insert(id, post.own_files@[id])
    &&& post.own_files@[id].thumbnail == att.thumbnail
    &&& post.own_files@[id].bytes@ == att.bytes@
    &&& if is_image_mime(att.mime@) {
        &&& post.own_full@ == pre.own_full@.insert(id, post.own_full@[id])
        &&& post.own_full@[id]@ == att.bytes@
    } else {
        post.own_full@ == pre.own_full@
    }
    &&& post.downloaded@ == pre.downloaded@.insert(id, post.downloaded@[id])
    &&& post.downloaded@[id].path matches Some(p)
    &&& p@ == joined_path(pre.cache_dir@, id)
    &&& if is_image_mime(att.mime@) {
        post.downloaded@[id].image matches Some(b) && b@ == att.bytes@
    } else {
        post.downloaded@[id].image is None
    }
}

/// The actions of sending an attachment: it is held ready where there is a transfer manager, and
/// its bytes are written to the cache.
pub open spec fn outgoing(acts: Seq<Action>, ready: bool, att: Attachment) -> bool {
    let n: int = if ready {
        1
    } else {
        0
    };
    &&& acts.len() == n + 1
    &&& ready ==> (acts[0] matches Action::P2p(P2pCommand::Serve(file)) && serves(file, att))
    &&& acts[n] matches Action::StoreFile { file_id, bytes }
    &&& file_id == att.file_id
    &&& bytes@ == att.bytes@
}

/// Sends the draft and the picked file to the open conversation; with neither, nothing happens.
pub open spec fn send_step(pre: AppState, post: AppState, acts: Seq<Action>) -> bool {
    let body = trim(pre.chats.draft@);
    match (pre.chats.selected_conversation, pre.files.pending_attachment) {
        (None, _) => post == pre && acts.len() == 0,
        (Some(conv), None) => if body.len() == 0 {
            post == pre && acts.len() == 0
        } else {
            &&& post == (AppState {
                chats: Chats { draft: post.chats.draft, busy: true, ..pre.chats },
                ..pre
            })
            &&& post.chats.draft@.len() == 0
            &&& acts.len() == 1
            &&& sends(acts[0], conv, body, None)
        },
        (Some(conv), Some(att)) => {
            &&& post == (AppState {
                chats: Chats { draft: post.chats.draft, busy: true, ..pre.chats },
                files: post.files,
                ..pre
            })
            &&& post.chats.draft@.len() == 0
            &&& remembered(pre.files, att, post.files)
            &&& acts.len() > 0
            &&& outgoing(acts.drop_last(), pre.files.p2p_ready, att)
            &&& sends(acts.last(), conv, body, Some(att))
        },
    }
}

/// The request that posts a message.
pub open spec fn sends(a: Action, conv: u64, body: Seq<char>, att: Option<Attachment>) -> bool {
    &&& a matches Action::Call(Api::SendMessage { conversation_id, body: text, file })
    &&& conversation_id == conv
    &&& text@ == body
    &&& match (file, att) {
        (None, None) => true,
        (Some(f), Some(x)) => describes(f, x),
        _ => false,
    }
}

pub fn copy_bytes(b: &Vec<u8>) -> (r: Vec<u8>)
    ensures
        r@ == b@,
{
    let r = b.clone();
    proof {
        assert(r@ =~= b@);
    }
    r
}

impl AppState {
    /// The small pictures to make.
    pub fn build_thumb_handles(&self) -> (acts: Vec<Action>)
        ensures
            acts@ == thumb_actions(self.chats.messages@, self.files.thumbs@),
    {
        let mut acts = no_actions();
        let msgs = &self.chats.messages;
        let mut i: usize = 0;
        while i < msgs.len()
            invariant
                msgs == self.chats.messages,
                i <= msgs.len(),
                acts@ == thumb_actions(msgs@.take(i as int), self.files.thumbs@),
            decreases msgs.len() - i,
        {
            proof {
                assert(msgs@.take(i + 1).drop_last() =~= msgs@.take(i as int));
            }
            let m = &msgs[i];
            match (&m.file_id, &m.thumbnail_data) {
                (Some(f), Some(url)) => {
                    if !self.files.thumbs.contains(f) {
                        acts.push(Action::MakeThumb { file_id: f.clone(), url: url.clone() });
                    }
                },
                _ => {},
            }
            i += 1;
        }
        proof {
            assert(msgs@.take(i as int) =~= msgs@);
        }
        acts
    }

    fn remember_own(&mut self, att: &Attachment) -> (acts: Vec<Action>)
        requires
            old(self).files.pending_attachment is None,
        ensures
            *final(self) == (AppState { files: final(self).files, ..*old(self) }),
            remembered(old(self).files, *att, final(self).files),
            outgoing(acts@, old(self).files.p2p_ready, *att),
    {
        let mut acts = no_actions();
        if self.files.p2p_ready {
            acts.push(
                Action::P2p(
                    P2pCommand::Serve(
                        ServingFile {
                            file_id: att.file_id.clone(),
                            mime: att.mime.clone(),
                            name: att.name.clone(),
                            size: att.file_size,
                            bytes: copy_bytes(&att.bytes),
                        },
                    ),
                ),
            );
        }
        let image = starts_with(att.mime.as_str(), "image/");
        if image {
            self.files.own_full.insert(att.file_id.clone(), copy_bytes(&att.bytes));
        }
        self.files.own_files.insert(
            att.file_id.clone(),
            OwnFile { thumbnail: att.thumbnail.clone(), bytes: copy_bytes(&att.bytes) },
        );
        acts.push(
            Action::StoreFile { file_id: att.file_id.clone(), bytes: copy_bytes(&att.bytes) },
        );
        let path = cache_path_for(self.files.cache_dir.as_str(), att.file_id.as_str());
        let shown = if image {
            Some(copy_bytes(&att.bytes))
        } else {
            None
        };
        self.files.downloaded.insert(
            att.file_id.clone(),
            DownloadedFile { image: shown, path: Some(path) },
        );
        acts
    }

    /// Sends the draft, and the picked file with it, to the open conversation.
    pub fn do_send(&mut self) -> (acts: Vec<Action>)
        ensures
            send_step(*old(self), *final(self), acts@),
    {
        let body = trim_text(self.chats.draft.as_str());
        let conversation_id = match self.chats.selected_conversation {
            Some(c) => c,
            None => return no_actions(),
        };
        let attachment = self.files.pending_attachment.take();
        match attachment {
            None => {
                if body.as_str().is_empty() {
                    return no_actions();
                }
                self.chats.draft = String::new();
                self.chats.busy = true;
                let mut acts = no_actions();
                acts.push(Action::Call(Api::SendMessage { conversation_id, body, file: None }));
                acts
            },
            Some(att) => {
                self.chats.draft = String::new();
                self.chats.busy = true;
                let mut acts = self.remember_own(&att);
                let ghost sofar = acts@;
                let file = SentFile {
                    mime: att.mime,
                    name: att.name,
                    file_id: att.file_id,
                    file_size: att.file_size,
                    thumbnail: att.thumbnail,
                };
                acts.push(
                    Action::Call(Api::SendMessage { conversation_id, body, file: Some(file) }),
                );
                proof {
                    assert(acts@.drop_last() =~= sofar);
                }
                acts
            },
        }
    }
}

// ---------------------------------------------------------------------------
// Receiving, opening and previewing
// ---------------------------------------------------------------------------

/// The status that a failed transfer shows: the sender was away, or something went wrong.
pub open spec fn failure_status(reason: Seq<char>) -> Seq<char> {
    if contains_text(reason, "offline"@) || contains_text(reason, "cancel"@) {
        "offline"@
    } else {
        "error"@
    }
}

/// The status of a transfer under way.
pub open spec fn progress_status(total: u64, percent: u64) -> Seq<char> {
    if total > 0 {
        "receiving · "@ + decimal(percent as nat) + "%"@
    } else {
        "receiving…"@
    }
}

/// The status of a file was set to a text.
pub open spec fn status_set(pre: AppState, id: Seq<char>, text: Seq<char>, post: AppState) -> bool {
    &&& post == (AppState { files: Files { p2p_status: post.files.p2p_status, ..pre.files }, ..pre })
    &&& post.files.p2p_status@ == pre.files.p2p_status@.insert(id, post.files.p2p_status@[id])
    &&& post.files.p2p_status@[id]@ == text
}

pub open spec fn p2p_event_step(
    pre: AppState,
    event: P2pEvent,
    percent: u64,
    contents: Option<Vec<u8>>,
    post: AppState,
) -> bool {
    match event {
        P2pEvent::Status { file_id, status } => status_set(pre, file_id@, status@, post),
        P2pEvent::Progress { file_id, received, total } => status_set(
            pre,
            file_id@,
            progress_status(total, percent),
            post,
        ),
        P2pEvent::Complete { file_id, mime, name, path } => {
            &&& post == (AppState {
                files: Files {
                    downloaded: post.files.downloaded,
                    p2p_status: post.files.p2p_status,
                    ..pre.files
                },
                ..pre
            })
            &&& post.files.downloaded@ == pre.files.downloaded@.insert(
                file_id@,
                DownloadedFile {
                    image: if is_image_mime(mime@) {
                        contents
                    } else {
                        None
                    },
                    path: Some(path),
                },
            )
            &&& post.files.p2p_status@ == pre.files.p2p_status@.remove(file_id@)
        },
        P2pEvent::Failed { file_id, reason } => status_set(
            pre,
            file_id@,
            failure_status(reason@),
            post,
        ),
    }
}

/// A picked file waits to be sent; its small picture is shown where it has one.
pub open spec fn picked_step(pre: AppState, att: Attachment, post: AppState) -> bool {
    let id = att.file_id@;
    &&& post == (AppState {
        files: Files {
            picking_file: false,
            pending_attachment: Some(att),
            thumbs: post.files.thumbs,
            ..pre.files
        },
        ..pre
    })
    &&& match data_url_content(att.thumbnail@) {
        Some(b) => {
            &&& post.files.thumbs@ == pre.files.thumbs@.insert(id, post.files.thumbs@[id])
            &&& post.files.thumbs@[id]@ == b
        },
        None => post.files.thumbs@ == pre.files.thumbs@,
    }
}

/// Where a file lies on disk.
pub open spec fn stored_path(held: Map<Seq<char>, DownloadedFile>, id: Seq<char>) -> Option<String> {
    if held.contains_key(id) {
        held[id].path
    } else {
        None
    }
}

/// A transfer is asked for again, once there is a transfer manager.
pub open spec fn retry_actions(ready: bool, file_id: String, sender_id: u64) -> Seq<Action> {
    if ready {
        seq![Action::P2p(P2pCommand::RetryFetch { file_id, sender_id })]
    } else {
        Seq::empty()
    }
}

/// Opens the file of a message: from memory for one's own, else from disk, else it is fetched.
pub open spec fn open_actions(s: AppState, m: ApiMsg, acts: Seq<Action>) -> bool {
    match m.file_id {
        None => acts.len() == 0,
        Some(f) => if self_id(s.session.user) == Some(m.sender_id) && s.files.own_files@.contains_key(
            f@,
        ) {
            &&& acts.len() == 1
            &&& acts[0] matches Action::OpenBytes { mime, name, bytes }
            &&& mime@ == or_empty(m.attachment_mime)
            &&& name@ == or_empty(m.attachment_name)
            &&& bytes@ == s.files.own_files@[f@].bytes@
        } else {
            match stored_path(s.files.downloaded@, f@) {
                Some(p) => {
                    &&& acts.len() == 1
                    &&& acts[0] matches Action::OpenStored { path, mime, name, file_id, sender_id }
                    &&& path == p
                    &&& mime@ == or_empty(m.attachment_mime)
                    &&& name@ == or_empty(m.attachment_name)
                    &&& file_id == f
                    &&& sender_id == m.sender_id
                },
                None => acts == retry_actions(s.files.p2p_ready, f, m.sender_id),
            }
        },
    }
}

pub open spec fn open_step(s: AppState, id: u64, acts: Seq<Action>) -> bool {
    if has_msg(s.chats.messages@, id) {
        open_actions(s, s.chats.messages@[msg_index(s.chats.messages@, id)], acts)
    } else {
        acts.len() == 0
    }
}

pub open spec fn retry_step(s: AppState, id: u64) -> Seq<Action> {
    if has_msg(s.chats.messages@, id) {
        let m = s.chats.messages@[msg_index(s.chats.messages@, id)];
        match m.file_id {
            Some(f) => retry_actions(s.files.p2p_ready, f, m.sender_id),
            None => Seq::empty(),
        }
    } else {
        Seq::empty()
    }
}

/// The pictures of a preview that are not there yet.
pub open spec fn image_reads(urls: Seq<String>, known: Map<Seq<char>, Vec<u8>>) -> Seq<Action>
    decreases urls.len(),
{
    if urls.len() == 0 {
        Seq::empty()
    } else {
        let rest = image_reads(urls.drop_last(), known);
        if known.contains_key(urls.last()@) {
            rest
        } else {
            rest.push(Action::ReadPreviewImage { url: urls.last() })
        }
    }
}

/// A preview is fetched once.
pub open spec fn fetch_preview_step(pre: AppState, url: String, post: AppState, acts: Seq<Action>) -> bool {
    if pre.files.link_previews@.contains_key(url@) {
        post == pre && acts.len() == 0
    } else {
        &&& post == (AppState {
            files: Files { preview_loading: post.files.preview_loading, ..pre.files },
            ..pre
        })
        &&& post.files.preview_loading@ == pre.files.preview_loading@.insert(url@, ())
        &&& acts == seq![Action::FetchPreview { url }]
    }
}

pub open spec fn preview_loaded_step(
    pre: AppState,
    url: String,
    preview: Option<LinkPreview>,
    post: AppState,
    acts: Seq<Action>,
) -> bool {
    &&& post == (AppState {
        files: Files {
            link_previews: post.files.link_previews,
            preview_loading: post.files.preview_loading,
            ..pre.files
        },
        ..pre
    })
    &&& post.files.preview_loading@ == pre.files.preview_loading@.remove(url@)
    &&& match preview {
        Some(p) => {
            &&& post.files.link_previews@ == pre.files.link_previews@.insert(url@, p)
            &&& acts == image_reads(p.images@, pre.files.media@)
        },
        None => {
            &&& post.files.link_previews == pre.files.link_previews
            &&& acts.len() == 0
        },
    }
}

pub open spec fn file_step(pre: AppState, msg: FileMsg, post: AppState, acts: Seq<Action>) -> bool {
    match msg {
        FileMsg::P2pReady => post == (AppState {
            files: Files { p2p_ready: true, ..pre.files },
            ..pre
        }) && acts == auto_fetches(post),
        FileMsg::P2pEvent { event, percent, contents } => p2p_event_step(
            pre,
            event,
            percent,
            contents,
            post,
        ) && acts.len() == 0,
        FileMsg::PickFile => post == pre && acts == seq![Action::PickFile],
        FileMsg::FilePicked(Ok(att)) => picked_step(pre, att, post) && acts.len() == 0,
        FileMsg::FilePicked(Err(e)) => post == with_error(
            AppState { files: Files { picking_file: false, ..pre.files }, ..pre },
            e,
        ) && acts.len() == 0,
        FileMsg::ClearAttachment => post == (AppState {
            files: Files { pending_attachment: None, ..pre.files },
            ..pre
        }) && acts.len() == 0,
        FileMsg::OpenFile(id) => post == pre && open_step(pre, id, acts),
        FileMsg::RetryFile(id) => post == pre && acts == retry_step(pre, id),
        FileMsg::Unreadable { file_id, sender_id } => post == pre && acts == retry_actions(
            pre.files.p2p_ready,
            file_id,
            sender_id,
        ),
        FileMsg::ThumbReady { file_id, png } => {
            &&& post == (AppState { files: Files { thumbs: post.files.thumbs, ..pre.files }, ..pre })
            &&& post.files.thumbs@ == pre.files.thumbs@.insert(file_id@, png)
            &&& acts.len() == 0
        },
        FileMsg::OpenLink(url) => post == pre && acts == seq![Action::OpenLink { url }],
        FileMsg::FetchLinkPreview(url) => fetch_preview_step(pre, url, post, acts),
        FileMsg::LinkPreviewLoaded { url, preview } => preview_loaded_step(
            pre,
            url,
            preview,
            post,
            acts,
        ),
        FileMsg::PreviewImageRead { url, bytes } => {
            &&& post == (AppState { files: Files { media: post.files.media, ..pre.files }, ..pre })
            &&& post.files.media@ == pre.files.media@.insert(url@, bytes)
            &&& acts.len() == 0
        },
    }
}

fn missing_pictures(urls: &Vec<String>, known: &Assoc<String, Vec<u8>>) -> (acts: Vec<Action>)
    ensures
        acts@ == image_reads(urls@, known@),
{
    let mut acts = no_actions();
    let mut i: usize = 0;
    while i < urls.len()
        invariant
            i <= urls.len(),
            acts@ == image_reads(urls@.take(i as int), known@),
        decreases urls.len() - i,
    {
        proof {
            assert(urls@.take(i + 1).drop_last() =~= urls@.take(i as int));
        }
        if !known.contains(&urls[i]) {
            acts.push(Action::ReadPreviewImage { url: urls[i].clone() });
        }
        i += 1;
    }
    proof {
        assert(urls@.take(i as int) =~= urls@);
    }
    acts
}

impl AppState {
    fn set_status(&mut self, file_id: String, status: String)
        ensures
            status_set(*old(self), file_id@, status@, *final(self)),
    {
        self.files.p2p_status.insert(file_id, status);
    }

    fn p2p_event(&mut self, event: P2pEvent, percent: u64, contents: Option<Vec<u8>>)
        ensures
            p2p_event_step(*old(self), event, percent, contents, *final(self)),
    {
        match event {
            P2pEvent::Status { file_id, status } => self.set_status(file_id, status),
            P2pEvent::Progress { file_id, received: _, total } => {
                let status = if total > 0 {
                    concat3("receiving · ", u64_text(percent).as_str(), "%")
                } else {
                    copy_text("receiving…")
                };
                self.set_status(file_id, status);
            },
            P2pEvent::Complete { file_id, mime, name: _, path } => {
                let image = if starts_with(mime.as_str(), "image/") {
                    contents
                } else {
                    None
                };
                let key = file_id.clone();
                self.files.downloaded.insert(file_id, DownloadedFile { image, path: Some(path) });
                self.files.p2p_status.remove(&key);
            },
            P2pEvent::Failed { file_id, reason } => {
                let status = if text_contains(reason.as_str(), "offline") || text_contains(
                    reason.as_str(),
                    "cancel",
                ) {
                    "offline"
                } else {
                    "error"
                };
                self.set_status(file_id, copy_text(status));
            },
        }
    }

    fn file_picked(&mut self, att: Attachment)
        ensures
            picked_step(*old(self), att, *final(self)),
    {
        self.files.picking_file = false;
        match data_url_bytes(att.thumbnail.as_str()) {
            Some(b) => {
                self.files.thumbs.insert(att.file_id.clone(), b);
            },
            None => {},
        }
        self.files.pending_attachment = Some(att);
    }

    fn retry(&self, file_id: String, sender_id: u64) -> (acts: Vec<Action>)
        ensures
            acts@ == retry_actions(self.files.p2p_ready, file_id, sender_id),
    {
        if self.files.p2p_ready {
            one_action(Action::P2p(P2pCommand::RetryFetch { file_id, sender_id }))
        } else {
            no_actions()
        }
    }

    fn open_file(&self, id: u64) -> (acts: Vec<Action>)
        ensures
            open_step(*self, id, acts@),
    {
        let m = match find_msg(&self.chats.messages, id) {
            Some(i) => &self.chats.messages[i],
            None => return no_actions(),
        };
        let f = match &m.file_id {
            Some(f) => f,
            None => return no_actions(),
        };
        let mime = text_or_empty(&m.attachment_mime);
        let name = text_or_empty(&m.attachment_name);
        if same_id(self.user_id(), m.sender_id) {
            match self.files.own_files.get(f) {
                Some(o) => {
                    return one_action(
                        Action::OpenBytes { mime, name, bytes: copy_bytes(&o.bytes) },
                    );
                },
                None => {},
            }
        }
        match self.files.downloaded.get(f) {
            Some(d) => match &d.path {
                Some(p) => {
                    return one_action(
                        Action::OpenStored {
                            path: p.clone(),
                            mime,
                            name,
                            file_id: f.clone(),
                            sender_id: m.sender_id,
                        },
                    );
                },
                None => {},
            },
            None => {},
        }
        self.retry(f.clone(), m.sender_id)
    }

    fn retry_file(&self, id: u64) -> (acts: Vec<Action>)
        ensures
            acts@ == retry_step(*self, id),
    {
        match find_msg(&self.chats.messages, id) {
            Some(i) => {
                let m = &self.chats.messages[i];
                match &m.file_id {
                    Some(f) => self.retry(f.clone(), m.sender_id),
                    None => no_actions(),
                }
            },
            None => no_actions(),
        }
    }

    fn fetch_preview(&mut self, url: String) -> (acts: Vec<Action>)
        ensures
            fetch_preview_step(*old(self), url, *final(self), acts@),
    {
        if self.files.link_previews.contains(&url) {
            return no_actions();
        }
        self.files.preview_loading.insert(url.clone(), ());
        one_action(Action::FetchPreview { url })
    }

    fn preview_loaded(&mut self, url: String, preview: Option<LinkPreview>) -> (acts: Vec<Action>)
        ensures
            preview_loaded_step(*old(self), url, preview, *final(self), acts@),
    {
        self.files.preview_loading.remove(&url);
        match preview {
            Some(p) => {
                let acts = missing_pictures(&p.images, &self.files.media);
                self.files.link_previews.insert(url, p);
                acts
            },
            None => no_actions(),
        }
    }

    pub fn update_file(&mut self, msg: FileMsg) -> (acts: Vec<Action>)
        ensures
            file_step(*old(self), msg, *final(self), acts@),
    {
        match msg {
            FileMsg::P2pReady => {
                self.files.p2p_ready = true;
                self.auto_fetch_files()
            },
            FileMsg::P2pEvent { event, percent, contents } => {
                self.p2p_event(event, percent, contents);
                no_actions()
            },
            FileMsg::PickFile => one_action(Action::PickFile),
            FileMsg::FilePicked(Ok(att)) => {
                self.file_picked(att);
                no_actions()
            },
            FileMsg::FilePicked(Err(e)) => {
                self.files.picking_file = false;
                self.session.error = e;
                no_actions()
            },
            FileMsg::ClearAttachment => {
                self.files.pending_attachment = None;
                no_actions()
            },
            FileMsg::OpenFile(id) => self.open_file(id),
            FileMsg::RetryFile(id) => self.retry_file(id),
            FileMsg::Unreadable { file_id, sender_id } => self.retry(file_id, sender_id),
            FileMsg::ThumbReady { file_id, png } => {
                self.files.thumbs.insert(file_id, png);
                no_actions()
            },
            FileMsg::OpenLink(url) => one_action(Action::OpenLink { url }),
            FileMsg::FetchLinkPreview(url) => self.fetch_preview(url),
            FileMsg::LinkPreviewLoaded { url, preview } => self.preview_loaded(url, preview),
            FileMsg::PreviewImageRead { url, bytes } => {
                self.files.media.insert(url, bytes);
                no_actions()
            },
        }
    }
}

} // verus!
