//! Files and links: what is fetched, opened, retried and shown.

use vstd::prelude::*;

use crate::chat::action::{Action, P2pCommand};
use crate::chat::lists::the_first_message_is_found;
use crate::chat::msg::{FileMsg, Msg};
use crate::chat::state::AppState;
use crate::chat::types::{Attachment, LinkPreview};
use crate::chat::update::step;
use crate::data_url::data_url_content;
use crate::number::decimal;
use crate::p2p::P2pEvent;
use crate::text::{found_texts_stand_there, texts_are_found_where_they_stand};

verus! {

/// A message of the list, by its place: the first one with its id.
pub open spec fn is_shown_at(s: AppState, k: int) -> bool {
    &&& 0 <= k < s.chats.messages@.len()
    &&& forall|j: int|
        0 <= j < k ==> (#[trigger] s.chats.messages@[j]).id != s.chats.messages@[k].id
}

proof fn lemma_shown_at(s: AppState, k: int)
    requires
        is_shown_at(s, k),
    ensures
        crate::chat::lists::msg_index(s.chats.messages@, s.chats.messages@[k].id) == k,
        crate::chat::lists::has_msg(s.chats.messages@, s.chats.messages@[k].id),
{
    let msgs = s.chats.messages@;
    let id = msgs[k].id;
    the_first_message_is_found(msgs, id);
    let i = crate::chat::lists::msg_index(msgs, id);
    if i < k {
        assert(msgs[i].id != id);
    }
    if k < i {
        assert(msgs[k].id != id);
    }
}

/// A file of a message is opened from memory where the user sent it in this session, else from disk
/// where it lies there, and else it is fetched from its sender again.
pub proof fn files_are_opened(
    pre: AppState,
    k: int,
    now: u64,
    post: AppState,
    acts: Seq<Action>,
)
    requires
        is_shown_at(pre, k),
        pre.chats.messages@[k].file_id is Some,
        step(
            pre,
            Msg::File(FileMsg::OpenFile(pre.chats.messages@[k].id)),
            now,
            post,
            acts,
        ),
    ensures
        ({
            let m = pre.chats.messages@[k];
            let f = m.file_id->0;
            let own = pre.session.user is Some && pre.session.user->0.id == m.sender_id
                && pre.files.own_files@.contains_key(f@);
            let stored = pre.files.downloaded@.contains_key(f@) && pre.files.downloaded@[f@].path is Some;
            &&& own ==> acts.len() == 1 && (acts[0] matches Action::OpenBytes { mime, name, bytes }
                && bytes@ == pre.files.own_files@[f@].bytes@ && (m.attachment_mime is Some ==> mime@
                == m.attachment_mime->0@) && (m.attachment_name is Some ==> name@
                == m.attachment_name->0@))
            &&& !own && stored ==> acts.len() == 1 && (acts[0] matches Action::OpenStored {
                path,
                mime,
                name,
                file_id,
                sender_id,
            } && path == pre.files.downloaded@[f@].path->0 && file_id == f && sender_id == m.sender_id
                && (m.attachment_mime is Some ==> mime@ == m.attachment_mime->0@) && (
            m.attachment_name is Some ==> name@ == m.attachment_name->0@))
            &&& !own && !stored && pre.files.p2p_ready ==> acts == seq![
                Action::P2p(P2pCommand::RetryFetch { file_id: f, sender_id: m.sender_id }),
            ]
        }),
        post == pre,
{
    lemma_shown_at(pre, k);
}

/// A retry asks the sender of the message for its file, and so does a file that turned out to be
/// unreadable.
pub proof fn files_are_retried(
    pre: AppState,
    k: int,
    now: u64,
    post: AppState,
    acts: Seq<Action>,
)
    requires
        is_shown_at(pre, k),
        pre.chats.messages@[k].file_id is Some,
        pre.files.p2p_ready,
        step(
            pre,
            Msg::File(FileMsg::RetryFile(pre.chats.messages@[k].id)),
            now,
            post,
            acts,
        ),
    ensures
        acts == seq![
            Action::P2p(
                P2pCommand::RetryFetch {
                    file_id: pre.chats.messages@[k].file_id->0,
                    sender_id: pre.chats.messages@[k].sender_id,
                },
            ),
        ],
        post == pre,
{
    lemma_shown_at(pre, k);
}

/// The status of a transfer is what the transfer says of it; that of every other file stays. A file
/// that is there has no status, lies where the transfer put it, and is shown if it is a picture.
pub proof fn transfers_show_how_they_stand(
    pre: AppState,
    event: P2pEvent,
    percent: u64,
    contents: Option<Vec<u8>>,
    now: u64,
    post: AppState,
    acts: Seq<Action>,
    other: Seq<char>,
)
    requires
        step(
            pre,
            Msg::File(FileMsg::P2pEvent { event, percent, contents }),
            now,
            post,
            acts,
        ),
    ensures
        event matches P2pEvent::Status { file_id, status } ==> post.files.p2p_status@.contains_key(
            file_id@,
        ) && post.files.p2p_status@[file_id@]@ == status@ && (other != file_id@
            ==> post.files.p2p_status@.contains_key(other) == pre.files.p2p_status@.contains_key(
            other,
        )),
        event matches P2pEvent::Progress { file_id, received, total } ==> (total > 0
            ==> post.files.p2p_status@.contains_key(file_id@) && post.files.p2p_status@[file_id@]@
            == "receiving · "@ + decimal(percent as nat) + seq!['%']),
        event matches P2pEvent::Complete { file_id, mime, name, path } ==> {
            &&& !post.files.p2p_status@.contains_key(file_id@)
            &&& post.files.downloaded@.contains_key(file_id@)
            &&& post.files.downloaded@[file_id@].path == Some(path)
            &&& mime@.len() >= 6 && mime@.take(6) == "image/"@
                ==> post.files.downloaded@[file_id@].image == contents
            &&& !(mime@.len() >= 6 && mime@.take(6) == "image/"@)
                ==> post.files.downloaded@[file_id@].image is None
            &&& other != file_id@ ==> post.files.downloaded@.contains_key(other)
                == pre.files.downloaded@.contains_key(other)
        },
        event matches P2pEvent::Failed { file_id, reason } ==> post.files.p2p_status@.contains_key(
            file_id@,
        ) && ((exists|a: Seq<char>, b: Seq<char>| reason@ == #[trigger] (a + "offline"@ + b)) || (
        exists|a: Seq<char>, b: Seq<char>| reason@ == #[trigger] (a + "cancel"@ + b))
            ==> post.files.p2p_status@[file_id@]@ == "offline"@) && (post.files.p2p_status@[file_id@]@
            == "offline"@ || post.files.p2p_status@[file_id@]@ == "error"@),
        acts.len() == 0,
{
    reveal_strlit("%");
    assert("%"@ =~= seq!['%']);
    reveal_strlit("image/");
    match event {
        P2pEvent::Complete { file_id, mime, name, path } => {
            if mime@.len() >= 6 {
                assert(mime@.take(6) =~= mime@.subrange(0, 6));
            }
        },
        P2pEvent::Failed { file_id, reason } => {
            if exists|a: Seq<char>, b: Seq<char>| reason@ == #[trigger] (a + "offline"@ + b) {
                let (a, b) = choose|a: Seq<char>, b: Seq<char>|
                    reason@ == #[trigger] (a + "offline"@ + b);
                texts_are_found_where_they_stand(a, "offline"@, b);
            }
            if exists|a: Seq<char>, b: Seq<char>| reason@ == #[trigger] (a + "cancel"@ + b) {
                let (a, b) = choose|a: Seq<char>, b: Seq<char>|
                    reason@ == #[trigger] (a + "cancel"@ + b);
                texts_are_found_where_they_stand(a, "cancel"@, b);
            }
        },
        _ => {},
    }
}

/// A failure for any other reason is an error.
pub proof fn other_failures_are_errors(
    pre: AppState,
    file_id: String,
    reason: String,
    percent: u64,
    contents: Option<Vec<u8>>,
    now: u64,
    post: AppState,
    acts: Seq<Action>,
)
    requires
        step(
            pre,
            Msg::File(
                FileMsg::P2pEvent { event: P2pEvent::Failed { file_id, reason }, percent, contents },
            ),
            now,
            post,
            acts,
        ),
        !(exists|a: Seq<char>, b: Seq<char>| reason@ == #[trigger] (a + "offline"@ + b)),
        !(exists|a: Seq<char>, b: Seq<char>| reason@ == #[trigger] (a + "cancel"@ + b)),
    ensures
        post.files.p2p_status@[file_id@]@ == "error"@,
{
    found_texts_stand_there(reason@, "offline"@);
    found_texts_stand_there(reason@, "cancel"@);
}

/// A file that was picked waits to be sent, with its small picture; it can be dropped again, and one
/// that could not be picked leaves its reason.
pub proof fn picked_files_wait(
    pre: AppState,
    att: Attachment,
    e: String,
    m: FileMsg,
    now: u64,
    post: AppState,
    acts: Seq<Action>,
)
    requires
        step(pre, Msg::File(m), now, post, acts),
    ensures
        m == FileMsg::PickFile ==> acts == seq![Action::PickFile],
        m == FileMsg::FilePicked(Ok(att)) ==> post.files.pending_attachment == Some(att)
            && !post.files.picking_file && acts.len() == 0,
        m == FileMsg::FilePicked(Ok(att)) ==> (data_url_content(att.thumbnail@) matches Some(b)
            ==> post.files.thumbs@.contains_key(att.file_id@) && post.files.thumbs@[att.file_id@]@
            == b),
        m == FileMsg::FilePicked(Err(e)) ==> post.session.error == e
            && post.files.pending_attachment == pre.files.pending_attachment,
        m == FileMsg::ClearAttachment ==> post.files.pending_attachment is None,
{
}

/// Small pictures and the pictures of links are kept under what they are of.
pub proof fn pictures_are_kept(
    pre: AppState,
    id: String,
    bytes: Vec<u8>,
    m: FileMsg,
    now: u64,
    post: AppState,
    acts: Seq<Action>,
)
    requires
        step(pre, Msg::File(m), now, post, acts),
    ensures
        m == (FileMsg::ThumbReady { file_id: id, png: bytes }) ==> post.files.thumbs@.contains_key(id@)
            && post.files.thumbs@[id@] == bytes,
        m == (FileMsg::PreviewImageRead { url: id, bytes }) ==> post.files.media@.contains_key(id@)
            && post.files.media@[id@] == bytes,
        m == FileMsg::OpenLink(id) ==> acts == seq![Action::OpenLink { url: id }],
{
}

/// A link is looked up once, and what was found is kept for it; each picture of it that is not there
/// is read.
pub proof fn links_are_looked_up_once(
    pre: AppState,
    url: String,
    p: LinkPreview,
    m: FileMsg,
    now: u64,
    post: AppState,
    acts: Seq<Action>,
    k: int,
)
    requires
        step(pre, Msg::File(m), now, post, acts),
    ensures
        m == FileMsg::FetchLinkPreview(url) && pre.files.link_previews@.contains_key(url@)
            ==> acts.len() == 0,
        m == FileMsg::FetchLinkPreview(url) && !pre.files.link_previews@.contains_key(url@) ==> acts
            == seq![Action::FetchPreview { url }] && post.files.preview_loading@.contains_key(url@),
        m == (FileMsg::LinkPreviewLoaded { url, preview: Some(p) })
            ==> post.files.link_previews@.contains_key(url@) && post.files.link_previews@[url@] == p
            && !post.files.preview_loading@.contains_key(url@),
        m == (FileMsg::LinkPreviewLoaded { url, preview: Some(p) }) && 0 <= k < p.images@.len()
            && !pre.files.media@.contains_key(p.images@[k]@) ==> acts.contains(
            Action::ReadPreviewImage { url: p.images@[k] },
        ),
        m == (FileMsg::LinkPreviewLoaded { url, preview: None })
            ==> !post.files.preview_loading@.contains_key(url@) && post.files.link_previews
            == pre.files.link_previews,
{
    if 0 <= k < p.images@.len() && !pre.files.media@.contains_key(p.images@[k]@) {
        lemma_image_reads(p.images@, pre.files.media@, k);
    }
}

proof fn lemma_image_reads(urls: Seq<String>, known: Map<Seq<char>, Vec<u8>>, k: int)
    requires
        0 <= k < urls.len(),
        !known.contains_key(urls[k]@),
    ensures
        crate::chat::files::image_reads(urls, known).contains(
            Action::ReadPreviewImage { url: urls[k] },
        ),
    decreases urls.len(),
{
    let init = urls.drop_last();
    let rest = crate::chat::files::image_reads(init, known);
    let all = crate::chat::files::image_reads(urls, known);
    let a = Action::ReadPreviewImage { url: urls[k] };
    if k < init.len() {
        assert(init[k] == urls[k]);
        lemma_image_reads(init, known, k);
        let i = choose|i: int| 0 <= i < rest.len() && rest[i] == a;
        assert(all[i] == a);
    } else {
        assert(all[all.len() - 1] == a);
    }
}

} // verus!
