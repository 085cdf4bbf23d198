//! Conversations: what is shown, sent, edited, deleted and counted.

use vstd::prelude::*;

use crate::chat::action::{Action, Api, P2pCommand, VoiceCommand};
use crate::chat::conv::{fetch_actions, links_to_preview, new_links, other_conversations};
use crate::chat::files::thumb_actions;
use crate::chat::lists::{
    new_messages_come_last, others_are_left, replaced_takes_the_place, the_first_message_is_found,
};
use crate::chat::msg::{ConvMsg, FileMsg, Msg, VoiceMsg, WsHubEvent, WsMsg};
use crate::chat::state::AppState;
use crate::chat::types::{ApiMsg, Conversation, DownloadedFile, LinkPreview};
use crate::chat::update::step;
use crate::links::links_of;
use crate::text::trim;

verus! {

/// A message that comes from the socket.
pub open spec fn from_socket(ev: WsHubEvent) -> Msg {
    Msg::Ws(WsMsg::WsEvent(ev))
}

/// An edit shows, one's own or another user's: the message with that id is the edited one, the list
/// is as long as it was, and every other message is where it was.
pub proof fn edits_show(
    pre: AppState,
    msg: Msg,
    m: ApiMsg,
    now: u64,
    post: AppState,
    acts: Seq<Action>,
    j: int,
)
    requires
        msg == from_socket(WsHubEvent::MessageEdited { message: m }) || msg == Msg::Conv(
            ConvMsg::EditResult(Ok(m)),
        ),
        step(pre, msg, now, post, acts),
        0 <= j < pre.chats.messages@.len(),
        pre.chats.messages@[j].id == m.id,
    ensures
        exists|i: int| 0 <= i < post.chats.messages@.len() && #[trigger] post.chats.messages@[i] == m,
        post.chats.messages@.len() == pre.chats.messages@.len(),
        forall|k: int|
            0 <= k < pre.chats.messages@.len() && (#[trigger] pre.chats.messages@[k]).id != m.id
                ==> post.chats.messages@[k] == pre.chats.messages@[k],
        acts.len() == 0,
{
    replaced_takes_the_place(pre.chats.messages@, m);
    assert(pre.chats.messages@[j].id == m.id);
}

/// A message that is not in the list is not put there by an edit.
pub proof fn edits_add_nothing(
    pre: AppState,
    msg: Msg,
    m: ApiMsg,
    now: u64,
    post: AppState,
    acts: Seq<Action>,
)
    requires
        msg == from_socket(WsHubEvent::MessageEdited { message: m }) || msg == Msg::Conv(
            ConvMsg::EditResult(Ok(m)),
        ),
        step(pre, msg, now, post, acts),
        forall|i: int|
            0 <= i < pre.chats.messages@.len() ==> (#[trigger] pre.chats.messages@[i]).id != m.id,
    ensures
        post.chats.messages@ == pre.chats.messages@,
{
    replaced_takes_the_place(pre.chats.messages@, m);
}

/// A deleted message is gone, one's own or another user's, and every other message stays; a message
/// that was deleted in another conversation changes nothing here.
pub proof fn deletions_show(
    pre: AppState,
    msg: Msg,
    conversation_id: u64,
    message_id: u64,
    now: u64,
    post: AppState,
    acts: Seq<Action>,
)
    requires
        msg == from_socket(WsHubEvent::MessageDeleted { conversation_id, message_id }) || msg
            == Msg::Conv(ConvMsg::DeleteResult(message_id)),
        step(pre, msg, now, post, acts),
    ensures
        msg is Conv || pre.chats.selected_conversation == Some(conversation_id) ==> {
            &&& forall|i: int|
                0 <= i < post.chats.messages@.len() ==> (#[trigger] post.chats.messages@[i]).id
                    != message_id && pre.chats.messages@.contains(post.chats.messages@[i])
            &&& forall|k: int|
                0 <= k < pre.chats.messages@.len() && (#[trigger] pre.chats.messages@[k]).id
                    != message_id ==> post.chats.messages@.contains(pre.chats.messages@[k])
        },
        msg is Ws && pre.chats.selected_conversation != Some(conversation_id)
            ==> post.chats.messages@ == pre.chats.messages@,
{
    others_are_left(pre.chats.messages@, message_id);
}

/// A new message in the open conversation comes behind the others, one's own or another user's; one
/// that is shown already is not shown again.
pub proof fn new_messages_show(
    pre: AppState,
    msg: Msg,
    m: ApiMsg,
    now: u64,
    post: AppState,
    acts: Seq<Action>,
)
    requires
        msg == from_socket(WsHubEvent::Message { message: m }) || msg == Msg::Conv(
            ConvMsg::MessageSent(Ok(m)),
        ),
        step(pre, msg, now, post, acts),
        pre.chats.selected_conversation == Some(m.conversation_id),
    ensures
        (forall|i: int|
            0 <= i < pre.chats.messages@.len() ==> (#[trigger] pre.chats.messages@[i]).id != m.id)
            ==> {
            &&& post.chats.messages@.len() == pre.chats.messages@.len() + 1
            &&& post.chats.messages@.last() == m
            &&& post.chats.messages@.drop_last() == pre.chats.messages@
        },
        (exists|i: int|
            0 <= i < pre.chats.messages@.len() && (#[trigger] pre.chats.messages@[i]).id == m.id)
            ==> post.chats.messages@ == pre.chats.messages@,
        post.chats.unread == pre.chats.unread,
        msg is Conv ==> !post.chats.busy,
{
    new_messages_come_last(pre.chats.messages@, m);
}

/// A message in another conversation counts as unread there, and nowhere else; a conversation that is
/// not listed yet makes the list load again.
pub proof fn other_conversations_count(
    pre: AppState,
    m: ApiMsg,
    now: u64,
    post: AppState,
    acts: Seq<Action>,
    other: u64,
)
    requires
        step(pre, from_socket(WsHubEvent::Message { message: m }), now, post, acts),
        pre.chats.selected_conversation != Some(m.conversation_id),
        other != m.conversation_id,
    ensures
        post.chats.messages == pre.chats.messages,
        post.chats.unread@.contains_key(m.conversation_id),
        !pre.chats.unread@.contains_key(m.conversation_id) ==> post.chats.unread@[m.conversation_id]
            == 1,
        pre.chats.unread@.contains_key(m.conversation_id) && pre.chats.unread@[m.conversation_id]
            < u32::MAX ==> post.chats.unread@[m.conversation_id]
            == pre.chats.unread@[m.conversation_id] + 1,
        post.chats.unread@.contains_key(other) == pre.chats.unread@.contains_key(other),
        post.chats.unread@.contains_key(other) ==> post.chats.unread@[other]
            == pre.chats.unread@[other],
        (exists|i: int|
            0 <= i < pre.chats.conversations@.len() && (#[trigger] pre.chats.conversations@[i]).id
                == m.conversation_id) ==> acts.len() == 0,
        (forall|i: int|
            0 <= i < pre.chats.conversations@.len() ==> (#[trigger] pre.chats.conversations@[i]).id
                != m.conversation_id) ==> acts == seq![Action::Call(Api::LoadConversations)],
{
}

/// Opening a conversation asks for its messages and makes it read; the other conversations stay as
/// unread as they were. The draft and the list of the one that was open are gone.
pub proof fn opening_loads_and_reads(
    pre: AppState,
    id: u64,
    now: u64,
    post: AppState,
    acts: Seq<Action>,
    other: u64,
)
    requires
        step(pre, Msg::Conv(ConvMsg::SelectConversation(id)), now, post, acts),
        other != id,
    ensures
        post.chats.selected_conversation == Some(id),
        !post.chats.unread@.contains_key(id),
        post.chats.unread@.contains_key(other) == pre.chats.unread@.contains_key(other),
        post.chats.unread@.contains_key(other) ==> post.chats.unread@[other]
            == pre.chats.unread@[other],
        post.chats.messages@.len() == 0,
        post.chats.draft@.len() == 0,
        post.chats.editing_message_id is None,
        post.chats.loading_messages,
        acts.len() == 1,
        acts[0] == Action::Call(Api::LoadMessages { conversation_id: id }),
{
}

proof fn lemma_fetches(
    msgs: Seq<ApiMsg>,
    me: Option<u64>,
    held: Map<Seq<char>, DownloadedFile>,
)
    ensures
        forall|k: int|
            0 <= k < msgs.len() && (#[trigger] msgs[k]).file_id is Some && me != Some(
                msgs[k].sender_id,
            ) && !held.contains_key(msgs[k].file_id->0@) ==> fetch_actions(msgs, me, held).contains(
                Action::P2p(
                    P2pCommand::Fetch {
                        file_id: msgs[k].file_id->0,
                        sender_id: msgs[k].sender_id,
                    },
                ),
            ),
        forall|i: int|
            0 <= i < fetch_actions(msgs, me, held).len() ==> ((#[trigger] fetch_actions(
                msgs,
                me,
                held,
            )[i]) matches Action::P2p(P2pCommand::Fetch { file_id, sender_id }) && me != Some(
                sender_id,
            ) && !held.contains_key(file_id@)),
    decreases msgs.len(),
{
    if msgs.len() > 0 {
        let init = msgs.drop_last();
        lemma_fetches(init, me, held);
        let rest = fetch_actions(init, me, held);
        let all = fetch_actions(msgs, me, held);
        assert forall|k: int|
            0 <= k < msgs.len() && (#[trigger] msgs[k]).file_id is Some && me != Some(
                msgs[k].sender_id,
            ) && !held.contains_key(msgs[k].file_id->0@) implies all.contains(
            Action::P2p(
                P2pCommand::Fetch { file_id: msgs[k].file_id->0, sender_id: msgs[k].sender_id },
            ),
        ) by {
            let a = Action::P2p(
                P2pCommand::Fetch { file_id: msgs[k].file_id->0, sender_id: msgs[k].sender_id },
            );
            if k < init.len() {
                assert(init[k] == msgs[k]);
                let i = choose|i: int| 0 <= i < rest.len() && rest[i] == a;
                assert(all[i] == a);
            } else {
                assert(all[all.len() - 1] == a);
            }
        }
        assert forall|i: int| 0 <= i < all.len() implies ((#[trigger] all[i]) matches Action::P2p(
            P2pCommand::Fetch { file_id, sender_id },
        ) && me != Some(sender_id) && !held.contains_key(file_id@)) by {
            if i < rest.len() {
                assert(all[i] == rest[i]);
            }
        }
    }
}

proof fn lemma_thumbs(msgs: Seq<ApiMsg>, known: Map<Seq<char>, Vec<u8>>)
    ensures
        forall|k: int|
            0 <= k < msgs.len() && (#[trigger] msgs[k]).file_id is Some && msgs[k].thumbnail_data is Some
                && !known.contains_key(msgs[k].file_id->0@) ==> thumb_actions(msgs, known).contains(
                Action::MakeThumb { file_id: msgs[k].file_id->0, url: msgs[k].thumbnail_data->0 },
            ),
    decreases msgs.len(),
{
    if msgs.len() > 0 {
        let init = msgs.drop_last();
        lemma_thumbs(init, known);
        let rest = thumb_actions(init, known);
        let all = thumb_actions(msgs, known);
        assert forall|k: int|
            0 <= k < msgs.len() && (#[trigger] msgs[k]).file_id is Some && msgs[k].thumbnail_data is Some
                && !known.contains_key(msgs[k].file_id->0@) implies all.contains(
            Action::MakeThumb { file_id: msgs[k].file_id->0, url: msgs[k].thumbnail_data->0 },
        ) by {
            let a = Action::MakeThumb {
                file_id: msgs[k].file_id->0,
                url: msgs[k].thumbnail_data->0,
            };
            if k < init.len() {
                assert(init[k] == msgs[k]);
                let i = choose|i: int| 0 <= i < rest.len() && rest[i] == a;
                assert(all[i] == a);
            } else {
                assert(all[all.len() - 1] == a);
            }
        }
    }
}

proof fn lemma_new_links(urls: Seq<Seq<char>>, known: Map<Seq<char>, LinkPreview>)
    ensures
        forall|u: int|
            0 <= u < urls.len() && !known.contains_key(#[trigger] urls[u]) ==> new_links(
                urls,
                known,
            ).contains(urls[u]),
    decreases urls.len(),
{
    if urls.len() > 0 {
        let init = urls.drop_last();
        lemma_new_links(init, known);
        let rest = new_links(init, known);
        let all = new_links(urls, known);
        assert forall|u: int| 0 <= u < urls.len() && !known.contains_key(#[trigger] urls[u]) implies all.contains(
            urls[u],
        ) by {
            if u < init.len() {
                assert(init[u] == urls[u]);
                let i = choose|i: int| 0 <= i < rest.len() && rest[i] == urls[u];
                assert(all[i] == urls[u]);
            } else {
                assert(all[all.len() - 1] == urls[u]);
            }
        }
    }
}

proof fn lemma_previews(msgs: Seq<ApiMsg>, known: Map<Seq<char>, LinkPreview>)
    ensures
        forall|k: int, u: int|
            0 <= k < msgs.len() && 0 <= u < links_of(msgs[k].body@).len() && !known.contains_key(
                #[trigger] links_of((#[trigger] msgs[k]).body@)[u],
            ) ==> links_to_preview(msgs, known).contains(links_of(msgs[k].body@)[u]),
    decreases msgs.len(),
{
    if msgs.len() > 0 {
        let init = msgs.drop_last();
        lemma_previews(init, known);
        let rest = links_to_preview(init, known);
        let more = new_links(links_of(msgs.last().body@), known);
        let all = links_to_preview(msgs, known);
        lemma_new_links(links_of(msgs.last().body@), known);
        assert forall|k: int, u: int|
            0 <= k < msgs.len() && 0 <= u < links_of(msgs[k].body@).len() && !known.contains_key(
                #[trigger] links_of((#[trigger] msgs[k]).body@)[u],
            ) implies all.contains(links_of(msgs[k].body@)[u]) by {
            let l = links_of(msgs[k].body@)[u];
            if k < init.len() {
                assert(init[k] == msgs[k]);
                let i = choose|i: int| 0 <= i < rest.len() && rest[i] == l;
                assert(all[i] == l);
            } else {
                assert(msgs[k] == msgs.last());
                let i = choose|i: int| 0 <= i < more.len() && more[i] == l;
                assert(all[rest.len() + i] == l);
            }
        }
    }
}

/// The messages that were loaded for the open conversation are the ones that are shown. A file that
/// another user sent and that is not there is fetched from its sender, a link that was not looked up
/// is looked up, and the conversation is marked as read up to its last message.
pub proof fn loaded_messages_show(
    pre: AppState,
    conversation_id: u64,
    msgs: Vec<ApiMsg>,
    now: u64,
    post: AppState,
    acts: Seq<Action>,
    k: int,
    u: int,
)
    requires
        step(
            pre,
            Msg::Conv(ConvMsg::MessagesLoaded { conversation_id, messages: Ok(msgs) }),
            now,
            post,
            acts,
        ),
        pre.chats.selected_conversation == Some(conversation_id),
        0 <= k < msgs@.len(),
    ensures
        post.chats.messages == msgs,
        !post.chats.loading_messages,
        acts.last() == Action::Call(
            Api::MarkRead { conversation_id, message_id: msgs@.last().id },
        ),
        pre.files.p2p_ready && msgs@[k].file_id is Some && (pre.session.user is None
            || pre.session.user->0.id != msgs@[k].sender_id) && !pre.files.downloaded@.contains_key(
            msgs@[k].file_id->0@,
        ) ==> acts.contains(
            Action::P2p(
                P2pCommand::Fetch {
                    file_id: msgs@[k].file_id->0,
                    sender_id: msgs@[k].sender_id,
                },
            ),
        ),
        msgs@[k].file_id is Some && msgs@[k].thumbnail_data is Some
            && !pre.files.thumbs@.contains_key(msgs@[k].file_id->0@) ==> acts.contains(
            Action::MakeThumb {
                file_id: msgs@[k].file_id->0,
                url: msgs@[k].thumbnail_data->0,
            },
        ),
        0 <= u < links_of(msgs@[k].body@).len() && !pre.files.link_previews@.contains_key(
            links_of(msgs@[k].body@)[u],
        ) ==> exists|i: int|
            0 <= i < acts.len() && ((#[trigger] acts[i]) matches Action::Done(
                Msg::File(FileMsg::FetchLinkPreview(url)),
            ) && url@ == links_of(msgs@[k].body@)[u]),
{
    let me = match pre.session.user {
        Some(x) => Some(x.id),
        None => None,
    };
    let thumbs = thumb_actions(msgs@, pre.files.thumbs@);
    let fetches = if pre.files.p2p_ready {
        fetch_actions(msgs@, me, pre.files.downloaded@)
    } else {
        Seq::empty()
    };
    let files = thumbs + fetches;
    let links = links_to_preview(msgs@, pre.files.link_previews@);
    let a = files.len() as int;
    let b = a + links.len();
    assert(acts.take(a) == files);
    lemma_fetches(msgs@, me, pre.files.downloaded@);
    lemma_thumbs(msgs@, pre.files.thumbs@);
    lemma_previews(msgs@, pre.files.link_previews@);
    let tail = acts.skip(b);
    assert(acts.last() == tail.last());
    if pre.files.p2p_ready && msgs@[k].file_id is Some && me != Some(msgs@[k].sender_id)
        && !pre.files.downloaded@.contains_key(msgs@[k].file_id->0@) {
        let f = Action::P2p(
            P2pCommand::Fetch { file_id: msgs@[k].file_id->0, sender_id: msgs@[k].sender_id },
        );
        assert(fetches.contains(f));
        let i = choose|i: int| 0 <= i < fetches.len() && fetches[i] == f;
        assert(files[thumbs.len() + i] == f);
        assert(acts.take(a)[thumbs.len() + i] == acts[thumbs.len() + i]);
    }
    if msgs@[k].file_id is Some && msgs@[k].thumbnail_data is Some
        && !pre.files.thumbs@.contains_key(msgs@[k].file_id->0@) {
        let t = Action::MakeThumb {
            file_id: msgs@[k].file_id->0,
            url: msgs@[k].thumbnail_data->0,
        };
        assert(thumbs.contains(t));
        let i = choose|i: int| 0 <= i < thumbs.len() && thumbs[i] == t;
        assert(files[i] == t);
        assert(acts.take(a)[i] == acts[i]);
    }
    if 0 <= u < links_of(msgs@[k].body@).len() && !pre.files.link_previews@.contains_key(
        links_of(msgs@[k].body@)[u],
    ) {
        let l = links_of(msgs@[k].body@)[u];
        assert(links.contains(l));
        let i = choose|i: int| 0 <= i < links.len() && links[i] == l;
        let mid = acts.subrange(a, b);
        assert(mid[i] == acts[a + i]);
        assert(acts[a + i] matches Action::Done(Msg::File(FileMsg::FetchLinkPreview(url))) && url@
            == l);
    }
}

/// Messages that come too late, for a conversation that is not open any more, are not shown.
pub proof fn late_messages_do_not_show(
    pre: AppState,
    conversation_id: u64,
    messages: Result<Vec<ApiMsg>, String>,
    now: u64,
    post: AppState,
    acts: Seq<Action>,
)
    requires
        step(pre, Msg::Conv(ConvMsg::MessagesLoaded { conversation_id, messages }), now, post, acts),
        pre.chats.selected_conversation != Some(conversation_id),
    ensures
        post.chats.messages == pre.chats.messages,
        acts.len() == 0,
{
}

/// A message is sent to the open conversation with the text that was written, without the blanks
/// around it, and the line is empty again.
pub proof fn messages_are_sent(
    pre: AppState,
    conv: u64,
    now: u64,
    post: AppState,
    acts: Seq<Action>,
)
    requires
        step(pre, Msg::Conv(ConvMsg::SendMessage), now, post, acts),
        pre.chats.selected_conversation == Some(conv),
        trim(pre.chats.draft@).len() > 0 || pre.files.pending_attachment is Some,
    ensures
        acts.len() > 0,
        acts.last() matches Action::Call(Api::SendMessage { conversation_id, body, file })
            && conversation_id == conv && body@ == trim(pre.chats.draft@) && (file is Some
            <==> pre.files.pending_attachment is Some),
        post.chats.draft@.len() == 0,
        post.chats.busy,
        post.chats.messages == pre.chats.messages,
{
}

/// A file that goes with a message is described by it in full, kept on disk, held ready for the
/// others where there are connections, and remembered as the user's own.
pub proof fn files_go_with_messages(
    pre: AppState,
    now: u64,
    post: AppState,
    acts: Seq<Action>,
)
    requires
        step(pre, Msg::Conv(ConvMsg::SendMessage), now, post, acts),
        pre.chats.selected_conversation is Some,
        pre.files.pending_attachment is Some,
    ensures
        ({
            let att = pre.files.pending_attachment->0;
            let id = att.file_id@;
            &&& post.files.pending_attachment is None
            &&& acts.last() matches Action::Call(Api::SendMessage { conversation_id, body, file })
            &&& file matches Some(f)
            &&& f.file_id == att.file_id && f.name == att.name && f.mime == att.mime && f.file_size
                == att.file_size && f.thumbnail == att.thumbnail
            &&& post.files.own_files@.contains_key(id) && post.files.own_files@[id].bytes@
                == att.bytes@
            &&& post.files.downloaded@.contains_key(id) && post.files.downloaded@[id].path is Some
            &&& exists|i: int|
                0 <= i < acts.len() && ((#[trigger] acts[i]) matches Action::StoreFile {
                    file_id,
                    bytes,
                } && file_id == att.file_id && bytes@ == att.bytes@)
            &&& pre.files.p2p_ready ==> exists|i: int|
                0 <= i < acts.len() && ((#[trigger] acts[i]) matches Action::P2p(
                    P2pCommand::Serve(s),
                ) && s.file_id == att.file_id && s.bytes@ == att.bytes@ && s.name == att.name
                    && s.mime == att.mime && s.size == att.file_size)
        }),
{
    let out = acts.drop_last();
    if pre.files.p2p_ready {
        assert(out[0] == acts[0]);
        assert(out[1] == acts[1]);
    } else {
        assert(out[0] == acts[0]);
    }
}

/// Without an open conversation nothing is sent.
pub proof fn nothing_is_sent_nowhere(pre: AppState, now: u64, post: AppState, acts: Seq<Action>)
    requires
        step(pre, Msg::Conv(ConvMsg::SendMessage), now, post, acts),
        pre.chats.selected_conversation is None,
    ensures
        post == pre,
        acts.len() == 0,
{
}

/// Editing starts from the text of the message, and what is sent is the changed text for that
/// message; the two steps together send an edit of what was picked.
pub proof fn edits_are_sent(
    pre: AppState,
    id: u64,
    conv: u64,
    now: u64,
    mid: AppState,
    a: Seq<Action>,
    text: String,
    typed: AppState,
    b: Seq<Action>,
    post: AppState,
    acts: Seq<Action>,
    j: int,
)
    requires
        pre.chats.selected_conversation == Some(conv),
        0 <= j < pre.chats.messages@.len(),
        pre.chats.messages@[j].id == id,
        forall|i: int| 0 <= i < j ==> (#[trigger] pre.chats.messages@[i]).id != id,
        step(pre, Msg::Conv(ConvMsg::StartEdit(id)), now, mid, a),
        step(mid, Msg::Conv(ConvMsg::DraftChanged(text)), now, typed, b),
        step(typed, Msg::Conv(ConvMsg::ConfirmEdit), now, post, acts),
    ensures
        mid.chats.draft == pre.chats.messages@[j].body,
        mid.chats.editing_message_id == Some(id),
        typed.chats.draft == text,
        acts.len() == 1,
        acts[0] matches Action::Call(Api::EditMessage { conversation_id, message_id, body })
            && conversation_id == conv && message_id == id && body@ == trim(text@),
        post.chats.editing_message_id is None,
        post.chats.draft@.len() == 0,
{
    the_first_message_is_found(pre.chats.messages@, id);
    assert(pre.chats.messages@[j].id == id);
}

/// An edit that is given up sends nothing, and leaves the line empty.
pub proof fn edits_can_be_given_up(pre: AppState, now: u64, post: AppState, acts: Seq<Action>)
    requires
        step(pre, Msg::Conv(ConvMsg::CancelEdit), now, post, acts),
    ensures
        acts.len() == 0,
        post.chats.editing_message_id is None,
        post.chats.draft@.len() == 0,
        post.chats.messages == pre.chats.messages,
{
}

/// A message is deleted in the conversation that is open.
pub proof fn deletions_are_asked_for(
    pre: AppState,
    id: u64,
    conv: u64,
    now: u64,
    post: AppState,
    acts: Seq<Action>,
)
    requires
        step(pre, Msg::Conv(ConvMsg::DeleteMessage(id)), now, post, acts),
        pre.chats.selected_conversation == Some(conv),
    ensures
        acts.len() == 1,
        acts[0] == Action::Call(Api::DeleteMessage { conversation_id: conv, message_id: id }),
        post.chats == pre.chats,
{
}

/// What the user types is announced to the open conversation, but not within two seconds of the last
/// time; the text is kept either way.
pub proof fn typing_is_announced(
    pre: AppState,
    text: String,
    conv: u64,
    now: u64,
    post: AppState,
    acts: Seq<Action>,
)
    requires
        step(pre, Msg::Conv(ConvMsg::DraftChanged(text)), now, post, acts),
        pre.chats.selected_conversation == Some(conv),
    ensures
        post.chats.draft == text,
        pre.links.ws_ready && now >= pre.chats.last_typing_sent + 2000 ==> acts
            == seq![Action::SendTyping { conversation_id: conv }] && post.chats.last_typing_sent == now,
        !pre.links.ws_ready || now < pre.chats.last_typing_sent + 2000 ==> acts.len() == 0
            && post.chats.last_typing_sent == pre.chats.last_typing_sent,
{
}

/// Who types is known for three seconds, and forgotten after that.
pub proof fn typing_is_forgotten(
    pre: AppState,
    conversation_id: u64,
    from_user_id: u64,
    from_username: String,
    t: u64,
    mid: AppState,
    a: Seq<Action>,
    now: u64,
    post: AppState,
    b: Seq<Action>,
    other: u64,
)
    requires
        step(
            pre,
            from_socket(WsHubEvent::Typing { conversation_id, from_user_id, from_username }),
            t,
            mid,
            a,
        ),
        step(mid, Msg::Conv(ConvMsg::TypingExpired), now, post, b),
        t <= now,
        other != conversation_id,
    ensures
        mid.chats.typing@.contains_key(conversation_id),
        mid.chats.typing@[conversation_id] == (from_username, t),
        mid.chats.typing@.contains_key(other) == pre.chats.typing@.contains_key(other),
        post.chats.typing@.contains_key(conversation_id) <==> now < t + 3000,
        a.len() == 0 && b.len() == 0,
{
}

/// Who is online is what the server said last of that user; of the others it stays.
pub proof fn presence_is_what_was_said_last(
    pre: AppState,
    user_id: u64,
    online: bool,
    now: u64,
    post: AppState,
    acts: Seq<Action>,
    other: u64,
)
    requires
        step(pre, from_socket(WsHubEvent::Presence { user_id, online }), now, post, acts),
        other != user_id,
    ensures
        post.chats.presence@.contains_key(user_id),
        post.chats.presence@[user_id] == online,
        post.chats.presence@.contains_key(other) == pre.chats.presence@.contains_key(other),
        post.chats.presence@.contains_key(other) ==> post.chats.presence@[other]
            == pre.chats.presence@[other],
{
}

/// A signal for a voice channel goes to the voice manager, and any other to the transfer manager.
pub proof fn signals_find_their_manager(
    pre: AppState,
    signal: crate::p2p::SignalEvent,
    now: u64,
    post: AppState,
    acts: Seq<Action>,
)
    requires
        step(pre, from_socket(WsHubEvent::Signal { signal }), now, post, acts),
    ensures
        post == pre,
        signal.file_id@.len() >= 6 && signal.file_id@.take(6) == "voice-"@ && pre.links.voice_ready
            ==> acts == seq![Action::Voice(VoiceCommand::Signal(signal))],
        !(signal.file_id@.len() >= 6 && signal.file_id@.take(6) == "voice-"@) && pre.files.p2p_ready
            ==> acts == seq![Action::P2p(P2pCommand::Signal(signal))],
{
    reveal_strlit("voice-");
    if signal.file_id@.len() >= 6 {
        assert(signal.file_id@.take(6) =~= signal.file_id@.subrange(0, 6));
    }
}

proof fn lemma_other_conversations(cs: Seq<Conversation>, id: u64)
    ensures
        forall|k: int|
            0 <= k < cs.len() && (#[trigger] cs[k]).id != id ==> other_conversations(cs, id).contains(
                cs[k],
            ),
        forall|i: int|
            0 <= i < other_conversations(cs, id).len() ==> (#[trigger] other_conversations(cs, id)[i]).id
                != id && cs.contains(other_conversations(cs, id)[i]),
    decreases cs.len(),
{
    if cs.len() > 0 {
        let init = cs.drop_last();
        lemma_other_conversations(init, id);
        let rest = other_conversations(init, id);
        let all = other_conversations(cs, id);
        assert forall|k: int| 0 <= k < cs.len() && (#[trigger] cs[k]).id != id implies all.contains(
            cs[k],
        ) by {
            if k < init.len() {
                assert(init[k] == cs[k]);
                let i = choose|i: int| 0 <= i < rest.len() && rest[i] == cs[k];
                assert(all[i] == cs[k]);
            } else {
                assert(all[all.len() - 1] == cs[k]);
            }
        }
        assert forall|i: int| 0 <= i < all.len() implies (#[trigger] all[i]).id != id && cs.contains(
            all[i],
        ) by {
            if i < rest.len() {
                assert(all[i] == rest[i]);
                let k = choose|k: int| 0 <= k < init.len() && init[k] == rest[i];
                assert(cs[k] == all[i]);
            } else {
                assert(cs[cs.len() - 1] == all[i]);
            }
        }
    }
}

/// A conversation is deleted where the user asked for it. Once that is done the open one is gone from
/// the list with its messages, every other one stays, and the list is loaded again.
pub proof fn conversations_are_deleted(
    pre: AppState,
    id: u64,
    now: u64,
    mid: AppState,
    asked: Seq<Action>,
    post: AppState,
    acts: Seq<Action>,
)
    requires
        step(pre, Msg::Conv(ConvMsg::DeleteConversation(id)), now, mid, asked),
        mid.chats.selected_conversation == Some(id),
        step(mid, Msg::Conv(ConvMsg::DeleteConversationResult(Ok(()))), now, post, acts),
    ensures
        asked == seq![Action::Call(Api::DeleteConversation { conversation_id: id })],
        mid.chats == pre.chats,
        post.chats.selected_conversation is None,
        post.chats.messages@.len() == 0,
        forall|i: int|
            0 <= i < post.chats.conversations@.len() ==> (#[trigger] post.chats.conversations@[i]).id
                != id,
        forall|k: int|
            0 <= k < pre.chats.conversations@.len() && (#[trigger] pre.chats.conversations@[k]).id != id
                ==> post.chats.conversations@.contains(pre.chats.conversations@[k]),
        acts == seq![Action::Call(Api::LoadConversations)],
{
    lemma_other_conversations(mid.chats.conversations@, id);
}

/// The conversations that were loaded are those that are listed, and the servers are asked for next.
pub proof fn loaded_conversations_are_listed(
    pre: AppState,
    convs: Vec<Conversation>,
    now: u64,
    post: AppState,
    acts: Seq<Action>,
)
    requires
        step(pre, Msg::Conv(ConvMsg::ConversationsLoaded(Ok(convs))), now, post, acts),
    ensures
        post.chats.conversations == convs,
        acts.len() > 0,
        acts.last() == Action::Call(Api::LoadGuilds),
        post.chats.messages == pre.chats.messages,
        post.chats.selected_conversation == pre.chats.selected_conversation,
{
}

/// The menu of a message opens on one's own messages only, at the place of the click.
pub proof fn menus_open_on_own_messages(
    pre: AppState,
    msg_id: u64,
    sender_id: u64,
    at: crate::chat::types::Spot,
    now: u64,
    post: AppState,
    acts: Seq<Action>,
)
    requires
        step(pre, Msg::Conv(ConvMsg::ContextMenu { msg_id, sender_id, at }), now, post, acts),
    ensures
        pre.session.user is Some && pre.session.user->0.id == sender_id
            ==> post.menus.context_menu_msg == Some(msg_id) && post.menus.context_menu_pos == Some(at),
        !(pre.session.user is Some && pre.session.user->0.id == sender_id) ==> post.menus == pre.menus,
        acts.len() == 0,
{
}

/// A conversation by handle is asked for with the text in the line, without the blanks around it.
pub proof fn conversations_by_handle_are_asked_for(
    pre: AppState,
    now: u64,
    post: AppState,
    acts: Seq<Action>,
)
    requires
        step(pre, Msg::Conv(ConvMsg::CreateConversation), now, post, acts),
    ensures
        post == pre,
        trim(pre.session.info@).len() == 0 ==> acts.len() == 0,
        trim(pre.session.info@).len() > 0 ==> acts.len() == 1 && (acts[0] matches Action::Call(
            Api::CreateByHandle { handle },
        ) && handle@ == trim(pre.session.info@)),
{
}

/// A changed message shows what it said at first, until that is closed.
pub proof fn originals_are_shown(
    pre: AppState,
    body: String,
    now: u64,
    mid: AppState,
    shown: Seq<Action>,
    post: AppState,
    closed: Seq<Action>,
)
    requires
        step(pre, Msg::Conv(ConvMsg::ShowOriginal(body)), now, mid, shown),
        step(mid, Msg::Conv(ConvMsg::CloseOriginal), now, post, closed),
    ensures
        mid.chats.original_body_text == Some(body),
        post.chats.original_body_text is None,
        shown.len() == 0 && closed.len() == 0,
        post.chats.messages == pre.chats.messages && post.session == pre.session,
{
}

/// Who scrolled away can come back to the end.
pub proof fn the_end_is_found_again(
    pre: AppState,
    away: bool,
    now: u64,
    mid: AppState,
    scrolled: Seq<Action>,
    post: AppState,
    jumped: Seq<Action>,
)
    requires
        step(pre, Msg::Conv(ConvMsg::Scrolled(away)), now, mid, scrolled),
        step(mid, Msg::Conv(ConvMsg::JumpToBottom), now, post, jumped),
    ensures
        mid.chats.scrolled_away == away,
        !post.chats.scrolled_away,
        jumped == seq![Action::ScrollToBottom],
        scrolled.len() == 0,
{
}

/// The menu of a conversation opens on that one and closes again; a click elsewhere closes the menu of
/// a message. Nothing else happens by that.
pub proof fn menus_open_and_close(
    pre: AppState,
    msg: ConvMsg,
    now: u64,
    post: AppState,
    acts: Seq<Action>,
)
    requires
        step(pre, Msg::Conv(msg), now, post, acts),
    ensures
        msg matches ConvMsg::ConvContextMenu { conv_id, at } ==> post.menus.conv_menu_conv == Some(conv_id)
            && post.menus.conv_menu_pos == Some(at) && acts.len() == 0 && post.chats == pre.chats,
        msg is CloseConvContextMenu ==> post.menus.conv_menu_conv is None && acts.len() == 0
            && post.chats == pre.chats,
        msg is CloseContextMenu ==> post.menus.context_menu_msg is None && acts.len() == 0 && post.chats
            == pre.chats,
        msg is ClickedOutside ==> post.menus.context_menu_msg is None && acts.len() == 0 && post.chats
            == pre.chats,
        msg is RefreshConversations ==> post == pre && acts == seq![Action::Call(Api::LoadConversations)],
{
}

/// A tick of the clock by itself changes nothing.
pub proof fn ticks_change_nothing(pre: AppState, now: u64, post: AppState, acts: Seq<Action>)
    requires
        step(pre, Msg::Tick, now, post, acts),
    ensures
        post == pre,
        acts.len() == 0,
{
}

/// What was started is remembered to be there: the transfers, the calls and the socket.
pub proof fn started_parts_are_remembered(
    pre: AppState,
    msg: Msg,
    now: u64,
    post: AppState,
    acts: Seq<Action>,
)
    requires
        step(pre, msg, now, post, acts),
    ensures
        msg == Msg::File(FileMsg::P2pReady) ==> post.files.p2p_ready && post.chats == pre.chats,
        msg == Msg::Voice(VoiceMsg::VoiceReady) ==> post.links.voice_ready && acts.len() == 0,
        msg == Msg::Ws(WsMsg::WsSenderReady) ==> post.links.ws_ready && acts.len() == 0,
        msg matches Msg::File(FileMsg::Unreadable { file_id, sender_id }) ==> (pre.files.p2p_ready
            ==> acts == seq![Action::P2p(P2pCommand::RetryFetch { file_id, sender_id })]) && (
        !pre.files.p2p_ready ==> acts.len() == 0) && post == pre,
{
}

} // verus!
