//! Conversations and the messages in them.

use vstd::prelude::*;

use crate::assoc::Assoc;
use crate::chat::action::{no_actions, one_action, Action, Api, P2pCommand};
use crate::chat::avatars::avatars_step;
use crate::chat::files::{send_step, thumb_actions};
use crate::chat::lists::{
    add_msg, find_msg, has_msg, msg_index, remove_msg, replace_msg, replaced, with_msg, without_msg,
};
use crate::chat::msg::{ConvMsg, FileMsg, Msg};
use crate::chat::state::{api_error_step, same_id, self_id, AppState, Chats, Menus};
use crate::chat::types::{ApiMsg, Conversation, DownloadedFile, LinkPreview};
use crate::ids::ids_of;
use crate::links::{extract_urls, links_of};
use crate::text::{texts, trim, trim_text};

verus! {

// ---------------------------------------------------------------------------
// Files and links of messages
// ---------------------------------------------------------------------------

/// The transfers to ask for: of every file that another user sent and that is not there yet.
pub open spec fn fetch_actions(
    msgs: Seq<ApiMsg>,
    me: Option<u64>,
    held: Map<Seq<char>, DownloadedFile>,
) -> Seq<Action>
    decreases msgs.len(),
{
    if msgs.len() == 0 {
        Seq::empty()
    } else {
        let rest = fetch_actions(msgs.drop_last(), me, held);
        let m = msgs.last();
        match m.file_id {
            Some(f) => if me != Some(m.sender_id) && !held.contains_key(f@) {
                rest.push(
                    Action::P2p(P2pCommand::Fetch { file_id: f, sender_id: m.sender_id }),
                )
            } else {
                rest
            },
            None => rest,
        }
    }
}

/// The transfers that the state asks for, once there is a transfer manager.
pub open spec fn auto_fetches(s: AppState) -> Seq<Action> {
    if s.files.p2p_ready {
        fetch_actions(s.chats.messages@, self_id(s.session.user), s.files.downloaded@)
    } else {
        Seq::empty()
    }
}

/// The links of a list that have no preview yet.
pub open spec fn new_links(
    urls: Seq<Seq<char>>,
    known: Map<Seq<char>, LinkPreview>,
) -> Seq<Seq<char>>
    decreases urls.len(),
{
    if urls.len() == 0 {
        Seq::empty()
    } else {
        let rest = new_links(urls.drop_last(), known);
        if known.contains_key(urls.last()) {
            rest
        } else {
            rest.push(urls.last())
        }
    }
}

/// The links of some messages that have no preview yet.
pub open spec fn links_to_preview(
    msgs: Seq<ApiMsg>,
    known: Map<Seq<char>, LinkPreview>,
) -> Seq<Seq<char>>
    decreases msgs.len(),
{
    if msgs.len() == 0 {
        Seq::empty()
    } else {
        links_to_preview(msgs.drop_last(), known) + new_links(
            links_of(msgs.last().body@),
            known,
        )
    }
}

/// The actions are one request for a preview per link, in order.
pub open spec fn preview_requests(acts: Seq<Action>, urls: Seq<Seq<char>>) -> bool {
    &&& acts.len() == urls.len()
    &&& forall|i: int|
        0 <= i < acts.len() ==> ((#[trigger] acts[i]) matches Action::Done(
            Msg::File(FileMsg::FetchLinkPreview(u)),
        ) && u@ == urls[i])
}

/// A request to mark a conversation as read up to its last message.
pub open spec fn read_actions(conversation_id: u64, msgs: Seq<ApiMsg>) -> Seq<Action> {
    if msgs.len() == 0 {
        Seq::empty()
    } else {
        seq![Action::Call(Api::MarkRead { conversation_id, message_id: msgs.last().id })]
    }
}

fn push_new_links(
    acts: &mut Vec<Action>,
    urls: Vec<String>,
    known: &Assoc<String, LinkPreview>,
)
    ensures
        final(acts)@.len() >= old(acts)@.len(),
        final(acts)@.take(old(acts)@.len() as int) == old(acts)@,
        preview_requests(
            final(acts)@.skip(old(acts)@.len() as int),
            new_links(texts(urls@), known@),
        ),
{
    let ghost before = acts@;
    let ghost all = texts(urls@);
    let ghost list = urls@;
    let ghost n = before.len() as int;
    proof {
        assert(acts@.take(n) =~= before);
    }
    for u in it: urls
        invariant
            it.seq() == list,
            all == texts(list),
            n == before.len(),
            acts@.len() >= n,
            acts@.take(n) == before,
            preview_requests(acts@.skip(n), new_links(all.take(it.index() as int), known@)),
    {
        let ghost i = it.index() as int;
        proof {
            assert(all.take(i + 1).drop_last() =~= all.take(i));
            assert(all.take(i + 1).last() == u@);
        }
        if !known.contains(&u) {
            let ghost sofar = acts@;
            let a = Action::Done(Msg::File(FileMsg::FetchLinkPreview(u)));
            acts.push(a);
            proof {
                assert(acts@.take(n) =~= before);
                assert(acts@.skip(n) =~= sofar.skip(n).push(a));
            }
        }
    }
    proof {
        assert(all.take(all.len() as int) =~= all);
    }
}

impl AppState {
    /// The transfers to ask for.
    pub fn auto_fetch_files(&self) -> (acts: Vec<Action>)
        ensures
            acts@ == auto_fetches(*self),
    {
        let mut acts = no_actions();
        if !self.files.p2p_ready {
            return acts;
        }
        let me = self.user_id();
        let msgs = &self.chats.messages;
        let mut i: usize = 0;
        while i < msgs.len()
            invariant
                msgs == self.chats.messages,
                i <= msgs.len(),
                me == self_id(self.session.user),
                acts@ == fetch_actions(msgs@.take(i as int), me, self.files.downloaded@),
            decreases msgs.len() - i,
        {
            proof {
                assert(msgs@.take(i + 1).drop_last() =~= msgs@.take(i as int));
            }
            let m = &msgs[i];
            match &m.file_id {
                Some(f) => {
                    if !same_id(me, m.sender_id) && !self.files.downloaded.contains(f) {
                        acts.push(
                            Action::P2p(
                                P2pCommand::Fetch { file_id: f.clone(), sender_id: m.sender_id },
                            ),
                        );
                    }
                },
                None => {},
            }
            i += 1;
        }
        proof {
            assert(msgs@.take(i as int) =~= msgs@);
        }
        acts
    }

    /// The requests for previews of the links in `msgs`.
    fn preview_links(&self, msgs: &Vec<ApiMsg>) -> (acts: Vec<Action>)
        ensures
            preview_requests(acts@, links_to_preview(msgs@, self.files.link_previews@)),
    {
        let mut acts = no_actions();
        let mut i: usize = 0;
        let ghost known = self.files.link_previews@;
        while i < msgs.len()
            invariant
                i <= msgs.len(),
                known == self.files.link_previews@,
                preview_requests(acts@, links_to_preview(msgs@.take(i as int), known)),
            decreases msgs.len() - i,
        {
            proof {
                assert(msgs@.take(i + 1).drop_last() =~= msgs@.take(i as int));
            }
            let ghost sofar = acts@;
            let ghost done = links_to_preview(msgs@.take(i as int), known);
            let ghost more = new_links(links_of(msgs@[i as int].body@), known);
            let urls = extract_urls(msgs[i].body.as_str());
            push_new_links(&mut acts, urls, &self.files.link_previews);
            proof {
                assert(acts@ =~= sofar + acts@.skip(sofar.len() as int));
                assert forall|k: int| 0 <= k < acts@.len() implies ((#[trigger] acts@[k]) matches
                    Action::Done(Msg::File(FileMsg::FetchLinkPreview(u))) && u@ == (done
                    + more)[k]) by {
                    if k < sofar.len() {
                        assert(acts@[k] == sofar[k]);
                    } else {
                        assert(acts@[k] == acts@.skip(sofar.len() as int)[k - sofar.len()]);
                    }
                }
            }
            i += 1;
        }
        proof {
            assert(msgs@.take(i as int) =~= msgs@);
        }
        acts
    }
}

// ---------------------------------------------------------------------------
// Steps
// ---------------------------------------------------------------------------

/// All context menus closed.
pub open spec fn no_menus() -> Menus {
    Menus {
        context_menu_msg: None,
        context_menu_pos: None,
        conv_menu_conv: None,
        conv_menu_pos: None,
    }
}

pub open spec fn select_step(pre: AppState, id: u64, post: AppState, acts: Seq<Action>) -> bool {
    &&& post == (AppState {
        chats: Chats {
            selected_conversation: Some(id),
            unread: post.chats.unread,
            messages: post.chats.messages,
            draft: post.chats.draft,
            editing_message_id: None,
            loading_messages: true,
            ..pre.chats
        },
        menus: no_menus(),
        ..pre
    })
    &&& post.chats.unread@ == pre.chats.unread@.remove(id)
    &&& post.chats.messages@.len() == 0
    &&& post.chats.draft@.len() == 0
    &&& acts == seq![Action::Call(Api::LoadMessages { conversation_id: id })]
}

/// The conversations are there: pictures of their members are loaded, and the guilds are asked
/// for again.
pub open spec fn conversations_step(
    pre: AppState,
    convs: Vec<Conversation>,
    post: AppState,
    acts: Seq<Action>,
) -> bool {
    let mid = AppState { chats: Chats { conversations: convs, ..pre.chats }, ..pre };
    &&& acts.len() > 0
    &&& acts.last() == Action::Call(Api::LoadGuilds)
    &&& avatars_step(mid, post, acts.drop_last())
}

/// The messages of the open conversation are there: small pictures, transfers and previews are
/// asked for, and the conversation is marked as read.
pub open spec fn messages_step(
    pre: AppState,
    conversation_id: u64,
    msgs: Vec<ApiMsg>,
    post: AppState,
    acts: Seq<Action>,
) -> bool {
    let files = thumb_actions(msgs@, pre.files.thumbs@) + auto_fetches(post);
    let links = links_to_preview(msgs@, pre.files.link_previews@);
    let a = files.len() as int;
    let b = a + links.len();
    &&& post == (AppState {
        chats: Chats { loading_messages: false, messages: msgs, ..pre.chats },
        ..pre
    })
    &&& acts.len() >= b
    &&& acts.take(a) == files
    &&& preview_requests(acts.subrange(a, b), links)
    &&& acts.skip(b) == read_actions(conversation_id, msgs@)
}

/// Typing is announced at most every two seconds, and only where it can be.
pub open spec fn announces(s: AppState, now: u64) -> bool {
    &&& now >= s.chats.last_typing_sent
    &&& now - s.chats.last_typing_sent >= 2000
    &&& s.chats.selected_conversation is Some
    &&& s.links.ws_ready
}

pub open spec fn draft_step(
    pre: AppState,
    text: String,
    now: u64,
    post: AppState,
    acts: Seq<Action>,
) -> bool {
    if announces(pre, now) {
        post == (AppState {
            chats: Chats { draft: text, last_typing_sent: now, ..pre.chats },
            ..pre
        }) && acts == seq![
            Action::SendTyping { conversation_id: pre.chats.selected_conversation->0 },
        ]
    } else {
        post == (AppState { chats: Chats { draft: text, ..pre.chats }, ..pre }) && acts.len() == 0
    }
}

/// A message that was sent or received shows up in the open conversation once.
pub open spec fn arrived(pre: AppState, m: ApiMsg, post: AppState) -> bool {
    &&& post == (AppState { chats: Chats { messages: post.chats.messages, ..pre.chats }, ..pre })
    &&& post.chats.messages@ == with_msg(pre.chats.messages@, m)
}

/// Editing starts with the text of the message, where it is in the list.
pub open spec fn start_edit_step(pre: AppState, id: u64, post: AppState) -> bool {
    let i = msg_index(pre.chats.messages@, id);
    let menus = Menus { context_menu_msg: None, context_menu_pos: None, ..pre.menus };
    if has_msg(pre.chats.messages@, id) {
        post == (AppState {
            chats: Chats {
                editing_message_id: Some(id),
                draft: pre.chats.messages@[i].body,
                ..pre.chats
            },
            menus,
            ..pre
        })
    } else {
        post == (AppState { menus, ..pre })
    }
}

pub open spec fn confirm_edit_step(pre: AppState, post: AppState, acts: Seq<Action>) -> bool {
    match (pre.chats.editing_message_id, pre.chats.selected_conversation) {
        (Some(id), Some(conv)) => {
            &&& post == (AppState {
                chats: Chats { editing_message_id: None, draft: post.chats.draft, ..pre.chats },
                ..pre
            })
            &&& post.chats.draft@.len() == 0
            &&& acts.len() == 1
            &&& acts[0] matches Action::Call(
                Api::EditMessage { conversation_id, message_id, body },
            )
            &&& conversation_id == conv
            &&& message_id == id
            &&& body@ == trim(pre.chats.draft@)
        },
        _ => post == pre && acts.len() == 0,
    }
}

/// The conversations other than the one with `id`.
pub open spec fn other_conversations(cs: Seq<Conversation>, id: u64) -> Seq<Conversation>
    decreases cs.len(),
{
    if cs.len() == 0 {
        Seq::empty()
    } else if cs.last().id == id {
        other_conversations(cs.drop_last(), id)
    } else {
        other_conversations(cs.drop_last(), id).push(cs.last())
    }
}

/// The open conversation was deleted; without one it is conversation 0 that leaves the list.
pub open spec fn conversation_deleted_step(pre: AppState, post: AppState, acts: Seq<Action>) -> bool {
    let gone = match pre.chats.selected_conversation {
        Some(id) => id,
        None => 0,
    };
    &&& post == (AppState {
        chats: Chats {
            conversations: post.chats.conversations,
            selected_conversation: None,
            messages: post.chats.messages,
            ..pre.chats
        },
        menus: Menus { conv_menu_conv: None, ..pre.menus },
        ..pre
    })
    &&& post.chats.conversations@ == other_conversations(pre.chats.conversations@, gone)
    &&& post.chats.messages@.len() == 0
    &&& acts == seq![Action::Call(Api::LoadConversations)]
}

/// Whether someone who typed at `at` still counts as typing.
pub open spec fn still_typing(at: u64, now: u64) -> bool {
    now < at || now - at < 3000
}

pub open spec fn typing_step(pre: AppState, now: u64, post: AppState) -> bool {
    &&& post == (AppState { chats: Chats { typing: post.chats.typing, ..pre.chats }, ..pre })
    &&& forall|c: u64| #[trigger]
        post.chats.typing@.contains_key(c) <==> pre.chats.typing@.contains_key(c) && still_typing(
            pre.chats.typing@[c].1,
            now,
        )
    &&& forall|c: u64| #[trigger]
        post.chats.typing@.contains_key(c) ==> post.chats.typing@[c] == pre.chats.typing@[c]
}

pub open spec fn conv_step(
    pre: AppState,
    msg: ConvMsg,
    now: u64,
    post: AppState,
    acts: Seq<Action>,
) -> bool {
    match msg {
        ConvMsg::SelectConversation(id) => select_step(pre, id, post, acts),
        ConvMsg::ConversationsLoaded(Ok(convs)) => conversations_step(pre, convs, post, acts),
        ConvMsg::ConversationsLoaded(Err(e)) => api_error_step(pre, e, post, acts),
        ConvMsg::MessagesLoaded { conversation_id, messages } => {
            let mid = AppState { chats: Chats { loading_messages: false, ..pre.chats }, ..pre };
            if pre.chats.selected_conversation != Some(conversation_id) {
                post == mid && acts.len() == 0
            } else {
                match messages {
                    Ok(msgs) => messages_step(pre, conversation_id, msgs, post, acts),
                    Err(e) => api_error_step(mid, e, post, acts),
                }
            }
        },
        ConvMsg::DraftChanged(text) => draft_step(pre, text, now, post, acts),
        ConvMsg::SendMessage => send_step(pre, post, acts),
        ConvMsg::MessageSent(Ok(m)) => {
            let mid = AppState { chats: Chats { busy: false, ..pre.chats }, ..pre };
            if pre.chats.selected_conversation == Some(m.conversation_id) {
                arrived(mid, m, post) && acts == thumb_actions(
                    post.chats.messages@,
                    pre.files.thumbs@,
                )
            } else {
                post == mid && acts.len() == 0
            }
        },
        ConvMsg::MessageSent(Err(e)) => api_error_step(
            AppState { chats: Chats { busy: false, ..pre.chats }, ..pre },
            e,
            post,
            acts,
        ),
        ConvMsg::StartEdit(id) => start_edit_step(pre, id, post) && acts.len() == 0,
        ConvMsg::CancelEdit => {
            &&& post == (AppState {
                chats: Chats { editing_message_id: None, draft: post.chats.draft, ..pre.chats },
                menus: Menus { context_menu_msg: None, context_menu_pos: None, ..pre.menus },
                ..pre
            })
            &&& post.chats.draft@.len() == 0
            &&& acts.len() == 0
        },
        ConvMsg::ConfirmEdit => confirm_edit_step(pre, post, acts),
        ConvMsg::EditResult(Ok(m)) => {
            &&& post == (AppState {
                chats: Chats { messages: post.chats.messages, ..pre.chats },
                ..pre
            })
            &&& post.chats.messages@ == replaced(pre.chats.messages@, m)
            &&& acts.len() == 0
        },
        ConvMsg::EditResult(Err(e)) => api_error_step(pre, e, post, acts),
        ConvMsg::DeleteMessage(id) => {
            &&& post == (AppState {
                menus: Menus { context_menu_msg: None, context_menu_pos: None, ..pre.menus },
                ..pre
            })
            &&& acts == match pre.chats.selected_conversation {
                Some(c) => seq![
                    Action::Call(Api::DeleteMessage { conversation_id: c, message_id: id }),
                ],
                None => Seq::empty(),
            }
        },
        ConvMsg::DeleteResult(id) => {
            &&& post == (AppState {
                chats: Chats { messages: post.chats.messages, ..pre.chats },
                ..pre
            })
            &&& post.chats.messages@ == without_msg(pre.chats.messages@, id)
            &&& acts.len() == 0
        },
        ConvMsg::ShowOriginal(body) => post == (AppState {
            chats: Chats { original_body_text: Some(body), ..pre.chats },
            ..pre
        }) && acts.len() == 0,
        ConvMsg::CloseOriginal => post == (AppState {
            chats: Chats { original_body_text: None, ..pre.chats },
            ..pre
        }) && acts.len() == 0,
        ConvMsg::RefreshConversations => post == pre && acts == seq![
            Action::Call(Api::LoadConversations),
        ],
        ConvMsg::CreateConversation => {
            &&& post == pre
            &&& if trim(pre.session.info@).len() == 0 {
                acts.len() == 0
            } else {
                &&& acts.len() == 1
                &&& acts[0] matches Action::Call(Api::CreateByHandle { handle })
                &&& handle@ == trim(pre.session.info@)
            }
        },
        ConvMsg::DeleteConversation(id) => post == (AppState {
            menus: Menus { conv_menu_conv: None, ..pre.menus },
            ..pre
        }) && acts == seq![Action::Call(Api::DeleteConversation { conversation_id: id })],
        ConvMsg::DeleteConversationResult(Ok(())) => conversation_deleted_step(pre, post, acts),
        ConvMsg::DeleteConversationResult(Err(e)) => api_error_step(
            AppState { menus: Menus { conv_menu_conv: None, ..pre.menus }, ..pre },
            e,
            post,
            acts,
        ),
        ConvMsg::Scrolled(away) => post == (AppState {
            chats: Chats { scrolled_away: away, ..pre.chats },
            ..pre
        }) && acts.len() == 0,
        ConvMsg::JumpToBottom => post == (AppState {
            chats: Chats { scrolled_away: false, ..pre.chats },
            ..pre
        }) && acts == seq![Action::ScrollToBottom],
        ConvMsg::ContextMenu { msg_id, sender_id, at } => {
            &&& acts.len() == 0
            &&& if self_id(pre.session.user) == Some(sender_id) {
                post == (AppState {
                    menus: Menus {
                        context_menu_msg: Some(msg_id),
                        context_menu_pos: Some(at),
                        ..pre.menus
                    },
                    ..pre
                })
            } else {
                post == pre
            }
        },
        ConvMsg::CloseContextMenu => post == (AppState {
            menus: Menus { context_menu_msg: None, ..pre.menus },
            ..pre
        }) && acts.len() == 0,
        ConvMsg::ConvContextMenu { conv_id, at } => post == (AppState {
            menus: Menus {
                conv_menu_conv: Some(conv_id),
                conv_menu_pos: Some(at),
                ..pre.menus
            },
            ..pre
        }) && acts.len() == 0,
        ConvMsg::CloseConvContextMenu => post == (AppState {
            menus: Menus { conv_menu_conv: None, ..pre.menus },
            ..pre
        }) && acts.len() == 0,
        ConvMsg::ClickedOutside => post == (AppState {
            menus: Menus { context_menu_msg: None, context_menu_pos: None, ..pre.menus },
            ..pre
        }) && acts.len() == 0,
        ConvMsg::TypingExpired => typing_step(pre, now, post) && acts.len() == 0,
    }
}

fn drop_conversation(cs: Vec<Conversation>, id: u64) -> (r: Vec<Conversation>)
    ensures
        r@ == other_conversations(cs@, id),
{
    let ghost before = cs@;
    let mut rest: Vec<Conversation> = Vec::new();
    proof {
        assert(before.take(0) =~= Seq::empty());
    }
    for c in it: cs
        invariant
            it.seq() == before,
            rest@ == other_conversations(before.take(it.index() as int), id),
    {
        proof {
            let i = it.index() as int;
            assert(before.take(i + 1).drop_last() =~= before.take(i));
            assert(before.take(i + 1).last() == before[i]);
        }
        if c.id != id {
            rest.push(c);
        }
    }
    proof {
        assert(before.take(before.len() as int) =~= before);
    }
    rest
}

impl AppState {
    fn close_menus(&mut self)
        ensures
            *final(self) == (AppState { menus: no_menus(), ..*old(self) }),
    {
        self.menus.context_menu_msg = None;
        self.menus.context_menu_pos = None;
        self.menus.conv_menu_conv = None;
        self.menus.conv_menu_pos = None;
    }

    fn select_conversation(&mut self, id: u64) -> (acts: Vec<Action>)
        ensures
            select_step(*old(self), id, *final(self), acts@),
    {
        self.chats.selected_conversation = Some(id);
        self.chats.unread.remove(&id);
        self.chats.messages = Vec::new();
        self.chats.draft = String::new();
        self.chats.editing_message_id = None;
        self.close_menus();
        self.chats.loading_messages = true;
        one_action(Action::Call(Api::LoadMessages { conversation_id: id }))
    }

    fn conversations_loaded(&mut self, convs: Vec<Conversation>) -> (acts: Vec<Action>)
        ensures
            conversations_step(*old(self), convs, *final(self), acts@),
    {
        self.chats.conversations = convs;
        let mut acts = self.ensure_avatars();
        let ghost pictures = acts@;
        acts.push(Action::Call(Api::LoadGuilds));
        proof {
            assert(acts@.drop_last() =~= pictures);
        }
        acts
    }

    fn messages_loaded(&mut self, conversation_id: u64, msgs: Vec<ApiMsg>) -> (acts: Vec<Action>)
        ensures
            messages_step(*old(self), conversation_id, msgs, *final(self), acts@),
    {
        self.chats.loading_messages = false;
        let mut previews = self.preview_links(&msgs);
        let ghost links = previews@;
        self.chats.messages = msgs;
        let mut acts = self.build_thumb_handles();
        let mut fetches = self.auto_fetch_files();
        acts.append(&mut fetches);
        let ghost files = acts@;
        acts.append(&mut previews);
        let n: usize = self.chats.messages.len();
        if n > 0 {
            let message_id = self.chats.messages[n - 1].id;
            acts.push(Action::Call(Api::MarkRead { conversation_id, message_id }));
        }
        proof {
            let a = files.len() as int;
            let b = a + links.len();
            assert(acts@.take(a) =~= files);
            assert(acts@.subrange(a, b) =~= links);
            assert(acts@.skip(b) =~= read_actions(conversation_id, msgs@));
        }
        acts
    }

    fn draft_changed(&mut self, text: String, now: u64) -> (acts: Vec<Action>)
        ensures
            draft_step(*old(self), text, now, *final(self), acts@),
    {
        self.chats.draft = text;
        if now >= self.chats.last_typing_sent && now - self.chats.last_typing_sent >= 2000
            && self.links.ws_ready {
            if let Some(conversation_id) = self.chats.selected_conversation {
                self.chats.last_typing_sent = now;
                return one_action(Action::SendTyping { conversation_id });
            }
        }
        no_actions()
    }

    fn start_edit(&mut self, id: u64)
        ensures
            start_edit_step(*old(self), id, *final(self)),
    {
        self.menus.context_menu_msg = None;
        self.menus.context_menu_pos = None;
        match find_msg(&self.chats.messages, id) {
            Some(i) => {
                self.chats.editing_message_id = Some(id);
                self.chats.draft = self.chats.messages[i].body.clone();
            },
            None => {},
        }
    }

    fn confirm_edit(&mut self) -> (acts: Vec<Action>)
        ensures
            confirm_edit_step(*old(self), *final(self), acts@),
    {
        match (self.chats.editing_message_id, self.chats.selected_conversation) {
            (Some(message_id), Some(conversation_id)) => {
                let body = trim_text(self.chats.draft.as_str());
                self.chats.editing_message_id = None;
                self.chats.draft = String::new();
                one_action(Action::Call(Api::EditMessage { conversation_id, message_id, body }))
            },
            _ => no_actions(),
        }
    }

    fn conversation_deleted(&mut self) -> (acts: Vec<Action>)
        ensures
            conversation_deleted_step(*old(self), *final(self), acts@),
    {
        let gone: u64 = match self.chats.selected_conversation {
            Some(id) => id,
            None => 0,
        };
        let mut held: Vec<Conversation> = Vec::new();
        std::mem::swap(&mut held, &mut self.chats.conversations);
        self.chats.conversations = drop_conversation(held, gone);
        self.chats.selected_conversation = None;
        self.chats.messages = Vec::new();
        self.menus.conv_menu_conv = None;
        one_action(Action::Call(Api::LoadConversations))
    }

    fn expire_typing(&mut self, now: u64)
        ensures
            typing_step(*old(self), now, *final(self)),
    {
        let keys = ids_of(&self.chats.typing);
        let ghost before = self.chats.typing@;
        let ghost start = *self;
        let mut i: usize = 0;
        while i < keys.len()
            invariant
                i <= keys.len(),
                before == start.chats.typing@,
                *self == (AppState {
                    chats: Chats { typing: self.chats.typing, ..start.chats },
                    ..start
                }),
                forall|c: u64| #[trigger] before.contains_key(c) ==> keys@.contains(c),
                forall|c: u64|
                    (#[trigger] self.chats.typing@.contains_key(c)) <==> before.contains_key(c) && (
                    still_typing(before[c].1, now) || !keys@.take(i as int).contains(c)),
                forall|c: u64| #[trigger]
                    self.chats.typing@.contains_key(c) ==> self.chats.typing@[c] == before[c],
            decreases keys.len() - i,
        {
            let c = keys[i];
            let stale = match self.chats.typing.get(&c) {
                Some(v) => !(now < v.1 || now - v.1 < 3000),
                None => false,
            };
            let ghost held = self.chats.typing@;
            if stale {
                self.chats.typing.remove(&c);
            }
            proof {
                let prev = keys@.take(i as int);
                let next = keys@.take(i + 1);
                assert(next =~= prev.push(c));
                assert forall|d: u64| next.contains(d) <==> prev.contains(d) || d == c by {
                    if prev.contains(d) {
                        let k = choose|k: int| 0 <= k < prev.len() && prev[k] == d;
                        assert(next[k] == d);
                    }
                    if d == c {
                        assert(next[i as int] == d);
                    }
                    if next.contains(d) {
                        let k = choose|k: int| 0 <= k < next.len() && next[k] == d;
                        if k < i {
                            assert(prev[k] == d);
                        }
                    }
                }
            }
            i += 1;
        }
        proof {
            assert(keys@.take(i as int) =~= keys@);
        }
    }

    pub fn update_conv(&mut self, msg: ConvMsg, now: u64) -> (acts: Vec<Action>)
        ensures
            conv_step(*old(self), msg, now, *final(self), acts@),
    {
        match msg {
            ConvMsg::SelectConversation(id) => self.select_conversation(id),
            ConvMsg::ConversationsLoaded(Ok(convs)) => self.conversations_loaded(convs),
            ConvMsg::ConversationsLoaded(Err(e)) => self.handle_api_error(e),
            ConvMsg::MessagesLoaded { conversation_id, messages } => {
                if !same_id(self.chats.selected_conversation, conversation_id) {
                    self.chats.loading_messages = false;
                    return no_actions();
                }
                match messages {
                    Ok(msgs) => self.messages_loaded(conversation_id, msgs),
                    Err(e) => {
                        self.chats.loading_messages = false;
                        self.handle_api_error(e)
                    },
                }
            },
            ConvMsg::DraftChanged(text) => self.draft_changed(text, now),
            ConvMsg::SendMessage => self.do_send(),
            ConvMsg::MessageSent(Ok(m)) => {
                self.chats.busy = false;
                if same_id(self.chats.selected_conversation, m.conversation_id) {
                    add_msg(&mut self.chats.messages, m);
                    self.build_thumb_handles()
                } else {
                    no_actions()
                }
            },
            ConvMsg::MessageSent(Err(e)) => {
                self.chats.busy = false;
                self.handle_api_error(e)
            },
            ConvMsg::StartEdit(id) => {
                self.start_edit(id);
                no_actions()
            },
            ConvMsg::CancelEdit => {
                self.chats.editing_message_id = None;
                self.chats.draft = String::new();
                self.menus.context_menu_msg = None;
                self.menus.context_menu_pos = None;
                no_actions()
            },
            ConvMsg::ConfirmEdit => self.confirm_edit(),
            ConvMsg::EditResult(Ok(m)) => {
                replace_msg(&mut self.chats.messages, m);
                no_actions()
            },
            ConvMsg::EditResult(Err(e)) => self.handle_api_error(e),
            ConvMsg::DeleteMessage(message_id) => {
                self.menus.context_menu_msg = None;
                self.menus.context_menu_pos = None;
                match self.chats.selected_conversation {
                    Some(conversation_id) => one_action(
                        Action::Call(Api::DeleteMessage { conversation_id, message_id }),
                    ),
                    None => no_actions(),
                }
            },
            ConvMsg::DeleteResult(id) => {
                remove_msg(&mut self.chats.messages, id);
                no_actions()
            },
            ConvMsg::ShowOriginal(body) => {
                self.chats.original_body_text = Some(body);
                no_actions()
            },
            ConvMsg::CloseOriginal => {
                self.chats.original_body_text = None;
                no_actions()
            },
            ConvMsg::RefreshConversations => one_action(Action::Call(Api::LoadConversations)),
            ConvMsg::CreateConversation => {
                let handle = trim_text(self.session.info.as_str());
                if handle.as_str().is_empty() {
                    no_actions()
                } else {
                    one_action(Action::Call(Api::CreateByHandle { handle }))
                }
            },
            ConvMsg::DeleteConversation(conversation_id) => {
                self.menus.conv_menu_conv = None;
                one_action(Action::Call(Api::DeleteConversation { conversation_id }))
            },
            ConvMsg::DeleteConversationResult(Ok(())) => self.conversation_deleted(),
            ConvMsg::DeleteConversationResult(Err(e)) => {
                self.menus.conv_menu_conv = None;
                self.handle_api_error(e)
            },
            ConvMsg::Scrolled(away) => {
                self.chats.scrolled_away = away;
                no_actions()
            },
            ConvMsg::JumpToBottom => {
                self.chats.scrolled_away = false;
                one_action(Action::ScrollToBottom)
            },
            ConvMsg::ContextMenu { msg_id, sender_id, at } => {
                if same_id(self.user_id(), sender_id) {
                    self.menus.context_menu_msg = Some(msg_id);
                    self.menus.context_menu_pos = Some(at);
                }
                no_actions()
            },
            ConvMsg::CloseContextMenu => {
                self.menus.context_menu_msg = None;
                no_actions()
            },
            ConvMsg::ConvContextMenu { conv_id, at } => {
                self.menus.conv_menu_conv = Some(conv_id);
                self.menus.conv_menu_pos = Some(at);
                no_actions()
            },
            ConvMsg::CloseConvContextMenu => {
                self.menus.conv_menu_conv = None;
                no_actions()
            },
            ConvMsg::ClickedOutside => {
                self.menus.context_menu_msg = None;
                self.menus.context_menu_pos = None;
                no_actions()
            },
            ConvMsg::TypingExpired => {
                self.expire_typing(now);
                no_actions()
            },
        }
    }
}

} // verus!
