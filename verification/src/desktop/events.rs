//! What happens to the desktop client.

use std::collections::HashMap;

use vstd::prelude::*;

use crate::assoc::Assoc;
use crate::cache::{cache_path_for, joined_path};
use crate::chat::files::{failure_status, is_image_mime, progress_status};
use crate::chat::types::{
    ApiMsg, Attachment, Conversation, Member, OwnFile, Profile, User,
};
use crate::data_url::data_url;
use crate::desktop::lists::{merged_all, merged_conversation, message_merged, message_removed};
use crate::desktop::state::{
    card_shown, header_shown, to_window_id, window_id, Account, Desktop, KeptFile, Preview, Store,
    Talks, Texts, Window,
};
use crate::identity::is_me;
use crate::img::{image_data_url_from_bytes, png_of};
use crate::number::u64_text;
use crate::ordered::{find, holds, others, remove_id, sort, sorted};
use crate::p2p::SignalEvent;
use crate::text::{concat3, copy_text, starts_with, text_contains};

verus! {

/// What happened to the account.
pub enum AccountEvent {
    LoggedIn { token: String, user: User },
    AuthFailed(String),
    Verified(User),
    UserUpdated(User),
    UploadAvatar { server: String, token: String, data_url: String },
    TwoFaRequired { pending_token: String },
    TwoFaSetup { secret: String, qr: String },
    Info(String),
    Error(String),
}

/// What happened in conversations.
pub enum TalkEvent {
    Conversations(Vec<Conversation>),
    ConversationCreated(Conversation),
    ConversationDeleted(u64),
    Messages { conversation_id: u64, messages: Vec<ApiMsg> },
    MessageSent(ApiMsg),
    WsMessage(ApiMsg),
    WsMessageEdited(ApiMsg),
    WsMessageDeleted { conversation_id: u64, message_id: u64 },
    WsStatus(bool),
}

/// What became known of other users.
pub enum PeopleEvent {
    Typing { conversation_id: u64, from_user_id: u64, from_username: String },
    TypingExpired { conversation_id: u64 },
    Presence { user_id: u64, online: bool },
    PresenceBatch(Vec<(u64, bool)>),
    Profile(Profile),
    ContextProfile(Profile),
    ModerationResult(Profile),
    ProfileError,
}

/// What happened to files and links.
pub enum FileEvent {
    P2pSignal(SignalEvent),
    P2pStatus { file_id: String, status: String },
    /// `percent` is the share that was received.
    P2pProgress { file_id: String, received: u64, total: u64, percent: u64 },
    P2pComplete { file_id: String, mime: String, name: String, bytes: Vec<u8> },
    P2pFailed { file_id: String, reason: String },
    AttachmentPicked(Attachment),
    LinkPreview(Preview),
    LinkPreviewFailed(String),
}

/// What happened.
pub enum Event {
    Account(AccountEvent),
    Talk(TalkEvent),
    People(PeopleEvent),
    File(FileEvent),
}

/// What the client asks its surroundings to do.
pub enum Task {
    /// Keep the server for the next start.
    SaveServer,
    /// Keep the session for the next start.
    SaveSession { token: String },
    ClearSession,
    /// Let the socket use another session.
    SetToken(Option<String>),
    /// Show a picture as the user's own.
    ShowOwnAvatar { user_id: u64, url: String },
    /// The user has no picture.
    DropOwnAvatar { user_id: u64 },
    /// Show the conversations anew.
    ShowConversations,
    /// Show the messages anew.
    ShowMessages,
    ScrollToEnd,
    /// Scroll to the end if it was in sight.
    FollowEnd,
    LoadConversations,
    LoadMessages { conversation_id: u64 },
    LoadPresence { ids: Vec<u64> },
    P2pSignal(SignalEvent),
    /// Report in three seconds that the typing is over.
    WatchTyping { conversation_id: u64, seconds: u64 },
    StoreFile { file_id: String, bytes: Vec<u8> },
    SetAvatar { server: String, token: String, data_url: String },
    /// Show the small picture of the picked file, if it has one.
    ShowPicked { thumbnail: Option<String> },
    /// Show the code that an authenticator app scans.
    ShowCode { qr: String },
}

// ---------------------------------------------------------------------------
// Steps
// ---------------------------------------------------------------------------

/// No message is shown.
pub open spec fn quiet(t: Texts) -> bool {
    t.error_message@.len() == 0 && t.info_message@.len() == 0
}

pub open spec fn own_avatar(user: User) -> Seq<Task> {
    match user.avatar_url {
        Some(url) => seq![Task::ShowOwnAvatar { user_id: user.id, url }],
        None => Seq::empty(),
    }
}

pub open spec fn logged_in_step(
    pre: Desktop,
    token: String,
    user: User,
    post: Desktop,
    tasks: Seq<Task>,
) -> bool {
    let kept = if pre.account.remember_me {
        Task::SaveSession { token }
    } else {
        Task::ClearSession
    };
    let load = if user.email_verified && user.totp_enabled {
        seq![Task::LoadConversations]
    } else {
        Seq::empty()
    };
    &&& post.account == (Account { token: Some(token), self_id: Some(user.id), ..pre.account })
    &&& post.window == (Window {
        logged_in: true,
        needs_verify: !user.email_verified,
        email_verified: user.email_verified,
        needs_2fa: false,
        needs_2fa_setup: user.email_verified && !user.totp_enabled,
        totp_enabled: user.totp_enabled,
        profile_open: false,
        context_open: false,
        confirm_delete_open: false,
        ..pre.window
    })
    &&& post.texts == (Texts {
        user_name: user.username,
        display_name_input: user.display_name,
        error_message: post.texts.error_message,
        info_message: post.texts.info_message,
        selected_conversation: (-1) as i32,
        ..pre.texts
    })
    &&& quiet(post.texts)
    &&& post.talks == (Talks {
        conversations: post.talks.conversations,
        messages: post.talks.messages,
        hidden: post.talks.hidden,
        selected: (-1) as i32,
        ..pre.talks
    })
    &&& post.talks.conversations@.len() == 0
    &&& post.talks.messages@.len() == 0
    &&& post.talks.hidden@.len() == 0
    &&& post.store == pre.store
    &&& post.cards == pre.cards
    &&& post.composer == pre.composer
    &&& tasks == seq![Task::SaveServer, kept, Task::SetToken(Some(token))] + own_avatar(user) + seq![
        Task::ShowConversations,
        Task::ShowMessages,
    ] + load
}

pub open spec fn verified_step(pre: Desktop, user: User, post: Desktop, tasks: Seq<Task>) -> bool {
    if user.email_verified {
        &&& post == (Desktop {
            window: Window {
                needs_verify: false,
                email_verified: true,
                needs_2fa_setup: !user.totp_enabled,
                ..pre.window
            },
            texts: Texts {
                error_message: post.texts.error_message,
                info_message: post.texts.info_message,
                user_name: user.username,
                ..pre.texts
            },
            ..pre
        })
        &&& quiet(post.texts)
        &&& tasks == if user.totp_enabled {
            seq![Task::LoadConversations]
        } else {
            Seq::empty()
        }
    } else {
        post == pre && tasks.len() == 0
    }
}

pub open spec fn updated_step(pre: Desktop, user: User, post: Desktop, tasks: Seq<Task>) -> bool {
    let on = user.totp_enabled;
    &&& post == (Desktop {
        window: Window {
            email_verified: user.email_verified,
            totp_enabled: on,
            twofa_setup_open: pre.window.twofa_setup_open && !on,
            twofa_disable_open: pre.window.twofa_disable_open && !on,
            needs_2fa_setup: pre.window.needs_2fa_setup && !on,
            ..pre.window
        },
        texts: Texts {
            display_name_input: user.display_name,
            error_message: post.texts.error_message,
            info_message: post.texts.info_message,
            ..pre.texts
        },
        ..pre
    })
    &&& quiet(post.texts)
    &&& tasks == (match user.avatar_url {
        Some(url) => seq![Task::ShowOwnAvatar { user_id: user.id, url }],
        None => seq![Task::DropOwnAvatar { user_id: user.id }],
    }).push(Task::ShowConversations)
}

/// The ids of all members of a list of conversations other than the user, in order.
pub open spec fn partners(cs: Seq<Conversation>, me: Option<u64>) -> Seq<u64>
    decreases cs.len(),
{
    if cs.len() == 0 {
        Seq::empty()
    } else {
        partners(cs.drop_last(), me) + partners_in(cs.last().members@, me)
    }
}

pub open spec fn partners_in(ms: Seq<Member>, me: Option<u64>) -> Seq<u64>
    decreases ms.len(),
{
    if ms.len() == 0 {
        Seq::empty()
    } else if me == Some(ms.last().id) {
        partners_in(ms.drop_last(), me)
    } else {
        partners_in(ms.drop_last(), me).push(ms.last().id)
    }
}

pub open spec fn conversations_step(
    pre: Desktop,
    list: Seq<Conversation>,
    post: Desktop,
    tasks: Seq<Task>,
) -> bool {
    let ids = partners(post.talks.conversations@, pre.account.self_id);
    &&& post == (Desktop {
        talks: Talks { conversations: post.talks.conversations, ..pre.talks },
        ..pre
    })
    &&& post.talks.conversations@ == merged_all(pre.talks.conversations@, list)
    &&& tasks.len() > 0 && tasks[0] == Task::ShowConversations
    &&& if ids.len() == 0 {
        tasks.len() == 1
    } else {
        &&& tasks.len() == 2
        &&& tasks[1] matches Task::LoadPresence { ids: list }
        &&& list@ == ids
    }
}

pub open spec fn created_step(pre: Desktop, c: Conversation, post: Desktop, tasks: Seq<Task>) -> bool {
    &&& post == (Desktop {
        talks: Talks {
            conversations: post.talks.conversations,
            selected: post.talks.selected,
            messages: post.talks.messages,
            ..pre.talks
        },
        texts: Texts {
            selected_conversation: post.texts.selected_conversation,
            new_conversation_input: post.texts.new_conversation_input,
            error_message: post.texts.error_message,
            ..pre.texts
        },
        ..pre
    })
    &&& post.talks.conversations@ == merged_conversation(pre.talks.conversations@, c)
    &&& post.talks.selected == window_id(c.id)
    &&& post.texts.selected_conversation == window_id(c.id)
    &&& post.texts.new_conversation_input@.len() == 0
    &&& post.texts.error_message@.len() == 0
    &&& post.talks.messages@.len() == 0
    &&& tasks == seq![
        Task::ShowConversations,
        Task::ShowMessages,
        Task::ScrollToEnd,
        Task::LoadMessages { conversation_id: c.id },
    ]
}

pub open spec fn messages_step(
    pre: Desktop,
    conversation_id: u64,
    messages: Seq<ApiMsg>,
    post: Desktop,
    tasks: Seq<Task>,
) -> bool {
    if pre.talks.selected == window_id(conversation_id) {
        &&& post == (Desktop { talks: Talks { messages: post.talks.messages, ..pre.talks }, ..pre })
        &&& post.talks.messages@ == sorted(messages)
        &&& tasks == seq![Task::ShowMessages, Task::ScrollToEnd]
    } else {
        post == pre && tasks.len() == 0
    }
}

/// A message came over the socket: it is merged, and counts as unread where its conversation is not
/// open and somebody else wrote it.
pub open spec fn ws_message_step(pre: Desktop, m: ApiMsg, post: Desktop, tasks: Seq<Task>) -> bool {
    let conv = m.conversation_id;
    let unknown = if holds(pre.talks.conversations@, conv) {
        Seq::empty()
    } else {
        seq![Task::LoadConversations]
    };
    let open = pre.talks.selected == window_id(conv);
    let foreign = pre.account.self_id != Some(m.sender_id);
    exists|mid: Desktop| #[trigger] message_merged(pre, m, mid) && {
        &&& post == (Desktop { talks: Talks { unread: post.talks.unread, ..mid.talks }, ..mid })
        &&& post.talks.unread@ == if open {
            pre.talks.unread@.remove(conv)
        } else if foreign {
            pre.talks.unread@.insert(conv, next_unread(pre.talks.unread@, conv))
        } else {
            pre.talks.unread@
        }
        &&& tasks == unknown + (if !open && foreign {
            seq![Task::ShowConversations]
        } else {
            Seq::empty()
        }) + seq![Task::ShowMessages, Task::FollowEnd]
    }
}

/// One more unread message; the count starts over behind the largest number of 32 bits.
pub open spec fn next_unread(unread: Map<u64, u32>, conv: u64) -> u32 {
    let n = if unread.contains_key(conv) {
        unread[conv] as int
    } else {
        0
    };
    ((n + 1) % 0x1_0000_0000) as u32
}

/// The typing in a conversation is over three seconds after it was last seen.
pub open spec fn typing_expired_step(pre: Desktop, conv: u64, now: u64, post: Desktop) -> bool {
    let t = pre.talks.typing@;
    if t.contains_key(conv) && now >= t[conv].1 && now - t[conv].1 >= 3000 {
        exists|mid: Desktop| #[trigger] header_shown(mid, now, post) && {
            &&& mid == (Desktop { talks: Talks { typing: mid.talks.typing, ..pre.talks }, ..pre })
            &&& mid.talks.typing@ == t.remove(conv)
        }
    } else {
        post == pre
    }
}

/// The presence of users once a list of news was gone through.
pub open spec fn present(p: Map<u64, bool>, news: Seq<(u64, bool)>) -> Map<u64, bool>
    decreases news.len(),
{
    if news.len() == 0 {
        p
    } else {
        present(p, news.drop_last()).insert(news.last().0, news.last().1)
    }
}

pub open spec fn presence_step(
    pre: Desktop,
    p: Map<u64, bool>,
    now: u64,
    post: Desktop,
    tasks: Seq<Task>,
) -> bool {
    &&& tasks == seq![Task::ShowConversations]
    &&& exists|mid: Desktop| #[trigger] header_shown(mid, now, post) && {
        &&& mid == (Desktop { talks: Talks { presence: mid.talks.presence, ..pre.talks }, ..pre })
        &&& mid.talks.presence@ == p
    }
}

/// Someone types in a conversation, which is looked after until it is over.
pub open spec fn typing_step(
    pre: Desktop,
    conversation_id: u64,
    from_username: String,
    now: u64,
    post: Desktop,
    tasks: Seq<Task>,
) -> bool {
    &&& tasks == seq![Task::WatchTyping { conversation_id, seconds: 3 }]
    &&& exists|mid: Desktop| #[trigger] header_shown(mid, now, post) && {
        &&& mid == (Desktop { talks: Talks { typing: mid.talks.typing, ..pre.talks }, ..pre })
        &&& mid.talks.typing@ == pre.talks.typing@.insert(conversation_id, (from_username, now))
    }
}

/// The status of a transfer was set, and the messages are shown anew.
pub open spec fn status_step(
    pre: Desktop,
    id: Seq<char>,
    text: Seq<char>,
    post: Desktop,
    tasks: Seq<Task>,
) -> bool {
    &&& post == (Desktop { store: Store { p2p_status: post.store.p2p_status, ..pre.store }, ..pre })
    &&& post.store.p2p_status@ == pre.store.p2p_status@.insert(id, post.store.p2p_status@[id])
    &&& post.store.p2p_status@[id]@ == text
    &&& tasks == seq![Task::ShowMessages]
}

/// A file came in full: it is stored, and an image is shown.
pub open spec fn complete_step(
    pre: Desktop,
    file_id: String,
    mime: String,
    bytes: Vec<u8>,
    post: Desktop,
    tasks: Seq<Task>,
) -> bool {
    let id = file_id@;
    &&& post == (Desktop {
        store: Store {
            downloaded: post.store.downloaded,
            p2p_status: post.store.p2p_status,
            ..pre.store
        },
        ..pre
    })
    &&& post.store.downloaded@ == pre.store.downloaded@.insert(id, post.store.downloaded@[id])
    &&& post.store.downloaded@[id].path matches Some(p)
    &&& p@ == joined_path(pre.store.cache_dir@, id)
    &&& match png_of(bytes@) {
        Some(png) => if is_image_mime(mime@) {
            post.store.downloaded@[id].image_data matches Some(u) && u@ == data_url(
                "data:image/png;base64,"@,
                png,
            )
        } else {
            post.store.downloaded@[id].image_data is None
        },
        None => post.store.downloaded@[id].image_data is None,
    }
    &&& post.store.p2p_status@ == pre.store.p2p_status@.remove(id)
    &&& tasks == seq![Task::StoreFile { file_id, bytes }, Task::ShowMessages]
}

pub open spec fn deleted_step(pre: Desktop, id: u64, post: Desktop, tasks: Seq<Task>) -> bool {
    let open = pre.talks.selected == window_id(id);
    &&& post == (Desktop {
        talks: Talks {
            conversations: post.talks.conversations,
            selected: if open {
                (-1) as i32
            } else {
                pre.talks.selected
            },
            messages: post.talks.messages,
            ..pre.talks
        },
        texts: Texts {
            selected_conversation: if open {
                (-1) as i32
            } else {
                pre.texts.selected_conversation
            },
            ..pre.texts
        },
        ..pre
    })
    &&& post.talks.conversations@ == others(pre.talks.conversations@, id)
    &&& post.talks.messages@ == if open {
        Seq::empty()
    } else {
        pre.talks.messages@
    }
    &&& tasks == seq![Task::ShowConversations, Task::ShowMessages]
}

pub open spec fn error_shown(pre: Desktop, text: Seq<char>, post: Desktop) -> bool {
    &&& post == (Desktop {
        texts: Texts { error_message: post.texts.error_message, ..pre.texts },
        ..pre
    })
    &&& post.texts.error_message@ == text
}

pub open spec fn preview_known(
    pre: Desktop,
    url: Seq<char>,
    p: Option<Preview>,
    post: Desktop,
    tasks: Seq<Task>,
) -> bool {
    &&& post == (Desktop {
        store: Store {
            preview_cache: post.store.preview_cache,
            preview_requested: post.store.preview_requested,
            ..pre.store
        },
        ..pre
    })
    &&& post.store.preview_requested@ == pre.store.preview_requested@.remove(url)
    &&& post.store.preview_cache@ == pre.store.preview_cache@.insert(url, p)
    &&& tasks == seq![Task::ShowMessages]
}

pub open spec fn profile_shown(pre: Desktop, p: Profile, window: Window, post: Desktop) -> bool {
    &&& post == (Desktop { cards: post.cards, window, ..pre })
    &&& card_shown(pre.cards, p, post.cards)
}

pub open spec fn account_step(
    pre: Desktop,
    ev: AccountEvent,
    post: Desktop,
    tasks: Seq<Task>,
) -> bool {
    match ev {
        AccountEvent::LoggedIn { token, user } => logged_in_step(pre, token, user, post, tasks),
        AccountEvent::AuthFailed(m) => error_shown(pre, m@, post) && tasks.len() == 0,
        AccountEvent::Verified(user) => verified_step(pre, user, post, tasks),
        AccountEvent::UserUpdated(user) => updated_step(pre, user, post, tasks),
        AccountEvent::UploadAvatar { server, token, data_url } => post == pre && tasks == seq![
            Task::SetAvatar { server, token, data_url },
        ],
        AccountEvent::TwoFaRequired { pending_token } => {
            &&& post == (Desktop {
                window: Window { needs_2fa: true, ..pre.window },
                texts: Texts {
                    pending_token,
                    error_message: post.texts.error_message,
                    ..pre.texts
                },
                ..pre
            })
            &&& post.texts.error_message@.len() == 0
            &&& tasks.len() == 0
        },
        AccountEvent::TwoFaSetup { secret, qr } => {
            &&& post == (Desktop {
                window: Window { twofa_setup_open: true, ..pre.window },
                texts: Texts {
                    twofa_secret: secret,
                    error_message: post.texts.error_message,
                    ..pre.texts
                },
                ..pre
            })
            &&& post.texts.error_message@.len() == 0
            &&& tasks == seq![Task::ShowCode { qr }]
        },
        AccountEvent::Info(m) => post == (Desktop {
            texts: Texts { info_message: m, ..pre.texts },
            ..pre
        }) && tasks.len() == 0,
        AccountEvent::Error(m) => error_shown(pre, m@, post) && tasks.len() == 0,
    }
}

pub open spec fn talk_step(
    pre: Desktop,
    ev: TalkEvent,
    post: Desktop,
    tasks: Seq<Task>,
) -> bool {
    match ev {
        TalkEvent::Conversations(list) => conversations_step(pre, list@, post, tasks),
        TalkEvent::ConversationCreated(c) => created_step(pre, c, post, tasks),
        TalkEvent::Messages { conversation_id, messages } => messages_step(
            pre,
            conversation_id,
            messages@,
            post,
            tasks,
        ),
        TalkEvent::MessageSent(m) => message_merged(pre, m, post) && tasks == seq![
            Task::ShowMessages,
        ],
        TalkEvent::WsMessage(m) => ws_message_step(pre, m, post, tasks),
        TalkEvent::WsMessageEdited(m) => message_merged(pre, m, post) && tasks == seq![
            Task::ShowMessages,
            Task::FollowEnd,
        ],
        TalkEvent::WsMessageDeleted { conversation_id, message_id } => message_removed(
            pre,
            conversation_id,
            message_id,
            post,
        ) && tasks == seq![Task::ShowMessages],
        TalkEvent::WsStatus(b) => post == (Desktop {
            window: Window { ws_connected: b, ..pre.window },
            ..pre
        }) && tasks.len() == 0,
        TalkEvent::ConversationDeleted(id) => deleted_step(pre, id, post, tasks),
    }
}

pub open spec fn people_step(
    pre: Desktop,
    ev: PeopleEvent,
    now: u64,
    post: Desktop,
    tasks: Seq<Task>,
) -> bool {
    match ev {
        PeopleEvent::Typing { conversation_id, from_user_id, from_username } => typing_step(
            pre,
            conversation_id,
            from_username,
            now,
            post,
            tasks,
        ),
        PeopleEvent::TypingExpired { conversation_id } => typing_expired_step(
            pre,
            conversation_id,
            now,
            post,
        ) && tasks.len() == 0,
        PeopleEvent::Presence { user_id, online } => presence_step(
            pre,
            pre.talks.presence@.insert(user_id, online),
            now,
            post,
            tasks,
        ),
        PeopleEvent::PresenceBatch(news) => presence_step(
            pre,
            present(pre.talks.presence@, news@),
            now,
            post,
            tasks,
        ),
        PeopleEvent::Profile(p) => profile_shown(
            pre,
            p,
            Window { profile_open: true, ..pre.window },
            post,
        ) && tasks.len() == 0,
        PeopleEvent::ContextProfile(p) => profile_shown(
            pre,
            p,
            Window { context_open: true, ..pre.window },
            post,
        ) && tasks.len() == 0,
        PeopleEvent::ModerationResult(p) => profile_shown(pre, p, pre.window, post) && tasks.len() == 0,
        PeopleEvent::ProfileError => error_shown(
            Desktop { window: Window { context_open: false, ..pre.window }, ..pre },
            "could not load user profile"@,
            post,
        ) && tasks.len() == 0,
    }
}

pub open spec fn files_step(
    pre: Desktop,
    ev: FileEvent,
    post: Desktop,
    tasks: Seq<Task>,
) -> bool {
    match ev {
        FileEvent::P2pSignal(sig) => post == pre && tasks == seq![Task::P2pSignal(sig)],
        FileEvent::P2pStatus { file_id, status } => status_step(pre, file_id@, status@, post, tasks),
        FileEvent::P2pProgress { file_id, received, total, percent } => status_step(
            pre,
            file_id@,
            progress_status(total, percent),
            post,
            tasks,
        ),
        FileEvent::P2pComplete { file_id, mime, name, bytes } => complete_step(
            pre,
            file_id,
            mime,
            bytes,
            post,
            tasks,
        ),
        FileEvent::P2pFailed { file_id, reason } => status_step(
            pre,
            file_id@,
            failure_status(reason@),
            post,
            tasks,
        ),
        FileEvent::AttachmentPicked(att) => {
            &&& post == (Desktop {
                store: Store { pending_attach: Some(att), ..pre.store },
                texts: Texts { pending_attach_name: att.name, ..pre.texts },
                ..pre
            })
            &&& tasks == seq![
                Task::ShowPicked {
                    thumbnail: if is_image_mime(att.mime@) {
                        Some(att.thumbnail)
                    } else {
                        None
                    },
                },
            ]
        },
        FileEvent::LinkPreview(p) => preview_known(pre, p.url@, Some(p), post, tasks),
        FileEvent::LinkPreviewFailed(url) => preview_known(pre, url@, None, post, tasks),
    }
}

pub open spec fn event_step(
    pre: Desktop,
    ev: Event,
    now: u64,
    post: Desktop,
    tasks: Seq<Task>,
) -> bool {
    match ev {
        Event::Account(e) => account_step(pre, e, post, tasks),
        Event::Talk(e) => talk_step(pre, e, post, tasks),
        Event::People(e) => people_step(pre, e, now, post, tasks),
        Event::File(e) => files_step(pre, e, post, tasks),
    }
}

/// Logging out forgets everything that belongs to the account; pictures, files that were received
/// and what is known of links stay.
pub open spec fn logout_step(pre: Desktop, post: Desktop, tasks: Seq<Task>) -> bool {
    &&& post.account == (Account { token: None, self_id: None, ..pre.account })
    &&& post.talks == (Talks {
        conversations: post.talks.conversations,
        messages: post.talks.messages,
        contacts: post.talks.contacts,
        hidden: post.talks.hidden,
        presence: post.talks.presence,
        typing: post.talks.typing,
        selected: (-1) as i32,
        ..pre.talks
    })
    &&& post.talks.conversations@.len() == 0
    &&& post.talks.messages@.len() == 0
    &&& post.talks.contacts@.len() == 0
    &&& post.talks.hidden@.len() == 0
    &&& post.talks.presence@ == Map::<u64, bool>::empty()
    &&& post.talks.typing@ == Map::<u64, (String, u64)>::empty()
    &&& post.store == (Store {
        p2p_status: post.store.p2p_status,
        own_files: post.store.own_files,
        ..pre.store
    })
    &&& post.store.p2p_status@ == Map::<Seq<char>, String>::empty()
    &&& post.store.own_files@ == Map::<Seq<char>, OwnFile>::empty()
    &&& post.window == (Window {
        logged_in: false,
        needs_verify: false,
        needs_2fa: false,
        needs_2fa_setup: false,
        email_verified: false,
        ws_connected: false,
        profile_open: false,
        context_open: false,
        confirm_delete_open: false,
        ..pre.window
    })
    &&& post.texts == (Texts {
        header_title: post.texts.header_title,
        header_status: post.texts.header_status,
        pending_token: post.texts.pending_token,
        user_name: post.texts.user_name,
        error_message: post.texts.error_message,
        info_message: post.texts.info_message,
        new_conversation_input: post.texts.new_conversation_input,
        selected_conversation: (-1) as i32,
        confirm_delete_id: (-1) as i32,
        ..pre.texts
    })
    &&& post.texts.header_title@.len() == 0
    &&& post.texts.header_status@.len() == 0
    &&& post.texts.pending_token@.len() == 0
    &&& post.texts.user_name@.len() == 0
    &&& post.texts.error_message@.len() == 0
    &&& post.texts.info_message@.len() == 0
    &&& post.texts.new_conversation_input@.len() == 0
    &&& post.cards == pre.cards
    &&& post.composer == pre.composer
    &&& tasks == seq![
        Task::ClearSession,
        Task::SetToken(None),
        Task::ShowConversations,
        Task::ShowMessages,
    ]
}

// ---------------------------------------------------------------------------
// Handling
// ---------------------------------------------------------------------------

fn nothing() -> (r: Vec<Task>)
    ensures
        r@ == Seq::<Task>::empty(),
{
    Vec::new()
}

fn one(a: Task) -> (r: Vec<Task>)
    ensures
        r@ == seq![a],
{
    let mut r: Vec<Task> = Vec::new();
    r.push(a);
    proof {
        assert(r@ =~= seq![a]);
    }
    r
}

fn two(a: Task, b: Task) -> (r: Vec<Task>)
    ensures
        r@ == seq![a, b],
{
    let mut r: Vec<Task> = Vec::new();
    r.push(a);
    r.push(b);
    proof {
        assert(r@ =~= seq![a, b]);
    }
    r
}

fn push_partners(ids: &mut Vec<u64>, ms: &Vec<Member>, me: Option<u64>)
    ensures
        final(ids)@ == old(ids)@ + partners_in(ms@, me),
{
    let mut i: usize = 0;
    proof {
        assert(ids@ =~= old(ids)@ + partners_in(ms@.take(0), me));
    }
    while i < ms.len()
        invariant
            i <= ms.len(),
            ids@ == old(ids)@ + partners_in(ms@.take(i as int), me),
        decreases ms.len() - i,
    {
        proof {
            assert(ms@.take(i + 1).drop_last() =~= ms@.take(i as int));
        }
        if !is_me(me, ms[i].id) {
            ids.push(ms[i].id);
        }
        i += 1;
        proof {
            assert(ids@ =~= old(ids)@ + partners_in(ms@.take(i as int), me));
        }
    }
    proof {
        assert(ms@.take(i as int) =~= ms@);
    }
}

fn list_partners(cs: &Vec<Conversation>, me: Option<u64>) -> (ids: Vec<u64>)
    ensures
        ids@ == partners(cs@, me),
{
    let mut ids: Vec<u64> = Vec::new();
    let mut i: usize = 0;
    while i < cs.len()
        invariant
            i <= cs.len(),
            ids@ == partners(cs@.take(i as int), me),
        decreases cs.len() - i,
    {
        proof {
            assert(cs@.take(i + 1).drop_last() =~= cs@.take(i as int));
        }
        push_partners(&mut ids, &cs[i].members, me);
        i += 1;
    }
    proof {
        assert(cs@.take(i as int) =~= cs@);
    }
    ids
}

impl Desktop {
    fn logged_in(&mut self, token: String, user: User) -> (tasks: Vec<Task>)
        ensures
            logged_in_step(*old(self), token, user, *final(self), tasks@),
    {
        let mut tasks = nothing();
        tasks.push(Task::SaveServer);
        if self.account.remember_me {
            tasks.push(Task::SaveSession { token: token.clone() });
        } else {
            tasks.push(Task::ClearSession);
        }
        tasks.push(Task::SetToken(Some(token.clone())));
        self.account.token = Some(token);
        self.account.self_id = Some(user.id);
        self.window.logged_in = true;
        self.window.needs_verify = !user.email_verified;
        self.window.email_verified = user.email_verified;
        self.window.needs_2fa = false;
        self.window.needs_2fa_setup = user.email_verified && !user.totp_enabled;
        self.window.totp_enabled = user.totp_enabled;
        self.window.profile_open = false;
        self.window.context_open = false;
        self.window.confirm_delete_open = false;
        self.texts.user_name = user.username.clone();
        self.texts.display_name_input = user.display_name.clone();
        self.texts.error_message = String::new();
        self.texts.info_message = String::new();
        self.texts.selected_conversation = -1;
        match &user.avatar_url {
            Some(url) => {
                tasks.push(Task::ShowOwnAvatar { user_id: user.id, url: url.clone() });
            },
            None => {},
        }
        self.talks.conversations = Vec::new();
        self.talks.messages = Vec::new();
        self.talks.hidden = Vec::new();
        self.talks.selected = -1;
        tasks.push(Task::ShowConversations);
        tasks.push(Task::ShowMessages);
        if user.email_verified && user.totp_enabled {
            tasks.push(Task::LoadConversations);
        }
        proof {
            let kept = if old(self).account.remember_me {
                Task::SaveSession { token }
            } else {
                Task::ClearSession
            };
            let load = if user.email_verified && user.totp_enabled {
                seq![Task::LoadConversations]
            } else {
                Seq::empty()
            };
            assert(tasks@ =~= seq![Task::SaveServer, kept, Task::SetToken(Some(token))]
                + own_avatar(user) + seq![Task::ShowConversations, Task::ShowMessages] + load);
        }
        tasks
    }

    fn verified(&mut self, user: User) -> (tasks: Vec<Task>)
        ensures
            verified_step(*old(self), user, *final(self), tasks@),
    {
        if !user.email_verified {
            return nothing();
        }
        self.window.needs_verify = false;
        self.window.email_verified = true;
        self.texts.error_message = String::new();
        self.texts.info_message = String::new();
        self.texts.user_name = user.username;
        self.window.needs_2fa_setup = !user.totp_enabled;
        if user.totp_enabled {
            one(Task::LoadConversations)
        } else {
            nothing()
        }
    }

    fn user_updated(&mut self, user: User) -> (tasks: Vec<Task>)
        ensures
            updated_step(*old(self), user, *final(self), tasks@),
    {
        self.hush();
        self.second_factor(user.email_verified, user.totp_enabled);
        self.texts.display_name_input = user.display_name.clone();
        let mut tasks = match &user.avatar_url {
            Some(url) => one(Task::ShowOwnAvatar { user_id: user.id, url: url.clone() }),
            None => one(Task::DropOwnAvatar { user_id: user.id }),
        };
        tasks.push(Task::ShowConversations);
        tasks
    }

    fn hush(&mut self)
        ensures
            *final(self) == (Desktop {
                texts: Texts {
                    error_message: final(self).texts.error_message,
                    info_message: final(self).texts.info_message,
                    ..old(self).texts
                },
                ..*old(self)
            }),
            final(self).texts.error_message@.len() == 0,
            final(self).texts.info_message@.len() == 0,
    {
        self.texts.error_message = String::new();
        self.texts.info_message = String::new();
    }

    fn second_factor(&mut self, verified: bool, on: bool)
        ensures
            *final(self) == (Desktop {
                window: Window {
                    email_verified: verified,
                    totp_enabled: on,
                    twofa_setup_open: old(self).window.twofa_setup_open && !on,
                    twofa_disable_open: old(self).window.twofa_disable_open && !on,
                    needs_2fa_setup: old(self).window.needs_2fa_setup && !on,
                    ..old(self).window
                },
                ..*old(self)
            }),
    {
        self.window.email_verified = verified;
        self.window.totp_enabled = on;
        if on {
            self.window.twofa_setup_open = false;
            self.window.twofa_disable_open = false;
            self.window.needs_2fa_setup = false;
        }
    }

    fn progress(&mut self, file_id: String, total: u64, percent: u64) -> (tasks: Vec<Task>)
        ensures
            status_step(
                *old(self),
                file_id@,
                progress_status(total, percent),
                *final(self),
                tasks@,
            ),
    {
        let status = if total > 0 {
            concat3("receiving · ", u64_text(percent).as_str(), "%")
        } else {
            copy_text("receiving…")
        };
        self.set_status(file_id, status)
    }

    fn failed(&mut self, file_id: String, reason: String) -> (tasks: Vec<Task>)
        ensures
            status_step(*old(self), file_id@, failure_status(reason@), *final(self), tasks@),
    {
        let status = if text_contains(reason.as_str(), "offline") || text_contains(
            reason.as_str(),
            "cancel",
        ) {
            "offline"
        } else {
            "error"
        };
        self.set_status(file_id, copy_text(status))
    }

    fn profile_failed(&mut self)
        ensures
            error_shown(
                Desktop {
                    window: Window { context_open: false, ..old(self).window },
                    ..*old(self)
                },
                "could not load user profile"@,
                *final(self),
            ),
    {
        self.window.context_open = false;
        self.set_error(copy_text("could not load user profile"));
    }

    fn second_step(&mut self, pending_token: String)
        ensures
            account_step(
                *old(self),
                (AccountEvent::TwoFaRequired { pending_token }),
                *final(self),
                Seq::<Task>::empty(),
            ),
    {
        self.texts.pending_token = pending_token;
        self.texts.error_message = String::new();
        self.window.needs_2fa = true;
    }

    fn second_factor_setup(&mut self, secret: String, qr: String) -> (tasks: Vec<Task>)
        ensures
            account_step(
                *old(self),
                (AccountEvent::TwoFaSetup { secret, qr }),
                *final(self),
                tasks@,
            ),
    {
        self.texts.twofa_secret = secret;
        self.texts.error_message = String::new();
        self.window.twofa_setup_open = true;
        one(Task::ShowCode { qr })
    }

    fn conversations(&mut self, list: Vec<Conversation>) -> (tasks: Vec<Task>)
        ensures
            conversations_step(*old(self), list@, *final(self), tasks@),
    {
        self.merge_conversations(list);
        let ids = list_partners(&self.talks.conversations, self.account.self_id);
        let mut tasks = one(Task::ShowConversations);
        if ids.len() > 0 {
            tasks.push(Task::LoadPresence { ids });
        }
        tasks
    }

    fn conversation_created(&mut self, c: Conversation) -> (tasks: Vec<Task>)
        ensures
            created_step(*old(self), c, *final(self), tasks@),
    {
        let conversation_id = c.id;
        let shown = to_window_id(c.id);
        self.merge_conversation(c);
        self.talks.selected = shown;
        self.texts.selected_conversation = shown;
        self.texts.new_conversation_input = String::new();
        self.texts.error_message = String::new();
        self.talks.messages = Vec::new();
        let mut tasks = two(Task::ShowConversations, Task::ShowMessages);
        tasks.push(Task::ScrollToEnd);
        tasks.push(Task::LoadMessages { conversation_id });
        proof {
            assert(tasks@ =~= seq![
                Task::ShowConversations,
                Task::ShowMessages,
                Task::ScrollToEnd,
                Task::LoadMessages { conversation_id: c.id },
            ]);
        }
        tasks
    }

    fn ws_message(&mut self, m: ApiMsg) -> (tasks: Vec<Task>)
        ensures
            ws_message_step(*old(self), m, *final(self), tasks@),
    {
        let conv = m.conversation_id;
        let sender = m.sender_id;
        let mut tasks = nothing();
        if find(&self.talks.conversations, conv).is_none() {
            tasks.push(Task::LoadConversations);
        }
        let ghost unknown = tasks@;
        self.merge_message(m);
        let ghost mid = *self;
        proof {
            assert(message_merged(*old(self), m, mid));
        }
        if self.talks.selected == to_window_id(conv) {
            self.talks.unread.remove(&conv);
        } else if !is_me(self.account.self_id, sender) {
            let n: u32 = match self.talks.unread.get(&conv) {
                Some(n) => *n,
                None => 0,
            };
            self.talks.unread.insert(conv, n.wrapping_add(1));
            tasks.push(Task::ShowConversations);
        }
        tasks.push(Task::ShowMessages);
        tasks.push(Task::FollowEnd);
        proof {
            let open = old(self).talks.selected == window_id(conv);
            let foreign = old(self).account.self_id != Some(sender);
            let news = if !open && foreign {
                seq![Task::ShowConversations]
            } else {
                Seq::empty()
            };
            let first = if holds(old(self).talks.conversations@, conv) {
                Seq::empty()
            } else {
                seq![Task::LoadConversations]
            };
            assert(unknown =~= first);
            assert(tasks@ =~= first + news + seq![Task::ShowMessages, Task::FollowEnd]);
        }
        tasks
    }

    fn set_status(&mut self, file_id: String, status: String) -> (tasks: Vec<Task>)
        ensures
            status_step(*old(self), file_id@, status@, *final(self), tasks@),
    {
        self.store.p2p_status.insert(file_id, status);
        one(Task::ShowMessages)
    }

    fn completed(&mut self, file_id: String, mime: String, bytes: Vec<u8>) -> (tasks: Vec<Task>)
        ensures
            complete_step(*old(self), file_id, mime, bytes, *final(self), tasks@),
    {
        let path = cache_path_for(self.store.cache_dir.as_str(), file_id.as_str());
        let image_data = if starts_with(mime.as_str(), "image/") {
            image_data_url_from_bytes(&bytes)
        } else {
            None
        };
        self.store.downloaded.insert(
            file_id.clone(),
            KeptFile { image_data, path: Some(path) },
        );
        self.store.p2p_status.remove(&file_id);
        two(Task::StoreFile { file_id, bytes }, Task::ShowMessages)
    }

    fn typing_expired(&mut self, conv: u64, now: u64)
        ensures
            typing_expired_step(*old(self), conv, now, *final(self)),
    {
        let expired = match self.talks.typing.get(&conv) {
            Some(e) => now >= e.1 && now - e.1 >= 3000,
            None => false,
        };
        if expired {
            self.talks.typing.remove(&conv);
            let ghost mid = *self;
            self.refresh_chat_header(now);
            proof {
                assert(header_shown(mid, now, *self));
            }
        }
    }

    fn presence_news(&mut self, news: Vec<(u64, bool)>, now: u64) -> (tasks: Vec<Task>)
        ensures
            presence_step(
                *old(self),
                present(old(self).talks.presence@, news@),
                now,
                *final(self),
                tasks@,
            ),
    {
        let ghost all = news@;
        let ghost start = *self;
        for e in it: news
            invariant
                it.seq() == all,
                *self == (Desktop {
                    talks: Talks { presence: self.talks.presence, ..start.talks },
                    ..start
                }),
                self.talks.presence@ == present(
                    start.talks.presence@,
                    all.take(it.index() as int),
                ),
        {
            proof {
                let i = it.index() as int;
                assert(all.take(i + 1).drop_last() =~= all.take(i));
                assert(all.take(i + 1).last() == e);
            }
            let (id, on) = e;
            self.talks.presence.insert(id, on);
        }
        proof {
            assert(all.take(all.len() as int) =~= all);
        }
        let ghost mid = *self;
        self.refresh_chat_header(now);
        proof {
            assert(header_shown(mid, now, *self));
        }
        one(Task::ShowConversations)
    }

    fn conversation_deleted(&mut self, id: u64) -> (tasks: Vec<Task>)
        ensures
            deleted_step(*old(self), id, *final(self), tasks@),
    {
        let mut held: Vec<Conversation> = Vec::new();
        std::mem::swap(&mut held, &mut self.talks.conversations);
        self.talks.conversations = remove_id(held, id);
        if self.talks.selected == to_window_id(id) {
            self.talks.selected = -1;
            self.texts.selected_conversation = -1;
            self.talks.messages = Vec::new();
            proof {
                assert(self.talks.messages@ =~= Seq::empty());
            }
        }
        two(Task::ShowConversations, Task::ShowMessages)
    }

    fn set_error(&mut self, text: String)
        ensures
            error_shown(*old(self), text@, *final(self)),
    {
        self.texts.error_message = text;
    }

    fn typing(&mut self, conversation_id: u64, from_username: String, now: u64) -> (tasks: Vec<
        Task,
    >)
        ensures
            typing_step(
                *old(self),
                conversation_id,
                from_username,
                now,
                *final(self),
                tasks@,
            ),
    {
        self.talks.typing.insert(conversation_id, (from_username, now));
        let ghost mid = *self;
        self.refresh_chat_header(now);
        proof {
            assert(header_shown(mid, now, *self));
        }
        one(Task::WatchTyping { conversation_id, seconds: 3 })
    }

    fn presence(&mut self, user_id: u64, online: bool, now: u64) -> (tasks: Vec<Task>)
        ensures
            presence_step(
                *old(self),
                old(self).talks.presence@.insert(user_id, online),
                now,
                *final(self),
                tasks@,
            ),
    {
        self.talks.presence.insert(user_id, online);
        let ghost mid = *self;
        self.refresh_chat_header(now);
        proof {
            assert(header_shown(mid, now, *self));
        }
        one(Task::ShowConversations)
    }

    fn attachment_picked(&mut self, att: Attachment) -> (tasks: Vec<Task>)
        ensures
            files_step(*old(self), FileEvent::AttachmentPicked(att), *final(self), tasks@),
    {
        self.texts.pending_attach_name = att.name.clone();
        let thumbnail = if starts_with(att.mime.as_str(), "image/") {
            Some(att.thumbnail.clone())
        } else {
            None
        };
        self.store.pending_attach = Some(att);
        one(Task::ShowPicked { thumbnail })
    }

    fn preview(&mut self, url: String, p: Option<Preview>) -> (tasks: Vec<Task>)
        ensures
            preview_known(*old(self), url@, p, *final(self), tasks@),
    {
        self.store.preview_requested.remove(&url);
        self.store.preview_cache.insert(url, p);
        one(Task::ShowMessages)
    }

    fn messages(&mut self, conversation_id: u64, messages: Vec<ApiMsg>) -> (tasks: Vec<Task>)
        ensures
            messages_step(*old(self), conversation_id, messages@, *final(self), tasks@),
    {
        if self.talks.selected == to_window_id(conversation_id) {
            self.talks.messages = sort(messages);
            two(Task::ShowMessages, Task::ScrollToEnd)
        } else {
            nothing()
        }
    }

    #[verifier::rlimit(40)]
    fn handle_account(&mut self, ev: AccountEvent) -> (tasks: Vec<Task>)
        ensures
            account_step(*old(self), ev, *final(self), tasks@),
    {
        match ev {
            AccountEvent::LoggedIn { token, user } => self.logged_in(token, user),
            AccountEvent::AuthFailed(m) => {
                self.set_error(m);
                nothing()
            },
            AccountEvent::Verified(user) => self.verified(user),
            AccountEvent::UserUpdated(user) => self.user_updated(user),
            AccountEvent::UploadAvatar { server, token, data_url } => one(
                Task::SetAvatar { server, token, data_url },
            ),
            AccountEvent::TwoFaRequired { pending_token } => {
                self.second_step(pending_token);
                nothing()
            },
            AccountEvent::TwoFaSetup { secret, qr } => self.second_factor_setup(secret, qr),
            AccountEvent::Info(m) => {
                self.texts.info_message = m;
                nothing()
            },
            AccountEvent::Error(m) => {
                self.set_error(m);
                nothing()
            },
        }
    }

    #[verifier::rlimit(40)]
    fn handle_talk(&mut self, ev: TalkEvent) -> (tasks: Vec<Task>)
        ensures
            talk_step(*old(self), ev, *final(self), tasks@),
    {
        match ev {
            TalkEvent::Conversations(list) => self.conversations(list),
            TalkEvent::ConversationCreated(c) => self.conversation_created(c),
            TalkEvent::Messages { conversation_id, messages } => self.messages(
                conversation_id,
                messages,
            ),
            TalkEvent::MessageSent(m) => {
                self.merge_message(m);
                one(Task::ShowMessages)
            },
            TalkEvent::WsMessage(m) => self.ws_message(m),
            TalkEvent::WsMessageEdited(m) => {
                self.merge_message(m);
                two(Task::ShowMessages, Task::FollowEnd)
            },
            TalkEvent::WsMessageDeleted { conversation_id, message_id } => {
                self.merge_message_deleted(conversation_id, message_id);
                one(Task::ShowMessages)
            },
            TalkEvent::WsStatus(b) => {
                self.window.ws_connected = b;
                nothing()
            },
            TalkEvent::ConversationDeleted(id) => self.conversation_deleted(id),
        }
    }

    fn open_profile(&mut self, p: Profile)
        ensures
            profile_shown(
                *old(self),
                p,
                (Window { profile_open: true, ..old(self).window }),
                *final(self),
            ),
    {
        self.apply_profile(p);
        self.window.profile_open = true;
    }

    fn open_context(&mut self, p: Profile)
        ensures
            profile_shown(
                *old(self),
                p,
                (Window { context_open: true, ..old(self).window }),
                *final(self),
            ),
    {
        self.apply_profile(p);
        self.window.context_open = true;
    }

    #[verifier::rlimit(40)]
    fn handle_people(&mut self, ev: PeopleEvent, now: u64) -> (tasks: Vec<Task>)
        ensures
            people_step(*old(self), ev, now, *final(self), tasks@),
    {
        match ev {
            PeopleEvent::Typing { conversation_id, from_user_id: _, from_username } => self.typing(
                conversation_id,
                from_username,
                now,
            ),
            PeopleEvent::TypingExpired { conversation_id } => {
                self.typing_expired(conversation_id, now);
                nothing()
            },
            PeopleEvent::Presence { user_id, online } => self.presence(user_id, online, now),
            PeopleEvent::PresenceBatch(news) => self.presence_news(news, now),
            PeopleEvent::Profile(p) => {
                self.open_profile(p);
                nothing()
            },
            PeopleEvent::ContextProfile(p) => {
                self.open_context(p);
                nothing()
            },
            PeopleEvent::ModerationResult(p) => {
                self.apply_profile(p);
                nothing()
            },
            PeopleEvent::ProfileError => {
                self.profile_failed();
                nothing()
            },
        }
    }

    #[verifier::rlimit(40)]
    fn handle_file(&mut self, ev: FileEvent) -> (tasks: Vec<Task>)
        ensures
            files_step(*old(self), ev, *final(self), tasks@),
    {
        match ev {
            FileEvent::P2pSignal(sig) => one(Task::P2pSignal(sig)),
            FileEvent::P2pStatus { file_id, status } => self.set_status(file_id, status),
            FileEvent::P2pProgress { file_id, received: _, total, percent } => self.progress(
                file_id,
                total,
                percent,
            ),
            FileEvent::P2pComplete { file_id, mime, name: _, bytes } => self.completed(
                file_id,
                mime,
                bytes,
            ),
            FileEvent::P2pFailed { file_id, reason } => self.failed(file_id, reason),
            FileEvent::AttachmentPicked(att) => self.attachment_picked(att),
            FileEvent::LinkPreview(p) => {
                let url = p.url.clone();
                self.preview(url, Some(p))
            },
            FileEvent::LinkPreviewFailed(url) => self.preview(url, None),
        }
    }

    /// Handles what happened. `now` is a clock in milliseconds.
    pub fn handle_event(&mut self, ev: Event, now: u64) -> (tasks: Vec<Task>)
        ensures
            event_step(*old(self), ev, now, *final(self), tasks@),
    {
        match ev {
            Event::Account(e) => self.handle_account(e),
            Event::Talk(e) => self.handle_talk(e),
            Event::People(e) => self.handle_people(e, now),
            Event::File(e) => self.handle_file(e),
        }
    }

    /// Logs the user out.
    pub fn logout(&mut self) -> (tasks: Vec<Task>)
        ensures
            logout_step(*old(self), *final(self), tasks@),
    {
        self.account.token = None;
        self.account.self_id = None;
        self.talks.conversations = Vec::new();
        self.talks.messages = Vec::new();
        self.talks.contacts = Vec::new();
        self.talks.hidden = Vec::new();
        self.talks.presence = HashMap::new();
        self.talks.typing = HashMap::new();
        self.talks.selected = -1;
        self.store.p2p_status = Assoc::new();
        self.store.own_files = Assoc::new();
        self.texts.header_title = String::new();
        self.texts.header_status = String::new();
        self.texts.pending_token = String::new();
        self.texts.user_name = String::new();
        self.texts.error_message = String::new();
        self.texts.info_message = String::new();
        self.texts.new_conversation_input = String::new();
        self.texts.selected_conversation = -1;
        self.texts.confirm_delete_id = -1;
        self.window.logged_in = false;
        self.window.needs_verify = false;
        self.window.needs_2fa = false;
        self.window.needs_2fa_setup = false;
        self.window.email_verified = false;
        self.window.ws_connected = false;
        self.window.profile_open = false;
        self.window.context_open = false;
        self.window.confirm_delete_open = false;
        let mut tasks = two(Task::ClearSession, Task::SetToken(None));
        tasks.push(Task::ShowConversations);
        tasks.push(Task::ShowMessages);
        proof {
            assert(tasks@ =~= seq![
                Task::ClearSession,
                Task::SetToken(None),
                Task::ShowConversations,
                Task::ShowMessages,
            ]);
        }
        tasks
    }
}

// ---------------------------------------------------------------------------
// Laws
// ---------------------------------------------------------------------------

/// Conversations are loaded on the way in only for an account with a verified address and a second
/// factor.
pub proof fn second_factor_is_mandatory(
    pre: Desktop,
    token: String,
    user: User,
    post: Desktop,
    tasks: Seq<Task>,
    i: int,
)
    requires
        logged_in_step(pre, token, user, post, tasks),
        0 <= i < tasks.len(),
        tasks[i] is LoadConversations,
    ensures
        user.email_verified && user.totp_enabled,
        !post.window.needs_2fa_setup && !post.window.needs_verify,
{
}

/// After logging out, nobody is logged in and nothing of the account is shown.
pub proof fn logout_leaves_nothing(pre: Desktop, post: Desktop, tasks: Seq<Task>)
    requires
        logout_step(pre, post, tasks),
    ensures
        post.account.token is None && post.account.self_id is None,
        post.talks.messages@.len() == 0 && post.talks.conversations@.len() == 0,
        post.talks.selected == -1,
        !post.window.logged_in,
        tasks.contains(Task::ClearSession),
{
    assert(tasks[0] == Task::ClearSession);
}

/// A message in the open conversation never counts as unread.
pub proof fn open_conversation_is_read(pre: Desktop, m: ApiMsg, post: Desktop, tasks: Seq<Task>)
    requires
        ws_message_step(pre, m, post, tasks),
        pre.talks.selected == window_id(m.conversation_id),
    ensures
        !post.talks.unread@.contains_key(m.conversation_id),
{
}

/// What the user writes never counts as unread.
pub proof fn own_messages_are_read(pre: Desktop, m: ApiMsg, post: Desktop, tasks: Seq<Task>)
    requires
        ws_message_step(pre, m, post, tasks),
        pre.account.self_id == Some(m.sender_id),
    ensures
        forall|c: u64| #[trigger]
            post.talks.unread@.contains_key(c) ==> pre.talks.unread@.contains_key(c)
                && post.talks.unread@[c] == pre.talks.unread@[c],
{
}

} // verus!
