//! What the user does in the window of the desktop client.

use vstd::prelude::*;

use crate::chat::action::SentFile;
use crate::chat::files::copy_bytes;
use crate::chat::types::{ApiMsg, Attachment, Conversation, OwnFile, Spot};
use crate::desktop::requests::Call;
use crate::desktop::state::{
    from_window_id, header_shown, id_of_window, to_window_id, window_id, Account, Cards, Composer,
    Desktop, Store, Talks, Texts, Window,
};
use crate::desktop::ui::{count_char, count_of, fragments, read_fragments};
use crate::identity::{
    conversation_title, entries, find_member, is_me, member_index, parse_targets, targets_of,
    title_of,
};
use crate::ordered::{find, holds, position};
use crate::p2p::ServingFile;
use crate::text::{
    chars_of, copy_text, has_prefix, join_texts, joined, or_empty, same_text, starts_with,
    text_or_empty, texts, trim, trim_text,
};

verus! {

/// What the window asks its surroundings to do.
pub enum Wish {
    Call(Call),
    /// Let the socket use the server in the window.
    UseServer,
    /// Keep the server and the accent colour for the next start.
    SaveSettings,
    /// Tell the other members of a conversation that the user types.
    SendTyping { conversation_id: u64 },
    Serve(ServingFile),
    RetryFetch { file_id: String, sender_id: u64 },
    /// Show a file in the viewer of the system.
    OpenBytes { mime: String, name: String, bytes: Vec<u8> },
    /// Show a file that lies on disk, or fetch it anew where it cannot be read.
    OpenStored { path: String, mime: String, name: String, file_id: String, sender_id: u64 },
    /// Show the file in a `data:` URL.
    OpenData { mime: String, name: String, data: String },
    /// The picture of the picked file is gone.
    DropPicked,
    /// Put the cursor of the line for new conversations at its end.
    PlaceCursor { at: usize },
    ShowConversations,
    ScrollToEnd,
}

fn nothing() -> (r: Vec<Wish>)
    ensures
        r@ == Seq::<Wish>::empty(),
{
    Vec::new()
}

fn one(a: Wish) -> (r: Vec<Wish>)
    ensures
        r@ == seq![a],
{
    let mut r: Vec<Wish> = Vec::new();
    r.push(a);
    proof {
        assert(r@ =~= seq![a]);
    }
    r
}

fn two(a: Wish, b: Wish) -> (r: Vec<Wish>)
    ensures
        r@ == seq![a, b],
{
    let mut r: Vec<Wish> = Vec::new();
    r.push(a);
    r.push(b);
    proof {
        assert(r@ =~= seq![a, b]);
    }
    r
}

/// A request that needs a session, and is not made without one.
pub open spec fn in_session(d: Desktop, call: Call) -> Seq<Wish> {
    if d.account.token is Some {
        seq![Wish::Call(call)]
    } else {
        Seq::empty()
    }
}

impl Desktop {
    /// A request, if there is a session.
    fn ask(&self, call: Call) -> (wishes: Vec<Wish>)
        ensures
            wishes@ == in_session(*self, call),
    {
        if self.account.token.is_some() {
            one(Wish::Call(call))
        } else {
            nothing()
        }
    }

    // -----------------------------------------------------------------------
    // The account
    // -----------------------------------------------------------------------

    pub fn login(&mut self, email: String, password: String, remember_me: bool) -> (wishes: Vec<
        Wish,
    >)
        ensures
            *final(self) == (Desktop {
                account: Account { remember_me, ..old(self).account },
                ..*old(self)
            }),
            wishes@ == seq![Wish::UseServer, Wish::Call(Call::Login { email, password, remember_me })],
    {
        self.account.remember_me = remember_me;
        two(Wish::UseServer, Wish::Call(Call::Login { email, password, remember_me }))
    }

    pub fn register(&self, email: String, username: String, password: String) -> (wishes: Vec<Wish>)
        ensures
            wishes@ == seq![
                Wish::UseServer,
                Wish::Call(Call::Register { email, username, password }),
            ],
    {
        two(Wish::UseServer, Wish::Call(Call::Register { email, username, password }))
    }

    /// Sends the code that came by mail, without the blanks around it.
    pub fn verify(&self, code: &str) -> (wishes: Vec<Wish>)
        ensures
            if self.account.token is Some {
                &&& wishes@.len() == 1
                &&& wishes@[0] matches Wish::Call(Call::Verify { code: c })
                &&& c@ == trim(code@)
            } else {
                wishes@.len() == 0
            },
    {
        self.ask(Call::Verify { code: trim_text(code) })
    }

    pub fn resend_code(&self) -> (wishes: Vec<Wish>)
        ensures
            wishes@ == in_session(*self, Call::ResendCode),
    {
        self.ask(Call::ResendCode)
    }

    /// Sends the second factor of a login, if one was asked for.
    pub fn submit_2fa(&self, code: &str) -> (wishes: Vec<Wish>)
        ensures
            if self.texts.pending_token@.len() > 0 {
                &&& wishes@.len() == 1
                &&& wishes@[0] matches Wish::Call(
                    Call::LoginTwoFa { pending_token, code: c, remember_me },
                )
                &&& pending_token == self.texts.pending_token
                &&& c@ == trim(code@)
                &&& remember_me == self.account.remember_me
            } else {
                wishes@.len() == 0
            },
    {
        if self.texts.pending_token.as_str().is_empty() {
            return nothing();
        }
        one(
            Wish::Call(
                Call::LoginTwoFa {
                    pending_token: self.texts.pending_token.clone(),
                    code: trim_text(code),
                    remember_me: self.account.remember_me,
                },
            ),
        )
    }

    pub fn twofa_setup(&self) -> (wishes: Vec<Wish>)
        ensures
            wishes@ == in_session(*self, Call::TwoFaSetup),
    {
        self.ask(Call::TwoFaSetup)
    }

    pub fn twofa_enable(&self, code: &str) -> (wishes: Vec<Wish>)
        ensures
            if self.account.token is Some {
                &&& wishes@.len() == 1
                &&& wishes@[0] matches Wish::Call(Call::TwoFaEnable { code: c })
                &&& c@ == trim(code@)
            } else {
                wishes@.len() == 0
            },
    {
        self.ask(Call::TwoFaEnable { code: trim_text(code) })
    }

    pub fn twofa_disable(&self, code: &str) -> (wishes: Vec<Wish>)
        ensures
            if self.account.token is Some {
                &&& wishes@.len() == 1
                &&& wishes@[0] matches Wish::Call(Call::TwoFaDisable { code: c })
                &&& c@ == trim(code@)
            } else {
                wishes@.len() == 0
            },
    {
        self.ask(Call::TwoFaDisable { code: trim_text(code) })
    }

    /// Keeps the settings, and gives the user another name if there is one in the form.
    pub fn settings_saved(&self) -> (wishes: Vec<Wish>)
        ensures
            wishes@ == seq![Wish::SaveSettings, Wish::UseServer] + (if trim(
                self.texts.display_name_input@,
            ).len() > 0 {
                in_session(
                    *self,
                    Call::UpdateName { display_name: self.texts.display_name_input },
                )
            } else {
                Seq::empty()
            }),
    {
        let mut wishes = two(Wish::SaveSettings, Wish::UseServer);
        let name = trim_text(self.texts.display_name_input.as_str());
        if self.account.token.is_some() && !name.as_str().is_empty() {
            let display_name = self.texts.display_name_input.clone();
            wishes.push(Wish::Call(Call::UpdateName { display_name }));
        }
        proof {
            assert(wishes@ =~= seq![Wish::SaveSettings, Wish::UseServer] + (if trim(
                self.texts.display_name_input@,
            ).len() > 0 {
                in_session(
                    *self,
                    Call::UpdateName { display_name: self.texts.display_name_input },
                )
            } else {
                Seq::empty()
            }));
        }
        wishes
    }

    pub fn remove_avatar(&self) -> (wishes: Vec<Wish>)
        ensures
            if self.account.token is Some {
                &&& wishes@.len() == 1
                &&& wishes@[0] matches Wish::Call(Call::SetAvatar { avatar })
                &&& avatar@.len() == 0
            } else {
                wishes@.len() == 0
            },
    {
        self.ask(Call::SetAvatar { avatar: String::new() })
    }
}

// ---------------------------------------------------------------------------
// Conversations
// ---------------------------------------------------------------------------

/// Another conversation was opened: it counts as read, and its messages are loaded.
pub open spec fn select_step(
    pre: Desktop,
    id: i32,
    now: u64,
    post: Desktop,
    wishes: Seq<Wish>,
) -> bool {
    if id >= 0 {
        &&& wishes == seq![Wish::ShowConversations, Wish::ScrollToEnd] + in_session(
            pre,
            Call::LoadMessages { conversation_id: id as u64 },
        )
        &&& exists|mid: Desktop| #[trigger] header_shown(mid, now, post) && {
            &&& mid == (Desktop {
                talks: Talks { selected: id, unread: mid.talks.unread, ..pre.talks },
                ..pre
            })
            &&& mid.talks.unread@ == pre.talks.unread@.remove(id as u64)
        }
    } else {
        &&& post == (Desktop { talks: Talks { selected: id, ..pre.talks }, ..pre })
        &&& wishes.len() == 0
    }
}

/// The user's own typing is announced in an open conversation, and every two seconds at most.
pub open spec fn announces(d: Desktop, now: u64) -> bool {
    &&& d.talks.selected >= 0
    &&& now >= d.talks.last_typing_sent
    &&& now - d.talks.last_typing_sent >= 2000
}

pub open spec fn typing_step(pre: Desktop, now: u64, post: Desktop, wishes: Seq<Wish>) -> bool {
    if announces(pre, now) {
        &&& post == (Desktop { talks: Talks { last_typing_sent: now, ..pre.talks }, ..pre })
        &&& wishes == seq![Wish::SendTyping { conversation_id: pre.talks.selected as u64 }]
    } else {
        post == pre && wishes.len() == 0
    }
}

/// A file goes with the message that tells of it.
pub open spec fn serves(w: Wish, att: Attachment) -> bool {
    &&& w matches Wish::Serve(f)
    &&& f.file_id == att.file_id
    &&& f.mime == att.mime
    &&& f.name == att.name
    &&& f.size == att.file_size
    &&& f.bytes@ == att.bytes@
}

pub open spec fn sends(w: Wish, conversation: u64, text: Seq<char>, att: Option<Attachment>) -> bool {
    &&& w matches Wish::Call(Call::SendMessage { conversation_id, body, file })
    &&& conversation_id == conversation
    &&& body@ == text
    &&& match (file, att) {
        (None, None) => true,
        (Some(f), Some(a)) => f == (SentFile {
            mime: a.mime,
            name: a.name,
            file_id: a.file_id,
            file_size: a.file_size,
            thumbnail: a.thumbnail,
        }),
        _ => false,
    }
}

/// A message was sent, unless there is nothing to send, nobody to send it to, or another message is
/// being changed.
pub open spec fn send_step(pre: Desktop, text: Seq<char>, post: Desktop, wishes: Seq<Wish>) -> bool {
    let body = trim(text);
    let conv = pre.talks.selected as u64;
    if pre.composer.editing || pre.account.token is None || pre.talks.selected < 0 {
        post == pre && wishes.len() == 0
    } else {
        match pre.store.pending_attach {
            None => {
                &&& post == pre
                &&& if body.len() > 0 {
                    wishes.len() == 1 && sends(wishes[0], conv, body, None)
                } else {
                    wishes.len() == 0
                }
            },
            Some(att) => {
                let own = post.store.own_files@[att.file_id@];
                &&& post == (Desktop {
                    store: Store {
                        pending_attach: None,
                        own_files: post.store.own_files,
                        ..pre.store
                    },
                    texts: Texts {
                        pending_attach_name: post.texts.pending_attach_name,
                        ..pre.texts
                    },
                    ..pre
                })
                &&& post.texts.pending_attach_name@.len() == 0
                &&& post.store.own_files@ == pre.store.own_files@.insert(att.file_id@, own)
                &&& own.thumbnail == att.thumbnail
                &&& own.bytes@ == att.bytes@
                &&& wishes.len() == 3
                &&& serves(wishes[0], att)
                &&& sends(wishes[1], conv, body, Some(att))
                &&& wishes[2] is DropPicked
            },
        }
    }
}

/// A text of the window that tells of an error.
pub open spec fn error_set(pre: Desktop, text: Seq<char>, post: Desktop) -> bool {
    &&& post == (Desktop {
        texts: Texts { error_message: post.texts.error_message, ..pre.texts },
        ..pre
    })
    &&& post.texts.error_message@ == text
}

/// A conversation with the users that were named was asked for, or the entry was refused.
pub open spec fn new_conversation_step(
    pre: Desktop,
    input: Seq<char>,
    post: Desktop,
    wishes: Seq<Wish>,
) -> bool {
    if pre.account.token is None {
        post == pre && wishes.len() == 0
    } else {
        match targets_of(entries(trim(input))) {
            Ok((ids, names)) => if ids.len() == 0 && names.len() == 0 {
                error_set(pre, "enter at least one user id, @handle, or profile URL"@, post)
                    && wishes.len() == 0
            } else {
                &&& error_set(pre, Seq::empty(), post)
                &&& wishes.len() == 1
                &&& wishes[0] matches Wish::Call(Call::CreateConversation { member_ids, handles })
                &&& member_ids@ == ids
                &&& texts(handles@) == names
            },
            Err(t) => error_set(pre, "could not understand '"@ + t + "'"@, post) && wishes.len()
                == 0,
        }
    }
}

/// The position of the first conversation, other than a group, that a user is in; or the number of
/// conversations.
pub open spec fn chat_with(cs: Seq<Conversation>, user: u64) -> int
    decreases cs.len(),
{
    if cs.len() == 0 || is_chat_with(cs[0], user) {
        0
    } else {
        1 + chat_with(cs.drop_first(), user)
    }
}

pub open spec fn is_chat_with(c: Conversation, user: u64) -> bool {
    c.kind@ != "group"@ && member_index(c.members@, user) < c.members@.len()
}

/// The conversation with a user was opened, or asked for where there is none.
pub open spec fn open_chat_step(pre: Desktop, user: i32, post: Desktop, wishes: Seq<Wish>) -> bool {
    let cs = pre.talks.conversations@;
    let i = chat_with(cs, user as u64);
    if user < 0 {
        post == pre && wishes.len() == 0
    } else if i < cs.len() {
        let id = cs[i].id;
        &&& post == (Desktop {
            talks: Talks {
                selected: window_id(id) as i32,
                unread: post.talks.unread,
                ..pre.talks
            },
            texts: Texts { selected_conversation: window_id(id) as i32, ..pre.texts },
            window: Window { profile_open: false, ..pre.window },
            ..pre
        })
        &&& post.talks.unread@ == pre.talks.unread@.remove(id)
        &&& wishes == seq![Wish::ShowConversations, Wish::ScrollToEnd] + in_session(
            pre,
            Call::LoadMessages { conversation_id: id },
        )
    } else {
        &&& post == (Desktop { window: Window { profile_open: false, ..pre.window }, ..pre })
        &&& if pre.account.token is Some {
            &&& wishes.len() == 1
            &&& wishes[0] matches Wish::Call(Call::CreateConversation { member_ids, handles })
            &&& member_ids@ == seq![user as u64]
            &&& handles@.len() == 0
        } else {
            wishes.len() == 0
        }
    }
}

proof fn lemma_chat_with(cs: Seq<Conversation>, user: u64, i: int)
    requires
        0 <= i <= cs.len(),
        forall|j: int| 0 <= j < i ==> !is_chat_with(#[trigger] cs[j], user),
        i < cs.len() ==> is_chat_with(cs[i], user),
    ensures
        chat_with(cs, user) == i,
    decreases i,
{
    if i > 0 {
        assert(!is_chat_with(cs[0], user));
        assert forall|j: int| 0 <= j < i - 1 implies !is_chat_with(
            #[trigger] cs.drop_first()[j],
            user,
        ) by {
            assert(cs.drop_first()[j] == cs[j + 1]);
        }
        lemma_chat_with(cs.drop_first(), user, i - 1);
    }
}

fn find_chat(cs: &Vec<Conversation>, user: u64) -> (r: Option<usize>)
    ensures
        match r {
            Some(i) => i < cs.len() && i == chat_with(cs@, user),
            None => chat_with(cs@, user) == cs@.len(),
        },
{
    let mut i: usize = 0;
    while i < cs.len()
        invariant
            i <= cs.len(),
            forall|j: int| 0 <= j < i ==> !is_chat_with(#[trigger] cs@[j], user),
        decreases cs.len() - i,
    {
        if !same_text(cs[i].kind.as_str(), "group") {
            if find_member(&cs[i].members, user).is_some() {
                proof {
                    lemma_chat_with(cs@, user, i as int);
                }
                return Some(i);
            }
        }
        i += 1;
    }
    proof {
        lemma_chat_with(cs@, user, i as int);
    }
    None
}

impl Desktop {
    /// Opens a conversation.
    pub fn select_conversation(&mut self, id: i32, now: u64) -> (wishes: Vec<Wish>)
        ensures
            select_step(*old(self), id, now, *final(self), wishes@),
    {
        self.talks.selected = id;
        if id < 0 {
            return nothing();
        }
        self.talks.unread.remove(&(id as u64));
        let ghost mid = *self;
        self.refresh_chat_header(now);
        proof {
            assert(header_shown(mid, now, *self));
        }
        let mut wishes = two(Wish::ShowConversations, Wish::ScrollToEnd);
        let mut load = self.ask(Call::LoadMessages { conversation_id: id as u64 });
        wishes.append(&mut load);
        wishes
    }

    /// The text of the message changed.
    pub fn typing_edited(&mut self, now: u64) -> (wishes: Vec<Wish>)
        ensures
            typing_step(*old(self), now, *final(self), wishes@),
    {
        let last = self.talks.last_typing_sent;
        if self.talks.selected < 0 || now < last || now - last < 2000 {
            return nothing();
        }
        self.talks.last_typing_sent = now;
        one(Wish::SendTyping { conversation_id: self.talks.selected as u64 })
    }

    /// Sends a message, and the picked file with it.
    pub fn send_message(&mut self, text: &str) -> (wishes: Vec<Wish>)
        ensures
            send_step(*old(self), text@, *final(self), wishes@),
    {
        if self.composer.editing || self.account.token.is_none() || self.talks.selected < 0 {
            return nothing();
        }
        let conversation_id = self.talks.selected as u64;
        let body = trim_text(text);
        match self.store.pending_attach.take() {
            None => {
                if body.as_str().is_empty() {
                    return nothing();
                }
                one(Wish::Call(Call::SendMessage { conversation_id, body, file: None }))
            },
            Some(att) => {
                let served = ServingFile {
                    file_id: att.file_id.clone(),
                    mime: att.mime.clone(),
                    name: att.name.clone(),
                    size: att.file_size,
                    bytes: copy_bytes(&att.bytes),
                };
                let own = OwnFile { thumbnail: att.thumbnail.clone(), bytes: att.bytes };
                self.store.own_files.insert(att.file_id.clone(), own);
                let file = SentFile {
                    mime: att.mime,
                    name: att.name,
                    file_id: att.file_id,
                    file_size: att.file_size,
                    thumbnail: att.thumbnail,
                };
                self.texts.pending_attach_name = String::new();
                let mut wishes = one(Wish::Serve(served));
                wishes.push(
                    Wish::Call(Call::SendMessage { conversation_id, body, file: Some(file) }),
                );
                wishes.push(Wish::DropPicked);
                wishes
            },
        }
    }

    /// The picked file is not sent after all.
    pub fn clear_attachment(&mut self) -> (wishes: Vec<Wish>)
        ensures
            *final(self) == (Desktop {
                store: Store { pending_attach: None, ..old(self).store },
                texts: Texts {
                    pending_attach_name: final(self).texts.pending_attach_name,
                    ..old(self).texts
                },
                ..*old(self)
            }),
            final(self).texts.pending_attach_name@.len() == 0,
            wishes@ == seq![Wish::DropPicked],
    {
        self.store.pending_attach = None;
        self.texts.pending_attach_name = String::new();
        one(Wish::DropPicked)
    }

    /// Asks for a conversation with the users that are named in a text.
    pub fn new_conversation(&mut self, input: &str) -> (wishes: Vec<Wish>)
        ensures
            new_conversation_step(*old(self), input@, *final(self), wishes@),
    {
        if self.account.token.is_none() {
            return nothing();
        }
        let input = trim_text(input);
        match parse_targets(input.as_str()) {
            Ok((member_ids, handles)) => {
                self.texts.error_message = String::new();
                proof {
                    assert(self.texts.error_message@ =~= Seq::empty());
                }
                one(Wish::Call(Call::CreateConversation { member_ids, handles }))
            },
            Err(text) => {
                self.texts.error_message = text;
                nothing()
            },
        }
    }

    /// Opens the conversation with a user.
    pub fn open_chat(&mut self, user_id: i32) -> (wishes: Vec<Wish>)
        ensures
            open_chat_step(*old(self), user_id, *final(self), wishes@),
    {
        if user_id < 0 {
            return nothing();
        }
        self.window.profile_open = false;
        match find_chat(&self.talks.conversations, user_id as u64) {
            Some(i) => {
                let id = self.talks.conversations[i].id;
                self.talks.selected = to_window_id(id);
                self.talks.unread.remove(&id);
                self.texts.selected_conversation = to_window_id(id);
                let mut wishes = two(Wish::ShowConversations, Wish::ScrollToEnd);
                let mut load = self.ask(Call::LoadMessages { conversation_id: id });
                wishes.append(&mut load);
                wishes
            },
            None => {
                let mut member_ids: Vec<u64> = Vec::new();
                member_ids.push(user_id as u64);
                proof {
                    assert(member_ids@ =~= seq![user_id as u64]);
                }
                self.ask(Call::CreateConversation { member_ids, handles: Vec::new() })
            },
        }
    }

    /// Asks whether the conversation of the context menu is to be deleted.
    pub fn context_delete(&mut self)
        ensures
            ({
                let id = old(self).cards.context_conversation_id;
                let cs = old(self).talks.conversations@;
                if id < 0 {
                    *final(self) == *old(self)
                } else {
                    &&& *final(self) == (Desktop {
                        texts: Texts {
                            confirm_delete_id: id,
                            confirm_delete_title: final(self).texts.confirm_delete_title,
                            ..old(self).texts
                        },
                        window: Window { confirm_delete_open: true, ..old(self).window },
                        ..*old(self)
                    })
                    &&& final(self).texts.confirm_delete_title@ == if holds(cs, id as u64) {
                        title_of(cs[position(cs, id as u64)], old(self).account.self_id)
                    } else {
                        "this conversation"@
                    }
                }
            }),
    {
        let id = self.cards.context_conversation_id;
        if id < 0 {
            return;
        }
        let title = match find(&self.talks.conversations, id as u64) {
            Some(i) => conversation_title(&self.talks.conversations[i], self.account.self_id),
            None => copy_text("this conversation"),
        };
        self.texts.confirm_delete_id = id;
        self.texts.confirm_delete_title = title;
        self.window.confirm_delete_open = true;
    }

    pub fn confirm_delete(&self) -> (wishes: Vec<Wish>)
        ensures
            wishes@ == if self.texts.confirm_delete_id >= 0 {
                in_session(
                    *self,
                    Call::DeleteConversation {
                        conversation_id: self.texts.confirm_delete_id as u64,
                    },
                )
            } else {
                Seq::empty()
            },
    {
        let id = self.texts.confirm_delete_id;
        if id < 0 {
            return nothing();
        }
        self.ask(Call::DeleteConversation { conversation_id: id as u64 })
    }
}

// ---------------------------------------------------------------------------
// The line for new conversations
// ---------------------------------------------------------------------------

/// Whether an entry stays when a suggestion is taken up: one that was only begun does not.
pub open spec fn stays(s: Seq<char>) -> bool {
    s.len() > 0 && s != "@"@ && !(has_prefix(s, "@"@) && count_char(s, '@') < 2)
}

pub open spec fn staying(fs: Seq<Seq<char>>) -> Seq<Seq<char>>
    decreases fs.len(),
{
    if fs.len() == 0 {
        Seq::empty()
    } else if stays(fs.last()) {
        staying(fs.drop_last()).push(fs.last())
    } else {
        staying(fs.drop_last())
    }
}

/// The line once a suggestion was taken up.
pub open spec fn with_suggestion(input: Seq<char>, handle: Seq<char>) -> Seq<char> {
    joined(staying(fragments(input)).push(handle), ", "@)
}

pub open spec fn suggestion_step(pre: Desktop, id: i32, post: Desktop, wishes: Seq<Wish>) -> bool {
    let cs = pre.talks.contacts@;
    let user = id_of_window(id) as u64;
    if holds(cs, user) {
        let line = with_suggestion(
            pre.texts.new_conversation_input@,
            cs[position(cs, user)].handle@,
        );
        &&& post == (Desktop {
            texts: Texts {
                new_conversation_input: post.texts.new_conversation_input,
                error_message: post.texts.error_message,
                ..pre.texts
            },
            ..pre
        })
        &&& post.texts.new_conversation_input@ == line
        &&& post.texts.error_message@.len() == 0
        &&& wishes.len() == 1
        &&& wishes[0] matches Wish::PlaceCursor { at }
        &&& at == line.len()
    } else {
        error_set(pre, "contact not found"@, post) && wishes.len() == 0
    }
}

fn entry_stays(s: &str) -> (b: bool)
    ensures
        b == stays(s@),
{
    !s.is_empty() && !same_text(s, "@") && !(starts_with(s, "@") && count_of(s, '@') < 2)
}

fn staying_entries(fs: &Vec<String>) -> (r: Vec<String>)
    ensures
        texts(r@) == staying(texts(fs@)),
{
    let ghost all = texts(fs@);
    let mut r: Vec<String> = Vec::new();
    let mut i: usize = 0;
    proof {
        assert(texts(r@) =~= Seq::empty());
    }
    while i < fs.len()
        invariant
            i <= fs.len(),
            all == texts(fs@),
            texts(r@) == staying(all.take(i as int)),
        decreases fs.len() - i,
    {
        proof {
            assert(all.take(i + 1).drop_last() =~= all.take(i as int));
            assert(all.take(i + 1).last() == fs@[i as int]@);
        }
        if entry_stays(fs[i].as_str()) {
            let ghost sofar = r@;
            r.push(fs[i].clone());
            proof {
                assert(texts(r@) =~= texts(sofar).push(fs@[i as int]@));
            }
        }
        i += 1;
    }
    proof {
        assert(all.take(i as int) =~= all);
    }
    r
}

impl Desktop {
    /// Takes a suggestion up into the line for new conversations.
    pub fn suggestion_selected(&mut self, id: i32) -> (wishes: Vec<Wish>)
        ensures
            suggestion_step(*old(self), id, *final(self), wishes@),
    {
        match find(&self.talks.contacts, from_window_id(id)) {
            Some(i) => {
                let fs = read_fragments(self.texts.new_conversation_input.as_str());
                let mut parts = staying_entries(&fs);
                let ghost sofar = parts@;
                let handle = self.talks.contacts[i].handle.clone();
                let ghost h = handle@;
                parts.push(handle);
                proof {
                    assert(texts(parts@) =~= texts(sofar).push(h));
                }
                let line = join_texts(&parts, ", ");
                let at: usize = chars_of(line.as_str()).len();
                self.texts.new_conversation_input = line;
                self.texts.error_message = String::new();
                one(Wish::PlaceCursor { at })
            },
            None => {
                self.texts.error_message = copy_text("contact not found");
                nothing()
            },
        }
    }
}

// ---------------------------------------------------------------------------
// Other users
// ---------------------------------------------------------------------------

/// The user that blocking and muting is about: that of the open card, or of the context menu.
pub open spec fn subject(d: Desktop) -> (int, bool, bool) {
    if d.window.profile_open {
        match d.cards.profile {
            Some(p) => (p.id as int, p.blocked, p.muted),
            None => (0, false, false),
        }
    } else {
        (d.cards.context_user_id as int, d.cards.context_blocked, d.cards.context_muted)
    }
}

/// A user is to be treated as `verb` says, if there is a session and a user.
pub open spec fn moderates(d: Desktop, user: int, word: Seq<char>, wishes: Seq<Wish>) -> bool {
    if user >= 0 && d.account.token is Some {
        &&& wishes.len() == 1
        &&& wishes[0] matches Wish::Call(Call::Moderate { user_id, verb })
        &&& user_id == user
        &&& verb@ == word
    } else {
        wishes.len() == 0
    }
}

/// The user that the card or the menu is about is to be blocked, or let back in.
pub open spec fn block_turned(d: Desktop, wishes: Seq<Wish>) -> bool {
    moderates(
        d,
        subject(d).0,
        if subject(d).1 {
            "unblock"@
        } else {
            "block"@
        },
        wishes,
    )
}

/// The user that the card or the menu is about is to be muted, or heard again.
pub open spec fn mute_turned(d: Desktop, wishes: Seq<Wish>) -> bool {
    moderates(
        d,
        subject(d).0,
        if subject(d).2 {
            "unmute"@
        } else {
            "mute"@
        },
        wishes,
    )
}

impl Desktop {
    fn current_subject(&self) -> (r: (i32, bool, bool))
        ensures
            (r.0 as int, r.1, r.2) == subject(*self),
    {
        if self.window.profile_open {
            match &self.cards.profile {
                Some(p) => (p.id, p.blocked, p.muted),
                None => (0, false, false),
            }
        } else {
            (self.cards.context_user_id, self.cards.context_blocked, self.cards.context_muted)
        }
    }

    pub fn request_profile(&self, user_id: i32) -> (wishes: Vec<Wish>)
        ensures
            wishes@ == if user_id >= 0 {
                in_session(*self, Call::LoadProfile { user_id: user_id as u64 })
            } else {
                Seq::empty()
            },
    {
        if user_id < 0 {
            return nothing();
        }
        self.ask(Call::LoadProfile { user_id: user_id as u64 })
    }

    /// Opens the context menu: that of a user once the profile is there, that of a conversation with
    /// nobody else at once.
    pub fn request_context(&mut self, user_id: i32, conversation_id: i32, spot: Spot) -> (wishes: Vec<
        Wish,
    >)
        ensures
            *final(self) == (Desktop {
                cards: Cards {
                    context_user_id: user_id,
                    context_conversation_id: conversation_id,
                    context_spot: spot,
                    ..old(self).cards
                },
                window: Window {
                    context_open: old(self).window.context_open || user_id < 0,
                    ..old(self).window
                },
                ..*old(self)
            }),
            wishes@ == if user_id >= 0 {
                in_session(*old(self), Call::LoadContextProfile { user_id: user_id as u64 })
            } else {
                Seq::empty()
            },
    {
        self.cards.context_user_id = user_id;
        self.cards.context_conversation_id = conversation_id;
        self.cards.context_spot = spot;
        if user_id >= 0 {
            self.ask(Call::LoadContextProfile { user_id: user_id as u64 })
        } else {
            self.window.context_open = true;
            nothing()
        }
    }

    /// Shows the user of the context menu.
    pub fn context_profile(&self) -> (wishes: Vec<Wish>)
        ensures
            wishes@ == if self.cards.context_user_id >= 0 {
                in_session(*self, Call::LoadProfile { user_id: self.cards.context_user_id as u64 })
            } else {
                Seq::empty()
            },
    {
        self.request_profile(self.cards.context_user_id)
    }

    pub fn toggle_block(&self) -> (wishes: Vec<Wish>)
        ensures
            block_turned(*self, wishes@),
    {
        let (id, blocked, _) = self.current_subject();
        if id < 0 {
            return nothing();
        }
        let verb = if blocked {
            copy_text("unblock")
        } else {
            copy_text("block")
        };
        self.ask(Call::Moderate { user_id: id as u64, verb })
    }

    pub fn toggle_mute(&self) -> (wishes: Vec<Wish>)
        ensures
            mute_turned(*self, wishes@),
    {
        let (id, _, muted) = self.current_subject();
        if id < 0 {
            return nothing();
        }
        let verb = if muted {
            copy_text("unmute")
        } else {
            copy_text("mute")
        };
        self.ask(Call::Moderate { user_id: id as u64, verb })
    }
}

// ---------------------------------------------------------------------------
// Messages
// ---------------------------------------------------------------------------

/// What opening the file of a message asks for; an empty one has nothing to show.
pub open spec fn open_wishes(d: Desktop, m: ApiMsg, wishes: Seq<Wish>) -> bool {
    let kind = or_empty(m.attachment_mime);
    let title = or_empty(m.attachment_name);
    match m.file_id {
        Some(f) => {
            let retry = seq![Wish::RetryFetch { file_id: f, sender_id: m.sender_id }];
            if d.account.self_id == Some(m.sender_id) {
                if d.store.own_files@.contains_key(f@) && d.store.own_files@[f@].bytes@.len() == 0 {
                    wishes.len() == 0
                } else if d.store.own_files@.contains_key(f@) {
                    &&& wishes.len() == 1
                    &&& wishes[0] matches Wish::OpenBytes { mime, name, bytes }
                    &&& mime@ == kind && name@ == title
                    &&& bytes@ == d.store.own_files@[f@].bytes@
                } else {
                    wishes == retry
                }
            } else if d.store.downloaded@.contains_key(f@) {
                match d.store.downloaded@[f@].path {
                    Some(p) => {
                        &&& wishes.len() == 1
                        &&& wishes[0] matches Wish::OpenStored {
                            path,
                            mime,
                            name,
                            file_id,
                            sender_id,
                        }
                        &&& path == p && file_id == f && sender_id == m.sender_id
                        &&& mime@ == kind && name@ == title
                    },
                    None => wishes == retry,
                }
            } else {
                wishes == retry
            }
        },
        None => match m.attachment_data {
            Some(a) => {
                &&& wishes.len() == 1
                &&& wishes[0] matches Wish::OpenData { mime, name, data }
                &&& mime@ == kind && name@ == title && data == a
            },
            None => wishes.len() == 0,
        },
    }
}

/// Nothing is being changed any more.
pub open spec fn edit_over(pre: Desktop, post: Desktop) -> bool {
    &&& post == (Desktop {
        composer: Composer {
            editing: false,
            editing_id: (-1) as i32,
            editing_body: post.composer.editing_body,
            draft: post.composer.draft,
            ..pre.composer
        },
        ..pre
    })
    &&& post.composer.editing_body@.len() == 0
    &&& post.composer.draft@.len() == 0
}

/// A message of the user's own is being changed.
pub open spec fn edit_begun(pre: Desktop, msg_id: i32, post: Desktop) -> bool {
    let msgs = pre.talks.messages@;
    let id = id_of_window(msg_id) as u64;
    let m = msgs[position(msgs, id)];
    post == if holds(msgs, id) && pre.account.self_id == Some(m.sender_id) {
        Desktop {
            composer: Composer {
                editing: true,
                editing_id: msg_id,
                editing_body: m.body,
                draft: m.body,
                ..pre.composer
            },
            ..pre
        }
    } else {
        pre
    }
}

/// The changed message goes out, unless nothing is left of it.
pub open spec fn edit_sent(d: Desktop, text: Seq<char>, wishes: Seq<Wish>) -> bool {
    if trim(text).len() > 0 && d.composer.editing_id >= 0 && d.account.token is Some
        && d.talks.selected >= 0 {
        &&& wishes.len() == 1
        &&& wishes[0] matches Wish::Call(Call::EditMessage { conversation_id, message_id, body })
        &&& conversation_id == d.talks.selected
        &&& message_id == d.composer.editing_id
        &&& body@ == trim(text)
    } else {
        wishes.len() == 0
    }
}

/// A message of the open conversation is to be deleted.
pub open spec fn deletes(d: Desktop, msg_id: i32, wishes: Seq<Wish>) -> bool {
    wishes == if d.talks.selected >= 0 {
        in_session(
            d,
            Call::DeleteMessage {
                conversation_id: d.talks.selected as u64,
                message_id: id_of_window(msg_id) as u64,
            },
        )
    } else {
        Seq::empty()
    }
}

impl Desktop {
    fn open_file(&self, m: &ApiMsg) -> (wishes: Vec<Wish>)
        ensures
            open_wishes(*self, *m, wishes@),
    {
        let mime = text_or_empty(&m.attachment_mime);
        let name = text_or_empty(&m.attachment_name);
        match &m.file_id {
            Some(f) => {
                let sender_id = m.sender_id;
                if is_me(self.account.self_id, sender_id) {
                    match self.store.own_files.get(f) {
                        Some(o) => {
                            if o.bytes.len() == 0 {
                                return nothing();
                            }
                            return one(
                                Wish::OpenBytes { mime, name, bytes: copy_bytes(&o.bytes) },
                            );
                        },
                        None => {},
                    }
                } else {
                    match self.store.downloaded.get(f) {
                        Some(kept) => match &kept.path {
                            Some(p) => {
                                return one(
                                    Wish::OpenStored {
                                        path: p.clone(),
                                        mime,
                                        name,
                                        file_id: f.clone(),
                                        sender_id,
                                    },
                                );
                            },
                            None => {},
                        },
                        None => {},
                    }
                }
                one(Wish::RetryFetch { file_id: f.clone(), sender_id })
            },
            None => match &m.attachment_data {
                Some(a) => one(Wish::OpenData { mime, name, data: a.clone() }),
                None => nothing(),
            },
        }
    }

    /// Opens the file of a message.
    pub fn open_image(&self, id: i32) -> (wishes: Vec<Wish>)
        ensures
            ({
                let msgs = self.talks.messages@;
                if id >= 0 && holds(msgs, id as u64) {
                    open_wishes(*self, msgs[position(msgs, id as u64)], wishes@)
                } else {
                    wishes@.len() == 0
                }
            }),
    {
        if id < 0 {
            return nothing();
        }
        match find(&self.talks.messages, id as u64) {
            Some(i) => self.open_file(&self.talks.messages[i]),
            None => nothing(),
        }
    }

    /// Begins to change a message of the user's own.
    pub fn msg_context_edit(&mut self, msg_id: i32)
        ensures
            edit_begun(*old(self), msg_id, *final(self)),
    {
        match find(&self.talks.messages, from_window_id(msg_id)) {
            Some(i) => {
                if is_me(self.account.self_id, self.talks.messages[i].sender_id) {
                    let body = self.talks.messages[i].body.clone();
                    self.composer.editing = true;
                    self.composer.editing_id = msg_id;
                    self.composer.editing_body = body.clone();
                    self.composer.draft = body;
                }
            },
            None => {},
        }
    }

    pub fn msg_context_delete(&self, msg_id: i32) -> (wishes: Vec<Wish>)
        ensures
            deletes(*self, msg_id, wishes@),
    {
        let conv = self.talks.selected;
        if conv < 0 {
            return nothing();
        }
        self.ask(
            Call::DeleteMessage {
                conversation_id: conv as u64,
                message_id: from_window_id(msg_id),
            },
        )
    }

    pub fn cancel_edit(&mut self)
        ensures
            edit_over(*old(self), *final(self)),
    {
        self.composer.editing = false;
        self.composer.editing_id = -1;
        self.composer.editing_body = String::new();
        self.composer.draft = String::new();
    }

    /// Sends the changed message, unless nothing is left of it.
    pub fn confirm_edit(&mut self, text: &str) -> (wishes: Vec<Wish>)
        ensures
            edit_over(*old(self), *final(self)),
            edit_sent(*old(self), text@, wishes@),
    {
        let id = self.composer.editing_id;
        let body = trim_text(text);
        self.cancel_edit();
        if body.as_str().is_empty() || id < 0 || self.talks.selected < 0 {
            return nothing();
        }
        self.ask(
            Call::EditMessage {
                conversation_id: self.talks.selected as u64,
                message_id: id as u64,
                body,
            },
        )
    }

    /// Shows what a changed message said at first.
    pub fn show_original(&mut self, body: String)
        ensures
            *final(self) == (Desktop {
                composer: Composer { original_text: body, original_open: true, ..old(self).composer },
                ..*old(self)
            }),
    {
        self.composer.original_text = body;
        self.composer.original_open = true;
    }
}

/// Two announcements of the user's typing lie at least two seconds apart.
pub proof fn typing_is_not_announced_twice(
    d0: Desktop,
    t1: u64,
    d1: Desktop,
    w1: Seq<Wish>,
    t2: u64,
    d2: Desktop,
    w2: Seq<Wish>,
)
    requires
        typing_step(d0, t1, d1, w1),
        typing_step(d1, t2, d2, w2),
        w1.len() > 0,
        w2.len() > 0,
    ensures
        t2 >= t1 + 2000,
{
}

/// While a message is being changed, no other one is sent.
pub proof fn nothing_is_sent_while_editing(pre: Desktop, text: Seq<char>, post: Desktop, w: Seq<Wish>)
    requires
        send_step(pre, text, post, w),
        pre.composer.editing,
    ensures
        post == pre,
        w.len() == 0,
{
}

} // verus!
