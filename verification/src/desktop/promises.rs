//! What the desktop client promises its user, event by event.

use vstd::prelude::*;

use crate::chat::files::is_image_mime;
use crate::chat::types::{ApiMsg, Attachment, Conversation, Member, Profile, User};
use crate::desktop::events::{
    event_step, partners, partners_in, present, AccountEvent, Event, FileEvent, PeopleEvent,
    TalkEvent, Task,
};
use crate::desktop::requests::{presence_of, Call};
use crate::desktop::settings::is_fresh;
use crate::desktop::state::{
    is_online, online_count, other_ids, status_of, window_id, Desktop, Preview, Talks,
};
use crate::desktop::ui::{fragments, lookups};
use crate::desktop::window::{
    block_turned, chat_with, deletes, edit_begun, edit_over, edit_sent, mute_turned,
    new_conversation_step, open_chat_step, open_wishes, select_step, send_step, staying, stays,
    suggestion_step, typing_step, Wish,
};
use crate::identity::{entries, targets_of};
use crate::links::first_link;
use crate::number::{decimal, decimals_are_read_back};
use crate::ordered::{
    holds, others_are_left, position, sorted, sorting_keeps_everything, sorting_sorts,
    swapping_takes_the_place, the_first_is_found, Identified,
};
use crate::text::{joined, texts, trim};

verus! {

// ---------------------------------------------------------------------------
// Messages
// ---------------------------------------------------------------------------

/// The open conversation, as the window counts them.
pub open spec fn is_open(d: Desktop, conversation_id: u64) -> bool {
    d.talks.selected == window_id(conversation_id)
}

/// A message that comes, that was sent or that was edited shows in the open conversation as it is:
/// in the place of the one with its id, or else among the others; no other message is lost.
pub proof fn messages_show(
    pre: Desktop,
    ev: TalkEvent,
    m: ApiMsg,
    now: u64,
    post: Desktop,
    tasks: Seq<Task>,
    k: int,
)
    requires
        ev == TalkEvent::MessageSent(m) || ev == TalkEvent::WsMessage(m) || ev
            == TalkEvent::WsMessageEdited(m),
        event_step(pre, Event::Talk(ev), now, post, tasks),
        is_open(pre, m.conversation_id),
    ensures
        post.talks.messages@.contains(m),
        0 <= k < pre.talks.messages@.len() && pre.talks.messages@[k].id != m.id
            ==> post.talks.messages@.contains(pre.talks.messages@[k]),
        (exists|i: int| 0 <= i < pre.talks.messages@.len() && (#[trigger] pre.talks.messages@[i]).id
            == m.id) ==> post.talks.messages@.len() == pre.talks.messages@.len(),
        (forall|i: int| 0 <= i < pre.talks.messages@.len() ==> (#[trigger] pre.talks.messages@[i]).id
            != m.id) ==> post.talks.messages@.len() == pre.talks.messages@.len() + 1,
        tasks.contains(Task::ShowMessages),
{
    let old_list = pre.talks.messages@;
    let new_list = post.talks.messages@;
    if holds(old_list, m.id) {
        swapping_takes_the_place(old_list, m);
        let i = choose|i: int| 0 <= i < old_list.len() && #[trigger] new_list[i] == m;
        assert(new_list[i] == m);
        if 0 <= k < old_list.len() && old_list[k].id != m.id {
            assert(old_list[k].id != m.id);
            assert(new_list[k] == old_list[k]);
        }
        let j = choose|j: int| 0 <= j < old_list.len() && (#[trigger] old_list[j]).id == m.id;
        assert(old_list[j].id == m.id);
    } else {
        let with = old_list.push(m);
        sorting_keeps_everything(with, m);
        assert(with[old_list.len() as int] == m);
        if 0 <= k < old_list.len() {
            sorting_keeps_everything(with, old_list[k]);
            assert(with[k] == old_list[k]);
        }
        assert forall|i: int| 0 <= i < old_list.len() implies (#[trigger] old_list[i]).id != m.id by {}
    }
    match ev {
        TalkEvent::WsMessage(_) => {
            assert(tasks[tasks.len() - 2] == Task::ShowMessages);
        },
        _ => {
            assert(tasks[0] == Task::ShowMessages);
        },
    }
}

/// A message of another conversation does not get into the open one. It counts as unread where
/// somebody else wrote it, and nowhere else.
pub proof fn other_conversations_count(
    pre: Desktop,
    m: ApiMsg,
    now: u64,
    post: Desktop,
    tasks: Seq<Task>,
    other: u64,
)
    requires
        event_step(pre, Event::Talk(TalkEvent::WsMessage(m)), now, post, tasks),
        !is_open(pre, m.conversation_id),
        other != m.conversation_id,
    ensures
        post.talks.messages@ == pre.talks.messages@,
        pre.account.self_id != Some(m.sender_id) ==> post.talks.unread@.contains_key(
            m.conversation_id,
        ) && (!pre.talks.unread@.contains_key(m.conversation_id)
            ==> post.talks.unread@[m.conversation_id] == 1) && (pre.talks.unread@.contains_key(
            m.conversation_id,
        ) && pre.talks.unread@[m.conversation_id] < u32::MAX
            ==> post.talks.unread@[m.conversation_id] == pre.talks.unread@[m.conversation_id] + 1)
            && tasks.contains(Task::ShowConversations),
        pre.account.self_id == Some(m.sender_id) ==> post.talks.unread@ == pre.talks.unread@,
        post.talks.unread@.contains_key(other) == pre.talks.unread@.contains_key(other),
        (forall|i: int|
            0 <= i < pre.talks.conversations@.len() ==> (#[trigger] pre.talks.conversations@[i]).id
                != m.conversation_id) ==> tasks.contains(Task::LoadConversations),
{
    if pre.account.self_id != Some(m.sender_id) {
        assert(tasks[tasks.len() - 3] == Task::ShowConversations);
    }
    if forall|i: int|
        0 <= i < pre.talks.conversations@.len() ==> (#[trigger] pre.talks.conversations@[i]).id
            != m.conversation_id {
        assert(!holds(pre.talks.conversations@, m.conversation_id));
        assert(tasks[0] == Task::LoadConversations);
    }
}

/// A message that comes to the open conversation leaves nothing unread in it.
pub proof fn open_conversations_are_read(
    pre: Desktop,
    m: ApiMsg,
    now: u64,
    post: Desktop,
    tasks: Seq<Task>,
)
    requires
        event_step(pre, Event::Talk(TalkEvent::WsMessage(m)), now, post, tasks),
        is_open(pre, m.conversation_id),
    ensures
        !post.talks.unread@.contains_key(m.conversation_id),
        tasks.last() == Task::FollowEnd,
{
}

/// A deleted message of the open conversation is gone and the others stay; elsewhere nothing changes.
pub proof fn deletions_show(
    pre: Desktop,
    conversation_id: u64,
    message_id: u64,
    now: u64,
    post: Desktop,
    tasks: Seq<Task>,
)
    requires
        event_step(
            pre,
            Event::Talk(TalkEvent::WsMessageDeleted { conversation_id, message_id }),
            now,
            post,
            tasks,
        ),
    ensures
        is_open(pre, conversation_id) ==> {
            &&& forall|i: int|
                0 <= i < post.talks.messages@.len() ==> (#[trigger] post.talks.messages@[i]).id
                    != message_id && pre.talks.messages@.contains(post.talks.messages@[i])
            &&& forall|k: int|
                0 <= k < pre.talks.messages@.len() && (#[trigger] pre.talks.messages@[k]).id
                    != message_id ==> post.talks.messages@.contains(pre.talks.messages@[k])
        },
        !is_open(pre, conversation_id) ==> post.talks.messages@ == pre.talks.messages@,
        tasks == seq![Task::ShowMessages],
{
    others_are_left(pre.talks.messages@, message_id);
    assert forall|i: int| 0 <= i < pre.talks.messages@.len() implies (
    #[trigger] pre.talks.messages@[i]).id == crate::ordered::Identified::ident(
        &pre.talks.messages@[i],
    ) by {}
    let after = crate::ordered::others(pre.talks.messages@, message_id);
    assert forall|i: int| 0 <= i < after.len() implies (#[trigger] after[i]).id != message_id by {
        assert(crate::ordered::Identified::ident(&after[i]) != message_id);
    }
}

/// The messages that were loaded for the open conversation are the ones that are shown, in the order
/// of their ids; those of another conversation are not.
pub proof fn loaded_messages_show(
    pre: Desktop,
    conversation_id: u64,
    messages: Vec<ApiMsg>,
    now: u64,
    post: Desktop,
    tasks: Seq<Task>,
    m: ApiMsg,
)
    requires
        event_step(
            pre,
            Event::Talk(TalkEvent::Messages { conversation_id, messages }),
            now,
            post,
            tasks,
        ),
    ensures
        is_open(pre, conversation_id) ==> (post.talks.messages@.contains(m) <==> messages@.contains(m))
            && post.talks.messages@.len() == messages@.len() && (forall|i: int, j: int|
            0 <= i <= j < post.talks.messages@.len() ==> (#[trigger] post.talks.messages@[i]).id <= (
            #[trigger] post.talks.messages@[j]).id) && tasks.contains(Task::ShowMessages),
        !is_open(pre, conversation_id) ==> post == pre && tasks.len() == 0,
{
    sorting_keeps_everything(messages@, m);
    sorting_sorts(messages@);
    if is_open(pre, conversation_id) {
        assert(tasks[0] == Task::ShowMessages);
        let all = sorted(messages@);
        assert forall|i: int, j: int| 0 <= i <= j < all.len() implies (#[trigger] all[i]).id <= (
        #[trigger] all[j]).id by {
            assert(crate::ordered::Identified::ident(&all[i]) <= crate::ordered::Identified::ident(
                &all[j],
            ));
        }
    }
}

/// A conversation that was made is listed and opened, and its messages are loaded.
pub proof fn made_conversations_are_opened(
    pre: Desktop,
    c: Conversation,
    now: u64,
    post: Desktop,
    tasks: Seq<Task>,
)
    requires
        event_step(pre, Event::Talk(TalkEvent::ConversationCreated(c)), now, post, tasks),
    ensures
        post.talks.conversations@.contains(c),
        is_open(post, c.id),
        post.talks.messages@.len() == 0,
        post.texts.new_conversation_input@.len() == 0,
        tasks.last() == (Task::LoadMessages { conversation_id: c.id }),
{
    let s = pre.talks.conversations@;
    if holds(s, c.id) {
        swapping_takes_the_place(s, c);
        let t = crate::ordered::swapped(s, c);
        let i = choose|i: int| 0 <= i < s.len() && #[trigger] t[i] == c;
        assert(t[i] == c);
        sorting_keeps_everything(t, c);
    } else {
        let t = s.push(c);
        assert(t[s.len() as int] == c);
        sorting_keeps_everything(t, c);
    }
}

/// A conversation that was deleted is gone and the others stay; if it was open, it is closed.
pub proof fn deleted_conversations_are_gone(
    pre: Desktop,
    id: u64,
    now: u64,
    post: Desktop,
    tasks: Seq<Task>,
)
    requires
        event_step(pre, Event::Talk(TalkEvent::ConversationDeleted(id)), now, post, tasks),
    ensures
        forall|i: int|
            0 <= i < post.talks.conversations@.len() ==> (#[trigger] post.talks.conversations@[i]).id
                != id,
        forall|k: int|
            0 <= k < pre.talks.conversations@.len() && (#[trigger] pre.talks.conversations@[k]).id != id
                ==> post.talks.conversations@.contains(pre.talks.conversations@[k]),
        is_open(pre, id) ==> post.talks.selected == -1 && post.talks.messages@.len() == 0,
        !is_open(pre, id) ==> post.talks.selected == pre.talks.selected && post.talks.messages@
            == pre.talks.messages@,
{
    others_are_left(pre.talks.conversations@, id);
    let after = crate::ordered::others(pre.talks.conversations@, id);
    assert forall|i: int| 0 <= i < after.len() implies (#[trigger] after[i]).id != id by {
        assert(crate::ordered::Identified::ident(&after[i]) != id);
    }
}

proof fn lemma_partners_in(ms: Seq<Member>, me: Option<u64>, k: int)
    requires
        0 <= k < ms.len(),
        me != Some(ms[k].id),
    ensures
        partners_in(ms, me).contains(ms[k].id),
    decreases ms.len(),
{
    let init = ms.drop_last();
    let rest = partners_in(init, me);
    let all = partners_in(ms, me);
    if k < init.len() {
        assert(init[k] == ms[k]);
        lemma_partners_in(init, me, k);
        let i = choose|i: int| 0 <= i < rest.len() && rest[i] == ms[k].id;
        assert(all[i] == ms[k].id);
    } else {
        assert(all[all.len() - 1] == ms[k].id);
    }
}

proof fn lemma_partners(cs: Seq<Conversation>, me: Option<u64>, c: int, k: int)
    requires
        0 <= c < cs.len(),
        0 <= k < cs[c].members@.len(),
        me != Some(cs[c].members@[k].id),
    ensures
        partners(cs, me).contains(cs[c].members@[k].id),
    decreases cs.len(),
{
    let init = cs.drop_last();
    let rest = partners(init, me);
    let more = partners_in(cs.last().members@, me);
    let all = partners(cs, me);
    let id = cs[c].members@[k].id;
    if c < init.len() {
        assert(init[c] == cs[c]);
        lemma_partners(init, me, c, k);
        let i = choose|i: int| 0 <= i < rest.len() && rest[i] == id;
        assert(all[i] == id);
    } else {
        lemma_partners_in(cs.last().members@, me, k);
        let i = choose|i: int| 0 <= i < more.len() && more[i] == id;
        assert(all[rest.len() + i] == id);
    }
}

/// Once conversations were loaded, everyone else in them is asked about.
pub proof fn everyone_is_asked_about(
    pre: Desktop,
    list: Vec<Conversation>,
    now: u64,
    post: Desktop,
    tasks: Seq<Task>,
    c: int,
    k: int,
)
    requires
        event_step(pre, Event::Talk(TalkEvent::Conversations(list)), now, post, tasks),
        0 <= c < post.talks.conversations@.len(),
        0 <= k < post.talks.conversations@[c].members@.len(),
        pre.account.self_id != Some(post.talks.conversations@[c].members@[k].id),
    ensures
        tasks.len() == 2,
        tasks[0] == Task::ShowConversations,
        tasks[1] matches Task::LoadPresence { ids } && ids@.contains(
            post.talks.conversations@[c].members@[k].id,
        ),
{
    lemma_partners(post.talks.conversations@, pre.account.self_id, c, k);
}

// ---------------------------------------------------------------------------
// The account
// ---------------------------------------------------------------------------

/// An account that logs in is led by what is missing, the session is the one that came, and it is
/// kept just where the user asked for that.
pub proof fn accounts_are_led_by_what_is_missing(
    pre: Desktop,
    token: String,
    user: User,
    now: u64,
    post: Desktop,
    tasks: Seq<Task>,
)
    requires
        event_step(pre, Event::Account(AccountEvent::LoggedIn { token, user }), now, post, tasks),
    ensures
        post.account.token == Some(token),
        post.account.self_id == Some(user.id),
        post.window.logged_in,
        post.window.needs_verify == !user.email_verified,
        post.window.needs_2fa_setup == (user.email_verified && !user.totp_enabled),
        !post.window.needs_2fa,
        tasks.contains(Task::SetToken(Some(token))),
        pre.account.remember_me ==> tasks.contains(Task::SaveSession { token }),
        !pre.account.remember_me ==> tasks.contains(Task::ClearSession) && !tasks.contains(
            Task::SaveSession { token },
        ),
        user.email_verified && user.totp_enabled <==> tasks.last() == Task::LoadConversations,
        post.talks.conversations@.len() == 0 && post.talks.messages@.len() == 0,
        post.texts.user_name == user.username,
        post.texts.error_message@.len() == 0,
{
    assert(tasks[2] == Task::SetToken(Some(token)));
    if pre.account.remember_me {
        assert(tasks[1] == Task::SaveSession { token });
    } else {
        assert(tasks[1] == Task::ClearSession);
        assert forall|i: int| 0 <= i < tasks.len() implies tasks[i] != (Task::SaveSession { token }) by {}
    }
}

/// A second factor is asked for with the token that came for it, a new one is set up with what came
/// for it, and errors and news are shown as they came.
pub proof fn account_news_are_shown(
    pre: Desktop,
    ev: AccountEvent,
    now: u64,
    post: Desktop,
    tasks: Seq<Task>,
)
    requires
        event_step(pre, Event::Account(ev), now, post, tasks),
    ensures
        ev matches AccountEvent::TwoFaRequired { pending_token } ==> post.window.needs_2fa
            && post.texts.pending_token == pending_token && post.account == pre.account,
        ev matches AccountEvent::TwoFaSetup { secret, qr } ==> post.window.twofa_setup_open
            && post.texts.twofa_secret == secret && tasks == seq![Task::ShowCode { qr }],
        ev matches AccountEvent::Error(m) ==> post.texts.error_message@ == m@ && post.account
            == pre.account && tasks.len() == 0,
        ev matches AccountEvent::AuthFailed(m) ==> post.texts.error_message@ == m@ && post.account
            == pre.account && tasks.len() == 0,
        ev matches AccountEvent::Info(m) ==> post.texts.info_message == m,
        ev matches AccountEvent::Verified(user) ==> (user.email_verified
            ==> !post.window.needs_verify && post.window.needs_2fa_setup == !user.totp_enabled && (
        user.totp_enabled ==> tasks == seq![Task::LoadConversations])) && (!user.email_verified
            ==> post == pre),
        ev matches AccountEvent::UserUpdated(user) ==> post.window.totp_enabled == user.totp_enabled
            && post.texts.display_name_input == user.display_name && (user.totp_enabled
            ==> !post.window.needs_2fa_setup && !post.window.twofa_setup_open) && (user.avatar_url matches Some(
            url,
        ) ==> tasks.contains(Task::ShowOwnAvatar { user_id: user.id, url })) && (
        user.avatar_url is None ==> tasks.contains(Task::DropOwnAvatar { user_id: user.id })),
        ev matches AccountEvent::UploadAvatar { server, token, data_url } ==> tasks == seq![
            Task::SetAvatar { server, token, data_url },
        ],
{
    match ev {
        AccountEvent::UserUpdated(user) => {
            match user.avatar_url {
                Some(url) => {
                    assert(tasks[0] == Task::ShowOwnAvatar { user_id: user.id, url });
                },
                None => {
                    assert(tasks[0] == Task::DropOwnAvatar { user_id: user.id });
                },
            }
        },
        _ => {},
    }
}

// ---------------------------------------------------------------------------
// Other users
// ---------------------------------------------------------------------------

proof fn lemma_present(p: Map<u64, bool>, news: Seq<(u64, bool)>, id: u64)
    ensures
        (forall|i: int| 0 <= i < news.len() ==> (#[trigger] news[i]).0 != id) ==> (present(
            p,
            news,
        ).contains_key(id) == p.contains_key(id) && (p.contains_key(id) ==> present(p, news)[id]
            == p[id])),
        (exists|i: int| 0 <= i < news.len() && (#[trigger] news[i]).0 == id) ==> present(
            p,
            news,
        ).contains_key(id) && exists|i: int|
            0 <= i < news.len() && #[trigger] news[i] == (id, present(p, news)[id]),
    decreases news.len(),
{
    if news.len() > 0 {
        let init = news.drop_last();
        lemma_present(p, init, id);
        assert forall|i: int| 0 <= i < init.len() implies news[i] == #[trigger] init[i] by {}
        if news.last().0 == id {
            assert(news[news.len() - 1] == (id, present(p, news)[id]));
        } else {
            if exists|i: int| 0 <= i < news.len() && (#[trigger] news[i]).0 == id {
                let i = choose|i: int| 0 <= i < news.len() && (#[trigger] news[i]).0 == id;
                assert(init[i].0 == id);
                let j = choose|j: int|
                    0 <= j < init.len() && #[trigger] init[j] == (id, present(p, init)[id]);
                assert(news[j] == (id, present(p, news)[id]));
            }
            if forall|i: int| 0 <= i < news.len() ==> (#[trigger] news[i]).0 != id {
                assert forall|i: int| 0 <= i < init.len() implies (#[trigger] init[i]).0 != id by {
                    assert(news[i] == init[i]);
                }
            }
        }
    }
}

/// Who is online is what was said last of that user, one by one or in a list; of the others it stays.
pub proof fn presence_is_what_was_said(
    pre: Desktop,
    ev: PeopleEvent,
    now: u64,
    post: Desktop,
    tasks: Seq<Task>,
    id: u64,
)
    requires
        event_step(pre, Event::People(ev), now, post, tasks),
    ensures
        ev matches PeopleEvent::Presence { user_id, online } ==> (if id == user_id {
            post.talks.presence@.contains_key(id) && post.talks.presence@[id] == online
        } else {
            post.talks.presence@.contains_key(id) == pre.talks.presence@.contains_key(id)
        }) && tasks == seq![Task::ShowConversations],
        ev matches PeopleEvent::PresenceBatch(news) ==> ((exists|i: int|
            0 <= i < news@.len() && (#[trigger] news@[i]).0 == id) ==> post.talks.presence@.contains_key(
            id,
        ) && exists|i: int|
            0 <= i < news@.len() && #[trigger] news@[i] == (id, post.talks.presence@[id])) && ((forall|
            i: int,
        |
            0 <= i < news@.len() ==> (#[trigger] news@[i]).0 != id)
            ==> post.talks.presence@.contains_key(id) == pre.talks.presence@.contains_key(id)),
{
    match ev {
        PeopleEvent::PresenceBatch(news) => lemma_present(pre.talks.presence@, news@, id),
        _ => {},
    }
}

/// Who types is known from then on, and looked after until it is over; three seconds later it is.
pub proof fn typing_runs_out(
    pre: Desktop,
    conversation_id: u64,
    from_user_id: u64,
    from_username: String,
    t: u64,
    mid: Desktop,
    a: Seq<Task>,
    now: u64,
    post: Desktop,
    b: Seq<Task>,
)
    requires
        event_step(
            pre,
            Event::People(
                PeopleEvent::Typing { conversation_id, from_user_id, from_username },
            ),
            t,
            mid,
            a,
        ),
        event_step(
            mid,
            Event::People(PeopleEvent::TypingExpired { conversation_id }),
            now,
            post,
            b,
        ),
        t <= now,
    ensures
        mid.talks.typing@.contains_key(conversation_id),
        mid.talks.typing@[conversation_id] == (from_username, t),
        a.len() == 1 && a[0] is WatchTyping && a[0]->WatchTyping_conversation_id == conversation_id,
        post.talks.typing@.contains_key(conversation_id) <==> now < t + 3000,
{
}

/// A profile that was loaded is shown as it is: name, handle, and how the user is treated.
pub proof fn profiles_are_shown(
    pre: Desktop,
    ev: PeopleEvent,
    p: Profile,
    now: u64,
    post: Desktop,
    tasks: Seq<Task>,
)
    requires
        ev == PeopleEvent::Profile(p) || ev == PeopleEvent::ContextProfile(p) || ev
            == PeopleEvent::ModerationResult(p),
        event_step(pre, Event::People(ev), now, post, tasks),
    ensures
        post.cards.profile matches Some(card) && card.user_id == p.id && card.username == p.username && (
        p.display_name@.len() > 0 ==> card.display_name@ == p.display_name@) && (p.display_name@.len()
            == 0 ==> card.display_name@ == p.username@) && card.blocked == p.blocked && card.muted
            == p.muted && card.is_self == p.is_self && (p.domain@.len() == 0 ==> card.handle@ == "@"@
            + p.username@) && (p.domain@.len() > 0 ==> card.handle@ == "@"@ + p.username@ + "@"@
            + p.domain@),
        post.cards.context_blocked == p.blocked,
        post.cards.context_muted == p.muted,
        ev is Profile ==> post.window.profile_open,
        ev is ContextProfile ==> post.window.context_open,
        ev is ModerationResult ==> post.window == pre.window,
{
}

proof fn lemma_online(presence: Map<u64, bool>, ids: Seq<u64>)
    ensures
        online_count(presence, ids) <= ids.len(),
        (forall|i: int| 0 <= i < ids.len() ==> !is_online(presence, #[trigger] ids[i])) <==> online_count(
            presence,
            ids,
        ) == 0,
        (forall|i: int| 0 <= i < ids.len() ==> is_online(presence, #[trigger] ids[i])) ==> online_count(
            presence,
            ids,
        ) == ids.len(),
    decreases ids.len(),
{
    if ids.len() > 0 {
        let init = ids.drop_last();
        lemma_online(presence, init);
        if forall|i: int| 0 <= i < ids.len() ==> !is_online(presence, #[trigger] ids[i]) {
            assert forall|i: int| 0 <= i < init.len() implies !is_online(presence, #[trigger] init[i]) by {
                assert(ids[i] == init[i]);
            }
            assert(!is_online(presence, ids[ids.len() - 1]));
        }
        if online_count(presence, ids) == 0 {
            assert forall|i: int| 0 <= i < ids.len() implies !is_online(presence, #[trigger] ids[i]) by {
                if i < init.len() {
                    assert(ids[i] == init[i]);
                }
            }
        }
        if forall|i: int| 0 <= i < ids.len() ==> is_online(presence, #[trigger] ids[i]) {
            assert forall|i: int| 0 <= i < init.len() implies is_online(presence, #[trigger] init[i]) by {
                assert(ids[i] == init[i]);
            }
            assert(is_online(presence, ids[ids.len() - 1]));
        }
    }
}

/// The status of a conversation names who types; else it says of one other user whether they are
/// online, and of several how many are.
pub proof fn the_status_tells_who_is_there(t: Talks, c: Conversation, me: Option<u64>, now: u64)
    ensures
        t.typing@.contains_key(c.id) && now < t.typing@[c.id].1 + 3000 ==> status_of(t, c, me, now)
            == t.typing@[c.id].0@ + " is typing…"@,
        !(t.typing@.contains_key(c.id) && now < t.typing@[c.id].1 + 3000) ==> ({
            let ids = other_ids(c.members@, me);
            &&& ids.len() == 1 && t.presence@.contains_key(ids[0]) && t.presence@[ids[0]] ==> status_of(
                t,
                c,
                me,
                now,
            ) == "online"@
            &&& ids.len() == 1 && !(t.presence@.contains_key(ids[0]) && t.presence@[ids[0]])
                ==> status_of(t, c, me, now) == "offline"@
            &&& ids.len() > 1 && (forall|i: int|
                0 <= i < ids.len() ==> t.presence@.contains_key(#[trigger] ids[i])
                    && t.presence@[ids[i]]) ==> status_of(t, c, me, now) == decimal(ids.len())
                + " online"@
            &&& ids.len() > 1 && (forall|i: int|
                0 <= i < ids.len() ==> !(t.presence@.contains_key(#[trigger] ids[i])
                    && t.presence@[ids[i]])) ==> status_of(t, c, me, now).len() == 0
        }),
{
    let ids = other_ids(c.members@, me);
    lemma_online(t.presence@, ids);
    if forall|i: int|
        0 <= i < ids.len() ==> t.presence@.contains_key(#[trigger] ids[i]) && t.presence@[ids[i]] {
        assert forall|i: int| 0 <= i < ids.len() implies is_online(t.presence@, #[trigger] ids[i]) by {}
    }
    if forall|i: int|
        0 <= i < ids.len() ==> !(t.presence@.contains_key(#[trigger] ids[i]) && t.presence@[ids[i]]) {
        assert forall|i: int| 0 <= i < ids.len() implies !is_online(t.presence@, #[trigger] ids[i]) by {}
    }
}

// ---------------------------------------------------------------------------
// Files and links
// ---------------------------------------------------------------------------

/// The status of a transfer is what the transfer says; a file that came in full is stored, has no
/// status any more, and lies in the cache.
pub proof fn transfers_show_how_they_stand(
    pre: Desktop,
    ev: FileEvent,
    now: u64,
    post: Desktop,
    tasks: Seq<Task>,
)
    requires
        event_step(pre, Event::File(ev), now, post, tasks),
    ensures
        ev matches FileEvent::P2pStatus { file_id, status } ==> post.store.p2p_status@.contains_key(
            file_id@,
        ) && post.store.p2p_status@[file_id@]@ == status@,
        ev matches FileEvent::P2pProgress { file_id, received, total, percent } ==> (total > 0
            ==> post.store.p2p_status@.contains_key(file_id@) && post.store.p2p_status@[file_id@]@
            == "receiving · "@ + decimal(percent as nat) + "%"@),
        ev matches FileEvent::P2pComplete { file_id, mime, name, bytes } ==> tasks.contains(
            Task::StoreFile { file_id, bytes },
        ) && tasks.contains(Task::ShowMessages) && !post.store.p2p_status@.contains_key(file_id@)
            && post.store.downloaded@.contains_key(file_id@)
            && post.store.downloaded@[file_id@].path is Some,
        ev matches FileEvent::P2pFailed { file_id, reason } ==> post.store.p2p_status@.contains_key(
            file_id@,
        ) && (post.store.p2p_status@[file_id@]@ == "offline"@ || post.store.p2p_status@[file_id@]@
            == "error"@),
        ev matches FileEvent::P2pSignal(sig) ==> tasks == seq![Task::P2pSignal(sig)],
        ev matches FileEvent::AttachmentPicked(att) ==> post.store.pending_attach == Some(att)
            && post.texts.pending_attach_name == att.name,
        ev matches FileEvent::LinkPreview(p) ==> post.store.preview_cache@.contains_key(p.url@)
            && post.store.preview_cache@[p.url@] == Some(p) && tasks.contains(Task::ShowMessages),
        ev matches FileEvent::LinkPreviewFailed(url) ==> post.store.preview_cache@.contains_key(url@)
            && post.store.preview_cache@[url@] is None,
{
    match ev {
        FileEvent::P2pComplete { file_id, mime, name, bytes } => {
            assert(tasks[0] == Task::StoreFile { file_id, bytes });
            assert(tasks[1] == Task::ShowMessages);
        },
        FileEvent::LinkPreview(p) => {
            assert(tasks[0] == Task::ShowMessages);
        },
        _ => {},
    }
}

// ---------------------------------------------------------------------------
// The window
// ---------------------------------------------------------------------------

/// Opening a conversation makes it read and loads its messages.
pub proof fn opening_loads_and_reads(
    pre: Desktop,
    id: i32,
    now: u64,
    post: Desktop,
    wishes: Seq<Wish>,
    other: u64,
)
    requires
        select_step(pre, id, now, post, wishes),
        id >= 0,
        other != id as u64,
    ensures
        post.talks.selected == id,
        !post.talks.unread@.contains_key(id as u64),
        post.talks.unread@.contains_key(other) == pre.talks.unread@.contains_key(other),
        pre.account.token is Some ==> wishes.contains(
            Wish::Call(Call::LoadMessages { conversation_id: id as u64 }),
        ),
        pre.account.token is None ==> forall|i: int|
            0 <= i < wishes.len() ==> !((#[trigger] wishes[i]) is Call),
{
    if pre.account.token is Some {
        assert(wishes[2] == Wish::Call(Call::LoadMessages { conversation_id: id as u64 }));
    }
}

/// Typing is announced to the open conversation, and at most every two seconds.
pub proof fn typing_is_announced(pre: Desktop, now: u64, post: Desktop, wishes: Seq<Wish>)
    requires
        typing_step(pre, now, post, wishes),
    ensures
        pre.talks.selected >= 0 && now >= pre.talks.last_typing_sent + 2000 ==> wishes == seq![
            Wish::SendTyping { conversation_id: pre.talks.selected as u64 },
        ] && post.talks.last_typing_sent == now,
        pre.talks.selected < 0 || now < pre.talks.last_typing_sent + 2000 ==> wishes.len() == 0,
{
}

/// A message is sent to the open conversation with the text that was written, without the blanks
/// around it, and with the file that was picked, which is held ready for the others.
pub proof fn messages_are_sent(
    pre: Desktop,
    text: Seq<char>,
    post: Desktop,
    wishes: Seq<Wish>,
)
    requires
        send_step(pre, text, post, wishes),
        pre.account.token is Some,
        pre.talks.selected >= 0,
        !pre.composer.editing,
    ensures
        pre.store.pending_attach is None && trim(text).len() > 0 ==> wishes.len() == 1 && (
        wishes[0] matches Wish::Call(Call::SendMessage { conversation_id, body, file })
            && conversation_id == pre.talks.selected && body@ == trim(text) && file is None),
        pre.store.pending_attach is None && trim(text).len() == 0 ==> wishes.len() == 0,
        pre.store.pending_attach matches Some(att) ==> post.store.pending_attach is None
            && post.store.own_files@.contains_key(att.file_id@)
            && post.store.own_files@[att.file_id@].bytes@ == att.bytes@ && (exists|i: int|
            0 <= i < wishes.len() && ((#[trigger] wishes[i]) matches Wish::Serve(f) && f.file_id
                == att.file_id && f.bytes@ == att.bytes@)) && (exists|i: int|
            0 <= i < wishes.len() && ((#[trigger] wishes[i]) matches Wish::Call(
                Call::SendMessage { conversation_id, body, file },
            ) && conversation_id == pre.talks.selected && body@ == trim(text) && (file matches Some(f)
                && f.file_id == att.file_id && f.name == att.name && f.mime == att.mime
                && f.file_size == att.file_size && f.thumbnail == att.thumbnail))),
{
    match pre.store.pending_attach {
        Some(att) => {
            assert(wishes[0] is Serve);
            assert(wishes[1] is Call || wishes[2] is Call);
        },
        None => {},
    }
}

/// Without a session, without an open conversation, or while a message is being changed, nothing is
/// sent.
pub proof fn nothing_is_sent_nowhere(pre: Desktop, text: Seq<char>, post: Desktop, wishes: Seq<Wish>)
    requires
        send_step(pre, text, post, wishes),
        pre.account.token is None || pre.talks.selected < 0 || pre.composer.editing,
    ensures
        post == pre,
        wishes.len() == 0,
{
}

/// A file is opened from memory where the user sent it in this session, else from disk where it lies
/// there, and else it is fetched from its sender again.
pub proof fn files_are_opened(d: Desktop, m: ApiMsg, wishes: Seq<Wish>)
    requires
        open_wishes(d, m, wishes),
        m.file_id is Some,
    ensures
        ({
            let f = m.file_id->0;
            let own = d.account.self_id == Some(m.sender_id);
            let kept = d.store.own_files@.contains_key(f@);
            let stored = d.store.downloaded@.contains_key(f@) && d.store.downloaded@[f@].path is Some;
            &&& own && kept && d.store.own_files@[f@].bytes@.len() > 0 ==> wishes.len() == 1 && (
            wishes[0] matches Wish::OpenBytes { mime, name, bytes } && bytes@
                == d.store.own_files@[f@].bytes@)
            &&& !own && stored ==> wishes.len() == 1 && (wishes[0] matches Wish::OpenStored {
                path,
                mime,
                name,
                file_id,
                sender_id,
            } && path == d.store.downloaded@[f@].path->0 && file_id == f && sender_id == m.sender_id)
            &&& (own && !kept) || (!own && !stored) ==> wishes == seq![
                Wish::RetryFetch { file_id: f, sender_id: m.sender_id },
            ]
        }),
{
}

/// The conversation with a user is opened where there is one, and asked for where there is none.
pub proof fn chats_are_opened_or_asked_for(
    pre: Desktop,
    user: i32,
    post: Desktop,
    wishes: Seq<Wish>,
)
    requires
        open_chat_step(pre, user, post, wishes),
        user >= 0,
        pre.account.token is Some,
    ensures
        !post.window.profile_open,
        wishes.len() > 0,
        wishes.last() matches Wish::Call(c) && ((c matches Call::LoadMessages { conversation_id }
            && is_open(post, conversation_id) && !post.talks.unread@.contains_key(conversation_id)) || (
        c matches Call::CreateConversation { member_ids, handles } && member_ids@ == seq![user as u64]
            && handles@.len() == 0)),
{
    let cs = pre.talks.conversations@;
    if chat_with(cs, user as u64) < cs.len() {
        let id = cs[chat_with(cs, user as u64)].id;
        assert(wishes[2] == Wish::Call(Call::LoadMessages { conversation_id: id }));
    }
}

// ---------------------------------------------------------------------------
// What is typed
// ---------------------------------------------------------------------------

/// A conversation with those who were named is asked for; an entry that names nobody, and an empty
/// line, are refused, and nothing is asked for.
pub proof fn new_conversations_are_asked_for(
    pre: Desktop,
    input: Seq<char>,
    post: Desktop,
    wishes: Seq<Wish>,
    n: u64,
)
    requires
        new_conversation_step(pre, input, post, wishes),
        pre.account.token is Some,
    ensures
        targets_of(entries(trim(input))) matches Ok((ids, names)) ==> (ids.len() + names.len() > 0 ==> (
        wishes.len() == 1 && (wishes[0] matches Wish::Call(
            Call::CreateConversation { member_ids, handles },
        ) && member_ids@ == ids && texts(handles@) == names) && post.texts.error_message@.len() == 0)),
        targets_of(entries(trim(input))) matches Ok((ids, names)) ==> (ids.len() + names.len() == 0
            ==> wishes.len() == 0 && post.texts.error_message@.len() > 0),
        targets_of(entries(trim(input))) is Err ==> wishes.len() == 0 && post.texts.error_message@.len() > 0,
        post.talks == pre.talks && post.account == pre.account,
{
    reveal_strlit("enter at least one user id, @handle, or profile URL");
    reveal_strlit("could not understand '");
    reveal_strlit("'");
}

proof fn lemma_staying(fs: Seq<Seq<char>>, f: Seq<char>)
    ensures
        staying(fs).contains(f) ==> fs.contains(f) && stays(f),
        fs.contains(f) && stays(f) ==> staying(fs).contains(f),
    decreases fs.len(),
{
    if fs.len() > 0 {
        let rest = fs.drop_last();
        lemma_staying(rest, f);
        let v = staying(rest);
        let all = staying(fs);
        assert(fs[fs.len() - 1] == fs.last());
        if fs.contains(f) {
            let i = choose|i: int| 0 <= i < fs.len() && fs[i] == f;
            if i < rest.len() {
                assert(rest[i] == f);
            }
        }
        if rest.contains(f) {
            let i = choose|i: int| 0 <= i < rest.len() && rest[i] == f;
            assert(fs[i] == f);
        }
        if v.contains(f) {
            let i = choose|i: int| 0 <= i < v.len() && v[i] == f;
            assert(all[i] == f);
        }
        if all.len() > v.len() {
            assert(all[v.len() as int] == fs.last());
            if all.contains(f) && f != fs.last() {
                let i = choose|i: int| 0 <= i < all.len() && all[i] == f;
                assert(v[i] == f);
            }
        }
    }
}

/// A suggestion that is taken up stands at the end of the line, behind the entries that were complete,
/// and the cursor behind it; a handle that was only begun is dropped.
pub proof fn suggestions_are_taken_up(
    pre: Desktop,
    id: i32,
    post: Desktop,
    wishes: Seq<Wish>,
    f: Seq<char>,
    i: int,
)
    requires
        suggestion_step(pre, id, post, wishes),
        id >= 0,
        0 <= i < pre.talks.contacts@.len(),
        pre.talks.contacts@[i].id == id as u64,
    ensures
        exists|k: int|
            0 <= k < pre.talks.contacts@.len() && (#[trigger] pre.talks.contacts@[k]).id == id as u64
                && post.texts.new_conversation_input@ == joined(
                staying(fragments(pre.texts.new_conversation_input@)).push(
                    pre.talks.contacts@[k].handle@,
                ),
                ", "@,
            ),
        fragments(pre.texts.new_conversation_input@).contains(f) && f.len() > 0 && f[0] != '@'
            ==> staying(fragments(pre.texts.new_conversation_input@)).contains(f),
        !staying(fragments(pre.texts.new_conversation_input@)).contains("@"@),
        wishes.len() == 1,
        wishes[0] matches Wish::PlaceCursor { at } && at == post.texts.new_conversation_input@.len(),
        post.texts.error_message@.len() == 0,
{
    let cs = pre.talks.contacts@;
    the_first_is_found(cs, id as u64);
    assert(cs[i].ident() == id as u64);
    assert(holds(cs, id as u64));
    let k = position(cs, id as u64);
    assert(cs[k].id == id as u64);
    let fs = fragments(pre.texts.new_conversation_input@);
    lemma_staying(fs, f);
    lemma_staying(fs, "@"@);
    reveal_strlit("@");
    if f.len() > 0 && f[0] != '@' {
        assert("@"@[0] == '@');
        assert(f.take(1)[0] == f[0]);
        assert(stays(f));
    }
}

/// Whom the open card is about, or else the open menu, is blocked, or let back in where they were
/// blocked; and muted, or heard again where they were muted.
pub proof fn moderation_turns_what_holds(d: Desktop, block: Seq<Wish>, mute: Seq<Wish>)
    requires
        block_turned(d, block),
        mute_turned(d, mute),
        d.account.token is Some,
    ensures
        d.window.profile_open ==> (d.cards.profile matches Some(p) ==> (p.id >= 0 ==> (block.len() == 1
            && mute.len() == 1 && (block[0] matches Wish::Call(Call::Moderate { user_id, verb })
            && user_id == p.id && (p.blocked ==> verb@ == "unblock"@) && (!p.blocked ==> verb@
            == "block"@)) && (mute[0] matches Wish::Call(Call::Moderate { user_id, verb }) && user_id
            == p.id && (p.muted ==> verb@ == "unmute"@) && (!p.muted ==> verb@ == "mute"@))))),
        !d.window.profile_open && d.cards.context_user_id >= 0 ==> (block.len() == 1 && mute.len() == 1
            && (block[0] matches Wish::Call(Call::Moderate { user_id, verb }) && user_id
            == d.cards.context_user_id && (d.cards.context_blocked ==> verb@ == "unblock"@) && (
        !d.cards.context_blocked ==> verb@ == "block"@)) && (mute[0] matches Wish::Call(
            Call::Moderate { user_id, verb },
        ) && user_id == d.cards.context_user_id && (d.cards.context_muted ==> verb@ == "unmute"@) && (
        !d.cards.context_muted ==> verb@ == "mute"@))),
        !d.window.profile_open && d.cards.context_user_id < 0 ==> block.len() == 0 && mute.len() == 0,
{
}

/// A message of the user's own is changed: its text comes into the line, and what is made of it there
/// goes out as that message. One of somebody else cannot be changed.
pub proof fn changes_are_sent(
    pre: Desktop,
    id: i32,
    mid: Desktop,
    text: Seq<char>,
    wishes: Seq<Wish>,
    m: ApiMsg,
)
    requires
        edit_begun(pre, id, mid),
        edit_sent(mid, text, wishes),
        id >= 0,
        holds(pre.talks.messages@, id as u64),
        m == pre.talks.messages@[position(pre.talks.messages@, id as u64)],
        pre.account.token is Some,
        pre.talks.selected >= 0,
        pre.composer.editing_id < 0,
    ensures
        m.id == id,
        pre.account.self_id == Some(m.sender_id) ==> mid.composer.draft == m.body && mid.composer.editing,
        pre.account.self_id == Some(m.sender_id) && trim(text).len() > 0 ==> (wishes.len() == 1 && (
        wishes[0] matches Wish::Call(Call::EditMessage { conversation_id, message_id, body })
            && conversation_id == pre.talks.selected && message_id == m.id && body@ == trim(text))),
        pre.account.self_id == Some(m.sender_id) && trim(text).len() == 0 ==> wishes.len() == 0,
        pre.account.self_id != Some(m.sender_id) ==> mid == pre && wishes.len() == 0,
{
    let msgs = pre.talks.messages@;
    the_first_is_found(msgs, id as u64);
    let k = choose|k: int| 0 <= k < msgs.len() && (#[trigger] msgs[k]).ident() == id as u64;
    assert(msgs[position(msgs, id as u64)].ident() == id as u64);
}

/// A message is deleted from the open conversation.
pub proof fn deletions_are_asked_for(d: Desktop, id: i32, wishes: Seq<Wish>)
    requires
        deletes(d, id, wishes),
        id >= 0,
    ensures
        d.account.token is Some && d.talks.selected >= 0 ==> wishes.len() == 1 && (
        wishes[0] matches Wish::Call(Call::DeleteMessage { conversation_id, message_id })
            && conversation_id == d.talks.selected && message_id == id),
        d.talks.selected < 0 ==> wishes.len() == 0,
{
}

/// Once a message was changed, or the change given up, nothing of it is left in the line.
pub proof fn changes_come_to_an_end(pre: Desktop, post: Desktop)
    requires
        edit_over(pre, post),
    ensures
        !post.composer.editing,
        post.composer.editing_id < 0,
        post.composer.draft@.len() == 0 && post.composer.editing_body@.len() == 0,
        post.talks == pre.talks && post.account == pre.account && post.store == pre.store,
{
}

proof fn lemma_lookups(
    msgs: Seq<ApiMsg>,
    cache: Map<Seq<char>, Option<Preview>>,
    requested: Map<Seq<char>, ()>,
    i: int,
)
    requires
        0 <= i < msgs.len(),
    ensures
        first_link(msgs[i].body@) matches Some(u) ==> cache.contains_key(u) || lookups(
            msgs,
            cache,
            requested,
        ).0.contains_key(u),
        first_link(msgs[i].body@) matches Some(u) ==> (!cache.contains_key(u) && !requested.contains_key(
            u,
        ) ==> lookups(msgs, cache, requested).1.contains(u)),
    decreases msgs.len(),
{
    let rest = msgs.drop_last();
    let (done, urls) = lookups(rest, cache, requested);
    let all = lookups(msgs, cache, requested);
    lemma_asked(rest, cache, requested);
    if i < rest.len() {
        lemma_lookups(rest, cache, requested, i);
        assert(rest[i] == msgs[i]);
        if first_link(msgs[i].body@) is Some {
            let u = first_link(msgs[i].body@)->0;
            if urls.contains(u) {
                let k = choose|k: int| 0 <= k < urls.len() && urls[k] == u;
                assert(all.1[k] == u);
            }
        }
    } else if first_link(msgs.last().body@) is Some {
        let u = first_link(msgs.last().body@)->0;
        if !(cache.contains_key(u) || done.contains_key(u)) {
            assert(all.1[urls.len() as int] == u);
        }
    }
}

proof fn lemma_asked(
    msgs: Seq<ApiMsg>,
    cache: Map<Seq<char>, Option<Preview>>,
    requested: Map<Seq<char>, ()>,
)
    ensures
        forall|u: Seq<char>| #[trigger]
            lookups(msgs, cache, requested).0.contains_key(u) <==> requested.contains_key(u)
                || lookups(msgs, cache, requested).1.contains(u),
        forall|u: Seq<char>| #[trigger]
            lookups(msgs, cache, requested).1.contains(u) ==> !cache.contains_key(u)
                && !requested.contains_key(u),
        forall|a: int, b: int|
            0 <= a < b < lookups(msgs, cache, requested).1.len() ==> #[trigger] lookups(
                msgs,
                cache,
                requested,
            ).1[a] != #[trigger] lookups(msgs, cache, requested).1[b],
    decreases msgs.len(),
{
    if msgs.len() > 0 {
        let rest = msgs.drop_last();
        lemma_asked(rest, cache, requested);
        let (done, urls) = lookups(rest, cache, requested);
        let (all, asked) = lookups(msgs, cache, requested);
        if asked.len() > urls.len() {
            let u = first_link(msgs.last().body@)->0;
            assert(asked == urls.push(u));
            assert(asked[urls.len() as int] == u);
            assert(!urls.contains(u));
            assert forall|v: Seq<char>| #[trigger]
                asked.contains(v) <==> urls.contains(v) || v == u by {
                if urls.contains(v) {
                    let k = choose|k: int| 0 <= k < urls.len() && urls[k] == v;
                    assert(asked[k] == v);
                }
                if asked.contains(v) && v != u {
                    let k = choose|k: int| 0 <= k < asked.len() && asked[k] == v;
                    assert(urls[k] == v);
                }
            }
            assert forall|a: int, b: int| 0 <= a < b < asked.len() implies #[trigger] asked[a]
                != #[trigger] asked[b] by {
                assert(asked[a] == urls[a]);
                if b < urls.len() {
                    assert(asked[b] == urls[b]);
                } else {
                    assert(urls.contains(urls[a]));
                }
            }
        }
    }
}

/// The first link of every message is looked up, unless it is known or was asked for before, and none
/// is asked for twice.
pub proof fn links_are_looked_up_once(
    msgs: Seq<ApiMsg>,
    cache: Map<Seq<char>, Option<Preview>>,
    requested: Map<Seq<char>, ()>,
    i: int,
)
    requires
        0 <= i < msgs.len(),
    ensures
        first_link(msgs[i].body@) matches Some(u) ==> (!cache.contains_key(u) && !requested.contains_key(
            u,
        ) ==> lookups(msgs, cache, requested).1.contains(u)),
        forall|u: Seq<char>| #[trigger]
            lookups(msgs, cache, requested).1.contains(u) ==> !cache.contains_key(u)
                && !requested.contains_key(u) && lookups(msgs, cache, requested).0.contains_key(u),
        forall|a: int, b: int|
            0 <= a < b < lookups(msgs, cache, requested).1.len() ==> #[trigger] lookups(
                msgs,
                cache,
                requested,
            ).1[a] != #[trigger] lookups(msgs, cache, requested).1[b],
{
    lemma_lookups(msgs, cache, requested, i);
    lemma_asked(msgs, cache, requested);
}

/// What was said of who is there is read entry by entry; an entry that says nothing is passed over.
pub proof fn presence_is_read(
    raw: Seq<(String, Option<bool>)>,
    id: u64,
    entry: (String, Option<bool>),
)
    ensures
        presence_of(Seq::empty()).len() == 0,
        entry.0@ == decimal(id as nat) ==> (entry.1 matches Some(online) ==> presence_of(
            raw.push(entry),
        ) == presence_of(raw).push((id, online))),
        entry.1 is None ==> presence_of(raw.push(entry)) == presence_of(raw),
{
    assert(raw.push(entry).drop_last() =~= raw);
    decimals_are_read_back(id as nat, u64::MAX as nat);
}

/// A client that was started has no session, nothing open, and nothing to show.
pub proof fn clients_begin_empty(d: Desktop, now: u64, cache_dir: String)
    requires
        is_fresh(d, now, cache_dir),
    ensures
        d.account.token is None && d.account.self_id is None && d.account.remember_me,
        !d.window.logged_in && !d.window.ws_connected && !d.window.profile_open,
        d.talks.conversations@.len() == 0 && d.talks.messages@.len() == 0 && d.talks.selected < 0,
        d.texts.error_message@.len() == 0 && d.composer.draft@.len() == 0 && !d.composer.editing,
        forall|id: u64| !(#[trigger] d.talks.unread@.contains_key(id)),
        forall|id: u64| !(#[trigger] is_online(d.talks.presence@, id)),
        d.store.cache_dir == cache_dir && d.store.pending_attach is None,
{
}

/// A file that was picked waits under its name, and its picture is shown where it is one.
pub proof fn picked_files_are_shown(
    pre: Desktop,
    att: Attachment,
    now: u64,
    post: Desktop,
    tasks: Seq<Task>,
)
    requires
        event_step(pre, Event::File(FileEvent::AttachmentPicked(att)), now, post, tasks),
    ensures
        post.store.pending_attach == Some(att),
        post.texts.pending_attach_name == att.name,
        tasks.len() == 1,
        tasks[0] matches Task::ShowPicked { thumbnail } && (thumbnail is Some <==> is_image_mime(
            att.mime@,
        )) && (thumbnail matches Some(t) ==> t == att.thumbnail),
{
}

/// A profile that could not be loaded is told, and no menu opens.
pub proof fn missing_profiles_are_told(pre: Desktop, now: u64, post: Desktop, tasks: Seq<Task>)
    requires
        event_step(pre, Event::People(PeopleEvent::ProfileError), now, post, tasks),
    ensures
        post.texts.error_message@ == "could not load user profile"@,
        !post.window.context_open,
        tasks.len() == 0,
        post.talks == pre.talks && post.account == pre.account,
{
}

/// A message of the old kind carries its file, which is opened as it is.
pub proof fn carried_files_are_opened(d: Desktop, m: ApiMsg, wishes: Seq<Wish>)
    requires
        open_wishes(d, m, wishes),
        m.file_id is None,
    ensures
        m.attachment_data is None ==> wishes.len() == 0,
        m.attachment_data matches Some(a) ==> (wishes.len() == 1 && (wishes[0] matches Wish::OpenData {
            data,
            mime,
            name,
        } && data == a && (m.attachment_mime matches Some(k) ==> mime@ == k@) && (
        m.attachment_name matches Some(n) ==> name@ == n@))),
{
}

} // verus!
