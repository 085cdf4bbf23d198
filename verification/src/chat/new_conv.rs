//! The dialog that starts a conversation.

use vstd::prelude::*;

use crate::chat::action::{no_actions, one_action, Action, Api};
use crate::chat::avatars::avatars_step;
use crate::chat::conv::no_menus;
use crate::chat::msg::NewConvMsg;
use crate::chat::state::{api_error_step, AppState, Chats, NewConv, People};
use crate::chat::types::{Conversation, NewConvKind, Profile, SearchUser};
use crate::text::copy_text;

verus! {

/// The dialog as it opens: empty, for a direct message.
pub open spec fn fresh_dialog(pre: NewConv, post: NewConv) -> bool {
    &&& post == (NewConv {
        open: true,
        kind: NewConvKind::Direct,
        search: post.search,
        results: post.results,
        selected: post.selected,
        ..pre
    })
    &&& post.search@.len() == 0
}

/// A profile as a hit of the search.
pub open spec fn hit_of(p: Profile) -> SearchUser {
    SearchUser {
        id: p.id,
        username: p.username,
        display_name: p.display_name,
        domain: p.domain,
        avatar_url: p.avatar_url,
        is_bot: false,
    }
}

/// The open profile, if it is that of the user.
pub open spec fn profile_of(p: Option<Profile>, id: u64) -> Option<Profile> {
    match p {
        Some(x) => if x.id == id {
            Some(x)
        } else {
            None
        },
        None => None,
    }
}

/// The ids other than `id`.
pub open spec fn without_id(ids: Seq<u64>, id: u64) -> Seq<u64>
    decreases ids.len(),
{
    if ids.len() == 0 {
        Seq::empty()
    } else if ids.last() == id {
        without_id(ids.drop_last(), id)
    } else {
        without_id(ids.drop_last(), id).push(ids.last())
    }
}

/// The selection once a user was clicked: a direct message takes one user at a time.
pub open spec fn toggled(kind: NewConvKind, ids: Seq<u64>, id: u64) -> Seq<u64> {
    if ids.contains(id) {
        without_id(ids, id)
    } else if kind == NewConvKind::Direct {
        seq![id]
    } else {
        ids.push(id)
    }
}

/// A direct message needs one other user, a group at least two.
pub open spec fn can_create(kind: NewConvKind, ids: Seq<u64>) -> bool {
    match kind {
        NewConvKind::Direct => ids.len() == 1,
        NewConvKind::Group => ids.len() >= 2,
    }
}

pub open spec fn created_step(
    pre: AppState,
    conv: Conversation,
    post: AppState,
    acts: Seq<Action>,
) -> bool {
    &&& post == (AppState {
        chats: Chats { selected_conversation: Some(conv.id), ..pre.chats },
        new_conv: NewConv {
            busy: false,
            open: false,
            results: post.new_conv.results,
            selected: post.new_conv.selected,
            ..pre.new_conv
        },
        ..pre
    })
    &&& post.new_conv.results@.len() == 0
    &&& post.new_conv.selected@.len() == 0
    &&& acts == seq![Action::Call(Api::LoadConversations)]
}

pub open spec fn new_conv_step(
    pre: AppState,
    msg: NewConvMsg,
    post: AppState,
    acts: Seq<Action>,
) -> bool {
    match msg {
        NewConvMsg::OpenNewConv => {
            &&& post == (AppState { menus: no_menus(), new_conv: post.new_conv, ..pre })
            &&& fresh_dialog(pre.new_conv, post.new_conv)
            &&& post.new_conv.results@.len() == 0
            &&& post.new_conv.selected@.len() == 0
            &&& acts.len() == 1
            &&& acts[0] matches Action::Call(Api::SearchUsers { query })
            &&& query@.len() == 0
        },
        NewConvMsg::CloseNewConv => {
            &&& post == (AppState {
                new_conv: NewConv {
                    open: false,
                    results: post.new_conv.results,
                    selected: post.new_conv.selected,
                    ..pre.new_conv
                },
                ..pre
            })
            &&& post.new_conv.results@.len() == 0
            &&& post.new_conv.selected@.len() == 0
            &&& acts.len() == 0
        },
        NewConvMsg::NewConvWithUser(id) => {
            &&& post == (AppState {
                people: People { profile_open: false, ..pre.people },
                menus: no_menus(),
                new_conv: post.new_conv,
                ..pre
            })
            &&& fresh_dialog(pre.new_conv, post.new_conv)
            &&& match profile_of(pre.people.profile, id) {
                Some(p) => post.new_conv.results@ == seq![hit_of(p)]
                    && post.new_conv.selected@ == seq![id],
                None => post.new_conv.results@.len() == 0 && post.new_conv.selected@.len() == 0,
            }
            &&& acts.len() == 0
        },
        NewConvMsg::NewConvKindChanged(kind) => {
            &&& post == (AppState {
                new_conv: NewConv { kind, selected: post.new_conv.selected, ..pre.new_conv },
                ..pre
            })
            &&& post.new_conv.selected@.len() == 0
            &&& acts.len() == 0
        },
        NewConvMsg::NewConvSearchChanged(q) => post == (AppState {
            new_conv: NewConv { search: q, ..pre.new_conv },
            ..pre
        }) && acts == seq![Action::Call(Api::SearchUsers { query: q })],
        NewConvMsg::NewConvSearchResults(Ok(users)) => avatars_step(
            AppState { new_conv: NewConv { results: users, ..pre.new_conv }, ..pre },
            post,
            acts,
        ),
        NewConvMsg::NewConvSearchResults(Err(e)) => api_error_step(pre, e, post, acts),
        NewConvMsg::NewConvToggleUser(id) => {
            &&& post == (AppState {
                new_conv: NewConv { selected: post.new_conv.selected, ..pre.new_conv },
                ..pre
            })
            &&& post.new_conv.selected@ == toggled(
                pre.new_conv.kind,
                pre.new_conv.selected@,
                id,
            )
            &&& acts.len() == 0
        },
        NewConvMsg::NewConvCreate => if can_create(pre.new_conv.kind, pre.new_conv.selected@) {
            &&& post == (AppState { new_conv: NewConv { busy: true, ..pre.new_conv }, ..pre })
            &&& acts.len() == 1
            &&& acts[0] matches Action::Call(Api::CreateConversation { kind, member_ids })
            &&& kind@ == (match pre.new_conv.kind {
                NewConvKind::Direct => "direct"@,
                NewConvKind::Group => "group"@,
            })
            &&& member_ids@ == pre.new_conv.selected@
        } else {
            post == pre && acts.len() == 0
        },
        NewConvMsg::NewConvCreated(Ok(conv)) => created_step(pre, conv, post, acts),
        NewConvMsg::NewConvCreated(Err(e)) => api_error_step(
            AppState { new_conv: NewConv { busy: false, ..pre.new_conv }, ..pre },
            e,
            post,
            acts,
        ),
    }
}

fn has_id(ids: &Vec<u64>, id: u64) -> (b: bool)
    ensures
        b == ids@.contains(id),
{
    let mut i: usize = 0;
    while i < ids.len()
        invariant
            i <= ids.len(),
            forall|j: int| 0 <= j < i ==> ids@[j] != id,
        decreases ids.len() - i,
    {
        if ids[i] == id {
            return true;
        }
        i += 1;
    }
    false
}

fn drop_id(ids: &Vec<u64>, id: u64) -> (r: Vec<u64>)
    ensures
        r@ == without_id(ids@, id),
{
    let mut r: Vec<u64> = Vec::new();
    let mut i: usize = 0;
    while i < ids.len()
        invariant
            i <= ids.len(),
            r@ == without_id(ids@.take(i as int), id),
        decreases ids.len() - i,
    {
        proof {
            assert(ids@.take(i + 1).drop_last() =~= ids@.take(i as int));
        }
        if ids[i] != id {
            r.push(ids[i]);
        }
        i += 1;
    }
    proof {
        assert(ids@.take(i as int) =~= ids@);
    }
    r
}

pub fn copy_ids(ids: &Vec<u64>) -> (r: Vec<u64>)
    ensures
        r@ == ids@,
{
    let r = ids.clone();
    proof {
        assert(r@ =~= ids@);
    }
    r
}

pub fn copy_optional(s: &Option<String>) -> (r: Option<String>)
    ensures
        r == *s,
{
    match s {
        Some(t) => Some(t.clone()),
        None => None,
    }
}

impl AppState {
    fn open_dialog(&mut self)
        ensures
            *final(self) == (AppState {
                menus: no_menus(),
                new_conv: final(self).new_conv,
                ..*old(self)
            }),
            fresh_dialog(old(self).new_conv, final(self).new_conv),
            final(self).new_conv.results@.len() == 0,
            final(self).new_conv.selected@.len() == 0,
    {
        self.menus.context_menu_msg = None;
        self.menus.context_menu_pos = None;
        self.menus.conv_menu_conv = None;
        self.menus.conv_menu_pos = None;
        self.new_conv.open = true;
        self.new_conv.kind = NewConvKind::Direct;
        self.new_conv.search = String::new();
        self.new_conv.results = Vec::new();
        self.new_conv.selected = Vec::new();
    }

    fn offer_profile(&mut self, id: u64)
        ensures
            new_conv_step(
                *old(self),
                NewConvMsg::NewConvWithUser(id),
                *final(self),
                Seq::<Action>::empty(),
            ),
    {
        self.people.profile_open = false;
        self.open_dialog();
        match &self.people.profile {
            Some(p) => {
                if p.id == id {
                    let hit = SearchUser {
                        id: p.id,
                        username: p.username.clone(),
                        display_name: p.display_name.clone(),
                        domain: p.domain.clone(),
                        avatar_url: copy_optional(&p.avatar_url),
                        is_bot: false,
                    };
                    self.new_conv.results.push(hit);
                    self.new_conv.selected.push(id);
                    proof {
                        assert(self.new_conv.results@ =~= seq![hit]);
                        assert(self.new_conv.selected@ =~= seq![id]);
                    }
                }
            },
            None => {},
        }
    }

    fn toggle_user(&mut self, id: u64)
        ensures
            *final(self) == (AppState {
                new_conv: NewConv {
                    selected: final(self).new_conv.selected,
                    ..old(self).new_conv
                },
                ..*old(self)
            }),
            final(self).new_conv.selected@ == toggled(
                old(self).new_conv.kind,
                old(self).new_conv.selected@,
                id,
            ),
    {
        if has_id(&self.new_conv.selected, id) {
            self.new_conv.selected = drop_id(&self.new_conv.selected, id);
        } else {
            if self.new_conv.kind == NewConvKind::Direct && self.new_conv.selected.len() > 0 {
                self.new_conv.selected = Vec::new();
            }
            self.new_conv.selected.push(id);
            proof {
                if old(self).new_conv.kind == NewConvKind::Direct {
                    assert(self.new_conv.selected@ =~= seq![id]);
                }
            }
        }
    }

    fn create_selected(&mut self) -> (acts: Vec<Action>)
        ensures
            new_conv_step(*old(self), NewConvMsg::NewConvCreate, *final(self), acts@),
    {
        let n: usize = self.new_conv.selected.len();
        let valid = match self.new_conv.kind {
            NewConvKind::Direct => n == 1,
            NewConvKind::Group => n >= 2,
        };
        if !valid {
            return no_actions();
        }
        let kind = copy_text(self.new_conv.kind.api_kind());
        let member_ids = copy_ids(&self.new_conv.selected);
        self.new_conv.busy = true;
        one_action(Action::Call(Api::CreateConversation { kind, member_ids }))
    }

    fn conversation_created(&mut self, conv: Conversation) -> (acts: Vec<Action>)
        ensures
            created_step(*old(self), conv, *final(self), acts@),
    {
        self.new_conv.busy = false;
        self.new_conv.open = false;
        self.new_conv.results = Vec::new();
        self.new_conv.selected = Vec::new();
        self.chats.selected_conversation = Some(conv.id);
        one_action(Action::Call(Api::LoadConversations))
    }

    pub fn update_new_conv(&mut self, msg: NewConvMsg) -> (acts: Vec<Action>)
        ensures
            new_conv_step(*old(self), msg, *final(self), acts@),
    {
        match msg {
            NewConvMsg::OpenNewConv => {
                self.open_dialog();
                one_action(Action::Call(Api::SearchUsers { query: String::new() }))
            },
            NewConvMsg::CloseNewConv => {
                self.new_conv.open = false;
                self.new_conv.results = Vec::new();
                self.new_conv.selected = Vec::new();
                no_actions()
            },
            NewConvMsg::NewConvWithUser(id) => {
                self.offer_profile(id);
                no_actions()
            },
            NewConvMsg::NewConvKindChanged(kind) => {
                self.new_conv.kind = kind;
                self.new_conv.selected = Vec::new();
                no_actions()
            },
            NewConvMsg::NewConvSearchChanged(q) => {
                let query = q.clone();
                self.new_conv.search = q;
                one_action(Action::Call(Api::SearchUsers { query }))
            },
            NewConvMsg::NewConvSearchResults(Ok(users)) => {
                self.new_conv.results = users;
                self.ensure_avatars()
            },
            NewConvMsg::NewConvSearchResults(Err(e)) => self.handle_api_error(e),
            NewConvMsg::NewConvToggleUser(id) => {
                self.toggle_user(id);
                no_actions()
            },
            NewConvMsg::NewConvCreate => self.create_selected(),
            NewConvMsg::NewConvCreated(Ok(conv)) => self.conversation_created(conv),
            NewConvMsg::NewConvCreated(Err(e)) => {
                self.new_conv.busy = false;
                self.handle_api_error(e)
            },
        }
    }
}

// ---------------------------------------------------------------------------
// Laws
// ---------------------------------------------------------------------------

/// A selection holds no user twice, and for a direct message at most one.
pub open spec fn selection_ok(d: NewConv) -> bool {
    &&& d.selected@.no_duplicates()
    &&& d.kind == NewConvKind::Direct ==> d.selected@.len() <= 1
}

proof fn lemma_without_id(ids: Seq<u64>, id: u64)
    ensures
        without_id(ids, id).len() <= ids.len(),
        !without_id(ids, id).contains(id),
        forall|x: u64| #[trigger] without_id(ids, id).contains(x) ==> ids.contains(x),
        ids.no_duplicates() ==> without_id(ids, id).no_duplicates(),
        !ids.contains(id) ==> without_id(ids, id) == ids,
    decreases ids.len(),
{
    if ids.len() > 0 {
        let init = ids.drop_last();
        lemma_without_id(init, id);
        let rest = without_id(init, id);
        assert(ids =~= init.push(ids.last()));
        assert forall|x: u64| #[trigger] without_id(ids, id).contains(x) implies ids.contains(
            x,
        ) && x != id by {
            let k = choose|k: int|
                0 <= k < without_id(ids, id).len() && without_id(ids, id)[k] == x;
            if k < rest.len() {
                assert(rest.contains(x));
                let j = choose|j: int| 0 <= j < init.len() && init[j] == x;
                assert(ids[j] == x);
            } else {
                assert(ids[ids.len() - 1] == x);
            }
        }
        if ids.no_duplicates() {
            assert(init.no_duplicates());
            if ids.last() != id {
                assert forall|i: int, j: int|
                    0 <= i < rest.len() + 1 && 0 <= j < rest.len() + 1 && i
                        != j implies rest.push(ids.last())[i] != rest.push(ids.last())[j] by {
                    if i == rest.len() || j == rest.len() {
                        let k = if i == rest.len() {
                            j
                        } else {
                            i
                        };
                        assert(rest.contains(rest[k]));
                        let m = choose|m: int| 0 <= m < init.len() && init[m] == rest[k];
                        assert(ids[m] != ids[ids.len() - 1]);
                    }
                }
            }
        }
        if !ids.contains(id) {
            assert(ids[ids.len() - 1] != id);
            assert forall|x: u64| init.contains(x) implies ids.contains(x) by {
                let j = choose|j: int| 0 <= j < init.len() && init[j] == x;
                assert(ids[j] == x);
            }
        }
    }
}

/// Every message of the dialog keeps the selection free of doubles and, for a direct message, to
/// one user.
pub proof fn selection_stays_ok(
    pre: AppState,
    msg: NewConvMsg,
    post: AppState,
    acts: Seq<Action>,
)
    requires
        selection_ok(pre.new_conv),
        new_conv_step(pre, msg, post, acts),
    ensures
        selection_ok(post.new_conv),
{
    match msg {
        NewConvMsg::NewConvToggleUser(id) => {
            lemma_without_id(pre.new_conv.selected@, id);
        },
        _ => {},
    }
}

/// Clicking a user a second time takes back the first click, in a group of any size and for a
/// direct message with nobody selected.
pub proof fn second_click_undoes_first(kind: NewConvKind, ids: Seq<u64>, id: u64)
    requires
        !ids.contains(id),
        kind == NewConvKind::Direct ==> ids.len() == 0,
    ensures
        toggled(kind, toggled(kind, ids, id), id) == ids,
{
    let once = ids.push(id);
    assert(once =~= toggled(kind, ids, id));
    assert(once[ids.len() as int] == id);
    assert(once.drop_last() =~= ids);
    lemma_without_id(ids, id);
}

} // verus!
