//! The dialog that starts a conversation.

use vstd::prelude::*;

use crate::chat::msg::{Msg, NewConvMsg};
use crate::chat::state::AppState;
use crate::chat::types::{NewConvKind, SearchUser};
use crate::chat::view::parts::{
    avatar_element, is_face, is_press, name_of, name_or, press, Control, Face,
};
use crate::desktop::ui::holds_id;
use crate::text::{concat2, concat4, copy_text};

verus! {

/// A user that was found.
pub struct UserRow {
    pub user_id: u64,
    pub face: Face,
    pub name: String,
    pub handle: String,
    pub selected: bool,
}

/// A user that was picked: their name, and the message that drops them again.
pub struct Chip {
    pub name: String,
    pub drop: Msg,
}

pub struct NewConvView {
    pub kind: NewConvKind,
    pub search: String,
    pub chips: Vec<Chip>,
    /// Empty where nobody was found.
    pub results: Vec<UserRow>,
    pub create: Control,
}

pub open spec fn handle_text(username: Seq<char>, domain: Seq<char>) -> Seq<char> {
    if domain.len() == 0 {
        "@"@ + username
    } else {
        "@"@ + username + "@"@ + domain
    }
}

pub open spec fn is_user_row(r: UserRow, u: SearchUser, s: AppState) -> bool {
    let name = name_of(u.display_name@, u.username@);
    &&& r.user_id == u.id
    &&& is_face(r.face, s.people.avatars@, u.id, name)
    &&& r.name@ == name
    &&& r.handle@ == handle_text(u.username@, u.domain@)
    &&& r.selected == s.new_conv.selected@.contains(u.id)
}

/// The users of a list that were picked.
pub open spec fn picked(us: Seq<SearchUser>, selected: Seq<u64>) -> Seq<SearchUser>
    decreases us.len(),
{
    if us.len() == 0 {
        Seq::empty()
    } else if selected.contains(us.last().id) {
        picked(us.drop_last(), selected).push(us.last())
    } else {
        picked(us.drop_last(), selected)
    }
}

pub open spec fn is_chip(c: Chip, u: SearchUser) -> bool {
    &&& c.name@ == name_of(u.display_name@, u.username@)
    &&& c.drop == Msg::NewConv(NewConvMsg::NewConvToggleUser(u.id))
}

pub open spec fn are_chips(cs: Seq<Chip>, us: Seq<SearchUser>) -> bool {
    &&& cs.len() == us.len()
    &&& forall|i: int| 0 <= i < us.len() ==> is_chip(#[trigger] cs[i], us[i])
}

/// Whether as many users were picked as the kind of conversation takes.
pub open spec fn enough(kind: NewConvKind, n: nat) -> bool {
    match kind {
        NewConvKind::Direct => n == 1,
        NewConvKind::Group => n >= 2,
    }
}

pub open spec fn create_label(kind: NewConvKind) -> Seq<char> {
    match kind {
        NewConvKind::Direct => "Start chat"@,
        NewConvKind::Group => "Create group"@,
    }
}

/// The button that starts the conversation: it can be pressed once enough users were picked.
pub open spec fn is_create(c: Control, s: AppState) -> bool {
    let label = create_label(s.new_conv.kind);
    if s.new_conv.busy {
        c is Spinner
    } else if enough(s.new_conv.kind, s.new_conv.selected@.len()) {
        is_press(c, label, Msg::NewConv(NewConvMsg::NewConvCreate))
    } else {
        c matches Control::Idle(t) && t@ == label
    }
}

pub open spec fn is_new_conv_view(v: NewConvView, s: AppState) -> bool {
    let us = s.new_conv.results@;
    &&& v.kind == s.new_conv.kind
    &&& v.search == s.new_conv.search
    &&& are_chips(v.chips@, picked(us, s.new_conv.selected@))
    &&& v.results@.len() == us.len()
    &&& forall|i: int| 0 <= i < us.len() ==> is_user_row(#[trigger] v.results@[i], us[i], s)
    &&& is_create(v.create, s)
}

fn user_row(state: &AppState, u: &SearchUser) -> (r: UserRow)
    ensures
        is_user_row(r, *u, *state),
{
    let name = name_or(u.display_name.as_str(), u.username.as_str());
    let handle = if u.domain.as_str().is_empty() {
        concat2("@", u.username.as_str())
    } else {
        concat4("@", u.username.as_str(), "@", u.domain.as_str())
    };
    UserRow {
        user_id: u.id,
        face: avatar_element(state, u.id, name.as_str()),
        name,
        handle,
        selected: holds_id(&state.new_conv.selected, u.id),
    }
}

fn chips(state: &AppState) -> (cs: Vec<Chip>)
    ensures
        are_chips(cs@, picked(state.new_conv.results@, state.new_conv.selected@)),
{
    let us = &state.new_conv.results;
    let mut cs: Vec<Chip> = Vec::new();
    let mut i: usize = 0;
    while i < us.len()
        invariant
            i <= us.len(),
            us == state.new_conv.results,
            are_chips(cs@, picked(us@.take(i as int), state.new_conv.selected@)),
        decreases us.len() - i,
    {
        proof {
            assert(us@.take(i + 1).drop_last() =~= us@.take(i as int));
        }
        let u = &us[i];
        if holds_id(&state.new_conv.selected, u.id) {
            cs.push(
                Chip {
                    name: name_or(u.display_name.as_str(), u.username.as_str()),
                    drop: Msg::NewConv(NewConvMsg::NewConvToggleUser(u.id)),
                },
            );
        }
        i += 1;
    }
    proof {
        assert(us@.take(i as int) =~= us@);
    }
    cs
}

fn create(state: &AppState) -> (c: Control)
    ensures
        is_create(c, *state),
{
    if state.new_conv.busy {
        return Control::Spinner;
    }
    let n: usize = state.new_conv.selected.len();
    let (ok, label) = match state.new_conv.kind {
        NewConvKind::Direct => (n == 1, "Start chat"),
        NewConvKind::Group => (n >= 2, "Create group"),
    };
    if ok {
        press(label, Msg::NewConv(NewConvMsg::NewConvCreate))
    } else {
        Control::Idle(copy_text(label))
    }
}

pub fn view_new_conv(state: &AppState) -> (v: NewConvView)
    ensures
        is_new_conv_view(v, *state),
{
    let us = &state.new_conv.results;
    let mut results: Vec<UserRow> = Vec::new();
    let mut i: usize = 0;
    while i < us.len()
        invariant
            i <= us.len(),
            us == state.new_conv.results,
            results.len() == i,
            forall|j: int| 0 <= j < i ==> is_user_row(#[trigger] results@[j], us@[j], *state),
        decreases us.len() - i,
    {
        results.push(user_row(state, &us[i]));
        i += 1;
    }
    NewConvView {
        kind: state.new_conv.kind,
        search: state.new_conv.search.clone(),
        chips: chips(state),
        results,
        create: create(state),
    }
}

} // verus!
