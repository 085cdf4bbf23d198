//! One step of the client: a message comes in, the state changes, and actions go out.

use vstd::prelude::*;

use crate::chat::action::{no_actions, Action};
use crate::chat::auth::auth_step;
use crate::chat::conv::conv_step;
use crate::chat::files::file_step;
use crate::chat::guild_admin::guild_admin_step;
use crate::chat::guilds::guild_step;
use crate::chat::msg::Msg;
use crate::chat::new_conv::new_conv_step;
use crate::chat::people::profile_step;
use crate::chat::state::{api_error_step, AppState, Session};
use crate::chat::stickers::sticker_step;
use crate::chat::ws::{voice_step, ws_step};

verus! {

/// What a message does to the state, and what it asks for. `now` is a clock in milliseconds.
pub open spec fn step(pre: AppState, msg: Msg, now: u64, post: AppState, acts: Seq<Action>) -> bool {
    match msg {
        Msg::Auth(m) => auth_step(pre, m, post, acts),
        Msg::Conv(m) => conv_step(pre, m, now, post, acts),
        Msg::NewConv(m) => new_conv_step(pre, m, post, acts),
        Msg::Guild(m) => guild_step(pre, m, post, acts),
        Msg::GuildAdmin(m) => guild_admin_step(pre, m, post, acts),
        Msg::Sticker(m) => sticker_step(pre, m, post, acts),
        Msg::Profile(m) => profile_step(pre, m, post, acts),
        Msg::File(m) => file_step(pre, m, post, acts),
        Msg::Voice(m) => voice_step(pre, m, post, acts),
        Msg::Ws(m) => ws_step(pre, m, now, post, acts),
        Msg::Error(e) => api_error_step(pre, e, post, acts),
        Msg::Info(s) => post == (AppState {
            session: Session { info: s, ..pre.session },
            ..pre
        }) && acts.len() == 0,
        Msg::Tick => post == pre && acts.len() == 0,
        Msg::Noop => post == pre && acts.len() == 0,
    }
}

/// Handles a message.
pub fn update(state: &mut AppState, msg: Msg, now: u64) -> (acts: Vec<Action>)
    ensures
        step(*old(state), msg, now, *final(state), acts@),
{
    match msg {
        Msg::Auth(m) => state.update_auth(m),
        Msg::Conv(m) => state.update_conv(m, now),
        Msg::NewConv(m) => state.update_new_conv(m),
        Msg::Guild(m) => state.update_guild(m),
        Msg::GuildAdmin(m) => state.update_guild_admin(m),
        Msg::Sticker(m) => state.update_sticker(m),
        Msg::Profile(m) => state.update_profile(m),
        Msg::File(m) => state.update_file(m),
        Msg::Voice(m) => state.update_voice(m),
        Msg::Ws(m) => state.update_ws(m, now),
        Msg::Error(e) => state.handle_api_error(e),
        Msg::Info(s) => {
            state.session.info = s;
            no_actions()
        },
        Msg::Tick => no_actions(),
        Msg::Noop => no_actions(),
    }
}

} // verus!
