//! The picker of stickers.

use vstd::prelude::*;

use crate::chat::msg::{Msg, StickerMsg};
use crate::chat::state::{self_id, AppState};
use crate::chat::types::{Sticker, StickerPack};
use crate::identity::is_me;
use crate::text::concat2;

verus! {

/// A sticker, and whether its picture is there.
pub struct StickerCell {
    pub sticker_id: u64,
    pub loaded: bool,
    pub send: Msg,
}

pub struct PackView {
    pub name: String,
    pub by: String,
    /// Adding stickers and deleting the pack, for its owner.
    pub owner: Option<(Msg, Msg)>,
    pub cells: Vec<StickerCell>,
}

/// What is said in front of the packs.
#[derive(Clone, Copy, Debug, PartialEq, Eq, Structural)]
pub enum PackNotice {
    Nothing,
    Loading,
    NoPacks,
}

pub struct StickerPanel {
    pub search: String,
    /// The name of a new pack, while one is being made.
    pub new_pack: Option<String>,
    pub notice: PackNotice,
    pub packs: Vec<PackView>,
}

pub open spec fn is_cell(c: StickerCell, s: Sticker, bytes: Map<u64, Vec<u8>>) -> bool {
    &&& c.sticker_id == s.id
    &&& c.loaded == bytes.contains_key(s.id)
    &&& c.send == Msg::Sticker(StickerMsg::SendSticker(s.id))
}

pub open spec fn is_pack_view(v: PackView, p: StickerPack, s: AppState) -> bool {
    &&& v.name == p.name
    &&& v.by@ == "by "@ + p.owner_name@
    &&& v.owner == if self_id(s.session.user) == Some(p.owner_id) {
        Some(
            (
                Msg::Sticker(StickerMsg::PickStickerImages(p.id)),
                Msg::Sticker(StickerMsg::DeleteStickerPack(p.id)),
            ),
        )
    } else {
        None
    }
    &&& v.cells@.len() == p.stickers@.len()
    &&& forall|i: int|
        0 <= i < p.stickers@.len() ==> is_cell(
            #[trigger] v.cells@[i],
            p.stickers@[i],
            s.stickers.bytes@,
        )
}

pub open spec fn is_sticker_panel(v: StickerPanel, s: AppState) -> bool {
    let ps = s.stickers.packs@;
    &&& v.search == s.stickers.search
    &&& v.new_pack == if s.stickers.pack_create_open {
        Some(s.stickers.pack_name_input)
    } else {
        None
    }
    &&& v.notice == if s.stickers.busy {
        PackNotice::Loading
    } else if ps.len() == 0 {
        PackNotice::NoPacks
    } else {
        PackNotice::Nothing
    }
    &&& v.packs@.len() == ps.len()
    &&& forall|i: int| 0 <= i < ps.len() ==> is_pack_view(#[trigger] v.packs@[i], ps[i], s)
}

fn pack_view(state: &AppState, p: &StickerPack) -> (v: PackView)
    ensures
        is_pack_view(v, *p, *state),
{
    let owner = if is_me(state.user_id(), p.owner_id) {
        Some(
            (
                Msg::Sticker(StickerMsg::PickStickerImages(p.id)),
                Msg::Sticker(StickerMsg::DeleteStickerPack(p.id)),
            ),
        )
    } else {
        None
    };
    let mut cells: Vec<StickerCell> = Vec::new();
    let mut i: usize = 0;
    while i < p.stickers.len()
        invariant
            i <= p.stickers.len(),
            cells.len() == i,
            forall|j: int|
                0 <= j < i ==> is_cell(
                    #[trigger] cells@[j],
                    p.stickers@[j],
                    state.stickers.bytes@,
                ),
        decreases p.stickers.len() - i,
    {
        let id = p.stickers[i].id;
        cells.push(
            StickerCell {
                sticker_id: id,
                loaded: state.stickers.bytes.contains_key(&id),
                send: Msg::Sticker(StickerMsg::SendSticker(id)),
            },
        );
        i += 1;
    }
    PackView { name: p.name.clone(), by: concat2("by ", p.owner_name.as_str()), owner, cells }
}

pub fn sticker_panel(state: &AppState) -> (v: StickerPanel)
    ensures
        is_sticker_panel(v, *state),
{
    let ps = &state.stickers.packs;
    let mut packs: Vec<PackView> = Vec::new();
    let mut i: usize = 0;
    while i < ps.len()
        invariant
            i <= ps.len(),
            ps == state.stickers.packs,
            packs.len() == i,
            forall|j: int| 0 <= j < i ==> is_pack_view(#[trigger] packs@[j], ps@[j], *state),
        decreases ps.len() - i,
    {
        packs.push(pack_view(state, &ps[i]));
        i += 1;
    }
    let notice = if state.stickers.busy {
        PackNotice::Loading
    } else if ps.len() == 0 {
        PackNotice::NoPacks
    } else {
        PackNotice::Nothing
    };
    let new_pack = if state.stickers.pack_create_open {
        Some(state.stickers.pack_name_input.clone())
    } else {
        None
    };
    StickerPanel { search: state.stickers.search.clone(), new_pack, notice, packs }
}

} // verus!
