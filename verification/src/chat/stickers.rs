//! Stickers and sticker packs.

use std::collections::HashMap;

use vstd::prelude::*;

use crate::cache::{is_random_id, new_random_id};
use crate::chat::action::{no_actions, one_action, Action, Api};
use crate::chat::files::{copy_bytes, send_step};
use crate::chat::guilds::call;
use crate::chat::msg::{Msg, StickerMsg};
use crate::chat::state::{api_error_step, with_error, AppState, Chats, Files, Stickers};
use crate::chat::types::{Attachment, Sticker, StickerPack};
use crate::text::{copy_text, trim, trim_text};

verus! {

/// The pictures to ask for: of every sticker of a pack that has none yet.
pub open spec fn pack_images(ss: Seq<Sticker>, known: Map<u64, Vec<u8>>) -> Seq<Action>
    decreases ss.len(),
{
    if ss.len() == 0 {
        Seq::empty()
    } else {
        let rest = pack_images(ss.drop_last(), known);
        if known.contains_key(ss.last().id) {
            rest
        } else {
            rest.push(Action::Call(Api::StickerImage { sticker_id: ss.last().id }))
        }
    }
}

pub open spec fn sticker_images(ps: Seq<StickerPack>, known: Map<u64, Vec<u8>>) -> Seq<Action>
    decreases ps.len(),
{
    if ps.len() == 0 {
        Seq::empty()
    } else {
        sticker_images(ps.drop_last(), known) + pack_images(ps.last().stickers@, known)
    }
}

/// The media type of the first sticker with `id` in a pack.
pub open spec fn mime_in_pack(ss: Seq<Sticker>, id: u64) -> Option<Seq<char>>
    decreases ss.len(),
{
    if ss.len() == 0 {
        None
    } else if ss[0].id == id {
        Some(ss[0].mime@)
    } else {
        mime_in_pack(ss.drop_first(), id)
    }
}

/// The media type of the first sticker with `id` in some packs.
pub open spec fn mime_in_packs(ps: Seq<StickerPack>, id: u64) -> Option<Seq<char>>
    decreases ps.len(),
{
    if ps.len() == 0 {
        None
    } else if mime_in_pack(ps[0].stickers@, id) is Some {
        mime_in_pack(ps[0].stickers@, id)
    } else {
        mime_in_packs(ps.drop_first(), id)
    }
}

/// The media type of a sticker; one that is in no pack counts as WebP.
pub open spec fn sticker_mime(ps: Seq<StickerPack>, id: u64) -> Seq<char> {
    match mime_in_packs(ps, id) {
        Some(m) => m,
        None => "image/webp"@,
    }
}

pub open spec fn send_sticker_step(pre: AppState, id: u64, post: AppState, acts: Seq<Action>) -> bool {
    &&& post == pre
    &&& if pre.stickers.bytes@.contains_key(id) && pre.chats.selected_conversation is Some {
        &&& acts.len() == 1
        &&& acts[0] matches Action::MakeStickerThumb { mime, bytes }
        &&& mime@ == sticker_mime(pre.stickers.packs@, id)
        &&& bytes@ == pre.stickers.bytes@[id]@
    } else {
        acts.len() == 0
    }
}

/// A sticker as an attachment, under a fresh name.
pub open spec fn is_sticker(att: Attachment, mime: String, thumbnail: String, bytes: Vec<u8>) -> bool {
    &&& att.mime == mime
    &&& att.name@ == "sticker"@
    &&& is_random_id(att.file_id@)
    &&& att.file_size == bytes@.len()
    &&& att.thumbnail == thumbnail
    &&& att.bytes == bytes
}

/// The state just before a sticker goes out: it is the picked file, and the draft is empty.
pub open spec fn sticker_picked(pre: AppState, att: Attachment, draft: String) -> AppState {
    AppState {
        chats: Chats { draft, busy: true, ..pre.chats },
        files: Files { pending_attachment: Some(att), ..pre.files },
        ..pre
    }
}

/// The sticker is sent like any other file.
pub open spec fn sticker_ready_step(
    pre: AppState,
    mime: String,
    thumbnail: String,
    bytes: Vec<u8>,
    post: AppState,
    acts: Seq<Action>,
) -> bool {
    exists|att: Attachment, draft: String| #[trigger]
        is_sticker(att, mime, thumbnail, bytes) && draft@.len() == 0 && #[trigger] send_step(
            sticker_picked(pre, att, draft),
            post,
            acts,
        )
}

/// The packs that match what was typed are asked for.
pub open spec fn search_again(s: AppState) -> Seq<Action> {
    seq![Action::Call(Api::LoadStickerPacks { query: s.stickers.search })]
}

/// One upload per picture.
pub open spec fn uploads(pack: u64, items: Seq<(String, String, Vec<u8>)>) -> Seq<Action> {
    items.map_values(
        |x: (String, String, Vec<u8>)|
            Action::Call(
                Api::UploadSticker { pack_id: pack, name: x.0, mime: x.1, bytes: x.2 },
            ),
    )
}

pub open spec fn create_pack_step(pre: AppState, post: AppState, acts: Seq<Action>) -> bool {
    let name = trim(pre.stickers.pack_name_input@);
    &&& post == pre
    &&& if name.len() == 0 {
        acts.len() == 0
    } else {
        &&& acts.len() == 1
        &&& acts[0] matches Action::Call(Api::CreateStickerPack { name: n })
        &&& n@ == name
    }
}

pub open spec fn sticker_step(
    pre: AppState,
    msg: StickerMsg,
    post: AppState,
    acts: Seq<Action>,
) -> bool {
    match msg {
        StickerMsg::ToggleStickerMenu => {
            &&& post == (AppState {
                stickers: Stickers { menu_open: !pre.stickers.menu_open, ..pre.stickers },
                ..pre
            })
            &&& acts == if !pre.stickers.menu_open && pre.stickers.packs@.len() == 0 {
                search_again(pre)
            } else {
                Seq::empty()
            }
        },
        StickerMsg::StickerSearchChanged(q) => post == (AppState {
            stickers: Stickers { search: q, ..pre.stickers },
            ..pre
        }) && acts == search_again(post),
        StickerMsg::StickersLoaded(Ok(packs)) => post == (AppState {
            stickers: Stickers { busy: false, packs, ..pre.stickers },
            ..pre
        }) && acts == sticker_images(packs@, pre.stickers.bytes@),
        StickerMsg::StickersLoaded(Err(e)) => api_error_step(
            AppState { stickers: Stickers { busy: false, ..pre.stickers }, ..pre },
            e,
            post,
            acts,
        ),
        StickerMsg::SendSticker(id) => send_sticker_step(pre, id, post, acts),
        StickerMsg::StickerPrepared { mime, thumbnail, bytes } => sticker_ready_step(
            pre,
            mime,
            thumbnail,
            bytes,
            post,
            acts,
        ),
        StickerMsg::StickerImageFetched { sticker_id, result } => {
            &&& acts.len() == 0
            &&& match result {
                Ok(bytes) => post == (AppState {
                    stickers: Stickers { bytes: post.stickers.bytes, ..pre.stickers },
                    ..pre
                }) && post.stickers.bytes@ == pre.stickers.bytes@.insert(sticker_id, bytes),
                Err(_) => post == pre,
            }
        },
        StickerMsg::StickerPackNameInput(s) => post == (AppState {
            stickers: Stickers { pack_name_input: s, ..pre.stickers },
            ..pre
        }) && acts.len() == 0,
        StickerMsg::ToggleStickerPackCreate => post == (AppState {
            stickers: Stickers {
                pack_create_open: !pre.stickers.pack_create_open,
                ..pre.stickers
            },
            ..pre
        }) && acts.len() == 0,
        StickerMsg::CreateStickerPackSubmit => create_pack_step(pre, post, acts),
        StickerMsg::StickerPackCreated(Ok(id)) => {
            &&& post == (AppState {
                stickers: Stickers {
                    pack_name_input: post.stickers.pack_name_input,
                    ..pre.stickers
                },
                ..pre
            })
            &&& post.stickers.pack_name_input@.len() == 0
            &&& acts == seq![
                Action::CallThen(
                    Api::LoadStickerPacks { query: pre.stickers.search },
                    Msg::Sticker(StickerMsg::PickStickerImages(id)),
                ),
            ]
        },
        StickerMsg::StickerPackCreated(Err(e)) => api_error_step(pre, e, post, acts),
        StickerMsg::PickStickerImages(pack_id) => post == pre && acts == seq![
            Action::PickStickerImages { pack_id },
        ],
        StickerMsg::StickerImagesPicked { pack_id, result } => match result {
            Ok(items) => post == pre && acts == uploads(pack_id, items@),
            Err(e) => post == with_error(pre, e) && acts.len() == 0,
        },
        StickerMsg::StickerAction(Ok(())) => post == pre && acts == search_again(pre),
        StickerMsg::StickerAction(Err(e)) => api_error_step(pre, e, post, acts),
        StickerMsg::DeleteSticker { pack_id, sticker_id } => post == pre && acts == seq![
            Action::Call(Api::DeleteSticker { pack_id, sticker_id }),
        ],
        StickerMsg::DeleteStickerPack(pack_id) => post == pre && acts == seq![
            Action::Call(Api::DeleteStickerPack { pack_id }),
        ],
    }
}

fn push_pack_images(acts: &mut Vec<Action>, ss: &Vec<Sticker>, known: &HashMap<u64, Vec<u8>>)
    ensures
        final(acts)@ == old(acts)@ + pack_images(ss@, known@),
{
    let mut i: usize = 0;
    proof {
        assert(acts@ =~= old(acts)@ + pack_images(ss@.take(0), known@));
    }
    while i < ss.len()
        invariant
            i <= ss.len(),
            acts@ == old(acts)@ + pack_images(ss@.take(i as int), known@),
        decreases ss.len() - i,
    {
        proof {
            assert(ss@.take(i + 1).drop_last() =~= ss@.take(i as int));
        }
        let sticker_id = ss[i].id;
        if !known.contains_key(&sticker_id) {
            acts.push(Action::Call(Api::StickerImage { sticker_id }));
        }
        i += 1;
        proof {
            assert(acts@ =~= old(acts)@ + pack_images(ss@.take(i as int), known@));
        }
    }
    proof {
        assert(ss@.take(i as int) =~= ss@);
    }
}

fn missing_images(ps: &Vec<StickerPack>, known: &HashMap<u64, Vec<u8>>) -> (acts: Vec<Action>)
    ensures
        acts@ == sticker_images(ps@, known@),
{
    let mut acts = no_actions();
    let mut i: usize = 0;
    while i < ps.len()
        invariant
            i <= ps.len(),
            acts@ == sticker_images(ps@.take(i as int), known@),
        decreases ps.len() - i,
    {
        proof {
            assert(ps@.take(i + 1).drop_last() =~= ps@.take(i as int));
        }
        push_pack_images(&mut acts, &ps[i].stickers, known);
        i += 1;
    }
    proof {
        assert(ps@.take(i as int) =~= ps@);
    }
    acts
}

fn find_mime_in_pack(ss: &Vec<Sticker>, id: u64) -> (r: Option<String>)
    ensures
        match r {
            Some(m) => mime_in_pack(ss@, id) == Some(m@),
            None => mime_in_pack(ss@, id) is None,
        },
{
    let mut i: usize = 0;
    proof {
        assert(ss@.skip(0) =~= ss@);
    }
    while i < ss.len()
        invariant
            i <= ss.len(),
            mime_in_pack(ss@, id) == mime_in_pack(ss@.skip(i as int), id),
        decreases ss.len() - i,
    {
        proof {
            assert(ss@.skip(i as int)[0] == ss@[i as int]);
            assert(ss@.skip(i as int).drop_first() =~= ss@.skip(i + 1));
        }
        if ss[i].id == id {
            return Some(ss[i].mime.clone());
        }
        i += 1;
    }
    None
}

fn find_mime(ps: &Vec<StickerPack>, id: u64) -> (r: String)
    ensures
        r@ == sticker_mime(ps@, id),
{
    let mut i: usize = 0;
    proof {
        assert(ps@.skip(0) =~= ps@);
    }
    while i < ps.len()
        invariant
            i <= ps.len(),
            mime_in_packs(ps@, id) == mime_in_packs(ps@.skip(i as int), id),
        decreases ps.len() - i,
    {
        proof {
            assert(ps@.skip(i as int)[0] == ps@[i as int]);
            assert(ps@.skip(i as int).drop_first() =~= ps@.skip(i + 1));
        }
        if let Some(m) = find_mime_in_pack(&ps[i].stickers, id) {
            return m;
        }
        i += 1;
    }
    copy_text("image/webp")
}

fn upload_all(pack_id: u64, items: Vec<(String, String, Vec<u8>)>) -> (acts: Vec<Action>)
    ensures
        acts@ == uploads(pack_id, items@),
{
    let ghost all = items@;
    let mut acts = no_actions();
    for x in it: items
        invariant
            it.seq() == all,
            acts@ == uploads(pack_id, all).take(it.index() as int),
    {
        let (name, mime, bytes) = x;
        acts.push(Action::Call(Api::UploadSticker { pack_id, name, mime, bytes }));
        proof {
            assert(acts@ =~= uploads(pack_id, all).take(it.index() + 1));
        }
    }
    proof {
        assert(acts@ =~= uploads(pack_id, all));
    }
    acts
}

impl AppState {
    fn reload_packs(&self) -> (acts: Vec<Action>)
        ensures
            acts@ == search_again(*self),
    {
        call(Api::LoadStickerPacks { query: self.stickers.search.clone() })
    }

    fn send_sticker(&self, id: u64) -> (acts: Vec<Action>)
        ensures
            send_sticker_step(*self, id, *self, acts@),
    {
        match self.stickers.bytes.get(&id) {
            Some(b) => {
                if self.chats.selected_conversation.is_none() {
                    return no_actions();
                }
                let mime = find_mime(&self.stickers.packs, id);
                one_action(Action::MakeStickerThumb { mime, bytes: copy_bytes(b) })
            },
            None => no_actions(),
        }
    }

    fn sticker_prepared(&mut self, mime: String, thumbnail: String, bytes: Vec<u8>) -> (acts: Vec<
        Action,
    >)
        ensures
            sticker_ready_step(*old(self), mime, thumbnail, bytes, *final(self), acts@),
    {
        let att = Attachment {
            mime,
            name: copy_text("sticker"),
            file_id: new_random_id(),
            file_size: bytes.len() as u64,
            thumbnail,
            bytes,
        };
        let ghost sent = att;
        self.files.pending_attachment = Some(att);
        self.chats.draft = String::new();
        self.chats.busy = true;
        proof {
            assert(is_sticker(sent, mime, thumbnail, bytes));
            assert(*self == sticker_picked(*old(self), sent, self.chats.draft));
        }
        let ghost draft = self.chats.draft;
        let acts = self.do_send();
        proof {
            assert(send_step(sticker_picked(*old(self), sent, draft), *self, acts@));
        }
        acts
    }

    pub fn update_sticker(&mut self, msg: StickerMsg) -> (acts: Vec<Action>)
        ensures
            sticker_step(*old(self), msg, *final(self), acts@),
    {
        match msg {
            StickerMsg::ToggleStickerMenu => {
                self.stickers.menu_open = !self.stickers.menu_open;
                if self.stickers.menu_open && self.stickers.packs.len() == 0 {
                    self.reload_packs()
                } else {
                    no_actions()
                }
            },
            StickerMsg::StickerSearchChanged(q) => {
                self.stickers.search = q;
                self.reload_packs()
            },
            StickerMsg::StickersLoaded(Ok(packs)) => {
                self.stickers.busy = false;
                self.stickers.packs = packs;
                missing_images(&self.stickers.packs, &self.stickers.bytes)
            },
            StickerMsg::StickersLoaded(Err(e)) => {
                self.stickers.busy = false;
                self.handle_api_error(e)
            },
            StickerMsg::SendSticker(id) => self.send_sticker(id),
            StickerMsg::StickerPrepared { mime, thumbnail, bytes } => self.sticker_prepared(
                mime,
                thumbnail,
                bytes,
            ),
            StickerMsg::StickerImageFetched { sticker_id, result } => {
                match result {
                    Ok(bytes) => {
                        self.stickers.bytes.insert(sticker_id, bytes);
                    },
                    Err(_) => {},
                }
                no_actions()
            },
            StickerMsg::StickerPackNameInput(s) => {
                self.stickers.pack_name_input = s;
                no_actions()
            },
            StickerMsg::ToggleStickerPackCreate => {
                self.stickers.pack_create_open = !self.stickers.pack_create_open;
                no_actions()
            },
            StickerMsg::CreateStickerPackSubmit => {
                let name = trim_text(self.stickers.pack_name_input.as_str());
                if name.as_str().is_empty() {
                    return no_actions();
                }
                call(Api::CreateStickerPack { name })
            },
            StickerMsg::StickerPackCreated(Ok(id)) => {
                self.stickers.pack_name_input = String::new();
                one_action(
                    Action::CallThen(
                        Api::LoadStickerPacks { query: self.stickers.search.clone() },
                        Msg::Sticker(StickerMsg::PickStickerImages(id)),
                    ),
                )
            },
            StickerMsg::StickerPackCreated(Err(e)) => self.handle_api_error(e),
            StickerMsg::PickStickerImages(pack_id) => one_action(
                Action::PickStickerImages { pack_id },
            ),
            StickerMsg::StickerImagesPicked { pack_id, result } => match result {
                Ok(items) => upload_all(pack_id, items),
                Err(e) => {
                    self.session.error = e;
                    no_actions()
                },
            },
            StickerMsg::StickerAction(Ok(())) => self.reload_packs(),
            StickerMsg::StickerAction(Err(e)) => self.handle_api_error(e),
            StickerMsg::DeleteSticker { pack_id, sticker_id } => call(
                Api::DeleteSticker { pack_id, sticker_id },
            ),
            StickerMsg::DeleteStickerPack(pack_id) => call(Api::DeleteStickerPack { pack_id }),
        }
    }
}

} // verus!
