//! Stickers: what is loaded, sent, made and deleted.

use vstd::prelude::*;

use crate::chat::action::{Action, Api};
use crate::chat::msg::{Msg, StickerMsg};
use crate::chat::state::AppState;
use crate::chat::stickers::{mime_in_pack, mime_in_packs, pack_images, sticker_images, sticker_mime};
use crate::chat::types::{Sticker, StickerPack};
use crate::chat::update::step;
use crate::text::trim;

verus! {

proof fn lemma_pack_images(ss: Seq<Sticker>, known: Map<u64, Vec<u8>>)
    ensures
        forall|k: int|
            0 <= k < ss.len() && !known.contains_key((#[trigger] ss[k]).id) ==> pack_images(
                ss,
                known,
            ).contains(Action::Call(Api::StickerImage { sticker_id: ss[k].id })),
    decreases ss.len(),
{
    if ss.len() > 0 {
        let init = ss.drop_last();
        lemma_pack_images(init, known);
        let rest = pack_images(init, known);
        let all = pack_images(ss, known);
        assert forall|k: int| 0 <= k < ss.len() && !known.contains_key((#[trigger] ss[k]).id) implies all.contains(
            Action::Call(Api::StickerImage { sticker_id: ss[k].id }),
        ) by {
            let a = Action::Call(Api::StickerImage { sticker_id: ss[k].id });
            if k < init.len() {
                assert(init[k] == ss[k]);
                let i = choose|i: int| 0 <= i < rest.len() && rest[i] == a;
                assert(all[i] == a);
            } else {
                assert(all[all.len() - 1] == a);
            }
        }
    }
}

proof fn lemma_sticker_images(ps: Seq<StickerPack>, known: Map<u64, Vec<u8>>, p: int, k: int)
    requires
        0 <= p < ps.len(),
        0 <= k < ps[p].stickers@.len(),
        !known.contains_key(ps[p].stickers@[k].id),
    ensures
        sticker_images(ps, known).contains(
            Action::Call(Api::StickerImage { sticker_id: ps[p].stickers@[k].id }),
        ),
    decreases ps.len(),
{
    let init = ps.drop_last();
    let rest = sticker_images(init, known);
    let more = pack_images(ps.last().stickers@, known);
    let all = sticker_images(ps, known);
    let a = Action::Call(Api::StickerImage { sticker_id: ps[p].stickers@[k].id });
    if p < init.len() {
        assert(init[p] == ps[p]);
        lemma_sticker_images(init, known, p, k);
        let i = choose|i: int| 0 <= i < rest.len() && rest[i] == a;
        assert(all[i] == a);
    } else {
        lemma_pack_images(ps.last().stickers@, known);
        assert(ps.last().stickers@[k] == ps[p].stickers@[k]);
        let i = choose|i: int| 0 <= i < more.len() && more[i] == a;
        assert(all[rest.len() + i] == a);
    }
}

/// The packs that were loaded are listed, and the picture of every sticker that has none yet is asked
/// for.
pub proof fn loaded_packs_are_listed(
    pre: AppState,
    packs: Vec<StickerPack>,
    now: u64,
    post: AppState,
    acts: Seq<Action>,
    p: int,
    k: int,
)
    requires
        step(pre, Msg::Sticker(StickerMsg::StickersLoaded(Ok(packs))), now, post, acts),
    ensures
        post.stickers.packs == packs,
        !post.stickers.busy,
        0 <= p < packs@.len() && 0 <= k < packs@[p].stickers@.len()
            && !pre.stickers.bytes@.contains_key(packs@[p].stickers@[k].id) ==> acts.contains(
            Action::Call(Api::StickerImage { sticker_id: packs@[p].stickers@[k].id }),
        ),
{
    if 0 <= p < packs@.len() && 0 <= k < packs@[p].stickers@.len()
        && !pre.stickers.bytes@.contains_key(packs@[p].stickers@[k].id) {
        lemma_sticker_images(packs@, pre.stickers.bytes@, p, k);
    }
}

/// The picture of a sticker is kept as that of the sticker.
pub proof fn sticker_pictures_are_kept(
    pre: AppState,
    sticker_id: u64,
    bytes: Vec<u8>,
    now: u64,
    post: AppState,
    acts: Seq<Action>,
    other: u64,
)
    requires
        step(
            pre,
            Msg::Sticker(StickerMsg::StickerImageFetched { sticker_id, result: Ok(bytes) }),
            now,
            post,
            acts,
        ),
        other != sticker_id,
    ensures
        post.stickers.bytes@.contains_key(sticker_id),
        post.stickers.bytes@[sticker_id] == bytes,
        post.stickers.bytes@.contains_key(other) == pre.stickers.bytes@.contains_key(other),
{
}

proof fn lemma_mime_in_pack(ss: Seq<Sticker>, id: u64)
    ensures
        mime_in_pack(ss, id) is None <==> forall|k: int|
            0 <= k < ss.len() ==> (#[trigger] ss[k]).id != id,
        mime_in_pack(ss, id) matches Some(m) ==> exists|k: int|
            0 <= k < ss.len() && (#[trigger] ss[k]).id == id && ss[k].mime@ == m,
    decreases ss.len(),
{
    if ss.len() > 0 {
        if ss[0].id == id {
            assert(ss[0].mime@ == mime_in_pack(ss, id)->0);
        } else {
            let rest = ss.drop_first();
            lemma_mime_in_pack(rest, id);
            if mime_in_pack(rest, id) is Some {
                let k = choose|k: int|
                    0 <= k < rest.len() && (#[trigger] rest[k]).id == id && rest[k].mime@
                        == mime_in_pack(rest, id)->0;
                assert(ss[k + 1] == rest[k]);
            } else {
                assert forall|k: int| 0 <= k < ss.len() implies (#[trigger] ss[k]).id != id by {
                    if k > 0 {
                        assert(rest[k - 1] == ss[k]);
                    }
                }
            }
        }
    }
}

proof fn lemma_mime_in_packs(ps: Seq<StickerPack>, id: u64)
    ensures
        mime_in_packs(ps, id) is None <==> forall|p: int, k: int|
            0 <= p < ps.len() && 0 <= k < ps[p].stickers@.len() ==> (
            #[trigger] ps[p].stickers@[k]).id != id,
        mime_in_packs(ps, id) matches Some(m) ==> exists|p: int, k: int|
            0 <= p < ps.len() && 0 <= k < ps[p].stickers@.len() && (
            #[trigger] ps[p].stickers@[k]).id == id && ps[p].stickers@[k].mime@ == m,
    decreases ps.len(),
{
    if ps.len() > 0 {
        let ss = ps[0].stickers@;
        lemma_mime_in_pack(ss, id);
        if mime_in_pack(ss, id) is Some {
            let k = choose|k: int|
                0 <= k < ss.len() && (#[trigger] ss[k]).id == id && ss[k].mime@ == mime_in_pack(
                    ss,
                    id,
                )->0;
            assert(ps[0].stickers@[k].id == id);
        } else {
            let rest = ps.drop_first();
            lemma_mime_in_packs(rest, id);
            if mime_in_packs(rest, id) is Some {
                let m = mime_in_packs(rest, id)->0;
                let (p, k) = choose|p: int, k: int|
                    0 <= p < rest.len() && 0 <= k < rest[p].stickers@.len() && (
                    #[trigger] rest[p].stickers@[k]).id == id && rest[p].stickers@[k].mime@ == m;
                assert(ps[p + 1] == rest[p]);
                assert(ps[p + 1].stickers@[k].id == id);
            } else {
                assert forall|p: int, k: int|
                    0 <= p < ps.len() && 0 <= k < ps[p].stickers@.len() implies (
                #[trigger] ps[p].stickers@[k]).id != id by {
                    if p > 0 {
                        assert(rest[p - 1] == ps[p]);
                        assert(rest[p - 1].stickers@[k].id != id);
                    }
                }
            }
        }
    }
}

/// A sticker goes out with its own bytes and the media type that its pack names.
pub proof fn stickers_go_out_as_they_are(
    pre: AppState,
    id: u64,
    now: u64,
    post: AppState,
    acts: Seq<Action>,
)
    requires
        step(pre, Msg::Sticker(StickerMsg::SendSticker(id)), now, post, acts),
    ensures
        pre.stickers.bytes@.contains_key(id) && pre.chats.selected_conversation is Some ==> acts.len()
            == 1 && (acts[0] matches Action::MakeStickerThumb { mime, bytes } && bytes@
            == pre.stickers.bytes@[id]@ && ((exists|p: int, k: int|
            0 <= p < pre.stickers.packs@.len() && 0 <= k < pre.stickers.packs@[p].stickers@.len() && (
            #[trigger] pre.stickers.packs@[p].stickers@[k]).id == id
                && pre.stickers.packs@[p].stickers@[k].mime@ == mime@) || (mime@ == "image/webp"@
            && forall|p: int, k: int|
            0 <= p < pre.stickers.packs@.len() && 0 <= k < pre.stickers.packs@[p].stickers@.len() ==> (
            #[trigger] pre.stickers.packs@[p].stickers@[k]).id != id))),
        !pre.stickers.bytes@.contains_key(id) || pre.chats.selected_conversation is None
            ==> acts.len() == 0,
{
    lemma_mime_in_packs(pre.stickers.packs@, id);
    assert(sticker_mime(pre.stickers.packs@, id) == match mime_in_packs(pre.stickers.packs@, id) {
        Some(m) => m,
        None => "image/webp"@,
    });
}

/// A sticker that is ready is sent to the open conversation as a file of its own, with no text.
pub proof fn ready_stickers_are_sent(
    pre: AppState,
    mime: String,
    thumbnail: String,
    bytes: Vec<u8>,
    conv: u64,
    now: u64,
    post: AppState,
    acts: Seq<Action>,
)
    requires
        step(
            pre,
            Msg::Sticker(StickerMsg::StickerPrepared { mime, thumbnail, bytes }),
            now,
            post,
            acts,
        ),
        pre.chats.selected_conversation == Some(conv),
    ensures
        acts.len() > 0,
        acts.last() matches Action::Call(Api::SendMessage { conversation_id, body, file })
            && conversation_id == conv && body@.len() == 0 && (file matches Some(f) && f.mime == mime
            && f.thumbnail == thumbnail && f.file_size == bytes@.len() && f.name@ == "sticker"@),
        post.files.pending_attachment is None,
{
    crate::text::trimming_takes_only_whitespace(Seq::empty());
    assert forall|d: Seq<char>| d.len() == 0 implies #[trigger] trim(d).len() == 0 by {
        crate::text::trimming_takes_only_whitespace(d);
    }
}

/// Packs are searched for by what was typed, made under the name that was typed, filled with the
/// pictures that were picked, and deleted; and they are loaded again after each change.
pub proof fn packs_are_kept_in_order(
    pre: AppState,
    q: String,
    id: u64,
    sticker_id: u64,
    m: StickerMsg,
    now: u64,
    post: AppState,
    acts: Seq<Action>,
)
    requires
        step(pre, Msg::Sticker(m), now, post, acts),
    ensures
        m == StickerMsg::StickerSearchChanged(q) ==> post.stickers.search == q && acts == seq![
            Action::Call(Api::LoadStickerPacks { query: q }),
        ],
        m == StickerMsg::StickerPackNameInput(q) ==> post.stickers.pack_name_input == q,
        m == StickerMsg::ToggleStickerMenu ==> post.stickers.menu_open != pre.stickers.menu_open,
        m == StickerMsg::ToggleStickerMenu && !pre.stickers.menu_open && pre.stickers.packs@.len()
            == 0 ==> acts == seq![
            Action::Call(Api::LoadStickerPacks { query: pre.stickers.search }),
        ],
        m == StickerMsg::CreateStickerPackSubmit ==> (if trim(pre.stickers.pack_name_input@).len()
            == 0 {
            acts.len() == 0
        } else {
            acts.len() == 1 && (acts[0] matches Action::Call(Api::CreateStickerPack { name }) && name@
                == trim(pre.stickers.pack_name_input@))
        }),
        m == StickerMsg::PickStickerImages(id) ==> acts == seq![
            Action::PickStickerImages { pack_id: id },
        ],
        m == StickerMsg::StickerAction(Ok(())) ==> acts == seq![
            Action::Call(Api::LoadStickerPacks { query: pre.stickers.search }),
        ],
        m == (StickerMsg::DeleteSticker { pack_id: id, sticker_id }) ==> acts == seq![
            Action::Call(Api::DeleteSticker { pack_id: id, sticker_id }),
        ],
        m == StickerMsg::DeleteStickerPack(id) ==> acts == seq![
            Action::Call(Api::DeleteStickerPack { pack_id: id }),
        ],
{
}

/// Every picture that was picked is uploaded to the pack, under its name and media type.
pub proof fn picked_pictures_are_uploaded(
    pre: AppState,
    pack_id: u64,
    items: Vec<(String, String, Vec<u8>)>,
    now: u64,
    post: AppState,
    acts: Seq<Action>,
    k: int,
)
    requires
        step(
            pre,
            Msg::Sticker(StickerMsg::StickerImagesPicked { pack_id, result: Ok(items) }),
            now,
            post,
            acts,
        ),
        0 <= k < items@.len(),
    ensures
        acts.len() == items@.len(),
        acts[k] == Action::Call(
            Api::UploadSticker {
                pack_id,
                name: items@[k].0,
                mime: items@[k].1,
                bytes: items@[k].2,
            },
        ),
{
}

/// The form for a new pack opens and closes; a pack that was made is listed, and its pictures are asked
/// for.
pub proof fn packs_are_made(pre: AppState, msg: StickerMsg, now: u64, post: AppState, acts: Seq<Action>)
    requires
        step(pre, Msg::Sticker(msg), now, post, acts),
    ensures
        msg is ToggleStickerPackCreate ==> post.stickers.pack_create_open
            != pre.stickers.pack_create_open && acts.len() == 0,
        msg matches StickerMsg::StickerPackCreated(Ok(id)) ==> acts.len() == 1 && acts[0]
            == Action::CallThen(
            Api::LoadStickerPacks { query: pre.stickers.search },
            Msg::Sticker(StickerMsg::PickStickerImages(id)),
        ) && post.stickers.pack_name_input@.len() == 0,
{
}

} // verus!
