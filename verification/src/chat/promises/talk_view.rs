//! What the chat shows: the open conversation, the lists beside it, and what lies in front of it.

use vstd::prelude::*;

use crate::chat::files::is_image_mime;
use crate::chat::msg::{ConvMsg, FileMsg, Msg, NewConvMsg, ProfileMsg, VoiceMsg};
use crate::chat::state::{self_id, AppState, Files};
use crate::chat::types::{ApiMsg, Conversation, GuildChannel, Profile};
use crate::chat::view::area::{
    are_bubbles, is_card_for, is_composer, is_file_card, is_header, open_conv, present_images,
    ComposerView, FileCard, FilePicture, Header, LinkCard,
};
use crate::chat::view::area::Bubble;
use crate::chat::view::body::{
    all_segments, line_segments, pieces_make_the_line, segment_models, text_of_pieces,
};
use crate::chat::view::layers::{
    are_layers, conv_menu_of, is_profile_view, message_menu_of, About, Layers, ProfileView,
};
use crate::chat::view::parts::{is_face, open_guild, Control, Face};
use crate::chat::view::sidebar::{
    is_channel_row, is_conv_row, is_sidebar, loose, ChannelRow, ConvRow, List, SidebarView,
};
use crate::desktop::state::is_online;
use crate::identity::{first_other, shown_name};
use crate::number::decimal;
use crate::ordered::{holds, position};
use crate::text::{or_empty, splitting_goes_piece_by_piece, texts};

verus! {

/// Every message is shown at its place: whose it is, what it says, and whether it was changed. A
/// message of one line is shown whole.
pub proof fn messages_are_shown(bs: Seq<Bubble>, s: AppState, id: u64, i: int)
    requires
        are_bubbles(bs, s, id),
        0 <= i < s.chats.messages@.len(),
    ensures
        bs.len() == s.chats.messages@.len(),
        bs[i].message_id == s.chats.messages@[i].id,
        bs[i].sender_id == s.chats.messages@[i].sender_id,
        s.session.user matches Some(u) ==> bs[i].own == (u.id == s.chats.messages@[i].sender_id),
        s.session.user is None ==> !bs[i].own,
        bs[i].edited <==> s.chats.messages@[i].edited_at is Some,
        bs[i].original == s.chats.messages@[i].original_body,
        bs[i].file is Some <==> s.chats.messages@[i].file_id is Some,
        !s.chats.messages@[i].body@.contains('\n') ==> text_of_pieces(segment_models(bs[i].body@))
            == s.chats.messages@[i].body@,
{
    assert(bs[i].message_id == s.chats.messages@[i].id);
    let body = s.chats.messages@[i].body@;
    if !body.contains('\n') {
        splitting_goes_piece_by_piece(body, '\n', Seq::empty());
        let lines = seq![body];
        assert(lines.drop_last() =~= Seq::empty());
        assert(all_segments(lines.drop_last()) =~= Seq::empty());
        assert(lines.last() == body);
        assert(all_segments(lines) =~= line_segments(body));
        pieces_make_the_line(body);
    }
}

/// A file that is here can be opened and needs no status; one that is not here says how its transfer
/// stands, and one whose transfer failed can be tried again.
pub proof fn files_are_shown(c: FileCard, m: ApiMsg, f: Files, own: bool, id: String)
    requires
        is_file_card(c, m, f, own),
        m.file_id == Some(id),
    ensures
        c.file_id == id,
        c.open_msg == Msg::File(FileMsg::OpenFile(m.id)),
        c.picture is Some <==> is_image_mime(or_empty(m.attachment_mime)),
        own || f.downloaded@.contains_key(id@) ==> c.status is None,
        (own || f.downloaded@.contains_key(id@)) && !is_image_mime(or_empty(m.attachment_mime)) ==> (
        c.open matches Some(Control::Press { label, msg }) && label@ == "Open"@ && msg == Msg::File(
            FileMsg::OpenFile(m.id),
        )),
        !own && !f.downloaded@.contains_key(id@) && f.p2p_status@.contains_key(id@)
            && f.p2p_status@[id@]@ == "error"@ ==> (c.status matches Some(
            Control::Press { label, msg },
        ) && msg == Msg::File(FileMsg::RetryFile(m.id))),
        !own && !f.downloaded@.contains_key(id@) && f.p2p_status@.contains_key(id@)
            && f.p2p_status@[id@]@ == "offline"@ ==> (c.status matches Some(
            Control::Press { label, msg },
        ) && msg == Msg::File(FileMsg::RetryFile(m.id))),
        !own && !f.downloaded@.contains_key(id@) && !f.p2p_status@.contains_key(id@) ==> (
        c.status matches Some(Control::Idle(t)) && t@ == "waiting…"@),
        m.attachment_name matches Some(n) ==> c.name@ == n@,
        is_image_mime(or_empty(m.attachment_mime)) && own && f.own_full@.contains_key(id@)
            ==> c.picture == Some(FilePicture::Own),
        is_image_mime(or_empty(m.attachment_mime)) && !own && f.downloaded@.contains_key(id@)
            && f.downloaded@[id@].image is Some ==> c.picture == Some(FilePicture::Received),
{
    reveal_strlit("error");
    reveal_strlit("offline");
    reveal_strlit("waiting…");
}

proof fn lemma_present_images(urls: Seq<String>, media: Map<Seq<char>, Vec<u8>>, i: int)
    requires
        0 <= i < urls.len(),
    ensures
        media.contains_key(urls[i]@) ==> present_images(urls, media).contains(urls[i]@),
        forall|u: Seq<char>| #[trigger]
            present_images(urls, media).contains(u) ==> media.contains_key(u),
    decreases urls.len(),
{
    let rest = urls.drop_last();
    let v = present_images(rest, media);
    let all = present_images(urls, media);
    if rest.len() > 0 {
        lemma_present_images(
            rest,
            media,
            if i < rest.len() {
                i
            } else {
                0
            },
        );
    }
    if i < rest.len() {
        assert(rest[i] == urls[i]);
        if media.contains_key(urls[i]@) {
            let k = choose|k: int| 0 <= k < v.len() && v[k] == urls[i]@;
            assert(all[k] == urls[i]@);
        }
    } else if media.contains_key(urls[i]@) {
        assert(all[v.len() as int] == urls[i]@);
    }
    assert forall|u: Seq<char>| #[trigger] all.contains(u) implies media.contains_key(u) by {
        let k = choose|k: int| 0 <= k < all.len() && all[k] == u;
        if k < v.len() {
            assert(v[k] == u);
            assert(v.contains(u));
        }
    }
}

/// What is known of a link is shown: its title, what it says, its address, and every picture of it that
/// is here.
pub proof fn links_are_shown(c: LinkCard, url: Seq<char>, f: Files, i: int)
    requires
        is_card_for(c, url, f),
    ensures
        f.preview_loading@.contains_key(url) ==> c is Loading,
        !f.preview_loading@.contains_key(url) ==> (c matches LinkCard::Card {
            images,
            title,
            description,
            url: at,
        } && at == f.link_previews@[url].url && (0 <= i < f.link_previews@[url].images@.len()
            && f.media@.contains_key(f.link_previews@[url].images@[i]@) ==> texts(images@).contains(
            f.link_previews@[url].images@[i]@,
        ))),
        !f.preview_loading@.contains_key(url) ==> (f.link_previews@[url].title matches Some(t)
            ==> (t@.len() > 0 ==> (c matches LinkCard::Card { title, .. } && title == Some(t)))),
        !f.preview_loading@.contains_key(url) ==> (f.link_previews@[url].description matches Some(d)
            ==> (d@.len() > 0 ==> (c matches LinkCard::Card { description, .. } && description is Some))),
{
    let p = f.link_previews@[url];
    if !f.preview_loading@.contains_key(url) && 0 <= i < p.images@.len() {
        lemma_present_images(p.images@, f.media@, i);
    }
}

/// While a message is being changed nothing is sent; else what was written can be sent and a file
/// added, unless one is under way.
pub proof fn messages_are_written(c: ComposerView, s: AppState)
    requires
        is_composer(c, s),
    ensures
        s.chats.editing_message_id is Some ==> (c matches ComposerView::Editing { draft } && draft
            == s.chats.draft),
        s.chats.editing_message_id is None ==> (c matches ComposerView::Writing { draft, .. } && draft
            == s.chats.draft),
        s.chats.editing_message_id is None && !s.chats.busy ==> (c matches ComposerView::Writing {
            send: Control::Press { msg, .. },
            ..
        } && msg == Msg::Conv(ConvMsg::SendMessage)),
        s.chats.editing_message_id is None && s.chats.busy ==> (c matches ComposerView::Writing {
            send: Control::Spinner,
            ..
        }),
        s.chats.editing_message_id is None && !s.files.picking_file ==> (
        c matches ComposerView::Writing { attach: Control::Press { msg, .. }, .. } && msg == Msg::File(
            FileMsg::PickFile,
        )),
        s.chats.editing_message_id is None ==> (s.files.pending_attachment matches Some(a) ==> (
        c matches ComposerView::Writing { pending: Some(p), .. } && p.file_id == a.file_id && p.name
            == a.name)),
        s.chats.editing_message_id is None && s.files.pending_attachment is None ==> (
        c matches ComposerView::Writing { pending: None, .. }),
{
}

/// A chat between two is called after the other one and tells whether they are there; one that types
/// is named instead.
pub proof fn headers_tell_of_the_other(h: Header, s: AppState, id: u64, now: u64, c: Conversation)
    requires
        is_header(h, s, id, now),
        s.guilds.selected_guild is None,
        open_conv(s.chats.conversations@, id) == Some(c),
        c.kind@ == "direct"@,
        first_other(c.members@, self_id(s.session.user)) < c.members@.len(),
    ensures
        h.name@ == shown_name(c.members@[first_other(c.members@, self_id(s.session.user))]),
        h.profile == Some(c.members@[first_other(c.members@, self_id(s.session.user))].id),
        h.online == is_online(
            s.chats.presence@,
            c.members@[first_other(c.members@, self_id(s.session.user))].id,
        ),
        h.bot == c.members@[first_other(c.members@, self_id(s.session.user))].is_bot,
        !h.typing && h.online ==> h.status@ == "Online"@,
        !h.typing && !h.online ==> h.status@ == "Offline"@,
        h.typing ==> s.chats.typing@.contains_key(id) && h.status@ == s.chats.typing@[id].0@
            + " is typing…"@,
{
    reveal_strlit("direct");
    reveal_strlit("group");
    reveal_strlit("large_group");
    assert("direct"@[0] != "group"@[0]);
    assert("direct"@[0] != "large_group"@[0]);
}

/// A row of a channel does what the channel is for: a voice channel is joined, another one is opened.
/// It tells of unread messages, and which channel is open.
pub proof fn channels_are_opened(r: ChannelRow, ch: GuildChannel, s: AppState, in_voice: Option<u64>)
    requires
        is_channel_row(r, ch, s, in_voice),
    ensures
        r.name == ch.name,
        ch.channel_type@ == "voice"@ ==> r.voice && r.msg == Msg::Voice(VoiceMsg::VoiceJoin(ch.id))
            && r.unread is None,
        ch.channel_type@ != "voice"@ ==> !r.voice && r.msg == Msg::Conv(
            ConvMsg::SelectConversation(ch.id),
        ),
        ch.channel_type@ != "voice"@ && s.chats.unread@.contains_key(ch.id) && s.chats.unread@[ch.id]
            > 0 ==> r.unread == Some(s.chats.unread@[ch.id]),
        !s.chats.unread@.contains_key(ch.id) ==> r.unread is None,
        s.chats.selected_conversation == Some(ch.id) <==> r.emphasis is Selected,
        s.chats.selected_conversation != Some(ch.id) && in_voice == Some(ch.id)
            ==> r.emphasis is InVoice,
{
}

/// A row of a conversation is that of the conversation, tells of unread messages, whether the other one
/// is there, and whether it is open.
pub proof fn conversations_are_shown(r: ConvRow, c: Conversation, s: AppState)
    requires
        is_conv_row(r, c, s),
    ensures
        r.conversation_id == c.id,
        r.selected <==> s.chats.selected_conversation == Some(c.id),
        s.chats.unread@.contains_key(c.id) && s.chats.unread@[c.id] > 0 ==> r.unread == Some(
            s.chats.unread@[c.id],
        ),
        !s.chats.unread@.contains_key(c.id) ==> r.unread is None,
        first_other(c.members@, self_id(s.session.user)) < c.members@.len() ==> r.online == is_online(
            s.chats.presence@,
            c.members@[first_other(c.members@, self_id(s.session.user))].id,
        ),
        c.kind@ == "direct"@ && first_other(c.members@, self_id(s.session.user)) < c.members@.len()
            ==> r.name@ == shown_name(
            c.members@[first_other(c.members@, self_id(s.session.user))],
        ) && (r.tag is Bot <==> c.members@[first_other(c.members@, self_id(s.session.user))].is_bot),
        c.kind@ == "large_group"@ ==> r.tag is Channel,
        c.kind@ == "group"@ ==> r.tag is Group,
{
    reveal_strlit("direct");
    reveal_strlit("group");
    reveal_strlit("large_group");
    assert("direct"@[0] != "group"@[0]);
    assert("direct"@[0] != "large_group"@[0]);
    assert("group"@[0] != "large_group"@[0]);
}

proof fn lemma_loose(cs: Seq<Conversation>)
    ensures
        loose(cs).len() <= cs.len(),
        forall|c: Conversation| loose(cs).contains(c) <==> cs.contains(c) && c.guild_id is None,
    decreases cs.len(),
{
    if cs.len() > 0 {
        let rest = cs.drop_last();
        lemma_loose(rest);
        let v = loose(rest);
        let all = loose(cs);
        assert forall|c: Conversation| all.contains(c) <==> cs.contains(c) && c.guild_id is None by {
            assert(cs[cs.len() - 1] == cs.last());
            if cs.contains(c) {
                let i = choose|i: int| 0 <= i < cs.len() && cs[i] == c;
                if i < rest.len() {
                    assert(rest[i] == c);
                }
            }
            if rest.contains(c) {
                let i = choose|i: int| 0 <= i < rest.len() && rest[i] == c;
                assert(cs[i] == c);
            }
            if v.contains(c) {
                let i = choose|i: int| 0 <= i < v.len() && v[i] == c;
                assert(all[i] == c);
            }
            if all.len() > v.len() {
                assert(all[v.len() as int] == cs.last());
                if all.contains(c) && c != cs.last() {
                    let i = choose|i: int| 0 <= i < all.len() && all[i] == c;
                    assert(v[i] == c);
                }
            }
        }
    }
}

/// With no server open, every conversation that belongs to none is listed, and no other.
pub proof fn conversations_are_listed(
    v: SidebarView,
    s: AppState,
    in_voice: Option<u64>,
    c: Conversation,
    k: int,
)
    requires
        is_sidebar(v, s, in_voice),
        s.guilds.selected_guild is None,
        s.chats.conversations@.contains(c),
    ensures
        v.tab == s.guilds.left_tab,
        v.rail@.len() == s.guilds.guilds@.len(),
        c.guild_id is None ==> (v.list matches List::Conversations(rows) && (exists|i: int|
            0 <= i < rows@.len() && (#[trigger] rows@[i]).conversation_id == c.id)),
        v.list matches List::Conversations(rows) && (0 <= k < rows@.len() ==> exists|o: Conversation|
         #[trigger]
            s.chats.conversations@.contains(o) && o.guild_id is None && rows@[k].conversation_id
                == o.id),
{
    lemma_loose(s.chats.conversations@);
    let cs = loose(s.chats.conversations@);
    let rows = v.list->Conversations_0;
    if c.guild_id is None {
        assert(cs.contains(c));
        let i = choose|i: int| 0 <= i < cs.len() && cs[i] == c;
        assert(rows@[i].conversation_id == c.id);
    }
    if 0 <= k < rows@.len() {
        assert(cs.contains(cs[k]));
        assert(s.chats.conversations@.contains(cs[k]));
        assert(rows@[k].conversation_id == cs[k].id);
    }
}

/// An icon leads to its server, and the open one is marked.
pub proof fn servers_are_shown(v: SidebarView, s: AppState, in_voice: Option<u64>, i: int)
    requires
        is_sidebar(v, s, in_voice),
        0 <= i < s.guilds.guilds@.len(),
    ensures
        v.rail@[i].guild_id == s.guilds.guilds@[i].id,
        v.rail@[i].selected <==> s.guilds.selected_guild == Some(s.guilds.guilds@[i].id),
{
    assert(v.rail@[i].guild_id == s.guilds.guilds@[i].id);
}

/// The card of another user leads to a chat with them, and says what would be changed by blocking or
/// muting them; that of the user offers neither.
pub proof fn cards_lead_to_their_user(v: ProfileView, p: Profile, avatars: Map<u64, Vec<u8>>)
    requires
        is_profile_view(v, p, avatars),
    ensures
        v.display_name == p.display_name,
        v.handle@ == "@"@ + p.username@,
        p.is_self ==> v.message is None && v.moderation is None,
        !p.is_self ==> v.message == Some(Msg::NewConv(NewConvMsg::NewConvWithUser(p.id))),
        !p.is_self && !p.blocked_by ==> (v.moderation matches Some(
            (Control::Press { label: bl, msg: block }, Control::Press { label: ml, msg: mute }),
        ) && block == Msg::Profile(ProfileMsg::ToggleBlock(p.id)) && mute == Msg::Profile(
            ProfileMsg::ToggleMute(p.id),
        ) && (p.blocked ==> bl@ == "Unblock"@) && (!p.blocked ==> bl@ == "Block"@) && (p.muted
            ==> ml@ == "Unmute"@) && (!p.muted ==> ml@ == "Mute"@)),
        p.restricted ==> v.about is Private,
        !p.restricted && p.bio@.len() > 0 ==> v.about == About::Bio(p.bio),
        v.blocked == p.blocked && v.muted == p.muted && v.bot == p.is_bot,
{
}

/// The menu of a message offers to change and to delete that message, if it is the user's own; that of
/// a conversation to delete that conversation.
pub proof fn menus_act_on_what_they_are_for(l: Layers, s: AppState, id: u64)
    requires
        are_layers(l, s),
    ensures
        s.menus.context_menu_msg == Some(id) && holds(s.chats.messages@, id) && s.session.user is Some
            && s.chats.messages@[position(s.chats.messages@, id)].sender_id == s.session.user->0.id ==> (
        l.message_menu matches Some(m) && m@.len() == 3 && (m@[0] matches Control::Press { msg, .. }
            && msg == Msg::Conv(ConvMsg::StartEdit(id))) && (m@[1] matches Control::Press { msg, .. }
            && msg == Msg::Conv(ConvMsg::DeleteMessage(id)))),
        s.menus.context_menu_msg is None ==> l.message_menu is None,
        s.menus.conv_menu_conv == Some(id) ==> (l.conv_menu matches Some(m) && m@.len() == 2 && (
        m@[0] matches Control::Press { msg, .. } && msg == Msg::Conv(ConvMsg::DeleteConversation(id)))),
        s.menus.conv_menu_conv is None ==> l.conv_menu is None,
        l.profile is Some <==> s.people.profile is Some && s.people.profile_open,
        l.original == s.chats.original_body_text,
        l.new_conv == s.new_conv.open,
        l.guild_modal == s.guilds.modal_open,
        l.guild_settings == s.guilds.settings_open,
{
    if s.menus.context_menu_msg == Some(id) && l.message_menu is Some {
        let m = l.message_menu->0@;
        let own = holds(s.chats.messages@, id) && self_id(s.session.user) == Some(
            s.chats.messages@[position(s.chats.messages@, id)].sender_id,
        );
        if own {
            assert(message_menu_of(id, true)[0].1 == Msg::Conv(ConvMsg::StartEdit(id)));
            assert(m[0] matches Control::Press { msg, .. } && msg == message_menu_of(id, true)[0].1);
            assert(m[1] matches Control::Press { msg, .. } && msg == message_menu_of(id, true)[1].1);
        }
    }
    if s.menus.conv_menu_conv == Some(id) && l.conv_menu is Some {
        let m = l.conv_menu->0@;
        assert(m[0] matches Control::Press { msg, .. } && msg == conv_menu_of(id)[0].1);
    }
}

/// A user is shown by their picture where it is here, and by letters else.
pub proof fn faces_are_shown(f: Face, avatars: Map<u64, Vec<u8>>, user: u64, name: Seq<char>)
    requires
        is_face(f, avatars, user, name),
    ensures
        avatars.contains_key(user) ==> f == (Face::Picture { user_id: user }),
        !avatars.contains_key(user) ==> f is Letters,
{
}

/// A group is called by the number of its members, and a channel of the open server after that server;
/// the line below says the channel, or how many there are.
pub proof fn headers_tell_of_the_group(h: Header, s: AppState, id: u64, now: u64, c: Conversation)
    requires
        is_header(h, s, id, now),
        open_conv(s.chats.conversations@, id) == Some(c),
        c.kind@ == "group"@ || c.kind@ == "large_group"@,
    ensures
        s.guilds.selected_guild is None ==> h.name@ == "Group · "@ + decimal(c.members@.len())
            + " members"@,
        s.guilds.selected_guild is None && !h.typing ==> h.status@ == decimal(c.members@.len())
            + " members"@,
        open_guild(s.guilds.guilds@, s.guilds.selected_guild) matches Some(g) ==> h.name@ == g.name@,
        !h.bot,
        h.typing ==> h.status@ == s.chats.typing@[id].0@ + " is typing…"@,
{
}

} // verus!
