//! What becomes of an answer: the message that it is handled as, whatever the request was.

use vstd::prelude::*;

use crate::chat::action::Api;
use crate::chat::answers::{concluded, Found};
use crate::chat::msg::{
    AuthMsg, ConvMsg, FileMsg, GuildAdminMsg, GuildMsg, Msg, NewConvMsg, ProfileMsg, StickerMsg,
    VoiceMsg, WsMsg,
};
use crate::chat::requests::Reply;
use crate::chat::socket::{socket_step, Deed, Happening, Stage};
use crate::chat::start::{with_cached, CachedFile};
use crate::chat::types::{
    ApiMsg, Conversation, DownloadedFile, Guild, Profile, SearchUser, SessionInfo, StickerPack,
    TwoFaSetupInfo, User,
};
use crate::json::{json_flag, json_number, json_text};

verus! {

/// An answer that went well.
pub open spec fn went_well(reply: Reply) -> bool {
    reply matches Reply::Answer { code, status, body } && 200 <= code && code < 300
}

/// The text of an answer.
pub open spec fn answered(reply: Reply) -> Seq<char> {
    reply->body@
}

/// A login that went well makes a session with the token and the account of the answer, unless the
/// server asks for a second factor first.
pub proof fn logins_make_sessions(
    api: Api,
    reply: Reply,
    user: User,
    token: Seq<char>,
    m: Msg,
)
    requires
        concluded(api, reply, Found::Account(Ok(user)), m),
        went_well(reply),
        json_text(answered(reply), "/token"@) == Some(token),
    ensures
        api is Login && json_flag(answered(reply), "/requires_2fa"@) != Some(true) ==> (m matches Msg::Auth(
            AuthMsg::LoginResult(Ok((t, u))),
        ) && t@ == token && u == user),
        api is Register ==> (m matches Msg::Auth(AuthMsg::RegisterResult(Ok((t, u)))) && t@ == token
            && u == user),
        api is LoginTwoFa ==> (m matches Msg::Auth(AuthMsg::TwoFaResult(Ok((t, u)))) && t@ == token
            && u == user),
        api is Verify ==> m == Msg::Auth(AuthMsg::VerifyResult(Ok(user))),
        api is TwoFaEnable ==> m == Msg::Auth(AuthMsg::TwoFaToggleResult(Ok(user))),
{
}

/// A server that asks for a second factor gets it asked for, with the token that it gave for that.
pub proof fn second_factors_are_asked_for(
    email: String,
    password: String,
    remember_me: bool,
    reply: Reply,
    found: Found,
    pending: Seq<char>,
    m: Msg,
)
    requires
        concluded(Api::Login { email, password, remember_me }, reply, found, m),
        went_well(reply),
        json_flag(answered(reply), "/requires_2fa"@) == Some(true),
        json_text(answered(reply), "/pending_token"@) == Some(pending),
    ensures
        m matches Msg::Auth(AuthMsg::LoginNeeds2fa(t)) && t@ == pending,
{
}

/// What was loaded is handed on as what it is, for the conversation that was asked about.
pub proof fn loaded_things_are_handed_on(
    api: Api,
    reply: Reply,
    found: Found,
    m: Msg,
    convs: Vec<Conversation>,
    msgs: Vec<ApiMsg>,
    msg: ApiMsg,
    conv: Conversation,
    id: u64,
)
    requires
        concluded(api, reply, found, m),
        went_well(reply),
    ensures
        api is LoadConversations && found == Found::Conversations(convs) ==> m == Msg::Conv(
            ConvMsg::ConversationsLoaded(Ok(convs)),
        ),
        api == (Api::LoadMessages { conversation_id: id }) && found == Found::Messages(msgs) ==> m
            == Msg::Conv(ConvMsg::MessagesLoaded { conversation_id: id, messages: Ok(msgs) }),
        api is SendMessage && found == Found::Message(Ok(msg)) ==> m == Msg::Conv(
            ConvMsg::MessageSent(Ok(msg)),
        ),
        api is EditMessage && found == Found::Message(Ok(msg)) ==> m == Msg::Conv(
            ConvMsg::EditResult(Ok(msg)),
        ),
        api matches Api::DeleteMessage { conversation_id, message_id } ==> m == Msg::Conv(
            ConvMsg::DeleteResult(message_id),
        ),
        api is MarkRead ==> m == Msg::Noop,
        api is CreateConversation && found == Found::Conversation(Ok(conv)) ==> m == Msg::NewConv(
            NewConvMsg::NewConvCreated(Ok(conv)),
        ),
        api is DeleteConversation ==> (m matches Msg::Conv(ConvMsg::DeleteConversationResult(Ok(_)))),
{
}

/// What was loaded about users, servers and stickers is handed on as what it is.
pub proof fn loaded_people_are_handed_on(
    api: Api,
    reply: Reply,
    found: Found,
    m: Msg,
    hits: Vec<SearchUser>,
    card: Profile,
    user: User,
    devices: Vec<SessionInfo>,
    guilds: Vec<Guild>,
    guild: Guild,
    packs: Vec<StickerPack>,
    setup: TwoFaSetupInfo,
)
    requires
        concluded(api, reply, found, m),
        went_well(reply),
    ensures
        api is SearchUsers && found == Found::Hits(Ok(hits)) ==> m == Msg::NewConv(
            NewConvMsg::NewConvSearchResults(Ok(hits)),
        ),
        api is LoadProfile && found == Found::Card(Ok(card)) ==> m == Msg::Profile(
            ProfileMsg::ProfileLoaded(card),
        ),
        api is Moderate && found == Found::Card(Ok(card)) ==> m == Msg::Profile(
            ProfileMsg::ModerationResult(Ok(card)),
        ),
        (api is SaveSettings || api is SetProfileVisible) && found == Found::Account(Ok(user)) ==> m
            == Msg::Profile(ProfileMsg::SettingsResult(Ok(user))),
        (api is SetAvatar || api is RemoveAvatar) && found == Found::Account(Ok(user)) ==> m
            == Msg::Profile(ProfileMsg::AvatarSaved(Ok(user))),
        api is LoadSessions && found == Found::Devices(Ok(devices)) ==> m == Msg::Profile(
            ProfileMsg::SessionsLoaded(Ok(devices)),
        ),
        api is RevokeSession ==> (m matches Msg::Profile(ProfileMsg::SessionRevoked(Ok(_)))),
        api is LoadGuilds && found == Found::Guilds(Ok(guilds)) ==> m == Msg::Guild(
            GuildMsg::GuildsLoaded(Ok(guilds)),
        ),
        api is LoadGuild && found == Found::Guild(Ok(guild)) ==> m == Msg::GuildAdmin(
            GuildAdminMsg::GuildSettingsLoaded(Ok(guild)),
        ),
        api is LoadStickerPacks && found == Found::Packs(Ok(packs)) ==> m == Msg::Sticker(
            StickerMsg::StickersLoaded(Ok(packs)),
        ),
        api is TwoFaSetup && found == Found::Setup(Ok(setup)) ==> m == Msg::Auth(
            AuthMsg::TwoFaSetupResult(Ok(setup)),
        ),
{
}

/// What was done to a server or a pack is reported as done.
pub proof fn done_things_are_reported(
    api: Api,
    reply: Reply,
    found: Found,
    m: Msg,
    id: u64,
    bytes: Vec<u8>,
    sticker: u64,
)
    requires
        concluded(api, reply, found, m),
        went_well(reply),
    ensures
        api is CreateGuild && json_number(answered(reply), "/guild_id"@) == Some(id) ==> m == Msg::Guild(
            GuildMsg::GuildCreated(Ok(id)),
        ),
        api is JoinGuild ==> (m matches Msg::Guild(GuildMsg::GuildJoined(Ok(_)))),
        api is DeleteGuild ==> (m matches Msg::Guild(GuildMsg::GuildDeleteResult(Ok(_)))),
        api is CreateChannel ==> (m matches Msg::Guild(GuildMsg::ChannelCreated(Ok(_)))),
        api is CreateInvite ==> (json_text(answered(reply), "/code"@) matches Some(c) ==> (m matches Msg::Guild(
            GuildMsg::InviteResult(Ok(t)),
        ) && t@ == c)),
        api is SetAdmin || api is TransferOwner || api is KickMember ==> (m matches Msg::Guild(
            GuildMsg::GuildMemberAction(Ok(_)),
        )),
        api is BanMember || api is UnbanMember || api is CreateRole || api is DeleteRole
            || api is AssignRole || api is RenameChannel || api is DeleteChannel ==> (m matches Msg::GuildAdmin(GuildAdminMsg::GuildAdminAction(Ok(_)))),
        api is CreateStickerPack && json_number(answered(reply), "/id"@) == Some(id) ==> m
            == Msg::Sticker(StickerMsg::StickerPackCreated(Ok(id))),
        api == (Api::StickerImage { sticker_id: sticker }) && found == Found::Bytes(bytes) ==> m
            == Msg::Sticker(
            StickerMsg::StickerImageFetched { sticker_id: sticker, result: Ok(bytes) },
        ),
        api is UploadSticker || api is DeleteSticker || api is DeleteStickerPack ==> (m matches Msg::Sticker(StickerMsg::StickerAction(Ok(_)))),
{
}

/// The error that a message carries, where it carries one.
pub open spec fn error_in(m: Msg) -> Option<String> {
    match m {
        Msg::Error(e) => Some(e),
        Msg::Auth(AuthMsg::LoginResult(Err(e))) => Some(e),
        Msg::Auth(AuthMsg::RegisterResult(Err(e))) => Some(e),
        Msg::Auth(AuthMsg::TwoFaResult(Err(e))) => Some(e),
        Msg::Auth(AuthMsg::VerifyResult(Err(e))) => Some(e),
        Msg::Auth(AuthMsg::TwoFaSetupResult(Err(e))) => Some(e),
        Msg::Auth(AuthMsg::TwoFaToggleResult(Err(e))) => Some(e),
        Msg::Conv(ConvMsg::ConversationsLoaded(Err(e))) => Some(e),
        Msg::Conv(ConvMsg::MessagesLoaded { messages: Err(e), .. }) => Some(e),
        Msg::Conv(ConvMsg::MessageSent(Err(e))) => Some(e),
        Msg::Conv(ConvMsg::EditResult(Err(e))) => Some(e),
        Msg::Conv(ConvMsg::DeleteConversationResult(Err(e))) => Some(e),
        Msg::NewConv(NewConvMsg::NewConvSearchResults(Err(e))) => Some(e),
        Msg::NewConv(NewConvMsg::NewConvCreated(Err(e))) => Some(e),
        Msg::Guild(GuildMsg::GuildsLoaded(Err(e))) => Some(e),
        Msg::Guild(GuildMsg::GuildCreated(Err(e))) => Some(e),
        Msg::Guild(GuildMsg::GuildJoined(Err(e))) => Some(e),
        Msg::Guild(GuildMsg::ChannelCreated(Err(e))) => Some(e),
        Msg::Guild(GuildMsg::GuildDeleteResult(Err(e))) => Some(e),
        Msg::Guild(GuildMsg::InviteResult(Err(e))) => Some(e),
        Msg::Guild(GuildMsg::GuildMemberAction(Err(e))) => Some(e),
        Msg::GuildAdmin(GuildAdminMsg::GuildSettingsLoaded(Err(e))) => Some(e),
        Msg::GuildAdmin(GuildAdminMsg::GuildAdminAction(Err(e))) => Some(e),
        Msg::Sticker(StickerMsg::StickersLoaded(Err(e))) => Some(e),
        Msg::Sticker(StickerMsg::StickerPackCreated(Err(e))) => Some(e),
        Msg::Sticker(StickerMsg::StickerImageFetched { result: Err(e), .. }) => Some(e),
        Msg::Sticker(StickerMsg::StickerAction(Err(e))) => Some(e),
        Msg::Profile(ProfileMsg::ModerationResult(Err(e))) => Some(e),
        Msg::Profile(ProfileMsg::SettingsResult(Err(e))) => Some(e),
        Msg::Profile(ProfileMsg::SessionsLoaded(Err(e))) => Some(e),
        Msg::Profile(ProfileMsg::SessionRevoked(Err(e))) => Some(e),
        Msg::Profile(ProfileMsg::AvatarSaved(Err(e))) => Some(e),
        _ => None,
    }
}

/// An answer that did not come is an error, with the reason that it did not; no request counts as
/// done without an answer.
pub proof fn lost_answers_are_errors(api: Api, why: String, found: Found, m: Msg)
    requires
        concluded(api, Reply::Lost(why), found, m),
    ensures
        error_in(m) matches Some(e) && e@ == why@,
{
}

/// An answer that refuses is an error too: with the words of the server for a login, and with the
/// status for most others. Status 401 ends the session.
pub proof fn refusals_are_errors(
    api: Api,
    code: u16,
    status: String,
    body: String,
    found: Found,
    m: Msg,
)
    requires
        concluded(api, Reply::Answer { code, status, body }, found, m),
        code < 200 || code >= 300,
    ensures
        error_in(m) is Some,
        api is Login ==> error_in(m)->0@ == "login failed: "@ + body@,
        api is LoginTwoFa ==> error_in(m)->0@ == "2fa failed: "@ + body@,
        api is Register ==> error_in(m)->0@ == "register failed: "@ + status@,
        api is Verify ==> error_in(m)->0@ == "verify failed: "@ + status@,
        api is CreateByHandle ==> error_in(m)->0@ == "create failed: "@ + body@,
        !(api is Login || api is LoginTwoFa || api is Register || api is Verify || api is CreateByHandle)
            ==> (code == 401 ==> error_in(m)->0@ == "__auth_failed__"@) && (code != 401 ==> error_in(
            m,
        )->0@ == "request failed: "@ + status@),
{
}

// ---------------------------------------------------------------------------
// The socket
// ---------------------------------------------------------------------------

/// What comes over an open socket is handed on, and what waits to be sent is sent; nothing of it ends
/// the connection.
pub proof fn open_sockets_carry_both_ways(
    h: Happening,
    next: Stage,
    deed: Deed,
)
    requires
        socket_step(Stage::Open, h, next, deed),
    ensures
        h matches Happening::Outgoing(text) ==> next == Stage::Open && deed == Deed::Send(text),
        h matches Happening::Text(Some(e)) ==> next == Stage::Open && deed == Deed::Tell(
            Msg::Ws(WsMsg::WsEvent(e)),
        ),
        h matches Happening::Voice(e) ==> next == Stage::Open && deed == Deed::Tell(
            Msg::Voice(VoiceMsg::VoiceEvent(e)),
        ),
        h matches Happening::P2p { event, percent, contents } ==> next == Stage::Open && deed
            == Deed::Tell(Msg::File(FileMsg::P2pEvent { event, percent, contents })),
        h == Happening::Text(None) || h is Other ==> next == Stage::Open && deed == Deed::Nothing,
{
}

/// The user is told of a connection that stands, and of one that is lost; a server that refuses the
/// session ends it, and any other trouble is followed by another try.
pub proof fn connections_are_reported(h: Happening, next: Stage, deed: Deed)
    requires
        socket_step(Stage::Connecting, h, next, deed),
    ensures
        h is Connected ==> next == Stage::Open && deed == Deed::Tell(Msg::Ws(WsMsg::WsConnected)),
        h == (Happening::Refused { status: Some(401u16) }) || h == (Happening::Refused {
            status: Some(403u16),
        }) ==> next == Stage::Over && (deed matches Deed::TellAndStop(
            Msg::Auth(AuthMsg::SessionExpired(_)),
        )),
        h == (Happening::Refused { status: None }) ==> next == Stage::Pausing && deed
            == Deed::TellAndPause(Msg::Ws(WsMsg::WsDisconnected), 3),
        h matches Happening::Refused { status: Some(code) } ==> (code != 401 && code != 403 ==> next
            == Stage::Pausing && deed == Deed::TellAndPause(Msg::Ws(WsMsg::WsDisconnected), 3)),
        h is BadAddress ==> next == Stage::Pausing,
{
}

// ---------------------------------------------------------------------------
// The start
// ---------------------------------------------------------------------------

proof fn lemma_with_cached(
    known: Map<Seq<char>, DownloadedFile>,
    found: Seq<CachedFile>,
    name: Seq<char>,
)
    ensures
        with_cached(known, found).contains_key(name) <==> known.contains_key(name) || exists|i: int|
            0 <= i < found.len() && (#[trigger] found[i]).name@ == name,
        (forall|i: int| 0 <= i < found.len() ==> (#[trigger] found[i]).name@ != name)
            && known.contains_key(name) ==> with_cached(known, found)[name] == known[name],
        (exists|i: int| 0 <= i < found.len() && (#[trigger] found[i]).name@ == name) ==> exists|i: int|
            0 <= i < found.len() && (#[trigger] found[i]).name@ == name && with_cached(
                known,
                found,
            )[name].path == Some(found[i].path) && (!found[i].is_image ==> with_cached(
                known,
                found,
            )[name].image is None) && (found[i].is_image && found[i].bytes is Some
                && found[i].bytes->0@.len() <= 50_000_000 ==> with_cached(known, found)[name].image
                == found[i].bytes),
    decreases found.len(),
{
    if found.len() > 0 {
        let init = found.drop_last();
        lemma_with_cached(known, init, name);
        assert forall|i: int| 0 <= i < init.len() implies found[i] == #[trigger] init[i] by {}
        let last = found[found.len() - 1];
        if last.name@ == name {
            assert(found[found.len() - 1].name@ == name);
        } else {
            if exists|i: int| 0 <= i < found.len() && (#[trigger] found[i]).name@ == name {
                let i = choose|i: int| 0 <= i < found.len() && (#[trigger] found[i]).name@ == name;
                assert(init[i].name@ == name);
            }
            if exists|i: int| 0 <= i < init.len() && (#[trigger] init[i]).name@ == name {
                let i = choose|i: int|
                    0 <= i < init.len() && (#[trigger] init[i]).name@ == name && with_cached(
                        known,
                        init,
                    )[name].path == Some(init[i].path) && (!init[i].is_image ==> with_cached(
                        known,
                        init,
                    )[name].image is None) && (init[i].is_image && init[i].bytes is Some
                        && init[i].bytes->0@.len() <= 50_000_000 ==> with_cached(known, init)[name].image
                        == init[i].bytes);
                assert(found[i].name@ == name);
            }
            if forall|i: int| 0 <= i < found.len() ==> (#[trigger] found[i]).name@ != name {
                assert forall|i: int| 0 <= i < init.len() implies (#[trigger] init[i]).name@ != name by {
                    assert(found[i] == init[i]);
                }
            }
        }
    }
}

/// Every file that lies in the cache is there at the start under its name, with the place where it
/// lies; an image that is not too large is shown. Files that were known and do not lie there stay.
pub proof fn cached_files_are_there(
    known: Map<Seq<char>, DownloadedFile>,
    found: Seq<CachedFile>,
    name: Seq<char>,
)
    ensures
        with_cached(known, found).contains_key(name) <==> known.contains_key(name) || exists|i: int|
            0 <= i < found.len() && (#[trigger] found[i]).name@ == name,
        (exists|i: int| 0 <= i < found.len() && (#[trigger] found[i]).name@ == name) ==> exists|i: int|
            0 <= i < found.len() && (#[trigger] found[i]).name@ == name && with_cached(
                known,
                found,
            )[name].path == Some(found[i].path) && (!found[i].is_image ==> with_cached(
                known,
                found,
            )[name].image is None) && (found[i].is_image && found[i].bytes is Some
                && found[i].bytes->0@.len() <= 50_000_000 ==> with_cached(known, found)[name].image
                == found[i].bytes),
        (forall|i: int| 0 <= i < found.len() ==> (#[trigger] found[i]).name@ != name)
            && known.contains_key(name) ==> with_cached(known, found)[name] == known[name],
{
    lemma_with_cached(known, found, name);
}

} // verus!
