//! The texts that go over the socket and over the connections between users.

use vstd::prelude::*;

use crate::json::{json_number, json_object, json_text, plain_keys};
use crate::p2p::ServingFile;
use crate::text::copy_text;

verus! {

/// A text value of a frame.
pub open spec fn says(frame: Seq<char>, pointer: Seq<char>, value: Seq<char>) -> bool {
    json_text(frame, pointer) == Some(value)
}

/// A number in a frame.
pub open spec fn counts(frame: Seq<char>, pointer: Seq<char>, value: u64) -> bool {
    json_number(frame, pointer) == Some(value)
}

fn text_pair(list: &mut Vec<(String, Option<String>)>, key: &str, value: &str)
    ensures
        final(list)@.len() == old(list)@.len() + 1,
        final(list)@.last().0@ == key@,
        final(list)@.last().1 matches Some(v) && v@ == value@,
        forall|i: int| 0 <= i < old(list)@.len() ==> final(list)@[i] == #[trigger] old(list)@[i],
{
    list.push((copy_text(key), Some(copy_text(value))));
}

fn number_pair(list: &mut Vec<(String, u64)>, key: &str, value: u64)
    ensures
        final(list)@.len() == old(list)@.len() + 1,
        final(list)@.last().0@ == key@,
        final(list)@.last().1 == value,
        forall|i: int| 0 <= i < old(list)@.len() ==> final(list)@[i] == #[trigger] old(list)@[i],
{
    list.push((copy_text(key), value));
}

/// A signal to another user.
pub fn signal_frame(kind: &str, to_user_id: u64, file_id: &str, data: Option<String>) -> (r: String)
    ensures
        says(r@, "/type"@, kind@),
        says(r@, "/file_id"@, file_id@),
        counts(r@, "/to_user_id"@, to_user_id),
        match data {
            Some(d) => says(r@, "/data"@, d@),
            None => json_text(r@, "/data"@) is None,
        },
{
    let mut texts: Vec<(String, Option<String>)> = Vec::new();
    text_pair(&mut texts, "type", kind);
    text_pair(&mut texts, "file_id", file_id);
    texts.push((copy_text("data"), data));
    let mut numbers: Vec<(String, u64)> = Vec::new();
    number_pair(&mut numbers, "to_user_id", to_user_id);
    proof {
        reveal_strlit("type");
        reveal_strlit("file_id");
        reveal_strlit("data");
        reveal_strlit("to_user_id");
        reveal_strlit("/");
        reveal_strlit("/type");
        reveal_strlit("/file_id");
        reveal_strlit("/data");
        reveal_strlit("/to_user_id");
        assert("/"@ + "type"@ =~= "/type"@);
        assert("/"@ + "file_id"@ =~= "/file_id"@);
        assert("/"@ + "data"@ =~= "/data"@);
        assert("/"@ + "to_user_id"@ =~= "/to_user_id"@);
        assert(texts@[0].0@ == "type"@);
        assert(texts@[1].0@ == "file_id"@);
        assert(texts@[2].0@ == "data"@);
        assert(numbers@[0].0@ == "to_user_id"@);
        assert("type"@ != "data"@) by {
            assert("type"@[0] != "data"@[0]);
        }
        assert(plain_keys(texts@, numbers@));
    }
    json_object(&texts, &numbers)
}

/// A frame describes a file.
pub open spec fn describes_file(frame: Seq<char>, file: ServingFile) -> bool {
    &&& says(frame, "/type"@, "file"@)
    &&& says(frame, "/file_id"@, file.file_id@)
    &&& says(frame, "/name"@, file.name@)
    &&& says(frame, "/mime"@, file.mime@)
    &&& counts(frame, "/size"@, file.size)
}

/// The description of a file that is about to be streamed.
pub fn file_frame(file: &ServingFile) -> (r: String)
    ensures
        describes_file(r@, *file),
{
    let mut texts: Vec<(String, Option<String>)> = Vec::new();
    text_pair(&mut texts, "type", "file");
    text_pair(&mut texts, "file_id", file.file_id.as_str());
    text_pair(&mut texts, "name", file.name.as_str());
    text_pair(&mut texts, "mime", file.mime.as_str());
    let mut numbers: Vec<(String, u64)> = Vec::new();
    number_pair(&mut numbers, "size", file.size);
    proof {
        reveal_strlit("type");
        reveal_strlit("file_id");
        reveal_strlit("name");
        reveal_strlit("mime");
        reveal_strlit("size");
        reveal_strlit("/");
        reveal_strlit("/type");
        reveal_strlit("/file_id");
        reveal_strlit("/name");
        reveal_strlit("/mime");
        reveal_strlit("/size");
        assert("/"@ + "type"@ =~= "/type"@);
        assert("/"@ + "file_id"@ =~= "/file_id"@);
        assert("/"@ + "name"@ =~= "/name"@);
        assert("/"@ + "mime"@ =~= "/mime"@);
        assert("/"@ + "size"@ =~= "/size"@);
        assert(texts@[0].0@ == "type"@);
        assert(texts@[1].0@ == "file_id"@);
        assert(texts@[2].0@ == "name"@);
        assert(texts@[3].0@ == "mime"@);
        assert(numbers@[0].0@ == "size"@);
        assert("type"@[0] != "name"@[0]);
        assert("type"@[0] != "mime"@[0]);
        assert("name"@[0] != "mime"@[0]);
        assert("size"@[0] != "type"@[0] && "size"@[0] != "name"@[0] && "size"@[0] != "mime"@[0]);
        assert(plain_keys(texts@, numbers@));
    }
    json_object(&texts, &numbers)
}

/// A frame with nothing but a kind.
fn kind_frame(kind: &str) -> (r: String)
    ensures
        says(r@, "/type"@, kind@),
{
    let mut texts: Vec<(String, Option<String>)> = Vec::new();
    text_pair(&mut texts, "type", kind);
    let numbers: Vec<(String, u64)> = Vec::new();
    proof {
        reveal_strlit("type");
        reveal_strlit("/");
        reveal_strlit("/type");
        assert("/"@ + "type"@ =~= "/type"@);
        assert(texts@[0].0@ == "type"@);
        assert(plain_keys(texts@, numbers@));
    }
    json_object(&texts, &numbers)
}

/// The mark that all of a file was sent.
pub fn done_frame() -> (r: String)
    ensures
        says(r@, "/type"@, "done"@),
{
    kind_frame("done")
}

/// The answer to a file that was received in full.
pub fn ack_frame() -> (r: String)
    ensures
        r@ == "{\"type\":\"ack\"}"@,
{
    copy_text("{\"type\":\"ack\"}")
}

/// The user types in a conversation.
pub fn typing_frame(conversation_id: u64) -> (r: String)
    ensures
        says(r@, "/type"@, "typing"@),
        counts(r@, "/conversation_id"@, conversation_id),
{
    let mut texts: Vec<(String, Option<String>)> = Vec::new();
    text_pair(&mut texts, "type", "typing");
    let mut numbers: Vec<(String, u64)> = Vec::new();
    number_pair(&mut numbers, "conversation_id", conversation_id);
    proof {
        reveal_strlit("type");
        reveal_strlit("conversation_id");
        reveal_strlit("/");
        reveal_strlit("/type");
        reveal_strlit("/conversation_id");
        assert("/"@ + "type"@ =~= "/type"@);
        assert("/"@ + "conversation_id"@ =~= "/conversation_id"@);
        assert(texts@[0].0@ == "type"@);
        assert(numbers@[0].0@ == "conversation_id"@);
        assert(plain_keys(texts@, numbers@));
    }
    json_object(&texts, &numbers)
}

/// The user joins or leaves a voice channel; `kind` says which.
fn channel_frame(kind: &str, guild_id: u64, channel_id: u64) -> (r: String)
    ensures
        says(r@, "/type"@, kind@),
        counts(r@, "/guild_id"@, guild_id),
        counts(r@, "/channel_id"@, channel_id),
{
    let mut texts: Vec<(String, Option<String>)> = Vec::new();
    text_pair(&mut texts, "type", kind);
    let mut numbers: Vec<(String, u64)> = Vec::new();
    number_pair(&mut numbers, "guild_id", guild_id);
    number_pair(&mut numbers, "channel_id", channel_id);
    proof {
        reveal_strlit("type");
        reveal_strlit("guild_id");
        reveal_strlit("channel_id");
        reveal_strlit("/");
        reveal_strlit("/type");
        reveal_strlit("/guild_id");
        reveal_strlit("/channel_id");
        assert("/"@ + "type"@ =~= "/type"@);
        assert("/"@ + "guild_id"@ =~= "/guild_id"@);
        assert("/"@ + "channel_id"@ =~= "/channel_id"@);
        assert(texts@[0].0@ == "type"@);
        assert(numbers@[0].0@ == "guild_id"@);
        assert(numbers@[1].0@ == "channel_id"@);
        assert(plain_keys(texts@, numbers@));
    }
    json_object(&texts, &numbers)
}

/// The user joins a voice channel.
pub fn join_frame(guild_id: u64, channel_id: u64) -> (r: String)
    ensures
        says(r@, "/type"@, "voice_join"@),
        counts(r@, "/guild_id"@, guild_id),
        counts(r@, "/channel_id"@, channel_id),
{
    channel_frame("voice_join", guild_id, channel_id)
}

/// The user leaves a voice channel.
pub fn leave_frame(guild_id: u64, channel_id: u64) -> (r: String)
    ensures
        says(r@, "/type"@, "voice_leave"@),
        counts(r@, "/guild_id"@, guild_id),
        counts(r@, "/channel_id"@, channel_id),
{
    channel_frame("voice_leave", guild_id, channel_id)
}

/// A text holds a session.
pub open spec fn holds_session(text: Seq<char>, server: Seq<char>, token: Seq<char>) -> bool {
    says(text, "/server"@, server) && says(text, "/token"@, token)
}

/// The file that a session is kept in.
pub fn session_file(server: &str, token: &str) -> (r: String)
    ensures
        holds_session(r@, server@, token@),
{
    let mut texts: Vec<(String, Option<String>)> = Vec::new();
    text_pair(&mut texts, "server", server);
    text_pair(&mut texts, "token", token);
    let numbers: Vec<(String, u64)> = Vec::new();
    proof {
        reveal_strlit("server");
        reveal_strlit("token");
        reveal_strlit("/");
        reveal_strlit("/server");
        reveal_strlit("/token");
        assert("/"@ + "server"@ =~= "/server"@);
        assert("/"@ + "token"@ =~= "/token"@);
        assert(texts@[0].0@ == "server"@);
        assert(texts@[1].0@ == "token"@);
        assert(plain_keys(texts@, numbers@));
    }
    json_object(&texts, &numbers)
}

/// The file that the accent colour is kept in.
pub fn accent_file(hex: &str) -> (r: String)
    ensures
        says(r@, "/accent"@, hex@),
{
    let mut texts: Vec<(String, Option<String>)> = Vec::new();
    text_pair(&mut texts, "accent", hex);
    let numbers: Vec<(String, u64)> = Vec::new();
    proof {
        reveal_strlit("accent");
        reveal_strlit("/");
        reveal_strlit("/accent");
        assert("/"@ + "accent"@ =~= "/accent"@);
        assert(texts@[0].0@ == "accent"@);
        assert(plain_keys(texts@, numbers@));
    }
    json_object(&texts, &numbers)
}

} // verus!
